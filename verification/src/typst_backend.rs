use vstd::prelude::*;
use vstd::string::*;
use crate::lines::{span_location, span_location_spec};
use crate::textfmt::{concat_str, dec_str, join_all, join_sep, usize_to_string};

verus! {

// The isolation layer around the typesetting engine. Everything the
// engine computes itself (layout, shaping, SVG and PDF generation) is
// reached through the trusted wrappers below; the logic around those
// calls is verified.

/// Severity of an engine diagnostic.
#[derive(Clone, Copy, Debug, PartialEq, Eq, Structural)]
pub enum DiagnosticSeverity {
    Error,
    Warning,
}

/// A resolved source location: 1-indexed line and column, byte width.
#[derive(Clone, Copy, Debug, PartialEq, Eq, Structural)]
pub struct BackendLocation {
    pub line: u32,
    pub column: u32,
    pub length: u32,
}

/// An engine diagnostic reduced to plain values: severity, the message
/// with all hints folded in, and an optional resolved location.
pub struct BackendDiagnostic {
    pub severity: DiagnosticSeverity,
    pub message: String,
    pub location: Option<BackendLocation>,
}

#[verifier::external_type_specification]
#[verifier::external_body]
pub struct ExPagedDocument(typst::layout::PagedDocument);

/// The SVG rendering of each page of a compiled document, in page
/// order: what typst_svg::svg returns on page `i`, as UTF-8 bytes.
/// The rendering is a function of the compiled document alone.
pub uninterp spec fn doc_svg_pages(d: typst::layout::PagedDocument) -> Seq<Seq<u8>>;

/// Relies on PagedDocument::pages: a compiled document holds one
/// renderable page per entry, so its length is the page count.
#[verifier::external_body]
fn page_count_raw(d: &typst::layout::PagedDocument) -> (r: usize)
    ensures
        r == doc_svg_pages(*d).len(),
{
    d.pages.len()
}

/// Relies on typst_svg::svg: renders one page of the document to SVG,
/// a deterministic function of the page.
#[verifier::external_body]
fn render_page_svg_raw(d: &typst::layout::PagedDocument, page_index: usize) -> (r: Vec<u8>)
    requires
        page_index < doc_svg_pages(*d).len(),
    ensures
        r@ == doc_svg_pages(*d)[page_index as int],
{
    typst_svg::svg(&d.pages[page_index]).into_bytes()
}

/// What typst_pdf::pdf returns for a document under default options:
/// the PDF bytes, or the engine's error messages. With the default
/// options no timestamp is set and the identifier derives from the
/// document's metadata, so the outcome is a function of the compiled
/// document alone.
pub uninterp spec fn pdf_output(d: typst::layout::PagedDocument) -> Result<Seq<u8>, Seq<Seq<char>>>;

/// Relies on typst_pdf::pdf with default options: renders the whole
/// document to PDF bytes, or reports the engine's error messages, in
/// order; deterministic in the document.
#[verifier::external_body]
fn render_pdf_raw(d: &typst::layout::PagedDocument) -> (r: Result<Vec<u8>, Vec<String>>)
    ensures
        r is Ok <==> pdf_output(*d) is Ok,
        r matches Ok(bytes) ==> (pdf_output(*d) matches Ok(b) && bytes@ == b),
        r matches Err(messages) ==> (pdf_output(*d) matches Err(msgs) && messages.deep_view()
            == msgs),
{
    match typst_pdf::pdf(d, &typst_pdf::PdfOptions::default()) {
        Ok(bytes) => Ok(bytes),
        Err(errors) => Err(errors.iter().map(|e| e.message.to_string()).collect()),
    }
}

/// An owned compiled document: an ordered sequence of pages, immutable
/// after creation.
pub struct BackendDocument {
    inner: typst::layout::PagedDocument,
}

/// The out-of-bounds message for a page index against a page count.
pub open spec fn page_oob_message(index: nat, count: nat) -> Seq<char> {
    "Page index "@ + dec_str(index) + " out of bounds (document has "@ + dec_str(count)
        + " pages)"@
}

impl BackendDocument {
    /// The per-page SVG renderings this document stands for.
    pub closed spec fn pages(self) -> Seq<Seq<u8>> {
        doc_svg_pages(self.inner)
    }

    /// The document's PDF rendering under default options: the bytes,
    /// or the engine's error messages.
    pub closed spec fn pdf(self) -> Result<Seq<u8>, Seq<Seq<char>>> {
        pdf_output(self.inner)
    }

    /// Wraps a compiled document of the engine.
    pub fn new(inner: typst::layout::PagedDocument) -> (r: Self)
        ensures
            r.pages() == doc_svg_pages(inner),
            r.pdf() == pdf_output(inner),
    {
        BackendDocument { inner }
    }

    /// The number of pages of the document.
    pub fn page_count(&self) -> (r: usize)
        ensures
            r == self.pages().len(),
    {
        page_count_raw(&self.inner)
    }

    /// Renders one page to SVG. Fails exactly when `page_index` is out
    /// of bounds, with a message naming the index and the page count.
    pub fn render_page_svg(&self, page_index: usize) -> (r: Result<Vec<u8>, String>)
        ensures
            match r {
                Ok(bytes) => page_index < self.pages().len() && bytes@ == self.pages()[
                    page_index as int
                ],
                Err(m) => page_index >= self.pages().len() && m@ == page_oob_message(
                    page_index as nat,
                    self.pages().len(),
                ),
            },
    {
        let count = self.page_count();
        if page_index >= count {
            let mut m = concat_str("Page index ", usize_to_string(page_index).as_str());
            m.append(" out of bounds (document has ");
            m.append(usize_to_string(count).as_str());
            m.append(" pages)");
            return Err(m);
        }
        Ok(render_page_svg_raw(&self.inner, page_index))
    }

    /// Renders every page to SVG, in page order. Fails exactly when the
    /// document has no pages.
    pub fn render_all_pages_svg(&self) -> (r: Result<Vec<Vec<u8>>, String>)
        ensures
            match r {
                Ok(pages) => {
                    &&& self.pages().len() > 0
                    &&& pages@.len() == self.pages().len()
                    &&& forall|i: int|
                        0 <= i < pages@.len() ==> #[trigger] pages@[i]@ == self.pages()[i]
                },
                Err(m) => self.pages().len() == 0 && m@ == "Document has no pages to render"@,
            },
    {
        let count = self.page_count();
        if count == 0 {
            return Err("Document has no pages to render".to_owned());
        }
        let mut results: Vec<Vec<u8>> = Vec::new();
        let mut i: usize = 0;
        while i < count
            invariant
                count == self.pages().len(),
                i <= count,
                results@.len() == i,
                forall|j: int| 0 <= j < i ==> #[trigger] results@[j]@ == self.pages()[j],
            decreases count - i,
        {
            results.push(render_page_svg_raw(&self.inner, i));
            i = i + 1;
        }
        Ok(results)
    }

    /// Renders the whole document to PDF: exactly the engine's bytes on
    /// success, and on an engine rendering error exactly one message
    /// joining all underlying error messages.
    pub fn render_pdf(&self) -> (r: Result<Vec<u8>, String>)
        ensures
            r is Ok <==> self.pdf() is Ok,
            r matches Ok(bytes) ==> (self.pdf() matches Ok(b) && bytes@ == b),
            r matches Err(m) ==> (self.pdf() matches Err(msgs) && m@
                == "PDF rendering failed: "@ + join_sep(msgs, "; "@)),
    {
        match render_pdf_raw(&self.inner) {
            Ok(bytes) => Ok(bytes),
            Err(messages) => Err(pdf_error_message(&messages)),
        }
    }
}

/// The message reported when the engine's PDF stage fails: a fixed
/// prefix followed by every underlying message, joined by `"; "`.
pub fn pdf_error_message(messages: &Vec<String>) -> (r: String)
    ensures
        r@ == "PDF rendering failed: "@ + join_sep(messages.deep_view(), "; "@),
{
    let joined = join_all(messages, "; ");
    concat_str("PDF rendering failed: ", joined.as_str())
}

/// Result of one engine compilation, reduced to plain values.
pub struct BackendCompileResult {
    pub success: bool,
    pub document: Option<BackendDocument>,
    pub diagnostics: Vec<BackendDiagnostic>,
}

/// Assembles the result of a compilation run: success exactly when a
/// document was produced; on success only the warnings are reported, on
/// failure the errors come first, then the warnings.
pub fn finish_compile(
    document: Option<BackendDocument>,
    errors: Vec<BackendDiagnostic>,
    warnings: Vec<BackendDiagnostic>,
) -> (r: BackendCompileResult)
    requires
        document is None ==> errors@.len() > 0,
    ensures
        r.success == (document is Some),
        r.document == document,
        document is Some ==> r.diagnostics@ == warnings@,
        document is None ==> r.diagnostics@ == errors@ + warnings@,
        !r.success ==> r.diagnostics@.len() > 0,
{
    match document {
        Some(doc) => BackendCompileResult {
            success: true,
            document: Some(doc),
            diagnostics: warnings,
        },
        None => {
            let mut all = errors;
            let mut warnings = warnings;
            all.append(&mut warnings);
            BackendCompileResult { success: false, document: None, diagnostics: all }
        },
    }
}

/// The primary message with each hint appended on its own line,
/// prefixed `Hint: `, in original order.
pub open spec fn folded_message(msg: Seq<char>, hints: Seq<Seq<char>>) -> Seq<char>
    decreases hints.len(),
{
    if hints.len() == 0 {
        msg
    } else {
        folded_message(msg + "\nHint: "@ + hints[0], hints.drop_first())
    }
}

/// The location of a byte range of a source, as the translator reports
/// it: `None` when the range cannot be resolved.
pub open spec fn translated_location(text: Seq<u8>, start: int, end: int) -> Option<
    BackendLocation,
> {
    match span_location_spec(text, start, end) {
        Some(loc) => Some(BackendLocation { line: loc.0, column: loc.1, length: loc.2 }),
        None => None,
    }
}

/// Translates one engine diagnostic into plain values: the hints are
/// folded into the message, and the byte span — when it resolved to a
/// source text and a byte range within it — becomes a 1-indexed line
/// and column with a byte width. An unresolvable span yields an absent
/// location, never a sentinel.
pub fn translate_diagnostic(
    severity: DiagnosticSeverity,
    message: String,
    hints: &Vec<String>,
    resolved: Option<(Vec<u8>, usize, usize)>,
) -> (r: BackendDiagnostic)
    requires
        resolved matches Some(span) ==> span.1 <= span.2,
    ensures
        r.severity == severity,
        r.message@ == folded_message(message@, hints.deep_view()),
        match resolved {
            Some(span) => r.location == translated_location(span.0@, span.1 as int, span.2 as int),
            None => r.location is None,
        },
{
    let ghost all_hints = hints.deep_view();
    proof {
        assert(all_hints.skip(0) =~= all_hints);
    }
    let mut msg = message;
    let n = hints.len();
    let mut i: usize = 0;
    while i < n
        invariant
            all_hints == hints.deep_view(),
            n == all_hints.len(),
            i <= n,
            n == hints@.len(),
            folded_message(msg@, all_hints.skip(i as int)) == folded_message(
                message@,
                all_hints,
            ),
        decreases n - i,
    {
        msg.append("\nHint: ");
        msg.append(hints[i].as_str());
        proof {
            assert(all_hints.skip(i as int)[0] == all_hints[i as int]);
            assert(hints.deep_view() =~= Seq::new(hints@.len(), |j: int| hints@[j]@));
            assert(all_hints[i as int] == hints@[i as int]@);
            assert(all_hints.skip(i as int).drop_first() =~= all_hints.skip(i as int + 1));
        }
        i = i + 1;
    }
    proof {
        assert(all_hints.skip(n as int) =~= Seq::<Seq<char>>::empty());
    }
    let location = match resolved {
        Some(span) => {
            match span_location(span.0.as_slice(), span.1, span.2) {
                Some(loc) => Some(
                    BackendLocation { line: loc.0, column: loc.1, length: loc.2 },
                ),
                None => None,
            }
        },
        None => None,
    };
    BackendDiagnostic { severity, message: msg, location }
}

} // verus!
