use vstd::prelude::*;
use vstd::utf8::encode_utf8;
use crate::memory::{create_diagnostic, diagnostics_to_array};
use crate::textfmt::concat_str;
use crate::types::{CompileResult, CompilerOptions, Diagnostic, DiagnosticSeverity, SourceLocation};
use crate::typst_backend::{BackendCompileResult, BackendDiagnostic, BackendDocument};

verus! {

// High-level compiler logic on plain values. The engine run itself goes
// through the isolation layer; everything before and after it — option
// decoding, diagnostic conversion, result assembly — is verified here.

/// Whether the string parses as well-formed JSON. A function of the
/// string alone.
pub uninterp spec fn json_value_wf(s: Seq<char>) -> bool;

/// Relies on serde_json::from_str::<Value>: succeeds exactly on
/// well-formed JSON, and the outcome depends on the string alone.
#[verifier::external_body]
fn check_json_value(s: &str) -> (r: Result<(), String>)
    ensures
        r is Ok <==> json_value_wf(s@),
{
    match serde_json::from_str::<serde_json::Value>(s) {
        Ok(_) => Ok(()),
        Err(e) => Err(e.to_string()),
    }
}

/// The strings held by a well-formed JSON array of strings, or `None`
/// when the input is not one. A function of the string alone.
pub uninterp spec fn json_string_array(s: Seq<char>) -> Option<Seq<Seq<char>>>;

/// Relies on serde_json::from_str::<Vec<String>>: succeeds exactly on a
/// well-formed JSON array of strings, yielding its elements in order;
/// the outcome depends on the string alone.
#[verifier::external_body]
fn parse_json_string_array(s: &str) -> (r: Result<Vec<String>, String>)
    ensures
        r is Ok <==> json_string_array(s@) is Some,
        r matches Ok(v) ==> Some(v.deep_view()) == json_string_array(s@),
{
    match serde_json::from_str::<Vec<String>>(s) {
        Ok(v) => Ok(v),
        Err(e) => Err(e.to_string()),
    }
}

/// Validates the caller-supplied structured inputs: absent inputs are
/// accepted as `None`; present inputs must be well-formed JSON and are
/// handed back verbatim; anything else is rejected with a message.
pub fn parse_inputs(options: &CompilerOptions) -> (r: Result<Option<String>, String>)
    ensures
        options.inputs_json is None ==> (r matches Ok(o) && o is None),
        options.inputs_json matches Some(j) ==> (r is Ok <==> json_value_wf(j@)),
        options.inputs_json matches Some(j) ==> (json_value_wf(j@) ==> (r matches Ok(o)
            && o matches Some(s) && s@ == j@)),
        r matches Err(m) ==> exists|detail: Seq<char>| m@ == "Invalid inputs JSON: "@ + detail,
{
    match &options.inputs_json {
        None => Ok(None),
        Some(j) => {
            match check_json_value(j.as_str()) {
                Ok(_) => Ok(Some(j.clone())),
                Err(e) => {
                    let m = concat_str("Invalid inputs JSON: ", e.as_str());
                    proof {
                        assert(m@ == "Invalid inputs JSON: "@ + e@);
                    }
                    Err(m)
                },
            }
        },
    }
}

/// Decodes the caller-supplied custom font search paths: absent input
/// yields no paths; present input must be a JSON array of strings.
pub fn parse_custom_font_paths(options: &CompilerOptions) -> (r: Result<Vec<String>, String>)
    ensures
        options.custom_font_paths is None ==> (r matches Ok(v) && v@.len() == 0),
        options.custom_font_paths matches Some(j) ==> (r is Ok <==> json_string_array(j@)
            is Some),
        options.custom_font_paths matches Some(j) ==> (r matches Ok(v) ==> Some(
            v.deep_view(),
        ) == json_string_array(j@)),
        r matches Err(m) ==> exists|detail: Seq<char>|
            m@ == "Invalid font paths JSON: "@ + detail,
{
    match &options.custom_font_paths {
        None => Ok(Vec::new()),
        Some(j) => {
            match parse_json_string_array(j.as_str()) {
                Ok(paths) => Ok(paths),
                Err(e) => {
                    let m = concat_str("Invalid font paths JSON: ", e.as_str());
                    proof {
                        assert(m@ == "Invalid font paths JSON: "@ + e@);
                    }
                    Err(m)
                },
            }
        },
    }
}

/// An owned document handle wrapping one compiled artifact; immutable
/// after creation.
pub struct DocumentInstance {
    backend_doc: BackendDocument,
}

impl DocumentInstance {
    /// The per-page SVG renderings of the wrapped document.
    pub closed spec fn pages(self) -> Seq<Seq<u8>> {
        self.backend_doc.pages()
    }

    /// The wrapped document's PDF rendering: the bytes, or the
    /// engine's error messages.
    pub closed spec fn pdf(self) -> Result<Seq<u8>, Seq<Seq<char>>> {
        self.backend_doc.pdf()
    }

    /// Wraps a compiled backend document.
    pub fn new(backend_doc: BackendDocument) -> (r: Self)
        ensures
            r.pages() == backend_doc.pages(),
            r.pdf() == backend_doc.pdf(),
    {
        DocumentInstance { backend_doc }
    }

    /// The number of pages in the document.
    pub fn page_count(&self) -> (r: usize)
        ensures
            r == self.pages().len(),
    {
        self.backend_doc.page_count()
    }

    /// Renders one page to SVG; fails exactly on an out-of-bounds index.
    pub fn render_page_svg(&self, page_index: usize) -> (r: Result<Vec<u8>, String>)
        ensures
            match r {
                Ok(bytes) => page_index < self.pages().len() && bytes@ == self.pages()[
                    page_index as int
                ],
                Err(m) => page_index >= self.pages().len() && m@
                    == crate::typst_backend::page_oob_message(
                    page_index as nat,
                    self.pages().len(),
                ),
            },
    {
        self.backend_doc.render_page_svg(page_index)
    }

    /// Renders all pages to SVG; fails exactly when there are no pages.
    pub fn render_all_pages_svg(&self) -> (r: Result<Vec<Vec<u8>>, String>)
        ensures
            match r {
                Ok(pages) => {
                    &&& self.pages().len() > 0
                    &&& pages@.len() == self.pages().len()
                    &&& forall|i: int|
                        0 <= i < pages@.len() ==> #[trigger] pages@[i]@ == self.pages()[i]
                },
                Err(m) => self.pages().len() == 0 && m@ == "Document has no pages to render"@,
            },
    {
        self.backend_doc.render_all_pages_svg()
    }

    /// Renders the document to PDF: exactly the engine's bytes on
    /// success; an engine failure becomes exactly one message joining
    /// the underlying error messages.
    pub fn render_pdf(&self) -> (r: Result<Vec<u8>, String>)
        ensures
            r is Ok <==> self.pdf() is Ok,
            r matches Ok(bytes) ==> (self.pdf() matches Ok(b) && bytes@ == b),
            r matches Err(m) ==> (self.pdf() matches Err(msgs) && m@
                == "PDF rendering failed: "@ + crate::textfmt::join_sep(msgs, "; "@)),
    {
        self.backend_doc.render_pdf()
    }
}

/// The severity of a boundary record for an engine severity.
pub open spec fn severity_from_backend(
    s: crate::typst_backend::DiagnosticSeverity,
) -> DiagnosticSeverity {
    match s {
        crate::typst_backend::DiagnosticSeverity::Error => DiagnosticSeverity::Error,
        crate::typst_backend::DiagnosticSeverity::Warning => DiagnosticSeverity::Warning,
    }
}

/// The boundary record `d` is the faithful conversion of the engine
/// diagnostic `b`: same severity, the message re-encoded as UTF-8
/// bytes, and the location copied or recorded as all-zero when absent.
pub open spec fn diag_matches(d: Diagnostic, b: BackendDiagnostic) -> bool {
    &&& d.wf()
    &&& d.severity == severity_from_backend(b.severity)
    &&& d.message@ == encode_utf8(b.message@)
    &&& match b.location {
        Some(loc) => d.location == (SourceLocation {
            line: loc.line,
            column: loc.column,
            length: loc.length,
        }),
        None => d.location.is_absent(),
    }
}

/// Converts one engine diagnostic into a boundary diagnostic record.
pub fn convert_backend_diagnostic(backend_diag: BackendDiagnostic) -> (r: Diagnostic)
    ensures
        diag_matches(r, backend_diag),
{
    let severity = match backend_diag.severity {
        crate::typst_backend::DiagnosticSeverity::Error => DiagnosticSeverity::Error,
        crate::typst_backend::DiagnosticSeverity::Warning => DiagnosticSeverity::Warning,
    };
    let location = match backend_diag.location {
        Some(loc) => Some((loc.line, loc.column, loc.length)),
        None => None,
    };
    create_diagnostic(severity, backend_diag.message, location)
}

/// Assembles the boundary compile result from an engine run: every
/// diagnostic is converted in order, and the document — present exactly
/// on success — is wrapped into an owned handle.
pub fn compile_result_from_backend(backend_result: BackendCompileResult) -> (r: CompileResult)
    requires
        backend_result.success <==> backend_result.document is Some,
    ensures
        r.wf(),
        r.success == backend_result.success,
        r.diagnostics@.len() == backend_result.diagnostics@.len(),
        forall|i: int|
            0 <= i < r.diagnostics@.len() ==> diag_matches(
                #[trigger] r.diagnostics@[i],
                backend_result.diagnostics@[i],
            ),
        backend_result.document matches Some(doc) ==> (r.document matches Some(inst)
            && inst.pages() == doc.pages() && inst.pdf() == doc.pdf()),
{
    let ghost all = backend_result.diagnostics@;
    let mut backend_diags = backend_result.diagnostics;
    let mut reversed: Vec<BackendDiagnostic> = Vec::new();
    loop
        invariant
            all.len() == backend_diags@.len() + reversed@.len(),
            backend_diags@ == all.take(backend_diags@.len() as int),
            forall|i: int|
                0 <= i < reversed@.len() ==> #[trigger] reversed@[i] == all[all.len() - 1 - i],
        ensures
            reversed@.len() == all.len(),
            forall|i: int|
                0 <= i < reversed@.len() ==> #[trigger] reversed@[i] == all[all.len() - 1 - i],
        decreases backend_diags@.len(),
    {
        let ghost n = backend_diags@.len() as int;
        match backend_diags.pop() {
            Some(d) => {
                proof {
                    assert(backend_diags@ =~= all.take(n - 1));
                }
                reversed.push(d);
            },
            None => {
                break;
            },
        }
    }
    let mut converted: Vec<Diagnostic> = Vec::new();
    loop
        invariant
            all.len() == reversed@.len() + converted@.len(),
            forall|i: int|
                0 <= i < reversed@.len() ==> #[trigger] reversed@[i] == all[all.len() - 1 - i],
            forall|i: int|
                0 <= i < converted@.len() ==> diag_matches(#[trigger] converted@[i], all[i]),
        ensures
            converted@.len() == all.len(),
            forall|i: int|
                0 <= i < converted@.len() ==> diag_matches(#[trigger] converted@[i], all[i]),
        decreases reversed@.len(),
    {
        match reversed.pop() {
            Some(d) => {
                converted.push(convert_backend_diagnostic(d));
            },
            None => {
                break;
            },
        }
    }
    let arr = diagnostics_to_array(converted);
    let document = match backend_result.document {
        Some(backend_doc) => Some(DocumentInstance::new(backend_doc)),
        None => None,
    };
    CompileResult {
        success: backend_result.success,
        diagnostics: arr.0,
        diagnostics_len: arr.1,
        document,
    }
}

} // verus!
