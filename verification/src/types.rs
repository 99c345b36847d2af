use vstd::prelude::*;

verus! {

/// Severity of a boundary diagnostic record.
#[derive(Clone, Copy, Debug, PartialEq, Eq, Structural)]
pub enum DiagnosticSeverity {
    Error,
    Warning,
    Hint,
}

/// The stable numeric code a severity carries in the boundary layout.
pub open spec fn severity_code(s: DiagnosticSeverity) -> u8 {
    match s {
        DiagnosticSeverity::Error => 0,
        DiagnosticSeverity::Warning => 1,
        DiagnosticSeverity::Hint => 2,
    }
}

impl DiagnosticSeverity {
    /// Numeric code of this severity in the boundary layout.
    pub fn code(&self) -> (r: u8)
        ensures
            r == severity_code(*self),
    {
        match *self {
            DiagnosticSeverity::Error => 0,
            DiagnosticSeverity::Warning => 1,
            DiagnosticSeverity::Hint => 2,
        }
    }
}

/// Source code location information: 1-indexed line and column plus the
/// byte width of the span. All fields zero means "no location available".
#[derive(Clone, Copy, Debug, PartialEq, Eq, Structural)]
pub struct SourceLocation {
    /// 1-indexed line number (0 if unavailable).
    pub line: u32,
    /// 1-indexed column number (0 if unavailable).
    pub column: u32,
    /// Byte width of the span (0 if unavailable).
    pub length: u32,
}

impl SourceLocation {
    /// Whether this location denotes "absent".
    pub open spec fn is_absent(self) -> bool {
        self.line == 0 && self.column == 0 && self.length == 0
    }
}

impl Default for SourceLocation {
    /// The absent location: all fields zero.
    fn default() -> (r: Self)
        ensures
            r.is_absent(),
    {
        SourceLocation { line: 0, column: 0, length: 0 }
    }
}

/// A length-tagged, boundary-owned sequence of bytes.
pub struct Buffer {
    pub data: Vec<u8>,
    pub len: usize,
}

impl Buffer {
    /// The length tag agrees with the owned bytes.
    pub open spec fn wf(self) -> bool {
        self.len == self.data@.len()
    }
}

/// A length-tagged sequence of buffers (one per rendered page).
pub struct BufferArray {
    pub buffers: Vec<Buffer>,
    pub len: usize,
}

impl BufferArray {
    /// The length tag agrees with the owned buffers, and each buffer is
    /// itself well-formed.
    pub open spec fn wf(self) -> bool {
        &&& self.len == self.buffers@.len()
        &&& forall|i: int| 0 <= i < self.buffers@.len() ==> (#[trigger] self.buffers@[i]).wf()
    }
}

/// A single boundary diagnostic: severity, UTF-8 message bytes, and an
/// optional source location.
pub struct Diagnostic {
    pub severity: DiagnosticSeverity,
    /// UTF-8 message bytes.
    pub message: Vec<u8>,
    pub message_len: usize,
    /// Location (all zeros if unavailable).
    pub location: SourceLocation,
}

impl Diagnostic {
    /// The message length tag agrees with the owned message bytes.
    pub open spec fn wf(self) -> bool {
        self.message_len == self.message@.len()
    }
}

/// Result of one compilation: a success flag, the collected diagnostics,
/// and the compiled document when compilation succeeded.
pub struct CompileResult {
    /// True if compilation succeeded.
    pub success: bool,
    /// Diagnostics (always present, possibly empty).
    pub diagnostics: Vec<Diagnostic>,
    pub diagnostics_len: usize,
    /// Compiled document (present exactly when compilation succeeded).
    pub document: Option<crate::compiler::DocumentInstance>,
}

impl CompileResult {
    /// Tags agree with contents, and the document is present exactly on
    /// success.
    pub open spec fn wf(self) -> bool {
        &&& self.diagnostics_len == self.diagnostics@.len()
        &&& forall|i: int|
            0 <= i < self.diagnostics@.len() ==> (#[trigger] self.diagnostics@[i]).wf()
        &&& self.success <==> self.document is Some
    }
}

impl Default for CompileResult {
    /// The null result: failure with no diagnostics and no document.
    fn default() -> (r: Self)
        ensures
            r.wf(),
            !r.success,
            r.diagnostics@.len() == 0,
            r.document is None,
    {
        CompileResult {
            success: false,
            diagnostics: Vec::new(),
            diagnostics_len: 0,
            document: None,
        }
    }
}

/// Caller-supplied configuration for a compiler session, already decoded
/// into plain values.
pub struct CompilerOptions {
    /// Include system fonts in the font inventory.
    pub include_system_fonts: bool,
    /// Structured inputs as a JSON object string, e.g. `{"key": "value"}`.
    pub inputs_json: Option<String>,
    /// Custom font search paths as a JSON array of strings.
    pub custom_font_paths: Option<String>,
    /// Root of an offline package repository.
    pub package_path: Option<String>,
}

impl Default for CompilerOptions {
    /// All options empty: no inputs, no custom fonts, no package root.
    fn default() -> (r: Self)
        ensures
            r.include_system_fonts == false,
            r.inputs_json is None,
            r.custom_font_paths is None,
            r.package_path is None,
    {
        CompilerOptions {
            include_system_fonts: false,
            inputs_json: None,
            custom_font_paths: None,
            package_path: None,
        }
    }
}

} // verus!
