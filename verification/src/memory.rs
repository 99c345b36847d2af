use vstd::prelude::*;
use vstd::string::*;
use crate::types::{Buffer, BufferArray, Diagnostic, DiagnosticSeverity, SourceLocation};

verus! {

/// Converts an owned string into a boundary buffer that owns exactly the
/// string's UTF-8 bytes, tagged with their length.
pub fn string_to_buffer(s: String) -> (r: Buffer)
    ensures
        r.wf(),
        r.data@ == vstd::utf8::encode_utf8(s@),
{
    let bytes = s.as_str().as_bytes_vec();
    let len = bytes.len();
    Buffer { data: bytes, len }
}

/// Converts an owned byte sequence into a boundary buffer that owns
/// exactly those bytes, tagged with their length.
pub fn vec_to_buffer(v: Vec<u8>) -> (r: Buffer)
    ensures
        r.wf(),
        r.data@ == v@,
{
    let len = v.len();
    Buffer { data: v, len }
}

/// Converts a sequence of byte sequences into a boundary buffer array.
/// Each inner sequence is converted independently and order is kept.
pub fn vecs_to_buffer_array(vecs: Vec<Vec<u8>>) -> (r: BufferArray)
    ensures
        r.wf(),
        r.buffers@.len() == vecs@.len(),
        forall|i: int| 0 <= i < vecs@.len() ==> (#[trigger] r.buffers@[i]).data@ == vecs@[i]@,
{
    let ghost all = vecs@;
    let mut vecs = vecs;
    let mut reversed: Vec<Vec<u8>> = Vec::new();
    loop
        invariant
            all.len() == vecs@.len() + reversed@.len(),
            vecs@ == all.take(vecs@.len() as int),
            forall|i: int|
                0 <= i < reversed@.len() ==> #[trigger] reversed@[i]@ == all[all.len() - 1 - i]@,
        ensures
            reversed@.len() == all.len(),
            forall|i: int|
                0 <= i < reversed@.len() ==> #[trigger] reversed@[i]@ == all[all.len() - 1 - i]@,
        decreases vecs@.len(),
    {
        let ghost n = vecs@.len() as int;
        match vecs.pop() {
            Some(inner) => {
                proof {
                    assert(inner@ == all.take(n)[n - 1]@);
                    assert(all.take(n)[n - 1] == all[n - 1]);
                    assert(all.take(n).take(n - 1) =~= all.take(n - 1));
                }
                reversed.push(inner);
            },
            None => {
                break;
            },
        }
    }
    let mut buffers: Vec<Buffer> = Vec::new();
    loop
        invariant
            all.len() == reversed@.len() + buffers@.len(),
            forall|i: int|
                0 <= i < reversed@.len() ==> #[trigger] reversed@[i]@ == all[all.len() - 1 - i]@,
            forall|i: int|
                0 <= i < buffers@.len() ==> (#[trigger] buffers@[i]).data@ == all[i]@,
            forall|i: int| 0 <= i < buffers@.len() ==> (#[trigger] buffers@[i]).wf(),
        ensures
            buffers@.len() == all.len(),
            forall|i: int|
                0 <= i < buffers@.len() ==> (#[trigger] buffers@[i]).data@ == all[i]@,
            forall|i: int| 0 <= i < buffers@.len() ==> (#[trigger] buffers@[i]).wf(),
        decreases reversed@.len(),
    {
        match reversed.pop() {
            Some(inner) => {
                buffers.push(vec_to_buffer(inner));
            },
            None => {
                break;
            },
        }
    }
    let len = buffers.len();
    BufferArray { buffers, len }
}

/// Creates one boundary diagnostic from its components. An absent
/// location is recorded as the all-zero location, never as a sentinel.
pub fn create_diagnostic(
    severity: DiagnosticSeverity,
    message: String,
    location: Option<(u32, u32, u32)>,
) -> (r: Diagnostic)
    ensures
        r.wf(),
        r.severity == severity,
        r.message@ == vstd::utf8::encode_utf8(message@),
        match location {
            Some(loc) => r.location == (SourceLocation {
                line: loc.0,
                column: loc.1,
                length: loc.2,
            }),
            None => r.location.is_absent(),
        },
{
    let message_buf = string_to_buffer(message);
    let location = match location {
        Some(loc) => SourceLocation { line: loc.0, column: loc.1, length: loc.2 },
        None => SourceLocation::default(),
    };
    Diagnostic {
        severity,
        message: message_buf.data,
        message_len: message_buf.len,
        location,
    }
}

/// Converts an owned diagnostic collection into the flat array-and-count
/// pair that crosses the boundary. Contents and order are kept exactly.
pub fn diagnostics_to_array(diagnostics: Vec<Diagnostic>) -> (r: (Vec<Diagnostic>, usize))
    ensures
        r.0@ == diagnostics@,
        r.1 == diagnostics@.len(),
{
    let len = diagnostics.len();
    (diagnostics, len)
}

} // verus!
