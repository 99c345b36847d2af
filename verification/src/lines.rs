use vstd::prelude::*;
use vstd::utf8::is_continuation_byte;

verus! {

// Line and column lookup over UTF-8 encoded source text.
//
// A diagnostic span carries a byte offset into a source. The translator
// turns that offset into a 0-based line and column by scanning the bytes
// before the offset for line breaks: LF, VT, FF and CR (with CR LF
// counting as a single break), and the UTF-8 encodings of NEL (C2 85),
// LINE SEPARATOR (E2 80 A8) and PARAGRAPH SEPARATOR (E2 80 A9).
// The column counts the characters between the last break and the
// offset, measured as the number of non-continuation bytes.

/// Length in bytes of the line break starting at position `p` of `s`,
/// or 0 when no break starts there.
pub open spec fn break_len_at(s: Seq<u8>, p: int) -> int {
    if p < 0 || p >= s.len() {
        0
    } else if s[p] == 0x0du8 {
        if p + 1 < s.len() && s[p + 1] == 0x0au8 {
            2
        } else {
            1
        }
    } else if s[p] == 0x0au8 || s[p] == 0x0bu8 || s[p] == 0x0cu8 {
        1
    } else if s[p] == 0xc2u8 && p + 1 < s.len() && s[p + 1] == 0x85u8 {
        2
    } else if s[p] == 0xe2u8 && p + 2 < s.len() && s[p + 1] == 0x80u8 && (s[p + 2] == 0xa8u8
        || s[p + 2] == 0xa9u8) {
        3
    } else {
        0
    }
}

/// Scans `s` from position `p` up to `end`, starting from the given
/// 0-based line and column accumulators, and yields the 0-based line
/// and column at `end`. A break that ends past `end` is not taken as a
/// break: its leading bytes count towards the column instead.
pub open spec fn scan_line_col(s: Seq<u8>, end: int, p: int, line: nat, col: nat) -> (nat, nat)
    decreases end - p,
{
    if p >= end {
        (line, col)
    } else {
        let l = break_len_at(s, p);
        if l > 0 && p + l <= end {
            scan_line_col(s, end, p + l, (line + 1) as nat, 0)
        } else if is_continuation_byte(s[p]) {
            scan_line_col(s, end, p + 1, line, col)
        } else {
            scan_line_col(s, end, p + 1, line, (col + 1) as nat)
        }
    }
}

/// The 0-based line and column of byte position `end` in `s`.
pub open spec fn line_col_at(s: Seq<u8>, end: int) -> (nat, nat) {
    scan_line_col(s, end, 0, 0, 0)
}

/// The location record for a byte range of a source text: 1-based line
/// and column of the range's start, and the range's byte width. `None`
/// when the offset lies outside the text or a field would not fit the
/// record; no sentinel value is ever substituted.
pub open spec fn span_location_spec(s: Seq<u8>, start: int, end: int) -> Option<(u32, u32, u32)> {
    if start > s.len() {
        None
    } else {
        let lc = line_col_at(s, start);
        if lc.0 + 1 <= u32::MAX && lc.1 + 1 <= u32::MAX && end - start <= u32::MAX {
            Some(((lc.0 + 1) as u32, (lc.1 + 1) as u32, (end - start) as u32))
        } else {
            None
        }
    }
}

/// Computes the 0-based line and column of byte position `end` in
/// `text` by a single forward scan.
pub fn compute_line_col(text: &[u8], end: usize) -> (r: (usize, usize))
    requires
        end <= text@.len(),
    ensures
        (r.0 as nat, r.1 as nat) == line_col_at(text@, end as int),
{
    let mut p: usize = 0;
    let mut line: usize = 0;
    let mut col: usize = 0;
    while p < end
        invariant
            end <= text@.len(),
            p <= end,
            line <= p,
            col <= p,
            line_col_at(text@, end as int) == scan_line_col(
                text@,
                end as int,
                p as int,
                line as nat,
                col as nat,
            ),
        decreases end - p,
    {
        let b = text[p];
        if b == 0x0d {
            if p + 1 < text.len() && text[p + 1] == 0x0a {
                if p + 2 <= end {
                    line = line + 1;
                    col = 0;
                    p = p + 2;
                } else {
                    col = col + 1;
                    p = p + 1;
                }
            } else {
                line = line + 1;
                col = 0;
                p = p + 1;
            }
        } else if b == 0x0a || b == 0x0b || b == 0x0c {
            line = line + 1;
            col = 0;
            p = p + 1;
        } else if b == 0xc2 && p + 1 < text.len() && text[p + 1] == 0x85 {
            if p + 2 <= end {
                line = line + 1;
                col = 0;
                p = p + 2;
            } else {
                col = col + 1;
                p = p + 1;
            }
        } else if b == 0xe2 && text.len() - p > 2 && text[p + 1] == 0x80 && (text[p + 2] == 0xa8
            || text[p + 2] == 0xa9) {
            if p + 3 <= end {
                line = line + 1;
                col = 0;
                p = p + 3;
            } else {
                col = col + 1;
                p = p + 1;
            }
        } else if 0x80 <= b && b <= 0xbf {
            p = p + 1;
        } else {
            col = col + 1;
            p = p + 1;
        }
    }
    (line, col)
}

/// Computes the boundary location of the byte range `start..end` of
/// `text`: 1-based line and column of `start` plus the byte width.
pub fn span_location(text: &[u8], start: usize, end: usize) -> (r: Option<(u32, u32, u32)>)
    requires
        start <= end,
    ensures
        r == span_location_spec(text@, start as int, end as int),
{
    if start > text.len() {
        return None;
    }
    let lc = compute_line_col(text, start);
    let width = end - start;
    if lc.0 < u32::MAX as usize && lc.1 < u32::MAX as usize && width <= u32::MAX as usize {
        Some(((lc.0 + 1) as u32, (lc.1 + 1) as u32, width as u32))
    } else {
        None
    }
}

} // verus!
