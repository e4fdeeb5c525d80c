//! Line/column positions derived from byte offsets into the source buffer.
//!
//! A [`Pos`] is a 1-based `(line, column)` pair.  Lines are separated by `\n`,
//! `\r`, or the two-byte sequence `\r\n`, which counts as a single break.
//! Columns count characters, not bytes: a UTF-8 continuation byte does not
//! advance the column.

use vstd::prelude::*;

verus! {

/// A source position: 1-based line and column.  The default value, line 0 and
/// column 0, stands for "no position" on nodes built programmatically.
#[derive(Debug, Clone, Copy, PartialEq, Eq, Structural)]
pub struct Pos {
    pub line: usize,
    pub column: usize,
}

impl Default for Pos {
    /// The "no position" placeholder used by tree constructors.
    fn default() -> (p: Pos)
        ensures
            p.line == 0 && p.column == 0,
    {
        Pos { line: 0, column: 0 }
    }
}

/// Total order on positions by `(line, column)`.
pub open spec fn pos_le(a: Pos, b: Pos) -> bool {
    a.line < b.line || (a.line == b.line && a.column <= b.column)
}

/// A line break is counted at index `i`: at every `\n`, and at a `\r` that is
/// not immediately followed by `\n` (so `\r\n` counts once, at the `\n`).
pub open spec fn is_line_break_at(src: Seq<u8>, i: int) -> bool
    recommends
        0 <= i < src.len(),
{
    src[i] == 10u8 || (src[i] == 13u8 && !(i + 1 < src.len() && src[i + 1] == 10u8))
}

/// A UTF-8 continuation byte: it belongs to the character begun by an earlier
/// byte and does not advance the column.
pub open spec fn is_continuation_byte(b: u8) -> bool {
    b & 0xC0u8 == 0x80u8
}

/// The line of the position just after the first `n` bytes of `src`.
pub open spec fn line_at(src: Seq<u8>, n: int) -> nat
    decreases n,
{
    if n <= 0 {
        1
    } else if is_line_break_at(src, n - 1) {
        line_at(src, n - 1) + 1
    } else {
        line_at(src, n - 1)
    }
}

/// The column of the position just after the first `n` bytes of `src`.
pub open spec fn column_at(src: Seq<u8>, n: int) -> nat
    decreases n,
{
    if n <= 0 {
        1
    } else if is_line_break_at(src, n - 1) {
        1
    } else if src[n - 1] == 13u8 || is_continuation_byte(src[n - 1]) {
        column_at(src, n - 1)
    } else {
        column_at(src, n - 1) + 1
    }
}

/// `p` is the position of byte offset `n` in `src`.
pub open spec fn pos_is_at(p: Pos, src: Seq<u8>, n: int) -> bool {
    p.line == line_at(src, n) && p.column == column_at(src, n)
}

/// Lines and columns stay within `offset + 1`, so they fit in `usize`
/// whenever the offset does.
pub proof fn lemma_pos_bounds(src: Seq<u8>, n: int)
    requires
        0 <= n,
    ensures
        1 <= line_at(src, n) <= n + 1,
        1 <= column_at(src, n) <= n + 1,
    decreases n,
{
    if n > 0 {
        lemma_pos_bounds(src, n - 1);
    }
}

/// Positions are monotone in the byte offset: scanning forward never moves a
/// position backwards in the `(line, column)` order.
pub proof fn lemma_pos_monotone(src: Seq<u8>, m: int, n: int)
    requires
        0 <= m <= n,
    ensures
        line_at(src, m) <= line_at(src, n),
        line_at(src, m) == line_at(src, n) ==> column_at(src, m) <= column_at(src, n),
    decreases n - m,
{
    if m < n {
        lemma_pos_monotone(src, m, n - 1);
    }
}

/// Computes the position of a byte offset by scanning the bytes before it.
/// This is the position tracker: it never fails on a valid offset.
pub fn position_of(src: &[u8], offset: usize) -> (p: Pos)
    requires
        offset <= src@.len(),
        src@.len() < usize::MAX,
    ensures
        pos_is_at(p, src@, offset as int),
{
    let mut line: usize = 1;
    let mut column: usize = 1;
    let mut i: usize = 0;
    while i < offset
        invariant
            0 <= i <= offset,
            offset <= src@.len() < usize::MAX,
            line == line_at(src@, i as int),
            column == column_at(src@, i as int),
        decreases offset - i,
    {
        proof {
            lemma_pos_bounds(src@, i as int);
        }
        let b = src[i];
        if b == 10 || (b == 13 && !(i + 1 < src.len() && src[i + 1] == 10)) {
            line = line + 1;
            column = 1;
        } else if b == 13 || (b & 0xC0) == 0x80 {
            // a `\r` of `\r\n`, or a continuation byte: no column advance
        } else {
            column = column + 1;
        }
        i = i + 1;
    }
    Pos { line, column }
}

} // verus!
