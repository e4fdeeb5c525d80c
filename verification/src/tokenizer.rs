//! The lexical tokenizer: a character-class-driven scanner turning the source
//! buffer into classified tokens.
//!
//! [`next_token`] is purely a function of the buffer and a byte cursor: it
//! skips insignificant bytes (whitespace, commas, comments, a byte-order
//! mark), then scans one token beginning at the first significant character,
//! which also carries that character's position.  Re-scanning from a saved
//! cursor is therefore always safe.  [`tokenize`] drives it to end of input
//! and collects the tokens into a [`TokenStream`], the cursor the grammars
//! consume.

use vstd::prelude::*;

use crate::common::Span;
use crate::error::{LexicalError, ParseError};
use crate::position::{lemma_pos_monotone, pos_is_at, pos_le, position_of, Pos};

verus! {

/// The closed set of token classes.
#[derive(Debug, Clone, Copy, PartialEq, Eq, Structural)]
pub enum Kind {
    Punctuator,
    Name,
    IntValue,
    FloatValue,
    StringValue,
    BlockString,
    /// The end-of-input marker, produced repeatedly once the buffer is spent.
    EndOfFile,
}

/// One token: its class, the byte range of its text in the source buffer,
/// and the position of its first character.
#[derive(Debug, Clone, Copy, PartialEq)]
pub struct Token {
    pub kind: Kind,
    pub span: Span,
    pub position: Pos,
}

pub open spec fn is_name_start_byte(b: u8) -> bool {
    b == 95 || (65 <= b && b <= 90) || (97 <= b && b <= 122)
}

pub open spec fn is_name_cont_byte(b: u8) -> bool {
    is_name_start_byte(b) || (48 <= b && b <= 57)
}

pub open spec fn is_digit_byte(b: u8) -> bool {
    48 <= b && b <= 57
}

/// The single-byte structural punctuators: `! $ & ( ) : = @ [ ] { | }`.
pub open spec fn is_punctuator_byte(b: u8) -> bool {
    b == 33 || b == 36 || b == 38 || b == 40 || b == 41 || b == 58 || b == 61 || b == 64 || b == 91
        || b == 93 || b == 123 || b == 124 || b == 125
}

/// Bytes the tokenizer passes over between tokens: whitespace, line breaks
/// and commas.
pub open spec fn is_insignificant_byte(b: u8) -> bool {
    b == 32 || b == 9 || b == 10 || b == 13 || b == 44
}

/// The end of a comment open at `i`: the offset of the next line break, or
/// the end of the buffer.
pub open spec fn comment_end(src: Seq<u8>, i: int) -> int
    recommends
        0 <= i <= src.len(),
    decreases src.len() - i,
{
    if i >= src.len() {
        src.len() as int
    } else if src[i] == 10 || src[i] == 13 {
        i
    } else {
        comment_end(src, i + 1)
    }
}

proof fn lemma_comment_end_bounds(src: Seq<u8>, i: int)
    requires
        i <= src.len(),
    ensures
        i <= comment_end(src, i) <= src.len(),
    decreases src.len() - i,
{
    if i < src.len() && !(src[i] == 10 || src[i] == 13) {
        lemma_comment_end_bounds(src, i + 1);
    }
}

/// The offset of the first significant byte at or after `i`: whitespace,
/// commas, comments and byte-order marks are passed over, and the next token
/// begins here.
pub open spec fn next_significant(src: Seq<u8>, i: int) -> int
    recommends
        0 <= i <= src.len(),
    decreases src.len() - i,
    via next_significant_decreases
{
    if i >= src.len() {
        src.len() as int
    } else if is_insignificant_byte(src[i]) {
        next_significant(src, i + 1)
    } else if src[i] == 35 {
        next_significant(src, comment_end(src, i + 1))
    } else if src[i] == 0xEF && i + 2 < src.len() && src[i + 1] == 0xBB && src[i + 2] == 0xBF {
        next_significant(src, i + 3)
    } else {
        i
    }
}

#[via_fn]
proof fn next_significant_decreases(src: Seq<u8>, i: int) {
    if i < src.len() && !is_insignificant_byte(src[i]) && src[i] == 35 {
        lemma_comment_end_bounds(src, i + 1);
    }
}

/// The first significant byte is at or after the cursor, inside the buffer.
pub proof fn lemma_next_significant_bounds(src: Seq<u8>, i: int)
    requires
        0 <= i <= src.len(),
    ensures
        i <= next_significant(src, i) <= src.len(),
    decreases src.len() - i,
{
    if i < src.len() {
        if is_insignificant_byte(src[i]) {
            lemma_next_significant_bounds(src, i + 1);
        } else if src[i] == 35 {
            lemma_comment_end_bounds(src, i + 1);
            lemma_next_significant_bounds(src, comment_end(src, i + 1));
        } else if src[i] == 0xEF && i + 2 < src.len() && src[i + 1] == 0xBB && src[i + 2]
            == 0xBF {
            lemma_next_significant_bounds(src, i + 3);
        }
    }
}

/// The error points between the start of the offending token and the end of
/// the input.
pub open spec fn lexical_error_in_rest(e: ParseError, src: Seq<u8>, cursor: int) -> bool {
    exists|o: int|
        #![trigger pos_is_at(e.position_spec(), src, o)]
        next_significant(src, cursor) <= o <= src.len() && pos_is_at(e.position_spec(), src, o)
}

/// A token of this shape is owed at a significant byte: any name or
/// punctuator begins a token, and end of input always yields the
/// end-of-input token.
pub open spec fn token_owed_at(src: Seq<u8>, ns: int) -> bool {
    ||| ns == src.len()
    ||| is_name_start_byte(src[ns])
    ||| is_punctuator_byte(src[ns])
    ||| (src[ns] == 46 && ns + 2 < src.len() && src[ns + 1] == 46 && src[ns + 2] == 46)
}

/// An integer literal: an optional minus, then digits to the end of the
/// range.
pub open spec fn int_token_shape(src: Seq<u8>, s: int, e: int) -> bool
    recommends
        0 <= s && e <= src.len(),
{
    let d = if src[s] == 45 {
        s + 1
    } else {
        s
    };
    s < e && d < e && (forall|k: int| d <= k < e ==> is_digit_byte(#[trigger] src[k]))
}

/// An exponent part: `e` or `E`, an optional sign, then digits to the end of
/// the range.
pub open spec fn exponent_shape(src: Seq<u8>, g: int, e: int) -> bool {
    let h = if g + 1 < e && (src[g + 1] == 43 || src[g + 1] == 45) {
        g + 2
    } else {
        g + 1
    };
    &&& g < e
    &&& (src[g] == 101 || src[g] == 69)
    &&& h < e
    &&& (forall|k: int| h <= k < e ==> is_digit_byte(#[trigger] src[k]))
}

/// A float literal split at `ie` (end of the integer part) and `fe` (end of
/// the fraction, or `ie` with none): integer part, optional `.digits`
/// fraction, optional exponent, and at least one of the two.
pub open spec fn float_parts(src: Seq<u8>, s: int, ie: int, fe: int, e: int) -> bool {
    &&& int_token_shape(src, s, ie)
    &&& s < ie <= fe <= e
    &&& (fe == ie || (src[ie] == 46 && ie + 1 < fe && (forall|k: int|
        ie + 1 <= k < fe ==> is_digit_byte(#[trigger] src[k]))))
    &&& (fe == e || exponent_shape(src, fe, e))
    &&& (fe > ie || fe < e)
}

/// A float literal: an integer part, then a fraction and/or an exponent.
pub open spec fn float_token_shape(src: Seq<u8>, s: int, e: int) -> bool {
    exists|ie: int, fe: int| #[trigger] float_parts(src, s, ie, fe, e)
}

/// The byte range of a token is of the shape its kind claims.
pub open spec fn token_class_ok(t: Token, src: Seq<u8>) -> bool
    recommends
        t.span.wf(src.len()),
{
    let s = t.span.start as int;
    let e = t.span.end as int;
    match t.kind {
        Kind::Name => s < e && is_name_start_byte(src[s]) && (forall|k: int|
            s < k < e ==> is_name_cont_byte(src[k])),
        Kind::IntValue => int_token_shape(src, s, e),
        Kind::FloatValue => float_token_shape(src, s, e),
        Kind::StringValue => e - s >= 2 && src[s] == 34 && src[e - 1] == 34,
        Kind::BlockString => e - s >= 6 && src[s] == 34 && src[s + 1] == 34 && src[s + 2] == 34
            && src[e - 3] == 34 && src[e - 2] == 34 && src[e - 1] == 34,
        Kind::Punctuator => (e - s == 1 && is_punctuator_byte(src[s])) || (e - s == 3 && src[s]
            == 46 && src[s + 1] == 46 && src[s + 2] == 46),
        Kind::EndOfFile => s == e,
    }
}

/// A well-formed token of `src`: its range lies in the buffer, its position
/// is the position of its first byte, and its text fits its kind.  The
/// end-of-input token is exactly the empty range at the end of the buffer.
pub open spec fn token_wf(t: Token, src: Seq<u8>) -> bool {
    &&& t.span.wf(src.len())
    &&& pos_is_at(t.position, src, t.span.start as int)
    &&& token_class_ok(t, src)
    &&& (t.kind == Kind::EndOfFile <==> t.span.start == src.len())
    &&& (t.kind == Kind::EndOfFile ==> t.span.end == src.len())
    &&& (t.kind != Kind::EndOfFile ==> t.span.start < t.span.end)
}

fn is_name_start(b: u8) -> (r: bool)
    ensures
        r == is_name_start_byte(b),
{
    b == 95 || (65 <= b && b <= 90) || (97 <= b && b <= 122)
}

fn is_name_cont(b: u8) -> (r: bool)
    ensures
        r == is_name_cont_byte(b),
{
    is_name_start(b) || (48 <= b && b <= 57)
}

fn is_digit(b: u8) -> (r: bool)
    ensures
        r == is_digit_byte(b),
{
    48 <= b && b <= 57
}

fn is_hex_digit(b: u8) -> (r: bool)
    ensures
        r == (is_digit_byte(b) || (65 <= b && b <= 70) || (97 <= b && b <= 102)),
{
    (48 <= b && b <= 57) || (65 <= b && b <= 70) || (97 <= b && b <= 102)
}

/// Passes over the insignificant bytes at `cursor`: whitespace, commas,
/// comments, byte-order marks.  The cursor returned sits on the first
/// significant byte, or at the end of the buffer.
fn skip_insignificant(src: &[u8], cursor: usize) -> (r: usize)
    requires
        cursor <= src@.len(),
        src@.len() < usize::MAX,
    ensures
        cursor <= r <= src@.len(),
        r == next_significant(src@, cursor as int),
{
    let len = src.len();
    let mut i = cursor;
    loop
        invariant
            cursor <= i <= len,
            len == src@.len(),
            src@.len() < usize::MAX,
            next_significant(src@, cursor as int) == next_significant(src@, i as int),
        decreases len - i,
    {
        if i >= len {
            return i;
        }
        let b = src[i];
        if b == 32 || b == 9 || b == 10 || b == 13 || b == 44 {
            i = i + 1;
        } else if b == 35 {
            // comment: to end of line
            i = i + 1;
            let mark = i;
            while i < len && src[i] != 10 && src[i] != 13
                invariant
                    mark <= i <= len,
                    len == src@.len(),
                    comment_end(src@, mark as int) == comment_end(src@, i as int),
                decreases len - i,
            {
                i = i + 1;
            }
            proof {
                assert(comment_end(src@, i as int) == i);
            }
        } else if b == 0xEF && i + 2 < len && src[i + 1] == 0xBB && src[i + 2] == 0xBF {
            i = i + 3;
        } else {
            return i;
        }
    }
}

/// Scans one token starting at `cursor`.  On success the returned cursor sits
/// just past the token; at end of input the end-of-input token is returned
/// with the cursor unchanged at the buffer's end, so the call is idempotent
/// there.  Lexical trouble — an invalid character, an unterminated string or
/// block string, a malformed number, an invalid escape — is an error carrying
/// the offending position.
pub fn next_token(src: &[u8], cursor: usize) -> (r: Result<(Token, usize), ParseError>)
    requires
        cursor <= src@.len(),
        src@.len() < usize::MAX,
    ensures
        match r {
            Ok((tok, next)) => {
                &&& token_wf(tok, src@)
                &&& cursor <= tok.span.start
                &&& tok.span.start == next_significant(src@, cursor as int)
                &&& next == tok.span.end
            },
            Err(e) => e.is_lexical_spec() && lexical_error_in_rest(e, src@, cursor as int),
        },
        token_owed_at(src@, next_significant(src@, cursor as int)) ==> r is Ok,
{
    let len = src.len();
    let start = skip_insignificant(src, cursor);
    let position = position_of(src, start);
    if start >= len {
        let span = Span { start: len, end: len };
        return Ok((Token { kind: Kind::EndOfFile, span, position }, len));
    }
    let b = src[start];
    if is_name_start(b) {
        let mut j = start + 1;
        while j < len && is_name_cont(src[j])
            invariant
                start < j <= len,
                len == src@.len(),
                forall|k: int| start < k < j ==> is_name_cont_byte(src@[k]),
            decreases len - j,
        {
            j = j + 1;
        }
        let span = Span { start, end: j };
        return Ok((Token { kind: Kind::Name, span, position }, j));
    }
    if b == 34 {
        if start + 2 < len && src[start + 1] == 34 && src[start + 2] == 34 {
            // block string: scan to the closing triple quote, honoring \"""
            let mut j = start + 3;
            loop
                invariant
                    start + 3 <= j <= len,
                    len == src@.len(),
                    src@.len() < usize::MAX,
                    start + 2 < len,
                    src@[start as int] == 34,
                    src@[start + 1] == 34,
                    src@[start + 2] == 34,
                    pos_is_at(position, src@, start as int),
                    cursor <= start,
                    start == next_significant(src@, cursor as int),
                decreases len - j,
            {
                if j >= len {
                    proof {
                        assert(pos_is_at(position, src@, start as int));
                    }
                    return Err(ParseError::lexical(LexicalError::UnterminatedBlockString, position));
                }
                let c = src[j];
                if c == 92 && len - j > 3 && src[j + 1] == 34 && src[j + 2] == 34 && src[j + 3]
                    == 34 {
                    j = j + 4;
                } else if c == 34 && len - j > 2 && src[j + 1] == 34 && src[j + 2] == 34 {
                    let span = Span { start, end: j + 3 };
                    return Ok((Token { kind: Kind::BlockString, span, position }, j + 3));
                } else {
                    j = j + 1;
                }
            }
        } else {
            // ordinary string: scan to the closing quote, validating escapes
            let mut j = start + 1;
            loop
                invariant
                    start < j <= len,
                    len == src@.len(),
                    src@.len() < usize::MAX,
                    start < len,
                    src@[start as int] == 34,
                    pos_is_at(position, src@, start as int),
                    cursor <= start,
                    start == next_significant(src@, cursor as int),
                decreases len - j,
            {
                if j >= len {
                    proof {
                        assert(pos_is_at(position, src@, start as int));
                    }
                    return Err(ParseError::lexical(LexicalError::UnterminatedString, position));
                }
                let c = src[j];
                if c == 34 {
                    let span = Span { start, end: j + 1 };
                    return Ok((Token { kind: Kind::StringValue, span, position }, j + 1));
                } else if c == 92 {
                    if j + 1 >= len {
                        proof {
                            assert(pos_is_at(position, src@, start as int));
                        }
                        return Err(ParseError::lexical(LexicalError::UnterminatedString, position));
                    }
                    let e = src[j + 1];
                    if e == 34 || e == 92 || e == 47 || e == 98 || e == 102 || e == 110 || e == 114
                        || e == 116 {
                        j = j + 2;
                    } else if e == 117 {
                        if len - j > 5 && is_hex_digit(src[j + 2]) && is_hex_digit(src[j + 3])
                            && is_hex_digit(src[j + 4]) && is_hex_digit(src[j + 5]) {
                            j = j + 6;
                        } else {
                            let p = position_of(src, j);
                            proof {
                                assert(pos_is_at(p, src@, j as int));
                            }
                            return Err(ParseError::lexical(LexicalError::InvalidEscape, p));
                        }
                    } else {
                        let p = position_of(src, j);
                        proof {
                            assert(pos_is_at(p, src@, j as int));
                        }
                        return Err(ParseError::lexical(LexicalError::InvalidEscape, p));
                    }
                } else if c == 10 || c == 13 {
                    proof {
                        assert(pos_is_at(position, src@, start as int));
                    }
                    return Err(ParseError::lexical(LexicalError::UnterminatedString, position));
                } else {
                    j = j + 1;
                }
            }
        }
    }
    if is_digit(b) || b == 45 {
        // integer part, optional fraction and exponent
        let mut j = start;
        if b == 45 {
            j = start + 1;
        }
        if j >= len || !is_digit(src[j]) {
            proof {
                assert(pos_is_at(position, src@, start as int));
            }
            return Err(ParseError::lexical(LexicalError::MalformedNumber, position));
        }
        let digits_start = j;
        if src[j] == 48 {
            j = j + 1;
            if j < len && is_digit(src[j]) {
                // a leading zero followed by digits is not a number
                proof {
                    assert(pos_is_at(position, src@, start as int));
                }
                return Err(ParseError::lexical(LexicalError::MalformedNumber, position));
            }
        } else {
            j = j + 1;
            while j < len && is_digit(src[j])
                invariant
                    start < j <= len,
                    digits_start < j,
                    len == src@.len(),
                    forall|k: int| digits_start <= k < j ==> is_digit_byte(#[trigger] src@[k]),
                decreases len - j,
            {
                j = j + 1;
            }
        }
        let int_end = j;
        let mut kind = Kind::IntValue;
        if j < len && src[j] == 46 {
            kind = Kind::FloatValue;
            j = j + 1;
            if j >= len || !is_digit(src[j]) {
                proof {
                    assert(pos_is_at(position, src@, start as int));
                }
                return Err(ParseError::lexical(LexicalError::MalformedNumber, position));
            }
            j = j + 1;
            while j < len && is_digit(src[j])
                invariant
                    start < j <= len,
                    int_end as int + 1 < j,
                    len == src@.len(),
                    src@[int_end as int] == 46,
                    forall|k: int|
                        int_end + 1 <= k < j ==> is_digit_byte(#[trigger] src@[k]),
                decreases len - j,
            {
                j = j + 1;
            }
        }
        let frac_end = j;
        if j < len && (src[j] == 101 || src[j] == 69) {
            kind = Kind::FloatValue;
            j = j + 1;
            if j < len && (src[j] == 43 || src[j] == 45) {
                j = j + 1;
            }
            let exp_digits = j;
            if j >= len || !is_digit(src[j]) {
                proof {
                    assert(pos_is_at(position, src@, start as int));
                }
                return Err(ParseError::lexical(LexicalError::MalformedNumber, position));
            }
            j = j + 1;
            while j < len && is_digit(src[j])
                invariant
                    start < j <= len,
                    exp_digits < j,
                    len == src@.len(),
                    forall|k: int| exp_digits <= k < j ==> is_digit_byte(#[trigger] src@[k]),
                decreases len - j,
            {
                j = j + 1;
            }
            proof {
                assert(exponent_shape(src@, frac_end as int, j as int));
            }
        }
        proof {
            if kind == Kind::FloatValue {
                assert(float_parts(src@, start as int, int_end as int, frac_end as int, j as int));
            }
        }
        let span = Span { start, end: j };
        return Ok((Token { kind, span, position }, j));
    }
    if b == 33 || b == 36 || b == 38 || b == 40 || b == 41 || b == 58 || b == 61 || b == 64 || b
        == 91 || b == 93 || b == 123 || b == 124 || b == 125 {
        let span = Span { start, end: start + 1 };
        return Ok((Token { kind: Kind::Punctuator, span, position }, start + 1));
    }
    if b == 46 && start + 2 < len && src[start + 1] == 46 && src[start + 2] == 46 {
        let span = Span { start, end: start + 3 };
        return Ok((Token { kind: Kind::Punctuator, span, position }, start + 3));
    }
    proof {
        assert(pos_is_at(position, src@, start as int));
    }
    Err(ParseError::lexical(LexicalError::UnexpectedCharacter, position))
}

/// A well-formed token sequence: it ends in the one end-of-input token, every
/// token is well formed, and the byte ranges march forward.
/// A well-formed token sequence tiles the whole input: the first token
/// begins at the first significant byte, and each next token begins at the
/// first significant byte after the one before it, so no input is silently
/// passed over.
pub open spec fn stream_wf(toks: Seq<Token>, src: Seq<u8>) -> bool {
    &&& toks.len() >= 1
    &&& toks[toks.len() - 1].kind == Kind::EndOfFile
    &&& toks[0].span.start == next_significant(src, 0)
    &&& (forall|j: int| 0 <= j < toks.len() ==> token_wf(#[trigger] toks[j], src))
    &&& (forall|j: int| 0 <= j < toks.len() - 1 ==> (#[trigger] toks[j].kind) != Kind::EndOfFile)
    &&& (forall|j: int|
        0 <= j < toks.len() - 1 ==> toks[j + 1].span.start == next_significant(
            src,
            (#[trigger] toks[j].span.end) as int,
        ))
    &&& (forall|j: int|
        0 <= j < toks.len() - 1 ==> (#[trigger] toks[j].span.end) <= toks[j + 1].span.start)
}

/// The token cursor the grammars consume: the classified tokens of one
/// buffer, ended by the end-of-input token.  A grammar's cursor position is a
/// plain index into it, so saving an index is a checkpoint and going back to
/// one is a restore; both are free of side effects.
#[derive(Debug, Clone)]
pub struct TokenStream {
    pub tokens: Vec<Token>,
}

impl TokenStream {
    pub open spec fn wf(&self, src: Seq<u8>) -> bool {
        stream_wf(self.tokens@, src)
    }

    pub fn len(&self) -> (n: usize)
        ensures
            n == self.tokens@.len(),
    {
        self.tokens.len()
    }

    /// Peeks the token at a cursor index without consuming it.
    pub fn get(&self, i: usize) -> (t: Token)
        requires
            i < self.tokens@.len(),
        ensures
            t == self.tokens@[i as int],
    {
        self.tokens[i]
    }
}

/// Scans the whole buffer into a token stream, stopping at the first lexical
/// error.
pub fn tokenize(src: &[u8]) -> (r: Result<TokenStream, ParseError>)
    requires
        src@.len() < usize::MAX,
    ensures
        match r {
            Ok(ts) => ts.wf(src@),
            Err(e) => e.is_lexical_spec(),
        },
{
    let mut tokens: Vec<Token> = Vec::new();
    let mut cursor: usize = 0;
    loop
        invariant
            cursor <= src@.len(),
            src@.len() < usize::MAX,
            forall|j: int| 0 <= j < tokens@.len() ==> token_wf(#[trigger] tokens@[j], src@),
            forall|j: int| 0 <= j < tokens@.len() ==> (#[trigger] tokens@[j].kind) != Kind::EndOfFile,
            tokens@.len() == 0 ==> cursor == 0,
            tokens@.len() > 0 ==> tokens@[0].span.start == next_significant(src@, 0),
            forall|j: int|
                0 <= j < tokens@.len() - 1 ==> tokens@[j + 1].span.start == next_significant(
                    src@,
                    (#[trigger] tokens@[j].span.end) as int,
                ),
            forall|j: int|
                0 <= j < tokens@.len() - 1 ==> (#[trigger] tokens@[j].span.end) <= tokens@[j
                    + 1].span.start,
            tokens@.len() > 0 ==> tokens@[tokens@.len() - 1].span.end == cursor,
        decreases src@.len() - cursor,
    {
        match next_token(src, cursor) {
            Err(e) => {
                return Err(e);
            },
            Ok((tok, next)) => {
                if tok.kind == Kind::EndOfFile {
                    tokens.push(tok);
                    return Ok(TokenStream { tokens });
                } else {
                    tokens.push(tok);
                    cursor = next;
                }
            },
        }
    }
}

/// A token that is not the end-of-input marker has a successor: only the
/// last token of a well-formed stream marks the end of input.
pub proof fn lemma_next_in_bounds(toks: Seq<Token>, src: Seq<u8>, i: int)
    requires
        stream_wf(toks, src),
        0 <= i < toks.len(),
        toks[i].kind != Kind::EndOfFile,
    ensures
        i + 1 < toks.len(),
{
    if i + 1 >= toks.len() {
        assert(toks[toks.len() - 1].kind == Kind::EndOfFile);
    }
}

/// Byte offsets of a well-formed stream march forward with the index.
pub proof fn lemma_stream_offsets(toks: Seq<Token>, src: Seq<u8>, j: int, k: int)
    requires
        stream_wf(toks, src),
        0 <= j <= k < toks.len(),
    ensures
        toks[j].span.start <= toks[k].span.start,
        j < k ==> toks[j].span.end <= toks[k].span.start,
    decreases k - j,
{
    if j < k {
        lemma_stream_offsets(toks, src, j, k - 1);
        assert(toks[k - 1].span.end <= toks[k].span.start);
        assert(token_wf(toks[k - 1], src));
    }
}

/// Position monotonicity: tokens returned in sequence carry non-decreasing
/// positions, and their byte offsets strictly increase, except that the
/// repeated end-of-input token stands still.
pub proof fn lemma_token_positions_monotone(toks: Seq<Token>, src: Seq<u8>, j: int, k: int)
    requires
        stream_wf(toks, src),
        0 <= j <= k < toks.len(),
    ensures
        pos_le(toks[j].position, toks[k].position),
        j < k && toks[j].kind != Kind::EndOfFile ==> toks[j].span.start < toks[k].span.start,
{
    lemma_stream_offsets(toks, src, j, k);
    assert(token_wf(toks[j], src));
    assert(token_wf(toks[k], src));
    lemma_pos_monotone(src, toks[j].span.start as int, toks[k].span.start as int);
}

} // verus!
