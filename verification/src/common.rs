//! The value sub-grammar shared by the query and the schema language:
//! type references, input values and directives, together with [`Span`], the
//! byte-range view by which every string-valued tree field refers back to the
//! source buffer instead of copying it.

use vstd::prelude::*;
use vstd::slice::slice_to_vec;

use crate::error::{Expectation, LexicalError, ParseError};
use crate::helpers::{ident, name, punct};
use crate::position::Pos;
use crate::tokenizer::{
    int_token_shape, is_digit_byte, lemma_next_in_bounds, token_wf, Kind, TokenStream,
};

verus! {

/// A byte range into the source buffer that produced a tree.  String-valued
/// tree fields hold a `Span`; the text itself is resolved on demand with
/// [`Span::text`], so the tree is only meaningful next to its buffer.
#[derive(Debug, Clone, Copy, PartialEq, Eq, Structural)]
pub struct Span {
    pub start: usize,
    pub end: usize,
}

impl Span {
    /// The range lies inside a buffer of `len` bytes.
    pub open spec fn wf(self, len: nat) -> bool {
        self.start <= self.end && self.end <= len
    }

    /// The bytes the range denotes.
    pub open spec fn bytes(self, src: Seq<u8>) -> Seq<u8>
        recommends
            self.wf(src.len()),
    {
        src.subrange(self.start as int, self.end as int)
    }

    pub open spec fn spec_len(self) -> int {
        self.end - self.start
    }

    /// Resolves the range to the text it denotes in `src`.
    pub fn text<'a>(&self, src: &'a [u8]) -> (r: &'a [u8])
        requires
            self.wf(src@.len()),
        ensures
            r@ == self.bytes(src@),
    {
        &src[self.start..self.end]
    }

    pub fn len(&self) -> (r: usize)
        requires
            self.start <= self.end,
        ensures
            r == self.spec_len(),
    {
        self.end - self.start
    }
}

/// An integer literal value.  GraphQL integers are stored as signed 64-bit
/// numbers; a literal outside that range is a lexical error.
#[derive(Debug, Clone, Copy, PartialEq, Eq, Structural)]
pub struct Number(pub i64);

impl Number {
    pub fn as_i64(&self) -> (r: i64)
        ensures
            r == self.0,
    {
        self.0
    }
}

/// A type reference: a name, a list of a type, or a non-null wrapping of a
/// type.  `[Int!]!` nests as non-null of list of non-null of the name `Int`.
#[derive(Debug, PartialEq)]
pub enum Type {
    NamedType(Span),
    ListType(Box<Type>),
    NonNullType(Box<Type>),
}

impl Type {
    /// Every name range in the reference lies inside a buffer of `len` bytes.
    pub open spec fn wf(self, len: nat) -> bool
        decreases self,
    {
        match self {
            Type::NamedType(name) => name.wf(len),
            Type::ListType(inner) => inner.wf(len),
            Type::NonNullType(inner) => inner.wf(len),
        }
    }
}

/// An input value: a variable, a scalar, an enum name, a list or an object.
/// String literals are the one place where the tree owns text: their decoded
/// bytes are materialized when the value node is built.  A float literal
/// keeps its source spelling as a range, undecoded.
#[derive(Debug, PartialEq)]
pub enum Value {
    Variable(Span),
    Int(Number),
    Float(Span),
    String(Vec<u8>),
    Boolean(bool),
    Null,
    Enum(Span),
    List(Vec<Value>),
    Object(Vec<(Span, Value)>),
}

impl Value {
    /// Every range in the value lies inside a buffer of `len` bytes.
    pub open spec fn wf(self, len: nat) -> bool
        decreases self,
    {
        match self {
            Value::Variable(name) => name.wf(len),
            Value::Int(_) => true,
            Value::Float(text) => text.wf(len),
            Value::String(_) => true,
            Value::Boolean(_) => true,
            Value::Null => true,
            Value::Enum(name) => name.wf(len),
            Value::List(items) => values_wf(items@, len),
            Value::Object(fields) => arguments_wf(fields@, len),
        }
    }
}

/// Well-formedness of an ordered value list.
pub open spec fn values_wf(items: Seq<Value>, len: nat) -> bool
    decreases items,
{
    forall|i: int| 0 <= i < items.len() ==> (#[trigger] items[i]).wf(len)
}

/// Well-formedness of an ordered `(name, value)` argument list.
pub open spec fn arguments_wf(args: Seq<(Span, Value)>, len: nat) -> bool
    decreases args,
{
    forall|i: int| 0 <= i < args.len() ==> (#[trigger] args[i].0.wf(len) && args[i].1.wf(len))
}

/// An `@name(arguments)` annotation.
#[derive(Debug, PartialEq)]
pub struct Directive {
    pub position: Pos,
    pub name: Span,
    pub arguments: Vec<(Span, Value)>,
}

impl Directive {
    pub open spec fn wf(self, len: nat) -> bool {
        self.name.wf(len) && arguments_wf(self.arguments@, len)
    }
}

/// Well-formedness of an ordered directive list.
pub open spec fn directives_wf(dirs: Seq<Directive>, len: nat) -> bool {
    forall|i: int| 0 <= i < dirs.len() ==> #[trigger] dirs[i].wf(len)
}

/// The numeric value of a sequence of decimal digit bytes.
pub open spec fn dec_value(s: Seq<u8>) -> int
    decreases s.len(),
{
    if s.len() == 0 {
        0
    } else {
        dec_value(s.drop_last()) * 10 + (s.last() - 48)
    }
}

/// The mathematical value of an integer literal: the digits' value, negated
/// after a leading minus.
pub open spec fn int_literal_value(s: Seq<u8>) -> int
    recommends
        s.len() > 0,
{
    if s.len() > 0 && s[0] == 45 {
        -dec_value(s.subrange(1, s.len() as int))
    } else {
        dec_value(s)
    }
}

pub open spec fn all_digits(s: Seq<u8>) -> bool {
    forall|k: int| 0 <= k < s.len() ==> is_digit_byte(#[trigger] s[k])
}

proof fn lemma_dec_value_nonneg(s: Seq<u8>)
    requires
        all_digits(s),
    ensures
        dec_value(s) >= 0,
    decreases s.len(),
{
    if s.len() > 0 {
        assert(all_digits(s.drop_last())) by {
            assert(forall|k: int|
                0 <= k < s.len() - 1 ==> is_digit_byte(#[trigger] s.drop_last()[k]) == is_digit_byte(
                    s[k],
                ));
        }
        lemma_dec_value_nonneg(s.drop_last());
    }
}

/// A digit sequence's value dominates the value of each of its prefixes.
proof fn lemma_dec_value_prefix(s: Seq<u8>, m: int)
    requires
        all_digits(s),
        0 <= m <= s.len(),
    ensures
        dec_value(s.take(m)) <= dec_value(s),
    decreases s.len() - m,
{
    if m < s.len() {
        lemma_dec_value_prefix(s, m + 1);
        let a = s.take(m);
        let b = s.take(m + 1);
        assert(b.drop_last() =~= a);
        assert(all_digits(a)) by {
            assert(forall|k: int|
                0 <= k < m ==> is_digit_byte(#[trigger] a[k]) == is_digit_byte(s[k]));
        }
        lemma_dec_value_nonneg(a);
        assert(is_digit_byte(b.last()));
        assert(dec_value(b) == dec_value(a) * 10 + (b.last() - 48));
        assert(dec_value(a) <= dec_value(a) * 10);
    } else {
        assert(s.take(m) =~= s);
    }
}

/// Parses the digits of an integer token into a signed 64-bit value; a
/// literal outside that range is a (lexical) malformed-number error.
fn parse_int_literal(src: &[u8], span: Span, position: Pos) -> (r: Result<i64, ParseError>)
    requires
        span.wf(src@.len()),
        int_token_shape(src@, span.start as int, span.end as int),
    ensures
        match r {
            Ok(v) => v == int_literal_value(span.bytes(src@)) && i64::MIN <= int_literal_value(
                span.bytes(src@),
            ) <= i64::MAX,
            Err(e) => e.is_lexical_spec() && !(i64::MIN <= int_literal_value(span.bytes(src@))
                <= i64::MAX),
        },
{
    let s = span.start;
    let e = span.end;
    let neg = src[s] == 45;
    let d0 = if neg {
        s + 1
    } else {
        s
    };
    let limit: u64 = if neg {
        9223372036854775808
    } else {
        9223372036854775807
    };
    let ghost digits = src@.subrange(d0 as int, e as int);
    proof {
        assert(all_digits(digits));
    }
    let mut acc: u64 = 0;
    let mut k = d0;
    while k < e
        invariant
            d0 <= k <= e,
            span.start == s && span.end == e,
            s <= d0 <= e,
            s < e,
            e <= src@.len(),
            neg <==> src@[s as int] == 45,
            d0 == if neg { s as int + 1 } else { s as int },
            digits == src@.subrange(d0 as int, e as int),
            all_digits(digits),
            acc == dec_value(src@.subrange(d0 as int, k as int)),
            acc <= limit,
            limit == if neg { 9223372036854775808u64 } else { 9223372036854775807u64 },
        decreases e - k,
    {
        proof {
            assert(is_digit_byte(digits[k - d0]));
            assert(digits[k - d0] == src@[k as int]);
        }
        let d = src[k] - 48;
        if acc > (limit - (d as u64)) / 10 {
            proof {
                let pre = src@.subrange(d0 as int, k as int);
                let cur = src@.subrange(d0 as int, k as int + 1);
                assert(cur.drop_last() =~= pre);
                assert(cur.last() == src@[k as int]);
                assert(dec_value(cur) == acc * 10 + d);
                assert(acc * 10 + d > limit);
                assert(cur =~= digits.take(k - d0 + 1));
                lemma_dec_value_prefix(digits, k - d0 + 1);
                assert(dec_value(digits) > limit);
                let bytes = span.bytes(src@);
                assert(bytes[0] == src@[span.start as int]);
                if neg {
                    assert(bytes.subrange(1, bytes.len() as int) =~= digits);
                    assert(int_literal_value(bytes) == -dec_value(digits));
                    assert(int_literal_value(bytes) < i64::MIN);
                } else {
                    assert(bytes =~= digits);
                    assert(int_literal_value(bytes) == dec_value(digits));
                    assert(int_literal_value(bytes) > i64::MAX);
                }
            }
            return Err(ParseError::lexical(LexicalError::MalformedNumber, position));
        }
        proof {
            let pre = src@.subrange(d0 as int, k as int);
            let cur = src@.subrange(d0 as int, k as int + 1);
            assert(cur.drop_last() =~= pre);
            assert(cur.last() == src@[k as int]);
        }
        acc = acc * 10 + (d as u64);
        k = k + 1;
    }
    proof {
        assert(src@.subrange(d0 as int, e as int) == digits);
        let bytes = span.bytes(src@);
        assert(bytes[0] == src@[span.start as int]);
        if neg {
            assert(bytes.subrange(1, bytes.len() as int) =~= digits);
        } else {
            assert(bytes =~= digits);
        }
    }
    if neg {
        if acc == 9223372036854775808u64 {
            Ok(i64::MIN)
        } else {
            Ok(-(acc as i64))
        }
    } else {
        Ok(acc as i64)
    }
}

/// The value of a hexadecimal digit byte, if it is one.
pub open spec fn hex_val(b: u8) -> Option<u8> {
    if 48 <= b && b <= 57 {
        Some((b - 48) as u8)
    } else if 65 <= b && b <= 70 {
        Some((b - 55) as u8)
    } else if 97 <= b && b <= 102 {
        Some((b - 87) as u8)
    } else {
        None
    }
}

/// The UTF-8 encoding of a code point below 0x10000.
pub open spec fn utf8_bytes(cp: int) -> Seq<u8> {
    if cp < 0x80 {
        seq![cp as u8]
    } else if cp < 0x800 {
        seq![(192 + cp / 64) as u8, (128 + cp % 64) as u8]
    } else {
        seq![(224 + cp / 4096) as u8, (128 + (cp / 64) % 64) as u8, (128 + cp % 64) as u8]
    }
}

pub open spec fn opt_prepend(pre: Seq<u8>, rest: Option<Seq<u8>>) -> Option<Seq<u8>> {
    match rest {
        Some(r) => Some(pre + r),
        None => None,
    }
}

/// The decoded text of the bytes between `k` and `stop` inside an ordinary
/// string literal: each backslash escape replaced by the byte or encoded
/// code point it denotes, or nothing where an escape is invalid or encodes a
/// lone surrogate.
pub open spec fn decode_escapes(src: Seq<u8>, k: int, stop: int) -> Option<Seq<u8>>
    decreases stop - k,
{
    if k >= stop {
        Some(Seq::empty())
    } else if src[k] == 92 {
        if stop - k < 2 {
            None
        } else {
            let e = src[k + 1];
            if e == 34 {
                opt_prepend(seq![34u8], decode_escapes(src, k + 2, stop))
            } else if e == 92 {
                opt_prepend(seq![92u8], decode_escapes(src, k + 2, stop))
            } else if e == 47 {
                opt_prepend(seq![47u8], decode_escapes(src, k + 2, stop))
            } else if e == 98 {
                opt_prepend(seq![8u8], decode_escapes(src, k + 2, stop))
            } else if e == 102 {
                opt_prepend(seq![12u8], decode_escapes(src, k + 2, stop))
            } else if e == 110 {
                opt_prepend(seq![10u8], decode_escapes(src, k + 2, stop))
            } else if e == 114 {
                opt_prepend(seq![13u8], decode_escapes(src, k + 2, stop))
            } else if e == 116 {
                opt_prepend(seq![9u8], decode_escapes(src, k + 2, stop))
            } else if e == 117 {
                if stop - k < 6 {
                    None
                } else {
                    match (hex_val(src[k + 2]), hex_val(src[k + 3]), hex_val(src[k + 4]), hex_val(
                        src[k + 5],
                    )) {
                        (Some(a), Some(b), Some(c), Some(d)) => {
                            let cp = a * 4096 + b * 256 + c * 16 + d;
                            if 0xD800 <= cp && cp <= 0xDFFF {
                                None
                            } else {
                                opt_prepend(utf8_bytes(cp as int), decode_escapes(src, k + 6, stop))
                            }
                        },
                        _ => None,
                    }
                }
            } else {
                None
            }
        }
    } else {
        opt_prepend(seq![src[k]], decode_escapes(src, k + 1, stop))
    }
}

fn hex_digit_value(b: u8) -> (r: Option<u8>)
    ensures
        r == hex_val(b),
        r is Some ==> r->0 < 16,
{
    if 48 <= b && b <= 57 {
        Some(b - 48)
    } else if 65 <= b && b <= 70 {
        Some(b - 55)
    } else if 97 <= b && b <= 102 {
        Some(b - 87)
    } else {
        None
    }
}

/// Appends the UTF-8 encoding of a code point below 0x10000.
fn push_utf8(out: &mut Vec<u8>, cp: u32)
    requires
        cp < 0x10000,
    ensures
        final(out)@ == old(out)@ + utf8_bytes(cp as int),
{
    if cp < 0x80 {
        out.push(cp as u8);
        proof {
            assert(out@ =~= old(out)@ + utf8_bytes(cp as int));
        }
    } else if cp < 0x800 {
        out.push((192 + cp / 64) as u8);
        out.push((128 + cp % 64) as u8);
        proof {
            assert(out@ =~= old(out)@ + utf8_bytes(cp as int));
        }
    } else {
        out.push((224 + cp / 4096) as u8);
        out.push((128 + (cp / 64) % 64) as u8);
        out.push((128 + cp % 64) as u8);
        proof {
            assert(out@ =~= old(out)@ + utf8_bytes(cp as int));
        }
    }
}

/// Decodes the contents of an ordinary string literal, resolving backslash
/// escapes.  An escape of an unencodable code point (a lone surrogate) is an
/// invalid-escape error.
pub(crate) fn decode_string_literal(src: &[u8], span: Span, position: Pos) -> (r: Result<Vec<u8>, ParseError>)
    requires
        span.wf(src@.len()),
        span.spec_len() >= 2,
    ensures
        match r {
            Ok(v) => decode_escapes(src@, span.start + 1, span.end - 1) == Some(v@),
            Err(e) => e.is_lexical_spec() && decode_escapes(src@, span.start + 1, span.end - 1)
                is None,
        },
{
    let mut out: Vec<u8> = Vec::new();
    let mut k = span.start + 1;
    let stop = span.end - 1;
    proof {
        let ghost whole = decode_escapes(src@, span.start as int + 1, stop as int);
        match whole {
            Some(rest) => {
                assert(Seq::<u8>::empty() + rest =~= rest);
                assert(out@ + rest =~= rest);
            },
            None => {},
        }
    }
    while k < stop
        invariant
            span.start < k <= stop,
            stop < src@.len(),
            stop == span.end - 1,
            decode_escapes(src@, span.start as int + 1, stop as int) == (
            match decode_escapes(src@, k as int, stop as int) {
                Some(rest) => Some(out@ + rest),
                None => None::<Seq<u8>>,
            }),
        decreases stop - k,
    {
        let c = src[k];
        if c == 92 {
            if stop - k < 2 {
                proof {
                    assert(decode_escapes(src@, k as int, stop as int) is None);
                }
                return Err(ParseError::lexical(LexicalError::InvalidEscape, position));
            }
            let e = src[k + 1];
            if e == 34 {
                proof {
                    step_escape(src@, k as int, stop as int, out@, 34u8);
                }
                out.push(34);
                k = k + 2;
            } else if e == 92 {
                proof {
                    step_escape(src@, k as int, stop as int, out@, 92u8);
                }
                out.push(92);
                k = k + 2;
            } else if e == 47 {
                proof {
                    step_escape(src@, k as int, stop as int, out@, 47u8);
                }
                out.push(47);
                k = k + 2;
            } else if e == 98 {
                proof {
                    step_escape(src@, k as int, stop as int, out@, 8u8);
                }
                out.push(8);
                k = k + 2;
            } else if e == 102 {
                proof {
                    step_escape(src@, k as int, stop as int, out@, 12u8);
                }
                out.push(12);
                k = k + 2;
            } else if e == 110 {
                proof {
                    step_escape(src@, k as int, stop as int, out@, 10u8);
                }
                out.push(10);
                k = k + 2;
            } else if e == 114 {
                proof {
                    step_escape(src@, k as int, stop as int, out@, 13u8);
                }
                out.push(13);
                k = k + 2;
            } else if e == 116 {
                proof {
                    step_escape(src@, k as int, stop as int, out@, 9u8);
                }
                out.push(9);
                k = k + 2;
            } else if e == 117 {
                if stop - k < 6 {
                    proof {
                        assert(decode_escapes(src@, k as int, stop as int) is None);
                    }
                    return Err(ParseError::lexical(LexicalError::InvalidEscape, position));
                }
                let h1 = hex_digit_value(src[k + 2]);
                let h2 = hex_digit_value(src[k + 3]);
                let h3 = hex_digit_value(src[k + 4]);
                let h4 = hex_digit_value(src[k + 5]);
                match (h1, h2, h3, h4) {
                    (Some(a), Some(b), Some(c2), Some(d)) => {
                        let cp: u32 = (a as u32) * 4096 + (b as u32) * 256 + (c2 as u32) * 16 + (
                        d as u32);
                        if 0xD800 <= cp && cp <= 0xDFFF {
                            proof {
                                assert(decode_escapes(src@, k as int, stop as int) is None);
                            }
                            return Err(ParseError::lexical(LexicalError::InvalidEscape, position));
                        }
                        proof {
                            let ghost rest = decode_escapes(src@, k as int + 6, stop as int);
                            assert(decode_escapes(src@, k as int, stop as int) == opt_prepend(
                                utf8_bytes(cp as int),
                                rest,
                            ));
                            match rest {
                                Some(r2) => {
                                    assert((out@ + utf8_bytes(cp as int)) + r2 =~= out@ + (
                                    utf8_bytes(cp as int) + r2));
                                },
                                None => {},
                            }
                        }
                        push_utf8(&mut out, cp);
                        k = k + 6;
                    },
                    _ => {
                        proof {
                            assert(decode_escapes(src@, k as int, stop as int) is None);
                        }
                        return Err(ParseError::lexical(LexicalError::InvalidEscape, position));
                    },
                }
            } else {
                proof {
                    assert(decode_escapes(src@, k as int, stop as int) is None);
                }
                return Err(ParseError::lexical(LexicalError::InvalidEscape, position));
            }
        } else {
            proof {
                let ghost rest = decode_escapes(src@, k as int + 1, stop as int);
                assert(decode_escapes(src@, k as int, stop as int) == opt_prepend(
                    seq![src@[k as int]],
                    rest,
                ));
                match rest {
                    Some(r2) => {
                        assert(out@.push(src@[k as int]) + r2 =~= out@ + (seq![src@[k as int]]
                            + r2));
                    },
                    None => {},
                }
            }
            out.push(c);
            k = k + 1;
        }
    }
    proof {
        assert(out@ + Seq::<u8>::empty() =~= out@);
    }
    Ok(out)
}

/// One simple escape decodes to one byte: the step the decoding loop takes.
proof fn step_escape(src: Seq<u8>, k: int, stop: int, out: Seq<u8>, decoded: u8)
    requires
        decode_escapes(src, k, stop) == opt_prepend(
            seq![decoded],
            decode_escapes(src, k + 2, stop),
        ),
    ensures
        match decode_escapes(src, k + 2, stop) {
            Some(r2) => decode_escapes(src, k, stop) == Some(seq![decoded] + r2) && out.push(
                decoded,
            ) + r2 == out + (seq![decoded] + r2),
            None => decode_escapes(src, k, stop) is None,
        },
{
    match decode_escapes(src, k + 2, stop) {
        Some(r2) => {
            assert(out.push(decoded) + r2 =~= out + (seq![decoded] + r2));
        },
        None => {},
    }
}

/// The number of leading blanks (spaces or tabs) of a line.
fn indent_of(line: &Vec<u8>) -> (r: usize)
    ensures
        r <= line@.len(),
{
    let mut k: usize = 0;
    while k < line.len() && (line[k] == 32 || line[k] == 9)
        invariant
            k <= line@.len(),
        decreases line@.len() - k,
    {
        k = k + 1;
    }
    k
}

/// Decodes the contents of a block string literal: resolves the one escape
/// `\"""`, splits into lines, strips the common indentation of the lines
/// after the first, drops leading and trailing blank lines, and joins the
/// rest with single newlines.
pub(crate) fn decode_block_string(src: &[u8], span: Span) -> (out: Vec<u8>)
    requires
        span.wf(src@.len()),
        span.spec_len() >= 6,
{
    // resolve the escape and split into lines
    let mut lines: Vec<Vec<u8>> = Vec::new();
    let mut cur: Vec<u8> = Vec::new();
    let mut k = span.start + 3;
    let stop = span.end - 3;
    while k < stop
        invariant
            span.start + 3 <= k,
            stop <= src@.len(),
        decreases stop - k,
    {
        let c = src[k];
        if c == 92 && stop - k > 3 && src[k + 1] == 34 && src[k + 2] == 34 && src[k + 3] == 34 {
            cur.push(34);
            cur.push(34);
            cur.push(34);
            k = k + 4;
        } else if c == 13 {
            lines.push(cur);
            cur = Vec::new();
            if stop - k > 1 && src[k + 1] == 10 {
                k = k + 2;
            } else {
                k = k + 1;
            }
        } else if c == 10 {
            lines.push(cur);
            cur = Vec::new();
            k = k + 1;
        } else {
            cur.push(c);
            k = k + 1;
        }
    }
    lines.push(cur);
    // common indent of the non-first, non-blank lines
    let mut has_indent = false;
    let mut indent: usize = 0;
    let mut li: usize = 1;
    while li < lines.len()
        decreases lines@.len() - li,
    {
        let ind = indent_of(&lines[li]);
        if ind < lines[li].len() {
            if !has_indent || ind < indent {
                has_indent = true;
                indent = ind;
            }
        }
        li = li + 1;
    }
    // strip it from every line but the first
    let mut stripped: Vec<Vec<u8>> = Vec::new();
    li = 0;
    while li < lines.len()
        decreases lines@.len() - li,
    {
        let line = &lines[li];
        let cut = if li == 0 || !has_indent {
            0
        } else if indent < line.len() {
            indent
        } else {
            line.len()
        };
        stripped.push(slice_to_vec(&line.as_slice()[cut..line.len()]));
        li = li + 1;
    }
    // drop leading and trailing blank lines
    let mut first: usize = 0;
    let mut last: usize = stripped.len();
    while first < last && indent_of(&stripped[first]) == stripped[first].len()
        invariant
            first <= last,
            last <= stripped@.len(),
        decreases last - first,
    {
        first = first + 1;
    }
    while last > first && indent_of(&stripped[last - 1]) == stripped[last - 1].len()
        invariant
            first <= last,
            last <= stripped@.len(),
        decreases last,
    {
        last = last - 1;
    }
    // join with single newlines
    let mut out: Vec<u8> = Vec::new();
    li = first;
    while li < last
        invariant
            first <= li,
            last <= stripped@.len(),
        decreases last - li,
    {
        if li > first {
            out.push(10);
        }
        let mut m: usize = 0;
        let line = &stripped[li];
        while m < line.len()
            invariant
                m <= line@.len(),
            decreases line@.len() - m,
        {
            out.push(line[m]);
            m = m + 1;
        }
        li = li + 1;
    }
    out
}

/// A syntax error whose expectations name the forms a value may begin with.
fn value_expectations(position: Pos) -> (e: ParseError)
    ensures
        !e.is_lexical_spec(),
        e.position_spec() == position,
{
    let mut expected: Vec<Expectation> = Vec::new();
    expected.push(Expectation::Kind(Kind::IntValue));
    expected.push(Expectation::Kind(Kind::FloatValue));
    expected.push(Expectation::Kind(Kind::StringValue));
    expected.push(Expectation::Kind(Kind::BlockString));
    expected.push(Expectation::Name);
    expected.push(Expectation::Text(vec![36u8]));
    expected.push(Expectation::Text(vec![91u8]));
    expected.push(Expectation::Text(vec![123u8]));
    ParseError::syntax(expected, position)
}

/// Parses a type reference: a name or a bracketed list type, either followed
/// by `!` for a non-null wrapping of the immediately preceding type.
#[verifier::rlimit(50)]
pub fn parse_type(src: &[u8], ts: &TokenStream, i: usize) -> (r: Result<(Type, usize), ParseError>)
    requires
        ts.wf(src@),
        i < ts.tokens@.len(),
    ensures
        match r {
            Ok((node, j)) => node.wf(src@.len()) && i < j < ts.tokens@.len(),
            Err(_) => true,
        },
    decreases ts.tokens@.len() - i,
{
    let n: usize = ts.len();
    let base: Type;
    let mut j: usize;
    if punct("[").peek(src, ts, i) {
        proof {
            lemma_next_in_bounds(ts.tokens@, src@, i as int);
        }
        let (inner, j1) = parse_type(src, ts, i + 1)?;
        let (_t, j2) = punct("]").parse(src, ts, j1)?;
        proof {
            lemma_next_in_bounds(ts.tokens@, src@, j1 as int);
        }
        base = Type::ListType(Box::new(inner));
        j = j2;
    } else {
        let (s, j1) = name().parse(ts, i)?;
        proof {
            lemma_next_in_bounds(ts.tokens@, src@, i as int);
            assert(token_wf(ts.tokens@[i as int], src@));
        }
        base = Type::NamedType(s);
        j = j1;
    }
    proof {
        assert(base.wf(src@.len()));
        assert(i < j < ts.tokens@.len());
    }
    if punct("!").peek(src, ts, j) {
        proof {
            lemma_next_in_bounds(ts.tokens@, src@, j as int);
            assert(Type::NonNullType(Box::new(base)).wf(src@.len()));
        }
        Ok((Type::NonNullType(Box::new(base)), j + 1))
    } else {
        Ok((base, j))
    }
}

/// Parses one input value, recursing through lists and objects.  An integer
/// token becomes exactly its literal's mathematical value; a float token
/// keeps its source spelling.
pub fn parse_value(src: &[u8], ts: &TokenStream, i: usize) -> (r: Result<
    (Value, usize),
    ParseError,
>)
    requires
        ts.wf(src@),
        i < ts.tokens@.len(),
    ensures
        match r {
            Ok((node, j)) => {
                &&& node.wf(src@.len())
                &&& i < j < ts.tokens@.len()
                &&& (ts.tokens@[i as int].kind == Kind::IntValue ==> j == i + 1 && (
                node matches Value::Int(n) && n.0 as int == int_literal_value(
                    ts.tokens@[i as int].span.bytes(src@),
                )))
                &&& (ts.tokens@[i as int].kind == Kind::FloatValue ==> j == i + 1 && node
                    == Value::Float(ts.tokens@[i as int].span))
                &&& (ts.tokens@[i as int].kind == Kind::StringValue ==> j == i + 1 && (
                node matches Value::String(b) && decode_escapes(
                    src@,
                    ts.tokens@[i as int].span.start + 1,
                    ts.tokens@[i as int].span.end - 1,
                ) == Some(b@)))
            },
            Err(_) => true,
        },
    decreases ts.tokens@.len() - i,
{
    let n: usize = ts.len();
    let t = ts.get(i);
    proof {
        assert(token_wf(ts.tokens@[i as int], src@));
    }
    match t.kind {
        Kind::IntValue => {
            proof {
                lemma_next_in_bounds(ts.tokens@, src@, i as int);
            }
            let v = parse_int_literal(src, t.span, t.position)?;
            Ok((Value::Int(Number(v)), i + 1))
        },
        Kind::FloatValue => {
            proof {
                lemma_next_in_bounds(ts.tokens@, src@, i as int);
            }
            Ok((Value::Float(t.span), i + 1))
        },
        Kind::StringValue => {
            proof {
                lemma_next_in_bounds(ts.tokens@, src@, i as int);
            }
            let b = decode_string_literal(src, t.span, t.position)?;
            Ok((Value::String(b), i + 1))
        },
        Kind::BlockString => {
            proof {
                lemma_next_in_bounds(ts.tokens@, src@, i as int);
            }
            let b = decode_block_string(src, t.span);
            Ok((Value::String(b), i + 1))
        },
        Kind::Name => {
            proof {
                lemma_next_in_bounds(ts.tokens@, src@, i as int);
            }
            if ident("true").peek(src, ts, i) {
                Ok((Value::Boolean(true), i + 1))
            } else if ident("false").peek(src, ts, i) {
                Ok((Value::Boolean(false), i + 1))
            } else if ident("null").peek(src, ts, i) {
                Ok((Value::Null, i + 1))
            } else {
                Ok((Value::Enum(t.span), i + 1))
            }
        },
        Kind::Punctuator => {
            proof {
                lemma_next_in_bounds(ts.tokens@, src@, i as int);
            }
            if punct("$").peek(src, ts, i) {
                let (s, j) = name().parse(ts, i + 1)?;
                proof {
                    lemma_next_in_bounds(ts.tokens@, src@, i as int + 1);
                }
                Ok((Value::Variable(s), j))
            } else if punct("[").peek(src, ts, i) {
                let mut items: Vec<Value> = Vec::new();
                let mut j: usize = i + 1;
                loop
                    invariant
                        ts.wf(src@),
                        n == ts.tokens@.len(),
                        i < j < n,
                        ts.tokens@[i as int].kind == Kind::Punctuator,
                        forall|m: int| 0 <= m < items@.len() ==> (#[trigger] items@[m]).wf(
                            src@.len(),
                        ),
                    decreases n - j,
                {
                    if punct("]").peek(src, ts, j) {
                        proof {
                            lemma_next_in_bounds(ts.tokens@, src@, j as int);
                        }
                        return Ok((Value::List(items), j + 1));
                    }
                    let (v, j2) = parse_value(src, ts, j)?;
                    items.push(v);
                    j = j2;
                }
            } else if punct("{").peek(src, ts, i) {
                let mut fields: Vec<(Span, Value)> = Vec::new();
                let mut j: usize = i + 1;
                loop
                    invariant
                        ts.wf(src@),
                        n == ts.tokens@.len(),
                        i < j < n,
                        ts.tokens@[i as int].kind == Kind::Punctuator,
                        forall|m: int|
                            0 <= m < fields@.len() ==> ((#[trigger] fields@[m]).0.wf(src@.len())
                                && fields@[m].1.wf(src@.len())),
                    decreases n - j,
                {
                    if punct("}").peek(src, ts, j) {
                        proof {
                            lemma_next_in_bounds(ts.tokens@, src@, j as int);
                        }
                        return Ok((Value::Object(fields), j + 1));
                    }
                    let (nm, ja) = name().parse(ts, j)?;
                    proof {
                        lemma_next_in_bounds(ts.tokens@, src@, j as int);
                    }
                    let (_c, jb) = punct(":").parse(src, ts, ja)?;
                    proof {
                        lemma_next_in_bounds(ts.tokens@, src@, ja as int);
                    }
                    let (v, jc) = parse_value(src, ts, jb)?;
                    fields.push((nm, v));
                    j = jc;
                }
            } else {
                Err(value_expectations(t.position))
            }
        },
        Kind::EndOfFile => Err(value_expectations(t.position)),
    }
}

/// Parses an optional parenthesized `(name: value ...)` argument list.
/// Without an opening parenthesis it yields the empty list and stands still.
pub fn parse_arguments(src: &[u8], ts: &TokenStream, i: usize) -> (r: Result<
    (Vec<(Span, Value)>, usize),
    ParseError,
>)
    requires
        ts.wf(src@),
        i < ts.tokens@.len(),
    ensures
        match r {
            Ok((args, j)) => arguments_wf(args@, src@.len()) && i <= j < ts.tokens@.len(),
            Err(_) => true,
        },
{
    let n: usize = ts.len();
    if !punct("(").peek(src, ts, i) {
        return Ok((Vec::new(), i));
    }
    proof {
        lemma_next_in_bounds(ts.tokens@, src@, i as int);
    }
    let mut args: Vec<(Span, Value)> = Vec::new();
    let mut j: usize = i + 1;
    loop
        invariant
            ts.wf(src@),
            n == ts.tokens@.len(),
            i < j < n,
            forall|m: int|
                0 <= m < args@.len() ==> ((#[trigger] args@[m]).0.wf(src@.len()) && args@[m].1.wf(
                    src@.len(),
                )),
        decreases n - j,
    {
        if punct(")").peek(src, ts, j) {
            proof {
                lemma_next_in_bounds(ts.tokens@, src@, j as int);
            }
            return Ok((args, j + 1));
        }
        let (nm, ja) = name().parse(ts, j)?;
        proof {
            lemma_next_in_bounds(ts.tokens@, src@, j as int);
        }
        let (_c, jb) = punct(":").parse(src, ts, ja)?;
        proof {
            lemma_next_in_bounds(ts.tokens@, src@, ja as int);
        }
        let (v, jc) = parse_value(src, ts, jb)?;
        args.push((nm, v));
        j = jc;
    }
}

/// Parses the possibly empty run of `@name(arguments)` directives at the
/// cursor.
pub fn parse_directives(src: &[u8], ts: &TokenStream, i: usize) -> (r: Result<
    (Vec<Directive>, usize),
    ParseError,
>)
    requires
        ts.wf(src@),
        i < ts.tokens@.len(),
    ensures
        match r {
            Ok((dirs, j)) => directives_wf(dirs@, src@.len()) && i <= j < ts.tokens@.len(),
            Err(_) => true,
        },
{
    let n: usize = ts.len();
    let mut dirs: Vec<Directive> = Vec::new();
    let mut j: usize = i;
    while punct("@").peek(src, ts, j)
        invariant
            ts.wf(src@),
            n == ts.tokens@.len(),
            i <= j < n,
            forall|m: int| 0 <= m < dirs@.len() ==> (#[trigger] dirs@[m]).wf(src@.len()),
        decreases n - j,
    {
        let t = ts.get(j);
        proof {
            lemma_next_in_bounds(ts.tokens@, src@, j as int);
        }
        let (nm, ja) = name().parse(ts, j + 1)?;
        proof {
            lemma_next_in_bounds(ts.tokens@, src@, j as int + 1);
        }
        let (args, jb) = parse_arguments(src, ts, ja)?;
        dirs.push(Directive { position: t.position, name: nm, arguments: args });
        j = jb;
    }
    Ok((dirs, j))
}

} // verus!
