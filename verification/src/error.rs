//! Parse errors.
//!
//! Both grammars stop at the first point of divergence and surface one error
//! carrying the offending position.  A lexical error names what went wrong in
//! the character stream; a syntactic error carries the set of expectations
//! that were tried and failed at that position.  The structure is otherwise
//! kept opaque: callers should treat an error as data to display, plus a
//! position accessor.

use vstd::prelude::*;
use vstd::string::StringSliceAdditionalSpecFns;

use crate::format::decimal;
use crate::position::Pos;
use crate::tokenizer::Kind;

verus! {

/// The text ends by naming the position: some head, then the decimal line
/// and column.
pub open spec fn shows_position(out: Seq<u8>, p: Pos) -> bool {
    exists|head: Seq<u8>|
        out == #[trigger] (head + " at line ".spec_bytes() + decimal(p.line as nat)
            + " column ".spec_bytes() + decimal(p.column as nat))
}

fn append_bytes(out: &mut Vec<u8>, s: &[u8])
    ensures
        final(out)@ == old(out)@ + s@,
{
    let mut k: usize = 0;
    while k < s.len()
        invariant
            k <= s@.len(),
            out@ == old(out)@ + s@.subrange(0, k as int),
        decreases s@.len() - k,
    {
        proof {
            assert(out@.push(s@[k as int]) =~= old(out)@ + s@.subrange(0, k as int + 1));
        }
        out.push(s[k]);
        k = k + 1;
    }
    proof {
        assert(s@.subrange(0, s@.len() as int) =~= s@);
    }
}

fn append_str(out: &mut Vec<u8>, s: &str)
    ensures
        final(out)@ == old(out)@ + s.spec_bytes(),
{
    append_bytes(out, s.as_bytes());
}

/// Appends a number's decimal digits, most significant first.
fn append_decimal(out: &mut Vec<u8>, m: usize)
    ensures
        final(out)@ == old(out)@ + decimal(m as nat),
    decreases m,
{
    if m >= 10 {
        append_decimal(out, m / 10);
        proof {
            assert(out@.push((48 + (m as nat % 10)) as u8) =~= old(out)@ + decimal(m as nat));
        }
        out.push(48 + ((m % 10) as u8));
    } else {
        proof {
            assert(out@.push((48 + m as nat) as u8) =~= old(out)@ + decimal(m as nat));
        }
        out.push(48 + (m as u8));
    }
}

/// What went wrong while scanning characters into tokens.
#[derive(Debug, Clone, Copy, PartialEq, Eq, Structural)]
pub enum LexicalError {
    UnexpectedCharacter,
    UnterminatedString,
    UnterminatedBlockString,
    MalformedNumber,
    InvalidEscape,
}

/// One alternative a failed parsing primitive would have accepted.
#[derive(Debug, Clone)]
pub enum Expectation {
    /// A token of this kind.
    Kind(Kind),
    /// A token with exactly this text: a keyword or a punctuator.
    Text(Vec<u8>),
    /// Any name token.
    Name,
    /// One of the directive location spellings.
    DirectiveLocation,
}

#[derive(Debug, Clone)]
pub(crate) enum Detail {
    Lexical(LexicalError),
    Syntax(Vec<Expectation>),
}

/// Error from parsing a document.  The first failed match aborts the parse;
/// no partial tree is returned.
#[derive(Debug, Clone)]
pub struct ParseError {
    pub(crate) position: Pos,
    pub(crate) detail: Detail,
}

impl ParseError {
    /// The position the error points at.
    pub closed spec fn position_spec(&self) -> Pos {
        self.position
    }

    /// Whether the error arose in the tokenizer rather than in a grammar.
    pub closed spec fn is_lexical_spec(&self) -> bool {
        self.detail is Lexical
    }

    /// The expectations a syntactic error accumulated; empty for a lexical
    /// one.
    pub closed spec fn expected_spec(&self) -> Seq<Expectation> {
        match self.detail {
            Detail::Lexical(_) => Seq::empty(),
            Detail::Syntax(v) => v@,
        }
    }

    pub closed spec fn lexical_kind_spec(&self) -> Option<LexicalError> {
        match self.detail {
            Detail::Lexical(k) => Some(k),
            Detail::Syntax(_) => None,
        }
    }

    /// The position of the offending input.
    pub fn position(&self) -> (p: Pos)
        ensures
            p == self.position_spec(),
    {
        self.position
    }

    /// True for an error of the lexical kind: invalid character, unterminated
    /// string or block string, malformed number, invalid escape.
    pub fn is_lexical(&self) -> (r: bool)
        ensures
            r == self.is_lexical_spec(),
    {
        match self.detail {
            Detail::Lexical(_) => true,
            Detail::Syntax(_) => false,
        }
    }

    /// True for an error of the syntactic kind: an unexpected token against
    /// one or more expected alternatives.
    pub fn is_syntactic(&self) -> (r: bool)
        ensures
            r == !self.is_lexical_spec(),
    {
        match self.detail {
            Detail::Lexical(_) => false,
            Detail::Syntax(_) => true,
        }
    }

    /// The lexical error kind, if the error is lexical.
    pub fn lexical_kind(&self) -> (r: Option<LexicalError>)
        ensures
            r == self.lexical_kind_spec(),
            r is Some <==> self.is_lexical_spec(),
    {
        match self.detail {
            Detail::Lexical(k) => Some(k),
            Detail::Syntax(_) => None,
        }
    }

    /// Renders the error as UTF-8 text: what went wrong, the alternatives
    /// that were expected, and the offending line and column.
    pub fn message(&self) -> (out: Vec<u8>)
        ensures
            shows_position(out@, self.position_spec()),
    {
        let mut out: Vec<u8> = Vec::new();
        match &self.detail {
            Detail::Lexical(k) => {
                let what = match k {
                    LexicalError::UnexpectedCharacter => "unexpected character",
                    LexicalError::UnterminatedString => "unterminated string",
                    LexicalError::UnterminatedBlockString => "unterminated block string",
                    LexicalError::MalformedNumber => "malformed number literal",
                    LexicalError::InvalidEscape => "invalid escape sequence",
                };
                append_str(&mut out, what);
            },
            Detail::Syntax(expected) => {
                append_str(&mut out, "unexpected token");
                if expected.len() > 0 {
                    append_str(&mut out, ": expected ");
                    let mut k: usize = 0;
                    while k < expected.len()
                        decreases expected@.len() - k,
                    {
                        if k > 0 {
                            append_str(&mut out, " or ");
                        }
                        match &expected[k] {
                            Expectation::Kind(kd) => {
                                let what = match kd {
                                    Kind::Punctuator => "Punctuator",
                                    Kind::Name => "Name",
                                    Kind::IntValue => "IntValue",
                                    Kind::FloatValue => "FloatValue",
                                    Kind::StringValue => "StringValue",
                                    Kind::BlockString => "BlockString",
                                    Kind::EndOfFile => "end of input",
                                };
                                append_str(&mut out, what);
                            },
                            Expectation::Text(text) => {
                                out.push(96);
                                append_bytes(&mut out, text.as_slice());
                                out.push(96);
                            },
                            Expectation::Name => {
                                append_str(&mut out, "Name");
                            },
                            Expectation::DirectiveLocation => {
                                append_str(&mut out, "a directive location");
                            },
                        }
                        k = k + 1;
                    }
                }
            },
        }
        let ghost head = out@;
        append_str(&mut out, " at line ");
        append_decimal(&mut out, self.position.line);
        append_str(&mut out, " column ");
        append_decimal(&mut out, self.position.column);
        proof {
            assert(out@ =~= head + " at line ".spec_bytes() + decimal(self.position.line as nat)
                + " column ".spec_bytes() + decimal(self.position.column as nat));
        }
        out
    }

    pub(crate) fn lexical(kind: LexicalError, position: Pos) -> (e: ParseError)
        ensures
            e.is_lexical_spec(),
            e.lexical_kind_spec() == Some(kind),
            e.position_spec() == position,
    {
        ParseError { position, detail: Detail::Lexical(kind) }
    }

    pub(crate) fn syntax(expected: Vec<Expectation>, position: Pos) -> (e: ParseError)
        ensures
            !e.is_lexical_spec(),
            e.position_spec() == position,
            e.expected_spec() == expected@,
    {
        ParseError { position, detail: Detail::Syntax(expected) }
    }
}

} // verus!
