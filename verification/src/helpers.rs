//! The reusable parsing primitives the grammars are built from.
//!
//! Three matchers look at the next token of a stream: [`kind`] accepts any
//! token of a given class, [`name`] accepts any name and yields its text
//! range, and [`punct`] / [`ident`] accept a token whose text equals a given
//! punctuator or keyword.  Each is both a parser and a contributor of a
//! failure expectation; token comparison lives here and nowhere else, and the
//! grammars compose these instead of re-implementing matching.

use vstd::prelude::*;
use vstd::slice::slice_to_vec;
use vstd::string::StringSliceAdditionalSpecFns;

use crate::common::Span;
use crate::error::{Expectation, ParseError};
use crate::tokenizer::{token_wf, Kind, Token, TokenStream};

verus! {

/// Byte-slice equality, the one comparison the matchers rest on.
fn bytes_eq(a: &[u8], b: &[u8]) -> (r: bool)
    ensures
        r == (a@ == b@),
{
    if a.len() != b.len() {
        return false;
    }
    let mut i: usize = 0;
    while i < a.len()
        invariant
            0 <= i <= a@.len(),
            a@.len() == b@.len(),
            forall|k: int| 0 <= k < i ==> a@[k] == b@[k],
        decreases a@.len() - i,
    {
        if a[i] != b[i] {
            return false;
        }
        i = i + 1;
    }
    proof {
        assert(a@ =~= b@);
    }
    true
}

/// Accepts the next token when its class equals a given [`Kind`].
#[derive(Debug, Clone)]
pub struct TokenMatch {
    pub kind: Kind,
}

/// Accepts the next token when it is any name, yielding its text range.
#[derive(Debug, Clone)]
pub struct NameMatch {}

/// Accepts the next token when its class and literal text equal a given
/// pair: a keyword such as `query` or `on`, or a punctuator such as `{`.
#[derive(Debug, Clone)]
pub struct Value {
    pub kind: Kind,
    pub value: Vec<u8>,
}

/// A matcher for any token of class `kind`.
pub fn kind(k: Kind) -> (m: TokenMatch)
    ensures
        m.kind == k,
{
    TokenMatch { kind: k }
}

/// A matcher for any name token.
pub fn name() -> (m: NameMatch)
{
    NameMatch {}
}

/// A matcher for the punctuator written `value`.
pub fn punct(value: &'static str) -> (m: Value)
    ensures
        m.kind == Kind::Punctuator,
        m.value@ == value.spec_bytes(),
{
    Value { kind: Kind::Punctuator, value: slice_to_vec(value.as_bytes()) }
}

/// A matcher for the keyword written `value`.
pub fn ident(value: &'static str) -> (m: Value)
    ensures
        m.kind == Kind::Name,
        m.value@ == value.spec_bytes(),
{
    Value { kind: Kind::Name, value: slice_to_vec(value.as_bytes()) }
}

impl TokenMatch {
    pub open spec fn matches(self, t: Token) -> bool {
        t.kind == self.kind
    }

    /// Whether the token at the cursor would be accepted; consumes nothing.
    pub fn peek(&self, ts: &TokenStream, i: usize) -> (r: bool)
        requires
            i < ts.tokens@.len(),
        ensures
            r == self.matches(ts.tokens@[i as int]),
    {
        ts.get(i).kind == self.kind
    }

    /// Accepts and yields the token at the cursor, or contributes the
    /// expectation of its kind to a syntax error at that token's position.
    pub fn parse(&self, ts: &TokenStream, i: usize) -> (r: Result<(Token, usize), ParseError>)
        requires
            i < ts.tokens@.len(),
        ensures
            match r {
                Ok((t, j)) => t == ts.tokens@[i as int] && self.matches(t) && j == i + 1,
                Err(e) => !self.matches(ts.tokens@[i as int]) && !e.is_lexical_spec()
                    && e.position_spec() == ts.tokens@[i as int].position && e.expected_spec()
                    == seq![Expectation::Kind(self.kind)],
            },
    {
        let _n: usize = ts.len();
        let t = ts.get(i);
        if t.kind == self.kind {
            Ok((t, i + 1))
        } else {
            let mut expected: Vec<Expectation> = Vec::new();
            expected.push(Expectation::Kind(self.kind));
            proof {
                assert(expected@ =~= seq![Expectation::Kind(self.kind)]);
            }
            Err(ParseError::syntax(expected, t.position))
        }
    }
}

impl NameMatch {
    pub open spec fn matches(self, t: Token) -> bool {
        t.kind == Kind::Name
    }

    /// Accepts any name, yielding its text range, or contributes the
    /// expectation of a name.
    pub fn parse(&self, ts: &TokenStream, i: usize) -> (r: Result<(Span, usize), ParseError>)
        requires
            i < ts.tokens@.len(),
        ensures
            match r {
                Ok((s, j)) => ts.tokens@[i as int].kind == Kind::Name && s == ts.tokens@[
                    i as int
                ].span && j == i + 1,
                Err(e) => ts.tokens@[i as int].kind != Kind::Name && !e.is_lexical_spec()
                    && e.position_spec() == ts.tokens@[i as int].position && e.expected_spec()
                    == seq![Expectation::Name],
            },
    {
        let _n: usize = ts.len();
        let t = ts.get(i);
        if t.kind == Kind::Name {
            Ok((t.span, i + 1))
        } else {
            let mut expected: Vec<Expectation> = Vec::new();
            expected.push(Expectation::Name);
            proof {
                assert(expected@ =~= seq![Expectation::Name]);
            }
            Err(ParseError::syntax(expected, t.position))
        }
    }
}

impl Value {
    pub open spec fn matches(self, t: Token, src: Seq<u8>) -> bool {
        t.kind == self.kind && t.span.bytes(src) == self.value@
    }

    /// Whether the token at the cursor would be accepted; consumes nothing.
    pub fn peek(&self, src: &[u8], ts: &TokenStream, i: usize) -> (r: bool)
        requires
            ts.wf(src@),
            i < ts.tokens@.len(),
        ensures
            r == self.matches(ts.tokens@[i as int], src@),
    {
        let t = ts.get(i);
        proof {
            assert(token_wf(ts.tokens@[i as int], src@));
        }
        t.kind == self.kind && bytes_eq(t.span.text(src), self.value.as_slice())
    }

    /// Accepts and yields the token at the cursor, or contributes the
    /// expectation of this exact text.
    pub fn parse(&self, src: &[u8], ts: &TokenStream, i: usize) -> (r: Result<
        (Token, usize),
        ParseError,
    >)
        requires
            ts.wf(src@),
            i < ts.tokens@.len(),
        ensures
            match r {
                Ok((t, j)) => t == ts.tokens@[i as int] && self.matches(t, src@) && j == i + 1,
                Err(e) => {
                    &&& !self.matches(ts.tokens@[i as int], src@)
                    &&& !e.is_lexical_spec()
                    &&& e.position_spec() == ts.tokens@[i as int].position
                    &&& e.expected_spec().len() == 1
                    &&& (e.expected_spec()[0] matches Expectation::Text(t) && t@ == self.value@)
                },
            },
    {
        let _n: usize = ts.len();
        let t = ts.get(i);
        proof {
            assert(token_wf(ts.tokens@[i as int], src@));
        }
        if t.kind == self.kind && bytes_eq(t.span.text(src), self.value.as_slice()) {
            Ok((t, i + 1))
        } else {
            let mut expected: Vec<Expectation> = Vec::new();
            expected.push(Expectation::Text(slice_to_vec(self.value.as_slice())));
            Err(ParseError::syntax(expected, t.position))
        }
    }
}

} // verus!
