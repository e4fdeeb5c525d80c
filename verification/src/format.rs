//! The formatter the printer writes through: an output buffer plus an
//! indentation state, configured by a [`Style`].
//!
//! Every writing method states exactly what it appends.  Block structure is
//! kept on a stack of indentation levels, so closing a block writes the
//! closing brace at the level of the matching opening one and restores that
//! level exactly.

use vstd::prelude::*;
use vstd::string::StringSliceAdditionalSpecFns;

verus! {

/// Style of the printed text; the one knob is the indentation width.
#[derive(Debug, Clone, Copy, PartialEq, Eq, Structural)]
pub struct Style {
    pub indent: usize,
}

impl Default for Style {
    /// Two spaces of indentation.
    fn default() -> (s: Style)
        ensures
            s.indent == 2,
    {
        Style { indent: 2 }
    }
}

/// A run of `n` spaces.
pub open spec fn spaces(n: nat) -> Seq<u8> {
    Seq::new(n, |i: int| 32u8)
}

/// One deeper indentation level: widened by the style's width, except where
/// that would not fit the machine.
pub open spec fn indent_inc(i: nat, s: nat) -> nat {
    if i + s <= usize::MAX {
        (i + s) as nat
    } else {
        i
    }
}

/// The decimal digits of a number, most significant first.
pub open spec fn decimal(n: nat) -> Seq<u8>
    decreases n,
{
    if n < 10 {
        seq![(48 + n) as u8]
    } else {
        decimal(n / 10).push((48 + (n % 10)) as u8)
    }
}

/// The decimal rendering of a signed number: a minus sign, then the digits
/// of its magnitude.
pub open spec fn decimal_i64(v: i64) -> Seq<u8> {
    if v < 0 {
        seq![45u8] + decimal((-(v as int)) as nat)
    } else {
        decimal(v as nat)
    }
}

/// How one byte of a string value prints inside quotes: the escapes the
/// grammar recognizes, or the byte itself.
pub open spec fn escape_byte(b: u8) -> Seq<u8> {
    if b == 34 {
        seq![92u8, 34u8]
    } else if b == 92 {
        seq![92u8, 92u8]
    } else if b == 10 {
        seq![92u8, 110u8]
    } else if b == 13 {
        seq![92u8, 114u8]
    } else if b == 9 {
        seq![92u8, 116u8]
    } else {
        seq![b]
    }
}

/// A string value's bytes with every byte escaped as it prints.
pub open spec fn escaped(s: Seq<u8>) -> Seq<u8>
    decreases s.len(),
{
    if s.len() == 0 {
        Seq::empty()
    } else {
        escaped(s.drop_last()) + escape_byte(s.last())
    }
}

/// A quoted string literal: the escaped bytes between two quotes.
pub open spec fn quoted(s: Seq<u8>) -> Seq<u8> {
    seq![34u8] + escaped(s) + seq![34u8]
}

/// The indentation a closing brace prints at: the level of the matching
/// opening brace, or none when no block is open.
pub open spec fn popped_level(levels: Seq<usize>) -> nat {
    if levels.len() > 0 {
        levels.last() as nat
    } else {
        0
    }
}

/// Accumulates printed text with the current indentation and the stack of
/// enclosing block levels.
#[derive(Debug)]
pub struct Formatter {
    buf: Vec<u8>,
    indent: usize,
    levels: Vec<usize>,
    style_indent: usize,
}

impl Formatter {
    /// The bytes written so far.
    pub closed spec fn out(&self) -> Seq<u8> {
        self.buf@
    }

    /// The current indentation, in spaces.
    pub closed spec fn spec_indent(&self) -> nat {
        self.indent as nat
    }

    /// The indentation levels of the enclosing open blocks.
    pub closed spec fn spec_levels(&self) -> Seq<usize> {
        self.levels@
    }

    /// The style's indentation width.
    pub closed spec fn spec_style(&self) -> nat {
        self.style_indent as nat
    }

    pub fn new(style: &Style) -> (f: Formatter)
        ensures
            f.out() == Seq::<u8>::empty(),
            f.spec_indent() == 0,
            f.spec_levels() == Seq::<usize>::empty(),
            f.spec_style() == style.indent,
    {
        let f = Formatter { buf: Vec::new(), indent: 0, levels: Vec::new(), style_indent: style.indent };
        proof {
            assert(f.out() =~= Seq::<u8>::empty());
            assert(f.spec_levels() =~= Seq::<usize>::empty());
        }
        f
    }

    /// Hands the accumulated text out.
    pub fn into_vec(self) -> (r: Vec<u8>)
        ensures
            r@ == self.out(),
    {
        self.buf
    }

    pub fn write(&mut self, s: &[u8])
        ensures
            final(self).out() == old(self).out() + s@,
            final(self).spec_indent() == old(self).spec_indent(),
            final(self).spec_levels() == old(self).spec_levels(),
            final(self).spec_style() == old(self).spec_style(),
    {
        let mut k: usize = 0;
        while k < s.len()
            invariant
                k <= s@.len(),
                self.buf@ == old(self).out() + s@.subrange(0, k as int),
                self.indent == old(self).indent,
                self.levels == old(self).levels,
                self.style_indent == old(self).style_indent,
            decreases s@.len() - k,
        {
            proof {
                assert(self.buf@.push(s@[k as int]) =~= old(self).out() + s@.subrange(
                    0,
                    k as int + 1,
                ));
            }
            self.buf.push(s[k]);
            k = k + 1;
        }
        proof {
            assert(s@.subrange(0, s@.len() as int) =~= s@);
        }
    }

    pub fn write_str(&mut self, s: &str)
        ensures
            final(self).out() == old(self).out() + s.spec_bytes(),
            final(self).spec_indent() == old(self).spec_indent(),
            final(self).spec_levels() == old(self).spec_levels(),
            final(self).spec_style() == old(self).spec_style(),
    {
        self.write(s.as_bytes());
    }

    pub fn write_byte(&mut self, b: u8)
        ensures
            final(self).out() == old(self).out().push(b),
            final(self).spec_indent() == old(self).spec_indent(),
            final(self).spec_levels() == old(self).spec_levels(),
            final(self).spec_style() == old(self).spec_style(),
    {
        self.buf.push(b);
    }

    /// A blank line between top-level items, once something was written.
    pub fn margin(&mut self)
        ensures
            final(self).out() == (if old(self).out().len() == 0 {
                old(self).out()
            } else {
                old(self).out().push(10u8)
            }),
            final(self).spec_indent() == old(self).spec_indent(),
            final(self).spec_levels() == old(self).spec_levels(),
            final(self).spec_style() == old(self).spec_style(),
    {
        if self.buf.len() > 0 {
            self.buf.push(10);
        }
    }

    /// Writes the current indentation as spaces.
    pub fn indent(&mut self)
        ensures
            final(self).out() == old(self).out() + spaces(old(self).spec_indent()),
            final(self).spec_indent() == old(self).spec_indent(),
            final(self).spec_levels() == old(self).spec_levels(),
            final(self).spec_style() == old(self).spec_style(),
    {
        let mut k: usize = 0;
        let width = self.indent;
        while k < width
            invariant
                k <= width,
                width == old(self).indent,
                self.buf@ == old(self).out() + spaces(k as nat),
                self.indent == old(self).indent,
                self.levels == old(self).levels,
                self.style_indent == old(self).style_indent,
            decreases width - k,
        {
            proof {
                assert(self.buf@.push(32u8) =~= old(self).out() + spaces(k as nat + 1));
            }
            self.buf.push(32);
            k = k + 1;
        }
        proof {
            assert(self.buf@ =~= old(self).out() + spaces(old(self).spec_indent()));
        }
    }

    pub fn endline(&mut self)
        ensures
            final(self).out() == old(self).out().push(10u8),
            final(self).spec_indent() == old(self).spec_indent(),
            final(self).spec_levels() == old(self).spec_levels(),
            final(self).spec_style() == old(self).spec_style(),
    {
        self.buf.push(10);
    }

    /// Opens a `{` block: brace, line break, one deeper indentation, with the
    /// present level remembered for the matching close.
    pub fn start_block(&mut self)
        ensures
            final(self).out() == old(self).out() + seq![123u8, 10u8],
            final(self).spec_indent() == indent_inc(old(self).spec_indent(), old(self).spec_style()),
            final(self).spec_levels().len() == old(self).spec_levels().len() + 1,
            final(self).spec_levels().drop_last() == old(self).spec_levels(),
            final(self).spec_levels().last() as nat == old(self).spec_indent(),
            final(self).spec_style() == old(self).spec_style(),
    {
        proof {
            assert(self.buf@.push(123u8).push(10u8) =~= self.buf@ + seq![123u8, 10u8]);
        }
        self.buf.push(123);
        self.buf.push(10);
        self.levels.push(self.indent);
        proof {
            assert(self.levels@.drop_last() =~= old(self).levels@);
        }
        if self.indent <= usize::MAX - self.style_indent {
            self.indent = self.indent + self.style_indent;
        }
    }

    /// Closes a `}` block: the brace prints at the matching opening level,
    /// which becomes the indentation again.
    pub fn end_block(&mut self)
        ensures
            final(self).out() == old(self).out() + spaces(popped_level(old(self).spec_levels()))
                + seq![125u8, 10u8],
            final(self).spec_indent() == popped_level(old(self).spec_levels()),
            final(self).spec_levels() == (if old(self).spec_levels().len() > 0 {
                old(self).spec_levels().drop_last()
            } else {
                old(self).spec_levels()
            }),
            final(self).spec_style() == old(self).spec_style(),
    {
        let restored = match self.levels.pop() {
            Some(level) => level,
            None => 0,
        };
        self.indent = restored;
        self.indent();
        proof {
            assert(self.buf@.push(125u8).push(10u8) =~= self.buf@ + seq![125u8, 10u8]);
            assert(old(self).out() + spaces(restored as nat) + seq![125u8, 10u8] =~= old(
                self,
            ).out() + spaces(restored as nat) + seq![125u8, 10u8]);
        }
        self.buf.push(125);
        self.buf.push(10);
        proof {
            assert(self.buf@ =~= old(self).out() + spaces(popped_level(old(self).spec_levels()))
                + seq![125u8, 10u8]);
        }
    }

    /// Writes a quoted string literal, escaping what must be escaped.
    pub fn write_quoted(&mut self, s: &[u8])
        ensures
            final(self).out() == old(self).out() + quoted(s@),
            final(self).spec_indent() == old(self).spec_indent(),
            final(self).spec_levels() == old(self).spec_levels(),
            final(self).spec_style() == old(self).spec_style(),
    {
        proof {
            assert(escaped(s@.subrange(0, 0)) =~= Seq::<u8>::empty());
            assert(self.buf@.push(34u8) =~= self.buf@ + seq![34u8] + escaped(s@.subrange(0, 0)));
        }
        self.buf.push(34);
        let mut k: usize = 0;
        while k < s.len()
            invariant
                k <= s@.len(),
                self.buf@ == old(self).out() + seq![34u8] + escaped(s@.subrange(0, k as int)),
                self.indent == old(self).indent,
                self.levels == old(self).levels,
                self.style_indent == old(self).style_indent,
            decreases s@.len() - k,
        {
            let c = s[k];
            proof {
                let pre = s@.subrange(0, k as int);
                let cur = s@.subrange(0, k as int + 1);
                assert(cur.drop_last() =~= pre);
                assert(cur.last() == s@[k as int]);
                assert(escaped(cur) == escaped(pre) + escape_byte(s@[k as int]));
            }
            if c == 34 {
                proof {
                    assert(self.buf@.push(92u8).push(34u8) =~= old(self).out() + seq![34u8]
                        + escaped(s@.subrange(0, k as int + 1)));
                }
                self.buf.push(92);
                self.buf.push(34);
            } else if c == 92 {
                proof {
                    assert(self.buf@.push(92u8).push(92u8) =~= old(self).out() + seq![34u8]
                        + escaped(s@.subrange(0, k as int + 1)));
                }
                self.buf.push(92);
                self.buf.push(92);
            } else if c == 10 {
                proof {
                    assert(self.buf@.push(92u8).push(110u8) =~= old(self).out() + seq![34u8]
                        + escaped(s@.subrange(0, k as int + 1)));
                }
                self.buf.push(92);
                self.buf.push(110);
            } else if c == 13 {
                proof {
                    assert(self.buf@.push(92u8).push(114u8) =~= old(self).out() + seq![34u8]
                        + escaped(s@.subrange(0, k as int + 1)));
                }
                self.buf.push(92);
                self.buf.push(114);
            } else if c == 9 {
                proof {
                    assert(self.buf@.push(92u8).push(116u8) =~= old(self).out() + seq![34u8]
                        + escaped(s@.subrange(0, k as int + 1)));
                }
                self.buf.push(92);
                self.buf.push(116);
            } else {
                proof {
                    assert(self.buf@.push(c) =~= old(self).out() + seq![34u8] + escaped(
                        s@.subrange(0, k as int + 1),
                    ));
                }
                self.buf.push(c);
            }
            k = k + 1;
        }
        proof {
            assert(s@.subrange(0, s@.len() as int) =~= s@);
        }
        self.buf.push(34);
        proof {
            assert(self.buf@ =~= old(self).out() + quoted(s@));
        }
    }

    /// Writes the decimal digits of a magnitude, most significant first.
    fn push_decimal(&mut self, m: u64)
        ensures
            final(self).out() == old(self).out() + decimal(m as nat),
            final(self).spec_indent() == old(self).spec_indent(),
            final(self).spec_levels() == old(self).spec_levels(),
            final(self).spec_style() == old(self).spec_style(),
        decreases m,
    {
        if m >= 10 {
            self.push_decimal(m / 10);
            proof {
                assert(self.buf@.push((48 + (m as nat % 10)) as u8) =~= old(self).out() + decimal(
                    m as nat,
                ));
            }
            self.buf.push(48 + ((m % 10) as u8));
        } else {
            proof {
                assert(self.buf@.push((48 + m as nat) as u8) =~= old(self).out() + decimal(
                    m as nat,
                ));
            }
            self.buf.push(48 + (m as u8));
        }
    }

    /// Writes a signed integer in decimal.
    pub fn write_int(&mut self, v: i64)
        ensures
            final(self).out() == old(self).out() + decimal_i64(v),
            final(self).spec_indent() == old(self).spec_indent(),
            final(self).spec_levels() == old(self).spec_levels(),
            final(self).spec_style() == old(self).spec_style(),
    {
        if v < 0 {
            self.buf.push(45);
            let m: u64 = ((-(v + 1)) as u64) + 1;
            proof {
                assert(m as nat == (-(v as int)) as nat);
            }
            self.push_decimal(m);
            proof {
                assert(old(self).out().push(45u8) + decimal(m as nat) =~= old(self).out()
                    + decimal_i64(v));
            }
        } else {
            self.push_decimal(v as u64);
        }
    }
}

} // verus!
