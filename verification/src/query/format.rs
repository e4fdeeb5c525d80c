//! The printer for the query language: an exhaustive walk over the closed
//! set of node variants, emitting canonical text through a [`Formatter`].
//!
//! Since the tree holds byte ranges rather than copies, printing takes the
//! source buffer the tree was parsed from alongside each node.  What each
//! node prints is fixed by a spec-level rendering function, and every
//! printing function is proved to append exactly that rendering: the output
//! is a function of the tree, the buffer and the style alone — it reads no
//! position field, renders every element once in stored order, and two calls
//! on the same input yield the same text.

use vstd::prelude::*;
use vstd::string::StringSliceAdditionalSpecFns;

use crate::common::{arguments_wf, directives_wf, values_wf, Directive, Span, Type, Value};
use crate::format::{decimal_i64, indent_inc, quoted, spaces, Formatter, Style};
use crate::query::ast::{
    selections_wf, Definition, Document, Field, FragmentDefinition, FragmentSpread, InlineFragment,
    Mutation, OperationDefinition, Query, Selection, SelectionSet, Subscription, TypeCondition,
    VariableDefinition,
};

verus! {

/// The canonical text of a type reference: the name, or the inner type in
/// brackets, or the inner type followed by `!`.
pub open spec fn render_type(t: Type, src: Seq<u8>) -> Seq<u8>
    decreases t,
{
    match t {
        Type::NamedType(name) => name.bytes(src),
        Type::ListType(inner) => seq![91u8] + render_type(*inner, src) + seq![93u8],
        Type::NonNullType(inner) => render_type(*inner, src) + seq![33u8],
    }
}

/// The canonical text of one input value.
pub open spec fn render_value(v: Value, src: Seq<u8>) -> Seq<u8>
    decreases v,
{
    match v {
        Value::Variable(name) => seq![36u8] + name.bytes(src),
        Value::Int(num) => decimal_i64(num.0),
        Value::Float(text) => text.bytes(src),
        Value::String(val) => quoted(val@),
        Value::Boolean(b) => if b {
            "true".spec_bytes()
        } else {
            "false".spec_bytes()
        },
        Value::Null => "null".spec_bytes(),
        Value::Enum(name) => name.bytes(src),
        Value::List(items) => seq![91u8] + render_values(items@, src) + seq![93u8],
        Value::Object(fields) => seq![123u8] + render_name_value_list(fields@, src) + seq![125u8],
    }
}

/// A comma-separated value list, each element once in stored order.
pub open spec fn render_values(items: Seq<Value>, src: Seq<u8>) -> Seq<u8>
    decreases items,
{
    if items.len() == 0 {
        Seq::empty()
    } else if items.len() == 1 {
        render_value(items[0], src)
    } else {
        render_values(items.subrange(0, items.len() - 1), src) + ", ".spec_bytes() + render_value(
            items[items.len() - 1],
            src,
        )
    }
}

/// A comma-separated `name: value` list, each pair once in stored order;
/// repeated names print repeatedly.
pub open spec fn render_name_value_list(pairs: Seq<(Span, Value)>, src: Seq<u8>) -> Seq<u8>
    decreases pairs,
{
    if pairs.len() == 0 {
        Seq::empty()
    } else if pairs.len() == 1 {
        pairs[0].0.bytes(src) + ": ".spec_bytes() + render_value(pairs[0].1, src)
    } else {
        render_name_value_list(pairs.subrange(0, pairs.len() - 1), src) + ", ".spec_bytes()
            + pairs[pairs.len() - 1].0.bytes(src) + ": ".spec_bytes() + render_value(
            pairs[pairs.len() - 1].1,
            src,
        )
    }
}

/// A parenthesized argument list, or nothing for an empty one.
pub open spec fn render_arguments(args: Seq<(Span, Value)>, src: Seq<u8>) -> Seq<u8> {
    if args.len() == 0 {
        Seq::empty()
    } else {
        seq![40u8] + render_name_value_list(args, src) + seq![41u8]
    }
}

/// One `@name(arguments)` annotation.
pub open spec fn render_directive(d: Directive, src: Seq<u8>) -> Seq<u8> {
    seq![64u8] + d.name.bytes(src) + render_arguments(d.arguments@, src)
}

/// Every directive in stored order, each preceded by one space.
pub open spec fn render_directives(dirs: Seq<Directive>, src: Seq<u8>) -> Seq<u8>
    decreases dirs,
{
    if dirs.len() == 0 {
        Seq::empty()
    } else {
        render_directives(dirs.subrange(0, dirs.len() - 1), src) + seq![32u8] + render_directive(
            dirs[dirs.len() - 1],
            src,
        )
    }
}

/// One `$name: Type = default` variable declaration.
pub open spec fn render_variable_definition(v: VariableDefinition, src: Seq<u8>) -> Seq<u8> {
    seq![36u8] + v.name.bytes(src) + ": ".spec_bytes() + render_type(v.var_type, src) + (
    match v.default_value {
        Some(d) => " = ".spec_bytes() + render_value(d, src),
        None => Seq::empty(),
    })
}

pub open spec fn render_variable_definition_list(vars: Seq<VariableDefinition>, src: Seq<u8>) -> Seq<
    u8,
>
    decreases vars,
{
    if vars.len() == 0 {
        Seq::empty()
    } else if vars.len() == 1 {
        render_variable_definition(vars[0], src)
    } else {
        render_variable_definition_list(vars.subrange(0, vars.len() - 1), src) + ", ".spec_bytes()
            + render_variable_definition(vars[vars.len() - 1], src)
    }
}

/// A parenthesized variable definition list, or nothing for an empty one.
pub open spec fn render_variable_definitions(vars: Seq<VariableDefinition>, src: Seq<u8>) -> Seq<
    u8,
> {
    if vars.len() == 0 {
        Seq::empty()
    } else {
        seq![40u8] + render_variable_definition_list(vars, src) + seq![41u8]
    }
}

/// A braced selection block at indentation `ind`: the opening brace and line
/// break, the selections one level deeper, and the closing brace back at
/// `ind`.
pub open spec fn render_block(items: Seq<Selection>, src: Seq<u8>, ind: nat, sty: nat) -> Seq<u8>
    decreases items, 1int,
{
    seq![123u8, 10u8] + render_selections(items, src, indent_inc(ind, sty), sty) + spaces(ind)
        + seq![125u8, 10u8]
}

/// Every selection in stored order.
pub open spec fn render_selections(items: Seq<Selection>, src: Seq<u8>, ind: nat, sty: nat) -> Seq<
    u8,
>
    decreases items, 0int,
{
    if items.len() == 0 {
        Seq::empty()
    } else {
        render_selections(items.subrange(0, items.len() - 1), src, ind, sty) + render_selection(
            items[items.len() - 1],
            src,
            ind,
            sty,
        )
    }
}

pub open spec fn render_selection(sel: Selection, src: Seq<u8>, ind: nat, sty: nat) -> Seq<u8>
    decreases sel, 2int,
{
    match sel {
        Selection::Field(f) => render_field(f, src, ind, sty),
        Selection::FragmentSpread(s) => spaces(ind) + "...".spec_bytes() + s.fragment_name.bytes(
            src,
        ) + render_directives(s.directives@, src) + seq![10u8],
        Selection::InlineFragment(fr) => spaces(ind) + "...".spec_bytes() + (
        match fr.type_condition {
            Some(c) => seq![32u8] + render_type_condition(c, src),
            None => Seq::empty(),
        }) + render_directives(fr.directives@, src) + seq![32u8] + render_block(
            fr.selection_set.items@,
            src,
            ind,
            sty,
        ),
    }
}

pub open spec fn render_type_condition(c: TypeCondition, src: Seq<u8>) -> Seq<u8> {
    match c {
        TypeCondition::On(name) => "on ".spec_bytes() + name.bytes(src),
    }
}

/// One field line: indentation, optional alias, name, arguments, directives,
/// then either a nested block or the end of the line.
pub open spec fn render_field(f: Field, src: Seq<u8>, ind: nat, sty: nat) -> Seq<u8>
    decreases f, 0int,
{
    spaces(ind) + (match f.alias {
        Some(a) => a.bytes(src) + ": ".spec_bytes(),
        None => Seq::empty(),
    }) + f.name.bytes(src) + render_arguments(f.arguments@, src) + render_directives(
        f.directives@,
        src,
    ) + (if f.selection_set.items@.len() > 0 {
        seq![32u8] + render_block(f.selection_set.items@, src, ind, sty)
    } else {
        seq![10u8]
    })
}

/// The shared shape of a keyworded operation: the keyword, optional name,
/// variable definitions, directives, one space, and the selection block.
pub open spec fn render_operation_body(
    keyword: Seq<u8>,
    name: Option<Span>,
    vars: Seq<VariableDefinition>,
    dirs: Seq<Directive>,
    items: Seq<Selection>,
    src: Seq<u8>,
    ind: nat,
    sty: nat,
) -> Seq<u8> {
    spaces(ind) + keyword + (match name {
        Some(n) => seq![32u8] + n.bytes(src),
        None => Seq::empty(),
    }) + render_variable_definitions(vars, src) + render_directives(dirs, src) + seq![32u8]
        + render_block(items, src, ind, sty)
}

pub open spec fn render_operation(op: OperationDefinition, src: Seq<u8>, ind: nat, sty: nat) -> Seq<
    u8,
> {
    match op {
        OperationDefinition::SelectionSet(s) => spaces(ind) + render_block(s.items@, src, ind, sty),
        OperationDefinition::Query(q) => render_operation_body(
            "query".spec_bytes(),
            q.name,
            q.variable_definitions@,
            q.directives@,
            q.selection_set.items@,
            src,
            ind,
            sty,
        ),
        OperationDefinition::Mutation(m) => render_operation_body(
            "mutation".spec_bytes(),
            m.name,
            m.variable_definitions@,
            m.directives@,
            m.selection_set.items@,
            src,
            ind,
            sty,
        ),
        OperationDefinition::Subscription(s) => render_operation_body(
            "subscription".spec_bytes(),
            s.name,
            s.variable_definitions@,
            s.directives@,
            s.selection_set.items@,
            src,
            ind,
            sty,
        ),
    }
}

pub open spec fn render_fragment_definition(
    fd: FragmentDefinition,
    src: Seq<u8>,
    ind: nat,
    sty: nat,
) -> Seq<u8> {
    spaces(ind) + "fragment ".spec_bytes() + fd.name.bytes(src) + seq![32u8]
        + render_type_condition(fd.type_condition, src) + render_directives(fd.directives@, src)
        + seq![32u8] + render_block(fd.selection_set.items@, src, ind, sty)
}

pub open spec fn render_definition(d: Definition, src: Seq<u8>, ind: nat, sty: nat) -> Seq<u8> {
    match d {
        Definition::Operation(op) => render_operation(op, src, ind, sty),
        Definition::Fragment(fd) => render_fragment_definition(fd, src, ind, sty),
    }
}

/// A definition appended after a margin: a blank line separates it from
/// anything already written.
pub open spec fn with_margin(out: Seq<u8>, body: Seq<u8>) -> Seq<u8> {
    if out.len() == 0 {
        out + body
    } else {
        out.push(10u8) + body
    }
}

/// The definitions of a document appended in order onto `out`, each behind a
/// margin.
pub open spec fn render_definitions_onto(
    out: Seq<u8>,
    defs: Seq<Definition>,
    src: Seq<u8>,
    ind: nat,
    sty: nat,
) -> Seq<u8>
    decreases defs.len(),
{
    if defs.len() == 0 {
        out
    } else {
        render_definitions_onto(
            with_margin(out, render_definition(defs[0], src, ind, sty)),
            defs.subrange(1, defs.len() as int),
            src,
            ind,
            sty,
        )
    }
}

/// The canonical text of a whole document under a style: what
/// [`Document::format`] returns.
pub open spec fn render_document(doc: Document, src: Seq<u8>, style: Style) -> Seq<u8> {
    render_definitions_onto(Seq::empty(), doc.definitions@, src, 0, style.indent as nat)
}

/// The formatter's indentation state is untouched.
pub open spec fn state_kept(pre: Formatter, post: Formatter) -> bool {
    &&& post.spec_indent() == pre.spec_indent()
    &&& post.spec_levels() == pre.spec_levels()
    &&& post.spec_style() == pre.spec_style()
}

/// Writes the `(name: value, ...)` argument list, nothing for an empty one.
pub fn format_arguments(arguments: &Vec<(Span, Value)>, src: &[u8], f: &mut Formatter)
    requires
        arguments_wf(arguments@, src@.len()),
    ensures
        final(f).out() == old(f).out() + render_arguments(arguments@, src@),
        state_kept(*old(f), *final(f)),
{
    if arguments.len() == 0 {
        proof {
            assert(old(f).out() + render_arguments(arguments@, src@) =~= f.out());
        }
        return ;
    }
    f.write_byte(40);
    let mut k: usize = 0;
    while k < arguments.len()
        invariant
            0 < arguments@.len(),
            k <= arguments@.len(),
            arguments_wf(arguments@, src@.len()),
            f.out() == old(f).out().push(40u8) + render_name_value_list(
                arguments@.subrange(0, k as int),
                src@,
            ),
            state_kept(*old(f), *f),
        decreases arguments@.len() - k,
    {
        proof {
            assert(render_name_value_list(arguments@.subrange(0, 0), src@) =~= Seq::<u8>::empty());
            assert(arguments@[k as int].0.wf(src@.len()) && arguments@[k as int].1.wf(src@.len()));
        }
        let ghost mid = f.out();
        if k > 0 {
            f.write_str(", ");
        }
        f.write(arguments[k].0.text(src));
        f.write_str(": ");
        arguments[k].1.display(src, f);
        proof {
            let pre = arguments@.subrange(0, k as int);
            let cur = arguments@.subrange(0, k as int + 1);
            assert(cur.subrange(0, cur.len() - 1) =~= pre);
            assert(cur[cur.len() - 1] == arguments@[k as int]);
            if k == 0 {
                assert(f.out() =~= old(f).out().push(40u8) + render_name_value_list(cur, src@));
            } else {
                assert(f.out() =~= old(f).out().push(40u8) + render_name_value_list(cur, src@));
            }
        }
        k = k + 1;
    }
    proof {
        assert(arguments@.subrange(0, arguments@.len() as int) =~= arguments@);
    }
    f.write_byte(41);
    proof {
        assert(f.out() =~= old(f).out() + render_arguments(arguments@, src@));
    }
}

/// Writes each directive, preceded by one space.
pub fn format_directives(directives: &Vec<Directive>, src: &[u8], f: &mut Formatter)
    requires
        directives_wf(directives@, src@.len()),
    ensures
        final(f).out() == old(f).out() + render_directives(directives@, src@),
        state_kept(*old(f), *final(f)),
{
    let mut k: usize = 0;
    proof {
        assert(render_directives(directives@.subrange(0, 0), src@) =~= Seq::<u8>::empty());
        assert(f.out() =~= old(f).out() + render_directives(directives@.subrange(0, 0), src@));
    }
    while k < directives.len()
        invariant
            k <= directives@.len(),
            directives_wf(directives@, src@.len()),
            f.out() == old(f).out() + render_directives(directives@.subrange(0, k as int), src@),
            state_kept(*old(f), *f),
        decreases directives@.len() - k,
    {
        proof {
            assert(directives@[k as int].wf(src@.len()));
        }
        f.write_byte(32);
        directives[k].display(src, f);
        proof {
            let pre = directives@.subrange(0, k as int);
            let cur = directives@.subrange(0, k as int + 1);
            assert(cur.subrange(0, cur.len() - 1) =~= pre);
            assert(cur[cur.len() - 1] == directives@[k as int]);
            assert(f.out() =~= old(f).out() + render_directives(cur, src@));
        }
        k = k + 1;
    }
    proof {
        assert(directives@.subrange(0, directives@.len() as int) =~= directives@);
    }
}

impl Directive {
    pub fn display(&self, src: &[u8], f: &mut Formatter)
        requires
            self.wf(src@.len()),
        ensures
            final(f).out() == old(f).out() + render_directive(*self, src@),
            state_kept(*old(f), *final(f)),
    {
        f.write_byte(64);
        f.write(self.name.text(src));
        format_arguments(&self.arguments, src, f);
        proof {
            assert(f.out() =~= old(f).out() + render_directive(*self, src@));
        }
    }
}

impl Type {
    pub fn display(&self, src: &[u8], f: &mut Formatter)
        requires
            self.wf(src@.len()),
        ensures
            final(f).out() == old(f).out() + render_type(*self, src@),
            state_kept(*old(f), *final(f)),
        decreases self,
    {
        match self {
            Type::NamedType(name) => {
                f.write(name.text(src));
            },
            Type::ListType(inner) => {
                f.write_byte(91);
                inner.display(src, f);
                f.write_byte(93);
                proof {
                    assert(f.out() =~= old(f).out() + render_type(*self, src@));
                }
            },
            Type::NonNullType(inner) => {
                inner.display(src, f);
                f.write_byte(33);
                proof {
                    assert(f.out() =~= old(f).out() + render_type(*self, src@));
                }
            },
        }
    }
}

impl Value {
    pub fn display(&self, src: &[u8], f: &mut Formatter)
        requires
            self.wf(src@.len()),
        ensures
            final(f).out() == old(f).out() + render_value(*self, src@),
            state_kept(*old(f), *final(f)),
        decreases self,
    {
        match self {
            Value::Variable(name) => {
                f.write_byte(36);
                f.write(name.text(src));
                proof {
                    assert(f.out() =~= old(f).out() + render_value(*self, src@));
                }
            },
            Value::Int(num) => {
                f.write_int(num.as_i64());
            },
            Value::Float(text) => {
                f.write(text.text(src));
            },
            Value::String(val) => {
                f.write_quoted(val.as_slice());
            },
            Value::Boolean(b) => {
                if *b {
                    f.write_str("true");
                } else {
                    f.write_str("false");
                }
            },
            Value::Null => {
                f.write_str("null");
            },
            Value::Enum(name) => {
                f.write(name.text(src));
            },
            Value::List(items) => {
                f.write_byte(91);
                format_values(items, src, f);
                f.write_byte(93);
                proof {
                    assert(f.out() =~= old(f).out() + render_value(*self, src@));
                }
            },
            Value::Object(fields) => {
                f.write_byte(123);
                format_name_value_list(fields, src, f);
                f.write_byte(125);
                proof {
                    assert(f.out() =~= old(f).out() + render_value(*self, src@));
                }
            },
        }
    }
}

/// Writes the comma-separated values of a list literal.
fn format_values(items: &Vec<Value>, src: &[u8], f: &mut Formatter)
    requires
        values_wf(items@, src@.len()),
    ensures
        final(f).out() == old(f).out() + render_values(items@, src@),
        state_kept(*old(f), *final(f)),
    decreases items@,
{
    let mut k: usize = 0;
    proof {
        assert(render_values(items@.subrange(0, 0), src@) =~= Seq::<u8>::empty());
        assert(f.out() =~= old(f).out() + render_values(items@.subrange(0, 0), src@));
    }
    while k < items.len()
        invariant
            k <= items@.len(),
            values_wf(items@, src@.len()),
            f.out() == old(f).out() + render_values(items@.subrange(0, k as int), src@),
            state_kept(*old(f), *f),
        decreases items@.len() - k,
    {
        if k > 0 {
            f.write_str(", ");
        }
        proof {
            assert(items@[k as int].wf(src@.len()));
        }
        items[k].display(src, f);
        proof {
            let pre = items@.subrange(0, k as int);
            let cur = items@.subrange(0, k as int + 1);
            assert(cur.subrange(0, cur.len() - 1) =~= pre);
            assert(cur[cur.len() - 1] == items@[k as int]);
            assert(f.out() =~= old(f).out() + render_values(cur, src@));
        }
        k = k + 1;
    }
    proof {
        assert(items@.subrange(0, items@.len() as int) =~= items@);
    }
}

/// Writes the comma-separated `name: value` pairs of an object literal or an
/// argument list.
#[verifier::rlimit(100)]
fn format_name_value_list(fields: &Vec<(Span, Value)>, src: &[u8], f: &mut Formatter)
    requires
        arguments_wf(fields@, src@.len()),
    ensures
        final(f).out() == old(f).out() + render_name_value_list(fields@, src@),
        state_kept(*old(f), *final(f)),
    decreases fields@,
{
    let mut k: usize = 0;
    proof {
        assert(render_name_value_list(fields@.subrange(0, 0), src@) =~= Seq::<u8>::empty());
        assert(f.out() =~= old(f).out() + render_name_value_list(fields@.subrange(0, 0), src@));
    }
    while k < fields.len()
        invariant
            k <= fields@.len(),
            arguments_wf(fields@, src@.len()),
            f.out() == old(f).out() + render_name_value_list(fields@.subrange(0, k as int), src@),
            state_kept(*old(f), *f),
        decreases fields@.len() - k,
    {
        if k > 0 {
            f.write_str(", ");
        }
        proof {
            assert(arguments_wf(fields@, src@.len()));
            assert(0 <= k < fields@.len());
            assert(fields@[k as int].0.wf(src@.len()));
            assert(fields@[k as int].1.wf(src@.len()));
        }
        f.write(fields[k].0.text(src));
        f.write_str(": ");
        fields[k].1.display(src, f);
        proof {
            let pre = fields@.subrange(0, k as int);
            let cur = fields@.subrange(0, k as int + 1);
            assert(cur.subrange(0, cur.len() - 1) =~= pre);
            assert(cur[cur.len() - 1] == fields@[k as int]);
            assert(f.out() =~= old(f).out() + render_name_value_list(cur, src@));
        }
        k = k + 1;
    }
    proof {
        assert(fields@.subrange(0, fields@.len() as int) =~= fields@);
    }
}

/// Writes the selections of a braced block, one per line.
fn format_selections(items: &Vec<Selection>, src: &[u8], f: &mut Formatter)
    requires
        selections_wf(items@, src@.len()),
    ensures
        final(f).out() == old(f).out() + render_selections(
            items@,
            src@,
            old(f).spec_indent(),
            old(f).spec_style(),
        ),
        state_kept(*old(f), *final(f)),
    decreases items@,
{
    let mut k: usize = 0;
    proof {
        assert(render_selections(
            items@.subrange(0, 0),
            src@,
            old(f).spec_indent(),
            old(f).spec_style(),
        ) =~= Seq::<u8>::empty());
        assert(f.out() =~= old(f).out() + render_selections(
            items@.subrange(0, 0),
            src@,
            old(f).spec_indent(),
            old(f).spec_style(),
        ));
    }
    while k < items.len()
        invariant
            k <= items@.len(),
            selections_wf(items@, src@.len()),
            f.out() == old(f).out() + render_selections(
                items@.subrange(0, k as int),
                src@,
                old(f).spec_indent(),
                old(f).spec_style(),
            ),
            state_kept(*old(f), *f),
        decreases items@.len() - k,
    {
        proof {
            assert(items@[k as int].wf(src@.len()));
        }
        items[k].display(src, f);
        proof {
            let pre = items@.subrange(0, k as int);
            let cur = items@.subrange(0, k as int + 1);
            assert(cur.subrange(0, cur.len() - 1) =~= pre);
            assert(cur[cur.len() - 1] == items@[k as int]);
            assert(f.out() =~= old(f).out() + render_selections(
                cur,
                src@,
                old(f).spec_indent(),
                old(f).spec_style(),
            ));
        }
        k = k + 1;
    }
    proof {
        assert(items@.subrange(0, items@.len() as int) =~= items@);
    }
}

impl Selection {
    pub fn display(&self, src: &[u8], f: &mut Formatter)
        requires
            self.wf(src@.len()),
        ensures
            final(f).out() == old(f).out() + render_selection(
                *self,
                src@,
                old(f).spec_indent(),
                old(f).spec_style(),
            ),
            state_kept(*old(f), *final(f)),
        decreases self,
    {
        match self {
            Selection::Field(fld) => {
                fld.display(src, f);
            },
            Selection::FragmentSpread(spread) => {
                spread.display(src, f);
            },
            Selection::InlineFragment(frag) => {
                frag.display(src, f);
            },
        }
    }
}

impl Field {
    #[verifier::rlimit(100)]
    pub fn display(&self, src: &[u8], f: &mut Formatter)
        requires
            self.wf(src@.len()),
        ensures
            final(f).out() == old(f).out() + render_field(
                *self,
                src@,
                old(f).spec_indent(),
                old(f).spec_style(),
            ),
            state_kept(*old(f), *final(f)),
        decreases self,
    {
        f.indent();
        match &self.alias {
            Some(alias) => {
                f.write(alias.text(src));
                f.write_str(": ");
            },
            None => {},
        }
        f.write(self.name.text(src));
        format_arguments(&self.arguments, src, f);
        format_directives(&self.directives, src, f);
        if self.selection_set.items.len() > 0 {
            f.write_byte(32);
            f.start_block();
            format_selections(&self.selection_set.items, src, f);
            f.end_block();
            proof {
                assert(f.out() =~= old(f).out() + render_field(
                    *self,
                    src@,
                    old(f).spec_indent(),
                    old(f).spec_style(),
                ));
                assert(f.spec_levels() =~= old(f).spec_levels());
            }
        } else {
            f.endline();
            proof {
                assert(f.out() =~= old(f).out() + render_field(
                    *self,
                    src@,
                    old(f).spec_indent(),
                    old(f).spec_style(),
                ));
            }
        }
    }
}

impl FragmentSpread {
    pub fn display(&self, src: &[u8], f: &mut Formatter)
        requires
            self.wf(src@.len()),
        ensures
            final(f).out() == old(f).out() + render_selection(
                Selection::FragmentSpread(*self),
                src@,
                old(f).spec_indent(),
                old(f).spec_style(),
            ),
            state_kept(*old(f), *final(f)),
    {
        f.indent();
        f.write_str("...");
        f.write(self.fragment_name.text(src));
        format_directives(&self.directives, src, f);
        f.endline();
        proof {
            assert(f.out() =~= old(f).out() + render_selection(
                Selection::FragmentSpread(*self),
                src@,
                old(f).spec_indent(),
                old(f).spec_style(),
            ));
        }
    }
}

impl TypeCondition {
    pub fn display(&self, src: &[u8], f: &mut Formatter)
        requires
            self.wf(src@.len()),
        ensures
            final(f).out() == old(f).out() + render_type_condition(*self, src@),
            state_kept(*old(f), *final(f)),
    {
        match self {
            TypeCondition::On(name) => {
                f.write_str("on ");
                f.write(name.text(src));
                proof {
                    assert(f.out() =~= old(f).out() + render_type_condition(*self, src@));
                }
            },
        }
    }
}

impl InlineFragment {
    #[verifier::rlimit(100)]
    pub fn display(&self, src: &[u8], f: &mut Formatter)
        requires
            self.wf(src@.len()),
        ensures
            final(f).out() == old(f).out() + render_selection(
                Selection::InlineFragment(*self),
                src@,
                old(f).spec_indent(),
                old(f).spec_style(),
            ),
            state_kept(*old(f), *final(f)),
        decreases self,
    {
        f.indent();
        f.write_str("...");
        match &self.type_condition {
            Some(cond) => {
                f.write_byte(32);
                cond.display(src, f);
            },
            None => {},
        }
        format_directives(&self.directives, src, f);
        f.write_byte(32);
        f.start_block();
        format_selections(&self.selection_set.items, src, f);
        f.end_block();
        proof {
            assert(f.out() =~= old(f).out() + render_selection(
                Selection::InlineFragment(*self),
                src@,
                old(f).spec_indent(),
                old(f).spec_style(),
            ));
            assert(f.spec_levels() =~= old(f).spec_levels());
        }
    }
}

impl VariableDefinition {
    pub fn display(&self, src: &[u8], f: &mut Formatter)
        requires
            self.wf(src@.len()),
        ensures
            final(f).out() == old(f).out() + render_variable_definition(*self, src@),
            state_kept(*old(f), *final(f)),
    {
        f.write_byte(36);
        f.write(self.name.text(src));
        f.write_str(": ");
        self.var_type.display(src, f);
        match &self.default_value {
            Some(default) => {
                f.write_str(" = ");
                default.display(src, f);
            },
            None => {},
        }
        proof {
            assert(f.out() =~= old(f).out() + render_variable_definition(*self, src@));
        }
    }
}

/// Writes an optional parenthesized variable definition list.
fn format_variable_definitions(vars: &Vec<VariableDefinition>, src: &[u8], f: &mut Formatter)
    requires
        forall|m: int| 0 <= m < vars@.len() ==> (#[trigger] vars@[m]).wf(src@.len()),
    ensures
        final(f).out() == old(f).out() + render_variable_definitions(vars@, src@),
        state_kept(*old(f), *final(f)),
{
    if vars.len() == 0 {
        proof {
            assert(old(f).out() + render_variable_definitions(vars@, src@) =~= f.out());
        }
        return ;
    }
    f.write_byte(40);
    let mut k: usize = 0;
    while k < vars.len()
        invariant
            0 < vars@.len(),
            k <= vars@.len(),
            forall|m: int| 0 <= m < vars@.len() ==> (#[trigger] vars@[m]).wf(src@.len()),
            f.out() == old(f).out().push(40u8) + render_variable_definition_list(
                vars@.subrange(0, k as int),
                src@,
            ),
            state_kept(*old(f), *f),
        decreases vars@.len() - k,
    {
        proof {
            assert(render_variable_definition_list(vars@.subrange(0, 0), src@) =~= Seq::<
                u8,
            >::empty());
        }
        if k > 0 {
            f.write_str(", ");
        }
        vars[k].display(src, f);
        proof {
            let pre = vars@.subrange(0, k as int);
            let cur = vars@.subrange(0, k as int + 1);
            assert(cur.subrange(0, cur.len() - 1) =~= pre);
            assert(cur[cur.len() - 1] == vars@[k as int]);
            assert(f.out() =~= old(f).out().push(40u8) + render_variable_definition_list(
                cur,
                src@,
            ));
        }
        k = k + 1;
    }
    proof {
        assert(vars@.subrange(0, vars@.len() as int) =~= vars@);
    }
    f.write_byte(41);
    proof {
        assert(f.out() =~= old(f).out() + render_variable_definitions(vars@, src@));
    }
}

impl SelectionSet {
    #[verifier::rlimit(100)]
    pub fn display(&self, src: &[u8], f: &mut Formatter)
        requires
            self.wf(src@.len()),
        ensures
            final(f).out() == with_margin(
                old(f).out(),
                render_operation(
                    OperationDefinition::SelectionSet(*self),
                    src@,
                    old(f).spec_indent(),
                    old(f).spec_style(),
                ),
            ),
            state_kept(*old(f), *final(f)),
        decreases self,
    {
        f.margin();
        f.indent();
        f.start_block();
        format_selections(&self.items, src, f);
        f.end_block();
        proof {
            assert(f.out() =~= with_margin(
                old(f).out(),
                render_operation(
                    OperationDefinition::SelectionSet(*self),
                    src@,
                    old(f).spec_indent(),
                    old(f).spec_style(),
                ),
            ));
            assert(f.spec_levels() =~= old(f).spec_levels());
        }
    }
}

impl Query {
    #[verifier::rlimit(100)]
    pub fn display(&self, src: &[u8], f: &mut Formatter)
        requires
            self.wf(src@.len()),
        ensures
            final(f).out() == with_margin(
                old(f).out(),
                render_operation(
                    OperationDefinition::Query(*self),
                    src@,
                    old(f).spec_indent(),
                    old(f).spec_style(),
                ),
            ),
            state_kept(*old(f), *final(f)),
    {
        f.margin();
        f.indent();
        f.write_str("query");
        match &self.name {
            Some(name) => {
                f.write_byte(32);
                f.write(name.text(src));
            },
            None => {},
        }
        format_variable_definitions(&self.variable_definitions, src, f);
        format_directives(&self.directives, src, f);
        let ghost head = f.out();
        f.write_byte(32);
        f.start_block();
        format_selections(&self.selection_set.items, src, f);
        f.end_block();
        proof {
            let ind = old(f).spec_indent();
            let sty = old(f).spec_style();
            let m = (if old(f).out().len() == 0 {
                old(f).out()
            } else {
                old(f).out().push(10u8)
            });
            match self.name {
                Some(n) => {
                    assert(head =~= m + spaces(ind) + "query".spec_bytes() + seq![32u8] + n.bytes(
                        src@,
                    ) + render_variable_definitions(self.variable_definitions@, src@)
                        + render_directives(self.directives@, src@));
                },
                None => {
                    assert(head =~= m + spaces(ind) + "query".spec_bytes()
                        + render_variable_definitions(self.variable_definitions@, src@)
                        + render_directives(self.directives@, src@));
                },
            }
            assert(f.out() =~= head + seq![32u8] + render_block(
                self.selection_set.items@,
                src@,
                ind,
                sty,
            ));
            assert(f.out() =~= with_margin(
                old(f).out(),
                render_operation(OperationDefinition::Query(*self), src@, ind, sty),
            ));
            assert(f.spec_levels() =~= old(f).spec_levels());
        }
    }
}

impl Mutation {
    #[verifier::rlimit(100)]
    pub fn display(&self, src: &[u8], f: &mut Formatter)
        requires
            self.wf(src@.len()),
        ensures
            final(f).out() == with_margin(
                old(f).out(),
                render_operation(
                    OperationDefinition::Mutation(*self),
                    src@,
                    old(f).spec_indent(),
                    old(f).spec_style(),
                ),
            ),
            state_kept(*old(f), *final(f)),
    {
        f.margin();
        f.indent();
        f.write_str("mutation");
        match &self.name {
            Some(name) => {
                f.write_byte(32);
                f.write(name.text(src));
            },
            None => {},
        }
        format_variable_definitions(&self.variable_definitions, src, f);
        format_directives(&self.directives, src, f);
        let ghost head = f.out();
        f.write_byte(32);
        f.start_block();
        format_selections(&self.selection_set.items, src, f);
        f.end_block();
        proof {
            let ind = old(f).spec_indent();
            let sty = old(f).spec_style();
            let m = (if old(f).out().len() == 0 {
                old(f).out()
            } else {
                old(f).out().push(10u8)
            });
            match self.name {
                Some(n) => {
                    assert(head =~= m + spaces(ind) + "mutation".spec_bytes() + seq![32u8] + n.bytes(
                        src@,
                    ) + render_variable_definitions(self.variable_definitions@, src@)
                        + render_directives(self.directives@, src@));
                },
                None => {
                    assert(head =~= m + spaces(ind) + "mutation".spec_bytes()
                        + render_variable_definitions(self.variable_definitions@, src@)
                        + render_directives(self.directives@, src@));
                },
            }
            assert(f.out() =~= head + seq![32u8] + render_block(
                self.selection_set.items@,
                src@,
                ind,
                sty,
            ));
            assert(f.out() =~= with_margin(
                old(f).out(),
                render_operation(OperationDefinition::Mutation(*self), src@, ind, sty),
            ));
            assert(f.spec_levels() =~= old(f).spec_levels());
        }
    }
}

impl Subscription {
    #[verifier::rlimit(100)]
    pub fn display(&self, src: &[u8], f: &mut Formatter)
        requires
            self.wf(src@.len()),
        ensures
            final(f).out() == with_margin(
                old(f).out(),
                render_operation(
                    OperationDefinition::Subscription(*self),
                    src@,
                    old(f).spec_indent(),
                    old(f).spec_style(),
                ),
            ),
            state_kept(*old(f), *final(f)),
    {
        f.margin();
        f.indent();
        f.write_str("subscription");
        match &self.name {
            Some(name) => {
                f.write_byte(32);
                f.write(name.text(src));
            },
            None => {},
        }
        format_variable_definitions(&self.variable_definitions, src, f);
        format_directives(&self.directives, src, f);
        let ghost head = f.out();
        f.write_byte(32);
        f.start_block();
        format_selections(&self.selection_set.items, src, f);
        f.end_block();
        proof {
            let ind = old(f).spec_indent();
            let sty = old(f).spec_style();
            let m = (if old(f).out().len() == 0 {
                old(f).out()
            } else {
                old(f).out().push(10u8)
            });
            match self.name {
                Some(n) => {
                    assert(head =~= m + spaces(ind) + "subscription".spec_bytes() + seq![32u8] + n.bytes(
                        src@,
                    ) + render_variable_definitions(self.variable_definitions@, src@)
                        + render_directives(self.directives@, src@));
                },
                None => {
                    assert(head =~= m + spaces(ind) + "subscription".spec_bytes()
                        + render_variable_definitions(self.variable_definitions@, src@)
                        + render_directives(self.directives@, src@));
                },
            }
            assert(f.out() =~= head + seq![32u8] + render_block(
                self.selection_set.items@,
                src@,
                ind,
                sty,
            ));
            assert(f.out() =~= with_margin(
                old(f).out(),
                render_operation(OperationDefinition::Subscription(*self), src@, ind, sty),
            ));
            assert(f.spec_levels() =~= old(f).spec_levels());
        }
    }
}

impl FragmentDefinition {
    #[verifier::rlimit(100)]
    pub fn display(&self, src: &[u8], f: &mut Formatter)
        requires
            self.wf(src@.len()),
        ensures
            final(f).out() == with_margin(
                old(f).out(),
                render_fragment_definition(*self, src@, old(f).spec_indent(), old(f).spec_style()),
            ),
            state_kept(*old(f), *final(f)),
    {
        f.margin();
        f.indent();
        f.write_str("fragment ");
        f.write(self.name.text(src));
        f.write_byte(32);
        self.type_condition.display(src, f);
        format_directives(&self.directives, src, f);
        let ghost head = f.out();
        f.write_byte(32);
        f.start_block();
        format_selections(&self.selection_set.items, src, f);
        f.end_block();
        proof {
            let ind = old(f).spec_indent();
            let sty = old(f).spec_style();
            let m = (if old(f).out().len() == 0 {
                old(f).out()
            } else {
                old(f).out().push(10u8)
            });
            assert(head =~= m + spaces(ind) + "fragment ".spec_bytes() + self.name.bytes(src@)
                + seq![32u8] + render_type_condition(self.type_condition, src@)
                + render_directives(self.directives@, src@));
            assert(f.out() =~= head + seq![32u8] + render_block(
                self.selection_set.items@,
                src@,
                ind,
                sty,
            ));
            assert(f.out() =~= with_margin(
                old(f).out(),
                render_fragment_definition(*self, src@, ind, sty),
            ));
            assert(f.spec_levels() =~= old(f).spec_levels());
        }
    }
}

impl OperationDefinition {
    pub fn display(&self, src: &[u8], f: &mut Formatter)
        requires
            self.wf(src@.len()),
        ensures
            final(f).out() == with_margin(
                old(f).out(),
                render_operation(*self, src@, old(f).spec_indent(), old(f).spec_style()),
            ),
            state_kept(*old(f), *final(f)),
    {
        match self {
            OperationDefinition::SelectionSet(set) => set.display(src, f),
            OperationDefinition::Query(q) => q.display(src, f),
            OperationDefinition::Mutation(m) => m.display(src, f),
            OperationDefinition::Subscription(s) => s.display(src, f),
        }
    }
}

impl Definition {
    pub fn display(&self, src: &[u8], f: &mut Formatter)
        requires
            self.wf(src@.len()),
        ensures
            final(f).out() == with_margin(
                old(f).out(),
                render_definition(*self, src@, old(f).spec_indent(), old(f).spec_style()),
            ),
            state_kept(*old(f), *final(f)),
    {
        match self {
            Definition::Operation(op) => op.display(src, f),
            Definition::Fragment(frag) => frag.display(src, f),
        }
    }
}

impl Document {
    pub fn display(&self, src: &[u8], f: &mut Formatter)
        requires
            self.wf(src@.len()),
        ensures
            final(f).out() == render_definitions_onto(
                old(f).out(),
                self.definitions@,
                src@,
                old(f).spec_indent(),
                old(f).spec_style(),
            ),
            state_kept(*old(f), *final(f)),
    {
        proof {
            assert(self.definitions@.subrange(0, self.definitions@.len() as int)
                =~= self.definitions@);
        }
        let mut k: usize = 0;
        while k < self.definitions.len()
            invariant
                k <= self.definitions@.len(),
                self.wf(src@.len()),
                render_definitions_onto(
                    f.out(),
                    self.definitions@.subrange(k as int, self.definitions@.len() as int),
                    src@,
                    old(f).spec_indent(),
                    old(f).spec_style(),
                ) == render_definitions_onto(
                    old(f).out(),
                    self.definitions@,
                    src@,
                    old(f).spec_indent(),
                    old(f).spec_style(),
                ),
                state_kept(*old(f), *f),
            decreases self.definitions@.len() - k,
        {
            proof {
                assert(self.definitions@[k as int].wf(src@.len()));
            }
            let ghost pre_out = f.out();
            self.definitions[k].display(src, f);
            proof {
                let rest = self.definitions@.subrange(k as int, self.definitions@.len() as int);
                let rest2 = self.definitions@.subrange(
                    k as int + 1,
                    self.definitions@.len() as int,
                );
                assert(rest[0] == self.definitions@[k as int]);
                assert(rest.subrange(1, rest.len() as int) =~= rest2);
            }
            k = k + 1;
        }
        proof {
            assert(self.definitions@.subrange(
                self.definitions@.len() as int,
                self.definitions@.len() as int,
            ) =~= Seq::<Definition>::empty());
        }
    }

    /// Renders the document according to `style`, next to the buffer it was
    /// parsed from: exactly the canonical text [`render_document`] fixes.
    pub fn format(&self, src: &[u8], style: &Style) -> (out: Vec<u8>)
        requires
            self.wf(src@.len()),
        ensures
            out@ == render_document(*self, src@, *style),
    {
        let mut formatter = Formatter::new(style);
        self.display(src, &mut formatter);
        formatter.into_vec()
    }
}

/// Renders a document in the default style: agrees with [`Document::format`]
/// under `Style::default()`.
pub fn to_string(doc: &Document, src: &[u8]) -> (out: Vec<u8>)
    requires
        doc.wf(src@.len()),
    ensures
        out@ == render_document(*doc, src@, (Style { indent: 2 })),
{
    let style = Style::default();
    doc.format(src, &style)
}

} // verus!
