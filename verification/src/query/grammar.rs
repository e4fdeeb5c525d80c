//! Recursive-descent grammar for the query language.
//!
//! Each rule consumes tokens from a [`TokenStream`] by index and hands back
//! the node it built together with the index just past it; disambiguation is
//! by lookahead on the first token.  Parsing stops at the first unmatched
//! primitive: the accumulated expectations and the offending token's position
//! become the error, and no partial tree is returned.

use vstd::prelude::*;

use crate::common::{
    directives_wf, parse_arguments, parse_directives, parse_type, parse_value, Directive, Span,
    Value,
};
use crate::error::{Expectation, ParseError};
use crate::helpers::{ident, kind, name, punct};
use crate::position::Pos;
use crate::query::ast::{
    Definition, Document, Field, FragmentDefinition, FragmentSpread, InlineFragment, Mutation,
    OperationDefinition, Query, Selection, SelectionSet, Subscription, TypeCondition,
    VariableDefinition,
};
use crate::tokenizer::{lemma_next_in_bounds, token_wf, tokenize, Kind, TokenStream};

verus! {

/// The pieces an operation shares whatever its keyword: optional name,
/// optional variable definitions, directives, and the selection set.
struct OperationParts {
    name: Option<Span>,
    variable_definitions: Vec<VariableDefinition>,
    directives: Vec<Directive>,
    selection_set: SelectionSet,
}

/// Parses a query-language document: a UTF-8 buffer holding one or more
/// definitions.  On success every string-valued field of the tree is a view
/// into `src`; on failure the error carries the position of the first point
/// of divergence.  Nested selections, values and types recurse on the call
/// stack: the grammar imposes no explicit depth limit, so a caller wanting
/// one must bound it outside.
pub fn parse_query(src: &[u8]) -> (r: Result<Document, ParseError>)
    requires
        src@.len() < usize::MAX,
    ensures
        match r {
            Ok(doc) => doc.wf(src@.len()) && doc.definitions@.len() >= 1,
            Err(_) => true,
        },
{
    let ts = tokenize(src)?;
    parse_document(src, &ts)
}

fn definition_expectations(position: Pos) -> (e: ParseError)
    ensures
        !e.is_lexical_spec(),
        e.position_spec() == position,
{
    let mut expected: Vec<Expectation> = Vec::new();
    expected.push(Expectation::Text(vec![102u8, 114, 97, 103, 109, 101, 110, 116]));
    expected.push(Expectation::Text(vec![113u8, 117, 101, 114, 121]));
    expected.push(Expectation::Text(vec![109u8, 117, 116, 97, 116, 105, 111, 110]));
    expected.push(
        Expectation::Text(vec![115u8, 117, 98, 115, 99, 114, 105, 112, 116, 105, 111, 110]),
    );
    expected.push(Expectation::Text(vec![123u8]));
    ParseError::syntax(expected, position)
}

fn parse_document(src: &[u8], ts: &TokenStream) -> (r: Result<Document, ParseError>)
    requires
        ts.wf(src@),
    ensures
        match r {
            Ok(doc) => doc.wf(src@.len()) && doc.definitions@.len() >= 1,
            Err(_) => true,
        },
{
    let n: usize = ts.len();
    let mut definitions: Vec<Definition> = Vec::new();
    let mut i: usize = 0;
    while !kind(Kind::EndOfFile).peek(ts, i)
        invariant
            ts.wf(src@),
            n == ts.tokens@.len(),
            i < n,
            forall|m: int|
                0 <= m < definitions@.len() ==> (#[trigger] definitions@[m]).wf(src@.len()),
        decreases n - i,
    {
        let (d, j) = parse_definition(src, ts, i)?;
        definitions.push(d);
        i = j;
    }
    if definitions.len() == 0 {
        return Err(definition_expectations(ts.get(i).position));
    }
    Ok(Document { definitions })
}

fn parse_definition(src: &[u8], ts: &TokenStream, i: usize) -> (r: Result<
    (Definition, usize),
    ParseError,
>)
    requires
        ts.wf(src@),
        i < ts.tokens@.len(),
    ensures
        match r {
            Ok((d, j)) => d.wf(src@.len()) && i < j < ts.tokens@.len(),
            Err(_) => true,
        },
{
    let _n: usize = ts.len();
    let t0 = ts.get(i);
    if ident("fragment").peek(src, ts, i) {
        let (f, j) = parse_fragment_definition(src, ts, i)?;
        Ok((Definition::Fragment(f), j))
    } else if ident("query").peek(src, ts, i) {
        proof {
            lemma_next_in_bounds(ts.tokens@, src@, i as int);
        }
        let (p, j) = parse_operation_parts(src, ts, i + 1)?;
        Ok(
            (
                Definition::Operation(
                    OperationDefinition::Query(
                        Query {
                            position: t0.position,
                            name: p.name,
                            variable_definitions: p.variable_definitions,
                            directives: p.directives,
                            selection_set: p.selection_set,
                        },
                    ),
                ),
                j,
            ),
        )
    } else if ident("mutation").peek(src, ts, i) {
        proof {
            lemma_next_in_bounds(ts.tokens@, src@, i as int);
        }
        let (p, j) = parse_operation_parts(src, ts, i + 1)?;
        Ok(
            (
                Definition::Operation(
                    OperationDefinition::Mutation(
                        Mutation {
                            position: t0.position,
                            name: p.name,
                            variable_definitions: p.variable_definitions,
                            directives: p.directives,
                            selection_set: p.selection_set,
                        },
                    ),
                ),
                j,
            ),
        )
    } else if ident("subscription").peek(src, ts, i) {
        proof {
            lemma_next_in_bounds(ts.tokens@, src@, i as int);
        }
        let (p, j) = parse_operation_parts(src, ts, i + 1)?;
        Ok(
            (
                Definition::Operation(
                    OperationDefinition::Subscription(
                        Subscription {
                            position: t0.position,
                            name: p.name,
                            variable_definitions: p.variable_definitions,
                            directives: p.directives,
                            selection_set: p.selection_set,
                        },
                    ),
                ),
                j,
            ),
        )
    } else if punct("{").peek(src, ts, i) {
        let (s, j) = parse_selection_set(src, ts, i)?;
        Ok((Definition::Operation(OperationDefinition::SelectionSet(s)), j))
    } else {
        Err(definition_expectations(t0.position))
    }
}

fn parse_operation_parts(src: &[u8], ts: &TokenStream, i: usize) -> (r: Result<
    (OperationParts, usize),
    ParseError,
>)
    requires
        ts.wf(src@),
        i < ts.tokens@.len(),
    ensures
        match r {
            Ok((p, j)) => {
                &&& match p.name {
                    Some(nm) => nm.wf(src@.len()),
                    None => true,
                }
                &&& forall|m: int|
                    0 <= m < p.variable_definitions@.len() ==> (
                    #[trigger] p.variable_definitions@[m]).wf(src@.len())
                &&& directives_wf(p.directives@, src@.len())
                &&& p.selection_set.wf(src@.len())
                &&& i < j < ts.tokens@.len()
            },
            Err(_) => true,
        },
{
    let _n: usize = ts.len();
    let mut j: usize = i;
    let mut op_name: Option<Span> = None;
    if kind(Kind::Name).peek(ts, i) {
        let (s, j1) = name().parse(ts, i)?;
        proof {
            lemma_next_in_bounds(ts.tokens@, src@, i as int);
            assert(token_wf(ts.tokens@[i as int], src@));
        }
        op_name = Some(s);
        j = j1;
    }
    let (vars, j2) = parse_variable_definitions(src, ts, j)?;
    let (dirs, j3) = parse_directives(src, ts, j2)?;
    let (sset, j4) = parse_selection_set(src, ts, j3)?;
    Ok(
        (
            OperationParts {
                name: op_name,
                variable_definitions: vars,
                directives: dirs,
                selection_set: sset,
            },
            j4,
        ),
    )
}

fn parse_variable_definitions(src: &[u8], ts: &TokenStream, i: usize) -> (r: Result<
    (Vec<VariableDefinition>, usize),
    ParseError,
>)
    requires
        ts.wf(src@),
        i < ts.tokens@.len(),
    ensures
        match r {
            Ok((vars, j)) => (forall|m: int|
                0 <= m < vars@.len() ==> (#[trigger] vars@[m]).wf(src@.len())) && i <= j
                < ts.tokens@.len(),
            Err(_) => true,
        },
{
    let n: usize = ts.len();
    if !punct("(").peek(src, ts, i) {
        return Ok((Vec::new(), i));
    }
    proof {
        lemma_next_in_bounds(ts.tokens@, src@, i as int);
    }
    let mut vars: Vec<VariableDefinition> = Vec::new();
    let mut j: usize = i + 1;
    loop
        invariant
            ts.wf(src@),
            n == ts.tokens@.len(),
            i < j < n,
            forall|m: int| 0 <= m < vars@.len() ==> (#[trigger] vars@[m]).wf(src@.len()),
        decreases n - j,
    {
        if punct(")").peek(src, ts, j) {
            proof {
                lemma_next_in_bounds(ts.tokens@, src@, j as int);
            }
            return Ok((vars, j + 1));
        }
        let (dollar, ja) = punct("$").parse(src, ts, j)?;
        proof {
            lemma_next_in_bounds(ts.tokens@, src@, j as int);
        }
        let (nm, jb) = name().parse(ts, ja)?;
        proof {
            lemma_next_in_bounds(ts.tokens@, src@, ja as int);
            assert(token_wf(ts.tokens@[ja as int], src@));
        }
        let (_colon, jc) = punct(":").parse(src, ts, jb)?;
        proof {
            lemma_next_in_bounds(ts.tokens@, src@, jb as int);
        }
        let (vt, jd) = parse_type(src, ts, jc)?;
        let mut default_value: Option<Value> = None;
        let mut je = jd;
        if punct("=").peek(src, ts, jd) {
            proof {
                lemma_next_in_bounds(ts.tokens@, src@, jd as int);
            }
            let (dv, jf) = parse_value(src, ts, jd + 1)?;
            default_value = Some(dv);
            je = jf;
        }
        vars.push(
            VariableDefinition { position: dollar.position, name: nm, var_type: vt, default_value },
        );
        j = je;
    }
}

fn parse_selection_set(src: &[u8], ts: &TokenStream, i: usize) -> (r: Result<
    (SelectionSet, usize),
    ParseError,
>)
    requires
        ts.wf(src@),
        i < ts.tokens@.len(),
    ensures
        match r {
            Ok((s, j)) => s.wf(src@.len()) && i < j < ts.tokens@.len(),
            Err(_) => true,
        },
    decreases ts.tokens@.len() - i, 2int,
{
    let n: usize = ts.len();
    let (open, j0) = punct("{").parse(src, ts, i)?;
    proof {
        lemma_next_in_bounds(ts.tokens@, src@, i as int);
    }
    let mut items: Vec<Selection> = Vec::new();
    let mut j: usize = j0;
    loop
        invariant
            ts.wf(src@),
            n == ts.tokens@.len(),
            i < j < n,
            forall|m: int| 0 <= m < items@.len() ==> (#[trigger] items@[m]).wf(src@.len()),
        decreases n - j,
    {
        if punct("}").peek(src, ts, j) {
            proof {
                lemma_next_in_bounds(ts.tokens@, src@, j as int);
            }
            let close = ts.get(j);
            return Ok((SelectionSet { span: (open.position, close.position), items }, j + 1));
        }
        let (sel, j2) = parse_selection(src, ts, j)?;
        items.push(sel);
        j = j2;
    }
}

fn parse_selection(src: &[u8], ts: &TokenStream, i: usize) -> (r: Result<
    (Selection, usize),
    ParseError,
>)
    requires
        ts.wf(src@),
        i < ts.tokens@.len(),
    ensures
        match r {
            Ok((s, j)) => s.wf(src@.len()) && i < j < ts.tokens@.len(),
            Err(_) => true,
        },
    decreases ts.tokens@.len() - i, 1int,
{
    let _n: usize = ts.len();
    if punct("...").peek(src, ts, i) {
        let t0 = ts.get(i);
        proof {
            lemma_next_in_bounds(ts.tokens@, src@, i as int);
        }
        let j0 = i + 1;
        if ident("on").peek(src, ts, j0) {
            proof {
                lemma_next_in_bounds(ts.tokens@, src@, j0 as int);
            }
            let (tn, j1) = name().parse(ts, j0 + 1)?;
            proof {
                lemma_next_in_bounds(ts.tokens@, src@, j0 as int + 1);
                assert(token_wf(ts.tokens@[j0 as int + 1], src@));
            }
            let (dirs, j2) = parse_directives(src, ts, j1)?;
            let (sset, j3) = parse_selection_set(src, ts, j2)?;
            Ok(
                (
                    Selection::InlineFragment(
                        InlineFragment {
                            position: t0.position,
                            type_condition: Some(TypeCondition::On(tn)),
                            directives: dirs,
                            selection_set: sset,
                        },
                    ),
                    j3,
                ),
            )
        } else if kind(Kind::Name).peek(ts, j0) {
            let (fname, j1) = name().parse(ts, j0)?;
            proof {
                lemma_next_in_bounds(ts.tokens@, src@, j0 as int);
                assert(token_wf(ts.tokens@[j0 as int], src@));
            }
            let (dirs, j2) = parse_directives(src, ts, j1)?;
            Ok(
                (
                    Selection::FragmentSpread(
                        FragmentSpread {
                            position: t0.position,
                            fragment_name: fname,
                            directives: dirs,
                        },
                    ),
                    j2,
                ),
            )
        } else {
            // an inline fragment may omit the type condition
            let (dirs, j1) = parse_directives(src, ts, j0)?;
            let (sset, j2) = parse_selection_set(src, ts, j1)?;
            Ok(
                (
                    Selection::InlineFragment(
                        InlineFragment {
                            position: t0.position,
                            type_condition: None,
                            directives: dirs,
                            selection_set: sset,
                        },
                    ),
                    j2,
                ),
            )
        }
    } else {
        let (f, j) = parse_field(src, ts, i)?;
        Ok((Selection::Field(f), j))
    }
}

#[verifier::rlimit(60)]
fn parse_field(src: &[u8], ts: &TokenStream, i: usize) -> (r: Result<(Field, usize), ParseError>)
    requires
        ts.wf(src@),
        i < ts.tokens@.len(),
    ensures
        match r {
            Ok((f, j)) => f.wf(src@.len()) && i < j < ts.tokens@.len(),
            Err(_) => true,
        },
    decreases ts.tokens@.len() - i, 0int,
{
    let _n: usize = ts.len();
    let t0 = ts.get(i);
    let (first_name, j1) = name().parse(ts, i)?;
    proof {
        lemma_next_in_bounds(ts.tokens@, src@, i as int);
        assert(token_wf(ts.tokens@[i as int], src@));
    }
    let mut alias: Option<Span> = None;
    let mut field_name = first_name;
    let mut j = j1;
    if punct(":").peek(src, ts, j1) {
        // the first name was the alias; a second name is required
        proof {
            lemma_next_in_bounds(ts.tokens@, src@, j1 as int);
        }
        let (second_name, j2) = name().parse(ts, j1 + 1)?;
        proof {
            lemma_next_in_bounds(ts.tokens@, src@, j1 as int + 1);
            assert(token_wf(ts.tokens@[j1 as int + 1], src@));
        }
        alias = Some(first_name);
        field_name = second_name;
        j = j2;
    }
    let (args, j3) = parse_arguments(src, ts, j)?;
    let (dirs, j4) = parse_directives(src, ts, j3)?;
    if punct("{").peek(src, ts, j4) {
        let (sset, j5) = parse_selection_set(src, ts, j4)?;
        Ok(
            (
                Field {
                    position: t0.position,
                    alias,
                    name: field_name,
                    arguments: args,
                    directives: dirs,
                    selection_set: sset,
                },
                j5,
            ),
        )
    } else {
        let sset = SelectionSet { span: (t0.position, t0.position), items: Vec::new() };
        Ok(
            (
                Field {
                    position: t0.position,
                    alias,
                    name: field_name,
                    arguments: args,
                    directives: dirs,
                    selection_set: sset,
                },
                j4,
            ),
        )
    }
}

fn parse_fragment_definition(src: &[u8], ts: &TokenStream, i: usize) -> (r: Result<
    (FragmentDefinition, usize),
    ParseError,
>)
    requires
        ts.wf(src@),
        i < ts.tokens@.len(),
    ensures
        match r {
            Ok((f, j)) => f.wf(src@.len()) && i < j < ts.tokens@.len(),
            Err(_) => true,
        },
{
    let _n: usize = ts.len();
    let t0 = ts.get(i);
    let (_kw, j0) = ident("fragment").parse(src, ts, i)?;
    proof {
        lemma_next_in_bounds(ts.tokens@, src@, i as int);
    }
    let (nm, j1) = name().parse(ts, j0)?;
    proof {
        lemma_next_in_bounds(ts.tokens@, src@, j0 as int);
        assert(token_wf(ts.tokens@[j0 as int], src@));
    }
    let (_on, j2) = ident("on").parse(src, ts, j1)?;
    proof {
        lemma_next_in_bounds(ts.tokens@, src@, j1 as int);
    }
    let (tn, j3) = name().parse(ts, j2)?;
    proof {
        lemma_next_in_bounds(ts.tokens@, src@, j2 as int);
        assert(token_wf(ts.tokens@[j2 as int], src@));
    }
    let (dirs, j4) = parse_directives(src, ts, j3)?;
    let (sset, j5) = parse_selection_set(src, ts, j4)?;
    Ok(
        (
            FragmentDefinition {
                position: t0.position,
                name: nm,
                type_condition: TypeCondition::On(tn),
                directives: dirs,
                selection_set: sset,
            },
            j5,
        ),
    )
}

} // verus!
