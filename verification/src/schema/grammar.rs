//! Recursive-descent grammar for the schema (type system) language.
//!
//! Definitions dispatch on their leading keyword, optionally preceded by a
//! description string and, for the extension variants, by `extend`.  A
//! directive definition resolves each location spelling through the
//! [`DirectiveLocation`] mapping; an unrecognized spelling is a syntax error
//! at the offending token.  A `schema` block accepts each operation-type
//! binding at most once: a second binding of the same operation type is a
//! syntax error, so duplicate bindings are surfaced, never silently merged.

use vstd::prelude::*;

use crate::common::{
    decode_block_string, decode_string_literal, directives_wf, parse_directives, parse_type,
    parse_value, Directive, Span, Value,
};
use crate::error::{Expectation, ParseError};
use crate::helpers::{ident, kind, name, punct};
use crate::position::Pos;
use crate::schema::ast::{
    enum_values_wf, fields_wf, input_values_wf, spans_wf, Definition, DirectiveDefinition,
    DirectiveLocation, Document, EnumType, EnumTypeExtension, EnumValue, Field, InputObjectType,
    InputObjectTypeExtension, InputValue, InterfaceType, InterfaceTypeExtension, ObjectType,
    ObjectTypeExtension, ScalarType, ScalarTypeExtension, SchemaDefinition, TypeDefinition,
    TypeExtension, UnionType, UnionTypeExtension,
};
use crate::tokenizer::{lemma_next_in_bounds, token_wf, tokenize, Kind, TokenStream};

verus! {

/// The pieces an object or interface shape shares: name, implemented
/// interfaces, directives, fields.
struct ObjectParts {
    name: Span,
    implements_interfaces: Vec<Span>,
    directives: Vec<Directive>,
    fields: Vec<Field>,
}

/// Parses a schema-language document: a UTF-8 buffer holding one or more
/// type-system definitions.  On success every string-valued field of the
/// tree is a view into `src` (decoded descriptions and string literals
/// excepted); on failure the error carries the position of the first point
/// of divergence.  Nested values and types recurse on the call stack: the
/// grammar imposes no explicit depth limit, so a caller wanting one must
/// bound it outside.
pub fn parse_schema(src: &[u8]) -> (r: Result<Document, ParseError>)
    requires
        src@.len() < usize::MAX,
    ensures
        match r {
            Ok(doc) => doc.wf(src@.len()) && doc.definitions@.len() >= 1,
            Err(_) => true,
        },
{
    let ts = tokenize(src)?;
    parse_schema_document(src, &ts)
}

fn schema_expectations(position: Pos) -> (e: ParseError)
    ensures
        !e.is_lexical_spec(),
        e.position_spec() == position,
{
    let mut expected: Vec<Expectation> = Vec::new();
    expected.push(Expectation::Text(vec![115u8, 99, 104, 101, 109, 97]));
    expected.push(Expectation::Text(vec![115u8, 99, 97, 108, 97, 114]));
    expected.push(Expectation::Text(vec![116u8, 121, 112, 101]));
    expected.push(Expectation::Text(vec![105u8, 110, 116, 101, 114, 102, 97, 99, 101]));
    expected.push(Expectation::Text(vec![117u8, 110, 105, 111, 110]));
    expected.push(Expectation::Text(vec![101u8, 110, 117, 109]));
    expected.push(Expectation::Text(vec![105u8, 110, 112, 117, 116]));
    expected.push(Expectation::Text(vec![100u8, 105, 114, 101, 99, 116, 105, 118, 101]));
    expected.push(Expectation::Text(vec![101u8, 120, 116, 101, 110, 100]));
    ParseError::syntax(expected, position)
}

fn parse_schema_document(src: &[u8], ts: &TokenStream) -> (r: Result<Document, ParseError>)
    requires
        ts.wf(src@),
    ensures
        match r {
            Ok(doc) => doc.wf(src@.len()) && doc.definitions@.len() >= 1,
            Err(_) => true,
        },
{
    let n: usize = ts.len();
    let mut definitions: Vec<Definition> = Vec::new();
    let mut i: usize = 0;
    while !kind(Kind::EndOfFile).peek(ts, i)
        invariant
            ts.wf(src@),
            n == ts.tokens@.len(),
            i < n,
            forall|m: int|
                0 <= m < definitions@.len() ==> (#[trigger] definitions@[m]).wf(src@.len()),
        decreases n - i,
    {
        let (d, j) = parse_schema_definition(src, ts, i)?;
        definitions.push(d);
        i = j;
    }
    if definitions.len() == 0 {
        return Err(schema_expectations(ts.get(i).position));
    }
    Ok(Document { definitions })
}

/// Parses the optional description: a string or block string immediately
/// before a definition, captured as decoded text rather than as a node.
fn parse_description(src: &[u8], ts: &TokenStream, i: usize) -> (r: Result<
    (Option<Vec<u8>>, usize),
    ParseError,
>)
    requires
        ts.wf(src@),
        i < ts.tokens@.len(),
    ensures
        match r {
            Ok((_d, j)) => i <= j < ts.tokens@.len(),
            Err(_) => true,
        },
{
    let _n: usize = ts.len();
    let t = ts.get(i);
    proof {
        assert(token_wf(ts.tokens@[i as int], src@));
    }
    if kind(Kind::StringValue).peek(ts, i) {
        proof {
            lemma_next_in_bounds(ts.tokens@, src@, i as int);
        }
        let d = decode_string_literal(src, t.span, t.position)?;
        Ok((Some(d), i + 1))
    } else if kind(Kind::BlockString).peek(ts, i) {
        proof {
            lemma_next_in_bounds(ts.tokens@, src@, i as int);
        }
        let d = decode_block_string(src, t.span);
        Ok((Some(d), i + 1))
    } else {
        Ok((None, i))
    }
}

#[verifier::rlimit(100)]
fn parse_schema_definition(src: &[u8], ts: &TokenStream, i: usize) -> (r: Result<
    (Definition, usize),
    ParseError,
>)
    requires
        ts.wf(src@),
        i < ts.tokens@.len(),
    ensures
        match r {
            Ok((d, j)) => d.wf(src@.len()) && i < j < ts.tokens@.len(),
            Err(_) => true,
        },
{
    let _n: usize = ts.len();
    let (description, j0) = parse_description(src, ts, i)?;
    let t0 = ts.get(j0);
    if ident("schema").peek(src, ts, j0) {
        let (d, j) = parse_schema_block(src, ts, j0)?;
        Ok((Definition::SchemaDefinition(d), j))
    } else if ident("scalar").peek(src, ts, j0) {
        proof {
            lemma_next_in_bounds(ts.tokens@, src@, j0 as int);
        }
        let (nm, j1) = name().parse(ts, j0 + 1)?;
        proof {
            lemma_next_in_bounds(ts.tokens@, src@, j0 as int + 1);
            assert(token_wf(ts.tokens@[j0 as int + 1], src@));
        }
        let (dirs, j2) = parse_directives(src, ts, j1)?;
        Ok(
            (
                Definition::TypeDefinition(
                    TypeDefinition::Scalar(
                        ScalarType { position: t0.position, description, name: nm, directives: dirs },
                    ),
                ),
                j2,
            ),
        )
    } else if ident("type").peek(src, ts, j0) {
        proof {
            lemma_next_in_bounds(ts.tokens@, src@, j0 as int);
        }
        let (p, j1) = parse_object_parts(src, ts, j0 + 1)?;
        Ok(
            (
                Definition::TypeDefinition(
                    TypeDefinition::Object(
                        ObjectType {
                            position: t0.position,
                            description,
                            name: p.name,
                            implements_interfaces: p.implements_interfaces,
                            directives: p.directives,
                            fields: p.fields,
                        },
                    ),
                ),
                j1,
            ),
        )
    } else if ident("interface").peek(src, ts, j0) {
        proof {
            lemma_next_in_bounds(ts.tokens@, src@, j0 as int);
        }
        let (p, j1) = parse_object_parts(src, ts, j0 + 1)?;
        Ok(
            (
                Definition::TypeDefinition(
                    TypeDefinition::Interface(
                        InterfaceType {
                            position: t0.position,
                            description,
                            name: p.name,
                            implements_interfaces: p.implements_interfaces,
                            directives: p.directives,
                            fields: p.fields,
                        },
                    ),
                ),
                j1,
            ),
        )
    } else if ident("union").peek(src, ts, j0) {
        proof {
            lemma_next_in_bounds(ts.tokens@, src@, j0 as int);
        }
        let (nm, j1) = name().parse(ts, j0 + 1)?;
        proof {
            lemma_next_in_bounds(ts.tokens@, src@, j0 as int + 1);
            assert(token_wf(ts.tokens@[j0 as int + 1], src@));
        }
        let (dirs, j2) = parse_directives(src, ts, j1)?;
        let (members, j3) = parse_union_members(src, ts, j2)?;
        Ok(
            (
                Definition::TypeDefinition(
                    TypeDefinition::Union(
                        UnionType {
                            position: t0.position,
                            description,
                            name: nm,
                            directives: dirs,
                            types: members,
                        },
                    ),
                ),
                j3,
            ),
        )
    } else if ident("enum").peek(src, ts, j0) {
        proof {
            lemma_next_in_bounds(ts.tokens@, src@, j0 as int);
        }
        let (nm, j1) = name().parse(ts, j0 + 1)?;
        proof {
            lemma_next_in_bounds(ts.tokens@, src@, j0 as int + 1);
            assert(token_wf(ts.tokens@[j0 as int + 1], src@));
        }
        let (dirs, j2) = parse_directives(src, ts, j1)?;
        let (values, j3) = parse_enum_values(src, ts, j2)?;
        Ok(
            (
                Definition::TypeDefinition(
                    TypeDefinition::Enum(
                        EnumType {
                            position: t0.position,
                            description,
                            name: nm,
                            directives: dirs,
                            values,
                        },
                    ),
                ),
                j3,
            ),
        )
    } else if ident("input").peek(src, ts, j0) {
        proof {
            lemma_next_in_bounds(ts.tokens@, src@, j0 as int);
        }
        let (nm, j1) = name().parse(ts, j0 + 1)?;
        proof {
            lemma_next_in_bounds(ts.tokens@, src@, j0 as int + 1);
            assert(token_wf(ts.tokens@[j0 as int + 1], src@));
        }
        let (dirs, j2) = parse_directives(src, ts, j1)?;
        let (fields, j3) = parse_input_fields_block(src, ts, j2)?;
        Ok(
            (
                Definition::TypeDefinition(
                    TypeDefinition::InputObject(
                        InputObjectType {
                            position: t0.position,
                            description,
                            name: nm,
                            directives: dirs,
                            fields,
                        },
                    ),
                ),
                j3,
            ),
        )
    } else if ident("directive").peek(src, ts, j0) {
        let (d, j1) = parse_directive_definition(src, ts, j0, description)?;
        Ok((Definition::DirectiveDefinition(d), j1))
    } else if ident("extend").peek(src, ts, j0) {
        // descriptions attach only to defining declarations, never extensions
        match description {
            Some(_) => {
                let mut expected: Vec<Expectation> = Vec::new();
                expected.push(Expectation::Text(vec![115u8, 99, 104, 101, 109, 97]));
                expected.push(Expectation::Text(vec![115u8, 99, 97, 108, 97, 114]));
                expected.push(Expectation::Text(vec![116u8, 121, 112, 101]));
                expected.push(
                    Expectation::Text(vec![105u8, 110, 116, 101, 114, 102, 97, 99, 101]),
                );
                expected.push(Expectation::Text(vec![117u8, 110, 105, 111, 110]));
                expected.push(Expectation::Text(vec![101u8, 110, 117, 109]));
                expected.push(Expectation::Text(vec![105u8, 110, 112, 117, 116]));
                expected.push(Expectation::Text(vec![100u8, 105, 114, 101, 99, 116, 105, 118, 101]));
                return Err(ParseError::syntax(expected, t0.position));
            },
            None => {},
        }
        proof {
            lemma_next_in_bounds(ts.tokens@, src@, j0 as int);
        }
        let (e, j1) = parse_type_extension(src, ts, j0 + 1)?;
        Ok((Definition::TypeExtension(e), j1))
    } else {
        Err(schema_expectations(t0.position))
    }
}

/// The `schema` block.  Each operation-type binding is accepted at most
/// once; a repeated binding is a syntax error at the repeated keyword.
fn parse_schema_block(src: &[u8], ts: &TokenStream, i: usize) -> (r: Result<
    (SchemaDefinition, usize),
    ParseError,
>)
    requires
        ts.wf(src@),
        i < ts.tokens@.len(),
        ts.tokens@[i as int].kind == Kind::Name,
    ensures
        match r {
            Ok((d, j)) => d.wf(src@.len()) && i < j < ts.tokens@.len(),
            Err(_) => true,
        },
{
    let n: usize = ts.len();
    let t0 = ts.get(i);
    proof {
        lemma_next_in_bounds(ts.tokens@, src@, i as int);
    }
    let (dirs, j0) = parse_directives(src, ts, i + 1)?;
    let (_open, j1) = punct("{").parse(src, ts, j0)?;
    proof {
        lemma_next_in_bounds(ts.tokens@, src@, j0 as int);
    }
    let mut query: Option<Span> = None;
    let mut mutation: Option<Span> = None;
    let mut subscription: Option<Span> = None;
    let mut j: usize = j1;
    loop
        invariant
            ts.wf(src@),
            n == ts.tokens@.len(),
            i < j < n,
            match query {
                Some(s) => s.wf(src@.len()),
                None => true,
            },
            match mutation {
                Some(s) => s.wf(src@.len()),
                None => true,
            },
            match subscription {
                Some(s) => s.wf(src@.len()),
                None => true,
            },
            directives_wf(dirs@, src@.len()),
        decreases n - j,
    {
        if punct("}").peek(src, ts, j) {
            proof {
                lemma_next_in_bounds(ts.tokens@, src@, j as int);
            }
            return Ok(
                (
                    SchemaDefinition {
                        position: t0.position,
                        directives: dirs,
                        query,
                        mutation,
                        subscription,
                    },
                    j + 1,
                ),
            );
        }
        let t = ts.get(j);
        let which: u8;
        if ident("query").peek(src, ts, j) {
            which = 0;
        } else if ident("mutation").peek(src, ts, j) {
            which = 1;
        } else if ident("subscription").peek(src, ts, j) {
            which = 2;
        } else {
            let mut expected: Vec<Expectation> = Vec::new();
            expected.push(Expectation::Text(vec![113u8, 117, 101, 114, 121]));
            expected.push(Expectation::Text(vec![109u8, 117, 116, 97, 116, 105, 111, 110]));
            expected.push(
                Expectation::Text(
                    vec![115u8, 117, 98, 115, 99, 114, 105, 112, 116, 105, 111, 110],
                ),
            );
            expected.push(Expectation::Text(vec![125u8]));
            return Err(ParseError::syntax(expected, t.position));
        }
        let already = if which == 0 {
            match query {
                Some(_) => true,
                None => false,
            }
        } else if which == 1 {
            match mutation {
                Some(_) => true,
                None => false,
            }
        } else {
            match subscription {
                Some(_) => true,
                None => false,
            }
        };
        if already {
            // a second binding of the same operation type
            let mut expected: Vec<Expectation> = Vec::new();
            expected.push(Expectation::Text(vec![125u8]));
            return Err(ParseError::syntax(expected, t.position));
        }
        proof {
            lemma_next_in_bounds(ts.tokens@, src@, j as int);
        }
        let (_colon, ja) = punct(":").parse(src, ts, j + 1)?;
        proof {
            lemma_next_in_bounds(ts.tokens@, src@, j as int + 1);
        }
        let (nm, jb) = name().parse(ts, ja)?;
        proof {
            lemma_next_in_bounds(ts.tokens@, src@, ja as int);
            assert(token_wf(ts.tokens@[ja as int], src@));
        }
        if which == 0 {
            query = Some(nm);
        } else if which == 1 {
            mutation = Some(nm);
        } else {
            subscription = Some(nm);
        }
        j = jb;
    }
}

/// Name, optional `implements` list, directives, optional field block: the
/// shape shared by object and interface definitions and extensions.
fn parse_object_parts(src: &[u8], ts: &TokenStream, i: usize) -> (r: Result<
    (ObjectParts, usize),
    ParseError,
>)
    requires
        ts.wf(src@),
        i < ts.tokens@.len(),
    ensures
        match r {
            Ok((p, j)) => {
                &&& p.name.wf(src@.len())
                &&& spans_wf(p.implements_interfaces@, src@.len())
                &&& directives_wf(p.directives@, src@.len())
                &&& fields_wf(p.fields@, src@.len())
                &&& i < j < ts.tokens@.len()
            },
            Err(_) => true,
        },
{
    let _n: usize = ts.len();
    let (nm, j0) = name().parse(ts, i)?;
    proof {
        lemma_next_in_bounds(ts.tokens@, src@, i as int);
        assert(token_wf(ts.tokens@[i as int], src@));
    }
    let (implements, j1) = parse_implements(src, ts, j0)?;
    let (dirs, j2) = parse_directives(src, ts, j1)?;
    let (fields, j3) = parse_fields_block(src, ts, j2)?;
    Ok(
        (
            ObjectParts {
                name: nm,
                implements_interfaces: implements,
                directives: dirs,
                fields,
            },
            j3,
        ),
    )
}

/// The optional `implements A & B` clause.
fn parse_implements(src: &[u8], ts: &TokenStream, i: usize) -> (r: Result<
    (Vec<Span>, usize),
    ParseError,
>)
    requires
        ts.wf(src@),
        i < ts.tokens@.len(),
    ensures
        match r {
            Ok((names, j)) => spans_wf(names@, src@.len()) && i <= j < ts.tokens@.len(),
            Err(_) => true,
        },
{
    let n: usize = ts.len();
    let mut names: Vec<Span> = Vec::new();
    if !ident("implements").peek(src, ts, i) {
        return Ok((names, i));
    }
    proof {
        lemma_next_in_bounds(ts.tokens@, src@, i as int);
    }
    let (first, j0) = name().parse(ts, i + 1)?;
    proof {
        lemma_next_in_bounds(ts.tokens@, src@, i as int + 1);
        assert(token_wf(ts.tokens@[i as int + 1], src@));
    }
    names.push(first);
    let mut j: usize = j0;
    while punct("&").peek(src, ts, j)
        invariant
            ts.wf(src@),
            n == ts.tokens@.len(),
            i < j < n,
            spans_wf(names@, src@.len()),
        decreases n - j,
    {
        proof {
            lemma_next_in_bounds(ts.tokens@, src@, j as int);
        }
        let (nm, ja) = name().parse(ts, j + 1)?;
        proof {
            lemma_next_in_bounds(ts.tokens@, src@, j as int + 1);
            assert(token_wf(ts.tokens@[j as int + 1], src@));
        }
        names.push(nm);
        j = ja;
    }
    Ok((names, j))
}

/// The optional braced block of field definitions.
fn parse_fields_block(src: &[u8], ts: &TokenStream, i: usize) -> (r: Result<
    (Vec<Field>, usize),
    ParseError,
>)
    requires
        ts.wf(src@),
        i < ts.tokens@.len(),
    ensures
        match r {
            Ok((fields, j)) => fields_wf(fields@, src@.len()) && i <= j < ts.tokens@.len(),
            Err(_) => true,
        },
{
    let n: usize = ts.len();
    let mut fields: Vec<Field> = Vec::new();
    if !punct("{").peek(src, ts, i) {
        return Ok((fields, i));
    }
    proof {
        lemma_next_in_bounds(ts.tokens@, src@, i as int);
    }
    let mut j: usize = i + 1;
    loop
        invariant
            ts.wf(src@),
            n == ts.tokens@.len(),
            i < j < n,
            fields_wf(fields@, src@.len()),
        decreases n - j,
    {
        if punct("}").peek(src, ts, j) {
            proof {
                lemma_next_in_bounds(ts.tokens@, src@, j as int);
            }
            return Ok((fields, j + 1));
        }
        let (f, ja) = parse_field_definition(src, ts, j)?;
        fields.push(f);
        j = ja;
    }
}

/// One field definition: description, name, optional arguments, `:`, type,
/// directives.
#[verifier::rlimit(60)]
fn parse_field_definition(src: &[u8], ts: &TokenStream, i: usize) -> (r: Result<
    (Field, usize),
    ParseError,
>)
    requires
        ts.wf(src@),
        i < ts.tokens@.len(),
    ensures
        match r {
            Ok((f, j)) => f.wf(src@.len()) && i < j < ts.tokens@.len(),
            Err(_) => true,
        },
{
    let _n: usize = ts.len();
    let (description, j0) = parse_description(src, ts, i)?;
    let t0 = ts.get(j0);
    let (nm, j1) = name().parse(ts, j0)?;
    proof {
        lemma_next_in_bounds(ts.tokens@, src@, j0 as int);
        assert(token_wf(ts.tokens@[j0 as int], src@));
    }
    let (args, j2) = parse_argument_definitions(src, ts, j1)?;
    let (_colon, j3) = punct(":").parse(src, ts, j2)?;
    proof {
        lemma_next_in_bounds(ts.tokens@, src@, j2 as int);
    }
    let (ft, j4) = parse_type(src, ts, j3)?;
    let (dirs, j5) = parse_directives(src, ts, j4)?;
    Ok(
        (
            Field {
                position: t0.position,
                description,
                name: nm,
                arguments: args,
                field_type: ft,
                directives: dirs,
            },
            j5,
        ),
    )
}

/// The optional parenthesized list of argument declarations.
fn parse_argument_definitions(src: &[u8], ts: &TokenStream, i: usize) -> (r: Result<
    (Vec<InputValue>, usize),
    ParseError,
>)
    requires
        ts.wf(src@),
        i < ts.tokens@.len(),
    ensures
        match r {
            Ok((args, j)) => input_values_wf(args@, src@.len()) && i <= j < ts.tokens@.len(),
            Err(_) => true,
        },
{
    let n: usize = ts.len();
    let mut args: Vec<InputValue> = Vec::new();
    if !punct("(").peek(src, ts, i) {
        return Ok((args, i));
    }
    proof {
        lemma_next_in_bounds(ts.tokens@, src@, i as int);
    }
    let mut j: usize = i + 1;
    loop
        invariant
            ts.wf(src@),
            n == ts.tokens@.len(),
            i < j < n,
            input_values_wf(args@, src@.len()),
        decreases n - j,
    {
        if punct(")").peek(src, ts, j) {
            proof {
                lemma_next_in_bounds(ts.tokens@, src@, j as int);
            }
            return Ok((args, j + 1));
        }
        let (v, ja) = parse_input_value_definition(src, ts, j)?;
        args.push(v);
        j = ja;
    }
}

/// One input value declaration: description, name, `:`, type, optional
/// default, directives.
#[verifier::rlimit(60)]
fn parse_input_value_definition(src: &[u8], ts: &TokenStream, i: usize) -> (r: Result<
    (InputValue, usize),
    ParseError,
>)
    requires
        ts.wf(src@),
        i < ts.tokens@.len(),
    ensures
        match r {
            Ok((v, j)) => v.wf(src@.len()) && i < j < ts.tokens@.len(),
            Err(_) => true,
        },
{
    let _n: usize = ts.len();
    let (description, j0) = parse_description(src, ts, i)?;
    let t0 = ts.get(j0);
    let (nm, j1) = name().parse(ts, j0)?;
    proof {
        lemma_next_in_bounds(ts.tokens@, src@, j0 as int);
        assert(token_wf(ts.tokens@[j0 as int], src@));
    }
    let (_colon, j2) = punct(":").parse(src, ts, j1)?;
    proof {
        lemma_next_in_bounds(ts.tokens@, src@, j1 as int);
    }
    let (vt, j3) = parse_type(src, ts, j2)?;
    let mut default_value: Option<Value> = None;
    let mut j4 = j3;
    if punct("=").peek(src, ts, j3) {
        proof {
            lemma_next_in_bounds(ts.tokens@, src@, j3 as int);
        }
        let (dv, ja) = parse_value(src, ts, j3 + 1)?;
        default_value = Some(dv);
        j4 = ja;
    }
    let (dirs, j5) = parse_directives(src, ts, j4)?;
    Ok(
        (
            InputValue {
                position: t0.position,
                description,
                name: nm,
                value_type: vt,
                default_value,
                directives: dirs,
            },
            j5,
        ),
    )
}

/// The optional braced block of input value declarations.
fn parse_input_fields_block(src: &[u8], ts: &TokenStream, i: usize) -> (r: Result<
    (Vec<InputValue>, usize),
    ParseError,
>)
    requires
        ts.wf(src@),
        i < ts.tokens@.len(),
    ensures
        match r {
            Ok((fields, j)) => input_values_wf(fields@, src@.len()) && i <= j < ts.tokens@.len(),
            Err(_) => true,
        },
{
    let n: usize = ts.len();
    let mut fields: Vec<InputValue> = Vec::new();
    if !punct("{").peek(src, ts, i) {
        return Ok((fields, i));
    }
    proof {
        lemma_next_in_bounds(ts.tokens@, src@, i as int);
    }
    let mut j: usize = i + 1;
    loop
        invariant
            ts.wf(src@),
            n == ts.tokens@.len(),
            i < j < n,
            input_values_wf(fields@, src@.len()),
        decreases n - j,
    {
        if punct("}").peek(src, ts, j) {
            proof {
                lemma_next_in_bounds(ts.tokens@, src@, j as int);
            }
            return Ok((fields, j + 1));
        }
        let (v, ja) = parse_input_value_definition(src, ts, j)?;
        fields.push(v);
        j = ja;
    }
}

/// The optional braced block of enum values, each a name with description
/// and directives.
fn parse_enum_values(src: &[u8], ts: &TokenStream, i: usize) -> (r: Result<
    (Vec<EnumValue>, usize),
    ParseError,
>)
    requires
        ts.wf(src@),
        i < ts.tokens@.len(),
    ensures
        match r {
            Ok((values, j)) => enum_values_wf(values@, src@.len()) && i <= j < ts.tokens@.len(),
            Err(_) => true,
        },
{
    let n: usize = ts.len();
    let mut values: Vec<EnumValue> = Vec::new();
    if !punct("{").peek(src, ts, i) {
        return Ok((values, i));
    }
    proof {
        lemma_next_in_bounds(ts.tokens@, src@, i as int);
    }
    let mut j: usize = i + 1;
    loop
        invariant
            ts.wf(src@),
            n == ts.tokens@.len(),
            i < j < n,
            enum_values_wf(values@, src@.len()),
        decreases n - j,
    {
        if punct("}").peek(src, ts, j) {
            proof {
                lemma_next_in_bounds(ts.tokens@, src@, j as int);
            }
            return Ok((values, j + 1));
        }
        let (description, ja) = parse_description(src, ts, j)?;
        let t0 = ts.get(ja);
        let (nm, jb) = name().parse(ts, ja)?;
        proof {
            lemma_next_in_bounds(ts.tokens@, src@, ja as int);
            assert(token_wf(ts.tokens@[ja as int], src@));
        }
        let (dirs, jc) = parse_directives(src, ts, jb)?;
        values.push(
            EnumValue { position: t0.position, description, name: nm, directives: dirs },
        );
        j = jc;
    }
}

/// The optional `= A | B` union member list, with an optional leading bar.
fn parse_union_members(src: &[u8], ts: &TokenStream, i: usize) -> (r: Result<
    (Vec<Span>, usize),
    ParseError,
>)
    requires
        ts.wf(src@),
        i < ts.tokens@.len(),
    ensures
        match r {
            Ok((members, j)) => spans_wf(members@, src@.len()) && i <= j < ts.tokens@.len(),
            Err(_) => true,
        },
{
    let n: usize = ts.len();
    let mut members: Vec<Span> = Vec::new();
    if !punct("=").peek(src, ts, i) {
        return Ok((members, i));
    }
    proof {
        lemma_next_in_bounds(ts.tokens@, src@, i as int);
    }
    let mut j: usize = i + 1;
    if punct("|").peek(src, ts, j) {
        proof {
            lemma_next_in_bounds(ts.tokens@, src@, j as int);
        }
        j = j + 1;
    }
    let (first, j0) = name().parse(ts, j)?;
    proof {
        lemma_next_in_bounds(ts.tokens@, src@, j as int);
        assert(token_wf(ts.tokens@[j as int], src@));
    }
    members.push(first);
    j = j0;
    while punct("|").peek(src, ts, j)
        invariant
            ts.wf(src@),
            n == ts.tokens@.len(),
            i < j < n,
            spans_wf(members@, src@.len()),
        decreases n - j,
    {
        proof {
            lemma_next_in_bounds(ts.tokens@, src@, j as int);
        }
        let (nm, ja) = name().parse(ts, j + 1)?;
        proof {
            lemma_next_in_bounds(ts.tokens@, src@, j as int + 1);
            assert(token_wf(ts.tokens@[j as int + 1], src@));
        }
        members.push(nm);
        j = ja;
    }
    Ok((members, j))
}

/// A directive definition: `directive @name(args) [repeatable] on LOCATIONS`.
/// At least one location is required; each spelling resolves through the
/// directive-location mapping and an unrecognized one is a syntax error
/// naming the offending token.
#[verifier::rlimit(60)]
fn parse_directive_definition(
    src: &[u8],
    ts: &TokenStream,
    i: usize,
    description: Option<Vec<u8>>,
) -> (r: Result<(DirectiveDefinition, usize), ParseError>)
    requires
        ts.wf(src@),
        i < ts.tokens@.len(),
        ts.tokens@[i as int].kind == Kind::Name,
    ensures
        match r {
            Ok((d, j)) => d.wf(src@.len()) && i < j < ts.tokens@.len(),
            Err(_) => true,
        },
{
    let n: usize = ts.len();
    let t0 = ts.get(i);
    proof {
        lemma_next_in_bounds(ts.tokens@, src@, i as int);
    }
    let (_at, j0) = punct("@").parse(src, ts, i + 1)?;
    proof {
        lemma_next_in_bounds(ts.tokens@, src@, i as int + 1);
    }
    let (nm, j1) = name().parse(ts, j0)?;
    proof {
        lemma_next_in_bounds(ts.tokens@, src@, j0 as int);
        assert(token_wf(ts.tokens@[j0 as int], src@));
    }
    let (args, j2) = parse_argument_definitions(src, ts, j1)?;
    let mut repeatable = false;
    let mut j3 = j2;
    if ident("repeatable").peek(src, ts, j2) {
        proof {
            lemma_next_in_bounds(ts.tokens@, src@, j2 as int);
        }
        repeatable = true;
        j3 = j2 + 1;
    }
    let (_on, j4) = ident("on").parse(src, ts, j3)?;
    proof {
        lemma_next_in_bounds(ts.tokens@, src@, j3 as int);
    }
    let mut locations: Vec<DirectiveLocation> = Vec::new();
    let mut j: usize = j4;
    if punct("|").peek(src, ts, j) {
        proof {
            lemma_next_in_bounds(ts.tokens@, src@, j as int);
        }
        j = j + 1;
    }
    let (loc, ja) = parse_directive_location(src, ts, j)?;
    locations.push(loc);
    j = ja;
    while punct("|").peek(src, ts, j)
        invariant
            ts.wf(src@),
            n == ts.tokens@.len(),
            i < j < n,
        decreases n - j,
    {
        proof {
            lemma_next_in_bounds(ts.tokens@, src@, j as int);
        }
        let (loc2, jb) = parse_directive_location(src, ts, j + 1)?;
        locations.push(loc2);
        j = jb;
    }
    Ok(
        (
            DirectiveDefinition {
                position: t0.position,
                description,
                name: nm,
                arguments: args,
                repeatable,
                locations,
            },
            j,
        ),
    )
}

/// One directive location: a name token whose text must be a canonical
/// location spelling.
fn parse_directive_location(src: &[u8], ts: &TokenStream, i: usize) -> (r: Result<
    (DirectiveLocation, usize),
    ParseError,
>)
    requires
        ts.wf(src@),
        i < ts.tokens@.len(),
    ensures
        match r {
            Ok((_l, j)) => i < j < ts.tokens@.len(),
            Err(_) => true,
        },
{
    let _n: usize = ts.len();
    let t = ts.get(i);
    let (nm, j) = name().parse(ts, i)?;
    proof {
        lemma_next_in_bounds(ts.tokens@, src@, i as int);
        assert(token_wf(ts.tokens@[i as int], src@));
    }
    match DirectiveLocation::from_name(nm.text(src)) {
        Some(loc) => Ok((loc, j)),
        None => {
            let mut expected: Vec<Expectation> = Vec::new();
            expected.push(Expectation::DirectiveLocation);
            Err(ParseError::syntax(expected, t.position))
        },
    }
}

/// An `extend` definition: the keyword after `extend` picks the shape, and
/// no description attaches.
#[verifier::rlimit(100)]
fn parse_type_extension(src: &[u8], ts: &TokenStream, i: usize) -> (r: Result<
    (TypeExtension, usize),
    ParseError,
>)
    requires
        ts.wf(src@),
        i < ts.tokens@.len(),
    ensures
        match r {
            Ok((e, j)) => e.wf(src@.len()) && i <= j < ts.tokens@.len(),
            Err(_) => true,
        },
{
    let _n: usize = ts.len();
    let t0 = ts.get(i);
    if ident("scalar").peek(src, ts, i) {
        proof {
            lemma_next_in_bounds(ts.tokens@, src@, i as int);
        }
        let (nm, j1) = name().parse(ts, i + 1)?;
        proof {
            lemma_next_in_bounds(ts.tokens@, src@, i as int + 1);
            assert(token_wf(ts.tokens@[i as int + 1], src@));
        }
        let (dirs, j2) = parse_directives(src, ts, j1)?;
        Ok(
            (
                TypeExtension::Scalar(
                    ScalarTypeExtension { position: t0.position, name: nm, directives: dirs },
                ),
                j2,
            ),
        )
    } else if ident("type").peek(src, ts, i) {
        proof {
            lemma_next_in_bounds(ts.tokens@, src@, i as int);
        }
        let (p, j1) = parse_object_parts(src, ts, i + 1)?;
        Ok(
            (
                TypeExtension::Object(
                    ObjectTypeExtension {
                        position: t0.position,
                        name: p.name,
                        implements_interfaces: p.implements_interfaces,
                        directives: p.directives,
                        fields: p.fields,
                    },
                ),
                j1,
            ),
        )
    } else if ident("interface").peek(src, ts, i) {
        proof {
            lemma_next_in_bounds(ts.tokens@, src@, i as int);
        }
        let (p, j1) = parse_object_parts(src, ts, i + 1)?;
        Ok(
            (
                TypeExtension::Interface(
                    InterfaceTypeExtension {
                        position: t0.position,
                        name: p.name,
                        implements_interfaces: p.implements_interfaces,
                        directives: p.directives,
                        fields: p.fields,
                    },
                ),
                j1,
            ),
        )
    } else if ident("union").peek(src, ts, i) {
        proof {
            lemma_next_in_bounds(ts.tokens@, src@, i as int);
        }
        let (nm, j1) = name().parse(ts, i + 1)?;
        proof {
            lemma_next_in_bounds(ts.tokens@, src@, i as int + 1);
            assert(token_wf(ts.tokens@[i as int + 1], src@));
        }
        let (dirs, j2) = parse_directives(src, ts, j1)?;
        let (members, j3) = parse_union_members(src, ts, j2)?;
        Ok(
            (
                TypeExtension::Union(
                    UnionTypeExtension {
                        position: t0.position,
                        name: nm,
                        directives: dirs,
                        types: members,
                    },
                ),
                j3,
            ),
        )
    } else if ident("enum").peek(src, ts, i) {
        proof {
            lemma_next_in_bounds(ts.tokens@, src@, i as int);
        }
        let (nm, j1) = name().parse(ts, i + 1)?;
        proof {
            lemma_next_in_bounds(ts.tokens@, src@, i as int + 1);
            assert(token_wf(ts.tokens@[i as int + 1], src@));
        }
        let (dirs, j2) = parse_directives(src, ts, j1)?;
        let (values, j3) = parse_enum_values(src, ts, j2)?;
        Ok(
            (
                TypeExtension::Enum(
                    EnumTypeExtension {
                        position: t0.position,
                        name: nm,
                        directives: dirs,
                        values,
                    },
                ),
                j3,
            ),
        )
    } else if ident("input").peek(src, ts, i) {
        proof {
            lemma_next_in_bounds(ts.tokens@, src@, i as int);
        }
        let (nm, j1) = name().parse(ts, i + 1)?;
        proof {
            lemma_next_in_bounds(ts.tokens@, src@, i as int + 1);
            assert(token_wf(ts.tokens@[i as int + 1], src@));
        }
        let (dirs, j2) = parse_directives(src, ts, j1)?;
        let (fields, j3) = parse_input_fields_block(src, ts, j2)?;
        Ok(
            (
                TypeExtension::InputObject(
                    InputObjectTypeExtension {
                        position: t0.position,
                        name: nm,
                        directives: dirs,
                        fields,
                    },
                ),
                j3,
            ),
        )
    } else {
        let mut expected: Vec<Expectation> = Vec::new();
        expected.push(Expectation::Text(vec![115u8, 99, 97, 108, 97, 114]));
        expected.push(Expectation::Text(vec![116u8, 121, 112, 101]));
        expected.push(Expectation::Text(vec![105u8, 110, 116, 101, 114, 102, 97, 99, 101]));
        expected.push(Expectation::Text(vec![117u8, 110, 105, 111, 110]));
        expected.push(Expectation::Text(vec![101u8, 110, 117, 109]));
        expected.push(Expectation::Text(vec![105u8, 110, 112, 117, 116]));
        Err(ParseError::syntax(expected, t0.position))
    }
}

} // verus!
