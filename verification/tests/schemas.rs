use graphql_parser::common::{Span, Type, Value};
use graphql_parser::schema::ast::{
    Definition, DirectiveLocation, EnumType, ScalarType, TypeDefinition, TypeExtension,
};
use graphql_parser::schema::grammar::parse_schema;

#[test]
fn schema_definition_bindings() {
    let src = b"schema { query: Q mutation: M }";
    let doc = parse_schema(src).expect("parses");
    match &doc.definitions[0] {
        Definition::SchemaDefinition(s) => {
            assert_eq!(s.query.unwrap().text(src), b"Q");
            assert_eq!(s.mutation.unwrap().text(src), b"M");
            assert!(s.subscription.is_none());
        }
        other => panic!("expected a schema definition, got {:?}", other),
    }
}

#[test]
fn duplicate_schema_operation_binding_is_an_error() {
    let e = parse_schema(b"schema { query: A query: B }").unwrap_err();
    assert!(e.is_syntactic());
    // the error points at the repeated binding, never a silent merge
    assert_eq!(e.position().line, 1);
    assert_eq!(e.position().column, 19);
}

#[test]
fn object_type_with_fields_and_arguments() {
    let src = b"type Query implements Node & Named @d {\n  \"doc\" field(arg: Int = 7): [String]!\n}";
    let doc = parse_schema(src).expect("parses");
    match &doc.definitions[0] {
        Definition::TypeDefinition(TypeDefinition::Object(o)) => {
            assert_eq!(o.name.text(src), b"Query");
            let impls: Vec<&[u8]> =
                o.implements_interfaces.iter().map(|s| s.text(src)).collect();
            assert_eq!(impls, vec![&b"Node"[..], b"Named"]);
            assert_eq!(o.directives.len(), 1);
            assert_eq!(o.fields.len(), 1);
            let f = &o.fields[0];
            assert_eq!(f.description, Some(b"doc".to_vec()));
            assert_eq!(f.name.text(src), b"field");
            assert_eq!(f.arguments.len(), 1);
            assert_eq!(f.arguments[0].name.text(src), b"arg");
            assert_eq!(f.arguments[0].default_value, Some(Value::Int(graphql_parser::common::Number(7))));
            match &f.field_type {
                Type::NonNullType(inner) => match &**inner {
                    Type::ListType(name) => match &**name {
                        Type::NamedType(n) => assert_eq!(n.text(src), b"String"),
                        other => panic!("expected a name, got {:?}", other),
                    },
                    other => panic!("expected a list, got {:?}", other),
                },
                other => panic!("expected non-null, got {:?}", other),
            }
        }
        other => panic!("expected an object type, got {:?}", other),
    }
}

#[test]
fn descriptions_attach_to_definitions() {
    let src = b"\"\"\"A scalar\"\"\"\nscalar Date\n\"plain\" enum E { A B }";
    let doc = parse_schema(src).expect("parses");
    match &doc.definitions[0] {
        Definition::TypeDefinition(TypeDefinition::Scalar(s)) => {
            assert_eq!(s.description, Some(b"A scalar".to_vec()));
            assert_eq!(s.name.text(src), b"Date");
        }
        other => panic!("expected a scalar, got {:?}", other),
    }
    match &doc.definitions[1] {
        Definition::TypeDefinition(TypeDefinition::Enum(e)) => {
            assert_eq!(e.description, Some(b"plain".to_vec()));
            let names: Vec<&[u8]> = e.values.iter().map(|v| v.name.text(src)).collect();
            assert_eq!(names, vec![&b"A"[..], b"B"]);
        }
        other => panic!("expected an enum, got {:?}", other),
    }
}

#[test]
fn union_members_keep_their_order() {
    let src = b"union U = | A | B | C";
    let doc = parse_schema(src).expect("parses");
    match &doc.definitions[0] {
        Definition::TypeDefinition(TypeDefinition::Union(u)) => {
            let names: Vec<&[u8]> = u.types.iter().map(|s| s.text(src)).collect();
            assert_eq!(names, vec![&b"A"[..], b"B", b"C"]);
        }
        other => panic!("expected a union, got {:?}", other),
    }
}

#[test]
fn input_object_and_interface() {
    let src = b"input In { a: Int b: String = \"x\" }\ninterface Node { id: ID! }";
    let doc = parse_schema(src).expect("parses");
    match &doc.definitions[0] {
        Definition::TypeDefinition(TypeDefinition::InputObject(io)) => {
            assert_eq!(io.name.text(src), b"In");
            assert_eq!(io.fields.len(), 2);
            assert_eq!(io.fields[1].default_value, Some(Value::String(b"x".to_vec())));
        }
        other => panic!("expected an input object, got {:?}", other),
    }
    match &doc.definitions[1] {
        Definition::TypeDefinition(TypeDefinition::Interface(i)) => {
            assert_eq!(i.name.text(src), b"Node");
            assert_eq!(i.fields.len(), 1);
        }
        other => panic!("expected an interface, got {:?}", other),
    }
}

#[test]
fn extensions_carry_no_description() {
    let src = b"extend type T @d\nextend enum E { X }\nextend scalar S @d\nextend union U = A\nextend input I { f: Int }\nextend interface N { id: ID }";
    let doc = parse_schema(src).expect("parses");
    assert_eq!(doc.definitions.len(), 6);
    match &doc.definitions[0] {
        Definition::TypeExtension(TypeExtension::Object(o)) => {
            assert_eq!(o.name.text(src), b"T");
            assert_eq!(o.directives.len(), 1);
        }
        other => panic!("expected an object extension, got {:?}", other),
    }
    match &doc.definitions[1] {
        Definition::TypeExtension(TypeExtension::Enum(e)) => {
            assert_eq!(e.values.len(), 1);
        }
        other => panic!("expected an enum extension, got {:?}", other),
    }
}

#[test]
fn directive_definition_locations() {
    let src = b"directive @skip(if: Boolean!) on FIELD | FRAGMENT_SPREAD | INLINE_FRAGMENT";
    let doc = parse_schema(src).expect("parses");
    match &doc.definitions[0] {
        Definition::DirectiveDefinition(d) => {
            assert_eq!(d.name.text(src), b"skip");
            assert!(!d.repeatable);
            assert_eq!(
                d.locations,
                vec![
                    DirectiveLocation::Field,
                    DirectiveLocation::FragmentSpread,
                    DirectiveLocation::InlineFragment
                ]
            );
        }
        other => panic!("expected a directive definition, got {:?}", other),
    }
}

#[test]
fn repeatable_directive_definition() {
    let src = b"directive @tag repeatable on OBJECT";
    let doc = parse_schema(src).expect("parses");
    match &doc.definitions[0] {
        Definition::DirectiveDefinition(d) => {
            assert!(d.repeatable);
            assert_eq!(d.locations, vec![DirectiveLocation::Object]);
        }
        other => panic!("expected a directive definition, got {:?}", other),
    }
}

#[test]
fn unknown_directive_location_is_a_syntax_error() {
    let e = parse_schema(b"directive @d on NOT_A_LOCATION").unwrap_err();
    assert!(e.is_syntactic());
    assert_eq!(e.position().column, 17);
}

#[test]
fn empty_schema_document_is_an_error() {
    assert!(parse_schema(b"").is_err());
}

#[test]
fn bare_type_constructors() {
    let name = Span { start: 0, end: 0 };
    let s = ScalarType::new(name);
    assert_eq!(s.name, name);
    assert!(s.description.is_none());
    assert!(s.directives.is_empty());
    assert_eq!(s.position.line, 0);
    let e = EnumType::new(name);
    assert!(e.values.is_empty());
}

#[test]
fn description_before_extend_is_an_error() {
    let e = parse_schema(b"\"doc\" extend type T @d").unwrap_err();
    assert!(e.is_syntactic());
    assert_eq!(e.position().line, 1);
    assert_eq!(e.position().column, 7);
}
