use graphql_parser::common::{parse_type, Number, Type, Value};
use graphql_parser::error::LexicalError;
use graphql_parser::format::Style;
use graphql_parser::query::ast::{Definition, OperationDefinition, Selection};
use graphql_parser::query::format::to_string;
use graphql_parser::query::grammar::parse_query;
use graphql_parser::tokenizer::tokenize;

#[test]
fn shorthand_query_two_fields() {
    let src = b"{ a b }";
    let doc = parse_query(src).expect("parses");
    assert_eq!(doc.definitions.len(), 1);
    match &doc.definitions[0] {
        Definition::Operation(OperationDefinition::SelectionSet(set)) => {
            assert_eq!(set.items.len(), 2);
            match &set.items[0] {
                Selection::Field(f) => {
                    assert_eq!(f.name.text(src), b"a");
                    assert!(f.alias.is_none());
                    assert!(f.arguments.is_empty());
                    assert!(f.directives.is_empty());
                    assert!(f.selection_set.items.is_empty());
                }
                other => panic!("expected a field, got {:?}", other),
            }
            match &set.items[1] {
                Selection::Field(f) => assert_eq!(f.name.text(src), b"b"),
                other => panic!("expected a field, got {:?}", other),
            }
        }
        other => panic!("expected a shorthand operation, got {:?}", other),
    }
}

#[test]
fn type_nesting_non_null_list_non_null() {
    let src = b"[Int!]!";
    let ts = tokenize(src).expect("tokenizes");
    let (t, _) = parse_type(src, &ts, 0).expect("parses");
    match t {
        Type::NonNullType(list) => match *list {
            Type::ListType(inner) => match *inner {
                Type::NonNullType(named) => match *named {
                    Type::NamedType(name) => assert_eq!(name.text(src), b"Int"),
                    other => panic!("expected a name, got {:?}", other),
                },
                other => panic!("expected non-null, got {:?}", other),
            },
            other => panic!("expected a list, got {:?}", other),
        },
        other => panic!("expected non-null, got {:?}", other),
    }
}

#[test]
fn unterminated_string_fails_at_the_opening_quote() {
    let src = b"{ a(b: \"unterminated) }";
    let e = parse_query(src).unwrap_err();
    assert!(e.is_lexical());
    assert_eq!(e.lexical_kind(), Some(LexicalError::UnterminatedString));
    assert_eq!(e.position().line, 1);
    assert_eq!(e.position().column, 8);
}

#[test]
fn empty_input_is_an_error() {
    assert!(parse_query(b"").is_err());
    assert!(parse_query(b"  # only a comment\n").is_err());
}

#[test]
fn named_query_with_variables_and_default() {
    let src = b"query Q($v: [Int!]! = [1, 2]) { f }";
    let doc = parse_query(src).expect("parses");
    match &doc.definitions[0] {
        Definition::Operation(OperationDefinition::Query(q)) => {
            assert_eq!(q.name.unwrap().text(src), b"Q");
            assert_eq!(q.variable_definitions.len(), 1);
            let var = &q.variable_definitions[0];
            assert_eq!(var.name.text(src), b"v");
            assert_eq!(
                var.default_value,
                Some(Value::List(vec![
                    Value::Int(Number(1)),
                    Value::Int(Number(2))
                ]))
            );
        }
        other => panic!("expected a query, got {:?}", other),
    }
}

#[test]
fn field_alias_and_arguments() {
    let src = b"{ big: profilePic(size: 100, mode: \"hi\\u0041\\n\") }";
    let doc = parse_query(src).expect("parses");
    match &doc.definitions[0] {
        Definition::Operation(OperationDefinition::SelectionSet(set)) => match &set.items[0] {
            Selection::Field(f) => {
                assert_eq!(f.alias.unwrap().text(src), b"big");
                assert_eq!(f.name.text(src), b"profilePic");
                assert_eq!(f.arguments.len(), 2);
                assert_eq!(f.arguments[0].0.text(src), b"size");
                assert_eq!(f.arguments[0].1, Value::Int(Number(100)));
                assert_eq!(f.arguments[1].1, Value::String(b"hiA\n".to_vec()));
            }
            other => panic!("expected a field, got {:?}", other),
        },
        other => panic!("expected a shorthand operation, got {:?}", other),
    }
}

#[test]
fn argument_order_is_preserved_and_duplicates_allowed() {
    let src = b"{ f(a: 1, b: 2, a: 3) }";
    let doc = parse_query(src).expect("parses");
    match &doc.definitions[0] {
        Definition::Operation(OperationDefinition::SelectionSet(set)) => match &set.items[0] {
            Selection::Field(f) => {
                let names: Vec<&[u8]> =
                    f.arguments.iter().map(|(n, _)| n.text(src)).collect();
                assert_eq!(names, vec![&b"a"[..], b"b", b"a"]);
            }
            other => panic!("expected a field, got {:?}", other),
        },
        other => panic!("expected a shorthand operation, got {:?}", other),
    }
}

#[test]
fn value_variants_parse() {
    let src = b"{ f(a: $x, b: 1.5e3, c: true, d: false, e: null, g: RED, h: {k: [1]}) }";
    let doc = parse_query(src).expect("parses");
    match &doc.definitions[0] {
        Definition::Operation(OperationDefinition::SelectionSet(set)) => match &set.items[0] {
            Selection::Field(f) => {
                match &f.arguments[0].1 {
                    Value::Variable(v) => assert_eq!(v.text(src), b"x"),
                    other => panic!("expected a variable, got {:?}", other),
                }
                match &f.arguments[1].1 {
                    Value::Float(t) => assert_eq!(t.text(src), b"1.5e3"),
                    other => panic!("expected a float, got {:?}", other),
                }
                assert_eq!(f.arguments[2].1, Value::Boolean(true));
                assert_eq!(f.arguments[3].1, Value::Boolean(false));
                assert_eq!(f.arguments[4].1, Value::Null);
                match &f.arguments[5].1 {
                    Value::Enum(t) => assert_eq!(t.text(src), b"RED"),
                    other => panic!("expected an enum, got {:?}", other),
                }
                match &f.arguments[6].1 {
                    Value::Object(fields) => {
                        assert_eq!(fields.len(), 1);
                        assert_eq!(fields[0].0.text(src), b"k");
                        assert_eq!(fields[0].1, Value::List(vec![Value::Int(Number(1))]));
                    }
                    other => panic!("expected an object, got {:?}", other),
                }
            }
            other => panic!("expected a field, got {:?}", other),
        },
        other => panic!("expected a shorthand operation, got {:?}", other),
    }
}

#[test]
fn int_just_inside_and_outside_the_64_bit_range() {
    let src = b"{ f(a: 9223372036854775807, b: -9223372036854775808) }";
    let doc = parse_query(src).expect("parses");
    match &doc.definitions[0] {
        Definition::Operation(OperationDefinition::SelectionSet(set)) => match &set.items[0] {
            Selection::Field(f) => {
                assert_eq!(f.arguments[0].1, Value::Int(Number(i64::MAX)));
                assert_eq!(f.arguments[1].1, Value::Int(Number(i64::MIN)));
            }
            other => panic!("expected a field, got {:?}", other),
        },
        other => panic!("expected a shorthand operation, got {:?}", other),
    }
    let e = parse_query(b"{ f(a: 9223372036854775808) }").unwrap_err();
    assert!(e.is_lexical());
    assert_eq!(e.lexical_kind(), Some(LexicalError::MalformedNumber));
}

#[test]
fn block_string_is_dedented() {
    let src = b"{ f(a: \"\"\"\n  hello\n    world\n\"\"\") }";
    let doc = parse_query(src).expect("parses");
    match &doc.definitions[0] {
        Definition::Operation(OperationDefinition::SelectionSet(set)) => match &set.items[0] {
            Selection::Field(f) => {
                assert_eq!(f.arguments[0].1, Value::String(b"hello\n  world".to_vec()));
            }
            other => panic!("expected a field, got {:?}", other),
        },
        other => panic!("expected a shorthand operation, got {:?}", other),
    }
}

#[test]
fn fragments_and_spreads() {
    let src = b"query { ...f ... on T { x } }\nfragment f on U @d { y }";
    let doc = parse_query(src).expect("parses");
    assert_eq!(doc.definitions.len(), 2);
    match &doc.definitions[0] {
        Definition::Operation(OperationDefinition::Query(q)) => {
            assert!(q.name.is_none());
            assert_eq!(q.selection_set.items.len(), 2);
            match &q.selection_set.items[0] {
                Selection::FragmentSpread(s) => assert_eq!(s.fragment_name.text(src), b"f"),
                other => panic!("expected a spread, got {:?}", other),
            }
            match &q.selection_set.items[1] {
                Selection::InlineFragment(frag) => {
                    assert!(frag.type_condition.is_some());
                    assert_eq!(frag.selection_set.items.len(), 1);
                }
                other => panic!("expected an inline fragment, got {:?}", other),
            }
        }
        other => panic!("expected a query, got {:?}", other),
    }
    match &doc.definitions[1] {
        Definition::Fragment(f) => {
            assert_eq!(f.name.text(src), b"f");
            assert_eq!(f.directives.len(), 1);
        }
        other => panic!("expected a fragment, got {:?}", other),
    }
}

#[test]
fn syntax_error_is_positioned_and_syntactic() {
    let e = parse_query(b"{ a(b }").unwrap_err();
    assert!(e.is_syntactic());
    assert_eq!(e.position().line, 1);
    assert_eq!(e.position().column, 7);
}

#[test]
fn format_shorthand_query() {
    let src = b"{ a b }";
    let doc = parse_query(src).expect("parses");
    let out = doc.format(src, &Style::default());
    assert_eq!(out, b"{\n  a\n  b\n}\n".to_vec());
}

fn render_fixpoint(src: &[u8]) {
    let doc = parse_query(src).expect("parses");
    let once = to_string(&doc, src);
    let doc2 = parse_query(&once).expect("rendered text re-parses");
    let twice = to_string(&doc2, &once);
    assert_eq!(
        once,
        twice,
        "printing is stable: {:?}",
        String::from_utf8_lossy(src)
    );
}

#[test]
fn round_trip_documents() {
    render_fixpoint(b"{ a b }");
    render_fixpoint(b"query Q($v: [Int!]! = [1, 2]) @d(x: 1) { f(a: {k: \"s\"}) { g } }");
    render_fixpoint(b"mutation M { set(a: true, b: null) }");
    render_fixpoint(b"subscription S { watch }");
    render_fixpoint(b"{ x: f(a: -1.5e-3) ...g ... on T @d { y } }\nfragment g on T { z }");
}

#[test]
fn error_messages_render_position_and_expectations() {
    let e = parse_query(b"{ a(b }").unwrap_err();
    assert_eq!(
        String::from_utf8(e.message()).unwrap(),
        "unexpected token: expected `:` at line 1 column 7"
    );
    let e = parse_query(b"{ a(b: \"oops) }").unwrap_err();
    assert_eq!(
        String::from_utf8(e.message()).unwrap(),
        "unterminated string at line 1 column 8"
    );
}
