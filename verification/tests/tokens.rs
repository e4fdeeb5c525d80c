use graphql_parser::position::{position_of, Pos};
use graphql_parser::tokenizer::{next_token, tokenize, Kind};

fn positions_are_monotone(src: &[u8]) {
    let ts = tokenize(src).expect("tokenizes");
    let toks = &ts.tokens;
    assert!(toks.len() >= 1);
    assert_eq!(toks[toks.len() - 1].kind, Kind::EndOfFile);
    for k in 1..toks.len() {
        let a = toks[k - 1];
        let b = toks[k];
        // positions never go backwards
        assert!(a.position.line < b.position.line
            || (a.position.line == b.position.line && a.position.column <= b.position.column));
        // byte offsets strictly increase but for the end-of-input token
        if b.kind != Kind::EndOfFile {
            assert!(a.span.start < b.span.start);
        }
    }
}

#[test]
fn token_positions_monotone_simple() {
    positions_are_monotone(b"{ a b }");
}

#[test]
fn token_positions_monotone_multiline() {
    positions_are_monotone(b"query Q {\n  a(x: 1.5, y: \"s\")\n  # comment\n  ...f\n}\n");
}

#[test]
fn end_of_input_token_is_idempotent() {
    let src = b"a";
    let (t1, c1) = next_token(src, 1).expect("eof token");
    assert_eq!(t1.kind, Kind::EndOfFile);
    assert_eq!(c1, 1);
    let (t2, c2) = next_token(src, c1).expect("eof again");
    assert_eq!(t2.kind, Kind::EndOfFile);
    assert_eq!(c2, 1);
}

#[test]
fn whitespace_commas_and_comments_are_insignificant() {
    let ts = tokenize(b" , a , # rest of line\n\tb ").expect("tokenizes");
    assert_eq!(ts.tokens.len(), 3);
    assert_eq!(ts.tokens[0].kind, Kind::Name);
    assert_eq!(ts.tokens[0].span.text(b" , a , # rest of line\n\tb "), b"a");
    assert_eq!(ts.tokens[1].kind, Kind::Name);
    assert_eq!(ts.tokens[2].kind, Kind::EndOfFile);
}

#[test]
fn punctuator_spread_is_matched_greedily() {
    let src = b"...x";
    let ts = tokenize(src).expect("tokenizes");
    assert_eq!(ts.tokens[0].kind, Kind::Punctuator);
    assert_eq!(ts.tokens[0].span.text(src), b"...");
    assert_eq!(ts.tokens[1].kind, Kind::Name);
}

#[test]
fn lone_dot_is_a_lexical_error() {
    assert!(tokenize(b"a . b").unwrap_err().is_lexical());
}

#[test]
fn number_classification() {
    let src = b"0 -7 1.5 2e3 -1.5E-2";
    let ts = tokenize(src).expect("tokenizes");
    let kinds: Vec<Kind> = ts.tokens.iter().map(|t| t.kind).collect();
    assert_eq!(
        kinds,
        vec![
            Kind::IntValue,
            Kind::IntValue,
            Kind::FloatValue,
            Kind::FloatValue,
            Kind::FloatValue,
            Kind::EndOfFile
        ]
    );
}

#[test]
fn malformed_numbers_are_lexical_errors() {
    for src in [&b"00"[..], b"01", b"1.", b"1.e3", b"5e", b"5e+", b"-", b"-x"] {
        let e = tokenize(src).unwrap_err();
        assert!(e.is_lexical(), "{:?}", src);
    }
}

#[test]
fn unterminated_block_string_is_a_lexical_error() {
    assert!(tokenize(b"\"\"\"abc\"\"").unwrap_err().is_lexical());
}

#[test]
fn invalid_escape_is_a_lexical_error() {
    assert!(tokenize(b"\"a\\q\"").unwrap_err().is_lexical());
    assert!(tokenize(b"\"a\\u12g4\"").unwrap_err().is_lexical());
}

#[test]
fn position_counts_lines_and_columns() {
    let src = b"ab\ncd\r\nef";
    assert_eq!(position_of(src, 0), Pos { line: 1, column: 1 });
    assert_eq!(position_of(src, 2), Pos { line: 1, column: 3 });
    assert_eq!(position_of(src, 3), Pos { line: 2, column: 1 });
    // the two-byte \r\n sequence advances the line once
    assert_eq!(position_of(src, 7), Pos { line: 3, column: 1 });
    assert_eq!(position_of(src, 9), Pos { line: 3, column: 3 });
}

#[test]
fn position_counts_characters_not_bytes() {
    let src = "é!".as_bytes();
    assert_eq!(src.len(), 3);
    // the two-byte character advances the column once
    assert_eq!(position_of(src, 2), Pos { line: 1, column: 2 });
    assert_eq!(position_of(src, 3), Pos { line: 1, column: 3 });
}

#[test]
fn tokens_carry_the_position_of_their_first_character() {
    let src = b"a\n  bb";
    let ts = tokenize(src).expect("tokenizes");
    assert_eq!(ts.tokens[0].position, Pos { line: 1, column: 1 });
    assert_eq!(ts.tokens[1].position, Pos { line: 2, column: 3 });
}
