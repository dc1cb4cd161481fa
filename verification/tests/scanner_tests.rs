use wrig::literal_type::Lit;
use wrig::scanner::Scanner;
use wrig::scanner::ScannerError;
use wrig::token::Tok;
use wrig::token_type::TokType;

fn num(x: f64) -> Lit {
    Lit::Number(x.to_bits())
}

#[test]
fn scanner_should_scan_with_token_combo() {
    let source = r#"
        (( )) {{ }} , . - +
        ; * / ! = < > 1 10
        200 3000 ident ident2
        "#;

    let mut scanner = Scanner::new(source);

    scanner.scan_tokens().unwrap();

    assert_eq!(scanner.tokens.len(), 26);
    assert_eq!(scanner.line, 5);
}

#[test]
fn should_ignore_comments() {
    let source_with_comments = r#"
        (( )) {{ }} , . - +
        ; * / ! = < > 1 10
        200 3000 ident ident2
        // This comment should be ignored
        /*
            This multiline comment should be ignored.
        */
        "#;

    let source_without_comments = r#"
        (( )) {{ }} , . - +
        ; * / ! = < > 1 10
        200 3000 ident ident2
        "#;

    let mut scanner_comments = Scanner::new(source_with_comments);
    let mut scanner_no_comments = Scanner::new(source_without_comments);

    scanner_comments.scan_tokens().ok();
    scanner_no_comments.scan_tokens().ok();

    assert_eq!(
        scanner_comments.tokens.len(),
        scanner_no_comments.tokens.len()
    )
}

#[test]
fn scanner_should_increment_line_on_crlf() {
    let source = "\r\n".repeat(3);
    let mut scanner = Scanner::new(source.as_ref());

    scanner.scan_tokens().unwrap();

    assert_eq!(scanner.line, 4);
}

#[test]
fn scanner_should_increment_line_on_lf() {
    let source = "\n".repeat(3);
    let mut scanner = Scanner::new(source.as_ref());

    scanner.scan_tokens().unwrap();

    assert_eq!(scanner.line, 4);
}

#[test]
fn scanner_should_match_combo_tokens() {
    let source = "!= <= 60 >= == 123.45";
    let mut scanner = Scanner::new(source);

    scanner.scan_tokens().unwrap();

    assert_eq!(scanner.tokens.len(), 7);
    assert_eq!(scanner.line, 1);
}

#[test]
fn scanner_should_match_string_literal() {
    let source = "\"hey\"";
    let mut scanner = Scanner::new(source);

    scanner.scan_tokens().unwrap();

    assert_eq!(
        scanner.tokens[0].literal,
        Some(Lit::String("hey".to_string()))
    );
}

#[test]
fn scanner_should_match_string_literal_with_other_chars() {
    let source = "\"hey, time to be happy! :)\"";
    let mut scanner = Scanner::new(source);

    scanner.scan_tokens().unwrap();

    assert_eq!(
        scanner.tokens[0].literal,
        Some(Lit::String("hey, time to be happy! :)".to_string()))
    );
}

#[test]
fn scanner_should_match_string_literal_wrapped_by_chars() {
    let source = "(\"hey, time to be happy! q:)|=<; \")";
    let mut scanner = Scanner::new(source);

    scanner.scan_tokens().unwrap();

    assert_eq!(
        scanner.tokens[1].literal,
        Some(Lit::String("hey, time to be happy! q:)|=<; ".to_string())),
    );
}

#[test]
fn scanner_should_match_number() {
    let source = "100";
    let mut scanner = Scanner::new(source);

    scanner.scan_tokens().unwrap();

    assert_eq!(scanner.tokens[0].literal, Some(num(100.0)));
}

#[test]
fn scanner_should_match_float_number() {
    let source = "10.1;";
    let mut scanner = Scanner::new(source);

    scanner.scan_tokens().unwrap();

    assert_eq!(scanner.tokens[0].literal, Some(num(10.1)));
}

#[test]
fn scanner_should_match_identifier() {
    let source = "rando identifier";
    let mut scanner = Scanner::new(source);

    scanner.scan_tokens().unwrap();

    assert_eq!(scanner.tokens[0].token_type, TokType::Identifier);
    assert_eq!(scanner.tokens[1].token_type, TokType::Identifier);
}

#[test]
fn scanner_should_match_embedded_identifier() {
    let source = "rando = identifier + 1";
    let mut scanner = Scanner::new(source);

    scanner.scan_tokens().unwrap();

    assert_eq!(scanner.tokens[0].token_type, TokType::Identifier);
    assert_eq!(scanner.tokens[2].token_type, TokType::Identifier);
}

#[test]
fn scanner_should_match_token_type_from_hash() {
    let source = "var wow = 1 + 1";
    let mut scanner = Scanner::new(source);

    scanner.scan_tokens().unwrap();

    assert_eq!(scanner.tokens[0].token_type, TokType::Var);
    assert_eq!(scanner.tokens[1].token_type, TokType::Identifier);
}

#[test]
fn should_have_one_eof_token_on_empty_input() {
    let source = "";
    let mut scanner = Scanner::new(source);

    scanner.scan_tokens().unwrap();

    assert_eq!(scanner.tokens.len(), 1);
    assert_eq!(
        scanner.tokens[0],
        Tok {
            lexeme: "".into(),
            line: 1,
            literal: None,
            token_type: TokType::Eof
        }
    )
}

#[test]
fn should_have_one_eof_token_on_whitespace_input() {
    let source = " ";
    let mut scanner = Scanner::new(source);

    scanner.scan_tokens().unwrap();

    assert_eq!(scanner.tokens.len(), 1);
    assert_eq!(
        scanner.tokens[0],
        Tok {
            lexeme: "".into(),
            line: 1,
            literal: None,
            token_type: TokType::Eof
        }
    )
}

#[test]
fn should_handle_invalid_tokens() {
    let source = "\u{a3}";
    let mut scanner = Scanner::new(source);

    let result = scanner.scan_tokens();

    assert!(matches!(result, Err(ScannerError::UnknownToken(_))));
}

#[test]
fn should_scan_with_eof() {
    let source = "(";
    let mut scanner = Scanner::new(source);

    scanner.scan_tokens().ok();

    assert_eq!(scanner.tokens.len(), 2);
    assert_eq!(scanner.tokens[1].token_type, TokType::Eof)
}

#[test]
fn should_scan_keywords_to_their_kinds() {
    let source = "and class else false for fun if nil or print return super this true var while";
    let mut scanner = Scanner::new(source);

    scanner.scan_tokens().unwrap();

    let kinds: Vec<TokType> = scanner.tokens.iter().map(|t| t.token_type).collect();
    assert_eq!(
        kinds,
        vec![
            TokType::And,
            TokType::Class,
            TokType::Else,
            TokType::False,
            TokType::For,
            TokType::Fun,
            TokType::If,
            TokType::Nil,
            TokType::Or,
            TokType::Print,
            TokType::Return,
            TokType::Super,
            TokType::This,
            TokType::True,
            TokType::Var,
            TokType::While,
            TokType::Eof,
        ]
    );
}

#[test]
fn should_emit_bare_operators_without_equals_lookahead() {
    let source = "! = < >";
    let mut scanner = Scanner::new(source);

    scanner.scan_tokens().unwrap();

    let kinds: Vec<TokType> = scanner.tokens.iter().map(|t| t.token_type).collect();
    assert_eq!(
        kinds,
        vec![
            TokType::Bang,
            TokType::Equal,
            TokType::Less,
            TokType::Greater,
            TokType::Eof,
        ]
    );
}

#[test]
fn should_report_unterminated_string_at_its_starting_line() {
    let source = "\n\"abc";
    let mut scanner = Scanner::new(source);

    let result = scanner.scan_tokens();

    match result {
        Err(ScannerError::UnterminatedString(location)) => assert_eq!(location.line, 2),
        other => panic!("expected an unterminated string, got {:?}", other),
    }
}

#[test]
fn should_count_lines_inside_strings_and_block_comments() {
    let source = "\"a\nb\" /* c\nd */ 1";
    let mut scanner = Scanner::new(source);

    scanner.scan_tokens().unwrap();

    assert_eq!(scanner.line, 3);
    assert_eq!(scanner.tokens[0].literal, Some(Lit::String("a\nb".to_string())));
    assert_eq!(scanner.tokens[1].literal, Some(num(1.0)));
}
