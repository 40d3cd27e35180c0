use variable_parser::DeclarationExpression;
use variable_parser::Expected;
use variable_parser::ParseError;
use variable_parser::Span;
use variable_parser::ToStringSettings;
use variable_parser::Token;
use variable_parser::TokenKind;
use variable_parser::TokenStream;
use variable_parser::VariableStatement;

fn tok(kind: TokenKind, start: u32, end: u32) -> Token {
    Token {
        kind,
        span: Span { start, end },
    }
}

fn ident(text: &str, start: u32, end: u32) -> Token {
    tok(TokenKind::Ident(text.to_string()), start, end)
}

fn lit(text: &str, start: u32, end: u32) -> Token {
    tok(TokenKind::Literal(text.to_string()), start, end)
}

fn render(st: &VariableStatement, settings: &ToStringSettings) -> String {
    let mut buf = String::new();
    st.to_string_from_buffer(&mut buf, settings, 0);
    buf
}

/// Token stream for `let x = 1, y = 2`.
fn let_x_1_y_2() -> Vec<Token> {
    vec![
        tok(TokenKind::Let, 0, 3),
        ident("x", 4, 5),
        tok(TokenKind::Assign, 6, 7),
        lit("1", 8, 9),
        tok(TokenKind::Comma, 9, 10),
        ident("y", 11, 12),
        tok(TokenKind::Assign, 13, 14),
        lit("2", 15, 16),
    ]
}

#[test]
fn round_trip_pretty() {
    let mut reader = TokenStream::new(let_x_1_y_2());
    let st = VariableStatement::from_reader(&mut reader).unwrap();
    match &st {
        VariableStatement::LetDeclaration { declarations, .. } => {
            assert_eq!(declarations.len(), 2);
            assert_eq!(declarations[0].name.name, "x");
            assert_eq!(declarations[0].expression.as_ref().unwrap().text, "1");
            assert_eq!(declarations[1].name.name, "y");
            assert_eq!(declarations[1].expression.as_ref().unwrap().text, "2");
        }
        _ => panic!("expected a let statement"),
    }
    assert_eq!(render(&st, &ToStringSettings::default()), "let x = 1, y = 2");
}

#[test]
fn compact_mode() {
    let mut reader = TokenStream::new(let_x_1_y_2());
    let st = VariableStatement::from_reader(&mut reader).unwrap();
    let compact = ToStringSettings {
        pretty: false,
        include_types: true,
    };
    assert_eq!(render(&st, &compact), "let x=1,y=2");
}

#[test]
fn const_without_initializer_fails_naming_assign() {
    // `const x` with nothing following
    let tokens = vec![tok(TokenKind::Const, 0, 5), ident("x", 6, 7)];
    let mut reader = TokenStream::new(tokens);
    let err = VariableStatement::from_reader(&mut reader).unwrap_err();
    assert_eq!(
        err,
        ParseError::UnexpectedEnd {
            expected: Expected::Assign
        }
    );
}

#[test]
fn const_with_wrong_token_fails_naming_assign() {
    // `const x 5`
    let tokens = vec![tok(TokenKind::Const, 0, 5), ident("x", 6, 7), lit("5", 8, 9)];
    let mut reader = TokenStream::new(tokens);
    let err = VariableStatement::from_reader(&mut reader).unwrap_err();
    assert_eq!(
        err,
        ParseError::UnexpectedToken {
            expected: Expected::Assign,
            found: lit("5", 8, 9),
        }
    );
}

#[test]
fn const_with_initializer_parses() {
    // `const x = 5`, with nothing following the last declaration
    let tokens = vec![
        tok(TokenKind::Const, 0, 5),
        ident("x", 6, 7),
        tok(TokenKind::Assign, 8, 9),
        lit("5", 10, 11),
    ];
    let mut reader = TokenStream::new(tokens);
    let st = VariableStatement::from_reader(&mut reader).unwrap();
    match &st {
        VariableStatement::ConstDeclaration { declarations, .. } => {
            assert_eq!(declarations.len(), 1);
            assert_eq!(declarations[0].expression.text, "5");
        }
        _ => panic!("expected a const statement"),
    }
    assert_eq!(render(&st, &ToStringSettings::default()), "const x = 5");
}

#[test]
fn let_tolerates_absent_initializer() {
    // `let x`
    let tokens = vec![tok(TokenKind::Let, 0, 3), ident("x", 4, 5)];
    let mut reader = TokenStream::new(tokens);
    let st = VariableStatement::from_reader(&mut reader).unwrap();
    match &st {
        VariableStatement::LetDeclaration { declarations, .. } => {
            assert_eq!(declarations.len(), 1);
            assert!(declarations[0].expression.is_none());
        }
        _ => panic!("expected a let statement"),
    }
    assert_eq!(render(&st, &ToStringSettings::default()), "let x");
}

/// Token stream for `let x: number`, plus `= 1` when asked.
fn let_x_number(with_init: bool) -> Vec<Token> {
    let mut tokens = vec![
        tok(TokenKind::Let, 0, 3),
        ident("x", 4, 5),
        tok(TokenKind::Colon, 5, 6),
        ident("number", 7, 13),
    ];
    if with_init {
        tokens.push(tok(TokenKind::Assign, 14, 15));
        tokens.push(lit("1", 16, 17));
    }
    tokens
}

#[test]
fn type_annotation_without_initializer_round_trips() {
    let mut reader = TokenStream::new(let_x_number(false));
    let st = VariableStatement::from_reader(&mut reader).unwrap();
    assert_eq!(render(&st, &ToStringSettings::default()), "let x: number");
}

#[test]
fn type_annotation_with_initializer_round_trips() {
    let mut reader = TokenStream::new(let_x_number(true));
    let st = VariableStatement::from_reader(&mut reader).unwrap();
    assert_eq!(render(&st, &ToStringSettings::default()), "let x: number = 1");
}

#[test]
fn type_annotation_can_be_hidden() {
    let mut reader = TokenStream::new(let_x_number(true));
    let st = VariableStatement::from_reader(&mut reader).unwrap();
    let no_types = ToStringSettings {
        pretty: true,
        include_types: false,
    };
    assert_eq!(render(&st, &no_types), "let x = 1");
}

/// Token stream for `var a, b, c = 3`.
fn var_a_b_c_3() -> Vec<Token> {
    vec![
        tok(TokenKind::Var, 0, 3),
        ident("a", 4, 5),
        tok(TokenKind::Comma, 5, 6),
        ident("b", 7, 8),
        tok(TokenKind::Comma, 8, 9),
        ident("c", 10, 11),
        tok(TokenKind::Assign, 12, 13),
        lit("3", 14, 15),
    ]
}

#[test]
fn multiple_declarations_and_span_union() {
    let mut reader = TokenStream::new(var_a_b_c_3());
    let st = VariableStatement::from_reader(&mut reader).unwrap();
    match &st {
        VariableStatement::VarDeclaration { declarations, .. } => {
            assert_eq!(declarations.len(), 3);
            assert!(declarations[0].expression.is_none());
            assert!(declarations[1].expression.is_none());
            assert_eq!(declarations[2].expression.as_ref().unwrap().text, "3");
        }
        _ => panic!("expected a var statement"),
    }
    assert_eq!(st.get_position(), Span { start: 0, end: 15 });
    assert_eq!(render(&st, &ToStringSettings::default()), "var a, b, c = 3");
}

#[test]
fn declaration_position_priority() {
    // initializer present: span runs from the name to the initializer
    let mut reader = TokenStream::new(let_x_number(true));
    let st = VariableStatement::from_reader(&mut reader).unwrap();
    match &st {
        VariableStatement::LetDeclaration { declarations, .. } => {
            assert_eq!(declarations[0].get_position(), Span { start: 4, end: 17 });
        }
        _ => panic!("expected a let statement"),
    }
    // no initializer: span runs from the name to the type annotation
    let mut reader = TokenStream::new(let_x_number(false));
    let st = VariableStatement::from_reader(&mut reader).unwrap();
    match &st {
        VariableStatement::LetDeclaration { declarations, .. } => {
            assert_eq!(declarations[0].get_position(), Span { start: 4, end: 13 });
        }
        _ => panic!("expected a let statement"),
    }
    // neither: the name's span alone
    let tokens = vec![tok(TokenKind::Let, 0, 3), ident("x", 4, 5)];
    let mut reader = TokenStream::new(tokens);
    let st = VariableStatement::from_reader(&mut reader).unwrap();
    match &st {
        VariableStatement::LetDeclaration { declarations, .. } => {
            assert_eq!(declarations[0].get_position(), Span { start: 4, end: 5 });
        }
        _ => panic!("expected a let statement"),
    }
}

#[test]
fn is_constant_tracks_the_keyword() {
    let mut reader = TokenStream::new(vec![
        tok(TokenKind::Const, 0, 5),
        ident("x", 6, 7),
        tok(TokenKind::Assign, 8, 9),
        lit("1", 10, 11),
    ]);
    assert!(VariableStatement::from_reader(&mut reader).unwrap().is_constant());

    let mut reader = TokenStream::new(vec![tok(TokenKind::Let, 0, 3), ident("x", 4, 5)]);
    assert!(!VariableStatement::from_reader(&mut reader).unwrap().is_constant());

    let mut reader = TokenStream::new(var_a_b_c_3());
    assert!(!VariableStatement::from_reader(&mut reader).unwrap().is_constant());
}

#[test]
fn error_locality_wrong_keyword() {
    let tokens = vec![ident("foo", 0, 3), ident("x", 4, 5)];
    let mut reader = TokenStream::new(tokens);
    let err = VariableStatement::from_reader(&mut reader).unwrap_err();
    assert_eq!(
        err,
        ParseError::UnexpectedToken {
            expected: Expected::DeclarationKeyword,
            found: ident("foo", 0, 3),
        }
    );
    // the offending token is not consumed
    assert_eq!(reader.position(), 0);
}

#[test]
fn error_locality_missing_required_assign() {
    // `const x 5`: the failing expectation is checked at the third token
    let tokens = vec![tok(TokenKind::Const, 0, 5), ident("x", 6, 7), lit("5", 8, 9)];
    let mut reader = TokenStream::new(tokens);
    assert!(VariableStatement::from_reader(&mut reader).is_err());
    assert_eq!(reader.position(), 2);
}

#[test]
fn error_locality_bad_expression() {
    // `let x = ,`: the expression parser fails on the comma
    let tokens = vec![
        tok(TokenKind::Let, 0, 3),
        ident("x", 4, 5),
        tok(TokenKind::Assign, 6, 7),
        tok(TokenKind::Comma, 8, 9),
    ];
    let mut reader = TokenStream::new(tokens);
    let err = VariableStatement::from_reader(&mut reader).unwrap_err();
    assert_eq!(
        err,
        ParseError::UnexpectedToken {
            expected: Expected::ExpressionStart,
            found: tok(TokenKind::Comma, 8, 9),
        }
    );
    assert_eq!(reader.position(), 3);
}

#[test]
fn error_locality_empty_stream() {
    let mut reader = TokenStream::new(Vec::new());
    let err = VariableStatement::from_reader(&mut reader).unwrap_err();
    assert_eq!(
        err,
        ParseError::UnexpectedEnd {
            expected: Expected::DeclarationKeyword
        }
    );
    assert_eq!(reader.position(), 0);
}

#[test]
fn dangling_name_after_comma_fails() {
    // `let x,` with nothing after the comma
    let tokens = vec![
        tok(TokenKind::Let, 0, 3),
        ident("x", 4, 5),
        tok(TokenKind::Comma, 5, 6),
    ];
    let mut reader = TokenStream::new(tokens);
    let err = VariableStatement::from_reader(&mut reader).unwrap_err();
    assert_eq!(
        err,
        ParseError::UnexpectedEnd {
            expected: Expected::VariableName
        }
    );
    assert_eq!(reader.position(), 3);
}

#[test]
fn initializer_can_be_rewritten_in_place() {
    let mut reader = TokenStream::new(let_x_1_y_2());
    let mut st = VariableStatement::from_reader(&mut reader).unwrap();
    match &mut st {
        VariableStatement::LetDeclaration { declarations, .. } => {
            let handle = declarations[0].expression.as_option_mut_expr().unwrap();
            handle.text = "42".to_string();
        }
        _ => panic!("expected a let statement"),
    }
    assert_eq!(render(&st, &ToStringSettings::default()), "let x = 42, y = 2");
}

#[test]
fn absent_initializer_yields_no_handle() {
    let tokens = vec![tok(TokenKind::Let, 0, 3), ident("x", 4, 5)];
    let mut reader = TokenStream::new(tokens);
    let mut st = VariableStatement::from_reader(&mut reader).unwrap();
    match &mut st {
        VariableStatement::LetDeclaration { declarations, .. } => {
            assert!(declarations[0].expression.as_option_mut_expr().is_none());
        }
        _ => panic!("expected a let statement"),
    }
}

#[test]
fn const_with_several_declarations() {
    // `const a = 1, b = 2`
    let tokens = vec![
        tok(TokenKind::Const, 0, 5),
        ident("a", 6, 7),
        tok(TokenKind::Assign, 8, 9),
        lit("1", 10, 11),
        tok(TokenKind::Comma, 11, 12),
        ident("b", 13, 14),
        tok(TokenKind::Assign, 15, 16),
        lit("2", 17, 18),
    ];
    let mut reader = TokenStream::new(tokens);
    let st = VariableStatement::from_reader(&mut reader).unwrap();
    match &st {
        VariableStatement::ConstDeclaration { declarations, .. } => {
            assert_eq!(declarations.len(), 2);
            assert_eq!(declarations[0].expression.text, "1");
            assert_eq!(declarations[1].expression.text, "2");
        }
        _ => panic!("expected a const statement"),
    }
    assert_eq!(st.get_position(), Span { start: 0, end: 18 });
    assert_eq!(render(&st, &ToStringSettings::default()), "const a = 1, b = 2");
}

#[test]
fn truncated_type_annotation_fails() {
    // `let x:` with nothing after the colon
    let tokens = vec![
        tok(TokenKind::Let, 0, 3),
        ident("x", 4, 5),
        tok(TokenKind::Colon, 5, 6),
    ];
    let mut reader = TokenStream::new(tokens);
    let err = VariableStatement::from_reader(&mut reader).unwrap_err();
    assert_eq!(
        err,
        ParseError::UnexpectedEnd {
            expected: Expected::TypeName
        }
    );
    assert_eq!(reader.position(), 3);
}

#[test]
fn trailing_tokens_are_left_for_the_caller() {
    // `let x = 1 let` — the second `let` belongs to a following statement
    let tokens = vec![
        tok(TokenKind::Let, 0, 3),
        ident("x", 4, 5),
        tok(TokenKind::Assign, 6, 7),
        lit("1", 8, 9),
        tok(TokenKind::Let, 10, 13),
    ];
    let mut reader = TokenStream::new(tokens);
    let st = VariableStatement::from_reader(&mut reader).unwrap();
    assert_eq!(render(&st, &ToStringSettings::default()), "let x = 1");
    assert_eq!(reader.position(), 4);
}
