use variable_parser::Expected;
use variable_parser::ParseError;
use variable_parser::Span;
use variable_parser::Token;
use variable_parser::TokenKind;
use variable_parser::TokenTag;
use variable_parser::VariableKeyword;

#[test]
fn span_union_covers_both_ranges() {
    let a = Span { start: 4, end: 9 };
    let b = Span { start: 12, end: 20 };
    assert_eq!(a.union(&b), Span { start: 4, end: 20 });
    assert_eq!(b.union(&a), Span { start: 4, end: 20 });
    // overlapping and nested ranges
    let c = Span { start: 6, end: 14 };
    assert_eq!(a.union(&c), Span { start: 4, end: 14 });
    let inner = Span { start: 5, end: 7 };
    assert_eq!(a.union(&inner), a);
    // a span joined with itself is itself
    assert_eq!(a.union(&a), a);
}

#[test]
fn keyword_predicate_accepts_exactly_the_three_keywords() {
    assert!(VariableKeyword::is_token_variable_keyword(&TokenKind::Const));
    assert!(VariableKeyword::is_token_variable_keyword(&TokenKind::Let));
    assert!(VariableKeyword::is_token_variable_keyword(&TokenKind::Var));
    assert!(!VariableKeyword::is_token_variable_keyword(&TokenKind::Colon));
    assert!(!VariableKeyword::is_token_variable_keyword(&TokenKind::Assign));
    assert!(!VariableKeyword::is_token_variable_keyword(&TokenKind::Comma));
    assert!(!VariableKeyword::is_token_variable_keyword(&TokenKind::Ident(
        "const".to_string()
    )));
    assert!(!VariableKeyword::is_token_variable_keyword(&TokenKind::Literal(
        "1".to_string()
    )));
}

#[test]
fn keyword_from_reader_keeps_the_span() {
    let span = Span { start: 3, end: 8 };
    let kw = VariableKeyword::from_reader(Token {
        kind: TokenKind::Const,
        span,
    })
    .unwrap();
    assert_eq!(kw, VariableKeyword::Const(span));
    assert_eq!(*kw.get_position(), span);

    let kw = VariableKeyword::from_reader(Token {
        kind: TokenKind::Let,
        span,
    })
    .unwrap();
    assert_eq!(kw, VariableKeyword::Let(span));

    let kw = VariableKeyword::from_reader(Token {
        kind: TokenKind::Var,
        span,
    })
    .unwrap();
    assert_eq!(kw, VariableKeyword::Var(span));
}

#[test]
fn keyword_from_reader_rejects_other_tokens() {
    let found = Token {
        kind: TokenKind::Ident("foo".to_string()),
        span: Span { start: 0, end: 3 },
    };
    let err = VariableKeyword::from_reader(Token {
        kind: TokenKind::Ident("foo".to_string()),
        span: Span { start: 0, end: 3 },
    })
    .unwrap_err();
    assert_eq!(
        err,
        ParseError::UnexpectedToken {
            expected: Expected::DeclarationKeyword,
            found,
        }
    );
}

#[test]
fn keyword_text_has_a_trailing_space() {
    let span = Span { start: 0, end: 0 };
    assert_eq!(VariableKeyword::Const(span).as_str(), "const ");
    assert_eq!(VariableKeyword::Let(span).as_str(), "let ");
    assert_eq!(VariableKeyword::Var(span).as_str(), "var ");
}

#[test]
fn expected_kinds_list_each_position() {
    assert_eq!(
        Expected::DeclarationKeyword.kinds(),
        vec![TokenTag::Const, TokenTag::Let, TokenTag::Var]
    );
    assert_eq!(Expected::Assign.kinds(), vec![TokenTag::Assign]);
    assert_eq!(Expected::VariableName.kinds(), vec![TokenTag::Ident]);
    assert_eq!(Expected::TypeName.kinds(), vec![TokenTag::Ident]);
    assert_eq!(
        Expected::ExpressionStart.kinds(),
        vec![TokenTag::Ident, TokenTag::Literal]
    );
}
