use arvoc::lexer::scan::{kind_of_name, parse_char, parse_int, LexErr, TOKEN_PATTERN};
use arvoc::lexer::{Position, Precedence, Span, Spanned, Token, TokenKind};
use arvoc::text::{decimal, decimal_usize, int_to_text};

#[test]
fn decimal_texts() {
    assert_eq!(decimal(0), "0");
    assert_eq!(decimal(7), "7");
    assert_eq!(decimal(10), "10");
    assert_eq!(decimal(1234567890), "1234567890");
    assert_eq!(decimal(u64::MAX), "18446744073709551615");
    assert_eq!(decimal_usize(42), "42");
    assert_eq!(int_to_text(0), "0");
    assert_eq!(int_to_text(-1), "-1");
    assert_eq!(int_to_text(i64::MAX), "9223372036854775807");
    assert_eq!(int_to_text(i64::MIN), "-9223372036854775808");
}

#[test]
fn integers_are_parsed_or_refused() {
    assert_eq!(parse_int("0"), Some(0));
    assert_eq!(parse_int("007"), Some(7));
    assert_eq!(parse_int("9223372036854775807"), Some(i64::MAX));
    assert_eq!(parse_int("9223372036854775808"), None);
    assert_eq!(parse_int("99999999999999999999999"), None);
    assert_eq!(parse_int(""), None);
    assert_eq!(parse_int("12a"), None);
    assert_eq!(parse_int("-1"), None);
}

#[test]
fn characters_are_decoded() {
    assert_eq!(parse_char("a"), Some('a'));
    assert_eq!(parse_char("ä"), Some('ä'));
    assert_eq!(parse_char("\\u00E4"), Some('ä'));
    assert_eq!(parse_char("\\u0041"), Some('A'));
    assert_eq!(parse_char("\\'"), Some('\\'));
    // lower case digits make no escape
    assert_eq!(parse_char("\\u00e4"), Some('\\'));
    // a surrogate is no character
    assert_eq!(parse_char("\\uD800"), None);
    assert_eq!(parse_char(""), None);
}

#[test]
fn kinds_by_group_name() {
    assert_eq!(kind_of_name(&"As".to_string()), Some(TokenKind::As));
    assert_eq!(kind_of_name(&"Comment".to_string()), Some(TokenKind::Comment));
    assert_eq!(kind_of_name(&"WhitespaceNewline".to_string()), Some(TokenKind::WhitespaceNewline));
    assert_eq!(kind_of_name(&"NotEqual".to_string()), None);
    assert_eq!(kind_of_name(&"as".to_string()), None);
    assert!(TOKEN_PATTERN.starts_with("(?P<As>as)|"));
    assert!(TOKEN_PATTERN.ends_with("|(.)"));
}

#[test]
fn unexpected_text_is_an_error() {
    match Token::tokenise("f.arvo", "1 # 2") {
        Err(LexErr::Unexpected { text, span }) => {
            assert_eq!(text, "#");
            assert_eq!(span, Span::new("f.arvo", 1, 3, 1, 3));
        }
        other => panic!("expected an error, found {:?}", other),
    }
    // the pattern knows the text, but the tokens do not
    assert!(matches!(Token::tokenise("", "1 != 2"), Err(LexErr::Unexpected { .. })));
}

#[test]
fn integer_out_of_range_is_an_error() {
    match Token::tokenise("", "99999999999999999999") {
        Err(LexErr::Malformed { text, span }) => {
            assert_eq!(text, "99999999999999999999");
            assert_eq!(span, Span::new("", 1, 1, 1, 20));
        }
        other => panic!("expected an error, found {:?}", other),
    }
}

#[test]
fn empty_text_has_no_tokens() {
    assert_eq!(Token::tokenise("", ""), Ok(Vec::new()));
    assert_eq!(Token::tokenise("", "  \t "), Ok(Vec::new()));
}

#[test]
fn lines_and_columns_count_from_one() {
    assert_eq!(
        Token::tokenise("x", "a\n\nb"),
        Ok(vec![
            Token::Ident("a".to_string(), Span::new("x", 1, 1, 1, 1)),
            Token::WhitespaceNewline(Span::new("x", 1, 2, 1, 2)),
            Token::WhitespaceNewline(Span::new("x", 2, 1, 2, 1)),
            Token::Ident("b".to_string(), Span::new("x", 3, 1, 3, 1)),
        ])
    );
}

#[test]
fn from_captures_reads_the_first_named_group() {
    let found = vec![
        vec![
            (None, Some("42".to_string())),
            (Some("Bool".to_string()), None),
            (Some("Int".to_string()), Some("42".to_string())),
        ],
        vec![(None, Some(" ".to_string())), (Some("Whitespace".to_string()), Some(" ".to_string()))],
        vec![(None, Some("?".to_string()))],
    ];
    match Token::from_captures("", &found) {
        Err(LexErr::Unexpected { text, span }) => {
            assert_eq!(text, "?");
            assert_eq!(span, Span::new("", 1, 4, 1, 4));
        }
        other => panic!("expected an error, found {:?}", other),
    }
    assert_eq!(
        Token::from_captures("", &found[..2].to_vec()),
        Ok(vec![Token::Int(42, Span::new("", 1, 1, 1, 2))])
    );
}

#[test]
fn precedences() {
    assert_eq!(Precedence::lowest(), Precedence::new(0));
    assert_eq!(Precedence::highest(), Precedence::new(255));
    assert_eq!(Precedence::new(3).next(), Precedence::new(4));
    assert_eq!(Precedence::new(3).value(), 3);
    assert!(Precedence::new(4) < Precedence::new(5));
    let s = Span::new("", 1, 1, 1, 1);
    assert_eq!(Token::Or(s.clone()).precedence(), Precedence::new(1));
    assert_eq!(Token::And(s.clone()).precedence(), Precedence::new(2));
    assert_eq!(Token::NotEqual(s.clone()).precedence(), Precedence::new(3));
    assert_eq!(Token::Sub(s.clone()).precedence(), Precedence::new(4));
    assert_eq!(Token::Div(s.clone()).precedence(), Precedence::new(5));
    assert_eq!(Token::Ident("x".to_string(), s.clone()).precedence(), Precedence::lowest());
    assert!(Token::Whitespace(s.clone()).is_whitespace());
    assert!(Token::WhitespaceNewline(s.clone()).is_whitespace());
    assert!(!Token::Comma(s.clone()).is_whitespace());
    assert_eq!(Token::Comma(s.clone()).kind(), TokenKind::Comma);
    assert_eq!(Token::plain(TokenKind::Comma, s.clone()), Some(Token::Comma(s.clone())));
    assert_eq!(Token::plain(TokenKind::Int, s), None);
}

#[test]
fn texts_of_tokens_and_positions() {
    let s = Span::new("f.arvo", 3, 7, 3, 9);
    assert_eq!(Token::Func(s.clone()).to_string(), "fn");
    assert_eq!(Token::PushPop(s.clone()).to_string(), "<-");
    assert_eq!(Token::BraceL(s.clone()).to_string(), "{");
    assert_eq!(Token::WhitespaceNewline(s.clone()).to_string(), "\n");
    assert_eq!(Token::Char('ä', s.clone()).to_string(), "ä");
    assert_eq!(Token::Bool(false, s.clone()).to_string(), "false");
    assert_eq!(Token::Int(-12, s.clone()).to_string(), "-12");
    assert_eq!(Token::Float("3.14".to_string(), s.clone()).to_string(), "3.14");
    assert_eq!(Token::Comment(" hi".to_string(), s.clone()).to_string(), "// hi");
    assert_eq!(s.begin().to_string(), "f.arvo:3:7");
    assert_eq!(Position::new("", 3, 7).to_string(), "3:7");
    assert_eq!(s.begin().filename(), "f.arvo");
    assert_eq!(s.end().line(), 3);
    assert_eq!(s.end().column(), 9);
}

#[test]
fn spans_can_be_moved() {
    let mut t = Token::Int(1, Span::new("a", 1, 1, 1, 1));
    t.set_span_begin(Position::new("a", 2, 3));
    t.set_span_end(Position::new("a", 4, 5));
    assert_eq!(t.span(), &Span::new("a", 2, 3, 4, 5));
    *t.span_mut() = Span::new("b", 0, 0, 0, 0);
    assert_eq!(t, Token::Int(1, Span::new("b", 0, 0, 0, 0)));
    let joined = Span::new_from_positions(Position::new("a", 1, 2), Position::new("b", 3, 4));
    assert_eq!(joined.begin(), &Position::new("a", 1, 2));
    assert_eq!(joined.end(), &Position::new("b", 3, 4));
}
