use arvoc::ast::{BinaryOperatorExpr, Expr, LiteralExpr, Operator};
use arvoc::lexer::{Span, Token};
use arvoc::parser::Parser;

#[test]
fn parse_literal_bool_expr() {
    assert_eq!(
        Parser::new(vec![
            Token::Bool(true, Span::new("", 1, 1, 1, 4))
        ]).parse_literal_bool_expr(),
        LiteralExpr::Bool(true, Span::new("", 1, 1, 1, 4))
    );
}

#[test]
fn parse_literal_char_expr() {
    assert_eq!(
        Parser::new(vec![
            Token::Char('ҧ', Span::new("", 1, 1, 1, 3))
        ]).parse_literal_char_expr(),
        LiteralExpr::Char('ҧ', Span::new("", 1, 1, 1, 3))
    );
}

#[test]
fn parse_literal_float_expr() {
    assert_eq!(
        Parser::new(vec![
            Token::Float("3.14".to_string(), Span::new("", 1, 1, 1, 4))
        ]).parse_literal_float_expr(),
        LiteralExpr::Float("3.14".to_string(), Span::new("", 1, 1, 1, 4))
    );
}

#[test]
fn parse_literal_int_expr() {
    assert_eq!(
        Parser::new(vec![
            Token::Int(42, Span::new("", 1, 1, 1, 4))
        ]).parse_literal_int_expr(),
        LiteralExpr::Int(42, Span::new("", 1, 1, 1, 4))
    );
}

#[test]
fn parse_literal_str_expr() {
    assert_eq!(
        Parser::new(vec![
            Token::Str("你好".to_string(), Span::new("", 1, 1, 1, 6))
        ]).parse_literal_str_expr(),
        LiteralExpr::Str("你好".to_string(), Span::new("", 1, 1, 1, 6))
    );
}

fn int_literal(value: i64, column: usize) -> Expr {
    Expr::from(LiteralExpr::Int(value, Span::new("", 1, column, 1, column)))
}

fn binary(operator: Operator, lhs: Expr, rhs: Expr, begin: usize, end: usize) -> Expr {
    Expr::from(BinaryOperatorExpr::new(operator, lhs, rhs, Span::new("", 1, begin, 1, end)))
}

#[test]
fn parse_binary_operator_expr() {
    assert_eq!(
        Parser::new(vec![
            Token::Int(1, Span::new("", 1, 1, 1, 1)),
            Token::Add(Span::new("", 1, 2, 1, 2)),
            Token::Int(2, Span::new("", 1, 3, 1, 3)),
        ]).parse_expr(),
        Some(binary(Operator::Add(Span::new("", 1, 2, 1, 2)), int_literal(1, 1), int_literal(2, 3), 1, 3))
    );
}

#[test]
fn parse_binary_operator_expr_with_precedence() {
    assert_eq!(
        Parser::new(vec![
            Token::Int(1, Span::new("", 1, 1, 1, 1)),
            Token::Mul(Span::new("", 1, 2, 1, 2)),
            Token::Int(2, Span::new("", 1, 3, 1, 3)),
            Token::Add(Span::new("", 1, 4, 1, 4)),
            Token::Int(3, Span::new("", 1, 5, 1, 5)),
        ]).parse_expr(),
        Some(binary(
            Operator::Add(Span::new("", 1, 4, 1, 4)),
            binary(Operator::Mul(Span::new("", 1, 2, 1, 2)), int_literal(1, 1), int_literal(2, 3), 1, 3),
            int_literal(3, 5),
            1,
            5,
        ))
    );
    assert_eq!(
        Parser::new(vec![
            Token::Int(1, Span::new("", 1, 1, 1, 1)),
            Token::Add(Span::new("", 1, 2, 1, 2)),
            Token::Int(2, Span::new("", 1, 3, 1, 3)),
            Token::Mul(Span::new("", 1, 4, 1, 4)),
            Token::Int(3, Span::new("", 1, 5, 1, 5)),
        ]).parse_expr(),
        Some(binary(
            Operator::Add(Span::new("", 1, 2, 1, 2)),
            int_literal(1, 1),
            binary(Operator::Mul(Span::new("", 1, 4, 1, 4)), int_literal(2, 3), int_literal(3, 5), 3, 5),
            1,
            5,
        ))
    );
    assert_eq!(
        Parser::new(vec![
            Token::Int(1, Span::new("", 1, 1, 1, 1)),
            Token::Mul(Span::new("", 1, 2, 1, 2)),
            Token::Int(2, Span::new("", 1, 3, 1, 3)),
            Token::Add(Span::new("", 1, 4, 1, 4)),
            Token::Int(3, Span::new("", 1, 5, 1, 5)),
            Token::Mul(Span::new("", 1, 6, 1, 6)),
            Token::Int(4, Span::new("", 1, 7, 1, 7)),
        ]).parse_expr(),
        Some(binary(
            Operator::Add(Span::new("", 1, 4, 1, 4)),
            binary(Operator::Mul(Span::new("", 1, 2, 1, 2)), int_literal(1, 1), int_literal(2, 3), 1, 3),
            binary(Operator::Mul(Span::new("", 1, 6, 1, 6)), int_literal(3, 5), int_literal(4, 7), 5, 7),
            1,
            7,
        ))
    );
}

#[test]
fn token_that_is_no_operator_ends_the_expression() {
    let mut parser = Parser::new(vec![
        Token::Int(1, Span::new("", 1, 1, 1, 1)),
        Token::Comma(Span::new("", 1, 2, 1, 2)),
    ]);
    assert_eq!(parser.parse_expr(), Some(int_literal(1, 1)));
    assert_eq!(parser.errors().len(), 1);
    assert_eq!(parser.errors()[0].message(), "Unexpect token ,");
    assert_eq!(parser.errors()[0].span(), &Span::new("", 1, 2, 1, 2));
    assert_eq!(parser.errors()[0].to_string(), "1:2: Unexpect token ,");
    // the token was not consumed
    assert_eq!(parser.current_token(), Some(Token::Comma(Span::new("", 1, 2, 1, 2))));
}

#[test]
fn expression_in_parentheses() {
    let mut parser = Parser::new(vec![
        Token::ParenL(Span::new("", 1, 1, 1, 1)),
        Token::Int(1, Span::new("", 1, 2, 1, 2)),
        Token::Add(Span::new("", 1, 3, 1, 3)),
        Token::Int(2, Span::new("", 1, 4, 1, 4)),
        Token::ParenR(Span::new("", 1, 5, 1, 5)),
    ]);
    assert_eq!(
        parser.parse_expr(),
        Some(binary(Operator::Add(Span::new("", 1, 3, 1, 3)), int_literal(1, 2), int_literal(2, 4), 2, 4))
    );
    // the closing parenthesis is first met where an operator could stand
    assert_eq!(parser.errors().len(), 1);
    assert_eq!(parser.errors()[0].message(), "Unexpect token )");
    assert_eq!(parser.current_token(), None);
    assert_eq!(parser.peek_token(0), None);
}

#[test]
fn missing_operand_is_an_error() {
    let mut parser = Parser::new(vec![
        Token::Int(1, Span::new("", 1, 1, 1, 1)),
        Token::Add(Span::new("", 1, 2, 1, 2)),
    ]);
    assert_eq!(parser.parse_expr(), None);
    assert_eq!(parser.errors().len(), 1);
    assert_eq!(parser.errors()[0].message(), "Unexpected end of input");
    let mut empty = Parser::new(Vec::new());
    assert_eq!(empty.parse_expr(), None);
    assert_eq!(empty.errors().len(), 1);
    let mut unclosed = Parser::new(vec![
        Token::ParenL(Span::new("", 1, 1, 1, 1)),
        Token::Bool(true, Span::new("", 1, 2, 1, 5)),
    ]);
    assert_eq!(unclosed.parse_expr(), None);
    assert_eq!(unclosed.errors().len(), 1);
}

#[test]
fn peek_and_next() {
    let mut parser = Parser::new(vec![
        Token::Int(1, Span::new("", 1, 1, 1, 1)),
        Token::Int(2, Span::new("", 1, 2, 1, 2)),
    ]);
    assert_eq!(parser.peek_token(1), Some(Token::Int(2, Span::new("", 1, 2, 1, 2))));
    assert_eq!(parser.peek_token(2), None);
    assert_eq!(parser.peek_token(usize::MAX), None);
    parser.next_token();
    assert_eq!(parser.current_token(), Some(Token::Int(2, Span::new("", 1, 2, 1, 2))));
    parser.next_token();
    parser.next_token();
    assert_eq!(parser.current_token(), None);
}
