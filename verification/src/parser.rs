//! # Parser
//!
//! Turns a row of tokens into an expression. Binary operators are parsed by
//! precedence climbing, the rest by recursive descent.

use vstd::prelude::*;
use crate::lexer::span::Spanned;
use vstd::string::StringExecFns;
use crate::ast::{BinaryOperatorExpr, Expr, LiteralExpr, Operator, OperatorExpr};
use crate::lexer::span::{PositionView, Span, SpanView};
use crate::lexer::token::{Token, TokenKind, Tokens};

verus! {

/// An error that the parser met: where, and what.
#[derive(Debug)]
pub struct ParserErr {
    span: Span,
    message: String,
}

/// What a `ParserErr` stands for.
pub ghost struct ParserErrView {
    pub span: SpanView,
    pub message: Seq<char>,
}

impl View for ParserErr {
    type V = ParserErrView;

    closed spec fn view(&self) -> ParserErrView {
        ParserErrView { span: self.span@, message: self.message@ }
    }
}

impl ParserErr {
    /// An error at the given place, with the given message.
    pub fn new(span: Span, message: String) -> (err: ParserErr)
        ensures
            err@ == (ParserErrView { span: span@, message: message@ }),
    {
        ParserErr { span, message }
    }

    /// Where the error was met.
    pub fn span(&self) -> (span: &Span)
        ensures
            span@ == self@.span,
    {
        &self.span
    }

    /// What the error is.
    pub fn message(&self) -> (message: &String)
        ensures
            message@ == self@.message,
    {
        &self.message
    }

    /// The text of an error: the position at which its span begins, a colon
    /// and a space, and the message.
    pub open spec fn text_of(err: ParserErrView) -> Seq<char> {
        crate::lexer::span::Position::text_of(err.span.begin) + seq![':', ' '] + err.message
    }

    /// The text of the error.
    pub fn to_string(&self) -> (text: String)
        ensures
            text@ == Self::text_of(self@),
    {
        proof {
            reveal_strlit(": ");
            assert(": "@ =~= seq![':', ' ']);
        }
        let mut text = self.span.begin().to_string();
        text.append(": ");
        text.append(self.message.as_str());
        text
    }
}

/// What a list of errors stands for.
pub open spec fn errors_view(errors: Seq<ParserErr>) -> Seq<ParserErrView> {
    errors.map_values(|e: ParserErr| e@)
}

/// The error for a token that cannot stand where it stands.
pub open spec fn unexpected(token: Token) -> ParserErrView {
    ParserErrView { span: token.span_of()@, message: "Unexpect token "@ + token.spec_text() }
}

/// The error for a row of tokens that ends too early.
pub open spec fn unexpected_end() -> ParserErrView {
    ParserErrView {
        span: SpanView {
            begin: PositionView { filename: ""@, line: 0, column: 0 },
            end: PositionView { filename: ""@, line: 0, column: 0 },
        },
        message: "Unexpected end of input"@,
    }
}

/// The binary operator that a token stands for.
pub open spec fn spec_operator(token: Token) -> Option<Operator> {
    match token {
        Token::Add(span) => Some(Operator::Add(span)),
        Token::Div(span) => Some(Operator::Div(span)),
        Token::Mul(span) => Some(Operator::Mul(span)),
        Token::Sub(span) => Some(Operator::Sub(span)),
        _ => None,
    }
}

/// The literal that a token stands for.
pub open spec fn spec_literal(token: Token) -> Option<LiteralExpr> {
    match token {
        Token::Bool(val, span) => Some(LiteralExpr::Bool(val, span)),
        Token::Char(val, span) => Some(LiteralExpr::Char(val, span)),
        Token::Float(val, span) => Some(LiteralExpr::Float(val, span)),
        Token::Int(val, span) => Some(LiteralExpr::Int(val, span)),
        Token::Str(val, span) => Some(LiteralExpr::Str(val, span)),
        _ => None,
    }
}

/// The binary expression of an operator and two operands. Its span runs
/// from the beginning of the left operand to the end of the right one.
pub open spec fn spec_binary(operator: Operator, lhs: Expr, rhs: Expr) -> Expr {
    Expr::Operator(
        Box::new(
            OperatorExpr::Binary(
                Box::new(
                    BinaryOperatorExpr {
                        operator,
                        lhs,
                        rhs,
                        span: Span::spec_from_positions(
                            lhs.span_of().spec_begin(),
                            rhs.span_of().spec_end(),
                        ),
                    },
                ),
            ),
        ),
    )
}

/// The precedence of a token as a binary operator.
pub open spec fn spec_prec(token: Token) -> u8 {
    Token::spec_precedence(token.spec_kind())
}

/// The outcome of a step of parsing: the expression, if there is one, the
/// place of the next token, and the errors met on the way.
pub ghost struct Parsed {
    pub expr: Option<Expr>,
    pub cursor: nat,
    pub errors: Seq<ParserErrView>,
}

/// The later of two places. The parser never moves back.
pub open spec fn later(a: nat, b: nat) -> nat {
    if a >= b {
        a
    } else {
        b
    }
}

/// The number of tokens from the cursor on.
pub open spec fn remaining(tokens: Seq<Token>, cursor: nat) -> nat {
    if cursor <= tokens.len() {
        (tokens.len() - cursor) as nat
    } else {
        0
    }
}

/// An expression: a unary expression, and what follows it as the right
/// part of a binary expression.
pub open spec fn spec_parse_expr(tokens: Seq<Token>, cursor: nat) -> Parsed
    decreases remaining(tokens, cursor), 3nat,
{
    let first = spec_parse_unary(tokens, cursor);
    match first.expr {
        None => first,
        Some(lhs) => {
            let rest = spec_parse_binary(tokens, later(first.cursor, cursor), lhs);
            Parsed { expr: rest.expr, cursor: rest.cursor, errors: first.errors + rest.errors }
        },
    }
}

/// What follows a left operand. At the end of the tokens the operand is
/// the expression. A token that is no binary operator is an error, and the
/// operand is the expression. Else the operator and a unary expression are
/// taken; where the token after them binds less tightly than the operator
/// the two operands are joined first and are the left operand of what
/// follows, else what follows joins the right operand first.
pub open spec fn spec_parse_binary(tokens: Seq<Token>, cursor: nat, lhs: Expr) -> Parsed
    decreases remaining(tokens, cursor), 2nat,
{
    if cursor >= tokens.len() {
        Parsed { expr: Some(lhs), cursor, errors: Seq::empty() }
    } else {
        let token = tokens[cursor as int];
        match spec_operator(token) {
            None => Parsed { expr: Some(lhs), cursor, errors: seq![unexpected(token)] },
            Some(operator) => {
                let second = spec_parse_unary(tokens, cursor + 1);
                let at = later(second.cursor, cursor + 1);
                match second.expr {
                    None => Parsed { expr: None, cursor: at, errors: second.errors },
                    Some(rhs) => {
                        if at >= tokens.len() {
                            Parsed {
                                expr: Some(spec_binary(operator, lhs, rhs)),
                                cursor: at,
                                errors: second.errors,
                            }
                        } else if spec_prec(token) > spec_prec(tokens[at as int]) {
                            let rest = spec_parse_binary(
                                tokens,
                                at,
                                spec_binary(operator, lhs, rhs),
                            );
                            Parsed {
                                expr: rest.expr,
                                cursor: rest.cursor,
                                errors: second.errors + rest.errors,
                            }
                        } else {
                            let rest = spec_parse_binary(tokens, at, rhs);
                            Parsed {
                                expr: match rest.expr {
                                    Some(e) => Some(spec_binary(operator, lhs, e)),
                                    None => None,
                                },
                                cursor: rest.cursor,
                                errors: second.errors + rest.errors,
                            }
                        }
                    },
                }
            },
        }
    }
}

/// A unary expression: an expression in parentheses, or a literal.
pub open spec fn spec_parse_unary(tokens: Seq<Token>, cursor: nat) -> Parsed
    decreases remaining(tokens, cursor), 1nat,
{
    if cursor >= tokens.len() {
        Parsed { expr: None, cursor, errors: seq![unexpected_end()] }
    } else {
        let token = tokens[cursor as int];
        if token.spec_kind() == TokenKind::ParenL {
            spec_parse_paren(tokens, cursor)
        } else {
            match spec_literal(token) {
                Some(literal) => Parsed {
                    expr: Some(Expr::Literal(Box::new(literal))),
                    cursor: cursor + 1,
                    errors: Seq::empty(),
                },
                None => Parsed { expr: None, cursor, errors: seq![unexpected(token)] },
            }
        }
    }
}

/// An expression between a left and a right parenthesis.
pub open spec fn spec_parse_paren(tokens: Seq<Token>, cursor: nat) -> Parsed
    decreases remaining(tokens, cursor), 0nat,
{
    if cursor >= tokens.len() {
        Parsed { expr: None, cursor, errors: seq![unexpected_end()] }
    } else if tokens[cursor as int].spec_kind() != TokenKind::ParenL {
        Parsed { expr: None, cursor, errors: seq![unexpected(tokens[cursor as int])] }
    } else {
        let inner = spec_parse_expr(tokens, cursor + 1);
        let at = later(inner.cursor, cursor + 1);
        match inner.expr {
            None => Parsed { expr: None, cursor: at, errors: inner.errors },
            Some(e) => {
                if at >= tokens.len() {
                    Parsed { expr: None, cursor: at, errors: inner.errors.push(unexpected_end()) }
                } else if tokens[at as int].spec_kind() != TokenKind::ParenR {
                    Parsed {
                        expr: None,
                        cursor: at,
                        errors: inner.errors.push(unexpected(tokens[at as int])),
                    }
                } else {
                    Parsed { expr: Some(e), cursor: at + 1, errors: inner.errors }
                }
            },
        }
    }
}

/// A parser over a row of tokens. It keeps the place of the current token
/// and the errors met so far.
pub struct Parser {
    token_cursor: usize,
    tokens: Tokens,
    errors: Vec<ParserErr>,
}

impl Parser {
    /// The tokens that are parsed.
    pub closed spec fn spec_tokens(&self) -> Seq<Token> {
        self.tokens@
    }

    /// The place of the current token.
    pub closed spec fn spec_cursor(&self) -> nat {
        self.token_cursor as nat
    }

    /// The errors met so far.
    pub closed spec fn spec_errors(&self) -> Seq<ParserErrView> {
        errors_view(self.errors@)
    }

    /// The current token, if the tokens have not ended.
    pub open spec fn spec_current(&self) -> Option<Token> {
        if self.spec_cursor() < self.spec_tokens().len() {
            Some(self.spec_tokens()[self.spec_cursor() as int])
        } else {
            None
        }
    }

    /// The state of a parser after a step from `before` with the given
    /// outcome: the tokens are the same, the cursor is that of the outcome
    /// and not before the old one, and the errors of the step follow the
    /// old ones.
    pub open spec fn stepped(&self, before: Parser, step: Parsed) -> bool {
        &&& self.spec_tokens() == before.spec_tokens()
        &&& self.spec_cursor() == step.cursor
        &&& self.spec_cursor() >= before.spec_cursor()
        &&& self.spec_errors() == before.spec_errors() + step.errors
    }

    /// A parser at the first of the given tokens, with no errors.
    pub fn new(tokens: Tokens) -> (parser: Parser)
        ensures
            parser.spec_tokens() == tokens@,
            parser.spec_cursor() == 0,
            parser.spec_errors() == Seq::<ParserErrView>::empty(),
    {
        let parser = Parser { token_cursor: 0, tokens, errors: Vec::new() };
        assert(parser.spec_errors() =~= Seq::<ParserErrView>::empty());
        parser
    }

    /// The errors met so far.
    pub fn errors(&self) -> (errors: &Vec<ParserErr>)
        ensures
            errors_view(errors@) == self.spec_errors(),
    {
        &self.errors
    }

    /// The token that lies `lookahead` tokens after the current one.
    pub fn peek_token(&self, lookahead: usize) -> (token: Option<Token>)
        ensures
            token == (if self.spec_cursor() + lookahead < self.spec_tokens().len() {
                Some(self.spec_tokens()[self.spec_cursor() + lookahead])
            } else {
                None
            }),
    {
        if lookahead < self.tokens.len() && self.token_cursor < self.tokens.len() - lookahead {
            Some(self.tokens[self.token_cursor + lookahead].clone())
        } else {
            None
        }
    }

    /// The current token, if the tokens have not ended.
    pub fn current_token(&self) -> (token: Option<Token>)
        ensures
            token == self.spec_current(),
    {
        if self.token_cursor < self.tokens.len() {
            Some(self.tokens[self.token_cursor].clone())
        } else {
            None
        }
    }

    /// Move to the next token. After the last token nothing moves.
    pub fn next_token(&mut self)
        ensures
            final(self).spec_tokens() == old(self).spec_tokens(),
            final(self).spec_errors() == old(self).spec_errors(),
            final(self).spec_cursor() == (if old(self).spec_cursor() < old(
                self,
            ).spec_tokens().len() {
                old(self).spec_cursor() + 1
            } else {
                old(self).spec_cursor()
            }),
    {
        if self.token_cursor < self.tokens.len() {
            self.token_cursor += 1;
        }
    }

    fn report(&mut self, err: ParserErr)
        ensures
            final(self).spec_tokens() == old(self).spec_tokens(),
            final(self).spec_cursor() == old(self).spec_cursor(),
            final(self).spec_errors() == old(self).spec_errors().push(err@),
    {
        self.errors.push(err);
        assert(self.spec_errors() =~= old(self).spec_errors().push(err@));
    }

    fn report_unexpected(&mut self, token: &Token)
        ensures
            final(self).spec_tokens() == old(self).spec_tokens(),
            final(self).spec_cursor() == old(self).spec_cursor(),
            final(self).spec_errors() == old(self).spec_errors().push(unexpected(*token)),
    {
        let mut message = "Unexpect token ".to_owned();
        message.append(token.to_string().as_str());
        self.report(ParserErr::new(token.span().clone(), message));
    }

    fn report_end(&mut self)
        ensures
            final(self).spec_tokens() == old(self).spec_tokens(),
            final(self).spec_cursor() == old(self).spec_cursor(),
            final(self).spec_errors() == old(self).spec_errors().push(unexpected_end()),
    {
        let message = "Unexpected end of input".to_owned();
        self.report(ParserErr::new(Span::new("", 0, 0, 0, 0), message));
    }

    fn binary(operator: Operator, lhs: Expr, rhs: Expr) -> (expr: Expr)
        ensures
            expr == spec_binary(operator, lhs, rhs),
    {
        let span = Span::new_from_positions(lhs.span().begin().clone(), rhs.span().end().clone());
        Expr::Operator(
            Box::new(OperatorExpr::Binary(Box::new(BinaryOperatorExpr::new(operator, lhs, rhs, span)))),
        )
    }

    /// Parse an expression. Where there is none the errors say why.
    pub fn parse_expr(&mut self) -> (expr: Option<Expr>)
        ensures
            final(self).stepped(
                *old(self),
                spec_parse_expr(old(self).spec_tokens(), old(self).spec_cursor()),
            ),
            expr == spec_parse_expr(old(self).spec_tokens(), old(self).spec_cursor()).expr,
        decreases remaining(old(self).spec_tokens(), old(self).spec_cursor()), 3nat,
    {
        match self.parse_unary_expr() {
            None => None,
            Some(lhs) => {
                let ghost first = spec_parse_unary(old(self).spec_tokens(), old(self).spec_cursor());
                let ghost mid = *self;
                let expr = self.parse_binary_expr(lhs);
                proof {
                    let rest = spec_parse_binary(mid.spec_tokens(), mid.spec_cursor(), lhs);
                    assert(self.spec_errors() =~= old(self).spec_errors() + (first.errors
                        + rest.errors));
                }
                expr
            },
        }
    }

    /// Parse what follows a left operand.
    pub fn parse_binary_expr(&mut self, lhs_expr: Expr) -> (expr: Option<Expr>)
        ensures
            final(self).stepped(
                *old(self),
                spec_parse_binary(old(self).spec_tokens(), old(self).spec_cursor(), lhs_expr),
            ),
            expr == spec_parse_binary(
                old(self).spec_tokens(),
                old(self).spec_cursor(),
                lhs_expr,
            ).expr,
        decreases remaining(old(self).spec_tokens(), old(self).spec_cursor()), 2nat,
    {
        // Get the next token. Having no next token finishes the binary
        // expression.
        let token = match self.current_token() {
            Some(token) => token,
            None => {
                assert(self.spec_errors() =~= old(self).spec_errors() + Seq::<
                    ParserErrView,
                >::empty());
                return Some(lhs_expr);
            },
        };
        let prec = token.precedence();

        // Parse the binary operator.
        let operator = match &token {
            Token::Add(span) => Operator::Add(span.clone()),
            Token::Div(span) => Operator::Div(span.clone()),
            Token::Mul(span) => Operator::Mul(span.clone()),
            Token::Sub(span) => Operator::Sub(span.clone()),
            _ => {
                self.report_unexpected(&token);
                assert(self.spec_errors() =~= old(self).spec_errors() + seq![unexpected(token)]);
                return Some(lhs_expr);
            },
        };

        // This token can be parsed, so it is consumed.
        self.next_token();

        // Parse the next part of this binary expression.
        let ghost second = spec_parse_unary(old(self).spec_tokens(), old(self).spec_cursor() + 1);
        let rhs_expr = match self.parse_unary_expr() {
            Some(rhs) => rhs,
            None => {
                return None;
            },
        };
        let ghost mid = *self;

        match self.current_token() {
            Some(next_token) => if prec.value() > next_token.precedence().value() {
                // The next token is of a lower precedence, so this binary
                // expression is parsed first, as the left hand side of the
                // next.
                let expr = self.parse_binary_expr(Parser::binary(operator, lhs_expr, rhs_expr));
                proof {
                    let rest = spec_parse_binary(
                        mid.spec_tokens(),
                        mid.spec_cursor(),
                        spec_binary(operator, lhs_expr, rhs_expr),
                    );
                    assert(self.spec_errors() =~= old(self).spec_errors() + (second.errors
                        + rest.errors));
                }
                expr
            } else {
                // The next token is of a higher precedence, so the right hand
                // side of this expression is the left hand side of the next
                // binary expression.
                let rest_expr = self.parse_binary_expr(rhs_expr);
                proof {
                    let rest = spec_parse_binary(mid.spec_tokens(), mid.spec_cursor(), rhs_expr);
                    assert(self.spec_errors() =~= old(self).spec_errors() + (second.errors
                        + rest.errors));
                }
                match rest_expr {
                    Some(rest) => Some(Parser::binary(operator, lhs_expr, rest)),
                    None => None,
                }
            },
            // There are no more parts of the expression.
            None => Some(Parser::binary(operator, lhs_expr, rhs_expr)),
        }
    }

    /// Parse a unary expression: an expression in parentheses, or a literal.
    pub fn parse_unary_expr(&mut self) -> (expr: Option<Expr>)
        ensures
            final(self).stepped(
                *old(self),
                spec_parse_unary(old(self).spec_tokens(), old(self).spec_cursor()),
            ),
            expr == spec_parse_unary(old(self).spec_tokens(), old(self).spec_cursor()).expr,
        decreases remaining(old(self).spec_tokens(), old(self).spec_cursor()), 1nat,
    {
        let token = self.current_token();
        match token {
            None => {
                self.report_end();
                assert(self.spec_errors() =~= old(self).spec_errors() + seq![unexpected_end()]);
                None
            },
            Some(token) => {
                let literal = match token.kind() {
                    TokenKind::ParenL => {
                        return self.parse_paren_expr();
                    },
                    TokenKind::Bool => self.parse_literal_bool_expr(),
                    TokenKind::Char => self.parse_literal_char_expr(),
                    TokenKind::Float => self.parse_literal_float_expr(),
                    TokenKind::Int => self.parse_literal_int_expr(),
                    TokenKind::Str => self.parse_literal_str_expr(),
                    _ => {
                        self.report_unexpected(&token);
                        assert(self.spec_errors() =~= old(self).spec_errors() + seq![
                            unexpected(token),
                        ]);
                        return None;
                    },
                };
                assert(self.spec_errors() =~= old(self).spec_errors() + Seq::<
                    ParserErrView,
                >::empty());
                Some(Expr::Literal(Box::new(literal)))
            },
        }
    }

    /// Parse an expression between a left and a right parenthesis.
    pub fn parse_paren_expr(&mut self) -> (expr: Option<Expr>)
        ensures
            final(self).stepped(
                *old(self),
                spec_parse_paren(old(self).spec_tokens(), old(self).spec_cursor()),
            ),
            expr == spec_parse_paren(old(self).spec_tokens(), old(self).spec_cursor()).expr,
        decreases remaining(old(self).spec_tokens(), old(self).spec_cursor()), 0nat,
    {
        // Eat the left parenthesis.
        match self.current_token() {
            None => {
                self.report_end();
                assert(self.spec_errors() =~= old(self).spec_errors() + seq![unexpected_end()]);
                return None;
            },
            Some(token) => {
                if token.kind() != TokenKind::ParenL {
                    self.report_unexpected(&token);
                    assert(self.spec_errors() =~= old(self).spec_errors() + seq![
                        unexpected(token),
                    ]);
                    return None;
                }
                self.next_token();
            },
        }

        // Parse the inner expression.
        let ghost inner = spec_parse_expr(old(self).spec_tokens(), old(self).spec_cursor() + 1);
        let expr = match self.parse_expr() {
            Some(expr) => expr,
            None => {
                return None;
            },
        };

        // Eat the right parenthesis.
        match self.current_token() {
            None => {
                self.report_end();
                assert(self.spec_errors() =~= old(self).spec_errors() + inner.errors.push(
                    unexpected_end(),
                ));
                None
            },
            Some(token) => {
                if token.kind() != TokenKind::ParenR {
                    self.report_unexpected(&token);
                    assert(self.spec_errors() =~= old(self).spec_errors() + inner.errors.push(
                        unexpected(token),
                    ));
                    return None;
                }
                self.next_token();
                Some(expr)
            },
        }
    }

    /// Take the current token, which is a boolean, as a literal.
    pub fn parse_literal_bool_expr(&mut self) -> (literal: LiteralExpr)
        requires
            old(self).spec_current() matches Some(token) && token.spec_kind() == TokenKind::Bool,
        ensures
            Some(literal) == spec_literal(old(self).spec_current()->0),
            final(self).spec_tokens() == old(self).spec_tokens(),
            final(self).spec_errors() == old(self).spec_errors(),
            final(self).spec_cursor() == old(self).spec_cursor() + 1,
    {
        let token = self.current_token();
        self.next_token();
        match token {
            Some(Token::Bool(val, span)) => LiteralExpr::Bool(val, span),
            _ => vstd::pervasive::unreached(),
        }
    }

    /// Take the current token, which is a character, as a literal.
    pub fn parse_literal_char_expr(&mut self) -> (literal: LiteralExpr)
        requires
            old(self).spec_current() matches Some(token) && token.spec_kind() == TokenKind::Char,
        ensures
            Some(literal) == spec_literal(old(self).spec_current()->0),
            final(self).spec_tokens() == old(self).spec_tokens(),
            final(self).spec_errors() == old(self).spec_errors(),
            final(self).spec_cursor() == old(self).spec_cursor() + 1,
    {
        let token = self.current_token();
        self.next_token();
        match token {
            Some(Token::Char(val, span)) => LiteralExpr::Char(val, span),
            _ => vstd::pervasive::unreached(),
        }
    }

    /// Take the current token, which is a floating point number, as a
    /// literal.
    pub fn parse_literal_float_expr(&mut self) -> (literal: LiteralExpr)
        requires
            old(self).spec_current() matches Some(token) && token.spec_kind() == TokenKind::Float,
        ensures
            Some(literal) == spec_literal(old(self).spec_current()->0),
            final(self).spec_tokens() == old(self).spec_tokens(),
            final(self).spec_errors() == old(self).spec_errors(),
            final(self).spec_cursor() == old(self).spec_cursor() + 1,
    {
        let token = self.current_token();
        self.next_token();
        match token {
            Some(Token::Float(val, span)) => LiteralExpr::Float(val, span),
            _ => vstd::pervasive::unreached(),
        }
    }

    /// Take the current token, which is an integer, as a literal.
    pub fn parse_literal_int_expr(&mut self) -> (literal: LiteralExpr)
        requires
            old(self).spec_current() matches Some(token) && token.spec_kind() == TokenKind::Int,
        ensures
            Some(literal) == spec_literal(old(self).spec_current()->0),
            final(self).spec_tokens() == old(self).spec_tokens(),
            final(self).spec_errors() == old(self).spec_errors(),
            final(self).spec_cursor() == old(self).spec_cursor() + 1,
    {
        let token = self.current_token();
        self.next_token();
        match token {
            Some(Token::Int(val, span)) => LiteralExpr::Int(val, span),
            _ => vstd::pervasive::unreached(),
        }
    }

    /// Take the current token, which is a string, as a literal.
    pub fn parse_literal_str_expr(&mut self) -> (literal: LiteralExpr)
        requires
            old(self).spec_current() matches Some(token) && token.spec_kind() == TokenKind::Str,
        ensures
            Some(literal) == spec_literal(old(self).spec_current()->0),
            final(self).spec_tokens() == old(self).spec_tokens(),
            final(self).spec_errors() == old(self).spec_errors(),
            final(self).spec_cursor() == old(self).spec_cursor() + 1,
    {
        let token = self.current_token();
        self.next_token();
        match token {
            Some(Token::Str(val, span)) => LiteralExpr::Str(val, span),
            _ => vstd::pervasive::unreached(),
        }
    }
}

/// The parser never moves back, and it never moves past the end of the
/// tokens.
pub proof fn lemma_parse_expr_advances(tokens: Seq<Token>, cursor: nat)
    requires
        cursor <= tokens.len(),
    ensures
        cursor <= spec_parse_expr(tokens, cursor).cursor <= tokens.len(),
    decreases remaining(tokens, cursor), 3nat,
{
    lemma_parse_unary_advances(tokens, cursor);
    let first = spec_parse_unary(tokens, cursor);
    if first.expr is Some {
        lemma_parse_binary_advances(tokens, first.cursor, first.expr->0);
    }
}

/// The parser never moves back, and it never moves past the end of the
/// tokens.
pub proof fn lemma_parse_binary_advances(tokens: Seq<Token>, cursor: nat, lhs: Expr)
    requires
        cursor <= tokens.len(),
    ensures
        cursor <= spec_parse_binary(tokens, cursor, lhs).cursor <= tokens.len(),
    decreases remaining(tokens, cursor), 2nat,
{
    if cursor < tokens.len() {
        let token = tokens[cursor as int];
        if spec_operator(token) is Some {
            let operator = spec_operator(token)->0;
            lemma_parse_unary_advances(tokens, cursor + 1);
            let second = spec_parse_unary(tokens, cursor + 1);
            if second.expr is Some {
                let rhs = second.expr->0;
                let at = second.cursor;
                if at < tokens.len() {
                    if spec_prec(token) > spec_prec(tokens[at as int]) {
                        lemma_parse_binary_advances(tokens, at, spec_binary(operator, lhs, rhs));
                    } else {
                        lemma_parse_binary_advances(tokens, at, rhs);
                    }
                }
            }
        }
    }
}

/// The parser never moves back, and it never moves past the end of the
/// tokens.
pub proof fn lemma_parse_unary_advances(tokens: Seq<Token>, cursor: nat)
    requires
        cursor <= tokens.len(),
    ensures
        cursor <= spec_parse_unary(tokens, cursor).cursor <= tokens.len(),
    decreases remaining(tokens, cursor), 1nat,
{
    if cursor < tokens.len() && tokens[cursor as int].spec_kind() == TokenKind::ParenL {
        lemma_parse_paren_advances(tokens, cursor);
    }
}

/// The parser never moves back, and it never moves past the end of the
/// tokens.
pub proof fn lemma_parse_paren_advances(tokens: Seq<Token>, cursor: nat)
    requires
        cursor <= tokens.len(),
    ensures
        cursor <= spec_parse_paren(tokens, cursor).cursor <= tokens.len(),
    decreases remaining(tokens, cursor), 0nat,
{
    if cursor < tokens.len() && tokens[cursor as int].spec_kind() == TokenKind::ParenL {
        lemma_parse_expr_advances(tokens, cursor + 1);
    }
}

} // verus!
