//! The lexical tokens of the Arvo programming language, and some basic
//! operations on these tokens.

use vstd::prelude::*;
use vstd::string::StringExecFns;
use super::span::{Span, SpanView, Spanned};
use crate::text::{int_text, int_to_text, push_char};

verus! {

/// How tightly a binary operator binds. A higher number binds tighter.
#[derive(Clone, Copy, Debug, PartialEq, Eq, PartialOrd, Ord, Structural)]
pub struct Precedence(pub u8);

impl Precedence {
    /// The number behind this precedence.
    pub open spec fn spec_value(&self) -> u8 {
        self.0
    }

    /// The number behind this precedence.
    #[verifier::when_used_as_spec(spec_value)]
    pub fn value(&self) -> (v: u8)
        ensures
            v == self.spec_value(),
    {
        self.0
    }

    /// The precedence with the given number.
    pub fn new(prec: u8) -> (p: Precedence)
        ensures
            p.spec_value() == prec,
    {
        Precedence(prec)
    }

    /// The precedence that binds least.
    pub fn lowest() -> (p: Precedence)
        ensures
            p.spec_value() == 0,
    {
        Precedence(0)
    }

    /// The precedence that binds most.
    pub fn highest() -> (p: Precedence)
        ensures
            p.spec_value() == 255,
    {
        Precedence(255)
    }

    /// The precedence one step above this one. There is none above the
    /// highest.
    pub fn next(&self) -> (p: Precedence)
        requires
            self.spec_value() < 255,
        ensures
            p.spec_value() == self.spec_value() + 1,
    {
        Precedence::new(self.0 + 1)
    }
}

/// Which token a `Token` is, without its value and its span.
#[derive(Clone, Copy, Debug, PartialEq, Eq, Structural)]
pub enum TokenKind {
    // Reserved keywords
    As,
    Else,
    Extern,
    Expose,
    For,
    Func,
    If,
    Import,
    In,
    Module,
    Mut,
    Ref,
    Type,
    // Operators
    Add,
    AddEq,
    And,
    Assign,
    Div,
    DivEq,
    Equal,
    NotEqual,
    GreaterThan,
    GreaterThanEq,
    LessThan,
    LessThanEq,
    Mul,
    MulEq,
    Or,
    PushPop,
    Sub,
    SubEq,
    // Symbols
    BraceL,
    BraceR,
    BracketL,
    BracketR,
    Colon,
    Comma,
    Dot,
    DotDot,
    LambdaR,
    ParenL,
    ParenR,
    Pipe,
    Question,
    SemiColon,
    Whitespace,
    WhitespaceNewline,
    // Literals
    Char,
    Bool,
    Float,
    Int,
    Str,
    // Idents
    Ident,
    // Comments
    Comment,
}

/// The value that a token carries besides its span.
pub ghost enum TokenValue {
    Nothing,
    /// A character, by its code.
    Char(u32),
    Bool(bool),
    Int(i64),
    Text(Seq<char>),
}

/// What a `Token` stands for: its kind, the value it carries and its span.
pub ghost struct TokenView {
    pub kind: TokenKind,
    pub value: TokenValue,
    pub span: SpanView,
}

/// A Token represents a lexical token in the Arvo programming language. It
/// includes the values of literals, identifiers, and comments. A floating
/// point literal is kept as its digits.
#[derive(Debug, PartialEq)]
pub enum Token {
    // Reserved keywords
    As(Span),
    Else(Span),
    Extern(Span),
    Expose(Span),
    For(Span),
    Func(Span),
    If(Span),
    Import(Span),
    In(Span),
    Module(Span),
    Mut(Span),
    Ref(Span),
    Type(Span),
    // Operators
    Add(Span),
    AddEq(Span),
    And(Span),
    Assign(Span),
    Div(Span),
    DivEq(Span),
    Equal(Span),
    NotEqual(Span),
    GreaterThan(Span),
    GreaterThanEq(Span),
    LessThan(Span),
    LessThanEq(Span),
    Mul(Span),
    MulEq(Span),
    Or(Span),
    PushPop(Span),
    Sub(Span),
    SubEq(Span),
    // Symbols
    BraceL(Span),
    BraceR(Span),
    BracketL(Span),
    BracketR(Span),
    Colon(Span),
    Comma(Span),
    Dot(Span),
    DotDot(Span),
    LambdaR(Span),
    ParenL(Span),
    ParenR(Span),
    Pipe(Span),
    Question(Span),
    SemiColon(Span),
    Whitespace(Span),
    WhitespaceNewline(Span),
    // Literals
    Char(char, Span),
    Bool(bool, Span),
    Float(String, Span),
    Int(i64, Span),
    Str(String, Span),
    // Idents
    Ident(String, Span),
    // Comments
    Comment(String, Span),
}

/// A row of tokens.
pub type Tokens = Vec<Token>;

impl Token {
    /// Which token this is.
    pub open spec fn spec_kind(&self) -> TokenKind {
        match self {
            Token::As(..) => TokenKind::As,
            Token::Else(..) => TokenKind::Else,
            Token::Extern(..) => TokenKind::Extern,
            Token::Expose(..) => TokenKind::Expose,
            Token::For(..) => TokenKind::For,
            Token::Func(..) => TokenKind::Func,
            Token::If(..) => TokenKind::If,
            Token::Import(..) => TokenKind::Import,
            Token::In(..) => TokenKind::In,
            Token::Module(..) => TokenKind::Module,
            Token::Mut(..) => TokenKind::Mut,
            Token::Ref(..) => TokenKind::Ref,
            Token::Type(..) => TokenKind::Type,
            Token::Add(..) => TokenKind::Add,
            Token::AddEq(..) => TokenKind::AddEq,
            Token::And(..) => TokenKind::And,
            Token::Assign(..) => TokenKind::Assign,
            Token::Div(..) => TokenKind::Div,
            Token::DivEq(..) => TokenKind::DivEq,
            Token::Equal(..) => TokenKind::Equal,
            Token::NotEqual(..) => TokenKind::NotEqual,
            Token::GreaterThan(..) => TokenKind::GreaterThan,
            Token::GreaterThanEq(..) => TokenKind::GreaterThanEq,
            Token::LessThan(..) => TokenKind::LessThan,
            Token::LessThanEq(..) => TokenKind::LessThanEq,
            Token::Mul(..) => TokenKind::Mul,
            Token::MulEq(..) => TokenKind::MulEq,
            Token::Or(..) => TokenKind::Or,
            Token::PushPop(..) => TokenKind::PushPop,
            Token::Sub(..) => TokenKind::Sub,
            Token::SubEq(..) => TokenKind::SubEq,
            Token::BraceL(..) => TokenKind::BraceL,
            Token::BraceR(..) => TokenKind::BraceR,
            Token::BracketL(..) => TokenKind::BracketL,
            Token::BracketR(..) => TokenKind::BracketR,
            Token::Colon(..) => TokenKind::Colon,
            Token::Comma(..) => TokenKind::Comma,
            Token::Dot(..) => TokenKind::Dot,
            Token::DotDot(..) => TokenKind::DotDot,
            Token::LambdaR(..) => TokenKind::LambdaR,
            Token::ParenL(..) => TokenKind::ParenL,
            Token::ParenR(..) => TokenKind::ParenR,
            Token::Pipe(..) => TokenKind::Pipe,
            Token::Question(..) => TokenKind::Question,
            Token::SemiColon(..) => TokenKind::SemiColon,
            Token::Whitespace(..) => TokenKind::Whitespace,
            Token::WhitespaceNewline(..) => TokenKind::WhitespaceNewline,
            Token::Char(..) => TokenKind::Char,
            Token::Bool(..) => TokenKind::Bool,
            Token::Float(..) => TokenKind::Float,
            Token::Int(..) => TokenKind::Int,
            Token::Str(..) => TokenKind::Str,
            Token::Ident(..) => TokenKind::Ident,
            Token::Comment(..) => TokenKind::Comment,
        }
    }

    /// The value that this token carries.
    pub open spec fn spec_value(&self) -> TokenValue {
        match self {
            Token::Char(c, _) => TokenValue::Char(*c as u32),
            Token::Bool(b, _) => TokenValue::Bool(*b),
            Token::Int(i, _) => TokenValue::Int(*i),
            Token::Float(s, _) => TokenValue::Text(s@),
            Token::Str(s, _) => TokenValue::Text(s@),
            Token::Ident(s, _) => TokenValue::Text(s@),
            Token::Comment(s, _) => TokenValue::Text(s@),
            _ => TokenValue::Nothing,
        }
    }

    /// The span that this token carries.
    pub open spec fn span_of(&self) -> Span {
        match self {
            Token::As(span) => *span,
            Token::Else(span) => *span,
            Token::Extern(span) => *span,
            Token::Expose(span) => *span,
            Token::For(span) => *span,
            Token::Func(span) => *span,
            Token::If(span) => *span,
            Token::Import(span) => *span,
            Token::In(span) => *span,
            Token::Module(span) => *span,
            Token::Mut(span) => *span,
            Token::Ref(span) => *span,
            Token::Type(span) => *span,
            Token::Add(span) => *span,
            Token::AddEq(span) => *span,
            Token::And(span) => *span,
            Token::Assign(span) => *span,
            Token::Div(span) => *span,
            Token::DivEq(span) => *span,
            Token::Equal(span) => *span,
            Token::NotEqual(span) => *span,
            Token::GreaterThan(span) => *span,
            Token::GreaterThanEq(span) => *span,
            Token::LessThan(span) => *span,
            Token::LessThanEq(span) => *span,
            Token::Mul(span) => *span,
            Token::MulEq(span) => *span,
            Token::Or(span) => *span,
            Token::PushPop(span) => *span,
            Token::Sub(span) => *span,
            Token::SubEq(span) => *span,
            Token::BraceL(span) => *span,
            Token::BraceR(span) => *span,
            Token::BracketL(span) => *span,
            Token::BracketR(span) => *span,
            Token::Colon(span) => *span,
            Token::Comma(span) => *span,
            Token::Dot(span) => *span,
            Token::DotDot(span) => *span,
            Token::LambdaR(span) => *span,
            Token::ParenL(span) => *span,
            Token::ParenR(span) => *span,
            Token::Pipe(span) => *span,
            Token::Question(span) => *span,
            Token::SemiColon(span) => *span,
            Token::Whitespace(span) => *span,
            Token::WhitespaceNewline(span) => *span,
            Token::Char(_, span) => *span,
            Token::Bool(_, span) => *span,
            Token::Float(_, span) => *span,
            Token::Int(_, span) => *span,
            Token::Str(_, span) => *span,
            Token::Ident(_, span) => *span,
            Token::Comment(_, span) => *span,
        }
    }

    /// Which token this is.
    #[verifier::when_used_as_spec(spec_kind)]
    pub fn kind(&self) -> (kind: TokenKind)
        ensures
            kind == self.spec_kind(),
    {
        match self {
            Token::As(..) => TokenKind::As,
            Token::Else(..) => TokenKind::Else,
            Token::Extern(..) => TokenKind::Extern,
            Token::Expose(..) => TokenKind::Expose,
            Token::For(..) => TokenKind::For,
            Token::Func(..) => TokenKind::Func,
            Token::If(..) => TokenKind::If,
            Token::Import(..) => TokenKind::Import,
            Token::In(..) => TokenKind::In,
            Token::Module(..) => TokenKind::Module,
            Token::Mut(..) => TokenKind::Mut,
            Token::Ref(..) => TokenKind::Ref,
            Token::Type(..) => TokenKind::Type,
            Token::Add(..) => TokenKind::Add,
            Token::AddEq(..) => TokenKind::AddEq,
            Token::And(..) => TokenKind::And,
            Token::Assign(..) => TokenKind::Assign,
            Token::Div(..) => TokenKind::Div,
            Token::DivEq(..) => TokenKind::DivEq,
            Token::Equal(..) => TokenKind::Equal,
            Token::NotEqual(..) => TokenKind::NotEqual,
            Token::GreaterThan(..) => TokenKind::GreaterThan,
            Token::GreaterThanEq(..) => TokenKind::GreaterThanEq,
            Token::LessThan(..) => TokenKind::LessThan,
            Token::LessThanEq(..) => TokenKind::LessThanEq,
            Token::Mul(..) => TokenKind::Mul,
            Token::MulEq(..) => TokenKind::MulEq,
            Token::Or(..) => TokenKind::Or,
            Token::PushPop(..) => TokenKind::PushPop,
            Token::Sub(..) => TokenKind::Sub,
            Token::SubEq(..) => TokenKind::SubEq,
            Token::BraceL(..) => TokenKind::BraceL,
            Token::BraceR(..) => TokenKind::BraceR,
            Token::BracketL(..) => TokenKind::BracketL,
            Token::BracketR(..) => TokenKind::BracketR,
            Token::Colon(..) => TokenKind::Colon,
            Token::Comma(..) => TokenKind::Comma,
            Token::Dot(..) => TokenKind::Dot,
            Token::DotDot(..) => TokenKind::DotDot,
            Token::LambdaR(..) => TokenKind::LambdaR,
            Token::ParenL(..) => TokenKind::ParenL,
            Token::ParenR(..) => TokenKind::ParenR,
            Token::Pipe(..) => TokenKind::Pipe,
            Token::Question(..) => TokenKind::Question,
            Token::SemiColon(..) => TokenKind::SemiColon,
            Token::Whitespace(..) => TokenKind::Whitespace,
            Token::WhitespaceNewline(..) => TokenKind::WhitespaceNewline,
            Token::Char(..) => TokenKind::Char,
            Token::Bool(..) => TokenKind::Bool,
            Token::Float(..) => TokenKind::Float,
            Token::Int(..) => TokenKind::Int,
            Token::Str(..) => TokenKind::Str,
            Token::Ident(..) => TokenKind::Ident,
            Token::Comment(..) => TokenKind::Comment,
        }
    }

    /// The precedence of this token as a binary operator; the lowest for a
    /// token that is none.
    pub open spec fn spec_precedence(kind: TokenKind) -> u8 {
        match kind {
            TokenKind::Or => 1,
            TokenKind::And => 2,
            TokenKind::Equal
            | TokenKind::NotEqual
            | TokenKind::LessThan
            | TokenKind::LessThanEq
            | TokenKind::GreaterThan
            | TokenKind::GreaterThanEq => 3,
            TokenKind::Add | TokenKind::Sub => 4,
            TokenKind::Mul | TokenKind::Div => 5,
            _ => 0,
        }
    }

    /// The precedence of this token as a binary operator.
    pub fn precedence(&self) -> (p: Precedence)
        ensures
            p.spec_value() == Self::spec_precedence(self.spec_kind()),
    {
        match self {
            Token::Or(..) => Precedence::new(1),
            Token::And(..) => Precedence::new(2),
            Token::Equal(..)
            | Token::NotEqual(..)
            | Token::LessThan(..)
            | Token::LessThanEq(..)
            | Token::GreaterThan(..)
            | Token::GreaterThanEq(..) => Precedence::new(3),
            Token::Add(..) | Token::Sub(..) => Precedence::new(4),
            Token::Mul(..) | Token::Div(..) => Precedence::new(5),
            _ => Precedence::lowest(),
        }
    }

    /// Whether this token is white space: a space, a tab or the end of a
    /// line.
    pub fn is_whitespace(&self) -> (b: bool)
        ensures
            b == (self.spec_kind() == TokenKind::Whitespace || self.spec_kind()
                == TokenKind::WhitespaceNewline),
    {
        match self {
            Token::Whitespace(..) | Token::WhitespaceNewline(..) => true,
            _ => false,
        }
    }

    /// The token of the given kind that carries no value.
    pub fn plain(kind: TokenKind, span: Span) -> (token: Option<Token>)
        ensures
            Self::carries_value(kind) <==> token is None,
            token matches Some(t) ==> t@ == (TokenView {
                kind,
                value: TokenValue::Nothing,
                span: span@,
            }),
    {
        match kind {
            TokenKind::As => Some(Token::As(span)),
            TokenKind::Else => Some(Token::Else(span)),
            TokenKind::Extern => Some(Token::Extern(span)),
            TokenKind::Expose => Some(Token::Expose(span)),
            TokenKind::For => Some(Token::For(span)),
            TokenKind::Func => Some(Token::Func(span)),
            TokenKind::If => Some(Token::If(span)),
            TokenKind::Import => Some(Token::Import(span)),
            TokenKind::In => Some(Token::In(span)),
            TokenKind::Module => Some(Token::Module(span)),
            TokenKind::Mut => Some(Token::Mut(span)),
            TokenKind::Ref => Some(Token::Ref(span)),
            TokenKind::Type => Some(Token::Type(span)),
            TokenKind::Add => Some(Token::Add(span)),
            TokenKind::AddEq => Some(Token::AddEq(span)),
            TokenKind::And => Some(Token::And(span)),
            TokenKind::Assign => Some(Token::Assign(span)),
            TokenKind::Div => Some(Token::Div(span)),
            TokenKind::DivEq => Some(Token::DivEq(span)),
            TokenKind::Equal => Some(Token::Equal(span)),
            TokenKind::NotEqual => Some(Token::NotEqual(span)),
            TokenKind::GreaterThan => Some(Token::GreaterThan(span)),
            TokenKind::GreaterThanEq => Some(Token::GreaterThanEq(span)),
            TokenKind::LessThan => Some(Token::LessThan(span)),
            TokenKind::LessThanEq => Some(Token::LessThanEq(span)),
            TokenKind::Mul => Some(Token::Mul(span)),
            TokenKind::MulEq => Some(Token::MulEq(span)),
            TokenKind::Or => Some(Token::Or(span)),
            TokenKind::PushPop => Some(Token::PushPop(span)),
            TokenKind::Sub => Some(Token::Sub(span)),
            TokenKind::SubEq => Some(Token::SubEq(span)),
            TokenKind::BraceL => Some(Token::BraceL(span)),
            TokenKind::BraceR => Some(Token::BraceR(span)),
            TokenKind::BracketL => Some(Token::BracketL(span)),
            TokenKind::BracketR => Some(Token::BracketR(span)),
            TokenKind::Colon => Some(Token::Colon(span)),
            TokenKind::Comma => Some(Token::Comma(span)),
            TokenKind::Dot => Some(Token::Dot(span)),
            TokenKind::DotDot => Some(Token::DotDot(span)),
            TokenKind::LambdaR => Some(Token::LambdaR(span)),
            TokenKind::ParenL => Some(Token::ParenL(span)),
            TokenKind::ParenR => Some(Token::ParenR(span)),
            TokenKind::Pipe => Some(Token::Pipe(span)),
            TokenKind::Question => Some(Token::Question(span)),
            TokenKind::SemiColon => Some(Token::SemiColon(span)),
            TokenKind::Whitespace => Some(Token::Whitespace(span)),
            TokenKind::WhitespaceNewline => Some(Token::WhitespaceNewline(span)),
            _ => None,
        }
    }

    /// Whether tokens of the given kind carry a value besides their span.
    pub open spec fn carries_value(kind: TokenKind) -> bool {
        match kind {
            TokenKind::Char
            | TokenKind::Bool
            | TokenKind::Float
            | TokenKind::Int
            | TokenKind::Str
            | TokenKind::Ident
            | TokenKind::Comment => true,
            _ => false,
        }
    }
}

impl Token {
    /// The text of this token as the source writes it; for a literal, the
    /// text of its value.
    pub open spec fn spec_text(&self) -> Seq<char> {
        match self {
            Token::As(..) => "as"@,
            Token::Else(..) => "else"@,
            Token::Extern(..) => "extern"@,
            Token::Expose(..) => "expose"@,
            Token::For(..) => "for"@,
            Token::Func(..) => "fn"@,
            Token::If(..) => "if"@,
            Token::Import(..) => "import"@,
            Token::In(..) => "in"@,
            Token::Module(..) => "module"@,
            Token::Mut(..) => "mut"@,
            Token::Ref(..) => "ref"@,
            Token::Type(..) => "type"@,
            Token::Add(..) => "+"@,
            Token::AddEq(..) => "+="@,
            Token::And(..) => "&&"@,
            Token::Assign(..) => ":="@,
            Token::Div(..) => "/"@,
            Token::DivEq(..) => "/="@,
            Token::Equal(..) => "="@,
            Token::NotEqual(..) => "!="@,
            Token::GreaterThan(..) => ">"@,
            Token::GreaterThanEq(..) => ">="@,
            Token::LessThan(..) => "<"@,
            Token::LessThanEq(..) => "<="@,
            Token::Mul(..) => "*"@,
            Token::MulEq(..) => "*="@,
            Token::Or(..) => "||"@,
            Token::PushPop(..) => "<-"@,
            Token::Sub(..) => "-"@,
            Token::SubEq(..) => "-="@,
            Token::BraceL(..) => "{"@,
            Token::BraceR(..) => "}"@,
            Token::BracketL(..) => "["@,
            Token::BracketR(..) => "]"@,
            Token::Colon(..) => ":"@,
            Token::Comma(..) => ","@,
            Token::Dot(..) => "."@,
            Token::DotDot(..) => ".."@,
            Token::LambdaR(..) => "->"@,
            Token::ParenL(..) => "("@,
            Token::ParenR(..) => ")"@,
            Token::Pipe(..) => "|"@,
            Token::Question(..) => "?"@,
            Token::SemiColon(..) => ";"@,
            Token::Whitespace(..) => " "@,
            Token::WhitespaceNewline(..) => "\n"@,
            Token::Char(c, _) => seq![*c],
            Token::Bool(b, _) => if *b {
                "true"@
            } else {
                "false"@
            },
            Token::Float(s, _) => s@,
            Token::Int(i, _) => int_text(*i as int),
            Token::Str(s, _) => s@,
            Token::Ident(s, _) => s@,
            Token::Comment(s, _) => "//"@ + s@,
        }
    }

    /// The text of this token.
    pub fn to_string(&self) -> (text: String)
        ensures
            text@ == self.spec_text(),
    {
        match self {
            Token::As(..) => "as".to_owned(),
            Token::Else(..) => "else".to_owned(),
            Token::Extern(..) => "extern".to_owned(),
            Token::Expose(..) => "expose".to_owned(),
            Token::For(..) => "for".to_owned(),
            Token::Func(..) => "fn".to_owned(),
            Token::If(..) => "if".to_owned(),
            Token::Import(..) => "import".to_owned(),
            Token::In(..) => "in".to_owned(),
            Token::Module(..) => "module".to_owned(),
            Token::Mut(..) => "mut".to_owned(),
            Token::Ref(..) => "ref".to_owned(),
            Token::Type(..) => "type".to_owned(),
            Token::Add(..) => "+".to_owned(),
            Token::AddEq(..) => "+=".to_owned(),
            Token::And(..) => "&&".to_owned(),
            Token::Assign(..) => ":=".to_owned(),
            Token::Div(..) => "/".to_owned(),
            Token::DivEq(..) => "/=".to_owned(),
            Token::Equal(..) => "=".to_owned(),
            Token::NotEqual(..) => "!=".to_owned(),
            Token::GreaterThan(..) => ">".to_owned(),
            Token::GreaterThanEq(..) => ">=".to_owned(),
            Token::LessThan(..) => "<".to_owned(),
            Token::LessThanEq(..) => "<=".to_owned(),
            Token::Mul(..) => "*".to_owned(),
            Token::MulEq(..) => "*=".to_owned(),
            Token::Or(..) => "||".to_owned(),
            Token::PushPop(..) => "<-".to_owned(),
            Token::Sub(..) => "-".to_owned(),
            Token::SubEq(..) => "-=".to_owned(),
            Token::BraceL(..) => "{".to_owned(),
            Token::BraceR(..) => "}".to_owned(),
            Token::BracketL(..) => "[".to_owned(),
            Token::BracketR(..) => "]".to_owned(),
            Token::Colon(..) => ":".to_owned(),
            Token::Comma(..) => ",".to_owned(),
            Token::Dot(..) => ".".to_owned(),
            Token::DotDot(..) => "..".to_owned(),
            Token::LambdaR(..) => "->".to_owned(),
            Token::ParenL(..) => "(".to_owned(),
            Token::ParenR(..) => ")".to_owned(),
            Token::Pipe(..) => "|".to_owned(),
            Token::Question(..) => "?".to_owned(),
            Token::SemiColon(..) => ";".to_owned(),
            Token::Whitespace(..) => " ".to_owned(),
            Token::WhitespaceNewline(..) => "\n".to_owned(),
            Token::Char(c, _) => {
                let mut text = String::new();
                push_char(&mut text, *c);
                assert(text@ =~= seq![*c]);
                text
            },
            Token::Bool(b, _) => if *b {
                "true".to_owned()
            } else {
                "false".to_owned()
            },
            Token::Float(s, _) => s.clone(),
            Token::Int(i, _) => int_to_text(*i),
            Token::Str(s, _) => s.clone(),
            Token::Ident(s, _) => s.clone(),
            Token::Comment(s, _) => {
                let mut text = "//".to_owned();
                text.append(s.as_str());
                text
            },
        }
    }
}

impl View for Token {
    type V = TokenView;

    open spec fn view(&self) -> TokenView {
        TokenView { kind: self.spec_kind(), value: self.spec_value(), span: self.span_of()@ }
    }
}

impl Clone for Token {
    fn clone(&self) -> (res: Token)
        ensures
            res == *self,
    {
        match self {
            Token::As(span) => Token::As(span.clone()),
            Token::Else(span) => Token::Else(span.clone()),
            Token::Extern(span) => Token::Extern(span.clone()),
            Token::Expose(span) => Token::Expose(span.clone()),
            Token::For(span) => Token::For(span.clone()),
            Token::Func(span) => Token::Func(span.clone()),
            Token::If(span) => Token::If(span.clone()),
            Token::Import(span) => Token::Import(span.clone()),
            Token::In(span) => Token::In(span.clone()),
            Token::Module(span) => Token::Module(span.clone()),
            Token::Mut(span) => Token::Mut(span.clone()),
            Token::Ref(span) => Token::Ref(span.clone()),
            Token::Type(span) => Token::Type(span.clone()),
            Token::Add(span) => Token::Add(span.clone()),
            Token::AddEq(span) => Token::AddEq(span.clone()),
            Token::And(span) => Token::And(span.clone()),
            Token::Assign(span) => Token::Assign(span.clone()),
            Token::Div(span) => Token::Div(span.clone()),
            Token::DivEq(span) => Token::DivEq(span.clone()),
            Token::Equal(span) => Token::Equal(span.clone()),
            Token::NotEqual(span) => Token::NotEqual(span.clone()),
            Token::GreaterThan(span) => Token::GreaterThan(span.clone()),
            Token::GreaterThanEq(span) => Token::GreaterThanEq(span.clone()),
            Token::LessThan(span) => Token::LessThan(span.clone()),
            Token::LessThanEq(span) => Token::LessThanEq(span.clone()),
            Token::Mul(span) => Token::Mul(span.clone()),
            Token::MulEq(span) => Token::MulEq(span.clone()),
            Token::Or(span) => Token::Or(span.clone()),
            Token::PushPop(span) => Token::PushPop(span.clone()),
            Token::Sub(span) => Token::Sub(span.clone()),
            Token::SubEq(span) => Token::SubEq(span.clone()),
            Token::BraceL(span) => Token::BraceL(span.clone()),
            Token::BraceR(span) => Token::BraceR(span.clone()),
            Token::BracketL(span) => Token::BracketL(span.clone()),
            Token::BracketR(span) => Token::BracketR(span.clone()),
            Token::Colon(span) => Token::Colon(span.clone()),
            Token::Comma(span) => Token::Comma(span.clone()),
            Token::Dot(span) => Token::Dot(span.clone()),
            Token::DotDot(span) => Token::DotDot(span.clone()),
            Token::LambdaR(span) => Token::LambdaR(span.clone()),
            Token::ParenL(span) => Token::ParenL(span.clone()),
            Token::ParenR(span) => Token::ParenR(span.clone()),
            Token::Pipe(span) => Token::Pipe(span.clone()),
            Token::Question(span) => Token::Question(span.clone()),
            Token::SemiColon(span) => Token::SemiColon(span.clone()),
            Token::Whitespace(span) => Token::Whitespace(span.clone()),
            Token::WhitespaceNewline(span) => Token::WhitespaceNewline(span.clone()),
            Token::Char(c, span) => Token::Char(*c, span.clone()),
            Token::Bool(b, span) => Token::Bool(*b, span.clone()),
            Token::Float(s, span) => Token::Float(s.clone(), span.clone()),
            Token::Int(i, span) => Token::Int(*i, span.clone()),
            Token::Str(s, span) => Token::Str(s.clone(), span.clone()),
            Token::Ident(s, span) => Token::Ident(s.clone(), span.clone()),
            Token::Comment(s, span) => Token::Comment(s.clone(), span.clone()),
        }
    }
}

impl Spanned for Token {
    open spec fn spec_span(&self) -> SpanView {
        self.span_of()@
    }

    fn span(&self) -> (span: &Span) {
        match self {
            Token::As(span) => span,
            Token::Else(span) => span,
            Token::Extern(span) => span,
            Token::Expose(span) => span,
            Token::For(span) => span,
            Token::Func(span) => span,
            Token::If(span) => span,
            Token::Import(span) => span,
            Token::In(span) => span,
            Token::Module(span) => span,
            Token::Mut(span) => span,
            Token::Ref(span) => span,
            Token::Type(span) => span,
            Token::Add(span) => span,
            Token::AddEq(span) => span,
            Token::And(span) => span,
            Token::Assign(span) => span,
            Token::Div(span) => span,
            Token::DivEq(span) => span,
            Token::Equal(span) => span,
            Token::NotEqual(span) => span,
            Token::GreaterThan(span) => span,
            Token::GreaterThanEq(span) => span,
            Token::LessThan(span) => span,
            Token::LessThanEq(span) => span,
            Token::Mul(span) => span,
            Token::MulEq(span) => span,
            Token::Or(span) => span,
            Token::PushPop(span) => span,
            Token::Sub(span) => span,
            Token::SubEq(span) => span,
            Token::BraceL(span) => span,
            Token::BraceR(span) => span,
            Token::BracketL(span) => span,
            Token::BracketR(span) => span,
            Token::Colon(span) => span,
            Token::Comma(span) => span,
            Token::Dot(span) => span,
            Token::DotDot(span) => span,
            Token::LambdaR(span) => span,
            Token::ParenL(span) => span,
            Token::ParenR(span) => span,
            Token::Pipe(span) => span,
            Token::Question(span) => span,
            Token::SemiColon(span) => span,
            Token::Whitespace(span) => span,
            Token::WhitespaceNewline(span) => span,
            Token::Char(_, span) => span,
            Token::Bool(_, span) => span,
            Token::Float(_, span) => span,
            Token::Int(_, span) => span,
            Token::Str(_, span) => span,
            Token::Ident(_, span) => span,
            Token::Comment(_, span) => span,
        }
    }

    fn span_mut(&mut self) -> (span: &mut Span)
        ensures
            final(self).spec_kind() == old(self).spec_kind(),
            final(self).spec_value() == old(self).spec_value(),
    {
        match self {
            Token::As(span) => span,
            Token::Else(span) => span,
            Token::Extern(span) => span,
            Token::Expose(span) => span,
            Token::For(span) => span,
            Token::Func(span) => span,
            Token::If(span) => span,
            Token::Import(span) => span,
            Token::In(span) => span,
            Token::Module(span) => span,
            Token::Mut(span) => span,
            Token::Ref(span) => span,
            Token::Type(span) => span,
            Token::Add(span) => span,
            Token::AddEq(span) => span,
            Token::And(span) => span,
            Token::Assign(span) => span,
            Token::Div(span) => span,
            Token::DivEq(span) => span,
            Token::Equal(span) => span,
            Token::NotEqual(span) => span,
            Token::GreaterThan(span) => span,
            Token::GreaterThanEq(span) => span,
            Token::LessThan(span) => span,
            Token::LessThanEq(span) => span,
            Token::Mul(span) => span,
            Token::MulEq(span) => span,
            Token::Or(span) => span,
            Token::PushPop(span) => span,
            Token::Sub(span) => span,
            Token::SubEq(span) => span,
            Token::BraceL(span) => span,
            Token::BraceR(span) => span,
            Token::BracketL(span) => span,
            Token::BracketR(span) => span,
            Token::Colon(span) => span,
            Token::Comma(span) => span,
            Token::Dot(span) => span,
            Token::DotDot(span) => span,
            Token::LambdaR(span) => span,
            Token::ParenL(span) => span,
            Token::ParenR(span) => span,
            Token::Pipe(span) => span,
            Token::Question(span) => span,
            Token::SemiColon(span) => span,
            Token::Whitespace(span) => span,
            Token::WhitespaceNewline(span) => span,
            Token::Char(_, span) => span,
            Token::Bool(_, span) => span,
            Token::Float(_, span) => span,
            Token::Int(_, span) => span,
            Token::Str(_, span) => span,
            Token::Ident(_, span) => span,
            Token::Comment(_, span) => span,
        }
    }
}

} // verus!
