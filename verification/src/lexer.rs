//! Lexical layer: source positions and spans, and the tokens of the
//! language.

pub mod scan;
pub mod span;
pub mod token;

pub use span::{Position, PositionView, Span, SpanView, Spanned};
pub use token::{Precedence, Token, TokenKind, TokenValue, TokenView, Tokens};
