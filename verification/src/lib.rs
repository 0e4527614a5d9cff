//! Front end of the Arvo compiler.
//!
//! A source text is turned into tokens (`lexer`) and parsed into a syntax
//! tree (`parser`, `ast`). The resolver (`resolver`) walks the syntax tree,
//! checks that every name that is used is in scope, and builds the resolved
//! representation (`air`), in which every node has an identity of its own
//! (`identifier`). The normaliser (`normaliser`) turns the resolved
//! representation into the normalised one (`noir`), from which code is
//! generated.

pub mod air;
pub mod ast;
pub mod bair;
pub mod compile;
pub mod identifier;
pub mod lexer;
pub mod noir;
pub mod normaliser;
pub mod parser;
pub mod resolver;
pub mod text;

pub use compile::compile;
