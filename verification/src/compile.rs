//! From source text to a resolved expression.

use vstd::prelude::*;
use crate::air;
use crate::ast;
use crate::identifier::IdAllocator;
use crate::lexer::scan::{lex, regex_accepts, regex_captures, tokens_view, LexErr, TOKEN_PATTERN};
use crate::lexer::token::Token;
use crate::parser::{spec_parse_expr, Parser};
use crate::resolver::{model, Resolver, ResolverView};

verus! {

/// What compiling a source text gives: the parser, which holds the tokens
/// and the errors of parsing; the expression that was parsed, if there is
/// one; the resolved expression, if one was parsed; and the resolver, which
/// holds the context and the errors of resolution.
pub struct Compiled {
    pub parser: Parser,
    pub syntax: Option<ast::Expr>,
    pub resolver: Resolver,
    pub resolved: Option<air::Expr>,
}

/// The place at which the functions that the language brings along are
/// declared: before the first character.
pub open spec fn nowhere() -> crate::lexer::span::SpanView {
    crate::lexer::span::SpanView {
        begin: crate::lexer::span::PositionView { filename: ""@, line: 0, column: 0 },
        end: crate::lexer::span::PositionView { filename: ""@, line: 0, column: 0 },
    }
}

/// The state of a resolver in which an expression is compiled: the
/// outermost scope is open, and the functions that the language brings
/// along are declared in it.
pub open spec fn prepared() -> ResolverView {
    model::declare_prelude(model::open_root(untouched()), nowhere())
}

/// The state of a resolver that has done nothing yet.
pub open spec fn untouched() -> ResolverView {
    ResolverView {
        next: 0,
        exhausted: false,
        context: air::ContextView {
            function_table: Seq::empty(),
            module_table: Seq::empty(),
            type_table: Seq::empty(),
        },
        modules: Seq::empty(),
        functions: Seq::empty(),
        blocks: Seq::empty(),
        errors: Seq::empty(),
    }
}

/// Compile a source text: the text is turned into tokens, the tokens are
/// parsed as one expression, and the expression is resolved with the
/// functions that the language brings along in scope. Where the text cannot
/// be turned into tokens the error says why; the error is `LexErr::Pattern`
/// exactly where the regular expression engine does not accept the token
/// pattern.
pub fn compile(input: &str) -> (compiled: Result<Compiled, LexErr>)
    ensures
        (compiled matches Err(LexErr::Pattern)) <==> !regex_accepts(TOKEN_PATTERN@),
        regex_accepts(TOKEN_PATTERN@) ==> match compiled {
            Err(e) => lex(
                ""@,
                regex_captures(TOKEN_PATTERN@, input@),
                regex_captures(TOKEN_PATTERN@, input@).len(),
            ).tokens == Err::<Seq<crate::lexer::token::TokenView>, _>(e@),
            Ok(c) => {
                let tokens = c.parser.spec_tokens();
                let parsed = spec_parse_expr(tokens, 0);
                &&& lex(
                    ""@,
                    regex_captures(TOKEN_PATTERN@, input@),
                    regex_captures(TOKEN_PATTERN@, input@).len(),
                ).tokens == Ok::<_, crate::lexer::scan::LexErrView>(tokens_view(tokens))
                &&& c.syntax == parsed.expr
                &&& c.parser.spec_cursor() == parsed.cursor
                &&& c.parser.spec_errors() == parsed.errors
                &&& match c.syntax {
                    Some(e) => c.resolved is Some && (c.resolver@, c.resolved->0@)
                        == model::resolve_expr(prepared(), e),
                    None => c.resolved is None && c.resolver@ == prepared(),
                }
            },
        },
{
    let tokens = match Token::tokenise("", input) {
        Ok(tokens) => tokens,
        Err(e) => {
            return Err(e);
        },
    };
    let mut parser = Parser::new(tokens);
    let syntax = parser.parse_expr();
    assert(parser.spec_errors() =~= spec_parse_expr(parser.spec_tokens(), 0).errors);
    let mut resolver = Resolver::new(IdAllocator::new());
    resolver.open_root();
    resolver.declare_prelude(&crate::lexer::span::Span::new("", 0, 0, 0, 0));
    let resolved = match &syntax {
        Some(e) => Some(resolver.resolve_expr(e)),
        None => None,
    };
    Ok(Compiled { parser, syntax, resolver, resolved })
}

} // verus!
