//! What the resolver keeps while it works: the scopes that are open, and
//! the errors that it has met.

use vstd::prelude::*;
use crate::air::{
    view_function, view_function_table, view_module, view_module_table, view_type_table,
    view_variables, ContextView, Function, FunctionTable, FunctionView, Module, ModuleTable,
    ModuleView, TypeTable, TypeView, VariableView, Variables,
};
use crate::identifier::{Identifier, IdentifierView};
use crate::lexer::span::{Span, SpanView};

verus! {

/// The kinds of error that resolution can meet.
#[derive(Clone, Copy, Debug, PartialEq, Eq, Structural)]
pub enum ResolverErrKind {
    /// A new declaration's display name is that of another declaration of
    /// the same scope.
    Redeclaration,
    /// A name that no open scope declares.
    UnresolvedSymbol,
    /// A combination that structural typing cannot type.
    TypeMismatch,
    /// A function that is not extern and has no body.
    MissingBody,
}

/// An error that resolution met: its kind, the name that it is about, and
/// the place in the source.
#[derive(Debug)]
pub struct ResolverErr {
    pub kind: ResolverErrKind,
    pub name: String,
    pub span: Span,
}

/// What a `ResolverErr` stands for.
pub ghost struct ResolverErrView {
    pub kind: ResolverErrKind,
    pub name: Seq<char>,
    pub span: SpanView,
}

impl View for ResolverErr {
    type V = ResolverErrView;

    open spec fn view(&self) -> ResolverErrView {
        ResolverErrView { kind: self.kind, name: self.name@, span: self.span@ }
    }
}

impl ResolverErr {
    /// An error of the given kind about the given name, at the given place.
    pub fn new(kind: ResolverErrKind, name: String, span: Span) -> (err: ResolverErr)
        ensures
            err@ == (ResolverErrView { kind, name: name@, span: span@ }),
    {
        ResolverErr { kind, name, span }
    }
}

/// An open block: its identity, the variables defined in it so far, the
/// latest last, and the declarations made directly inside it.
#[derive(Debug)]
pub struct BlockScope {
    pub identifier: Identifier,
    pub variables: Variables,
    pub function_table: FunctionTable,
    pub module_table: ModuleTable,
    pub type_table: TypeTable,
}

/// What a `BlockScope` stands for.
pub ghost struct BlockScopeView {
    pub identifier: IdentifierView,
    pub variables: Seq<VariableView>,
    pub function_table: Seq<(IdentifierView, FunctionView)>,
    pub module_table: Seq<(IdentifierView, ModuleView)>,
    pub type_table: Seq<(IdentifierView, TypeView)>,
}

impl View for BlockScope {
    type V = BlockScopeView;

    open spec fn view(&self) -> BlockScopeView {
        BlockScopeView {
            identifier: self.identifier@,
            variables: view_variables(self.variables@),
            function_table: view_function_table(self.function_table@),
            module_table: view_module_table(self.module_table@),
            type_table: view_type_table(self.type_table@),
        }
    }
}

/// What a stack of open modules stands for.
pub open spec fn view_modules(xs: Seq<Module>) -> Seq<ModuleView> {
    Seq::new(xs.len(), |i: int| view_module(xs[i]))
}

/// What a stack of open functions stands for.
pub open spec fn view_functions(xs: Seq<Function>) -> Seq<FunctionView> {
    Seq::new(xs.len(), |i: int| view_function(xs[i]))
}

/// What a stack of open blocks stands for.
pub open spec fn view_blocks(xs: Seq<BlockScope>) -> Seq<BlockScopeView> {
    Seq::new(xs.len(), |i: int| xs[i]@)
}

/// What a list of errors stands for.
pub open spec fn view_errors(xs: Seq<ResolverErr>) -> Seq<ResolverErrView> {
    Seq::new(xs.len(), |i: int| xs[i]@)
}

/// The state of a resolver: the next identity and whether the identities
/// have run out, the context, the three stacks of open scopes, each with
/// the innermost scope last, and the errors met so far.
pub ghost struct ResolverView {
    pub next: u64,
    pub exhausted: bool,
    pub context: ContextView,
    pub modules: Seq<ModuleView>,
    pub functions: Seq<FunctionView>,
    pub blocks: Seq<BlockScopeView>,
    pub errors: Seq<ResolverErrView>,
}

} // verus!
