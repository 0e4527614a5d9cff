//! The registry of a compilation unit: every resolved function, module and
//! type, reachable by identity.

use vstd::prelude::*;
use crate::identifier::IdentifierView;
use super::{
    view_function_table, view_module_table, view_type_table, FunctionTable, FunctionView,
    ModuleTable, ModuleView, TypeTable, TypeView,
};

verus! {

/// Everything declared anywhere in a compilation unit.
#[derive(Debug)]
pub struct Context {
    pub function_table: FunctionTable,
    pub module_table: ModuleTable,
    pub type_table: TypeTable,
}

/// What a `Context` stands for.
pub ghost struct ContextView {
    pub function_table: Seq<(IdentifierView, FunctionView)>,
    pub module_table: Seq<(IdentifierView, ModuleView)>,
    pub type_table: Seq<(IdentifierView, TypeView)>,
}

impl View for Context {
    type V = ContextView;

    open spec fn view(&self) -> ContextView {
        ContextView {
            function_table: view_function_table(self.function_table@),
            module_table: view_module_table(self.module_table@),
            type_table: view_type_table(self.type_table@),
        }
    }
}

impl Context {
    /// The context in which nothing is declared.
    pub fn new() -> (context: Context)
        ensures
            context@ == (ContextView {
                function_table: Seq::empty(),
                module_table: Seq::empty(),
                type_table: Seq::empty(),
            }),
    {
        let context = Context {
            function_table: FunctionTable::new(),
            module_table: ModuleTable::new(),
            type_table: TypeTable::new(),
        };
        assert(context@.function_table =~= Seq::empty());
        assert(context@.module_table =~= Seq::empty());
        assert(context@.type_table =~= Seq::empty());
        context
    }
}

} // verus!
