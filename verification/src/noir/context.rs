//! The registry of a compilation unit in its normalised form: the functions
//! that the language brings along, and every function, module and type.

use vstd::prelude::*;
use crate::air::prelude::{Prelude, Runtime};
use crate::identifier::{IdAllocator, IdentifierView};
use super::{
    view_function_table, view_module_table, view_type_table, FunctionTable, FunctionView,
    ModuleTable, ModuleView, TypeTable, TypeView,
};

verus! {

/// Everything declared anywhere in a compilation unit.
pub struct Context {
    pub prelude: Prelude,
    pub runtime: Runtime,
    pub function_table: FunctionTable,
    pub module_table: ModuleTable,
    pub type_table: TypeTable,
}

/// What a `Context` stands for: the functions that the language brings
/// along, and the tables.
pub ghost struct ContextView {
    pub prelude: Seq<crate::air::FunctionView>,
    pub process_fn: crate::air::FunctionView,
    pub process_join_fn: crate::air::FunctionView,
    pub function_table: Seq<(IdentifierView, FunctionView)>,
    pub module_table: Seq<(IdentifierView, ModuleView)>,
    pub type_table: Seq<(IdentifierView, TypeView)>,
}

impl View for Context {
    type V = ContextView;

    open spec fn view(&self) -> ContextView {
        ContextView {
            prelude: self.prelude@,
            process_fn: self.runtime.process_fn@,
            process_join_fn: self.runtime.process_join_fn@,
            function_table: view_function_table(self.function_table@),
            module_table: view_module_table(self.module_table@),
            type_table: view_type_table(self.type_table@),
        }
    }
}

/// The context in which nothing is declared but what the language brings
/// along, made with the identities from `next` on: first the prelude, then
/// the runtime.
pub open spec fn spec_new(next: u64, exhausted: bool) -> ContextView {
    let made = crate::air::prelude::spec_prelude(
        next,
        exhausted,
        crate::air::prelude::PRELUDE_LEN as nat,
    );
    ContextView {
        prelude: made.0,
        process_fn: crate::air::prelude::spec_process_fn(made.1),
        process_join_fn: crate::air::prelude::spec_process_join_fn(
            crate::air::prelude::following(crate::air::prelude::following(made.1)),
        ),
        function_table: Seq::empty(),
        module_table: Seq::empty(),
        type_table: Seq::empty(),
    }
}

impl Context {
    /// The context in which nothing is declared but what the language
    /// brings along, made with fresh identities: first the prelude, then
    /// the runtime.
    pub fn new(alloc: &mut IdAllocator) -> (context: Context)
        ensures
            context@ == spec_new(old(alloc).spec_next(), old(alloc).spec_exhausted()),
            final(alloc).advanced_from(*old(alloc)),
    {
        let prelude = Prelude::new(alloc);
        let ghost mid = *alloc;
        let runtime = Runtime::new(alloc);
        proof {
            crate::identifier::lemma_counted(mid.spec_next(), mid.spec_exhausted(), 4);
        }
        let context = Context {
            prelude,
            runtime,
            function_table: FunctionTable::new(),
            module_table: ModuleTable::new(),
            type_table: TypeTable::new(),
        };
        assert(context@.function_table =~= Seq::empty());
        assert(context@.module_table =~= Seq::empty());
        assert(context@.type_table =~= Seq::empty());
        context
    }
}

} // verus!
