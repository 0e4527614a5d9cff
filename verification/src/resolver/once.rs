//! No number occurs twice in a table of declarations.

use vstd::prelude::*;
use crate::air::table::{lemma_put_numbered_once, numbered_once, spec_clashes, table_keys};
use crate::air::{FunctionView, ModuleView, TypeView};
use crate::ast;
use crate::identifier::IdentifierView;
use crate::lexer::span::SpanView;
use super::laws::{
    expressed, lemma_resolve_type_kind_typed, lemma_resolve_type_typed,
    lemma_resolve_variables_typed, typed,
};
use super::model::{
    anonymous, block_scope, declare_function, declare_functions, generics_table, has_profile,
    module_profile, module_scope, pop_block, pop_function, pop_module, push_block,
    push_function, push_module, report, resolve_body, resolve_function,
    resolve_function_profile, resolve_module, resolve_statements, resolve_type,
    resolve_type_decl, resolve_type_kind, resolve_variables, store_function, store_module,
    store_type, Phase,
};
use super::scope::{BlockScopeView, ResolverErrKind, ResolverView};
use super::unique::lemma_resolve_body;

verus! {

/// In each table of the module, and of every module inside it, no number
/// occurs twice: no two functions, no two modules and no two types of one
/// table have the same identity.
pub open spec fn once_module(m: ModuleView) -> bool
    decreases m,
{
    &&& numbered_once(table_keys(m.function_table))
    &&& numbered_once(table_keys(m.module_table))
    &&& numbered_once(table_keys(m.type_table))
    &&& once_modules(m.module_table)
}

/// In each table of each of the modules no number occurs twice.
pub open spec fn once_modules(t: Seq<(IdentifierView, ModuleView)>) -> bool
    decreases t,
{
    forall|i: int| 0 <= i < t.len() ==> once_module((#[trigger] t[i]).1)
}

/// In no table of the context and of the open modules a number occurs
/// twice.
pub open spec fn once_state(s: ResolverView) -> bool {
    &&& numbered_once(table_keys(s.context.function_table))
    &&& numbered_once(table_keys(s.context.module_table))
    &&& numbered_once(table_keys(s.context.type_table))
    &&& once_modules(s.context.module_table)
    &&& forall|i: int| 0 <= i < s.modules.len() ==> once_module(#[trigger] s.modules[i])
}

/// A step that leaves the context and the open modules alone keeps the
/// tables as they are.
pub proof fn lemma_once_kept(s: ResolverView, after: ResolverView)
    requires
        once_state(s),
        after.context == s.context,
        after.modules == s.modules,
    ensures
        once_state(after),
{
}

/// Putting a module into a table of modules.
proof fn lemma_once_put_module(
    table: Seq<(IdentifierView, ModuleView)>,
    key: IdentifierView,
    m: ModuleView,
)
    requires
        once_modules(table),
        numbered_once(table_keys(table)),
        once_module(m),
    ensures
        once_modules(crate::air::table::spec_put(table, key, m)),
        numbered_once(table_keys(crate::air::table::spec_put(table, key, m))),
{
    lemma_put_numbered_once(table, key, m);
    crate::air::table::lemma_put_found(table, key, m);
    let after = crate::air::table::spec_put(table, key, m);
    let at = crate::air::table::first_with_id(table_keys(after), key.id, 0)->0;
    assert forall|i: int| 0 <= i < after.len() implies once_module((#[trigger] after[i]).1) by {
        if i != at {
            assert(after[i] == table[i]);
        }
    }
}

/// Writing a function keeps every table numbered once.
pub proof fn lemma_once_store_function(s: ResolverView, f: FunctionView)
    requires
        once_state(s),
    ensures
        once_state(store_function(s, f)),
{
    let after = store_function(s, f);
    lemma_put_numbered_once(s.context.function_table, f.symbol, f);
    if s.modules.len() > 0 {
        let top = s.modules.last();
        assert(once_module(top));
        lemma_put_numbered_once(top.function_table, f.symbol, f);
        assert forall|i: int| 0 <= i < after.modules.len() implies once_module(
            #[trigger] after.modules[i],
        ) by {
            if i < after.modules.len() - 1 {
                assert(after.modules[i] == s.modules[i]);
            }
        }
    }
}

/// Writing a type keeps every table numbered once.
pub proof fn lemma_once_store_type(s: ResolverView, symbol: IdentifierView, t: TypeView)
    requires
        once_state(s),
    ensures
        once_state(store_type(s, symbol, t)),
{
    let after = store_type(s, symbol, t);
    lemma_put_numbered_once(s.context.type_table, symbol, t);
    if s.modules.len() > 0 {
        let top = s.modules.last();
        assert(once_module(top));
        lemma_put_numbered_once(top.type_table, symbol, t);
        assert forall|i: int| 0 <= i < after.modules.len() implies once_module(
            #[trigger] after.modules[i],
        ) by {
            if i < after.modules.len() - 1 {
                assert(after.modules[i] == s.modules[i]);
            }
        }
    }
}

/// Writing a module whose tables are numbered once keeps every table
/// numbered once.
pub proof fn lemma_once_store_module(s: ResolverView, m: ModuleView)
    requires
        once_state(s),
        once_module(m),
    ensures
        once_state(store_module(s, m)),
{
    let after = store_module(s, m);
    lemma_once_put_module(s.context.module_table, m.symbol, m);
    if s.modules.len() > 0 {
        let top = s.modules.last();
        assert(once_module(top));
        lemma_once_put_module(top.module_table, m.symbol, m);
        assert forall|i: int| 0 <= i < after.modules.len() implies once_module(
            #[trigger] after.modules[i],
        ) by {
            if i < after.modules.len() - 1 {
                assert(after.modules[i] == s.modules[i]);
            }
        }
    }
}

/// Declaring a function keeps every table numbered once.
pub proof fn lemma_once_declare_function(s: ResolverView, f: FunctionView, span: SpanView)
    requires
        once_state(s),
    ensures
        once_state(declare_function(s, f, span).0),
{
    lemma_once_store_function(s, f);
}

/// The resolution of the profile of a function keeps every table numbered
/// once.
pub proof fn lemma_once_function_profile(s: ResolverView, d: ast::FunctionDecl)
    requires
        once_state(s),
    ensures
        once_state(resolve_function_profile(s, d).0),
{
    lemma_resolve_variables_typed(s, d.formals@, d.formals@.len());
    let (s1, formals) = resolve_variables(s, d.formals@, d.formals@.len());
    lemma_resolve_type_typed(s1, d.ret);
    let (s2, ret) = resolve_type(s1, d.ret);
    lemma_once_kept(s, s2);
    let f = FunctionView { symbol: d.symbol@, formals, ret, body: None };
    lemma_once_store_function(s2, f);
}

/// The resolution of a function keeps every table numbered once.
pub proof fn lemma_once_function(s: ResolverView, d: ast::FunctionDecl)
    requires
        once_state(s),
    ensures
        once_state(resolve_function(s, d).0),
{
    lemma_once_function_profile(s, d);
    let (s1, profile) = resolve_function_profile(s, d);
    if profile is Some {
        let p = profile->0;
        let s2 = push_function(s1, p);
        if !d.is_extern && d.body is Some {
            lemma_resolve_body(s2, d.body->0);
        }
        let (s3, body) = if d.is_extern {
            (s2, None)
        } else {
            match d.body {
                Some(e) => {
                    let (s3, block) = resolve_body(s2, e);
                    (s3, Some(block))
                },
                None => (s2, None),
            }
        };
        let s4 = pop_function(s3);
        lemma_once_kept(s1, s4);
        lemma_once_store_function(s4, FunctionView { body, ..p });
    }
}

/// The resolution of the declaration of a type keeps every table numbered
/// once.
pub proof fn lemma_once_type_decl(s: ResolverView, d: ast::TypeDecl)
    requires
        once_state(s),
    ensures
        once_state(resolve_type_decl(s, d).0),
{
    let (s1, identifier) = anonymous(s);
    let s2 = push_block(
        s1,
        BlockScopeView {
            type_table: generics_table(d.params@),
            ..block_scope(identifier, Seq::empty())
        },
    );
    lemma_resolve_type_kind_typed(s2, d);
    let (s3, t) = resolve_type_kind(s2, d);
    let s4 = pop_block(s3);
    lemma_once_kept(s, s4);
    lemma_once_store_type(s4, d.symbol@, t);
}

/// One pass over the declarations of a module keeps every table numbered
/// once.
pub proof fn lemma_once_statements(
    s: ResolverView,
    statements: Seq<ast::Statement>,
    n: nat,
    phase: Phase,
)
    requires
        once_state(s),
    ensures
        once_state(resolve_statements(s, statements, n, phase)),
    decreases statements, n,
{
    if !(n == 0 || n > statements.len()) {
        lemma_once_statements(s, statements, (n - 1) as nat, phase);
        let s1 = resolve_statements(s, statements, (n - 1) as nat, phase);
        match (phase, statements[n - 1]) {
            (Phase::Modules, ast::Statement::Module(m)) => {
                lemma_once_module(s1, m);
            },
            (Phase::Types, ast::Statement::Type(t)) => {
                lemma_once_type_decl(s1, t);
            },
            (Phase::Profiles, ast::Statement::Function(f)) => {
                lemma_once_function_profile(s1, f);
            },
            (Phase::Bodies, ast::Statement::Function(f)) => {
                if has_profile(s1, f) {
                    lemma_once_function(s1, f);
                }
            },
            _ => {},
        }
    }
}

/// In a resolved module, and in every module inside it, no two functions,
/// no two modules and no two types of one table have the same identity;
/// and the resolution leaves the tables of the context and of the open
/// modules so.
pub proof fn lemma_once_module(s: ResolverView, d: ast::ModuleDecl)
    requires
        once_state(s),
    ensures
        once_state(resolve_module(s, d).0),
        resolve_module(s, d).1 matches Some(m) ==> once_module(m),
    decreases d, 1nat,
{
    let empty = module_profile(d.identifier@);
    if !spec_clashes(module_scope(s), empty.symbol) {
        lemma_once_store_module(s, empty);
        let s0 = store_module(s, empty);
        let s1 = push_module(s0, empty);
        assert(once_state(s1)) by {
            assert forall|i: int| 0 <= i < s1.modules.len() implies once_module(
                #[trigger] s1.modules[i],
            ) by {
                if i < s0.modules.len() {
                    assert(s1.modules[i] == s0.modules[i]);
                }
            }
        }
        let n = d.statements@.len();
        lemma_once_passes(s1, d);
        let s2 = resolve_statements(s1, d.statements@, n, Phase::Modules);
        let s3 = resolve_statements(s2, d.statements@, n, Phase::Types);
        let s4 = resolve_statements(s3, d.statements@, n, Phase::Profiles);
        let s5 = resolve_statements(s4, d.statements@, n, Phase::Bodies);
        let m = if s5.modules.len() > 0 {
            s5.modules.last()
        } else {
            empty
        };
        let s6 = pop_module(s5);
        assert(once_state(s6)) by {
            assert forall|i: int| 0 <= i < s6.modules.len() implies once_module(
                #[trigger] s6.modules[i],
            ) by {
                assert(s6.modules[i] == s5.modules[i]);
            }
        }
        lemma_once_store_module(s6, m);
    }
}

/// The four passes over the declarations of a module.
proof fn lemma_once_passes(s: ResolverView, d: ast::ModuleDecl)
    requires
        once_state(s),
    ensures
        ({
            let n = d.statements@.len();
            let s2 = resolve_statements(s, d.statements@, n, Phase::Modules);
            let s3 = resolve_statements(s2, d.statements@, n, Phase::Types);
            let s4 = resolve_statements(s3, d.statements@, n, Phase::Profiles);
            once_state(resolve_statements(s4, d.statements@, n, Phase::Bodies))
        }),
    decreases d, 0nat,
{
    let n = d.statements@.len();
    lemma_once_statements(s, d.statements@, n, Phase::Modules);
    let s2 = resolve_statements(s, d.statements@, n, Phase::Modules);
    lemma_once_statements(s2, d.statements@, n, Phase::Types);
    let s3 = resolve_statements(s2, d.statements@, n, Phase::Types);
    lemma_once_statements(s3, d.statements@, n, Phase::Profiles);
    let s4 = resolve_statements(s3, d.statements@, n, Phase::Profiles);
    lemma_once_statements(s4, d.statements@, n, Phase::Bodies);
}

/// In the state of a resolver that holds no declaration and has no module
/// open, no table holds a number twice.
pub proof fn lemma_once_at_first(s: ResolverView)
    requires
        s.context.function_table.len() == 0,
        s.context.module_table.len() == 0,
        s.context.type_table.len() == 0,
        s.modules.len() == 0,
    ensures
        once_state(s),
{
}

} // verus!
