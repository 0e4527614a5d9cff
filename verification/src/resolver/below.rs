//! The identities that a resolved module keeps from the source lie below
//! the identities that the resolver makes.

use vstd::prelude::*;
use crate::air::table::{first_with_id, lemma_first_with_id, lemma_put_found, spec_clashes, spec_put, table_keys};
use crate::air::{FunctionView, ModuleView, TypeView, VariableView};
use crate::ast;
use crate::identifier::IdentifierView;
use super::declared::{
    declared_ids, kept_ids, kept_in_block, lemma_kept_block, lemma_kept_expr,
};
use super::laws::{
    lemma_resolve_type_kind_typed, lemma_resolve_type_typed, lemma_resolve_variables_typed,
};
use super::model::{
    anonymous, block_scope, generics_table, has_profile, module_profile, module_scope,
    pop_block, pop_function, pop_module, push_block, push_function, push_module,
    resolve_body, resolve_expr, resolve_function, resolve_function_profile, resolve_module,
    resolve_statements, resolve_type, resolve_type_decl, resolve_type_kind, resolve_variable,
    resolve_variables, store_function, store_module, store_type, Phase,
};
use super::scope::{BlockScopeView, ResolverView};
use super::unique::{lemma_resolve_body, lemma_resolve_statements};

verus! {

/// Every number is below the bound.
pub open spec fn all_below(ids: Seq<u64>, bound: u64) -> bool {
    forall|i: int| 0 <= i < ids.len() ==> #[trigger] ids[i] < bound
}

/// The symbols that the declaration of a function declares are below the
/// bound: its own, those of its formals, and those in its body.
pub open spec fn function_decl_below(d: ast::FunctionDecl, bound: u64) -> bool {
    &&& d.symbol@.id < bound
    &&& forall|i: int| 0 <= i < d.formals@.len() ==> (#[trigger] d.formals@[i]).symbol@.id < bound
    &&& d.body matches Some(e) ==> all_below(declared_ids(e), bound)
}

/// The symbols that the declaration of a module declares are below the
/// bound: its own, and those of the declarations in it.
pub open spec fn module_decl_below(d: ast::ModuleDecl, bound: u64) -> bool
    decreases d,
{
    &&& d.identifier@.id < bound
    &&& forall|j: int|
        0 <= j < d.statements@.len() ==> statement_below(#[trigger] d.statements@[j], bound)
}

/// The symbols that a declaration declares are below the bound.
pub open spec fn statement_below(st: ast::Statement, bound: u64) -> bool
    decreases st,
{
    match st {
        ast::Statement::Function(f) => function_decl_below(f, bound),
        ast::Statement::Module(m) => module_decl_below(m, bound),
        ast::Statement::Type(t) => t.symbol@.id < bound,
    }
}

/// The symbols of a resolved function are below the bound: its own, those
/// of its formals, and those that its body keeps from the source.
pub open spec fn function_below(f: FunctionView, bound: u64) -> bool {
    &&& f.symbol.id < bound
    &&& forall|i: int| 0 <= i < f.formals.len() ==> (#[trigger] f.formals[i]).symbol.id < bound
    &&& f.body matches Some(b) ==> all_below(kept_in_block(b), bound)
}

/// Every function of the table stands under its own symbol, and its
/// symbols are below the bound.
pub open spec fn functions_below(t: Seq<(IdentifierView, FunctionView)>, bound: u64) -> bool {
    forall|i: int|
        0 <= i < t.len() ==> (#[trigger] t[i]).0 == t[i].1.symbol && function_below(
            t[i].1,
            bound,
        )
}

/// The symbols of a resolved module are below the bound: its own, and
/// those of its functions, modules and types, each of which stands under
/// its own symbol.
pub open spec fn module_below(m: ModuleView, bound: u64) -> bool
    decreases m,
{
    &&& m.symbol.id < bound
    &&& functions_below(m.function_table, bound)
    &&& modules_below(m.module_table, bound)
    &&& types_below(m.type_table, bound)
}

/// Every module of the table stands under its own symbol, and its symbols
/// are below the bound.
pub open spec fn modules_below(t: Seq<(IdentifierView, ModuleView)>, bound: u64) -> bool
    decreases t,
{
    forall|i: int|
        0 <= i < t.len() ==> (#[trigger] t[i]).0 == t[i].1.symbol && module_below(t[i].1, bound)
}

/// Every type of the table stands under a symbol below the bound.
pub open spec fn types_below(t: Seq<(IdentifierView, TypeView)>, bound: u64) -> bool {
    forall|i: int| 0 <= i < t.len() ==> (#[trigger] t[i]).0.id < bound
}

/// Every declaration that the state of the resolver holds, in the context
/// and in the open modules, has its symbols below the bound.
pub open spec fn state_below(s: ResolverView, bound: u64) -> bool {
    &&& functions_below(s.context.function_table, bound)
    &&& modules_below(s.context.module_table, bound)
    &&& types_below(s.context.type_table, bound)
    &&& forall|i: int| 0 <= i < s.modules.len() ==> module_below(#[trigger] s.modules[i], bound)
}

/// A step that leaves the context and the open modules alone.
pub proof fn lemma_below_kept(s: ResolverView, after: ResolverView, bound: u64)
    requires
        state_below(s, bound),
        after.context == s.context,
        after.modules == s.modules,
    ensures
        state_below(after, bound),
{
}

proof fn lemma_below_put_function(
    t: Seq<(IdentifierView, FunctionView)>,
    f: FunctionView,
    bound: u64,
)
    requires
        functions_below(t, bound),
        function_below(f, bound),
    ensures
        functions_below(spec_put(t, f.symbol, f), bound),
{
    lemma_put_found(t, f.symbol, f);
    let after = spec_put(t, f.symbol, f);
    let at = first_with_id(table_keys(after), f.symbol.id, 0)->0;
    assert forall|i: int| 0 <= i < after.len() implies (#[trigger] after[i]).0
        == after[i].1.symbol && function_below(after[i].1, bound) by {
        if i != at {
            assert(after[i] == t[i]);
        }
    }
}

proof fn lemma_below_put_module(t: Seq<(IdentifierView, ModuleView)>, m: ModuleView, bound: u64)
    requires
        modules_below(t, bound),
        module_below(m, bound),
    ensures
        modules_below(spec_put(t, m.symbol, m), bound),
{
    lemma_put_found(t, m.symbol, m);
    let after = spec_put(t, m.symbol, m);
    let at = first_with_id(table_keys(after), m.symbol.id, 0)->0;
    assert forall|i: int| 0 <= i < after.len() implies (#[trigger] after[i]).0
        == after[i].1.symbol && module_below(after[i].1, bound) by {
        if i != at {
            assert(after[i] == t[i]);
        }
    }
}

proof fn lemma_below_put_type(
    t: Seq<(IdentifierView, TypeView)>,
    symbol: IdentifierView,
    ty: TypeView,
    bound: u64,
)
    requires
        types_below(t, bound),
        symbol.id < bound,
    ensures
        types_below(spec_put(t, symbol, ty), bound),
{
    lemma_put_found(t, symbol, ty);
    let after = spec_put(t, symbol, ty);
    let at = first_with_id(table_keys(after), symbol.id, 0)->0;
    assert forall|i: int| 0 <= i < after.len() implies (#[trigger] after[i]).0.id < bound by {
        if i != at {
            assert(after[i] == t[i]);
        }
    }
}

/// Writing a function whose symbols are below the bound.
pub proof fn lemma_below_store_function(s: ResolverView, f: FunctionView, bound: u64)
    requires
        state_below(s, bound),
        function_below(f, bound),
    ensures
        state_below(store_function(s, f), bound),
{
    let after = store_function(s, f);
    lemma_below_put_function(s.context.function_table, f, bound);
    if s.modules.len() > 0 {
        let top = s.modules.last();
        assert(module_below(top, bound));
        lemma_below_put_function(top.function_table, f, bound);
        assert forall|i: int| 0 <= i < after.modules.len() implies module_below(
            #[trigger] after.modules[i],
            bound,
        ) by {
            if i < after.modules.len() - 1 {
                assert(after.modules[i] == s.modules[i]);
            }
        }
    }
}

/// Writing a module whose symbols are below the bound.
pub proof fn lemma_below_store_module(s: ResolverView, m: ModuleView, bound: u64)
    requires
        state_below(s, bound),
        module_below(m, bound),
    ensures
        state_below(store_module(s, m), bound),
{
    let after = store_module(s, m);
    lemma_below_put_module(s.context.module_table, m, bound);
    if s.modules.len() > 0 {
        let top = s.modules.last();
        assert(module_below(top, bound));
        lemma_below_put_module(top.module_table, m, bound);
        assert forall|i: int| 0 <= i < after.modules.len() implies module_below(
            #[trigger] after.modules[i],
            bound,
        ) by {
            if i < after.modules.len() - 1 {
                assert(after.modules[i] == s.modules[i]);
            }
        }
    }
}

/// Writing a type under a symbol below the bound.
pub proof fn lemma_below_store_type(
    s: ResolverView,
    symbol: IdentifierView,
    t: TypeView,
    bound: u64,
)
    requires
        state_below(s, bound),
        symbol.id < bound,
    ensures
        state_below(store_type(s, symbol, t), bound),
{
    let after = store_type(s, symbol, t);
    lemma_below_put_type(s.context.type_table, symbol, t, bound);
    if s.modules.len() > 0 {
        let top = s.modules.last();
        assert(module_below(top, bound));
        lemma_below_put_type(top.type_table, symbol, t, bound);
        assert forall|i: int| 0 <= i < after.modules.len() implies module_below(
            #[trigger] after.modules[i],
            bound,
        ) by {
            if i < after.modules.len() - 1 {
                assert(after.modules[i] == s.modules[i]);
            }
        }
    }
}

/// Resolved variables keep the symbols of the source.
pub proof fn lemma_variables_keep_symbols(s: ResolverView, fs: Seq<ast::FunctionFormal>, n: nat)
    requires
        n <= fs.len(),
    ensures
        resolve_variables(s, fs, n).1.len() == n,
        forall|i: int|
            0 <= i < n ==> (#[trigger] resolve_variables(s, fs, n).1[i]).symbol == fs[i].symbol@,
    decreases n,
{
    reveal_with_fuel(resolve_variables, 2);
    if n > 0 {
        lemma_variables_keep_symbols(s, fs, (n - 1) as nat);
        let (s1, before) = resolve_variables(s, fs, (n - 1) as nat);
        let last = resolve_variable(s1, fs[n - 1]).1;
        let all = resolve_variables(s, fs, n).1;
        assert(all == before.push(last));
        assert(last.symbol == fs[n - 1].symbol@);
        assert forall|i: int| 0 <= i < n implies (#[trigger] all[i]).symbol == fs[i].symbol@ by {
            if i < n - 1 {
                assert(all[i] == before[i]);
            }
        }
    }
}

/// The profile of a function has its symbols below the bound.
pub proof fn lemma_below_function_profile(s: ResolverView, d: ast::FunctionDecl, bound: u64)
    requires
        state_below(s, bound),
        function_decl_below(d, bound),
    ensures
        state_below(resolve_function_profile(s, d).0, bound),
        resolve_function_profile(s, d).1 matches Some(p) ==> function_below(p, bound),
{
    lemma_first_with_id(table_keys(s.context.function_table), d.symbol@.id, 0);
    match first_with_id(table_keys(s.context.function_table), d.symbol@.id, 0) {
        Some(i) => {
            assert(function_below(s.context.function_table[i].1, bound));
        },
        None => {
            lemma_resolve_variables_typed(s, d.formals@, d.formals@.len());
            let (s1, formals) = resolve_variables(s, d.formals@, d.formals@.len());
            lemma_variables_keep_symbols(s, d.formals@, d.formals@.len());
            lemma_resolve_type_typed(s1, d.ret);
            let (s2, ret) = resolve_type(s1, d.ret);
            lemma_below_kept(s, s2, bound);
            let f = FunctionView { symbol: d.symbol@, formals, ret, body: None };
            assert(function_below(f, bound));
            lemma_below_store_function(s2, f, bound);
        },
    }
}

/// The body of a function keeps the symbols that the expression of the
/// source declares.
pub proof fn lemma_kept_body(s: ResolverView, e: ast::Expr)
    ensures
        kept_in_block(resolve_body(s, e).1) == declared_ids(e),
{
    match e {
        ast::Expr::Block(b) => {
            lemma_kept_block(s, *b, Seq::empty());
        },
        _ => {
            let (s1, identifier) = anonymous(s);
            let s2 = push_block(s1, block_scope(identifier, Seq::empty()));
            lemma_kept_expr(s2, e);
            let block = resolve_body(s, e).1;
            assert(kept_in_block(block) =~= kept_ids(resolve_expr(s2, e).1)) by {
                assert(super::declared::kept_in(block.body, 0) =~= Seq::<u64>::empty());
            }
        },
    }
}

/// A resolved function has its symbols below the bound.
pub proof fn lemma_below_function(s: ResolverView, d: ast::FunctionDecl, bound: u64)
    requires
        state_below(s, bound),
        function_decl_below(d, bound),
    ensures
        state_below(resolve_function(s, d).0, bound),
        resolve_function(s, d).1 matches Some(f) ==> function_below(f, bound),
{
    lemma_below_function_profile(s, d, bound);
    let (s1, profile) = resolve_function_profile(s, d);
    if profile is Some {
        let p = profile->0;
        let s2 = push_function(s1, p);
        if !d.is_extern && d.body is Some {
            lemma_resolve_body(s2, d.body->0);
            lemma_kept_body(s2, d.body->0);
        }
        let (s3, body) = if d.is_extern {
            (s2, None)
        } else {
            match d.body {
                Some(e) => {
                    let (s3, block) = resolve_body(s2, e);
                    (s3, Some(block))
                },
                None => (s2, None),
            }
        };
        let s4 = pop_function(s3);
        lemma_below_kept(s1, s4, bound);
        let f = FunctionView { body, ..p };
        assert(function_below(f, bound));
        lemma_below_store_function(s4, f, bound);
    }
}

/// The declaration of a type keeps every symbol below the bound.
pub proof fn lemma_below_type_decl(s: ResolverView, d: ast::TypeDecl, bound: u64)
    requires
        state_below(s, bound),
        d.symbol@.id < bound,
    ensures
        state_below(resolve_type_decl(s, d).0, bound),
{
    let (s1, identifier) = anonymous(s);
    let s2 = push_block(
        s1,
        BlockScopeView {
            type_table: generics_table(d.params@),
            ..block_scope(identifier, Seq::empty())
        },
    );
    lemma_resolve_type_kind_typed(s2, d);
    let (s3, t) = resolve_type_kind(s2, d);
    let s4 = pop_block(s3);
    lemma_below_kept(s, s4, bound);
    lemma_below_store_type(s4, d.symbol@, t, bound);
}

/// One pass over the declarations of a module keeps every symbol below the
/// bound.
pub proof fn lemma_below_statements(
    s: ResolverView,
    statements: Seq<ast::Statement>,
    n: nat,
    phase: Phase,
    bound: u64,
)
    requires
        state_below(s, bound),
        forall|j: int| 0 <= j < statements.len() ==> statement_below(#[trigger] statements[j], bound),
    ensures
        state_below(resolve_statements(s, statements, n, phase), bound),
    decreases statements, n,
{
    if !(n == 0 || n > statements.len()) {
        lemma_below_statements(s, statements, (n - 1) as nat, phase, bound);
        let s1 = resolve_statements(s, statements, (n - 1) as nat, phase);
        assert(statement_below(statements[n - 1], bound));
        match (phase, statements[n - 1]) {
            (Phase::Modules, ast::Statement::Module(m)) => {
                lemma_below_module(s1, m, bound);
            },
            (Phase::Types, ast::Statement::Type(t)) => {
                lemma_below_type_decl(s1, t, bound);
            },
            (Phase::Profiles, ast::Statement::Function(f)) => {
                lemma_below_function_profile(s1, f, bound);
            },
            (Phase::Bodies, ast::Statement::Function(f)) => {
                if has_profile(s1, f) {
                    lemma_below_function(s1, f, bound);
                }
            },
            _ => {},
        }
    }
}

/// A resolved module keeps its symbols from the source: where the symbols
/// that the source declares are below a bound, so are the symbols of the
/// module, of its functions and their formals, of the variables in their
/// bodies, and of its modules and types; and every function and module
/// stands under its own symbol.
pub proof fn lemma_below_module(s: ResolverView, d: ast::ModuleDecl, bound: u64)
    requires
        state_below(s, bound),
        module_decl_below(d, bound),
    ensures
        state_below(resolve_module(s, d).0, bound),
        resolve_module(s, d).1 matches Some(m) ==> module_below(m, bound),
    decreases d, 1nat,
{
    let empty = module_profile(d.identifier@);
    if !spec_clashes(module_scope(s), empty.symbol) {
        assert(module_below(empty, bound));
        lemma_below_store_module(s, empty, bound);
        let s0 = store_module(s, empty);
        let s1 = push_module(s0, empty);
        assert(state_below(s1, bound)) by {
            assert forall|i: int| 0 <= i < s1.modules.len() implies module_below(
                #[trigger] s1.modules[i],
                bound,
            ) by {
                if i < s0.modules.len() {
                    assert(s1.modules[i] == s0.modules[i]);
                }
            }
        }
        let n = d.statements@.len();
        lemma_below_passes(s1, d, bound);
        let s2 = resolve_statements(s1, d.statements@, n, Phase::Modules);
        let s3 = resolve_statements(s2, d.statements@, n, Phase::Types);
        let s4 = resolve_statements(s3, d.statements@, n, Phase::Profiles);
        let s5 = resolve_statements(s4, d.statements@, n, Phase::Bodies);
        let m = if s5.modules.len() > 0 {
            s5.modules.last()
        } else {
            empty
        };
        let s6 = pop_module(s5);
        assert(state_below(s6, bound)) by {
            assert forall|i: int| 0 <= i < s6.modules.len() implies module_below(
                #[trigger] s6.modules[i],
                bound,
            ) by {
                assert(s6.modules[i] == s5.modules[i]);
            }
        }
        lemma_below_store_module(s6, m, bound);
    }
}

/// The four passes over the declarations of a module.
proof fn lemma_below_passes(s: ResolverView, d: ast::ModuleDecl, bound: u64)
    requires
        state_below(s, bound),
        module_decl_below(d, bound),
    ensures
        ({
            let n = d.statements@.len();
            let s2 = resolve_statements(s, d.statements@, n, Phase::Modules);
            let s3 = resolve_statements(s2, d.statements@, n, Phase::Types);
            let s4 = resolve_statements(s3, d.statements@, n, Phase::Profiles);
            state_below(resolve_statements(s4, d.statements@, n, Phase::Bodies), bound)
        }),
    decreases d, 0nat,
{
    let n = d.statements@.len();
    lemma_below_statements(s, d.statements@, n, Phase::Modules, bound);
    let s2 = resolve_statements(s, d.statements@, n, Phase::Modules);
    lemma_below_statements(s2, d.statements@, n, Phase::Types, bound);
    let s3 = resolve_statements(s2, d.statements@, n, Phase::Types);
    lemma_below_statements(s3, d.statements@, n, Phase::Profiles, bound);
    let s4 = resolve_statements(s3, d.statements@, n, Phase::Profiles);
    lemma_below_statements(s4, d.statements@, n, Phase::Bodies, bound);
}

/// In a resolved module no identity of a node is an identity that the
/// module keeps from the source, where the symbols of the source are below
/// the next identity of the resolver: the identities of the nodes were all
/// taken from there on, and no two of them are the same; the identities
/// that are kept all lie below - unless the identities have run out, which
/// the state records.
pub proof fn lemma_made_apart_from_kept(s: ResolverView, d: ast::ModuleDecl)
    requires
        state_below(s, s.next),
        module_decl_below(d, s.next),
    ensures
        resolve_module(s, d).1 matches Some(m) ==> module_below(m, s.next) && (!resolve_module(
            s,
            d,
        ).0.exhausted ==> super::unique::tidy(
            super::unique::module_ids(m),
            s.next,
            resolve_module(s, d).0.next,
        )),
{
    lemma_below_module(s, d, s.next);
    super::unique::lemma_module_nodes_unique(s, d);
}

/// The numbers of the symbols that the declaration of a function
/// declares: its own, those of its formals, and those in its body, where
/// the body is resolved.
pub open spec fn function_decl_ids(d: ast::FunctionDecl) -> Seq<u64> {
    seq![d.symbol@.id] + Seq::new(d.formals@.len(), |i: int| d.formals@[i].symbol@.id) + (if !d.is_extern
        && d.body is Some {
        declared_ids(d.body->0)
    } else {
        Seq::empty()
    })
}

/// All identities of a resolved function: its symbol, the symbols of its
/// formals, the symbols that its body keeps from the source, and the
/// identities of the nodes of its body.
pub open spec fn function_all_ids(f: FunctionView) -> Seq<u64> {
    seq![f.symbol.id] + super::laws::variable_ids(f.formals) + (match f.body {
        Some(b) => kept_in_block(b),
        None => Seq::empty(),
    }) + super::unique::function_ids(f)
}

/// No two identities of a resolved function are the same, where its
/// profile is resolved from its declaration and the symbols of the
/// declaration are numbered well: no two of them have the same number, and
/// all are below the next identity of the resolver. The symbol of the
/// function, the symbols of its formals, the variables of its body and the
/// nodes of its body all differ - unless the identities have run out,
/// which the state records.
pub proof fn lemma_function_identities_unique(s: ResolverView, d: ast::FunctionDecl)
    requires
        !has_profile(s, d),
        function_decl_ids(d).no_duplicates(),
        all_below(function_decl_ids(d), s.next),
    ensures
        resolve_function(s, d).1 matches Some(f) ==> (!resolve_function(s, d).0.exhausted
            ==> function_all_ids(f).no_duplicates()),
{
    let (after, function) = resolve_function(s, d);
    if function is Some && !after.exhausted {
        let f = function->0;
        super::unique::lemma_resolve_function(s.next, s, d);
        lemma_variables_keep_symbols(s, d.formals@, d.formals@.len());
        let (s1, profile) = resolve_function_profile(s, d);
        let p = profile->0;
        let s2 = push_function(s1, p);
        if !d.is_extern && d.body is Some {
            lemma_kept_body(s2, d.body->0);
        }
        let kept = seq![f.symbol.id] + super::laws::variable_ids(f.formals) + (match f.body {
            Some(b) => kept_in_block(b),
            None => Seq::empty(),
        });
        assert(kept =~= function_decl_ids(d));
        let made = super::unique::function_ids(f);
        let all = kept + made;
        assert forall|i: int, j: int| 0 <= i < all.len() && 0 <= j < all.len() && i != j implies all[i]
            != all[j] by {
            if i < kept.len() {
                assert(all[i] == kept[i]);
            } else {
                assert(all[i] == made[i - kept.len()]);
            }
            if j < kept.len() {
                assert(all[j] == kept[j]);
            } else {
                assert(all[j] == made[j - kept.len()]);
            }
        }
        assert(function_all_ids(f) =~= all);
    }
}

/// In a resolved module no two functions have the same identity, no two
/// modules, and no two types; and none of them has the identity of a node.
/// This holds of the tables of every module inside it as well.
pub proof fn lemma_declarations_differ(s: ResolverView, d: ast::ModuleDecl)
    requires
        super::once::once_state(s),
        state_below(s, s.next),
        module_decl_below(d, s.next),
    ensures
        resolve_module(s, d).1 matches Some(m) ==> {
            &&& super::once::once_module(m)
            &&& module_below(m, s.next)
            &&& forall|i: int, j: int|
                0 <= i < j < m.function_table.len() ==> (#[trigger] m.function_table[i]).1.symbol.id
                    != (#[trigger] m.function_table[j]).1.symbol.id
            &&& forall|i: int, j: int|
                0 <= i < j < m.module_table.len() ==> (#[trigger] m.module_table[i]).1.symbol.id
                    != (#[trigger] m.module_table[j]).1.symbol.id
            &&& forall|i: int, j: int|
                0 <= i < j < m.type_table.len() ==> (#[trigger] m.type_table[i]).0.id
                    != (#[trigger] m.type_table[j]).0.id
        },
{
    super::once::lemma_once_module(s, d);
    lemma_below_module(s, d, s.next);
    if resolve_module(s, d).1 is Some {
        let m = resolve_module(s, d).1->0;
        assert forall|i: int, j: int| 0 <= i < j < m.function_table.len() implies (
        #[trigger] m.function_table[i]).1.symbol.id != (#[trigger] m.function_table[j]).1.symbol.id by {
            assert(table_keys(m.function_table)[i] == m.function_table[i].0);
            assert(table_keys(m.function_table)[j] == m.function_table[j].0);
        }
        assert forall|i: int, j: int| 0 <= i < j < m.module_table.len() implies (
        #[trigger] m.module_table[i]).1.symbol.id != (#[trigger] m.module_table[j]).1.symbol.id by {
            assert(table_keys(m.module_table)[i] == m.module_table[i].0);
            assert(table_keys(m.module_table)[j] == m.module_table[j].0);
        }
        assert forall|i: int, j: int| 0 <= i < j < m.type_table.len() implies (
        #[trigger] m.type_table[i]).0.id != (#[trigger] m.type_table[j]).0.id by {
            assert(table_keys(m.type_table)[i] == m.type_table[i].0);
            assert(table_keys(m.type_table)[j] == m.type_table[j].0);
        }
    }
}

} // verus!
