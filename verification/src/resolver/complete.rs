//! A module that was resolved without an error is complete: every function
//! of it has a body, unless its declaration is extern.

use vstd::prelude::*;
use crate::air::table::{
    first_with_id, lemma_put_each, lemma_put_found, spec_clashes, spec_put, table_keys,
};
use crate::air::{FunctionView, ModuleView};
use crate::ast;
use super::below::{function_decl_ids, lemma_kept_body};
use super::laws::{lemma_resolve_type_typed, lemma_resolve_variables_typed};
use super::model::{
    has_profile, module_profile, module_scope, pop_function, push_function, push_module,
    resolve_body, resolve_function, resolve_function_profile, resolve_module,
    resolve_statements, resolve_variables, store_module, Phase,
};
use super::once::{once_module, once_state};
use super::scope::ResolverView;
use super::sourced::{
    declared_apart, declared_once, declares, entered, follows, function_sourced, lemma_opened,
    lemma_sourced_module, lemma_track_profile, lemma_track_statements, lemma_track_type, lookup,
    module_declares, module_sourced, sourced, statement_declared_once, traced, unknown, unseen,
};
use super::unique::{lemma_resolve_body, lemma_resolve_statements};

verus! {

/// The functions of the module that come from the first `n` declarations
/// have a body exactly where their declaration is not extern.
pub open spec fn completed(m: ModuleView, statements: Seq<ast::Statement>, n: nat) -> bool {
    forall|i: int, l: int|
        0 <= i < m.function_table.len() && 0 <= l < n && l < statements.len() && function_sourced(
            #[trigger] m.function_table[i],
            #[trigger] statements[l],
        ) ==> (m.function_table[i].1.body is None <==> (statements[l]->Function_0).is_extern)
}

/// The resolution of a declared function whose profile is declared: the
/// function has the symbols of the declaration and is written into the
/// innermost open module; and where no error was recorded it has a body
/// exactly where the declaration is not extern.
pub proof fn lemma_function_stored(s: ResolverView, statements: Seq<ast::Statement>, j: int)
    requires
        traced(s, statements),
        declared_apart(statements),
        0 <= j < statements.len(),
        statements[j] is Function,
        has_profile(s, statements[j]->Function_0),
    ensures
        resolve_function(s, statements[j]->Function_0).1 matches Some(f) && follows(
            f,
            statements[j]->Function_0,
        ) && resolve_function(s, statements[j]->Function_0).0.modules.last().function_table
            == spec_put(s.modules.last().function_table, f.symbol, f) && (resolve_function(
            s,
            statements[j]->Function_0,
        ).0.errors == s.errors ==> (f.body is None <==> (statements[j]->Function_0).is_extern)),
{
    let d = statements[j]->Function_0;
    let after = resolve_function(s, d).0;
    lemma_track_profile(s, statements, j);
    let (s1, profile) = resolve_function_profile(s, d);
    assert(s1 == s);
    let p = profile->0;
    let s2 = push_function(s1, p);
    if !d.is_extern && d.body is Some {
        lemma_resolve_body(s2, d.body->0);
        lemma_kept_body(s2, d.body->0);
    }
    let (s3, body) = if d.is_extern {
        (s2, None)
    } else {
        match d.body {
            Some(e) => {
                let (s3, block) = resolve_body(s2, e);
                (s3, Some(block))
            },
            None => (s2, None),
        }
    };
    let s4 = pop_function(s3);
    assert(s4.modules == s.modules);
    let f = FunctionView { body, ..p };
    assert(follows(f, d));
}

/// The pass over the bodies of the first `n` declarations of an open
/// module: where it records no error, every function of the module that
/// comes from one of them has a body exactly where its declaration is not
/// extern.
pub proof fn lemma_bodies_completed(s: ResolverView, statements: Seq<ast::Statement>, n: nat)
    requires
        traced(s, statements),
        once_state(s),
        declared_apart(statements),
        forall|j: int| 0 <= j < statements.len() ==> statement_declared_once(#[trigger] statements[j]),
        n <= statements.len(),
    ensures
        resolve_statements(s, statements, n, Phase::Bodies).errors == s.errors ==> completed(
            resolve_statements(s, statements, n, Phase::Bodies).modules.last(),
            statements,
            n,
        ),
    decreases n,
{
    let after = resolve_statements(s, statements, n, Phase::Bodies);
    if n > 0 && after.errors == s.errors {
        let j = n - 1;
        let s1 = resolve_statements(s, statements, (n - 1) as nat, Phase::Bodies);
        lemma_bodies_completed(s, statements, (n - 1) as nat);
        lemma_track_statements(s, statements, (n - 1) as nat, Phase::Bodies);
        lemma_track_statements(s, statements, n, Phase::Bodies);
        lemma_resolve_statements(0, s, statements, (n - 1) as nat, Phase::Bodies);
        let before = s1.modules.last();
        let m = after.modules.last();
        assert(once_module(after.modules[after.modules.len() - 1]));
        match statements[j] {
            ast::Statement::Function(d) => {
                if has_profile(s1, d) {
                    crate::resolver::unique::lemma_resolve_function(0, s1, d);
                    assert(s1.errors == s.errors) by {
                        assert(after.errors.subrange(0, s1.errors.len() as int) == s1.errors);
                        assert(s1.errors.len() == s.errors.len());
                        assert(after.errors.subrange(0, after.errors.len() as int) =~= after.errors);
                    }
                    lemma_function_stored(s1, statements, j);
                    let f = resolve_function(s1, d).1->0;
                    lemma_put_each(before.function_table, f.symbol, f);
                    lemma_put_found(before.function_table, f.symbol, f);
                    let at = first_with_id(table_keys(m.function_table), f.symbol.id, 0)->0;
                    assert(function_decl_ids(d)[0] == d.symbol@.id);
                    assert(declares(statements[j], d.symbol@.id));
                    assert forall|i: int, l: int|
                        0 <= i < m.function_table.len() && 0 <= l < n && function_sourced(
                            #[trigger] m.function_table[i],
                            #[trigger] statements[l],
                        ) implies (m.function_table[i].1.body is None <==> (
                    statements[l]->Function_0).is_extern) by {
                        let e = statements[l]->Function_0;
                        assert(function_decl_ids(e)[0] == e.symbol@.id);
                        assert(declares(statements[l], e.symbol@.id));
                        if m.function_table[i] == (f.symbol, f) {
                            assert(l == j);
                        } else {
                            assert(m.function_table[i] == before.function_table[i]);
                            if l == j {
                                assert(i != at);
                                assert(table_keys(m.function_table)[i].id == table_keys(
                                    m.function_table,
                                )[at].id);
                            }
                        }
                    }
                } else {
                    assert forall|i: int, l: int|
                        0 <= i < m.function_table.len() && 0 <= l < n && function_sourced(
                            #[trigger] m.function_table[i],
                            #[trigger] statements[l],
                        ) implies (m.function_table[i].1.body is None <==> (
                    statements[l]->Function_0).is_extern) by {
                        if l == j {
                            assert(lookup(s1, before.function_table[i].0.id) is Some);
                        }
                    }
                }
            },
            _ => {},
        }
    }
}

/// Where two steps in a row leave the errors as they were before the
/// first, the first step left them so: errors are never dropped.
pub proof fn lemma_quiet_between(s: ResolverView, mid: ResolverView, after: ResolverView)
    requires
        crate::resolver::laws::collected(s, mid),
        crate::resolver::laws::collected(mid, after),
        after.errors == s.errors,
    ensures
        mid.errors == s.errors,
{
    assert(mid.errors.len() == s.errors.len());
    assert(mid.errors.subrange(0, mid.errors.len() as int) =~= mid.errors);
}

/// The resolution of a function, or of its profile, leaves the modules of
/// the innermost open module as they are.
pub proof fn lemma_function_keeps_modules(s: ResolverView, d: ast::FunctionDecl)
    requires
        s.modules.len() > 0,
    ensures
        resolve_function_profile(s, d).0.modules.len() > 0,
        resolve_function_profile(s, d).0.modules.last().module_table
            == s.modules.last().module_table,
        resolve_function(s, d).0.modules.len() > 0,
        resolve_function(s, d).0.modules.last().module_table == s.modules.last().module_table,
{
    lemma_resolve_variables_typed(s, d.formals@, d.formals@.len());
    let (t1, formals) = resolve_variables(s, d.formals@, d.formals@.len());
    lemma_resolve_type_typed(t1, d.ret);
    let (s1, profile) = resolve_function_profile(s, d);
    if profile is Some {
        let p = profile->0;
        let s2 = push_function(s1, p);
        if !d.is_extern && d.body is Some {
            lemma_resolve_body(s2, d.body->0);
        }
    }
}

/// Every function of the module has a body exactly where the declaration
/// that it comes from is not extern, and the same holds of every module
/// inside it.
pub open spec fn complete(m: ModuleView, d: ast::ModuleDecl) -> bool
    decreases d,
{
    &&& completed(m, d.statements@, d.statements@.len())
    &&& forall|i: int, j: int|
        0 <= i < m.module_table.len() && 0 <= j < d.statements@.len() && module_sourced(
            #[trigger] m.module_table[i],
            #[trigger] d.statements@[j],
        ) ==> statement_complete(m.module_table[i].1, d.statements@[j])
}

/// Where the declaration is that of a module, the module is complete for
/// it.
pub open spec fn statement_complete(m: ModuleView, st: ast::Statement) -> bool
    decreases st,
{
    match st {
        ast::Statement::Module(d) => complete(m, d),
        _ => true,
    }
}

/// The modules inside the module are complete for the declarations that
/// they come from.
pub open spec fn nested(m: ModuleView, statements: Seq<ast::Statement>) -> bool {
    forall|i: int, j: int|
        0 <= i < m.module_table.len() && 0 <= j < statements.len() && module_sourced(
            #[trigger] m.module_table[i],
            #[trigger] statements[j],
        ) ==> statement_complete(m.module_table[i].1, statements[j])
}

/// One pass over the first `n` declarations of an open module: where it
/// records no error, the modules inside the open module stay complete.
pub proof fn lemma_complete_statements(
    s: ResolverView,
    statements: Seq<ast::Statement>,
    n: nat,
    phase: Phase,
)
    requires
        traced(s, statements),
        once_state(s),
        declared_apart(statements),
        forall|j: int| 0 <= j < statements.len() ==> statement_declared_once(#[trigger] statements[j]),
        phase == Phase::Modules ==> unseen(s, statements, 0),
        n <= statements.len(),
        nested(s.modules.last(), statements),
    ensures
        resolve_statements(s, statements, n, phase).errors == s.errors ==> nested(
            resolve_statements(s, statements, n, phase).modules.last(),
            statements,
        ),
    decreases statements, n,
{
    let after = resolve_statements(s, statements, n, phase);
    if n > 0 && after.errors == s.errors {
        let j = n - 1;
        let s1 = resolve_statements(s, statements, (n - 1) as nat, phase);
        lemma_track_statements(s, statements, (n - 1) as nat, phase);
        lemma_resolve_statements(0, s, statements, (n - 1) as nat, phase);
        let before = s1.modules.last();
        assert(statement_declared_once(statements[j]));
        match (phase, statements[j]) {
            (Phase::Modules, ast::Statement::Module(sub)) => {
                crate::resolver::unique::lemma_resolve_module(0, s1, sub);
                lemma_quiet_between(s, s1, after);
                lemma_complete_statements(s, statements, (n - 1) as nat, phase);
                assert forall|x: u64| #[trigger] module_declares(sub, x) implies lookup(s1, x) is None by {
                    assert(declares(statements[j], x));
                }
                lemma_sourced_module(s1, sub);
                lemma_complete_module(s1, sub);
                lemma_nested_module(s1, statements, j);
            },
            (Phase::Types, ast::Statement::Type(t)) => {
                crate::resolver::unique::lemma_resolve_type_decl(0, s1, t);
                lemma_quiet_between(s, s1, after);
                lemma_complete_statements(s, statements, (n - 1) as nat, phase);
                lemma_track_type(s1, statements, j);
            },
            (Phase::Profiles, ast::Statement::Function(f)) => {
                crate::resolver::unique::lemma_resolve_function_profile(0, s1, f);
                lemma_quiet_between(s, s1, after);
                lemma_complete_statements(s, statements, (n - 1) as nat, phase);
                lemma_function_keeps_modules(s1, f);
            },
            (Phase::Bodies, ast::Statement::Function(f)) => {
                if has_profile(s1, f) {
                    crate::resolver::unique::lemma_resolve_function(0, s1, f);
                    lemma_quiet_between(s, s1, after);
                    lemma_function_keeps_modules(s1, f);
                }
                lemma_complete_statements(s, statements, (n - 1) as nat, phase);
            },
            _ => {
                lemma_complete_statements(s, statements, (n - 1) as nat, phase);
            },
        }
    }
}

/// The resolution of one of the modules that are declared in an open
/// module, where the resolved module is complete for its declaration.
proof fn lemma_nested_module(s: ResolverView, statements: Seq<ast::Statement>, j: int)
    requires
        traced(s, statements),
        declared_apart(statements),
        0 <= j < statements.len(),
        statements[j] is Module,
        nested(s.modules.last(), statements),
        entered(s, resolve_module(s, statements[j]->Module_0), statements[j]->Module_0),
        resolve_module(s, statements[j]->Module_0).1 matches Some(m) ==> complete(
            m,
            statements[j]->Module_0,
        ),
    ensures
        nested(resolve_module(s, statements[j]->Module_0).0.modules.last(), statements),
{
    let d = statements[j]->Module_0;
    let (after, result) = resolve_module(s, d);
    let top = s.modules.last();
    let key = d.identifier@;
    if result is Some {
        let m = result->0;
        let empty = module_profile(key);
        let first = spec_put(top.module_table, key, empty);
        let table = spec_put(first, key, m);
        lemma_put_each(top.module_table, key, empty);
        lemma_put_each(first, key, m);
        assert(complete(empty, d));
        assert(declares(statements[j], key.id));
        assert forall|i: int, l: int|
            0 <= i < table.len() && 0 <= l < statements.len() && module_sourced(
                #[trigger] table[i],
                #[trigger] statements[l],
            ) implies statement_complete(table[i].1, statements[l]) by {
            if table[i] == (key, m) || first[i] == (key, empty) {
                assert(declares(statements[l], key.id));
                assert(l == j);
            } else {
                assert(table[i] == top.module_table[i]);
            }
        }
    }
}

/// In a module that was resolved without an error, every function has a
/// body exactly where its declaration is not extern: each function of the
/// module, and of every module inside it, comes from a declaration, and it
/// has no body if and only if that declaration is extern.
pub proof fn lemma_complete_module(s: ResolverView, d: ast::ModuleDecl)
    requires
        declared_once(d),
        once_state(s),
        unknown(s, d),
    ensures
        resolve_module(s, d).0.errors == s.errors ==> (resolve_module(s, d).1 matches Some(m)
            ==> sourced(m, d.statements@) && complete(m, d)),
    decreases d, 1nat,
{
    let empty = module_profile(d.identifier@);
    let statements = d.statements@;
    let after = resolve_module(s, d).0;
    lemma_sourced_module(s, d);
    if !spec_clashes(module_scope(s), empty.symbol) && after.errors == s.errors {
        lemma_opened(s, d);
        let s1 = push_module(store_module(s, empty), empty);
        assert(nested(s1.modules.last(), statements));
        lemma_complete_passes(s1, d);
    }
}

/// The four passes over the declarations of an open module, where they
/// record no error.
proof fn lemma_complete_passes(s: ResolverView, d: ast::ModuleDecl)
    requires
        traced(s, d.statements@),
        once_state(s),
        declared_once(d),
        unseen(s, d.statements@, 0),
        nested(s.modules.last(), d.statements@),
    ensures
        ({
            let n = d.statements@.len();
            let s2 = resolve_statements(s, d.statements@, n, Phase::Modules);
            let s3 = resolve_statements(s2, d.statements@, n, Phase::Types);
            let s4 = resolve_statements(s3, d.statements@, n, Phase::Profiles);
            let s5 = resolve_statements(s4, d.statements@, n, Phase::Bodies);
            s5.errors == s.errors ==> complete(s5.modules.last(), d)
        }),
    decreases d, 0nat,
{
    let statements = d.statements@;
    let n = statements.len();
    let s2 = resolve_statements(s, statements, n, Phase::Modules);
    let s3 = resolve_statements(s2, statements, n, Phase::Types);
    let s4 = resolve_statements(s3, statements, n, Phase::Profiles);
    let s5 = resolve_statements(s4, statements, n, Phase::Bodies);
    lemma_track_statements(s, statements, n, Phase::Modules);
    lemma_resolve_statements(0, s, statements, n, Phase::Modules);
    lemma_track_statements(s2, statements, n, Phase::Types);
    lemma_resolve_statements(0, s2, statements, n, Phase::Types);
    lemma_track_statements(s3, statements, n, Phase::Profiles);
    lemma_resolve_statements(0, s3, statements, n, Phase::Profiles);
    lemma_track_statements(s4, statements, n, Phase::Bodies);
    lemma_resolve_statements(0, s4, statements, n, Phase::Bodies);
    if s5.errors == s.errors {
        crate::resolver::unique::lemma_declared_twice(s, s2, s3);
        crate::resolver::unique::lemma_declared_twice(s, s3, s4);
        crate::resolver::unique::lemma_declared_twice(s3, s4, s5);
        crate::resolver::unique::lemma_declared_twice(s2, s3, s5);
        lemma_quiet_between(s, s4, s5);
        lemma_quiet_between(s, s3, s4);
        lemma_quiet_between(s, s2, s3);
        lemma_complete_statements(s, statements, n, Phase::Modules);
        lemma_complete_statements(s2, statements, n, Phase::Types);
        lemma_complete_statements(s3, statements, n, Phase::Profiles);
        lemma_complete_statements(s4, statements, n, Phase::Bodies);
        lemma_bodies_completed(s4, statements, n);
    }
}

} // verus!
