//! Every symbol of a resolved module comes from one declaration of the
//! source: where the source declares no number twice, no two symbols of the
//! resolved module are the same.

use vstd::prelude::*;
use crate::air::table::{
    first_with_id, lemma_put_each, lemma_put_found, lemma_put_other, numbered_once, spec_clashes,
    spec_put, table_keys,
};
use crate::air::{FunctionView, ModuleView, TypeView};
use crate::ast;
use crate::identifier::IdentifierView;
use super::below::{function_decl_ids, lemma_kept_body, lemma_variables_keep_symbols};
use super::declared::{declared_ids, kept_in_block, symbol_ids};
use super::laws::{
    lemma_resolve_type_kind_typed, lemma_resolve_type_typed, lemma_resolve_variables_typed,
    variable_ids,
};
use super::model::{
    anonymous, block_scope, function_scope, generics_of, generics_table, has_profile,
    module_profile,
    module_scope, pop_block, pop_function, pop_module, push_block, push_function, push_module,
    resolve_body, resolve_function, resolve_function_profile, resolve_module,
    resolve_statements, resolve_type, resolve_type_decl, resolve_type_kind, resolve_variables,
    store_function, store_module, type_scope, Phase,
};
use super::once::{lemma_once_module, lemma_once_statements, once_module, once_state};
use super::scope::{BlockScopeView, ResolverView};
use super::unique::{declared, flat, lemma_resolve_body, lemma_resolve_statements};

verus! {

// ---------------------------------------------------------------------
// The numbers that the source declares
// ---------------------------------------------------------------------
/// The numbers of the symbols of formals, fields or variants.
pub open spec fn formal_ids(formals: Seq<ast::FunctionFormal>) -> Seq<u64> {
    Seq::new(formals.len(), |i: int| formals[i].symbol@.id)
}

/// The numbers of the symbols that the declaration of a type declares: its
/// own, those of its parameters, and those of its fields or variants.
pub open spec fn type_decl_ids(t: ast::TypeDecl) -> Seq<u64> {
    seq![t.symbol@.id] + symbol_ids(t.params@) + (match t.kind {
        ast::TypeDeclKind::Alias(_) => Seq::empty(),
        ast::TypeDeclKind::Enum(variants) => formal_ids(variants@),
        ast::TypeDeclKind::Struct(fields) => formal_ids(fields@),
    })
}

/// Whether the declaration declares a symbol with the number: for a
/// function its own symbol, those of its formals and those in its body; for
/// a module what `module_declares` says; for a type its own symbol, those
/// of its parameters and those of its fields or variants.
pub open spec fn declares(st: ast::Statement, x: u64) -> bool
    decreases st,
{
    match st {
        ast::Statement::Function(f) => function_decl_ids(f).contains(x),
        ast::Statement::Module(m) => module_declares(m, x),
        ast::Statement::Type(t) => type_decl_ids(t).contains(x),
    }
}

/// Whether the declaration of a module declares a symbol with the number:
/// its own identifier, or a symbol of a declaration in it.
pub open spec fn module_declares(d: ast::ModuleDecl, x: u64) -> bool
    decreases d,
{
    ||| d.identifier@.id == x
    ||| exists|j: int| 0 <= j < d.statements@.len() && declares(#[trigger] d.statements@[j], x)
}

/// Whether one of the declarations declares a symbol with the number.
pub open spec fn declared_among(statements: Seq<ast::Statement>, x: u64) -> bool {
    exists|j: int| 0 <= j < statements.len() && declares(#[trigger] statements[j], x)
}

/// No two declarations of the row declare the same number.
pub open spec fn declared_apart(statements: Seq<ast::Statement>) -> bool {
    forall|i: int, j: int, x: u64|
        0 <= i < statements.len() && 0 <= j < statements.len() && i != j && #[trigger] declares(
            statements[i],
            x,
        ) ==> !#[trigger] declares(statements[j], x)
}

/// The declaration of a module declares no number twice: no two symbols
/// of a function or of a type are the same, no two declarations of the
/// module declare the same number, none of them declares the number of the
/// module, and the same holds of every module inside it.
pub open spec fn declared_once(d: ast::ModuleDecl) -> bool
    decreases d,
{
    &&& !declared_among(d.statements@, d.identifier@.id)
    &&& declared_apart(d.statements@)
    &&& forall|j: int|
        0 <= j < d.statements@.len() ==> statement_declared_once(#[trigger] d.statements@[j])
}

/// The declaration declares no number twice.
pub open spec fn statement_declared_once(st: ast::Statement) -> bool
    decreases st,
{
    match st {
        ast::Statement::Function(f) => function_decl_ids(f).no_duplicates(),
        ast::Statement::Module(m) => declared_once(m),
        ast::Statement::Type(t) => type_decl_ids(t).no_duplicates(),
    }
}

// ---------------------------------------------------------------------
// The symbols that a resolved module keeps
// ---------------------------------------------------------------------
/// The numbers of the symbols of a resolved function: its own, those of
/// its formals, and those of the variables in its body.
pub open spec fn function_kept_ids(f: FunctionView) -> Seq<u64> {
    seq![f.symbol.id] + variable_ids(f.formals) + (match f.body {
        Some(b) => kept_in_block(b),
        None => Seq::empty(),
    })
}

/// For each function of a table, the numbers of its symbols.
pub open spec fn function_kept_rows(table: Seq<(IdentifierView, FunctionView)>) -> Seq<Seq<u64>> {
    Seq::new(table.len(), |i: int| function_kept_ids(table[i].1))
}

/// The numbers of the parameters of a declared type. Each of them is a
/// generic type; for any other type the number is 0.
pub open spec fn parameter_ids(params: Seq<TypeView>) -> Seq<u64> {
    Seq::new(
        params.len(),
        |i: int|
            match params[i] {
                TypeView::Generic(g) => g.identifier.id,
                _ => 0,
            },
    )
}

/// The numbers of the symbols of a declared type: that under which it
/// stands and, for a structure or an enumeration, those of its parameters
/// and of its elements or variants.
pub open spec fn type_kept_ids(entry: (IdentifierView, TypeView)) -> Seq<u64> {
    seq![entry.0.id] + (match entry.1 {
        TypeView::Struct(st) => parameter_ids(st.params) + variable_ids(st.elements),
        TypeView::Enum(e) => parameter_ids(e.params) + variable_ids(e.variants.elements),
        _ => Seq::empty(),
    })
}

/// For each type of a table, the numbers of its symbols.
pub open spec fn type_kept_rows(table: Seq<(IdentifierView, TypeView)>) -> Seq<Seq<u64>> {
    Seq::new(table.len(), |i: int| type_kept_ids(table[i]))
}

/// The numbers of the symbols of a resolved module: its own, those of its
/// functions, those of the modules inside it, and those of its types.
pub open spec fn module_kept_ids(m: ModuleView) -> Seq<u64>
    decreases m, 0nat,
{
    seq![m.symbol.id] + flat(function_kept_rows(m.function_table), m.function_table.len()) + flat(
        module_kept_rows(m.module_table),
        m.module_table.len(),
    ) + flat(type_kept_rows(m.type_table), m.type_table.len())
}

/// For each module of a table, the numbers of its symbols.
pub open spec fn module_kept_rows(table: Seq<(IdentifierView, ModuleView)>) -> Seq<Seq<u64>>
    decreases table, 0nat,
{
    Seq::new(
        table.len(),
        |i: int|
            if 0 <= i < table.len() {
                module_kept_ids(table[i].1)
            } else {
                Seq::empty()
            },
    )
}

// ---------------------------------------------------------------------
// Rows without a common number
// ---------------------------------------------------------------------
/// No number is in both rows.
pub open spec fn disjoint(a: Seq<u64>, b: Seq<u64>) -> bool {
    forall|x: u64| #[trigger] a.contains(x) ==> !b.contains(x)
}

/// Two rows without duplicates and without a common number have no
/// duplicates when put one after the other.
pub proof fn lemma_joined(a: Seq<u64>, b: Seq<u64>)
    ensures
        forall|x: u64| #[trigger] (a + b).contains(x) <==> a.contains(x) || b.contains(x),
        a.no_duplicates() && b.no_duplicates() && disjoint(a, b) ==> (a + b).no_duplicates(),
{
    let all = a + b;
    assert forall|x: u64| #[trigger] all.contains(x) <==> a.contains(x) || b.contains(x) by {
        if all.contains(x) {
            let i = choose|i: int| 0 <= i < all.len() && all[i] == x;
            if i < a.len() {
                assert(a[i] == x);
            } else {
                assert(b[i - a.len()] == x);
            }
        }
        if a.contains(x) {
            let i = choose|i: int| 0 <= i < a.len() && a[i] == x;
            assert(all[i] == x);
        }
        if b.contains(x) {
            let i = choose|i: int| 0 <= i < b.len() && b[i] == x;
            assert(all[a.len() + i] == x);
        }
    }
    if a.no_duplicates() && b.no_duplicates() && disjoint(a, b) {
        assert forall|i: int, j: int| 0 <= i < all.len() && 0 <= j < all.len() && i != j implies all[i]
            != all[j] by {
            if i < a.len() && j >= a.len() {
                assert(a.contains(a[i]));
                assert(b.contains(b[j - a.len()]));
            } else if j < a.len() && i >= a.len() {
                assert(a.contains(a[j]));
                assert(b.contains(b[i - a.len()]));
            }
        }
    }
}

/// Rows without duplicates, no two of which have a common number, have no
/// duplicates when put one after the other; and a number of the whole is
/// in one of the rows.
pub proof fn lemma_flat_distinct(rows: Seq<Seq<u64>>, n: nat)
    requires
        n <= rows.len(),
        forall|i: int| 0 <= i < n ==> (#[trigger] rows[i]).no_duplicates(),
        forall|i: int, j: int| 0 <= i < j < n ==> disjoint(#[trigger] rows[i], #[trigger] rows[j]),
    ensures
        flat(rows, n).no_duplicates(),
        forall|x: u64| #[trigger]
            flat(rows, n).contains(x) ==> exists|i: int| 0 <= i < n && (#[trigger] rows[i]).contains(x),
    decreases n,
{
    if n > 0 {
        lemma_flat_distinct(rows, (n - 1) as nat);
        let before = flat(rows, (n - 1) as nat);
        let last = rows[n - 1];
        lemma_joined(before, last);
        assert(disjoint(before, last)) by {
            assert forall|x: u64| #[trigger] before.contains(x) implies !last.contains(x) by {
                let i = choose|i: int| 0 <= i < n - 1 && (#[trigger] rows[i]).contains(x);
                assert(disjoint(rows[i], rows[n - 1]));
            }
        }
        assert forall|x: u64| #[trigger] flat(rows, n).contains(x) implies exists|i: int|
            0 <= i < n && (#[trigger] rows[i]).contains(x) by {
            if before.contains(x) {
                let i = choose|i: int| 0 <= i < n - 1 && (#[trigger] rows[i]).contains(x);
                assert(rows[i].contains(x));
            } else {
                assert(rows[n - 1].contains(x));
            }
        }
    }
}

// ---------------------------------------------------------------------
// Where the entries of a resolved module come from
// ---------------------------------------------------------------------
/// The resolved function has the symbols of the declaration: its own, those
/// of its formals and, where it has a body, those in the body.
pub open spec fn follows(f: FunctionView, d: ast::FunctionDecl) -> bool {
    &&& f.symbol.id == d.symbol@.id
    &&& f.formals.len() == d.formals@.len()
    &&& forall|i: int| 0 <= i < f.formals.len() ==> (#[trigger] f.formals[i]).symbol.id == d.formals@[i].symbol@.id
    &&& f.body matches Some(b) ==> !d.is_extern && d.body is Some && kept_in_block(b) == declared_ids(
        d.body->0,
    )
}

/// The kind of a declaration: 0 for a function, 1 for a module, 2 for a
/// type.
pub open spec fn kind_of(st: ast::Statement) -> int {
    match st {
        ast::Statement::Function(_) => 0,
        ast::Statement::Module(_) => 1,
        ast::Statement::Type(_) => 2,
    }
}

/// Whether one of the declarations of the kind declares the number.
pub open spec fn declared_by(statements: Seq<ast::Statement>, kind: int, x: u64) -> bool {
    exists|j: int|
        0 <= j < statements.len() && kind_of(#[trigger] statements[j]) == kind && declares(
            statements[j],
            x,
        )
}

/// The entry of a table of functions comes from the declaration: it stands
/// under the number of the declaration's symbol and has its symbols.
pub open spec fn function_sourced(entry: (IdentifierView, FunctionView), st: ast::Statement) -> bool {
    st matches ast::Statement::Function(d) && entry.0.id == d.symbol@.id && follows(entry.1, d)
}

/// The entry of a table of modules comes from the declaration: it stands
/// under the number of the declaration's identifier, no two of its symbols
/// are the same, and the declaration declares them all.
pub open spec fn module_sourced(entry: (IdentifierView, ModuleView), st: ast::Statement) -> bool {
    st matches ast::Statement::Module(d) && entry.0.id == d.identifier@.id && module_kept_ids(
        entry.1,
    ).no_duplicates() && (forall|x: u64| #[trigger]
        module_kept_ids(entry.1).contains(x) ==> module_declares(d, x))
}

/// The entry of a table of types comes from the declaration: it stands
/// under the number of the declaration's symbol, no two of its symbols are
/// the same, and the declaration declares them all.
pub open spec fn type_sourced(entry: (IdentifierView, TypeView), st: ast::Statement) -> bool {
    st matches ast::Statement::Type(d) && entry.0.id == d.symbol@.id && type_kept_ids(
        entry,
    ).no_duplicates() && (forall|x: u64| #[trigger]
        type_kept_ids(entry).contains(x) ==> type_decl_ids(d).contains(x))
}

/// Every entry of the tables of the module comes from one of the
/// declarations.
pub open spec fn sourced(m: ModuleView, statements: Seq<ast::Statement>) -> bool {
    &&& forall|i: int|
        0 <= i < m.function_table.len() ==> exists|j: int|
            0 <= j < statements.len() && function_sourced(
                #[trigger] m.function_table[i],
                #[trigger] statements[j],
            )
    &&& forall|i: int|
        0 <= i < m.module_table.len() ==> exists|j: int|
            0 <= j < statements.len() && module_sourced(
                #[trigger] m.module_table[i],
                #[trigger] statements[j],
            )
    &&& forall|i: int|
        0 <= i < m.type_table.len() ==> exists|j: int|
            0 <= j < statements.len() && type_sourced(
                #[trigger] m.type_table[i],
                #[trigger] statements[j],
            )
}

/// A function that has the symbols of a declaration without duplicates has
/// no duplicates, and the declaration declares each of its symbols.
pub proof fn lemma_follows(f: FunctionView, d: ast::FunctionDecl)
    requires
        follows(f, d),
        function_decl_ids(d).no_duplicates(),
    ensures
        function_kept_ids(f).no_duplicates(),
        forall|x: u64| #[trigger]
            function_kept_ids(f).contains(x) ==> function_decl_ids(d).contains(x),
{
    let kept = function_kept_ids(f);
    let all = function_decl_ids(d);
    assert(kept.len() <= all.len());
    assert forall|i: int| 0 <= i < kept.len() implies #[trigger] kept[i] == all[i] by {
        if i >= 1 && i < 1 + f.formals.len() {
            assert(kept[i] == f.formals[i - 1].symbol.id);
        }
    }
    assert forall|x: u64| #[trigger] kept.contains(x) implies all.contains(x) by {
        let i = choose|i: int| 0 <= i < kept.len() && kept[i] == x;
        assert(all[i] == x);
    }
    assert forall|i: int, j: int| 0 <= i < kept.len() && 0 <= j < kept.len() && i != j implies kept[i]
        != kept[j] by {
        assert(kept[i] == all[i] && kept[j] == all[j]);
    }
}

/// A number that declarations of two kinds declare is declared twice.
pub proof fn lemma_kinds_apart(statements: Seq<ast::Statement>, x: u64, k: int, l: int)
    requires
        declared_apart(statements),
        k != l,
        declared_by(statements, k, x),
    ensures
        !declared_by(statements, l, x),
{
    let i = choose|i: int|
        0 <= i < statements.len() && kind_of(#[trigger] statements[i]) == k && declares(
            statements[i],
            x,
        );
    if declared_by(statements, l, x) {
        let j = choose|j: int|
            0 <= j < statements.len() && kind_of(#[trigger] statements[j]) == l && declares(
                statements[j],
                x,
            );
        assert(declares(statements[i], x) && declares(statements[j], x));
    }
}

/// The symbols of the functions of a module that comes from declarations
/// without duplicates.
proof fn lemma_functions_once(m: ModuleView, statements: Seq<ast::Statement>)
    requires
        sourced(m, statements),
        declared_apart(statements),
        forall|j: int| 0 <= j < statements.len() ==> statement_declared_once(#[trigger] statements[j]),
        numbered_once(table_keys(m.function_table)),
    ensures
        flat(function_kept_rows(m.function_table), m.function_table.len()).no_duplicates(),
        forall|x: u64| #[trigger]
            flat(function_kept_rows(m.function_table), m.function_table.len()).contains(x)
                ==> declared_by(statements, 0, x),
{
    let t = m.function_table;
    let rows = function_kept_rows(t);
    assert forall|i: int| 0 <= i < rows.len() implies (#[trigger] rows[i]).no_duplicates() && (forall|
        x: u64,
    | #[trigger] rows[i].contains(x) ==> declared_by(statements, 0, x)) by {
        let j = choose|j: int|
            0 <= j < statements.len() && function_sourced(t[i], #[trigger] statements[j]);
        let d = statements[j]->Function_0;
        assert(statement_declared_once(statements[j]));
        lemma_follows(t[i].1, d);
        assert forall|x: u64| #[trigger] rows[i].contains(x) implies declared_by(statements, 0, x) by {
            assert(declares(statements[j], x));
        }
    }
    assert forall|i: int, k: int| 0 <= i < k < rows.len() implies disjoint(
        #[trigger] rows[i],
        #[trigger] rows[k],
    ) by {
        let j = choose|j: int|
            0 <= j < statements.len() && function_sourced(t[i], #[trigger] statements[j]);
        let l = choose|l: int|
            0 <= l < statements.len() && function_sourced(t[k], #[trigger] statements[l]);
        assert(statement_declared_once(statements[j]));
        assert(statement_declared_once(statements[l]));
        lemma_follows(t[i].1, statements[j]->Function_0);
        lemma_follows(t[k].1, statements[l]->Function_0);
        assert(table_keys(t)[i].id != table_keys(t)[k].id);
        assert(j != l);
        assert forall|x: u64| #[trigger] rows[i].contains(x) implies !rows[k].contains(x) by {
            assert(declares(statements[j], x));
            if rows[k].contains(x) {
                assert(declares(statements[l], x));
            }
        }
    }
    lemma_flat_distinct(rows, rows.len());
    assert forall|x: u64| #[trigger] flat(rows, rows.len()).contains(x) implies declared_by(
        statements,
        0,
        x,
    ) by {
        let i = choose|i: int| 0 <= i < rows.len() && (#[trigger] rows[i]).contains(x);
        assert(rows[i].contains(x));
    }
}

/// The symbols of the modules inside a module that comes from declarations
/// without duplicates.
proof fn lemma_modules_once(m: ModuleView, statements: Seq<ast::Statement>)
    requires
        sourced(m, statements),
        declared_apart(statements),
        numbered_once(table_keys(m.module_table)),
    ensures
        flat(module_kept_rows(m.module_table), m.module_table.len()).no_duplicates(),
        forall|x: u64| #[trigger]
            flat(module_kept_rows(m.module_table), m.module_table.len()).contains(x)
                ==> declared_by(statements, 1, x),
{
    let t = m.module_table;
    let rows = module_kept_rows(t);
    assert forall|i: int| 0 <= i < rows.len() implies (#[trigger] rows[i]).no_duplicates() && (forall|
        x: u64,
    | #[trigger] rows[i].contains(x) ==> declared_by(statements, 1, x)) by {
        let j = choose|j: int|
            0 <= j < statements.len() && module_sourced(t[i], #[trigger] statements[j]);
        assert forall|x: u64| #[trigger] rows[i].contains(x) implies declared_by(statements, 1, x) by {
            assert(declares(statements[j], x));
        }
    }
    assert forall|i: int, k: int| 0 <= i < k < rows.len() implies disjoint(
        #[trigger] rows[i],
        #[trigger] rows[k],
    ) by {
        let j = choose|j: int|
            0 <= j < statements.len() && module_sourced(t[i], #[trigger] statements[j]);
        let l = choose|l: int|
            0 <= l < statements.len() && module_sourced(t[k], #[trigger] statements[l]);
        assert(table_keys(t)[i].id != table_keys(t)[k].id);
        assert(j != l);
        assert forall|x: u64| #[trigger] rows[i].contains(x) implies !rows[k].contains(x) by {
            assert(declares(statements[j], x));
            if rows[k].contains(x) {
                assert(declares(statements[l], x));
            }
        }
    }
    lemma_flat_distinct(rows, rows.len());
    assert forall|x: u64| #[trigger] flat(rows, rows.len()).contains(x) implies declared_by(
        statements,
        1,
        x,
    ) by {
        let i = choose|i: int| 0 <= i < rows.len() && (#[trigger] rows[i]).contains(x);
        assert(rows[i].contains(x));
    }
}

/// The symbols of the types of a module that comes from declarations
/// without duplicates.
proof fn lemma_types_once(m: ModuleView, statements: Seq<ast::Statement>)
    requires
        sourced(m, statements),
        declared_apart(statements),
        numbered_once(table_keys(m.type_table)),
    ensures
        flat(type_kept_rows(m.type_table), m.type_table.len()).no_duplicates(),
        forall|x: u64| #[trigger]
            flat(type_kept_rows(m.type_table), m.type_table.len()).contains(x) ==> declared_by(
                statements,
                2,
                x,
            ),
{
    let t = m.type_table;
    let rows = type_kept_rows(t);
    assert forall|i: int| 0 <= i < rows.len() implies (#[trigger] rows[i]).no_duplicates() && (forall|
        x: u64,
    | #[trigger] rows[i].contains(x) ==> declared_by(statements, 2, x)) by {
        let j = choose|j: int|
            0 <= j < statements.len() && type_sourced(t[i], #[trigger] statements[j]);
        assert forall|x: u64| #[trigger] rows[i].contains(x) implies declared_by(statements, 2, x) by {
            assert(declares(statements[j], x));
        }
    }
    assert forall|i: int, k: int| 0 <= i < k < rows.len() implies disjoint(
        #[trigger] rows[i],
        #[trigger] rows[k],
    ) by {
        let j = choose|j: int|
            0 <= j < statements.len() && type_sourced(t[i], #[trigger] statements[j]);
        let l = choose|l: int|
            0 <= l < statements.len() && type_sourced(t[k], #[trigger] statements[l]);
        assert(table_keys(t)[i].id != table_keys(t)[k].id);
        assert(j != l);
        assert forall|x: u64| #[trigger] rows[i].contains(x) implies !rows[k].contains(x) by {
            assert(declares(statements[j], x));
            if rows[k].contains(x) {
                assert(declares(statements[l], x));
            }
        }
    }
    lemma_flat_distinct(rows, rows.len());
    assert forall|x: u64| #[trigger] flat(rows, rows.len()).contains(x) implies declared_by(
        statements,
        2,
        x,
    ) by {
        let i = choose|i: int| 0 <= i < rows.len() && (#[trigger] rows[i]).contains(x);
        assert(rows[i].contains(x));
    }
}

/// No two symbols of a module are the same, where each of its entries
/// comes from one of the declarations of a module that declares no number
/// twice, and no table of it holds a number twice; and the declaration
/// declares each of its symbols.
pub proof fn lemma_sourced_once(m: ModuleView, d: ast::ModuleDecl)
    requires
        m.symbol.id == d.identifier@.id,
        sourced(m, d.statements@),
        declared_once(d),
        numbered_once(table_keys(m.function_table)),
        numbered_once(table_keys(m.module_table)),
        numbered_once(table_keys(m.type_table)),
    ensures
        module_kept_ids(m).no_duplicates(),
        forall|x: u64| #[trigger] module_kept_ids(m).contains(x) ==> module_declares(d, x),
{
    let statements = d.statements@;
    let own = seq![m.symbol.id];
    let fs = flat(function_kept_rows(m.function_table), m.function_table.len());
    let ms = flat(module_kept_rows(m.module_table), m.module_table.len());
    let ts = flat(type_kept_rows(m.type_table), m.type_table.len());
    lemma_functions_once(m, statements);
    lemma_modules_once(m, statements);
    lemma_types_once(m, statements);
    assert forall|x: u64, k: int| #[trigger] declared_by(statements, k, x) implies declared_among(
        statements,
        x,
    ) by {
        let j = choose|j: int|
            0 <= j < statements.len() && kind_of(#[trigger] statements[j]) == k && declares(
                statements[j],
                x,
            );
        assert(declares(statements[j], x));
    }
    assert(own.no_duplicates());
    assert forall|x: u64| #[trigger] own.contains(x) implies x == m.symbol.id by {
        let i = choose|i: int| 0 <= i < own.len() && own[i] == x;
    }
    assert(disjoint(own, fs));
    lemma_joined(own, fs);
    assert(disjoint(own + fs, ms)) by {
        assert forall|x: u64| #[trigger] (own + fs).contains(x) implies !ms.contains(x) by {
            if fs.contains(x) {
                lemma_kinds_apart(statements, x, 0, 1);
            }
        }
    }
    lemma_joined(own + fs, ms);
    assert(disjoint(own + fs + ms, ts)) by {
        assert forall|x: u64| #[trigger] (own + fs + ms).contains(x) implies !ts.contains(x) by {
            if fs.contains(x) {
                lemma_kinds_apart(statements, x, 0, 2);
            } else if ms.contains(x) {
                lemma_kinds_apart(statements, x, 1, 2);
            }
        }
    }
    lemma_joined(own + fs + ms, ts);
    assert(module_kept_ids(m) == own + fs + ms + ts);
}

// ---------------------------------------------------------------------
// What the context holds of the declarations
// ---------------------------------------------------------------------
/// The place of the function with the number in the context.
pub open spec fn lookup(s: ResolverView, x: u64) -> Option<int> {
    first_with_id(table_keys(s.context.function_table), x, 0)
}

/// The context holds the same function under the number as before, or none
/// as before.
pub open spec fn same_entry(s: ResolverView, after: ResolverView, x: u64) -> bool {
    &&& lookup(after, x) == lookup(s, x)
    &&& lookup(s, x) matches Some(i) ==> after.context.function_table[i]
        == s.context.function_table[i]
}

/// Where the context holds a function under the number of the symbol of a
/// declared function, it has the symbols of that declaration.
pub open spec fn profile_follows(s: ResolverView, st: ast::Statement) -> bool {
    match st {
        ast::Statement::Function(d) => match lookup(s, d.symbol@.id) {
            Some(k) => follows(s.context.function_table[k].1, d),
            None => true,
        },
        _ => true,
    }
}

/// The functions that the context holds of the declarations have their
/// symbols.
pub open spec fn profiles_follow(s: ResolverView, statements: Seq<ast::Statement>) -> bool {
    forall|j: int| 0 <= j < statements.len() ==> profile_follows(s, #[trigger] statements[j])
}

/// The context holds no function under a number that is declared by a
/// declaration from the `n`-th on, or by one that is no module.
pub open spec fn unseen(s: ResolverView, statements: Seq<ast::Statement>, n: nat) -> bool {
    forall|j: int, x: u64|
        0 <= j < statements.len() && (j >= n || kind_of(statements[j]) != 1) && #[trigger] declares(
            statements[j],
            x,
        ) ==> lookup(s, x) is None
}

/// The innermost open module comes from the declarations, and so do the
/// functions that the context holds of them.
pub open spec fn traced(s: ResolverView, statements: Seq<ast::Statement>) -> bool {
    &&& s.modules.len() > 0
    &&& sourced(s.modules.last(), statements)
    &&& profiles_follow(s, statements)
    &&& held(s)
}

/// The context holds a function under the number of every function of the
/// innermost open module.
pub open spec fn held(s: ResolverView) -> bool {
    forall|i: int|
        0 <= i < s.modules.last().function_table.len() ==> lookup(
            s,
            (#[trigger] s.modules.last().function_table[i]).0.id,
        ) is Some
}

/// The context holds what it held under every number that none of the
/// declarations declares.
pub open spec fn framed(s: ResolverView, after: ResolverView, statements: Seq<ast::Statement>) -> bool {
    forall|x: u64| !declared_among(statements, x) ==> #[trigger] same_entry(s, after, x)
}

/// A step that leaves the context and the open modules alone.
pub proof fn lemma_track_same(s: ResolverView, after: ResolverView, statements: Seq<ast::Statement>)
    requires
        traced(s, statements),
        after.context == s.context,
        after.modules == s.modules,
    ensures
        traced(after, statements),
        forall|x: u64| #[trigger] same_entry(s, after, x),
{
    assert forall|j: int| 0 <= j < statements.len() implies profile_follows(
        after,
        #[trigger] statements[j],
    ) by {
        assert(profile_follows(s, statements[j]));
    }
    assert forall|i: int| 0 <= i < after.modules.last().function_table.len() implies lookup(
        after,
        (#[trigger] after.modules.last().function_table[i]).0.id,
    ) is Some by {
        assert(lookup(s, s.modules.last().function_table[i].0.id) is Some);
    }
}

/// Writing a function that has the symbols of one of the declarations.
pub proof fn lemma_track_store_function(
    s: ResolverView,
    statements: Seq<ast::Statement>,
    j: int,
    f: FunctionView,
)
    requires
        traced(s, statements),
        declared_apart(statements),
        0 <= j < statements.len(),
        statements[j] is Function,
        follows(f, statements[j]->Function_0),
    ensures
        traced(store_function(s, f), statements),
        forall|x: u64| x != f.symbol.id ==> #[trigger] same_entry(s, store_function(s, f), x),
{
    let d = statements[j]->Function_0;
    let after = store_function(s, f);
    let top = s.modules.last();
    let table = spec_put(top.function_table, f.symbol, f);
    assert(after.modules.last() == (ModuleView { function_table: table, ..top }));
    lemma_put_each(top.function_table, f.symbol, f);
    assert forall|i: int| 0 <= i < table.len() implies exists|l: int|
        0 <= l < statements.len() && function_sourced(#[trigger] table[i], #[trigger] statements[l]) by {
        if table[i] == (f.symbol, f) {
            assert(function_sourced(table[i], statements[j]));
        } else {
            assert(table[i] == top.function_table[i]);
            let l = choose|l: int|
                0 <= l < statements.len() && function_sourced(
                    top.function_table[i],
                    #[trigger] statements[l],
                );
            assert(function_sourced(table[i], statements[l]));
        }
    }
    assert(sourced(after.modules.last(), statements));
    assert forall|x: u64| x != f.symbol.id implies #[trigger] same_entry(s, after, x) by {
        lemma_put_other(s.context.function_table, f.symbol, f, x);
    }
    lemma_put_found(s.context.function_table, f.symbol, f);
    assert forall|i: int| 0 <= i < table.len() implies lookup(after, (#[trigger] table[i]).0.id)
        is Some by {
        if table[i].0.id != f.symbol.id {
            assert(table[i] == top.function_table[i]);
            assert(same_entry(s, after, table[i].0.id));
        }
    }
    assert(function_decl_ids(d)[0] == d.symbol@.id);
    assert(declares(statements[j], d.symbol@.id));
    assert forall|l: int| 0 <= l < statements.len() implies profile_follows(
        after,
        #[trigger] statements[l],
    ) by {
        assert(profile_follows(s, statements[l]));
        if statements[l] is Function {
            let e = statements[l]->Function_0;
            assert(function_decl_ids(e)[0] == e.symbol@.id);
            assert(declares(statements[l], e.symbol@.id));
            if e.symbol@.id == f.symbol.id {
                assert(l == j);
                lemma_put_found(s.context.function_table, f.symbol, f);
            } else {
                assert(same_entry(s, after, e.symbol@.id));
            }
        }
    }
}

/// The resolution of the profile of one of the declared functions.
pub proof fn lemma_track_profile(s: ResolverView, statements: Seq<ast::Statement>, j: int)
    requires
        traced(s, statements),
        declared_apart(statements),
        0 <= j < statements.len(),
        statements[j] is Function,
    ensures
        traced(resolve_function_profile(s, statements[j]->Function_0).0, statements),
        forall|x: u64|
            x != (statements[j]->Function_0).symbol@.id ==> #[trigger] same_entry(
                s,
                resolve_function_profile(s, statements[j]->Function_0).0,
                x,
            ),
        resolve_function_profile(s, statements[j]->Function_0).1 matches Some(p) ==> follows(
            p,
            statements[j]->Function_0,
        ) && p.body is None,
{
    let d = statements[j]->Function_0;
    let after = resolve_function_profile(s, d).0;
    match lookup(s, d.symbol@.id) {
        Some(i) => {
            assert(profile_follows(s, statements[j]));
            lemma_track_same(s, s, statements);
        },
        None => {
            lemma_resolve_variables_typed(s, d.formals@, d.formals@.len());
            let (s1, formals) = resolve_variables(s, d.formals@, d.formals@.len());
            lemma_variables_keep_symbols(s, d.formals@, d.formals@.len());
            lemma_resolve_type_typed(s1, d.ret);
            let (s2, ret) = resolve_type(s1, d.ret);
            lemma_track_same(s, s2, statements);
            let f = FunctionView { symbol: d.symbol@, formals, ret, body: None };
            assert(follows(f, d));
            if spec_clashes(function_scope(s2), f.symbol) {
                lemma_track_same(s, after, statements);
            } else {
                lemma_track_store_function(s2, statements, j, f);
                assert forall|x: u64| x != d.symbol@.id implies #[trigger] same_entry(s, after, x) by {
                    assert(same_entry(s, s2, x));
                    assert(same_entry(s2, after, x));
                }
            }
        },
    }
}

/// The resolution of one of the declared functions.
pub proof fn lemma_track_function(s: ResolverView, statements: Seq<ast::Statement>, j: int)
    requires
        traced(s, statements),
        declared_apart(statements),
        0 <= j < statements.len(),
        statements[j] is Function,
    ensures
        traced(resolve_function(s, statements[j]->Function_0).0, statements),
        forall|x: u64|
            x != (statements[j]->Function_0).symbol@.id ==> #[trigger] same_entry(
                s,
                resolve_function(s, statements[j]->Function_0).0,
                x,
            ),
{
    let d = statements[j]->Function_0;
    let after = resolve_function(s, d).0;
    lemma_track_profile(s, statements, j);
    let (s1, profile) = resolve_function_profile(s, d);
    if profile is Some {
        let p = profile->0;
        let s2 = push_function(s1, p);
        if !d.is_extern && d.body is Some {
            lemma_resolve_body(s2, d.body->0);
            lemma_kept_body(s2, d.body->0);
        }
        let (s3, body) = if d.is_extern {
            (s2, None)
        } else {
            match d.body {
                Some(e) => {
                    let (s3, block) = resolve_body(s2, e);
                    (s3, Some(block))
                },
                None => (s2, None),
            }
        };
        let s4 = pop_function(s3);
        lemma_track_same(s1, s4, statements);
        let f = FunctionView { body, ..p };
        assert(follows(f, d));
        lemma_track_store_function(s4, statements, j, f);
        let s5 = store_function(s4, f);
        lemma_track_same(s5, after, statements);
        assert forall|x: u64| x != d.symbol@.id implies #[trigger] same_entry(s, after, x) by {
            assert(same_entry(s, s1, x));
            assert(same_entry(s1, s4, x));
            assert(same_entry(s4, s5, x));
            assert(same_entry(s5, after, x));
        }
    }
}

/// A declared type keeps the symbols of its declaration: its own, those of
/// its parameters, and those of its fields or variants.
pub proof fn lemma_type_kept(s: ResolverView, d: ast::TypeDecl)
    requires
        type_decl_ids(d).no_duplicates(),
    ensures
        type_kept_ids((d.symbol@, resolve_type_kind(s, d).1)).no_duplicates(),
        forall|x: u64| #[trigger]
            type_kept_ids((d.symbol@, resolve_type_kind(s, d).1)).contains(x) ==> type_decl_ids(
                d,
            ).contains(x),
{
    let kept = type_kept_ids((d.symbol@, resolve_type_kind(s, d).1));
    let all = type_decl_ids(d);
    assert(parameter_ids(generics_of(d.params@)) =~= symbol_ids(d.params@));
    match d.kind {
        ast::TypeDeclKind::Alias(_) => {
            assert(kept =~= seq![d.symbol@.id]);
        },
        ast::TypeDeclKind::Enum(variants) => {
            lemma_variables_keep_symbols(s, variants@, variants@.len());
            let elements = resolve_variables(s, variants@, variants@.len()).1;
            assert(variable_ids(elements) =~= formal_ids(variants@));
            assert(kept =~= all);
        },
        ast::TypeDeclKind::Struct(fields) => {
            lemma_variables_keep_symbols(s, fields@, fields@.len());
            let elements = resolve_variables(s, fields@, fields@.len()).1;
            assert(variable_ids(elements) =~= formal_ids(fields@));
            assert(kept =~= all);
        },
    }
    assert(kept.len() <= all.len());
    assert forall|i: int| 0 <= i < kept.len() implies #[trigger] kept[i] == all[i] by {}
    assert forall|x: u64| #[trigger] kept.contains(x) implies all.contains(x) by {
        let i = choose|i: int| 0 <= i < kept.len() && kept[i] == x;
        assert(all[i] == x);
    }
    assert forall|i: int, j: int| 0 <= i < kept.len() && 0 <= j < kept.len() && i != j implies kept[i]
        != kept[j] by {
        assert(kept[i] == all[i] && kept[j] == all[j]);
    }
}

/// The resolution of one of the declared types.
pub proof fn lemma_track_type(s: ResolverView, statements: Seq<ast::Statement>, j: int)
    requires
        traced(s, statements),
        0 <= j < statements.len(),
        statements[j] is Type,
        statement_declared_once(statements[j]),
    ensures
        traced(resolve_type_decl(s, statements[j]->Type_0).0, statements),
        forall|x: u64| #[trigger] same_entry(s, resolve_type_decl(s, statements[j]->Type_0).0, x),
        resolve_type_decl(s, statements[j]->Type_0).0.modules.last().function_table
            == s.modules.last().function_table,
        resolve_type_decl(s, statements[j]->Type_0).0.modules.last().module_table
            == s.modules.last().module_table,
{
    let d = statements[j]->Type_0;
    let after = resolve_type_decl(s, d).0;
    let (s1, identifier) = anonymous(s);
    let s2 = push_block(
        s1,
        BlockScopeView {
            type_table: generics_table(d.params@),
            ..block_scope(identifier, Seq::empty())
        },
    );
    lemma_resolve_type_kind_typed(s2, d);
    let (s3, t) = resolve_type_kind(s2, d);
    let s4 = pop_block(s3);
    lemma_track_same(s, s4, statements);
    if spec_clashes(type_scope(s4), d.symbol@) {
        lemma_track_same(s, after, statements);
    } else {
        let top = s4.modules.last();
        let table = spec_put(top.type_table, d.symbol@, t);
        assert(after.modules.last() == (ModuleView { type_table: table, ..top }));
        lemma_put_each(top.type_table, d.symbol@, t);
        lemma_type_kept(s2, d);
        assert forall|i: int| 0 <= i < table.len() implies exists|l: int|
            0 <= l < statements.len() && type_sourced(#[trigger] table[i], #[trigger] statements[l]) by {
            if table[i] == (d.symbol@, t) {
                assert(type_sourced(table[i], statements[j]));
            } else {
                assert(table[i] == top.type_table[i]);
                let l = choose|l: int|
                    0 <= l < statements.len() && type_sourced(
                        top.type_table[i],
                        #[trigger] statements[l],
                    );
                assert(type_sourced(table[i], statements[l]));
            }
        }
        assert(sourced(after.modules.last(), statements));
        assert(after.context.function_table == s.context.function_table);
        assert forall|l: int| 0 <= l < statements.len() implies profile_follows(
            after,
            #[trigger] statements[l],
        ) by {
            assert(profile_follows(s, statements[l]));
        }
        assert(after.modules.last().function_table == s.modules.last().function_table);
        assert forall|i: int| 0 <= i < top.function_table.len() implies lookup(
            after,
            (#[trigger] top.function_table[i]).0.id,
        ) is Some by {
            assert(lookup(s, s.modules.last().function_table[i].0.id) is Some);
        }
    }
}

// ---------------------------------------------------------------------
// The resolution of a module
// ---------------------------------------------------------------------
/// The context holds no function under a number that the declaration of
/// the module declares.
pub open spec fn unknown(s: ResolverView, d: ast::ModuleDecl) -> bool {
    forall|x: u64| #[trigger] module_declares(d, x) ==> lookup(s, x) is None
}

/// One pass over the first `n` declarations of an open module: the module
/// still comes from the declarations, and the context holds what it held
/// under every number that none of them declares.
pub proof fn lemma_track_statements(
    s: ResolverView,
    statements: Seq<ast::Statement>,
    n: nat,
    phase: Phase,
)
    requires
        traced(s, statements),
        once_state(s),
        declared_apart(statements),
        forall|j: int| 0 <= j < statements.len() ==> statement_declared_once(#[trigger] statements[j]),
        phase == Phase::Modules ==> unseen(s, statements, 0),
        n <= statements.len(),
    ensures
        traced(resolve_statements(s, statements, n, phase), statements),
        once_state(resolve_statements(s, statements, n, phase)),
        phase == Phase::Modules ==> unseen(resolve_statements(s, statements, n, phase), statements, n),
        framed(s, resolve_statements(s, statements, n, phase), statements),
    decreases statements, n,
{
    let after = resolve_statements(s, statements, n, phase);
    lemma_once_statements(s, statements, n, phase);
    if n == 0 {
        lemma_track_same(s, s, statements);
    } else {
        let j = n - 1;
        lemma_track_statements(s, statements, (n - 1) as nat, phase);
        lemma_once_statements(s, statements, (n - 1) as nat, phase);
        let s1 = resolve_statements(s, statements, (n - 1) as nat, phase);
        assert(statement_declared_once(statements[j]));
        match (phase, statements[j]) {
            (Phase::Modules, ast::Statement::Module(sub)) => {
                assert forall|x: u64| #[trigger] module_declares(sub, x) implies lookup(s1, x) is None by {
                    assert(declares(statements[j], x));
                }
                lemma_sourced_module(s1, sub);
                lemma_track_module(s1, statements, j);
                assert forall|l: int, x: u64|
                    0 <= l < statements.len() && (l >= n || kind_of(statements[l]) != 1)
                        && #[trigger] declares(statements[l], x) implies lookup(after, x) is None by {
                    assert(!declares(statements[j], x));
                    assert(same_entry(s1, after, x));
                }
                assert forall|x: u64| !declared_among(statements, x) implies #[trigger] same_entry(
                    s,
                    after,
                    x,
                ) by {
                    assert(!declares(statements[j], x));
                    assert(same_entry(s, s1, x));
                    assert(same_entry(s1, after, x));
                }
            },
            (Phase::Types, ast::Statement::Type(t)) => {
                lemma_track_type(s1, statements, j);
                assert forall|x: u64| !declared_among(statements, x) implies #[trigger] same_entry(
                    s,
                    after,
                    x,
                ) by {
                    assert(same_entry(s, s1, x));
                    assert(same_entry(s1, after, x));
                }
            },
            (Phase::Profiles, ast::Statement::Function(f)) => {
                lemma_track_profile(s1, statements, j);
                assert(function_decl_ids(f)[0] == f.symbol@.id);
                assert(declares(statements[j], f.symbol@.id));
                assert forall|x: u64| !declared_among(statements, x) implies #[trigger] same_entry(
                    s,
                    after,
                    x,
                ) by {
                    assert(same_entry(s, s1, x));
                    assert(same_entry(s1, after, x));
                }
            },
            (Phase::Bodies, ast::Statement::Function(f)) => {
                if has_profile(s1, f) {
                    lemma_track_function(s1, statements, j);
                    assert(function_decl_ids(f)[0] == f.symbol@.id);
                    assert(declares(statements[j], f.symbol@.id));
                    assert forall|x: u64| !declared_among(statements, x) implies #[trigger] same_entry(
                        s,
                        after,
                        x,
                    ) by {
                        assert(same_entry(s, s1, x));
                        assert(same_entry(s1, after, x));
                    }
                }
            },
            _ => {},
        }
    }
}

/// The resolution of one of the modules that are declared in an open
/// module, where the resolved module has its symbols from its declaration.
proof fn lemma_track_module(s: ResolverView, statements: Seq<ast::Statement>, j: int)
    requires
        traced(s, statements),
        declared_apart(statements),
        0 <= j < statements.len(),
        statements[j] is Module,
        entered(s, resolve_module(s, statements[j]->Module_0), statements[j]->Module_0),
    ensures
        traced(resolve_module(s, statements[j]->Module_0).0, statements),
{
    let d = statements[j]->Module_0;
    let (after, result) = resolve_module(s, d);
    let top = s.modules.last();
    let key = d.identifier@;
    if result is Some {
        let m = result->0;
        let empty = module_profile(key);
        let first = spec_put(top.module_table, key, empty);
        let table = spec_put(first, key, m);
        lemma_put_each(top.module_table, key, empty);
        lemma_put_each(first, key, m);
        assert(module_kept_ids(empty) =~= seq![key.id]) by {
            assert(flat(function_kept_rows(empty.function_table), 0) =~= Seq::<u64>::empty());
            assert(flat(module_kept_rows(empty.module_table), 0) =~= Seq::<u64>::empty());
            assert(flat(type_kept_rows(empty.type_table), 0) =~= Seq::<u64>::empty());
        }
        assert(module_sourced((key, empty), statements[j])) by {
            assert forall|x: u64| #[trigger] module_kept_ids(empty).contains(x) implies module_declares(
                d,
                x,
            ) by {
                let i = choose|i: int| 0 <= i < 1 && module_kept_ids(empty)[i] == x;
            }
        }
        assert(module_sourced((key, m), statements[j]));
        assert forall|i: int| 0 <= i < table.len() implies exists|l: int|
            0 <= l < statements.len() && module_sourced(#[trigger] table[i], #[trigger] statements[l]) by {
            if table[i] == (key, m) {
                assert(module_sourced(table[i], statements[j]));
            } else if first[i] == (key, empty) {
                assert(module_sourced(table[i], statements[j]));
            } else {
                assert(table[i] == top.module_table[i]);
                let l = choose|l: int|
                    0 <= l < statements.len() && module_sourced(
                        top.module_table[i],
                        #[trigger] statements[l],
                    );
                assert(module_sourced(table[i], statements[l]));
            }
        }
        assert(sourced(after.modules.last(), statements));
    }
    assert forall|l: int| 0 <= l < statements.len() implies profile_follows(
        after,
        #[trigger] statements[l],
    ) by {
        assert(profile_follows(s, statements[l]));
        if statements[l] is Function {
            let e = statements[l]->Function_0;
            assert(function_decl_ids(e)[0] == e.symbol@.id);
            assert(declares(statements[l], e.symbol@.id));
            assert(!declares(statements[j], e.symbol@.id));
            assert(same_entry(s, after, e.symbol@.id));
        }
    }
    assert(after.modules.last().function_table == top.function_table);
    assert forall|i: int| 0 <= i < top.function_table.len() implies lookup(
        after,
        (#[trigger] top.function_table[i]).0.id,
    ) is Some by {
        let l = choose|l: int|
            0 <= l < statements.len() && function_sourced(
                top.function_table[i],
                #[trigger] statements[l],
            );
        let e = statements[l]->Function_0;
        assert(function_decl_ids(e)[0] == e.symbol@.id);
        assert(declares(statements[l], e.symbol@.id));
        assert(!declares(statements[j], e.symbol@.id));
        assert(same_entry(s, after, e.symbol@.id));
        assert(lookup(s, s.modules.last().function_table[i].0.id) is Some);
    }
}

/// What the resolution of a declared module does to the scope it is
/// declared in: the context holds what it held under every number that the
/// declaration does not declare; the innermost open module has gained the
/// resolved module and nothing else; and every entry of the resolved
/// module comes from one of the declarations, no table of it holds a number
/// twice, and no two symbols of it are the same, all of them declared by
/// the declaration.
pub open spec fn entered(
    s: ResolverView,
    resolved: (ResolverView, Option<ModuleView>),
    d: ast::ModuleDecl,
) -> bool {
    let (after, result) = resolved;
    &&& forall|x: u64| !module_declares(d, x) ==> #[trigger] same_entry(s, after, x)
    &&& s.modules.len() > 0 ==> after.modules.len() == s.modules.len() && after.modules.last() == (
    match result {
        Some(m) => ModuleView {
            module_table: spec_put(
                spec_put(s.modules.last().module_table, d.identifier@, module_profile(d.identifier@)),
                d.identifier@,
                m,
            ),
            ..s.modules.last()
        },
        None => s.modules.last(),
    })
    &&& result matches Some(m) ==> {
        &&& m.symbol == d.identifier@
        &&& sourced(m, d.statements@)
        &&& once_module(m)
        &&& module_kept_ids(m).no_duplicates()
        &&& forall|x: u64| #[trigger] module_kept_ids(m).contains(x) ==> module_declares(d, x)
    }
}

/// The four passes over the declarations of an open module.
proof fn lemma_track_passes(s: ResolverView, d: ast::ModuleDecl)
    requires
        traced(s, d.statements@),
        once_state(s),
        declared_once(d),
        unseen(s, d.statements@, 0),
    ensures
        ({
            let n = d.statements@.len();
            let s2 = resolve_statements(s, d.statements@, n, Phase::Modules);
            let s3 = resolve_statements(s2, d.statements@, n, Phase::Types);
            let s4 = resolve_statements(s3, d.statements@, n, Phase::Profiles);
            let s5 = resolve_statements(s4, d.statements@, n, Phase::Bodies);
            traced(s5, d.statements@) && framed(s, s5, d.statements@) && declared(s, s5)
        }),
    decreases d, 0nat,
{
    let statements = d.statements@;
    let n = statements.len();
    lemma_track_statements(s, statements, n, Phase::Modules);
    lemma_resolve_statements(0, s, statements, n, Phase::Modules);
    let s2 = resolve_statements(s, statements, n, Phase::Modules);
    lemma_track_statements(s2, statements, n, Phase::Types);
    lemma_resolve_statements(0, s2, statements, n, Phase::Types);
    let s3 = resolve_statements(s2, statements, n, Phase::Types);
    lemma_track_statements(s3, statements, n, Phase::Profiles);
    lemma_resolve_statements(0, s3, statements, n, Phase::Profiles);
    let s4 = resolve_statements(s3, statements, n, Phase::Profiles);
    lemma_track_statements(s4, statements, n, Phase::Bodies);
    lemma_resolve_statements(0, s4, statements, n, Phase::Bodies);
    let s5 = resolve_statements(s4, statements, n, Phase::Bodies);
    super::unique::lemma_declared_twice(s, s2, s3);
    super::unique::lemma_declared_twice(s, s3, s4);
    super::unique::lemma_declared_twice(s, s4, s5);
    assert forall|x: u64| !declared_among(statements, x) implies #[trigger] same_entry(s, s5, x) by {
        assert(same_entry(s, s2, x));
        assert(same_entry(s2, s3, x));
        assert(same_entry(s3, s4, x));
        assert(same_entry(s4, s5, x));
    }
}

/// No two symbols of a resolved module are the same, and its declaration
/// declares each of them, where the declaration declares no number twice
/// and the context holds no function under a number that it declares.
pub proof fn lemma_sourced_module(s: ResolverView, d: ast::ModuleDecl)
    requires
        declared_once(d),
        once_state(s),
        unknown(s, d),
    ensures
        once_state(resolve_module(s, d).0),
        entered(s, resolve_module(s, d), d),
    decreases d, 1nat,
{
    let empty = module_profile(d.identifier@);
    let (after, result) = resolve_module(s, d);
    let statements = d.statements@;
    lemma_once_module(s, d);
    if spec_clashes(module_scope(s), empty.symbol) {
        assert forall|x: u64| !module_declares(d, x) implies #[trigger] same_entry(s, after, x) by {}
    } else {
        lemma_opened(s, d);
        let s0 = store_module(s, empty);
        let s1 = push_module(s0, empty);
        lemma_track_passes(s1, d);
        let n = statements.len();
        let s2 = resolve_statements(s1, statements, n, Phase::Modules);
        let s3 = resolve_statements(s2, statements, n, Phase::Types);
        let s4 = resolve_statements(s3, statements, n, Phase::Profiles);
        let s5 = resolve_statements(s4, statements, n, Phase::Bodies);
        let m = s5.modules.last();
        assert(s1.modules.drop_last() =~= s0.modules);
        let s6 = pop_module(s5);
        assert(s6.modules =~= s0.modules);
        assert(result == Some(m));
        assert(once_module(m));
        lemma_sourced_once(m, d);
        assert forall|x: u64| !module_declares(d, x) implies #[trigger] same_entry(s, after, x) by {
            assert(!declared_among(statements, x));
            assert(same_entry(s1, s5, x));
        }
    }
}

/// The declaration of a module is numbered well for the state of the
/// resolver: it declares no number twice, the numbers that it declares are
/// all below the next identity of the resolver, and the context holds no
/// function under one of them.
pub open spec fn module_well_numbered(s: ResolverView, d: ast::ModuleDecl) -> bool {
    &&& declared_once(d)
    &&& unknown(s, d)
    &&& forall|x: u64| #[trigger] module_declares(d, x) ==> x < s.next
}

/// All identities of a resolved module: the numbers of its symbols, then
/// the identities of its nodes.
pub open spec fn module_all_ids(m: ModuleView) -> Seq<u64> {
    module_kept_ids(m) + super::unique::module_ids(m)
}

/// No two identities of a resolved module are the same, where its
/// declaration is numbered well and no table of the state holds a number
/// twice: the symbols of the module, of its functions and their formals, of
/// the variables in their bodies, of the modules inside it and of its
/// types with their parameters, fields and variants, and the identities of
/// all nodes, all differ - unless the identities have run out, which the
/// state records.
pub proof fn lemma_module_identities_unique(s: ResolverView, d: ast::ModuleDecl)
    requires
        module_well_numbered(s, d),
        once_state(s),
    ensures
        resolve_module(s, d).1 matches Some(m) ==> (!resolve_module(s, d).0.exhausted
            ==> module_all_ids(m).no_duplicates()),
{
    let (after, result) = resolve_module(s, d);
    if result is Some && !after.exhausted {
        let m = result->0;
        lemma_sourced_module(s, d);
        super::unique::lemma_module_nodes_unique(s, d);
        let kept = module_kept_ids(m);
        let made = super::unique::module_ids(m);
        assert(disjoint(kept, made)) by {
            assert forall|x: u64| #[trigger] kept.contains(x) implies !made.contains(x) by {
                assert(module_declares(d, x));
                if made.contains(x) {
                    let i = choose|i: int| 0 <= i < made.len() && made[i] == x;
                    assert(s.next <= made[i]);
                }
            }
        }
        lemma_joined(kept, made);
    }
}

/// However often the profile of a function is resolved while its module is
/// resolved - in the pass over the profiles, and again where its body is
/// resolved - the resolved module holds the function once, under the
/// number of the symbol of its declaration, and with that symbol: every
/// entry of the table of functions comes from one declaration of the
/// module, and no two entries have the same number.
pub proof fn lemma_function_declared_once(s: ResolverView, d: ast::ModuleDecl)
    requires
        declared_once(d),
        once_state(s),
        unknown(s, d),
    ensures
        resolve_module(s, d).1 matches Some(m) ==> {
            &&& numbered_once(table_keys(m.function_table))
            &&& forall|i: int|
                0 <= i < m.function_table.len() ==> exists|j: int|
                    0 <= j < d.statements@.len() && function_sourced(
                        #[trigger] m.function_table[i],
                        #[trigger] d.statements@[j],
                    )
        },
{
    lemma_sourced_module(s, d);
}

/// What the parser handed on is numbered well for the state of the
/// resolver: an expression as `well_numbered` says, a module as
/// `module_well_numbered` says.
pub open spec fn syntax_well_numbered(s: ResolverView, node: ast::Ast) -> bool {
    match node {
        ast::Ast::Expr(e) => super::declared::well_numbered(e, s.next),
        ast::Ast::Module(d) => module_well_numbered(s, d),
        ast::Ast::Nil => true,
    }
}

/// All identities of what the resolver hands on.
pub open spec fn resolved_ids(node: super::model::AirView) -> Seq<u64> {
    match node {
        super::model::AirView::Expr(e) => super::declared::all_ids(e),
        super::model::AirView::Module(m) => module_all_ids(m),
        super::model::AirView::Nil => Seq::empty(),
    }
}

/// No two identities of what the resolver hands on are the same, where
/// what the parser handed on is numbered well and no table of the state
/// holds a number twice: modules, functions, variables, types and the nodes
/// of expressions all have identities of their own - unless the identities
/// have run out, which the state records.
pub proof fn lemma_resolved_identities_unique(s: ResolverView, node: ast::Ast)
    requires
        syntax_well_numbered(s, node),
        once_state(s),
    ensures
        !super::model::resolve(s, node).0.exhausted ==> resolved_ids(
            super::model::resolve(s, node).1,
        ).no_duplicates(),
{
    match node {
        ast::Ast::Expr(e) => {
            super::declared::lemma_identities_unique(s, e);
        },
        ast::Ast::Module(d) => {
            lemma_module_identities_unique(s, d);
        },
        ast::Ast::Nil => {},
    }
}

/// A context without functions holds no function under a number that a
/// declaration declares.
pub proof fn lemma_unknown_at_first(s: ResolverView, d: ast::ModuleDecl)
    requires
        s.context.function_table.len() == 0,
    ensures
        unknown(s, d),
{
}

/// The state in which the declarations of a module are resolved: the
/// module is written into the scope as an empty one, and opened.
pub proof fn lemma_opened(s: ResolverView, d: ast::ModuleDecl)
    requires
        once_state(s),
        unknown(s, d),
    ensures
        ({
            let empty = module_profile(d.identifier@);
            let opened = push_module(store_module(s, empty), empty);
            &&& traced(opened, d.statements@)
            &&& once_state(opened)
            &&& unseen(opened, d.statements@, 0)
            &&& opened.modules.last() == empty
            &&& opened.errors == s.errors
            &&& opened.context.function_table == s.context.function_table
            &&& opened.modules.drop_last() == store_module(s, empty).modules
        }),
{
    let empty = module_profile(d.identifier@);
    let statements = d.statements@;
    let s0 = store_module(s, empty);
    super::once::lemma_once_store_module(s, empty);
    let s1 = push_module(s0, empty);
    assert(once_state(s1)) by {
        assert forall|i: int| 0 <= i < s1.modules.len() implies once_module(
            #[trigger] s1.modules[i],
        ) by {
            if i < s0.modules.len() {
                assert(s1.modules[i] == s0.modules[i]);
            }
        }
    }
    assert(s1.modules.last() == empty);
    assert(s1.context.function_table == s.context.function_table);
    assert forall|j: int| 0 <= j < statements.len() implies profile_follows(
        s1,
        #[trigger] statements[j],
    ) by {
        if statements[j] is Function {
            let e = statements[j]->Function_0;
            assert(function_decl_ids(e)[0] == e.symbol@.id);
            assert(declares(statements[j], e.symbol@.id));
            assert(module_declares(d, e.symbol@.id));
        }
    }
    assert forall|j: int, x: u64|
        0 <= j < statements.len() && #[trigger] declares(statements[j], x) implies lookup(s1, x)
        is None by {
        assert(module_declares(d, x));
    }
    assert(s1.modules.drop_last() =~= s0.modules);
}

} // verus!
