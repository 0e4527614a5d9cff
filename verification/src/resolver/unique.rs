//! Every node of a resolved module has an identity of its own.

use vstd::prelude::*;
use crate::air::table::{first_with_id, lemma_put_found, spec_put, table_keys};
use crate::air::{FunctionView, ModuleView};
use crate::identifier::IdentifierView;
use crate::air::table::spec_clashes;
use crate::ast;
use super::laws::{
    advanced, block_ids, collected, enclosed, fresh, lemma_anonymous_fresh, lemma_fresh_twice,
    lemma_report_typed, lemma_resolve_block, lemma_resolve_expr, lemma_resolve_type_kind_typed,
    lemma_resolve_type_typed, lemma_resolve_variables_typed, node_ids, typed,
};
use super::model::{
    anonymous, block_scope, generics_table, module_profile, module_scope, pop_block, pop_function,
    pop_module, push_block, push_function, push_module, resolve_body, resolve_expr,
    resolve_function, resolve_function_profile, resolve_module, resolve_statements, resolve_type,
    resolve_type_decl, resolve_type_kind, resolve_variables, store_function, store_module,
    store_type, type_scope, function_scope, Phase,
};
use super::scope::{BlockScopeView, ResolverErrKind, ResolverView};

verus! {

// ---------------------------------------------------------------------
// Rows of identities
// ---------------------------------------------------------------------
/// The identities all lie from `lo` up to, but not at, `hi`, and no two of
/// them are the same.
pub open spec fn tidy(ids: Seq<u64>, lo: u64, hi: u64) -> bool {
    &&& forall|i: int| 0 <= i < ids.len() ==> lo <= #[trigger] ids[i] < hi
    &&& ids.no_duplicates()
}

/// No identity of the one row is in the other.
pub open spec fn apart(a: Seq<u64>, b: Seq<u64>) -> bool {
    forall|i: int, j: int| 0 <= i < a.len() && 0 <= j < b.len() ==> #[trigger] a[i] != #[trigger] b[j]
}

/// The first `n` rows, one after the other.
pub open spec fn flat(rows: Seq<Seq<u64>>, n: nat) -> Seq<u64>
    decreases n,
{
    if n == 0 || n > rows.len() {
        Seq::empty()
    } else {
        flat(rows, (n - 1) as nat) + rows[n - 1]
    }
}

/// Rows that are tidy and apart from one another are tidy when put one
/// after the other, and apart from every row that all of them are apart
/// from.
pub proof fn lemma_flat_tidy(rows: Seq<Seq<u64>>, n: nat, lo: u64, hi: u64)
    requires
        n <= rows.len(),
        forall|i: int| 0 <= i < n ==> tidy(#[trigger] rows[i], lo, hi),
        forall|i: int, j: int| 0 <= i < j < n ==> apart(#[trigger] rows[i], #[trigger] rows[j]),
    ensures
        tidy(flat(rows, n), lo, hi),
        forall|other: Seq<u64>|
            (forall|i: int| 0 <= i < n ==> apart(#[trigger] rows[i], other)) ==> #[trigger] apart(
                flat(rows, n),
                other,
            ),
    decreases n,
{
    if n > 0 {
        lemma_flat_tidy(rows, (n - 1) as nat, lo, hi);
        let before = flat(rows, (n - 1) as nat);
        let last = rows[n - 1];
        let all = before + last;
        assert(apart(before, last));
        assert forall|i: int| 0 <= i < all.len() implies lo <= #[trigger] all[i] < hi by {
            if i < before.len() {
                assert(all[i] == before[i]);
            } else {
                assert(all[i] == last[i - before.len()]);
            }
        }
        assert forall|i: int, j: int| 0 <= i < all.len() && 0 <= j < all.len() && i != j implies all[i]
            != all[j] by {
            if i < before.len() && j < before.len() {
                assert(all[i] == before[i] && all[j] == before[j]);
            } else if i < before.len() {
                assert(all[i] == before[i] && all[j] == last[j - before.len()]);
            } else if j < before.len() {
                assert(all[j] == before[j] && all[i] == last[i - before.len()]);
            } else {
                assert(all[i] == last[i - before.len()] && all[j] == last[j - before.len()]);
            }
        }
        assert forall|other: Seq<u64>|
            (forall|i: int| 0 <= i < n ==> apart(#[trigger] rows[i], other)) implies #[trigger] apart(
            all,
            other,
        ) by {
            assert(apart(before, other));
            assert(apart(last, other));
            assert forall|i: int, j: int| 0 <= i < all.len() && 0 <= j < other.len() implies all[i]
                != other[j] by {
                if i < before.len() {
                    assert(all[i] == before[i]);
                } else {
                    assert(all[i] == last[i - before.len()]);
                }
            }
        }
    }
}

/// Identities that were taken earlier are apart from those taken later.
pub proof fn lemma_earlier_apart(a: Seq<u64>, b: Seq<u64>, lo: u64, mid: u64, hi: u64)
    requires
        tidy(a, lo, mid),
        tidy(b, mid, hi),
    ensures
        apart(a, b),
        apart(b, a),
{
}

/// Tidy identities are tidy in every wider range.
pub proof fn lemma_tidy_wider(a: Seq<u64>, lo: u64, hi: u64, lower: u64, higher: u64)
    requires
        tidy(a, lo, hi),
        lower <= lo,
        hi <= higher,
    ensures
        tidy(a, lower, higher),
{
}

// ---------------------------------------------------------------------
// The nodes of functions and modules
// ---------------------------------------------------------------------
/// The identities of the nodes of a function: those of its body.
pub open spec fn function_ids(f: FunctionView) -> Seq<u64> {
    match f.body {
        Some(b) => block_ids(b),
        None => Seq::empty(),
    }
}

/// For each function of a table, the identities of its nodes.
pub open spec fn function_rows(table: Seq<(IdentifierView, FunctionView)>) -> Seq<Seq<u64>> {
    Seq::new(table.len(), |i: int| function_ids(table[i].1))
}

/// The identities of the nodes of a module: those of its functions, then
/// those of its submodules.
pub open spec fn module_ids(m: ModuleView) -> Seq<u64>
    decreases m, 0nat,
{
    flat(function_rows(m.function_table), m.function_table.len()) + flat(
        module_rows(m.module_table),
        m.module_table.len(),
    )
}

/// For each module of a table, the identities of its nodes.
pub open spec fn module_rows(table: Seq<(IdentifierView, ModuleView)>) -> Seq<Seq<u64>>
    decreases table, 0nat,
{
    Seq::new(
        table.len(),
        |i: int|
            if 0 <= i < table.len() {
                module_ids(table[i].1)
            } else {
                Seq::empty()
            },
    )
}

/// The rows of a module are tidy and apart from one another: the nodes of
/// each function and of each submodule have identities between `lo` and
/// `hi` that are all different, and no identity is in two of them.
pub open spec fn spread(m: ModuleView, lo: u64, hi: u64) -> bool {
    let fs = function_rows(m.function_table);
    let ms = module_rows(m.module_table);
    &&& forall|i: int| 0 <= i < fs.len() ==> tidy(#[trigger] fs[i], lo, hi)
    &&& forall|i: int| 0 <= i < ms.len() ==> tidy(#[trigger] ms[i], lo, hi)
    &&& forall|i: int, j: int| 0 <= i < j < fs.len() ==> apart(#[trigger] fs[i], #[trigger] fs[j])
    &&& forall|i: int, j: int| 0 <= i < j < ms.len() ==> apart(#[trigger] ms[i], #[trigger] ms[j])
    &&& forall|i: int, j: int|
        0 <= i < fs.len() && 0 <= j < ms.len() ==> apart(#[trigger] fs[i], #[trigger] ms[j])
}

/// In a module whose rows are spread, every node has an identity of its
/// own.
pub proof fn lemma_spread_tidy(m: ModuleView, lo: u64, hi: u64)
    requires
        spread(m, lo, hi),
    ensures
        tidy(module_ids(m), lo, hi),
{
    let fs = function_rows(m.function_table);
    let ms = module_rows(m.module_table);
    lemma_flat_tidy(fs, fs.len(), lo, hi);
    lemma_flat_tidy(ms, ms.len(), lo, hi);
    let a = flat(fs, fs.len());
    let b = flat(ms, ms.len());
    assert forall|j: int| 0 <= j < ms.len() implies apart(a, #[trigger] ms[j]) by {
        assert forall|i: int| 0 <= i < fs.len() implies apart(#[trigger] fs[i], ms[j]) by {}
    }
    assert(apart(a, b)) by {
        assert forall|j: int| 0 <= j < ms.len() implies apart(#[trigger] ms[j], a) by {
            assert(apart(a, ms[j]));
        }
        assert(apart(b, a));
    }
    let all = a + b;
    assert forall|i: int| 0 <= i < all.len() implies lo <= #[trigger] all[i] < hi by {
        if i < a.len() {
            assert(all[i] == a[i]);
        } else {
            assert(all[i] == b[i - a.len()]);
        }
    }
    assert forall|i: int, j: int| 0 <= i < all.len() && 0 <= j < all.len() && i != j implies all[i]
        != all[j] by {
        if i < a.len() && j < a.len() {
            assert(all[i] == a[i] && all[j] == a[j]);
        } else if i < a.len() {
            assert(all[i] == a[i] && all[j] == b[j - a.len()]);
        } else if j < a.len() {
            assert(all[j] == a[j] && all[i] == b[i - a.len()]);
        } else {
            assert(all[i] == b[i - a.len()] && all[j] == b[j - a.len()]);
        }
    }
}

/// A module without functions and submodules is spread.
pub proof fn lemma_empty_spread(symbol: IdentifierView, lo: u64, hi: u64)
    ensures
        spread(super::model::module_profile(symbol), lo, hi),
        module_ids(super::model::module_profile(symbol)) == Seq::<u64>::empty(),
{
    let m = super::model::module_profile(symbol);
    assert(flat(function_rows(m.function_table), 0) =~= Seq::empty());
    assert(flat(module_rows(m.module_table), 0) =~= Seq::empty());
    assert(module_ids(m) =~= Seq::<u64>::empty());
}

/// A spread module stays spread in every wider range.
pub proof fn lemma_spread_wider(m: ModuleView, lo: u64, hi: u64, higher: u64)
    requires
        spread(m, lo, hi),
        hi <= higher,
    ensures
        spread(m, lo, higher),
{
    let fs = function_rows(m.function_table);
    let ms = module_rows(m.module_table);
    assert forall|i: int| 0 <= i < fs.len() implies tidy(#[trigger] fs[i], lo, higher) by {
        lemma_tidy_wider(fs[i], lo, hi, lo, higher);
    }
    assert forall|i: int| 0 <= i < ms.len() implies tidy(#[trigger] ms[i], lo, higher) by {
        lemma_tidy_wider(ms[i], lo, hi, lo, higher);
    }
}

/// Putting a function whose nodes have later identities into a spread
/// module leaves the module spread.
pub proof fn lemma_put_function_spread(
    m: ModuleView,
    f: FunctionView,
    lo: u64,
    mid: u64,
    hi: u64,
)
    requires
        spread(m, lo, mid),
        tidy(function_ids(f), mid, hi),
        lo <= mid <= hi,
    ensures
        spread(ModuleView { function_table: spec_put(m.function_table, f.symbol, f), ..m }, lo, hi),
{
    let after = ModuleView { function_table: spec_put(m.function_table, f.symbol, f), ..m };
    lemma_put_found(m.function_table, f.symbol, f);
    lemma_spread_wider(m, lo, mid, hi);
    let at = first_with_id(table_keys(after.function_table), f.symbol.id, 0)->0;
    let fs = function_rows(m.function_table);
    let ms = module_rows(m.module_table);
    let gs = function_rows(after.function_table);
    lemma_tidy_wider(function_ids(f), mid, hi, lo, hi);
    assert forall|i: int| 0 <= i < gs.len() && i != at implies #[trigger] gs[i] == fs[i] && tidy(
        fs[i],
        lo,
        mid,
    ) by {
        assert(after.function_table[i] == m.function_table[i]);
    }
    assert forall|i: int| 0 <= i < gs.len() implies tidy(#[trigger] gs[i], lo, hi) by {
        if i != at {
            assert(gs[i] == fs[i]);
        }
    }
    assert forall|i: int, j: int| 0 <= i < j < gs.len() implies apart(
        #[trigger] gs[i],
        #[trigger] gs[j],
    ) by {
        if i == at {
            assert(gs[j] == fs[j]);
            lemma_earlier_apart(fs[j], gs[i], lo, mid, hi);
        } else if j == at {
            assert(gs[i] == fs[i]);
            lemma_earlier_apart(fs[i], gs[j], lo, mid, hi);
        } else {
            assert(gs[i] == fs[i] && gs[j] == fs[j]);
        }
    }
    assert forall|i: int, j: int| 0 <= i < gs.len() && 0 <= j < ms.len() implies apart(
        #[trigger] gs[i],
        #[trigger] ms[j],
    ) by {
        if i == at {
            assert(tidy(ms[j], lo, mid));
            lemma_earlier_apart(ms[j], gs[i], lo, mid, hi);
        } else {
            assert(gs[i] == fs[i]);
        }
    }
}

/// Putting a module whose nodes have later identities into a spread module
/// leaves the module spread.
pub proof fn lemma_put_module_spread(m: ModuleView, sub: ModuleView, lo: u64, mid: u64, hi: u64)
    requires
        spread(m, lo, mid),
        tidy(module_ids(sub), mid, hi),
        lo <= mid <= hi,
    ensures
        spread(ModuleView { module_table: spec_put(m.module_table, sub.symbol, sub), ..m }, lo, hi),
{
    let after = ModuleView { module_table: spec_put(m.module_table, sub.symbol, sub), ..m };
    lemma_put_found(m.module_table, sub.symbol, sub);
    lemma_spread_wider(m, lo, mid, hi);
    let at = first_with_id(table_keys(after.module_table), sub.symbol.id, 0)->0;
    let fs = function_rows(m.function_table);
    let ms = module_rows(m.module_table);
    let gs = module_rows(after.module_table);
    lemma_tidy_wider(module_ids(sub), mid, hi, lo, hi);
    assert forall|i: int| 0 <= i < gs.len() && i != at implies #[trigger] gs[i] == ms[i] && tidy(
        ms[i],
        lo,
        mid,
    ) by {
        assert(after.module_table[i] == m.module_table[i]);
    }
    assert forall|i: int| 0 <= i < gs.len() implies tidy(#[trigger] gs[i], lo, hi) by {
        if i != at {
            assert(gs[i] == ms[i]);
        }
    }
    assert forall|i: int, j: int| 0 <= i < j < gs.len() implies apart(
        #[trigger] gs[i],
        #[trigger] gs[j],
    ) by {
        if i == at {
            assert(gs[j] == ms[j]);
            lemma_earlier_apart(ms[j], gs[i], lo, mid, hi);
        } else if j == at {
            assert(gs[i] == ms[i]);
            lemma_earlier_apart(ms[i], gs[j], lo, mid, hi);
        } else {
            assert(gs[i] == ms[i] && gs[j] == ms[j]);
        }
    }
    assert forall|i: int, j: int| 0 <= i < fs.len() && 0 <= j < gs.len() implies apart(
        #[trigger] fs[i],
        #[trigger] gs[j],
    ) by {
        if j == at {
            assert(tidy(fs[i], lo, mid));
            lemma_earlier_apart(fs[i], gs[j], lo, mid, hi);
        } else {
            assert(gs[j] == ms[j]);
        }
    }
}

// ---------------------------------------------------------------------
// What a declaration leaves alone
// ---------------------------------------------------------------------
/// What the resolution of a declaration leaves alone: the open functions
/// and blocks, and all open modules but the innermost one, which keeps its
/// symbol.
pub open spec fn declared(s: ResolverView, after: ResolverView) -> bool {
    &&& advanced(s, after)
    &&& collected(s, after)
    &&& after.functions == s.functions
    &&& after.blocks == s.blocks
    &&& after.modules.len() == s.modules.len()
    &&& s.modules.len() > 0 ==> {
        &&& after.modules.drop_last() == s.modules.drop_last()
        &&& after.modules.last().symbol == s.modules.last().symbol
    }
}

/// Where the innermost open module was spread over the identities from
/// `lo` on before the step, it is so after the step - unless the
/// identities have run out.
pub open spec fn kept(lo: u64, s: ResolverView, after: ResolverView) -> bool {
    (s.modules.len() > 0 && lo <= s.next && !after.exhausted && spread(
        s.modules.last(),
        lo,
        s.next,
    )) ==> spread(after.modules.last(), lo, after.next)
}

/// Nothing happened.
pub proof fn lemma_declared_nothing(s: ResolverView)
    ensures
        declared(s, s),
        typed(s, s),
{
    assert(s.errors.subrange(0, s.errors.len() as int) =~= s.errors);
}

/// What is left alone by one step and by the next is left alone by both.
pub proof fn lemma_declared_twice(s: ResolverView, mid: ResolverView, after: ResolverView)
    requires
        declared(s, mid),
        declared(mid, after),
    ensures
        declared(s, after),
{
    assert(after.errors.subrange(0, s.errors.len() as int) =~= mid.errors.subrange(
        0,
        s.errors.len() as int,
    ));
}

/// A step that changes nothing but the identities and the errors is a
/// declaration that declares nothing.
pub proof fn lemma_typed_declared(lo: u64, s: ResolverView, after: ResolverView)
    requires
        typed(s, after),
    ensures
        declared(s, after),
        kept(lo, s, after),
{
    if s.modules.len() > 0 && lo <= s.next && spread(s.modules.last(), lo, s.next) {
        lemma_spread_wider(s.modules.last(), lo, s.next, after.next);
    }
}

/// Writing a function whose nodes have later identities.
pub proof fn lemma_store_function(lo: u64, mid: u64, s: ResolverView, f: FunctionView)
    requires
        lo <= mid <= s.next,
        s.modules.len() > 0 ==> spread(s.modules.last(), lo, mid),
        tidy(function_ids(f), mid, s.next),
    ensures
        declared(s, store_function(s, f)),
        s.modules.len() > 0 ==> spread(store_function(s, f).modules.last(), lo, s.next),
{
    let after = store_function(s, f);
    assert(after.errors.subrange(0, s.errors.len() as int) =~= s.errors);
    if s.modules.len() > 0 {
        assert(after.modules.drop_last() =~= s.modules.drop_last());
        lemma_put_function_spread(s.modules.last(), f, lo, mid, s.next);
    }
}

/// Writing a module whose nodes have later identities.
pub proof fn lemma_store_module(lo: u64, mid: u64, s: ResolverView, m: ModuleView)
    requires
        lo <= mid <= s.next,
        s.modules.len() > 0 ==> spread(s.modules.last(), lo, mid),
        tidy(module_ids(m), mid, s.next),
    ensures
        declared(s, store_module(s, m)),
        s.modules.len() > 0 ==> spread(store_module(s, m).modules.last(), lo, s.next),
{
    let after = store_module(s, m);
    assert(after.errors.subrange(0, s.errors.len() as int) =~= s.errors);
    if s.modules.len() > 0 {
        assert(after.modules.drop_last() =~= s.modules.drop_last());
        lemma_put_module_spread(s.modules.last(), m, lo, mid, s.next);
    }
}

/// Writing a type.
pub proof fn lemma_store_type(
    lo: u64,
    s: ResolverView,
    symbol: IdentifierView,
    t: crate::air::TypeView,
)
    ensures
        declared(s, store_type(s, symbol, t)),
        kept(lo, s, store_type(s, symbol, t)),
{
    let after = store_type(s, symbol, t);
    assert(after.errors.subrange(0, s.errors.len() as int) =~= s.errors);
    if s.modules.len() > 0 {
        assert(after.modules.drop_last() =~= s.modules.drop_last());
        assert(function_rows(after.modules.last().function_table) == function_rows(
            s.modules.last().function_table,
        ));
        assert(module_rows(after.modules.last().module_table) == module_rows(
            s.modules.last().module_table,
        ));
    }
}

/// The resolution of the profile of a function declares nothing but the
/// profile, which has no nodes.
pub proof fn lemma_resolve_function_profile(lo: u64, s: ResolverView, d: ast::FunctionDecl)
    ensures
        declared(s, resolve_function_profile(s, d).0),
        kept(lo, s, resolve_function_profile(s, d).0),
        resolve_function_profile(s, d).1 matches Some(p) ==> p.body is None,
{
    let after = resolve_function_profile(s, d).0;
    match first_with_id(table_keys(s.context.function_table), d.symbol@.id, 0) {
        Some(i) => {
            lemma_declared_nothing(s);
        },
        None => {
            lemma_resolve_variables_typed(s, d.formals@, d.formals@.len());
            let (s1, formals) = resolve_variables(s, d.formals@, d.formals@.len());
            lemma_resolve_type_typed(s1, d.ret);
            let (s2, ret) = resolve_type(s1, d.ret);
            super::laws::lemma_typed_twice(s, s1, s2);
            lemma_typed_declared(lo, s, s2);
            let f = FunctionView { symbol: d.symbol@, formals, ret, body: None };
            if spec_clashes(function_scope(s2), f.symbol) {
                lemma_report_typed(s2, ResolverErrKind::Redeclaration, f.symbol.name, d.span@);
                super::laws::lemma_typed_twice(s, s2, after);
                lemma_typed_declared(lo, s, after);
            } else {
                if s.modules.len() > 0 && lo <= s.next && !after.exhausted && spread(
                    s.modules.last(),
                    lo,
                    s.next,
                ) {
                    lemma_store_function(lo, s.next, s2, f);
                } else {
                    lemma_store_function_frame(s2, f);
                }
                lemma_declared_twice(s, s2, after);
            }
        },
    }
}

/// The resolution of the body of a function leaves the open scopes as it
/// found them, and every node of the body has an identity of its own.
pub proof fn lemma_resolve_body(s: ResolverView, e: ast::Expr)
    ensures
        enclosed(s, resolve_body(s, e).0),
        fresh(s, resolve_body(s, e).0, block_ids(resolve_body(s, e).1)),
{
    match e {
        ast::Expr::Block(b) => {
            lemma_resolve_block(s, *b, Seq::empty());
        },
        _ => {
            lemma_anonymous_fresh(s);
            let (s1, identifier) = anonymous(s);
            let own = seq![identifier.id];
            let s2 = push_block(s1, block_scope(identifier, Seq::empty()));
            assert(s2.blocks.drop_last() =~= s1.blocks);
            lemma_resolve_expr(s2, e);
            let (s3, ret) = resolve_expr(s2, e);
            let after = pop_block(s3);
            assert(after.blocks =~= s.blocks);
            assert(after.errors.subrange(0, s.errors.len() as int) =~= s2.errors.subrange(
                0,
                s.errors.len() as int,
            ));
            assert(fresh(s1, s3, node_ids(ret)));
            lemma_fresh_twice(s, s1, s3, own, node_ids(ret));
            let block = resolve_body(s, e).1;
            assert(block.body.len() == 0);
            assert(block_ids(block) =~= own + node_ids(ret)) by {
                assert(super::laws::exprs_ids(block.body, 0) =~= Seq::empty());
            }
        },
    }
}

/// The resolution of a function declares nothing but the function, and
/// every node of the function has an identity of its own.
pub proof fn lemma_resolve_function(lo: u64, s: ResolverView, d: ast::FunctionDecl)
    ensures
        declared(s, resolve_function(s, d).0),
        kept(lo, s, resolve_function(s, d).0),
        resolve_function(s, d).1 matches Some(f) ==> fresh(
            s,
            resolve_function(s, d).0,
            function_ids(f),
        ),
{
    let after = resolve_function(s, d).0;
    lemma_resolve_function_profile(lo, s, d);
    let (s1, profile) = resolve_function_profile(s, d);
    if profile is Some {
        let p = profile->0;
        let s2 = push_function(s1, p);
        assert(s2.functions.drop_last() =~= s1.functions);
        let (s3, body) = if d.is_extern {
            (s2, None)
        } else {
            match d.body {
                Some(e) => {
                    let (s3, block) = resolve_body(s2, e);
                    (s3, Some(block))
                },
                None => (s2, None),
            }
        };
        assert(enclosed(s2, s3) && fresh(s2, s3, function_ids(FunctionView { body, ..p }))) by {
            if !d.is_extern && d.body is Some {
                lemma_resolve_body(s2, d.body->0);
            } else {
                assert(s2.errors.subrange(0, s2.errors.len() as int) =~= s2.errors);
            }
        }
        let f = FunctionView { body, ..p };
        let s4 = pop_function(s3);
        assert(s4.functions =~= s1.functions);
        assert(s4.modules == s1.modules);
        assert(s4.next == s3.next);
        // declared(s1, s4)
        assert(s4.errors.subrange(0, s1.errors.len() as int) =~= s1.errors) by {
            assert(s3.errors.subrange(0, s2.errors.len() as int) == s2.errors);
        }
        assert(declared(s1, s4));
        if !after.exhausted {
            assert(tidy(function_ids(f), s1.next, s4.next));
            if s.modules.len() > 0 && lo <= s.next && spread(s.modules.last(), lo, s.next) {
                lemma_store_function(lo, s1.next, s4, f);
            } else {
                lemma_store_function_frame(s4, f);
            }
        } else {
            lemma_store_function_frame(s4, f);
        }
        lemma_declared_twice(s, s1, s4);
        let stored = store_function(s4, f);
        lemma_declared_twice(s, s4, stored);
        if !d.is_extern && d.body is None {
            lemma_report_typed(stored, ResolverErrKind::MissingBody, d.symbol@.name, d.span@);
            lemma_typed_declared(lo, stored, after);
            lemma_declared_twice(s, stored, after);
        }
    }
}

/// Writing a function is a declaration.
pub proof fn lemma_store_function_frame(s: ResolverView, f: FunctionView)
    ensures
        declared(s, store_function(s, f)),
{
    let after = store_function(s, f);
    assert(after.errors.subrange(0, s.errors.len() as int) =~= s.errors);
    if s.modules.len() > 0 {
        assert(after.modules.drop_last() =~= s.modules.drop_last());
    }
}

/// Writing a module is a declaration.
pub proof fn lemma_store_module_frame(s: ResolverView, m: ModuleView)
    ensures
        declared(s, store_module(s, m)),
{
    let after = store_module(s, m);
    assert(after.errors.subrange(0, s.errors.len() as int) =~= s.errors);
    if s.modules.len() > 0 {
        assert(after.modules.drop_last() =~= s.modules.drop_last());
    }
}

/// The resolution of the declaration of a type declares nothing but the
/// type.
pub proof fn lemma_resolve_type_decl(lo: u64, s: ResolverView, d: ast::TypeDecl)
    ensures
        declared(s, resolve_type_decl(s, d).0),
        kept(lo, s, resolve_type_decl(s, d).0),
{
    let after = resolve_type_decl(s, d).0;
    lemma_anonymous_fresh(s);
    let (s1, identifier) = anonymous(s);
    let s2 = push_block(
        s1,
        BlockScopeView {
            type_table: generics_table(d.params@),
            ..block_scope(identifier, Seq::empty())
        },
    );
    lemma_resolve_type_kind_typed(s2, d);
    let (s3, t) = resolve_type_kind(s2, d);
    let s4 = pop_block(s3);
    assert(s4.blocks =~= s.blocks);
    assert(s4.errors.subrange(0, s.errors.len() as int) =~= s.errors) by {
        assert(s3.errors.subrange(0, s2.errors.len() as int) == s2.errors);
    }
    assert(typed(s, s4));
    lemma_typed_declared(lo, s, s4);
    if spec_clashes(type_scope(s4), d.symbol@) {
        lemma_report_typed(s4, ResolverErrKind::Redeclaration, d.symbol@.name, d.span@);
        super::laws::lemma_typed_twice(s, s4, after);
        lemma_typed_declared(lo, s, after);
    } else {
        lemma_store_type(lo, s4, d.symbol@, t);
        lemma_declared_twice(s, s4, after);
    }
}

/// What is kept by one step and by the next is kept by both.
pub proof fn lemma_kept_twice(lo: u64, s: ResolverView, mid: ResolverView, after: ResolverView)
    requires
        declared(s, mid),
        declared(mid, after),
        kept(lo, s, mid),
        kept(lo, mid, after),
    ensures
        declared(s, after),
        kept(lo, s, after),
{
    lemma_declared_twice(s, mid, after);
}

/// One pass over the declarations of a module declares nothing outside the
/// module, and keeps the module spread.
pub proof fn lemma_resolve_statements(
    lo: u64,
    s: ResolverView,
    statements: Seq<ast::Statement>,
    n: nat,
    phase: Phase,
)
    ensures
        declared(s, resolve_statements(s, statements, n, phase)),
        kept(lo, s, resolve_statements(s, statements, n, phase)),
    decreases statements, n,
{
    if n == 0 || n > statements.len() {
        lemma_declared_nothing(s);
    } else {
        lemma_resolve_statements(lo, s, statements, (n - 1) as nat, phase);
        let s1 = resolve_statements(s, statements, (n - 1) as nat, phase);
        let after = resolve_statements(s, statements, n, phase);
        match (phase, statements[n - 1]) {
            (Phase::Modules, ast::Statement::Module(m)) => {
                lemma_resolve_module(lo, s1, m);
            },
            (Phase::Types, ast::Statement::Type(t)) => {
                lemma_resolve_type_decl(lo, s1, t);
            },
            (Phase::Profiles, ast::Statement::Function(f)) => {
                lemma_resolve_function_profile(lo, s1, f);
            },
            (Phase::Bodies, ast::Statement::Function(f)) => {
                if super::model::has_profile(s1, f) {
                    lemma_resolve_function(lo, s1, f);
                } else {
                    lemma_declared_nothing(s1);
                }
            },
            _ => {
                lemma_declared_nothing(s1);
            },
        }
        lemma_kept_twice(lo, s, s1, after);
    }
}

/// The four passes over the declarations of an open module.
proof fn lemma_resolve_passes(lo: u64, s: ResolverView, d: ast::ModuleDecl)
    ensures
        ({
            let n = d.statements@.len();
            let s2 = resolve_statements(s, d.statements@, n, Phase::Modules);
            let s3 = resolve_statements(s2, d.statements@, n, Phase::Types);
            let s4 = resolve_statements(s3, d.statements@, n, Phase::Profiles);
            let s5 = resolve_statements(s4, d.statements@, n, Phase::Bodies);
            declared(s, s5) && kept(lo, s, s5)
        }),
    decreases d, 0nat,
{
    let n = d.statements@.len();
    lemma_resolve_statements(lo, s, d.statements@, n, Phase::Modules);
    let s2 = resolve_statements(s, d.statements@, n, Phase::Modules);
    lemma_resolve_statements(lo, s2, d.statements@, n, Phase::Types);
    let s3 = resolve_statements(s2, d.statements@, n, Phase::Types);
    lemma_resolve_statements(lo, s3, d.statements@, n, Phase::Profiles);
    let s4 = resolve_statements(s3, d.statements@, n, Phase::Profiles);
    lemma_resolve_statements(lo, s4, d.statements@, n, Phase::Bodies);
    let s5 = resolve_statements(s4, d.statements@, n, Phase::Bodies);
    lemma_kept_twice(lo, s, s2, s3);
    lemma_kept_twice(lo, s, s3, s4);
    lemma_kept_twice(lo, s, s4, s5);
}

/// The resolution of a module declares nothing outside the module, and
/// every node of the resolved module has an identity of its own, taken
/// during the resolution - unless the identities have run out.
pub proof fn lemma_resolve_module(lo: u64, s: ResolverView, d: ast::ModuleDecl)
    ensures
        declared(s, resolve_module(s, d).0),
        kept(lo, s, resolve_module(s, d).0),
        resolve_module(s, d).1 matches Some(m) ==> fresh(
            s,
            resolve_module(s, d).0,
            module_ids(m),
        ),
    decreases d, 1nat,
{
    let after = resolve_module(s, d).0;
    let empty = module_profile(d.identifier@);
    if spec_clashes(module_scope(s), empty.symbol) {
        lemma_report_typed(s, ResolverErrKind::Redeclaration, empty.symbol.name, d.span@);
        lemma_typed_declared(lo, s, after);
    } else {
        lemma_empty_spread(d.identifier@, s.next, s.next);
        let s0 = store_module(s, empty);
        lemma_store_module_frame(s, empty);
        let s1 = push_module(s0, empty);
        assert(s1.modules.drop_last() =~= s0.modules);
        lemma_resolve_passes(s.next, s1, d);
        let n = d.statements@.len();
        let s2 = resolve_statements(s1, d.statements@, n, Phase::Modules);
        let s3 = resolve_statements(s2, d.statements@, n, Phase::Types);
        let s4 = resolve_statements(s3, d.statements@, n, Phase::Profiles);
        let s5 = resolve_statements(s4, d.statements@, n, Phase::Bodies);
        let m = s5.modules.last();
        let s6 = pop_module(s5);
        assert(s6.modules =~= s0.modules);
        assert(s6.errors.subrange(0, s0.errors.len() as int) =~= s0.errors) by {
            assert(s5.errors.subrange(0, s1.errors.len() as int) == s1.errors);
        }
        assert(declared(s0, s6));
        lemma_store_module_frame(s6, m);
        lemma_declared_twice(s, s0, s6);
        lemma_declared_twice(s, s6, after);
        if !after.exhausted {
            assert(spread(m, s.next, s5.next));
            lemma_spread_tidy(m, s.next, s5.next);
            if s.modules.len() > 0 && lo <= s.next && spread(s.modules.last(), lo, s.next) {
                lemma_store_module(lo, s.next, s, empty);
                lemma_store_module(lo, s.next, s6, m);
            }
        }
    }
}

/// Every node of a resolved module has an identity of its own: the
/// identities of the nodes of its functions and of its submodules were all
/// taken during the resolution, and no two of them are the same - unless
/// the identities have run out, which the state records.
pub proof fn lemma_module_nodes_unique(s: ResolverView, d: ast::ModuleDecl)
    ensures
        resolve_module(s, d).1 matches Some(m) ==> fresh(
            s,
            resolve_module(s, d).0,
            module_ids(m),
        ),
        resolve_module(s, d).1 matches Some(m) ==> !resolve_module(s, d).0.exhausted
            ==> module_ids(m).no_duplicates(),
{
    lemma_resolve_module(s.next, s, d);
}

/// Every node of a resolved expression has an identity of its own: the
/// identities were all taken during the resolution, and no two of them
/// are the same - unless the identities have run out, which the state
/// records.
pub proof fn lemma_expression_nodes_unique(s: ResolverView, e: ast::Expr)
    ensures
        fresh(s, resolve_expr(s, e).0, node_ids(resolve_expr(s, e).1)),
        !resolve_expr(s, e).0.exhausted ==> node_ids(resolve_expr(s, e).1).no_duplicates(),
{
    lemma_resolve_expr(s, e);
}

} // verus!
