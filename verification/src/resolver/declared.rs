//! The identities that a resolved expression keeps from the syntax, and
//! why no two identities of a resolved expression are the same.

use vstd::prelude::*;
use crate::air::{BlockExprView, ExprView, LiteralView, VariableView};
use crate::ast;
use crate::identifier::Symbol;
use super::laws::{
    fresh, lemma_resolve_expr, lemma_resolve_exprs, lemma_tuple_elements_typed, node_ids,
    variable_ids,
};
use super::model::{
    anonymous, loop_variables, resolve_block, resolve_expr, resolve_exprs, resolve_operator,
    tuple_elements, tuple_fields,
};
use super::scope::ResolverView;

verus! {

/// The numbers of symbols.
pub open spec fn symbol_ids(symbols: Seq<Symbol>) -> Seq<u64> {
    Seq::new(symbols.len(), |i: int| symbols[i]@.id)
}

/// The numbers of the symbols that an expression of the source declares
/// and that its resolved form keeps: the variables of its definitions and
/// of its loops, in the order of the source. What a selection declares is
/// not kept, since a selection has no resolved form.
pub open spec fn declared_ids(e: ast::Expr) -> Seq<u64>
    decreases e, 0nat,
{
    match e {
        ast::Expr::Assign(a) => seq![a.symbol@.id] + declared_ids(a.rhs),
        ast::Expr::Block(b) => declared_in_block(*b),
        ast::Expr::Call(c) => declared_ids(c.target) + declared_in(
            c.arguments@,
            c.arguments@.len(),
        ),
        ast::Expr::Channel(c) => declared_ids(c.lhs) + declared_ids(c.rhs),
        ast::Expr::Deref(d) => declared_ids(d.inner),
        ast::Expr::For(f) => symbol_ids(f.formals@) + declared_ids(f.iterator) + declared_in_block(
            f.iteration,
        ),
        ast::Expr::If(i) => declared_ids(i.condition) + declared_in_block(i.then_block)
            + declared_in_block(i.else_block),
        ast::Expr::Item(_) => Seq::empty(),
        ast::Expr::List(l) => declared_in(l.elements@, l.elements@.len()),
        ast::Expr::ListRange(r) => declared_ids(r.first) + declared_ids(r.last),
        ast::Expr::Literal(_) => Seq::empty(),
        ast::Expr::Operator(o) => declared_in_operator(*o),
        ast::Expr::Ref(r) => declared_ids(r.inner),
        ast::Expr::Select(_) => Seq::empty(),
        ast::Expr::Tuple(t) => declared_in(t.elements@, t.elements@.len()),
        ast::Expr::Void(_) => Seq::empty(),
    }
}

/// The numbers of the symbols that the first `n` of a row of expressions
/// declare.
pub open spec fn declared_in(es: Seq<ast::Expr>, n: nat) -> Seq<u64>
    decreases es, n,
{
    if n == 0 || n > es.len() {
        Seq::empty()
    } else {
        declared_in(es, (n - 1) as nat) + declared_ids(es[n - 1])
    }
}

/// The numbers of the symbols that a block declares.
pub open spec fn declared_in_block(b: ast::BlockExpr) -> Seq<u64>
    decreases b, 0nat,
{
    declared_in(b.body@, b.body@.len()) + declared_ids(b.ret)
}

/// The numbers of the symbols that the operands of an operator declare.
pub open spec fn declared_in_operator(o: ast::OperatorExpr) -> Seq<u64>
    decreases o, 0nat,
{
    match o {
        ast::OperatorExpr::Binary(b) => declared_ids(b.lhs) + declared_ids(b.rhs),
        ast::OperatorExpr::Prefix(p) => declared_ids(p.rhs),
        ast::OperatorExpr::Suffix(x) => declared_ids(x.lhs),
    }
}

/// The numbers of the symbols that a resolved expression keeps from the
/// source: the variables of its definitions and of its loops.
pub open spec fn kept_ids(e: ExprView) -> Seq<u64>
    decreases e, 0nat,
{
    match e {
        ExprView::Block(b) => kept_in_block(*b),
        ExprView::Call(c) => kept_ids(c.target) + kept_in(c.arguments, c.arguments.len()),
        ExprView::Deref(d) => kept_ids(d.inner),
        ExprView::For(f) => variable_ids(f.formals) + kept_ids(f.iterator) + kept_in_block(
            *f.iteration,
        ),
        ExprView::If(i) => kept_ids(i.condition) + kept_in_block(*i.then_block) + kept_in_block(
            *i.else_block,
        ),
        ExprView::Item(_) => Seq::empty(),
        ExprView::Let(l) => seq![l.variable.symbol.id] + kept_ids(l.definition),
        ExprView::Literal(l) => kept_in_literal(l.literal),
        ExprView::Ref(r) => kept_ids(r.inner),
        ExprView::Struct(st) => kept_in_fields(st.elements, st.elements.len()),
        ExprView::Void(_) => Seq::empty(),
    }
}

/// The kept numbers of the first `n` of a row of resolved expressions.
pub open spec fn kept_in(es: Seq<ExprView>, n: nat) -> Seq<u64>
    decreases es, n,
{
    if n == 0 || n > es.len() {
        Seq::empty()
    } else {
        kept_in(es, (n - 1) as nat) + kept_ids(es[n - 1])
    }
}

/// The kept numbers of the values of the first `n` elements of a structure
/// value.
pub open spec fn kept_in_fields(fs: Seq<(VariableView, ExprView)>, n: nat) -> Seq<u64>
    decreases fs, n,
{
    if n == 0 || n > fs.len() {
        Seq::empty()
    } else {
        kept_in_fields(fs, (n - 1) as nat) + kept_ids(fs[n - 1].1)
    }
}

/// The kept numbers of a resolved block.
pub open spec fn kept_in_block(b: BlockExprView) -> Seq<u64>
    decreases b, 0nat,
{
    kept_in(b.body, b.body.len()) + kept_ids(b.ret)
}

/// The kept numbers inside a literal.
pub open spec fn kept_in_literal(l: LiteralView) -> Seq<u64>
    decreases l, 0nat,
{
    match l {
        LiteralView::Channel(a, b) => kept_ids(*a) + kept_ids(*b),
        LiteralView::List(es) => kept_in(es, es.len()),
        LiteralView::ListRange(a, b) => kept_ids(*a) + kept_ids(*b),
        _ => Seq::empty(),
    }
}

/// The kept numbers of the first expressions of a row do not depend on the
/// expressions after them.
pub proof fn lemma_kept_in_prefix(es: Seq<ExprView>, e: ExprView, n: nat)
    requires
        n <= es.len(),
    ensures
        kept_in(es.push(e), n) == kept_in(es, n),
    decreases n,
{
    if n > 0 {
        lemma_kept_in_prefix(es, e, (n - 1) as nat);
        assert(es.push(e)[n - 1] == es[n - 1]);
    }
}

/// The values of the elements of a tuple keep what the values of the tuple
/// keep.
pub proof fn lemma_kept_fields(elements: Seq<VariableView>, values: Seq<ExprView>, n: nat)
    requires
        elements.len() == values.len(),
        n <= values.len(),
    ensures
        kept_in_fields(tuple_fields(elements, values), n) == kept_in(values, n),
    decreases n,
{
    if n > 0 {
        lemma_kept_fields(elements, values, (n - 1) as nat);
    }
}

proof fn lemma_kept_assign(s: ResolverView, a: ast::AssignExpr)
    ensures
        kept_ids(resolve_expr(s, ast::Expr::Assign(Box::new(a))).1) == declared_ids(
            ast::Expr::Assign(Box::new(a)),
        ),
    decreases a, 0nat,
{
    reveal_with_fuel(kept_ids, 3);
    let e = ast::Expr::Assign(Box::new(a));
    let s1 = anonymous(s).0;
    lemma_kept_expr(s1, a.rhs);
    assert(kept_ids(resolve_expr(s, e).1) =~= declared_ids(e));
}

proof fn lemma_kept_call(s: ResolverView, c: ast::CallExpr)
    ensures
        kept_ids(resolve_expr(s, ast::Expr::Call(Box::new(c))).1) == declared_ids(
            ast::Expr::Call(Box::new(c)),
        ),
    decreases c, 0nat,
{
    reveal_with_fuel(kept_ids, 3);
    let e = ast::Expr::Call(Box::new(c));
    let s1 = anonymous(s).0;
    lemma_kept_expr(s1, c.target);
    let s2 = resolve_expr(s1, c.target).0;
    lemma_kept_exprs(s2, c.arguments@, c.arguments@.len());
    lemma_resolve_exprs(s2, c.arguments@, c.arguments@.len());
    assert(kept_ids(resolve_expr(s, e).1) =~= declared_ids(e));
}

proof fn lemma_kept_channel(s: ResolverView, c: ast::ChannelExpr)
    ensures
        kept_ids(resolve_expr(s, ast::Expr::Channel(Box::new(c))).1) == declared_ids(
            ast::Expr::Channel(Box::new(c)),
        ),
    decreases c, 0nat,
{
    reveal_with_fuel(kept_ids, 3);
    let e = ast::Expr::Channel(Box::new(c));
    let s1 = anonymous(s).0;
    lemma_kept_expr(s1, c.lhs);
    let s2 = resolve_expr(s1, c.lhs).0;
    lemma_kept_expr(s2, c.rhs);
    assert(kept_ids(resolve_expr(s, e).1) =~= declared_ids(e));
}

proof fn lemma_kept_deref(s: ResolverView, d: ast::DerefExpr)
    ensures
        kept_ids(resolve_expr(s, ast::Expr::Deref(Box::new(d))).1) == declared_ids(
            ast::Expr::Deref(Box::new(d)),
        ),
    decreases d, 0nat,
{
    reveal_with_fuel(kept_ids, 3);
    let e = ast::Expr::Deref(Box::new(d));
    let s1 = anonymous(s).0;
    lemma_kept_expr(s1, d.inner);
    assert(kept_ids(resolve_expr(s, e).1) =~= declared_ids(e));
}

proof fn lemma_kept_for(s: ResolverView, f: ast::ForExpr)
    ensures
        kept_ids(resolve_expr(s, ast::Expr::For(Box::new(f))).1) == declared_ids(
            ast::Expr::For(Box::new(f)),
        ),
    decreases f, 0nat,
{
    reveal_with_fuel(kept_ids, 3);
    let e = ast::Expr::For(Box::new(f));
    let s1 = anonymous(s).0;
    lemma_kept_expr(s1, f.iterator);
    let s2 = resolve_expr(s1, f.iterator).0;
    let formals = loop_variables(f.formals@);
    lemma_kept_block(s2, f.iteration, formals);
    assert(variable_ids(formals) =~= symbol_ids(f.formals@));
    assert(kept_ids(resolve_expr(s, e).1) =~= declared_ids(e));
}

proof fn lemma_kept_if(s: ResolverView, i: ast::IfExpr)
    ensures
        kept_ids(resolve_expr(s, ast::Expr::If(Box::new(i))).1) == declared_ids(
            ast::Expr::If(Box::new(i)),
        ),
    decreases i, 0nat,
{
    reveal_with_fuel(kept_ids, 3);
    let e = ast::Expr::If(Box::new(i));
    let s1 = anonymous(s).0;
    lemma_kept_expr(s1, i.condition);
    let s2 = resolve_expr(s1, i.condition).0;
    lemma_kept_block(s2, i.then_block, Seq::empty());
    let s3 = resolve_block(s2, i.then_block, Seq::empty()).0;
    lemma_kept_block(s3, i.else_block, Seq::empty());
    assert(kept_ids(resolve_expr(s, e).1) =~= declared_ids(e));
}

proof fn lemma_kept_item(s: ResolverView, i: ast::ItemExpr)
    ensures
        kept_ids(resolve_expr(s, ast::Expr::Item(Box::new(i))).1) == declared_ids(
            ast::Expr::Item(Box::new(i)),
        ),
    decreases i, 0nat,
{
    reveal_with_fuel(kept_ids, 3);
    let e = ast::Expr::Item(Box::new(i));
    let s1 = anonymous(s).0;
    assert(kept_ids(resolve_expr(s, e).1) =~= declared_ids(e));
}

proof fn lemma_kept_list(s: ResolverView, l: ast::ListExpr)
    ensures
        kept_ids(resolve_expr(s, ast::Expr::List(Box::new(l))).1) == declared_ids(
            ast::Expr::List(Box::new(l)),
        ),
    decreases l, 0nat,
{
    reveal_with_fuel(kept_ids, 3);
    let e = ast::Expr::List(Box::new(l));
    let s1 = anonymous(s).0;
    lemma_kept_exprs(s1, l.elements@, l.elements@.len());
    lemma_resolve_exprs(s1, l.elements@, l.elements@.len());
    assert(kept_ids(resolve_expr(s, e).1) =~= declared_ids(e));
}

proof fn lemma_kept_listrange(s: ResolverView, r: ast::ListRangeExpr)
    ensures
        kept_ids(resolve_expr(s, ast::Expr::ListRange(Box::new(r))).1) == declared_ids(
            ast::Expr::ListRange(Box::new(r)),
        ),
    decreases r, 0nat,
{
    reveal_with_fuel(kept_ids, 3);
    let e = ast::Expr::ListRange(Box::new(r));
    let s1 = anonymous(s).0;
    lemma_kept_expr(s1, r.first);
    let s2 = resolve_expr(s1, r.first).0;
    lemma_kept_expr(s2, r.last);
    assert(kept_ids(resolve_expr(s, e).1) =~= declared_ids(e));
}

proof fn lemma_kept_literal(s: ResolverView, l: ast::LiteralExpr)
    ensures
        kept_ids(resolve_expr(s, ast::Expr::Literal(Box::new(l))).1) == declared_ids(
            ast::Expr::Literal(Box::new(l)),
        ),
    decreases l, 0nat,
{
    reveal_with_fuel(kept_ids, 3);
    let e = ast::Expr::Literal(Box::new(l));
    let s1 = anonymous(s).0;
    assert(kept_ids(resolve_expr(s, e).1) =~= declared_ids(e));
}

proof fn lemma_kept_ref(s: ResolverView, r: ast::RefExpr)
    ensures
        kept_ids(resolve_expr(s, ast::Expr::Ref(Box::new(r))).1) == declared_ids(
            ast::Expr::Ref(Box::new(r)),
        ),
    decreases r, 0nat,
{
    reveal_with_fuel(kept_ids, 3);
    let e = ast::Expr::Ref(Box::new(r));
    let s1 = anonymous(s).0;
    lemma_kept_expr(s1, r.inner);
    assert(kept_ids(resolve_expr(s, e).1) =~= declared_ids(e));
}

proof fn lemma_kept_select(s: ResolverView, sel: ast::SelectExpr)
    ensures
        kept_ids(resolve_expr(s, ast::Expr::Select(Box::new(sel))).1) == declared_ids(
            ast::Expr::Select(Box::new(sel)),
        ),
    decreases sel, 0nat,
{
    reveal_with_fuel(kept_ids, 3);
    let e = ast::Expr::Select(Box::new(sel));
    let s1 = anonymous(s).0;
    assert(kept_ids(resolve_expr(s, e).1) =~= declared_ids(e));
}

proof fn lemma_kept_tuple(s: ResolverView, t: ast::TupleExpr)
    ensures
        kept_ids(resolve_expr(s, ast::Expr::Tuple(Box::new(t))).1) == declared_ids(
            ast::Expr::Tuple(Box::new(t)),
        ),
    decreases t, 0nat,
{
    reveal_with_fuel(kept_ids, 3);
    let e = ast::Expr::Tuple(Box::new(t));
    let s1 = anonymous(s).0;
    lemma_kept_exprs(s1, t.elements@, t.elements@.len());
    lemma_resolve_exprs(s1, t.elements@, t.elements@.len());
    let (s2, values) = resolve_exprs(s1, t.elements@, t.elements@.len());
    lemma_tuple_elements_typed(s2, values, values.len(), t.span@);
    let elements = tuple_elements(s2, values, values.len(), t.span@).1;
    lemma_kept_fields(elements, values, values.len());
    assert(kept_ids(resolve_expr(s, e).1) =~= declared_ids(e));
}

proof fn lemma_kept_void(s: ResolverView, v: ast::VoidExpr)
    ensures
        kept_ids(resolve_expr(s, ast::Expr::Void(Box::new(v))).1) == declared_ids(
            ast::Expr::Void(Box::new(v)),
        ),
    decreases v, 0nat,
{
    reveal_with_fuel(kept_ids, 3);
    let e = ast::Expr::Void(Box::new(v));
    let s1 = anonymous(s).0;
    assert(kept_ids(resolve_expr(s, e).1) =~= declared_ids(e));
}

/// A resolved expression keeps the symbols that the expression of the
/// source declares, each once and in the order of the source.
pub proof fn lemma_kept_expr(s: ResolverView, e: ast::Expr)
    ensures
        kept_ids(resolve_expr(s, e).1) == declared_ids(e),
    decreases e, 1nat,
{
    reveal_with_fuel(kept_ids, 2);
    match e {
        ast::Expr::Assign(a) => {
            lemma_kept_assign(s, *a);
        },
        ast::Expr::Call(c) => {
            lemma_kept_call(s, *c);
        },
        ast::Expr::Channel(c) => {
            lemma_kept_channel(s, *c);
        },
        ast::Expr::Deref(d) => {
            lemma_kept_deref(s, *d);
        },
        ast::Expr::For(f) => {
            lemma_kept_for(s, *f);
        },
        ast::Expr::If(i) => {
            lemma_kept_if(s, *i);
        },
        ast::Expr::Item(i) => {
            lemma_kept_item(s, *i);
        },
        ast::Expr::List(l) => {
            lemma_kept_list(s, *l);
        },
        ast::Expr::ListRange(r) => {
            lemma_kept_listrange(s, *r);
        },
        ast::Expr::Literal(l) => {
            lemma_kept_literal(s, *l);
        },
        ast::Expr::Ref(r) => {
            lemma_kept_ref(s, *r);
        },
        ast::Expr::Select(sel) => {
            lemma_kept_select(s, *sel);
        },
        ast::Expr::Tuple(t) => {
            lemma_kept_tuple(s, *t);
        },
        ast::Expr::Void(v) => {
            lemma_kept_void(s, *v);
        },
        ast::Expr::Block(b) => {
            lemma_kept_block(s, *b, Seq::empty());
        },
        ast::Expr::Operator(o) => {
            lemma_kept_operator(s, *o);
        },
    }
}

/// Resolved expressions keep the symbols that the expressions of the
/// source declare.
pub proof fn lemma_kept_exprs(s: ResolverView, es: Seq<ast::Expr>, n: nat)
    ensures
        kept_in(resolve_exprs(s, es, n).1, resolve_exprs(s, es, n).1.len()) == declared_in(es, n),
    decreases es, n,
{
    if !(n == 0 || n > es.len()) {
        lemma_kept_exprs(s, es, (n - 1) as nat);
        lemma_resolve_exprs(s, es, (n - 1) as nat);
        let (s1, before) = resolve_exprs(s, es, (n - 1) as nat);
        lemma_kept_expr(s1, es[n - 1]);
        let e = resolve_expr(s1, es[n - 1]).1;
        lemma_kept_in_prefix(before, e, before.len());
    }
}

/// A resolved block keeps the symbols that the block of the source
/// declares.
pub proof fn lemma_kept_block(s: ResolverView, b: ast::BlockExpr, variables: Seq<VariableView>)
    ensures
        kept_in_block(resolve_block(s, b, variables).1) == declared_in_block(b),
    decreases b, 0nat,
{
    let (s1, identifier) = anonymous(s);
    let s2 = super::model::push_block(s1, super::model::block_scope(identifier, variables));
    lemma_kept_exprs(s2, b.body@, b.body@.len());
    lemma_resolve_exprs(s2, b.body@, b.body@.len());
    let s3 = resolve_exprs(s2, b.body@, b.body@.len()).0;
    lemma_kept_expr(s3, b.ret);
}

/// The target of an operator keeps nothing from the source.
pub proof fn lemma_target_keeps_nothing(
    s: ResolverView,
    operator: ast::Operator,
    operand: Option<crate::air::TypeView>,
)
    ensures
        kept_ids(super::model::operator_target(s, operator, operand).1) == Seq::<u64>::empty(),
{
}

/// The call that an operator resolves to keeps the symbols that the
/// operands declare.
pub proof fn lemma_kept_operator(s: ResolverView, o: ast::OperatorExpr)
    ensures
        kept_ids(ExprView::Call(Box::new(resolve_operator(s, o).1))) == declared_in_operator(o),
    decreases o, 0nat,
{
    reveal_with_fuel(kept_ids, 2);
    reveal_with_fuel(kept_in, 3);
    let s1 = anonymous(s).0;
    let call = ExprView::Call(Box::new(resolve_operator(s, o).1));
    match o {
        ast::OperatorExpr::Binary(b) => {
            lemma_kept_expr(s1, b.lhs);
            let (s2, lhs) = resolve_expr(s1, b.lhs);
            lemma_kept_expr(s2, b.rhs);
            let (s3, rhs) = resolve_expr(s2, b.rhs);
            lemma_target_keeps_nothing(s3, b.operator, crate::air::typedef::typedef_expr(lhs));
            let arguments = seq![lhs, rhs];
            assert(kept_in(arguments, 2) =~= kept_ids(lhs) + kept_ids(rhs));
            assert(kept_ids(call) =~= declared_in_operator(o));
        },
        ast::OperatorExpr::Prefix(p) => {
            lemma_kept_expr(s1, p.rhs);
            let (s2, rhs) = resolve_expr(s1, p.rhs);
            lemma_target_keeps_nothing(s2, p.operator, crate::air::typedef::typedef_expr(rhs));
            let arguments = seq![rhs];
            assert(kept_in(arguments, 1) =~= kept_ids(rhs));
            assert(kept_ids(call) =~= declared_in_operator(o));
        },
        ast::OperatorExpr::Suffix(x) => {
            lemma_kept_expr(s1, x.lhs);
            let (s2, lhs) = resolve_expr(s1, x.lhs);
            lemma_target_keeps_nothing(s2, x.operator, crate::air::typedef::typedef_expr(lhs));
            let arguments = seq![lhs];
            assert(kept_in(arguments, 1) =~= kept_ids(lhs));
            assert(kept_ids(call) =~= declared_in_operator(o));
        },
    }
}

/// The symbols that an expression of the source declares are numbered
/// well for a resolver: no two of them have the same number, and every
/// number is below the next identity of the resolver, as it is where the
/// symbols were made with the allocator that the resolver goes on with.
pub open spec fn well_numbered(e: ast::Expr, next: u64) -> bool {
    &&& declared_ids(e).no_duplicates()
    &&& forall|i: int| 0 <= i < declared_ids(e).len() ==> #[trigger] declared_ids(e)[i] < next
}

/// All identities of a resolved expression: those of its nodes, and those
/// that it keeps from the source.
pub open spec fn all_ids(e: ExprView) -> Seq<u64> {
    node_ids(e) + kept_ids(e)
}

/// No two identities of a resolved expression are the same, where the
/// symbols of the source are numbered well: not those of two nodes, not
/// those of two variables, and not that of a node and that of a variable -
/// unless the identities have run out, which the state records.
pub proof fn lemma_identities_unique(s: ResolverView, e: ast::Expr)
    requires
        well_numbered(e, s.next),
    ensures
        !resolve_expr(s, e).0.exhausted ==> all_ids(resolve_expr(s, e).1).no_duplicates(),
{
    let (after, r) = resolve_expr(s, e);
    lemma_resolve_expr(s, e);
    lemma_kept_expr(s, e);
    if !after.exhausted {
        let made = node_ids(r);
        let kept = kept_ids(r);
        let all = made + kept;
        assert forall|i: int, j: int| 0 <= i < all.len() && 0 <= j < all.len() && i != j implies all[i]
            != all[j] by {
            if i < made.len() {
                assert(all[i] == made[i]);
            } else {
                assert(all[i] == kept[i - made.len()]);
            }
            if j < made.len() {
                assert(all[j] == made[j]);
            } else {
                assert(all[j] == kept[j - made.len()]);
            }
        }
    }
}

/// The variables that a resolved expression defines have the numbers of
/// the symbols of the source, in the order of the source. So a definition
/// that shadows another one of the same name gives a second variable with a
/// number of its own, where the symbols of the source are numbered well:
/// no two variables of the resolved expression have the same number.
pub proof fn lemma_definitions_differ(s: ResolverView, e: ast::Expr)
    requires
        well_numbered(e, s.next),
    ensures
        kept_ids(resolve_expr(s, e).1) == declared_ids(e),
        kept_ids(resolve_expr(s, e).1).no_duplicates(),
{
    lemma_kept_expr(s, e);
}

} // verus!
