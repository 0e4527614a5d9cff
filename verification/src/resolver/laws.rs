//! What holds of every resolution.

use vstd::prelude::*;
use crate::air::table::{first_with_id, lemma_first_with_id, spec_clashes, table_keys};
use crate::air::typedef::typedef_expr;
use crate::air::{BlockExprView, ExprView, FunctionView, LiteralView, VariableView};
use crate::ast;
use crate::identifier::IdentifierView;
use super::model::{
    allocate, anonymous, lookup, lookup_block, operator_target, pop_block, push_block,
    register_variable, report, resolve_block, resolve_body, resolve_expr, resolve_exprs,
    resolve_function, resolve_function_profile, resolve_named_type, resolve_operator, resolve_type,
    resolve_type_decl, resolve_types, resolve_variable, resolve_variables, store_function,
    tuple_elements, last_named,
};
use super::scope::{ResolverErrKind, ResolverView};

verus! {

// ---------------------------------------------------------------------
// What a step of resolution leaves alone
// ---------------------------------------------------------------------
/// The identities only move up, and once they have run out they stay run
/// out.
pub open spec fn advanced(s: ResolverView, after: ResolverView) -> bool {
    &&& s.next <= after.next
    &&& s.exhausted ==> after.exhausted
}

/// The errors of `s` are the first errors of `after`: errors are collected
/// and never dropped.
pub open spec fn collected(s: ResolverView, after: ResolverView) -> bool {
    &&& s.errors.len() <= after.errors.len()
    &&& after.errors.subrange(0, s.errors.len() as int) == s.errors
}

/// What the resolution of a type leaves alone: everything but the
/// identities and the errors.
pub open spec fn typed(s: ResolverView, after: ResolverView) -> bool {
    &&& advanced(s, after)
    &&& collected(s, after)
    &&& after == (ResolverView { next: after.next, exhausted: after.exhausted, errors: after.errors, ..s })
}

/// What the resolution of an expression leaves alone: the context, the
/// open modules and functions, and all open blocks but the innermost one,
/// which may have gained variables.
pub open spec fn expressed(s: ResolverView, after: ResolverView) -> bool {
    &&& advanced(s, after)
    &&& collected(s, after)
    &&& after.context == s.context
    &&& after.modules == s.modules
    &&& after.functions == s.functions
    &&& after.blocks.len() == s.blocks.len()
    &&& s.blocks.len() > 0 ==> {
        &&& after.blocks.drop_last() == s.blocks.drop_last()
        &&& after.blocks.last().identifier == s.blocks.last().identifier
        &&& after.blocks.last().function_table == s.blocks.last().function_table
        &&& after.blocks.last().module_table == s.blocks.last().module_table
        &&& after.blocks.last().type_table == s.blocks.last().type_table
    }
}

/// A type leaves alone at least what an expression leaves alone.
pub proof fn lemma_typed_is_expressed(s: ResolverView, after: ResolverView)
    requires
        typed(s, after),
    ensures
        expressed(s, after),
{
}

/// What is left alone by one step and by the next is left alone by both.
pub proof fn lemma_expressed_twice(s: ResolverView, mid: ResolverView, after: ResolverView)
    requires
        expressed(s, mid),
        expressed(mid, after),
    ensures
        expressed(s, after),
{
    assert(after.errors.subrange(0, s.errors.len() as int) =~= mid.errors.subrange(
        0,
        s.errors.len() as int,
    ));
}

/// What is left alone by one step and by the next is left alone by both.
pub proof fn lemma_typed_twice(s: ResolverView, mid: ResolverView, after: ResolverView)
    requires
        typed(s, mid),
        typed(mid, after),
    ensures
        typed(s, after),
{
    assert(after.errors.subrange(0, s.errors.len() as int) =~= mid.errors.subrange(
        0,
        s.errors.len() as int,
    ));
}

/// Recording an error leaves alone what a type leaves alone.
pub proof fn lemma_report_typed(
    s: ResolverView,
    kind: ResolverErrKind,
    name: Seq<char>,
    span: crate::lexer::span::SpanView,
)
    ensures
        typed(s, report(s, kind, name, span)),
{
    assert(report(s, kind, name, span).errors.subrange(0, s.errors.len() as int) =~= s.errors);
}

/// Taking an identity leaves alone what a type leaves alone.
pub proof fn lemma_allocate_typed(s: ResolverView)
    ensures
        typed(s, allocate(s).0),
        typed(s, anonymous(s).0),
{
    assert(allocate(s).0.errors.subrange(0, s.errors.len() as int) =~= s.errors);
}

/// The resolution of a type changes nothing but the identities and the
/// errors.
pub proof fn lemma_resolve_type_typed(s: ResolverView, t: ast::Type)
    ensures
        typed(s, resolve_type(s, t).0),
    decreases t, 0nat,
{
    match t {
        ast::Type::Lambda(l) => {
            lemma_resolve_types_typed(s, l.formals@, l.formals@.len());
            let s1 = resolve_types(s, l.formals@, l.formals@.len()).0;
            lemma_resolve_type_typed(s1, l.ret);
            lemma_typed_twice(s, s1, resolve_type(s1, l.ret).0);
        },
        ast::Type::Primitive(p) => {
            assert(s.errors.subrange(0, s.errors.len() as int) =~= s.errors);
        },
        ast::Type::Ptr(p) => {
            lemma_resolve_type_typed(s, p.inner);
        },
        ast::Type::Ref(r) => {
            lemma_resolve_type_typed(s, r.inner);
        },
        ast::Type::Struct(st) => {
            lemma_allocate_typed(s);
            let s1 = anonymous(s).0;
            lemma_resolve_variables_typed(s1, st.elements@, st.elements@.len());
            lemma_typed_twice(s, s1, resolve_variables(s1, st.elements@, st.elements@.len()).0);
        },
        ast::Type::Unresolved(u) => {
            lemma_resolve_named_type_typed(s, *u);
        },
    }
}

/// The resolution of a type given by name changes nothing but the errors.
pub proof fn lemma_resolve_named_type_typed(s: ResolverView, u: ast::UnresolvedType)
    ensures
        typed(s, resolve_named_type(s, u).0),
        resolve_named_type(s, u).0.next == s.next,
{
    let name = u.symbol@.name;
    assert(s.errors.subrange(0, s.errors.len() as int) =~= s.errors);
    lemma_report_typed(s, ResolverErrKind::TypeMismatch, name, u.span@);
    lemma_report_typed(s, ResolverErrKind::UnresolvedSymbol, name, u.span@);
}

/// The resolution of a row of types changes nothing but the identities and
/// the errors.
pub proof fn lemma_resolve_types_typed(s: ResolverView, ts: Seq<ast::Type>, n: nat)
    ensures
        typed(s, resolve_types(s, ts, n).0),
    decreases ts, n,
{
    if n == 0 || n > ts.len() {
        assert(s.errors.subrange(0, s.errors.len() as int) =~= s.errors);
    } else {
        lemma_resolve_types_typed(s, ts, (n - 1) as nat);
        let s1 = resolve_types(s, ts, (n - 1) as nat).0;
        lemma_resolve_type_typed(s1, ts[n - 1]);
        lemma_typed_twice(s, s1, resolve_type(s1, ts[n - 1]).0);
    }
}

/// The resolution of a variable changes nothing but the identities and the
/// errors.
pub proof fn lemma_resolve_variable_typed(s: ResolverView, f: ast::FunctionFormal)
    ensures
        typed(s, resolve_variable(s, f).0),
    decreases f, 0nat,
{
    lemma_resolve_type_typed(s, f.ty);
}

/// The resolution of a row of variables changes nothing but the identities
/// and the errors.
pub proof fn lemma_resolve_variables_typed(s: ResolverView, fs: Seq<ast::FunctionFormal>, n: nat)
    ensures
        typed(s, resolve_variables(s, fs, n).0),
    decreases fs, n,
{
    if n == 0 || n > fs.len() {
        assert(s.errors.subrange(0, s.errors.len() as int) =~= s.errors);
    } else {
        lemma_resolve_variables_typed(s, fs, (n - 1) as nat);
        let s1 = resolve_variables(s, fs, (n - 1) as nat).0;
        lemma_resolve_variable_typed(s1, fs[n - 1]);
        lemma_typed_twice(s, s1, resolve_variable(s1, fs[n - 1]).0);
    }
}

// ---------------------------------------------------------------------
// The identities of the nodes
// ---------------------------------------------------------------------
/// The identities of the nodes of an expression: that of the expression
/// itself, then those of the nodes inside it. The elements of a structure
/// value and its type are made with it, and their symbols count with its
/// nodes. What an item reference refers to is no node of the expression,
/// nor is the type or the variable of a definition.
pub open spec fn node_ids(e: ExprView) -> Seq<u64>
    decreases e, 0nat,
{
    match e {
        ExprView::Block(b) => block_ids(*b),
        ExprView::Call(c) => seq![c.identifier.id] + node_ids(c.target) + exprs_ids(
            c.arguments,
            c.arguments.len(),
        ),
        ExprView::Deref(d) => seq![d.identifier.id] + node_ids(d.inner),
        ExprView::For(f) => seq![f.identifier.id] + node_ids(f.iterator) + block_ids(*f.iteration),
        ExprView::If(i) => seq![i.identifier.id] + node_ids(i.condition) + block_ids(
            *i.then_block,
        ) + block_ids(*i.else_block),
        ExprView::Item(i) => seq![i.identifier.id],
        ExprView::Let(l) => seq![l.identifier.id] + node_ids(l.definition),
        ExprView::Literal(l) => seq![l.identifier.id] + literal_ids(l.literal),
        ExprView::Ref(r) => seq![r.identifier.id] + node_ids(r.inner),
        ExprView::Struct(st) => seq![st.identifier.id] + fields_ids(
            st.elements,
            st.elements.len(),
        ) + element_ids(st.elements) + type_symbol_ids(st.ty),
        ExprView::Void(v) => seq![v.identifier.id],
    }
}

/// The numbers of the symbols of the elements of a structure value.
pub open spec fn element_ids(fs: Seq<(VariableView, ExprView)>) -> Seq<u64> {
    Seq::new(fs.len(), |i: int| fs[i].0.symbol.id)
}

/// The number of the symbol of a structure type; no number for any other
/// type.
pub open spec fn type_symbol_ids(ty: crate::air::TypeView) -> Seq<u64> {
    match ty {
        crate::air::TypeView::Struct(st) => seq![st.symbol.id],
        _ => Seq::empty(),
    }
}

/// The numbers of the symbols of variables.
pub open spec fn variable_ids(vs: Seq<VariableView>) -> Seq<u64> {
    Seq::new(vs.len(), |i: int| vs[i].symbol.id)
}

/// The symbols of the elements of a tuple are fresh.
pub proof fn lemma_tuple_elements_fresh(
    s: ResolverView,
    values: Seq<ExprView>,
    n: nat,
    span: crate::lexer::span::SpanView,
)
    requires
        n <= values.len(),
    ensures
        fresh(s, tuple_elements(s, values, n, span).0, variable_ids(
            tuple_elements(s, values, n, span).1,
        )),
    decreases n,
{
    lemma_tuple_elements_typed(s, values, n, span);
    if n > 0 {
        lemma_tuple_elements_fresh(s, values, (n - 1) as nat, span);
        lemma_tuple_elements_typed(s, values, (n - 1) as nat, span);
        let (s1, before) = tuple_elements(s, values, (n - 1) as nat, span);
        lemma_anonymous_fresh(s1);
        let (s2, symbol) = anonymous(s1);
        let (after, all) = tuple_elements(s, values, n, span);
        lemma_report_typed(s2, ResolverErrKind::TypeMismatch, "tuple"@, span);
        assert(fresh(s1, after, seq![symbol.id]));
        lemma_fresh_twice(s, s1, after, variable_ids(before), seq![symbol.id]);
        assert(variable_ids(all) =~= variable_ids(before) + seq![symbol.id]);
    }
}

/// The identities of the nodes of a block: that of the block, those of its
/// expressions, and those of its last expression.
pub open spec fn block_ids(b: BlockExprView) -> Seq<u64>
    decreases b, 0nat,
{
    seq![b.identifier.id] + exprs_ids(b.body, b.body.len()) + node_ids(b.ret)
}

/// The identities of the nodes inside a literal.
pub open spec fn literal_ids(l: LiteralView) -> Seq<u64>
    decreases l, 0nat,
{
    match l {
        LiteralView::Channel(a, b) => node_ids(*a) + node_ids(*b),
        LiteralView::List(es) => exprs_ids(es, es.len()),
        LiteralView::ListRange(a, b) => node_ids(*a) + node_ids(*b),
        _ => Seq::empty(),
    }
}

/// The identities of the nodes of the first `n` of a row of expressions.
pub open spec fn exprs_ids(es: Seq<ExprView>, n: nat) -> Seq<u64>
    decreases es, n,
{
    if n == 0 || n > es.len() {
        Seq::empty()
    } else {
        exprs_ids(es, (n - 1) as nat) + node_ids(es[n - 1])
    }
}

/// The identities of the nodes of the values of the first `n` elements of
/// a structure value.
pub open spec fn fields_ids(fs: Seq<(VariableView, ExprView)>, n: nat) -> Seq<u64>
    decreases fs, n,
{
    if n == 0 || n > fs.len() {
        Seq::empty()
    } else {
        fields_ids(fs, (n - 1) as nat) + node_ids(fs[n - 1].1)
    }
}

/// The identities were all taken between `s` and `after`, and no two of
/// them are the same - unless the identities have run out.
pub open spec fn fresh(s: ResolverView, after: ResolverView, ids: Seq<u64>) -> bool {
    !after.exhausted ==> {
        &&& forall|i: int| 0 <= i < ids.len() ==> s.next <= #[trigger] ids[i] < after.next
        &&& ids.no_duplicates()
    }
}

/// Identities taken in one step and identities taken in the next are all
/// different.
pub proof fn lemma_fresh_twice(
    s: ResolverView,
    mid: ResolverView,
    after: ResolverView,
    first: Seq<u64>,
    second: Seq<u64>,
)
    requires
        advanced(s, mid),
        advanced(mid, after),
        fresh(s, mid, first),
        fresh(mid, after, second),
    ensures
        fresh(s, after, first + second),
{
    if !after.exhausted {
        let ids = first + second;
        assert forall|i: int| 0 <= i < ids.len() implies s.next <= #[trigger] ids[i]
            < after.next by {
            if i < first.len() {
                assert(ids[i] == first[i]);
            } else {
                assert(ids[i] == second[i - first.len()]);
            }
        }
        assert forall|i: int, j: int| 0 <= i < ids.len() && 0 <= j < ids.len() && i != j implies ids[i]
            != ids[j] by {
            if i < first.len() {
                assert(ids[i] == first[i]);
            } else {
                assert(ids[i] == second[i - first.len()]);
            }
            if j < first.len() {
                assert(ids[j] == first[j]);
            } else {
                assert(ids[j] == second[j - first.len()]);
            }
        }
    }
}

/// Two steps in a row.
pub proof fn lemma_step(
    s: ResolverView,
    mid: ResolverView,
    after: ResolverView,
    first: Seq<u64>,
    second: Seq<u64>,
)
    requires
        expressed(s, mid),
        expressed(mid, after),
        fresh(s, mid, first),
        fresh(mid, after, second),
    ensures
        expressed(s, after),
        fresh(s, after, first + second),
{
    lemma_expressed_twice(s, mid, after);
    lemma_fresh_twice(s, mid, after, first, second);
}

/// A step that yields no node, after a step that does.
pub proof fn lemma_step_silent(s: ResolverView, mid: ResolverView, after: ResolverView, ids: Seq<u64>)
    requires
        expressed(s, mid),
        expressed(mid, after),
        fresh(s, mid, ids),
    ensures
        expressed(s, after),
        fresh(s, after, ids),
{
    lemma_expressed_twice(s, mid, after);
    lemma_fresh_twice(s, mid, after, ids, Seq::empty());
    assert(ids + Seq::<u64>::empty() =~= ids);
}

/// The identity of a new node is fresh.
pub proof fn lemma_anonymous_fresh(s: ResolverView)
    ensures
        expressed(s, anonymous(s).0),
        typed(s, anonymous(s).0),
        fresh(s, anonymous(s).0, seq![anonymous(s).1.id]),
        anonymous(s).1.id == s.next,
{
    lemma_allocate_typed(s);
}

/// Bringing a variable into scope leaves alone what an expression leaves
/// alone.
pub proof fn lemma_register_expressed(s: ResolverView, v: VariableView)
    ensures
        expressed(s, register_variable(s, v)),
{
    let after = register_variable(s, v);
    assert(after.errors.subrange(0, s.errors.len() as int) =~= s.errors);
    if s.blocks.len() > 0 {
        assert(after.blocks.drop_last() =~= s.blocks.drop_last());
    }
}

/// The elements of a tuple take identities and change nothing else.
pub proof fn lemma_tuple_elements_typed(
    s: ResolverView,
    values: Seq<ExprView>,
    n: nat,
    span: crate::lexer::span::SpanView,
)
    ensures
        typed(s, tuple_elements(s, values, n, span).0),
        n <= values.len() ==> tuple_elements(s, values, n, span).1.len() == n,
    decreases n,
{
    if n == 0 || n > values.len() {
        assert(s.errors.subrange(0, s.errors.len() as int) =~= s.errors);
    } else {
        lemma_tuple_elements_typed(s, values, (n - 1) as nat, span);
        let s1 = tuple_elements(s, values, (n - 1) as nat, span).0;
        lemma_allocate_typed(s1);
        let s2 = anonymous(s1).0;
        lemma_typed_twice(s, s1, s2);
        lemma_report_typed(s2, ResolverErrKind::TypeMismatch, "tuple"@, span);
        lemma_typed_twice(s, s2, report(s2, ResolverErrKind::TypeMismatch, "tuple"@, span));
    }
}

/// Reporting the variables of a loop changes nothing but the errors.
pub proof fn lemma_report_loop_variables_typed(
    s: ResolverView,
    formals: Seq<crate::identifier::Symbol>,
    n: nat,
    span: crate::lexer::span::SpanView,
)
    ensures
        typed(s, super::model::report_loop_variables(s, formals, n, span)),
        super::model::report_loop_variables(s, formals, n, span).next == s.next,
    decreases n,
{
    if n == 0 || n > formals.len() {
        assert(s.errors.subrange(0, s.errors.len() as int) =~= s.errors);
    } else {
        lemma_report_loop_variables_typed(s, formals, (n - 1) as nat, span);
        let s1 = super::model::report_loop_variables(s, formals, (n - 1) as nat, span);
        lemma_report_typed(s1, ResolverErrKind::TypeMismatch, formals[n - 1]@.name, span);
        lemma_typed_twice(
            s,
            s1,
            report(s1, ResolverErrKind::TypeMismatch, formals[n - 1]@.name, span),
        );
    }
}

/// The values of the elements of a tuple are the values of the tuple.
pub proof fn lemma_tuple_fields_ids(elements: Seq<VariableView>, values: Seq<ExprView>, n: nat)
    requires
        elements.len() == values.len(),
        n <= values.len(),
    ensures
        fields_ids(super::model::tuple_fields(elements, values), n) == exprs_ids(values, n),
    decreases n,
{
    if n > 0 {
        lemma_tuple_fields_ids(elements, values, (n - 1) as nat);
    }
}

/// The target of an operator is one new node.
pub proof fn lemma_operator_target(s: ResolverView, operator: ast::Operator, operand: Option<crate::air::TypeView>)
    ensures
        typed(s, operator_target(s, operator, operand).0),
        fresh(
            s,
            operator_target(s, operator, operand).0,
            node_ids(operator_target(s, operator, operand).1),
        ),
{
    lemma_anonymous_fresh(s);
    let (s1, identifier) = anonymous(s);
    let after = operator_target(s, operator, operand).0;
    assert(after.errors.subrange(0, s.errors.len() as int) =~= s.errors);
    assert(node_ids(operator_target(s, operator, operand).1) == seq![identifier.id]);
}

/// A block leaves the open scopes as it found them.
pub open spec fn enclosed(s: ResolverView, after: ResolverView) -> bool {
    &&& expressed(s, after)
    &&& after.blocks == s.blocks
}

proof fn lemma_resolve_assign(s: ResolverView, a: ast::AssignExpr)
    ensures
        expressed(s, resolve_expr(s, ast::Expr::Assign(Box::new(a))).0),
        fresh(
            s,
            resolve_expr(s, ast::Expr::Assign(Box::new(a))).0,
            node_ids(resolve_expr(s, ast::Expr::Assign(Box::new(a))).1),
        ),
    decreases a, 0nat,
{
    let e = ast::Expr::Assign(Box::new(a));
    lemma_anonymous_fresh(s);
    let (s1, identifier) = anonymous(s);
    let own = seq![identifier.id];
    lemma_resolve_expr(s1, a.rhs);
    let (s2, definition) = resolve_expr(s1, a.rhs);
    lemma_step(s, s1, s2, own, node_ids(definition));
    let s3 = match a.ty {
        Some(t) => resolve_type(s2, t).0,
        None => match typedef_expr(definition) {
            Some(t) => s2,
            None => report(s2, ResolverErrKind::TypeMismatch, a.symbol@.name, a.span@),
        },
    };
    assert(typed(s2, s3)) by {
        match a.ty {
            Some(t) => {
                lemma_resolve_type_typed(s2, t);
            },
            None => {
                lemma_report_typed(s2, ResolverErrKind::TypeMismatch, a.symbol@.name, a.span@);
                assert(s2.errors.subrange(0, s2.errors.len() as int) =~= s2.errors);
            },
        }
    }
    lemma_step_silent(s, s2, s3, own + node_ids(definition));
    let after = resolve_expr(s, e).0;
    lemma_register_expressed(s3, resolve_expr(s, e).1->Let_0.variable);
    lemma_step_silent(s, s3, after, own + node_ids(definition));
}

proof fn lemma_resolve_call(s: ResolverView, c: ast::CallExpr)
    ensures
        expressed(s, resolve_expr(s, ast::Expr::Call(Box::new(c))).0),
        fresh(
            s,
            resolve_expr(s, ast::Expr::Call(Box::new(c))).0,
            node_ids(resolve_expr(s, ast::Expr::Call(Box::new(c))).1),
        ),
    decreases c, 0nat,
{
    let e = ast::Expr::Call(Box::new(c));
    lemma_anonymous_fresh(s);
    let (s1, identifier) = anonymous(s);
    let own = seq![identifier.id];
    lemma_resolve_expr(s1, c.target);
    let (s2, target) = resolve_expr(s1, c.target);
    lemma_step(s, s1, s2, own, node_ids(target));
    lemma_resolve_exprs(s2, c.arguments@, c.arguments@.len());
    let (s3, arguments) = resolve_exprs(s2, c.arguments@, c.arguments@.len());
    lemma_step(s, s2, s3, own + node_ids(target), exprs_ids(arguments, arguments.len()));
    let after = resolve_expr(s, e).0;
    lemma_report_typed(s3, ResolverErrKind::TypeMismatch, "call"@, c.span@);
    assert(s3.errors.subrange(0, s3.errors.len() as int) =~= s3.errors);
    lemma_step_silent(
        s,
        s3,
        after,
        own + node_ids(target) + exprs_ids(arguments, arguments.len()),
    );
}

proof fn lemma_resolve_channel(s: ResolverView, c: ast::ChannelExpr)
    ensures
        expressed(s, resolve_expr(s, ast::Expr::Channel(Box::new(c))).0),
        fresh(
            s,
            resolve_expr(s, ast::Expr::Channel(Box::new(c))).0,
            node_ids(resolve_expr(s, ast::Expr::Channel(Box::new(c))).1),
        ),
    decreases c, 0nat,
{
    let e = ast::Expr::Channel(Box::new(c));
    lemma_anonymous_fresh(s);
    let (s1, identifier) = anonymous(s);
    let own = seq![identifier.id];
    lemma_resolve_expr(s1, c.lhs);
    let (s2, lhs) = resolve_expr(s1, c.lhs);
    lemma_step(s, s1, s2, own, node_ids(lhs));
    lemma_resolve_expr(s2, c.rhs);
    let (s3, rhs) = resolve_expr(s2, c.rhs);
    lemma_step(s, s2, s3, own + node_ids(lhs), node_ids(rhs));
    assert(node_ids(resolve_expr(s, e).1) =~= own + node_ids(lhs) + node_ids(rhs)) by {
        reveal_with_fuel(node_ids, 2);
    }
}

proof fn lemma_resolve_deref(s: ResolverView, d: ast::DerefExpr)
    ensures
        expressed(s, resolve_expr(s, ast::Expr::Deref(Box::new(d))).0),
        fresh(
            s,
            resolve_expr(s, ast::Expr::Deref(Box::new(d))).0,
            node_ids(resolve_expr(s, ast::Expr::Deref(Box::new(d))).1),
        ),
    decreases d, 0nat,
{
    let e = ast::Expr::Deref(Box::new(d));
    lemma_anonymous_fresh(s);
    let (s1, identifier) = anonymous(s);
    let own = seq![identifier.id];
    lemma_resolve_expr(s1, d.inner);
    let (s2, inner) = resolve_expr(s1, d.inner);
    lemma_step(s, s1, s2, own, node_ids(inner));
}

proof fn lemma_resolve_for(s: ResolverView, f: ast::ForExpr)
    ensures
        expressed(s, resolve_expr(s, ast::Expr::For(Box::new(f))).0),
        fresh(
            s,
            resolve_expr(s, ast::Expr::For(Box::new(f))).0,
            node_ids(resolve_expr(s, ast::Expr::For(Box::new(f))).1),
        ),
    decreases f, 0nat,
{
    let e = ast::Expr::For(Box::new(f));
    lemma_anonymous_fresh(s);
    let (s1, identifier) = anonymous(s);
    let own = seq![identifier.id];
    lemma_resolve_expr(s1, f.iterator);
    let (s2, iterator) = resolve_expr(s1, f.iterator);
    lemma_step(s, s1, s2, own, node_ids(iterator));
    let formals = super::model::loop_variables(f.formals@);
    lemma_resolve_block(s2, f.iteration, formals);
    let (s3, iteration) = resolve_block(s2, f.iteration, formals);
    lemma_step(s, s2, s3, own + node_ids(iterator), block_ids(iteration));
    let after = resolve_expr(s, e).0;
    lemma_report_loop_variables_typed(s3, f.formals@, f.formals@.len(), f.span@);
    lemma_step_silent(s, s3, after, own + node_ids(iterator) + block_ids(iteration));
}

proof fn lemma_resolve_if(s: ResolverView, i: ast::IfExpr)
    ensures
        expressed(s, resolve_expr(s, ast::Expr::If(Box::new(i))).0),
        fresh(
            s,
            resolve_expr(s, ast::Expr::If(Box::new(i))).0,
            node_ids(resolve_expr(s, ast::Expr::If(Box::new(i))).1),
        ),
    decreases i, 0nat,
{
    let e = ast::Expr::If(Box::new(i));
    lemma_anonymous_fresh(s);
    let (s1, identifier) = anonymous(s);
    let own = seq![identifier.id];
    lemma_resolve_expr(s1, i.condition);
    let (s2, condition) = resolve_expr(s1, i.condition);
    lemma_step(s, s1, s2, own, node_ids(condition));
    lemma_resolve_block(s2, i.then_block, Seq::empty());
    let (s3, then_block) = resolve_block(s2, i.then_block, Seq::empty());
    lemma_step(s, s2, s3, own + node_ids(condition), block_ids(then_block));
    lemma_resolve_block(s3, i.else_block, Seq::empty());
    let (s4, else_block) = resolve_block(s3, i.else_block, Seq::empty());
    lemma_step(
        s,
        s3,
        s4,
        own + node_ids(condition) + block_ids(then_block),
        block_ids(else_block),
    );
}

proof fn lemma_resolve_item(s: ResolverView, i: ast::ItemExpr)
    ensures
        expressed(s, resolve_expr(s, ast::Expr::Item(Box::new(i))).0),
        fresh(
            s,
            resolve_expr(s, ast::Expr::Item(Box::new(i))).0,
            node_ids(resolve_expr(s, ast::Expr::Item(Box::new(i))).1),
        ),
    decreases i, 0nat,
{
    let e = ast::Expr::Item(Box::new(i));
    lemma_anonymous_fresh(s);
    let (s1, identifier) = anonymous(s);
    let own = seq![identifier.id];
    let after = resolve_expr(s, e).0;
    lemma_report_typed(s1, ResolverErrKind::UnresolvedSymbol, i.symbol@.name, i.span@);
    assert(s1.errors.subrange(0, s1.errors.len() as int) =~= s1.errors);
    lemma_step_silent(s, s1, after, own);
}

proof fn lemma_resolve_list(s: ResolverView, l: ast::ListExpr)
    ensures
        expressed(s, resolve_expr(s, ast::Expr::List(Box::new(l))).0),
        fresh(
            s,
            resolve_expr(s, ast::Expr::List(Box::new(l))).0,
            node_ids(resolve_expr(s, ast::Expr::List(Box::new(l))).1),
        ),
    decreases l, 0nat,
{
    let e = ast::Expr::List(Box::new(l));
    lemma_anonymous_fresh(s);
    let (s1, identifier) = anonymous(s);
    let own = seq![identifier.id];
    lemma_resolve_exprs(s1, l.elements@, l.elements@.len());
    let (s2, elements) = resolve_exprs(s1, l.elements@, l.elements@.len());
    lemma_step(s, s1, s2, own, exprs_ids(elements, elements.len()));
    assert(node_ids(resolve_expr(s, e).1) =~= own + exprs_ids(elements, elements.len())) by {
        reveal_with_fuel(node_ids, 2);
    }
}

proof fn lemma_resolve_listrange(s: ResolverView, r: ast::ListRangeExpr)
    ensures
        expressed(s, resolve_expr(s, ast::Expr::ListRange(Box::new(r))).0),
        fresh(
            s,
            resolve_expr(s, ast::Expr::ListRange(Box::new(r))).0,
            node_ids(resolve_expr(s, ast::Expr::ListRange(Box::new(r))).1),
        ),
    decreases r, 0nat,
{
    let e = ast::Expr::ListRange(Box::new(r));
    lemma_anonymous_fresh(s);
    let (s1, identifier) = anonymous(s);
    let own = seq![identifier.id];
    lemma_resolve_expr(s1, r.first);
    let (s2, first) = resolve_expr(s1, r.first);
    lemma_step(s, s1, s2, own, node_ids(first));
    lemma_resolve_expr(s2, r.last);
    let (s3, last) = resolve_expr(s2, r.last);
    lemma_step(s, s2, s3, own + node_ids(first), node_ids(last));
    assert(node_ids(resolve_expr(s, e).1) =~= own + node_ids(first) + node_ids(last)) by {
        reveal_with_fuel(node_ids, 2);
    }
}

proof fn lemma_resolve_literal(s: ResolverView, l: ast::LiteralExpr)
    ensures
        expressed(s, resolve_expr(s, ast::Expr::Literal(Box::new(l))).0),
        fresh(
            s,
            resolve_expr(s, ast::Expr::Literal(Box::new(l))).0,
            node_ids(resolve_expr(s, ast::Expr::Literal(Box::new(l))).1),
        ),
    decreases l, 0nat,
{
    let e = ast::Expr::Literal(Box::new(l));
    lemma_anonymous_fresh(s);
    let (s1, identifier) = anonymous(s);
    let own = seq![identifier.id];
    assert(node_ids(resolve_expr(s, e).1) =~= own) by {
        reveal_with_fuel(node_ids, 2);
    }
}

proof fn lemma_resolve_ref(s: ResolverView, r: ast::RefExpr)
    ensures
        expressed(s, resolve_expr(s, ast::Expr::Ref(Box::new(r))).0),
        fresh(
            s,
            resolve_expr(s, ast::Expr::Ref(Box::new(r))).0,
            node_ids(resolve_expr(s, ast::Expr::Ref(Box::new(r))).1),
        ),
    decreases r, 0nat,
{
    let e = ast::Expr::Ref(Box::new(r));
    lemma_anonymous_fresh(s);
    let (s1, identifier) = anonymous(s);
    let own = seq![identifier.id];
    lemma_resolve_expr(s1, r.inner);
    let (s2, inner) = resolve_expr(s1, r.inner);
    lemma_step(s, s1, s2, own, node_ids(inner));
}

proof fn lemma_resolve_select(s: ResolverView, sel: ast::SelectExpr)
    ensures
        expressed(s, resolve_expr(s, ast::Expr::Select(Box::new(sel))).0),
        fresh(
            s,
            resolve_expr(s, ast::Expr::Select(Box::new(sel))).0,
            node_ids(resolve_expr(s, ast::Expr::Select(Box::new(sel))).1),
        ),
    decreases sel, 0nat,
{
    let e = ast::Expr::Select(Box::new(sel));
    lemma_anonymous_fresh(s);
    let (s1, identifier) = anonymous(s);
    let own = seq![identifier.id];
    lemma_resolve_exprs(s1, sel.alternatives@, sel.alternatives@.len());
    let s2 = resolve_exprs(s1, sel.alternatives@, sel.alternatives@.len()).0;
    lemma_step_silent(s, s1, s2, own);
    let after = resolve_expr(s, e).0;
    lemma_report_typed(s2, ResolverErrKind::TypeMismatch, "select"@, sel.span@);
    lemma_step_silent(s, s2, after, own);
}

proof fn lemma_resolve_tuple(s: ResolverView, t: ast::TupleExpr)
    ensures
        expressed(s, resolve_expr(s, ast::Expr::Tuple(Box::new(t))).0),
        fresh(
            s,
            resolve_expr(s, ast::Expr::Tuple(Box::new(t))).0,
            node_ids(resolve_expr(s, ast::Expr::Tuple(Box::new(t))).1),
        ),
    decreases t, 0nat,
{
    let e = ast::Expr::Tuple(Box::new(t));
    lemma_anonymous_fresh(s);
    let (s1, identifier) = anonymous(s);
    let own = seq![identifier.id];
    lemma_resolve_exprs(s1, t.elements@, t.elements@.len());
    let (s2, values) = resolve_exprs(s1, t.elements@, t.elements@.len());
    lemma_step(s, s1, s2, own, exprs_ids(values, values.len()));
    lemma_tuple_elements_typed(s2, values, values.len(), t.span@);
    let (s3, elements) = tuple_elements(s2, values, values.len(), t.span@);
    lemma_tuple_elements_fresh(s2, values, values.len(), t.span@);
    lemma_typed_is_expressed(s2, s3);
    lemma_step(s, s2, s3, own + exprs_ids(values, values.len()), variable_ids(elements));
    lemma_anonymous_fresh(s3);
    let (s4, symbol) = anonymous(s3);
    lemma_step(
        s,
        s3,
        s4,
        own + exprs_ids(values, values.len()) + variable_ids(elements),
        seq![symbol.id],
    );
    lemma_tuple_fields_ids(elements, values, values.len());
    let fields = super::model::tuple_fields(elements, values);
    assert(fields.len() == values.len());
    assert(element_ids(fields) =~= variable_ids(elements));
}

/// The resolution of an expression declares nothing and closes every scope
/// that it opens; and every node of the resolved expression has an
/// identity of its own, taken during the resolution.
pub proof fn lemma_resolve_expr(s: ResolverView, e: ast::Expr)
    ensures
        expressed(s, resolve_expr(s, e).0),
        fresh(s, resolve_expr(s, e).0, node_ids(resolve_expr(s, e).1)),
    decreases e, 1nat,
{
    match e {
        ast::Expr::Assign(a) => {
            lemma_resolve_assign(s, *a);
        },
        ast::Expr::Call(c) => {
            lemma_resolve_call(s, *c);
        },
        ast::Expr::Channel(c) => {
            lemma_resolve_channel(s, *c);
        },
        ast::Expr::Deref(d) => {
            lemma_resolve_deref(s, *d);
        },
        ast::Expr::For(f) => {
            lemma_resolve_for(s, *f);
        },
        ast::Expr::If(i) => {
            lemma_resolve_if(s, *i);
        },
        ast::Expr::Item(i) => {
            lemma_resolve_item(s, *i);
        },
        ast::Expr::List(l) => {
            lemma_resolve_list(s, *l);
        },
        ast::Expr::ListRange(r) => {
            lemma_resolve_listrange(s, *r);
        },
        ast::Expr::Literal(l) => {
            lemma_resolve_literal(s, *l);
        },
        ast::Expr::Ref(r) => {
            lemma_resolve_ref(s, *r);
        },
        ast::Expr::Select(sel) => {
            lemma_resolve_select(s, *sel);
        },
        ast::Expr::Tuple(t) => {
            lemma_resolve_tuple(s, *t);
        },
        ast::Expr::Block(b) => {
            lemma_resolve_block(s, *b, Seq::empty());
        },
        ast::Expr::Operator(o) => {
            lemma_resolve_operator(s, *o);
        },
        ast::Expr::Void(_) => {
            lemma_anonymous_fresh(s);
        },
    }
}

/// The resolution of a row of expressions declares nothing, and every node
/// of the resolved expressions has an identity of its own.
pub proof fn lemma_resolve_exprs(s: ResolverView, es: Seq<ast::Expr>, n: nat)
    ensures
        expressed(s, resolve_exprs(s, es, n).0),
        fresh(s, resolve_exprs(s, es, n).0, exprs_ids(resolve_exprs(s, es, n).1, resolve_exprs(s, es, n).1.len())),
        n <= es.len() ==> resolve_exprs(s, es, n).1.len() == n,
    decreases es, n,
{
    if n == 0 || n > es.len() {
        assert(s.errors.subrange(0, s.errors.len() as int) =~= s.errors);
    } else {
        lemma_resolve_exprs(s, es, (n - 1) as nat);
        let (s1, before) = resolve_exprs(s, es, (n - 1) as nat);
        lemma_resolve_expr(s1, es[n - 1]);
        let (s2, e) = resolve_expr(s1, es[n - 1]);
        lemma_step(s, s1, s2, exprs_ids(before, before.len()), node_ids(e));
        lemma_exprs_ids_push(before, e);
    }
}

/// The nodes of a row with one more expression are the nodes of the row
/// and the nodes of that expression.
pub proof fn lemma_exprs_ids_push(es: Seq<ExprView>, e: ExprView)
    ensures
        exprs_ids(es.push(e), es.len() + 1) == exprs_ids(es, es.len()) + node_ids(e),
{
    lemma_exprs_ids_prefix(es, e, es.len());
}

/// The nodes of the first expressions of a row do not depend on the
/// expressions after them.
pub proof fn lemma_exprs_ids_prefix(es: Seq<ExprView>, e: ExprView, n: nat)
    requires
        n <= es.len(),
    ensures
        exprs_ids(es.push(e), n) == exprs_ids(es, n),
    decreases n,
{
    if n > 0 {
        lemma_exprs_ids_prefix(es, e, (n - 1) as nat);
        assert(es.push(e)[n - 1] == es[n - 1]);
    }
}

/// The resolution of a block leaves the open scopes as it found them; and
/// every node of the resolved block has an identity of its own. The
/// resolved block holds no declarations.
pub proof fn lemma_resolve_block(s: ResolverView, b: ast::BlockExpr, variables: Seq<VariableView>)
    ensures
        enclosed(s, resolve_block(s, b, variables).0),
        fresh(s, resolve_block(s, b, variables).0, block_ids(resolve_block(s, b, variables).1)),
        fresh(
            s,
            resolve_block(s, b, variables).0,
            node_ids(ExprView::Block(Box::new(resolve_block(s, b, variables).1))),
        ),
        resolve_block(s, b, variables).1.function_table.len() == 0,
        resolve_block(s, b, variables).1.module_table.len() == 0,
        resolve_block(s, b, variables).1.type_table.len() == 0,
    decreases b, 0nat,
{
    lemma_anonymous_fresh(s);
    let (s1, identifier) = anonymous(s);
    let own = seq![identifier.id];
    let s2 = push_block(s1, super::model::block_scope(identifier, variables));
    assert(s2.blocks.drop_last() =~= s1.blocks);
    lemma_resolve_exprs(s2, b.body@, b.body@.len());
    let (s3, body) = resolve_exprs(s2, b.body@, b.body@.len());
    lemma_resolve_expr(s3, b.ret);
    let (s4, ret) = resolve_expr(s3, b.ret);
    lemma_expressed_twice(s2, s3, s4);
    lemma_fresh_twice(s2, s3, s4, exprs_ids(body, body.len()), node_ids(ret));
    let after = pop_block(s4);
    assert(after.blocks =~= s.blocks);
    assert(after.errors.subrange(0, s.errors.len() as int) =~= s2.errors.subrange(
        0,
        s.errors.len() as int,
    ));
    assert(s2.errors == s1.errors);
    // the identities
    assert(fresh(s1, s4, exprs_ids(body, body.len()) + node_ids(ret)));
    assert(advanced(s1, s4));
    lemma_fresh_twice(s, s1, s4, own, exprs_ids(body, body.len()) + node_ids(ret));
    assert(block_ids(resolve_block(s, b, variables).1) =~= own + (exprs_ids(body, body.len())
        + node_ids(ret)));
}

/// The resolution of an operator declares nothing, and every node of the
/// resolved call has an identity of its own.
pub proof fn lemma_resolve_operator(s: ResolverView, o: ast::OperatorExpr)
    ensures
        expressed(s, resolve_operator(s, o).0),
        fresh(
            s,
            resolve_operator(s, o).0,
            node_ids(ExprView::Call(Box::new(resolve_operator(s, o).1))),
        ),
    decreases o, 0nat,
{
    lemma_anonymous_fresh(s);
    let (s1, identifier) = anonymous(s);
    let own = seq![identifier.id];
    match o {
        ast::OperatorExpr::Binary(b) => {
            lemma_resolve_expr(s1, b.lhs);
            let (s2, lhs) = resolve_expr(s1, b.lhs);
            lemma_step(s, s1, s2, own, node_ids(lhs));
            lemma_resolve_expr(s2, b.rhs);
            let (s3, rhs) = resolve_expr(s2, b.rhs);
            lemma_step(s, s2, s3, own + node_ids(lhs), node_ids(rhs));
            lemma_operator_target(s3, b.operator, typedef_expr(lhs));
            let (s4, target) = operator_target(s3, b.operator, typedef_expr(lhs));
            lemma_typed_is_expressed(s3, s4);
            lemma_step(s, s3, s4, own + node_ids(lhs) + node_ids(rhs), node_ids(target));
            let arguments = seq![lhs, rhs];
            assert(exprs_ids(arguments, 2) =~= node_ids(lhs) + node_ids(rhs)) by {
                reveal_with_fuel(exprs_ids, 3);
            }
            assert(own + node_ids(lhs) + node_ids(rhs) =~= own + (node_ids(lhs) + node_ids(rhs)));
            lemma_ids_reordered(s, s4, own, node_ids(lhs) + node_ids(rhs), node_ids(target));
        },
        ast::OperatorExpr::Prefix(p) => {
            lemma_resolve_expr(s1, p.rhs);
            let (s2, rhs) = resolve_expr(s1, p.rhs);
            lemma_step(s, s1, s2, own, node_ids(rhs));
            lemma_operator_target(s2, p.operator, typedef_expr(rhs));
            let (s3, target) = operator_target(s2, p.operator, typedef_expr(rhs));
            lemma_typed_is_expressed(s2, s3);
            lemma_step(s, s2, s3, own + node_ids(rhs), node_ids(target));
            let arguments = seq![rhs];
            assert(exprs_ids(arguments, 1) =~= node_ids(rhs)) by {
                reveal_with_fuel(exprs_ids, 2);
            }
            lemma_ids_reordered(s, s3, own, node_ids(rhs), node_ids(target));
        },
        ast::OperatorExpr::Suffix(x) => {
            lemma_resolve_expr(s1, x.lhs);
            let (s2, lhs) = resolve_expr(s1, x.lhs);
            lemma_step(s, s1, s2, own, node_ids(lhs));
            lemma_operator_target(s2, x.operator, typedef_expr(lhs));
            let (s3, target) = operator_target(s2, x.operator, typedef_expr(lhs));
            lemma_typed_is_expressed(s2, s3);
            lemma_step(s, s2, s3, own + node_ids(lhs), node_ids(target));
            let arguments = seq![lhs];
            assert(exprs_ids(arguments, 1) =~= node_ids(lhs)) by {
                reveal_with_fuel(exprs_ids, 2);
            }
            lemma_ids_reordered(s, s3, own, node_ids(lhs), node_ids(target));
        },
    }
}

/// Identities that are fresh in one order are fresh in another.
pub proof fn lemma_ids_reordered(
    s: ResolverView,
    after: ResolverView,
    own: Seq<u64>,
    arguments: Seq<u64>,
    target: Seq<u64>,
)
    requires
        fresh(s, after, own + arguments + target),
    ensures
        fresh(s, after, own + target + arguments),
{
    let a = own + arguments + target;
    let b = own + target + arguments;
    let to = |i: int|
        if i < own.len() {
            i
        } else if i < own.len() + target.len() {
            i + arguments.len()
        } else {
            i - target.len()
        };
    assert forall|i: int| 0 <= i < b.len() implies #[trigger] b[i] == a[to(i)] && 0 <= to(i)
        < a.len() by {}
    if !after.exhausted {
        assert forall|i: int, j: int| 0 <= i < b.len() && 0 <= j < b.len() && i != j implies b[i]
            != b[j] by {
            assert(b[i] == a[to(i)]);
            assert(b[j] == a[to(j)]);
            assert(to(i) != to(j));
        }
        assert forall|i: int| 0 <= i < b.len() implies s.next <= #[trigger] b[i] < after.next by {
            assert(b[i] == a[to(i)]);
        }
    }
}

// ---------------------------------------------------------------------
// Declarations
// ---------------------------------------------------------------------
/// A function that was written into the state is held by the context under
/// its symbol, and by the innermost open module where one is open; the two
/// agree.
pub proof fn lemma_stored_function_agrees(s: ResolverView, f: FunctionView)
    ensures
        ({
            let after = store_function(s, f);
            &&& held(after.context.function_table, f.symbol, f)
            &&& after.modules.len() == s.modules.len()
            &&& after.modules.len() > 0 ==> held(
                after.modules.last().function_table,
                f.symbol,
                f,
            )
        }),
{
    crate::air::table::lemma_put_found(s.context.function_table, f.symbol, f);
    if s.modules.len() > 0 {
        crate::air::table::lemma_put_found(s.modules.last().function_table, f.symbol, f);
    }
}

/// A module that was written into the state is held by the context under
/// its symbol, and by the innermost open module where one is open; the two
/// agree.
pub proof fn lemma_stored_module_agrees(s: ResolverView, m: crate::air::ModuleView)
    ensures
        ({
            let after = super::model::store_module(s, m);
            &&& held(after.context.module_table, m.symbol, m)
            &&& after.modules.len() == s.modules.len()
            &&& after.modules.len() > 0 ==> held(after.modules.last().module_table, m.symbol, m)
        }),
{
    crate::air::table::lemma_put_found(s.context.module_table, m.symbol, m);
    if s.modules.len() > 0 {
        crate::air::table::lemma_put_found(s.modules.last().module_table, m.symbol, m);
    }
}

/// The table holds the value under the key: the first entry with the key's
/// number is the key with the value.
pub open spec fn held<V>(table: Seq<(IdentifierView, V)>, key: IdentifierView, value: V) -> bool {
    match first_with_id(table_keys(table), key.id, 0) {
        Some(i) => 0 <= i < table.len() && table[i] == (key, value),
        None => false,
    }
}

/// Resolving the profile of a function twice gives the same profile, under
/// the same identity, and the second time changes nothing: no identity is
/// taken, nothing is declared and no error is recorded. After the first
/// time the context holds a function under the number of the declaration's
/// symbol.
pub proof fn lemma_profile_idempotent(s: ResolverView, d: ast::FunctionDecl)
    ensures
        ({
            let (s1, first) = resolve_function_profile(s, d);
            let (s2, second) = resolve_function_profile(s1, d);
            first is Some ==> {
                &&& s2 == s1
                &&& second == first
                &&& second->0.symbol == first->0.symbol
                &&& first_with_id(table_keys(s1.context.function_table), d.symbol@.id, 0) is Some
            }
        }),
{
    let (s1, first) = resolve_function_profile(s, d);
    lemma_first_with_id(table_keys(s.context.function_table), d.symbol@.id, 0);
    match first_with_id(table_keys(s.context.function_table), d.symbol@.id, 0) {
        Some(i) => {},
        None => {
            if first is Some {
                let f = first->0;
                let (sa, formals) = resolve_variables(s, d.formals@, d.formals@.len());
                let (sb, ret) = resolve_type(sa, d.ret);
                lemma_stored_function_agrees(sb, f);
            }
        },
    }
}

/// A function that resolves is held, complete, by the context and by the
/// innermost open module; it has a body exactly if its declaration is not
/// extern and has one; and it has the symbol of its declaration.
pub proof fn lemma_resolved_function_registered(s: ResolverView, d: ast::FunctionDecl)
    ensures
        ({
            let (after, function) = resolve_function(s, d);
            function matches Some(f) ==> {
                &&& held(after.context.function_table, f.symbol, f)
                &&& after.modules.len() > 0 ==> held(
                    after.modules.last().function_table,
                    f.symbol,
                    f,
                )
                &&& f.body is Some <==> (!d.is_extern && d.body is Some)
            }
        }),
{
    let (s1, profile) = resolve_function_profile(s, d);
    lemma_profile_idempotent(s, d);
    if profile is Some {
        let p = profile->0;
        let s2 = super::model::push_function(s1, p);
        let (s3, body) = if d.is_extern {
            (s2, None)
        } else {
            match d.body {
                Some(e) => {
                    let (s3, block) = resolve_body(s2, e);
                    (s3, Some(block))
                },
                None => (s2, None),
            }
        };
        let f = FunctionView { body, ..p };
        lemma_stored_function_agrees(super::model::pop_function(s3), f);
        lemma_first_with_id(table_keys(s.context.function_table), d.symbol@.id, 0);
    }
}

/// A type whose display name is already declared in the scope is a
/// redeclaration: exactly one error is recorded, and nothing is declared.
pub proof fn lemma_redeclared_type_is_dropped(s: ResolverView, d: ast::TypeDecl)
    ensures
        ({
            let (after, ty) = resolve_type_decl(s, d);
            &&& after.modules.len() == s.modules.len()
            &&& ty is None <==> spec_clashes(super::model::type_scope(s), d.symbol@)
            &&& ty is None ==> {
                &&& after.context == s.context
                &&& after.modules == s.modules
                &&& after.errors.last() == (super::scope::ResolverErrView {
                    kind: ResolverErrKind::Redeclaration,
                    name: d.symbol@.name,
                    span: d.span@,
                })
            }
        }),
{
    lemma_anonymous_fresh(s);
    let (s1, identifier) = anonymous(s);
    let s2 = push_block(
        s1,
        super::scope::BlockScopeView {
            type_table: super::model::generics_table(d.params@),
            ..super::model::block_scope(identifier, Seq::empty())
        },
    );
    lemma_resolve_type_kind_typed(s2, d);
    let (s3, t) = super::model::resolve_type_kind(s2, d);
    let s4 = pop_block(s3);
    assert(s4.modules == s.modules);
    assert(s4.context == s.context);
}

/// The resolution of what a declared type is changes nothing but the
/// identities and the errors.
pub proof fn lemma_resolve_type_kind_typed(s: ResolverView, d: ast::TypeDecl)
    ensures
        typed(s, super::model::resolve_type_kind(s, d).0),
{
    match d.kind {
        ast::TypeDeclKind::Alias(t) => {
            lemma_resolve_type_typed(s, t);
        },
        ast::TypeDeclKind::Enum(variants) => {
            lemma_resolve_variables_typed(s, variants@, variants@.len());
        },
        ast::TypeDeclKind::Struct(fields) => {
            lemma_resolve_variables_typed(s, fields@, fields@.len());
        },
    }
}

// ---------------------------------------------------------------------
// Shadowing
// ---------------------------------------------------------------------
/// A variable that was brought into the innermost open block is what its
/// display name refers to from then on: it shadows every declaration of
/// that name that was in scope before.
pub proof fn lemma_definition_shadows(s: ResolverView, v: VariableView)
    requires
        s.blocks.len() > 0,
    ensures
        lookup(register_variable(s, v), v.symbol.name) == Some(
            crate::air::ItemView::Variable(Box::new(v)),
        ),
{
    let after = register_variable(s, v);
    let top = after.blocks.last();
    assert(top.variables.last() == v);
    assert(last_named(top.variables, v.symbol.name, top.variables.len() as int) == Some(
        top.variables.len() - 1,
    ));
    assert(lookup_block(top, v.symbol.name) == Some(crate::air::ItemView::Variable(Box::new(v))));
}

/// A definition in an inner block shadows a definition of the same name in
/// the block around it for as long as the inner block is open: in the inner
/// block the name refers to the inner variable, and once the inner block is
/// closed it refers to the outer variable again. The two variables are
/// those of the two definitions, each with its own symbol.
pub proof fn lemma_shadowing_ends_with_block(
    s: ResolverView,
    outer: VariableView,
    inner: VariableView,
    scope: super::scope::BlockScopeView,
)
    requires
        s.blocks.len() > 0,
        inner.symbol.name == outer.symbol.name,
    ensures
        lookup(
            register_variable(push_block(register_variable(s, outer), scope), inner),
            outer.symbol.name,
        ) == Some(crate::air::ItemView::Variable(Box::new(inner))),
        lookup(
            pop_block(register_variable(push_block(register_variable(s, outer), scope), inner)),
            outer.symbol.name,
        ) == Some(crate::air::ItemView::Variable(Box::new(outer))),
{
    let s1 = register_variable(s, outer);
    let s2 = push_block(s1, scope);
    let s3 = register_variable(s2, inner);
    lemma_definition_shadows(s, outer);
    lemma_definition_shadows(s2, inner);
    assert(pop_block(s3).blocks =~= s1.blocks);
    assert(pop_block(s3) == s1);
}

/// A function that was written into the innermost open module is in scope
/// under its display name, where no open block or function is in the way
/// and no other function of the module has that name: a call of the
/// function resolves, wherever in the module the call stands.
pub proof fn lemma_declared_function_in_scope(s: ResolverView, f: FunctionView)
    requires
        s.modules.len() > 0,
        s.blocks.len() == 0,
        s.functions.len() == 0,
        forall|i: int|
            0 <= i < s.modules.last().function_table.len() && (
            #[trigger] s.modules.last().function_table[i]).0.name == f.symbol.name
                ==> s.modules.last().function_table[i].0.id == f.symbol.id,
    ensures
        lookup(store_function(s, f), f.symbol.name) == Some(
            crate::air::ItemView::Function(Box::new(super::model::profile_of(f))),
        ),
{
    let before = s.modules.last().function_table;
    let after = store_function(s, f);
    let table = after.modules.last().function_table;
    crate::air::table::lemma_put_found(before, f.symbol, f);
    lemma_first_with_id(table_keys(table), f.symbol.id, 0);
    let at = first_with_id(table_keys(table), f.symbol.id, 0)->0;
    assert forall|j: int| 0 <= j < at implies table_keys(table)[j].name != f.symbol.name by {
        assert(table[j] == before[j]);
        assert(table_keys(table)[j].id != f.symbol.id);
    }
    crate::air::table::lemma_first_with_name_is(table_keys(table), f.symbol.name, 0, at);
    assert(super::model::lookup_modules(after.modules, f.symbol.name, after.modules.len() as int)
        == Some(crate::air::ItemView::Function(Box::new(super::model::profile_of(f)))));
}

/// A module that resolves has the identifier of its declaration, and it is
/// held, finished, by the context and by the module around it; the two
/// agree.
pub proof fn lemma_resolved_module_registered(s: ResolverView, d: ast::ModuleDecl)
    ensures
        ({
            let (after, module) = super::model::resolve_module(s, d);
            module matches Some(m) ==> {
                &&& m.symbol == d.identifier@
                &&& held(after.context.module_table, m.symbol, m)
                &&& after.modules.len() == s.modules.len()
                &&& after.modules.len() > 0 ==> held(
                    after.modules.last().module_table,
                    m.symbol,
                    m,
                )
            }
        }),
{
    let (after, module) = super::model::resolve_module(s, d);
    if module is Some {
        let empty = super::model::module_profile(d.identifier@);
        let s0 = super::model::store_module(s, empty);
        lemma_stored_module_agrees(s, empty);
        let s1 = super::model::push_module(s0, empty);
        super::unique::lemma_resolve_module(s.next, s, d);
        let n = d.statements@.len();
        let s2 = super::model::resolve_statements(s1, d.statements@, n, super::model::Phase::Modules);
        let s3 = super::model::resolve_statements(s2, d.statements@, n, super::model::Phase::Types);
        let s4 = super::model::resolve_statements(s3, d.statements@, n, super::model::Phase::Profiles);
        let s5 = super::model::resolve_statements(s4, d.statements@, n, super::model::Phase::Bodies);
        super::unique::lemma_resolve_statements(s.next, s1, d.statements@, n, super::model::Phase::Modules);
        super::unique::lemma_resolve_statements(s.next, s2, d.statements@, n, super::model::Phase::Types);
        super::unique::lemma_resolve_statements(s.next, s3, d.statements@, n, super::model::Phase::Profiles);
        super::unique::lemma_resolve_statements(s.next, s4, d.statements@, n, super::model::Phase::Bodies);
        let m = s5.modules.last();
        lemma_stored_module_agrees(super::model::pop_module(s5), m);
    }
}

/// A function whose profile is declared is resolved under the identity of
/// that profile: resolving it declares no second function. The context
/// holds as many functions after as before, and the resolved function has
/// the symbol of the declared profile. So a function that a sibling
/// referred to before its body was resolved is the function that the
/// sibling referred to.
pub proof fn lemma_function_keeps_profile(s: ResolverView, d: ast::FunctionDecl)
    requires
        first_with_id(table_keys(s.context.function_table), d.symbol@.id, 0) matches Some(i)
            && s.context.function_table[i].1.symbol.id == d.symbol@.id,
    ensures
        ({
            let i = first_with_id(table_keys(s.context.function_table), d.symbol@.id, 0)->0;
            let (after, function) = resolve_function(s, d);
            &&& resolve_function_profile(s, d) == (
                s,
                Some(super::model::profile_of(s.context.function_table[i].1)),
            )
            &&& function matches Some(f) && f.symbol == s.context.function_table[i].1.symbol
            &&& after.context.function_table.len() == s.context.function_table.len()
            &&& first_with_id(table_keys(after.context.function_table), d.symbol@.id, 0) == Some(i)
        }),
{
    lemma_first_with_id(table_keys(s.context.function_table), d.symbol@.id, 0);
    let i = first_with_id(table_keys(s.context.function_table), d.symbol@.id, 0)->0;
    let p = super::model::profile_of(s.context.function_table[i].1);
    let s2 = super::model::push_function(s, p);
    if !d.is_extern && d.body is Some {
        super::unique::lemma_resolve_body(s2, d.body->0);
    }
    let (s3, body) = if d.is_extern {
        (s2, None)
    } else {
        match d.body {
            Some(e) => {
                let (s3, block) = resolve_body(s2, e);
                (s3, Some(block))
            },
            None => (s2, None),
        }
    };
    let f = FunctionView { body, ..p };
    let s4 = super::model::pop_function(s3);
    assert(s4.context == s.context);
    crate::air::table::lemma_put_found(s4.context.function_table, f.symbol, f);
    lemma_first_with_id(table_keys(s4.context.function_table), f.symbol.id, 0);
}

} // verus!
