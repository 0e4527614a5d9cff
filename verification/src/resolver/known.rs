//! A resolution that records no error leaves no type that is only known by
//! name.

use vstd::prelude::*;
use crate::air::table::{first_with_id, first_with_name, lemma_first_with_id, lemma_first_with_name, table_keys};
use crate::air::typedef::{lambda_of, typedef_expr, typedef_item, typedef_literal, types_of};
use crate::air::{
    BlockExprView, ExprView, FunctionView, ItemView, LiteralView, ModuleView, TypeView,
    VariableView,
};
use crate::identifier::{IdentifierView, Symbol};
use super::model::{
    last_named, lookup, lookup_block, lookup_blocks, lookup_functions, lookup_member,
    lookup_modules, lookup_path, lookup_qualifier, lookup_tables, lookup_variables,
    module_profile, profile_of,
};
use crate::ast;
use super::laws::{
    expressed, lemma_allocate_typed, lemma_anonymous_fresh, lemma_operator_target,
    lemma_register_expressed, lemma_report_loop_variables_typed, lemma_resolve_block,
    lemma_resolve_expr, lemma_resolve_exprs, lemma_resolve_operator,
    lemma_resolve_type_typed, lemma_resolve_types_typed, lemma_resolve_variable_typed,
    lemma_resolve_variables_typed, lemma_tuple_elements_typed, typed,
};
use super::model::{
    anonymous, block_scope, loop_variables, operator_target, pop_block, push_block,
    register_variable, report_loop_variables, resolve_block, resolve_expr, resolve_exprs,
    resolve_named_type, resolve_operator, resolve_type, resolve_types, resolve_variable,
    resolve_variables, top_block, tuple_elements, tuple_fields,
};
use crate::lexer::span::SpanView;
use crate::air::table::{lemma_put_found, spec_clashes, spec_put};
use super::laws::lemma_resolve_type_kind_typed;
use super::model::{
    declare_function, function_scope, generics_of, generics_table, has_profile, module_scope,
    open_root, pop_function, pop_module, push_function, push_module, resolve_body,
    resolve_function, resolve_function_profile, resolve_module, resolve_statements,
    resolve_type_decl, resolve_type_kind, store_function, store_module, store_type, type_scope,
    Phase,
};
use super::unique::{
    declared, lemma_resolve_body, lemma_resolve_function, lemma_resolve_function_profile,
    lemma_resolve_module, lemma_resolve_statements, lemma_resolve_type_decl,
};
use super::scope::{BlockScopeView, ResolverView};

verus! {

/// No part of the type is only known by name.
pub open spec fn known_type(t: TypeView) -> bool
    decreases t,
{
    match t {
        TypeView::Alias(a) => known_type(a.inner),
        TypeView::Enum(e) => known_types(e.params) && known_types(e.variants.params)
            && known_variables(e.variants.elements),
        TypeView::Generic(g) => known_types(g.params),
        TypeView::Lambda(l) => known_types(l.formals) && known_type(l.ret),
        TypeView::Primitive(_) => true,
        TypeView::Ptr(p) => known_type(p.inner),
        TypeView::Ref(r) => known_type(r.inner),
        TypeView::Struct(st) => known_types(st.params) && known_variables(st.elements),
        TypeView::Unresolved(_) => false,
    }
}

/// No part of any of the types is only known by name.
pub open spec fn known_types(ts: Seq<TypeView>) -> bool
    decreases ts,
{
    forall|i: int| 0 <= i < ts.len() ==> known_type(#[trigger] ts[i])
}

/// No part of the type of any of the variables is only known by name.
pub open spec fn known_variables(vs: Seq<VariableView>) -> bool
    decreases vs,
{
    forall|i: int| 0 <= i < vs.len() ==> known_type((#[trigger] vs[i]).ty)
}

/// No type in the expression is only known by name: not the type of a
/// variable that it defines or binds, not the type of a structure value,
/// and not a type in what an item reference refers to.
pub open spec fn known_expr(e: ExprView) -> bool
    decreases e,
{
    match e {
        ExprView::Block(b) => known_block(*b),
        ExprView::Call(c) => known_expr(c.target) && known_exprs(c.arguments),
        ExprView::Deref(d) => known_expr(d.inner),
        ExprView::For(f) => known_variables(f.formals) && known_expr(f.iterator) && known_block(
            *f.iteration,
        ),
        ExprView::If(i) => known_expr(i.condition) && known_block(*i.then_block) && known_block(
            *i.else_block,
        ),
        ExprView::Item(i) => known_item(i.item),
        ExprView::Let(l) => known_type(l.variable.ty) && known_expr(l.definition),
        ExprView::Literal(l) => known_literal(l.literal),
        ExprView::Ref(r) => known_expr(r.inner),
        ExprView::Struct(st) => known_fields(st.elements) && known_type(st.ty),
        ExprView::Void(_) => true,
    }
}

/// No type in any of the expressions is only known by name.
pub open spec fn known_exprs(es: Seq<ExprView>) -> bool
    decreases es,
{
    forall|i: int| 0 <= i < es.len() ==> known_expr(#[trigger] es[i])
}

/// No type in any of the elements or their values is only known by name.
pub open spec fn known_fields(fs: Seq<(VariableView, ExprView)>) -> bool
    decreases fs,
{
    forall|i: int|
        0 <= i < fs.len() ==> known_type((#[trigger] fs[i]).0.ty) && known_expr(fs[i].1)
}

/// No type in the literal is only known by name.
pub open spec fn known_literal(l: LiteralView) -> bool
    decreases l,
{
    match l {
        LiteralView::Channel(a, b) => known_expr(*a) && known_expr(*b),
        LiteralView::List(es) => known_exprs(es),
        LiteralView::ListRange(a, b) => known_expr(*a) && known_expr(*b),
        _ => true,
    }
}

/// No type in what the item reference refers to is only known by name.
pub open spec fn known_item(item: ItemView) -> bool
    decreases item,
{
    match item {
        ItemView::Function(f) => known_function(*f),
        ItemView::Module(m) => known_module(*m),
        ItemView::Type(t) => known_type(*t),
        ItemView::Variable(v) => known_type(v.ty),
    }
}

/// No type in the block is only known by name.
pub open spec fn known_block(b: BlockExprView) -> bool
    decreases b,
{
    &&& known_exprs(b.body)
    &&& known_expr(b.ret)
    &&& known_functions(b.function_table)
    &&& known_modules(b.module_table)
    &&& known_type_table(b.type_table)
}

/// No type in the function is only known by name: not in its profile, and
/// not in its body.
pub open spec fn known_function(f: FunctionView) -> bool
    decreases f,
{
    &&& known_variables(f.formals)
    &&& known_type(f.ret)
    &&& match f.body {
        Some(b) => known_block(b),
        None => true,
    }
}

/// No type in the module is only known by name.
pub open spec fn known_module(m: ModuleView) -> bool
    decreases m,
{
    &&& known_functions(m.function_table)
    &&& known_modules(m.module_table)
    &&& known_type_table(m.type_table)
}

/// No type in any function of the table is only known by name.
pub open spec fn known_functions(t: Seq<(IdentifierView, FunctionView)>) -> bool
    decreases t,
{
    forall|i: int| 0 <= i < t.len() ==> known_function((#[trigger] t[i]).1)
}

/// No type in any module of the table is only known by name.
pub open spec fn known_modules(t: Seq<(IdentifierView, ModuleView)>) -> bool
    decreases t,
{
    forall|i: int| 0 <= i < t.len() ==> known_module((#[trigger] t[i]).1)
}

/// No type of the table is only known by name.
pub open spec fn known_type_table(t: Seq<(IdentifierView, TypeView)>) -> bool {
    forall|i: int| 0 <= i < t.len() ==> known_type((#[trigger] t[i]).1)
}

/// No type in the open block is only known by name.
pub open spec fn known_scope(b: BlockScopeView) -> bool {
    &&& known_variables(b.variables)
    &&& known_functions(b.function_table)
    &&& known_modules(b.module_table)
    &&& known_type_table(b.type_table)
}

/// No type that the state of the resolver holds is only known by name:
/// not in the context, and not in an open module, function or block.
pub open spec fn known_state(s: ResolverView) -> bool {
    &&& known_functions(s.context.function_table)
    &&& known_modules(s.context.module_table)
    &&& known_type_table(s.context.type_table)
    &&& forall|i: int| 0 <= i < s.modules.len() ==> known_module(#[trigger] s.modules[i])
    &&& forall|i: int| 0 <= i < s.functions.len() ==> known_function(#[trigger] s.functions[i])
    &&& forall|i: int| 0 <= i < s.blocks.len() ==> known_scope(#[trigger] s.blocks[i])
}

/// No error was recorded between the two states.
pub open spec fn quiet(s: ResolverView, after: ResolverView) -> bool {
    after.errors.len() == s.errors.len()
}

/// The type of an expression in which every type is known is known.
pub proof fn lemma_known_typedef(e: ExprView)
    requires
        known_expr(e),
    ensures
        typedef_expr(e) matches Some(t) ==> known_type(t),
    decreases e,
{
    reveal_with_fuel(known_expr, 4);
    reveal_with_fuel(known_type, 3);
    match e {
        ExprView::Block(b) => {
            lemma_known_typedef(b.ret);
        },
        ExprView::Call(c) => {
            lemma_known_typedef(c.target);
        },
        ExprView::Deref(d) => {
            lemma_known_typedef(d.inner);
        },
        ExprView::If(i) => {
            lemma_known_typedef(i.then_block.ret);
        },
        ExprView::Item(i) => {
            match i.item {
                ItemView::Function(f) => {
                    let l = lambda_of(*f);
                    assert forall|k: int| 0 <= k < l.formals.len() implies known_type(
                        #[trigger] l.formals[k],
                    ) by {
                        assert(known_type(f.formals[k].ty));
                    }
                },
                _ => {},
            }
        },
        ExprView::Ref(r) => {
            lemma_known_typedef(r.inner);
        },
        _ => {},
    }
}

/// What a name refers to among known variables is known.
pub proof fn lemma_known_lookup_variables(vs: Seq<VariableView>, name: Seq<char>)
    requires
        known_variables(vs),
    ensures
        lookup_variables(vs, name) matches Some(item) ==> known_item(item),
{
    lemma_last_named(vs, name, vs.len() as int);
}

/// A place that a search among variables found lies among them.
pub proof fn lemma_last_named(vs: Seq<VariableView>, name: Seq<char>, upto: int)
    ensures
        last_named(vs, name, upto) matches Some(i) ==> 0 <= i < vs.len(),
    decreases upto,
{
    if !(upto <= 0 || upto > vs.len()) && vs[upto - 1].symbol.name != name {
        lemma_last_named(vs, name, upto - 1);
    }
}

/// What a name refers to in known tables is known.
pub proof fn lemma_known_lookup_tables(
    functions: Seq<(IdentifierView, FunctionView)>,
    modules: Seq<(IdentifierView, ModuleView)>,
    types: Seq<(IdentifierView, TypeView)>,
    name: Seq<char>,
)
    requires
        known_functions(functions),
        known_modules(modules),
        known_type_table(types),
    ensures
        lookup_tables(functions, modules, types, name) matches Some(item) ==> known_item(item),
{
    lemma_first_with_name(table_keys(functions), name, 0);
    lemma_first_with_name(table_keys(modules), name, 0);
    lemma_first_with_name(table_keys(types), name, 0);
    match first_with_name(table_keys(functions), name, 0) {
        Some(i) => {
            assert(known_function(functions[i].1));
            assert(known_function(profile_of(functions[i].1)));
        },
        None => match first_with_name(table_keys(modules), name, 0) {
            Some(i) => {
                assert(known_module(module_profile(modules[i].1.symbol)));
            },
            None => match first_with_name(table_keys(types), name, 0) {
                Some(i) => {
                    assert(known_type(types[i].1));
                },
                None => {},
            },
        },
    }
}

/// What a name refers to in known open blocks is known.
pub proof fn lemma_known_lookup_blocks(blocks: Seq<BlockScopeView>, name: Seq<char>, upto: int)
    requires
        forall|i: int| 0 <= i < blocks.len() ==> known_scope(#[trigger] blocks[i]),
    ensures
        lookup_blocks(blocks, name, upto) matches Some(item) ==> known_item(item),
    decreases upto,
{
    if !(upto <= 0 || upto > blocks.len()) {
        let b = blocks[upto - 1];
        lemma_known_lookup_variables(b.variables, name);
        lemma_known_lookup_tables(b.function_table, b.module_table, b.type_table, name);
        lemma_known_lookup_blocks(blocks, name, upto - 1);
    }
}

/// What a name refers to among the formals of known open functions is
/// known.
pub proof fn lemma_known_lookup_functions(functions: Seq<FunctionView>, name: Seq<char>, upto: int)
    requires
        forall|i: int| 0 <= i < functions.len() ==> known_function(#[trigger] functions[i]),
    ensures
        lookup_functions(functions, name, upto) matches Some(item) ==> known_item(item),
    decreases upto,
{
    if !(upto <= 0 || upto > functions.len()) {
        assert(known_function(functions[upto - 1]));
        lemma_known_lookup_variables(functions[upto - 1].formals, name);
        lemma_known_lookup_functions(functions, name, upto - 1);
    }
}

/// What a name refers to in known open modules is known.
pub proof fn lemma_known_lookup_modules(modules: Seq<ModuleView>, name: Seq<char>, upto: int)
    requires
        forall|i: int| 0 <= i < modules.len() ==> known_module(#[trigger] modules[i]),
    ensures
        lookup_modules(modules, name, upto) matches Some(item) ==> known_item(item),
    decreases upto,
{
    if !(upto <= 0 || upto > modules.len()) {
        let m = modules[upto - 1];
        assert(known_module(m));
        lemma_known_lookup_tables(m.function_table, m.module_table, m.type_table, name);
        lemma_known_lookup_modules(modules, name, upto - 1);
    }
}

/// What a name refers to in a state in which every type is known is
/// known.
pub proof fn lemma_known_lookup(s: ResolverView, name: Seq<char>)
    requires
        known_state(s),
    ensures
        lookup(s, name) matches Some(item) ==> known_item(item),
{
    lemma_known_lookup_blocks(s.blocks, name, s.blocks.len() as int);
    lemma_known_lookup_functions(s.functions, name, s.functions.len() as int);
    lemma_known_lookup_modules(s.modules, name, s.modules.len() as int);
}

/// What a name refers to inside an item, in a state in which every type
/// is known, is known.
pub proof fn lemma_known_lookup_member(s: ResolverView, item: ItemView, name: Seq<char>)
    requires
        known_state(s),
    ensures
        lookup_member(s.context, item, name) matches Some(found) ==> known_item(found),
{
    match item {
        ItemView::Module(m) => {
            lemma_first_with_id(table_keys(s.context.module_table), m.symbol.id, 0);
            match first_with_id(table_keys(s.context.module_table), m.symbol.id, 0) {
                Some(i) => {
                    let full = s.context.module_table[i].1;
                    assert(known_module(full));
                    lemma_known_lookup_tables(
                        full.function_table,
                        full.module_table,
                        full.type_table,
                        name,
                    );
                },
                None => {},
            }
        },
        _ => {},
    }
}

/// What a qualified name refers to, in a state in which every type is
/// known, is known.
pub proof fn lemma_known_lookup_path(s: ResolverView, qualifier: Seq<Symbol>, name: Seq<char>)
    requires
        known_state(s),
    ensures
        lookup_path(s, qualifier, name) matches Some(item) ==> known_item(item),
{
    lemma_known_lookup(s, name);
    if qualifier.len() > 0 {
        match lookup_qualifier(s, qualifier, qualifier.len()) {
            Some(item) => {
                lemma_known_lookup_member(s, item, name);
            },
            None => {},
        }
    }
}

/// A step that changes nothing but the identities and the errors keeps
/// every type known.
pub proof fn lemma_typed_known(s: ResolverView, after: ResolverView)
    requires
        typed(s, after),
        known_state(s),
    ensures
        known_state(after),
{
}

/// A type given by name that resolves without an error is known.
pub proof fn lemma_known_named_type(s: ResolverView, u: ast::UnresolvedType)
    requires
        known_state(s),
    ensures
        quiet(s, resolve_named_type(s, u).0) ==> known_type(resolve_named_type(s, u).1),
{
    lemma_known_lookup_path(s, u.qualifier@, u.symbol@.name);
}

/// A type that resolves without an error is known.
pub proof fn lemma_known_type(s: ResolverView, t: ast::Type)
    requires
        known_state(s),
    ensures
        quiet(s, resolve_type(s, t).0) ==> known_type(resolve_type(s, t).1),
    decreases t, 0nat,
{
    reveal_with_fuel(known_type, 2);
    lemma_resolve_type_typed(s, t);
    match t {
        ast::Type::Lambda(l) => {
            lemma_resolve_types_typed(s, l.formals@, l.formals@.len());
            let s1 = resolve_types(s, l.formals@, l.formals@.len()).0;
            lemma_resolve_type_typed(s1, l.ret);
            lemma_typed_known(s, s1);
            lemma_known_types(s, l.formals@, l.formals@.len());
            lemma_known_type(s1, l.ret);
        },
        ast::Type::Primitive(p) => {},
        ast::Type::Ptr(p) => {
            lemma_known_type(s, p.inner);
        },
        ast::Type::Ref(r) => {
            lemma_known_type(s, r.inner);
        },
        ast::Type::Struct(st) => {
            lemma_allocate_typed(s);
            let s1 = anonymous(s).0;
            lemma_typed_known(s, s1);
            lemma_resolve_variables_typed(s1, st.elements@, st.elements@.len());
            lemma_known_variables(s1, st.elements@, st.elements@.len());
        },
        ast::Type::Unresolved(u) => {
            lemma_known_named_type(s, *u);
        },
    }
}

/// Types that resolve without an error are known.
pub proof fn lemma_known_types(s: ResolverView, ts: Seq<ast::Type>, n: nat)
    requires
        known_state(s),
    ensures
        quiet(s, resolve_types(s, ts, n).0) ==> known_types(resolve_types(s, ts, n).1),
    decreases ts, n,
{
    if !(n == 0 || n > ts.len()) {
        lemma_resolve_types_typed(s, ts, (n - 1) as nat);
        let (s1, before) = resolve_types(s, ts, (n - 1) as nat);
        lemma_resolve_type_typed(s1, ts[n - 1]);
        lemma_typed_known(s, s1);
        lemma_known_types(s, ts, (n - 1) as nat);
        lemma_known_type(s1, ts[n - 1]);
    }
}

/// A variable that resolves without an error has a known type.
pub proof fn lemma_known_variable(s: ResolverView, f: ast::FunctionFormal)
    requires
        known_state(s),
    ensures
        quiet(s, resolve_variable(s, f).0) ==> known_type(resolve_variable(s, f).1.ty),
    decreases f, 0nat,
{
    lemma_known_type(s, f.ty);
}

/// Variables that resolve without an error have known types.
pub proof fn lemma_known_variables(s: ResolverView, fs: Seq<ast::FunctionFormal>, n: nat)
    requires
        known_state(s),
    ensures
        quiet(s, resolve_variables(s, fs, n).0) ==> known_variables(
            resolve_variables(s, fs, n).1,
        ),
    decreases fs, n,
{
    if !(n == 0 || n > fs.len()) {
        lemma_resolve_variables_typed(s, fs, (n - 1) as nat);
        let (s1, before) = resolve_variables(s, fs, (n - 1) as nat);
        lemma_resolve_variable_typed(s1, fs[n - 1]);
        lemma_typed_known(s, s1);
        lemma_known_variables(s, fs, (n - 1) as nat);
        lemma_known_variable(s1, fs[n - 1]);
    }
}

/// Bringing a variable of a known type into scope keeps every type known.
pub proof fn lemma_known_register(s: ResolverView, v: VariableView)
    requires
        known_state(s),
        known_type(v.ty),
    ensures
        known_state(register_variable(s, v)),
{
    let after = register_variable(s, v);
    if s.blocks.len() > 0 {
        let top = s.blocks.last();
        assert(known_scope(top));
        assert forall|i: int| 0 <= i < after.blocks.len() implies known_scope(
            #[trigger] after.blocks[i],
        ) by {
            if i < after.blocks.len() - 1 {
                assert(after.blocks[i] == s.blocks[i]);
            } else {
                assert(known_variables(top.variables.push(v))) by {
                    assert forall|k: int| 0 <= k < top.variables.push(v).len() implies known_type(
                        (#[trigger] top.variables.push(v)[k]).ty,
                    ) by {
                        if k < top.variables.len() {
                            assert(top.variables.push(v)[k] == top.variables[k]);
                        }
                    }
                }
            }
        }
    }
}

/// Opening a block in which every type is known keeps every type known.
pub proof fn lemma_known_push_block(s: ResolverView, scope: BlockScopeView)
    requires
        known_state(s),
        known_scope(scope),
    ensures
        known_state(push_block(s, scope)),
{
    let after = push_block(s, scope);
    assert forall|i: int| 0 <= i < after.blocks.len() implies known_scope(
        #[trigger] after.blocks[i],
    ) by {
        if i < s.blocks.len() {
            assert(after.blocks[i] == s.blocks[i]);
        }
    }
}

/// Closing a block keeps every type known.
pub proof fn lemma_known_pop_block(s: ResolverView)
    requires
        known_state(s),
    ensures
        known_state(pop_block(s)),
        s.blocks.len() > 0 ==> known_scope(s.blocks.last()),
{
    let after = pop_block(s);
    assert forall|i: int| 0 <= i < after.blocks.len() implies known_scope(
        #[trigger] after.blocks[i],
    ) by {
        assert(after.blocks[i] == s.blocks[i]);
    }
}

/// Every variable of a loop is reported: there are as many errors more as
/// there are variables.
pub proof fn lemma_loop_variables_reported(
    s: ResolverView,
    formals: Seq<Symbol>,
    n: nat,
    span: SpanView,
)
    requires
        n <= formals.len(),
    ensures
        report_loop_variables(s, formals, n, span).errors.len() == s.errors.len() + n,
    decreases n,
{
    if n > 0 {
        lemma_loop_variables_reported(s, formals, (n - 1) as nat, span);
    }
}

/// The target of an operator that resolves without an error is known.
pub proof fn lemma_known_operator_target(
    s: ResolverView,
    operator: ast::Operator,
    operand: Option<TypeView>,
)
    requires
        known_state(s),
    ensures
        quiet(s, operator_target(s, operator, operand).0) ==> known_expr(
            operator_target(s, operator, operand).1,
        ),
{
    reveal_with_fuel(known_expr, 2);
    lemma_anonymous_fresh(s);
    let s1 = anonymous(s).0;
    lemma_typed_known(s, s1);
    match operand {
        Some(TypeView::Primitive(p)) => {
            lemma_known_lookup(
                s1,
                super::model::operator_function_name(operator.spec_kind(), p),
            );
        },
        _ => {},
    }
}

/// The elements of a tuple that resolves without an error have known
/// types.
pub proof fn lemma_known_tuple_elements(
    s: ResolverView,
    values: Seq<ExprView>,
    n: nat,
    span: SpanView,
)
    requires
        known_exprs(values),
        n <= values.len(),
    ensures
        quiet(s, tuple_elements(s, values, n, span).0) ==> known_variables(
            tuple_elements(s, values, n, span).1,
        ),
        tuple_elements(s, values, n, span).1.len() == n,
    decreases n,
{
    if n > 0 {
        lemma_known_tuple_elements(s, values, (n - 1) as nat, span);
        lemma_tuple_elements_typed(s, values, (n - 1) as nat, span);
        let (s1, before) = tuple_elements(s, values, (n - 1) as nat, span);
        lemma_allocate_typed(s1);
        if quiet(s, tuple_elements(s, values, n, span).0) {
            assert(known_expr(values[n - 1]));
            lemma_known_typedef(values[n - 1]);
            let after = tuple_elements(s, values, n, span).1;
            assert forall|k: int| 0 <= k < after.len() implies known_type(
                (#[trigger] after[k]).ty,
            ) by {
                if k < before.len() {
                    assert(after[k] == before[k]);
                }
            }
        }
    }
}

proof fn lemma_known_assign(s: ResolverView, a: ast::AssignExpr)
    requires
        known_state(s),
    ensures
        quiet(s, resolve_expr(s, ast::Expr::Assign(Box::new(a))).0) ==> known_state(
            resolve_expr(s, ast::Expr::Assign(Box::new(a))).0,
        ) && known_expr(resolve_expr(s, ast::Expr::Assign(Box::new(a))).1),
    decreases a, 0nat,
{
    reveal_with_fuel(known_expr, 3);
    reveal_with_fuel(known_type, 2);
    let e = ast::Expr::Assign(Box::new(a));
    let (after, result) = resolve_expr(s, e);
    lemma_anonymous_fresh(s);
    let (s1, identifier) = anonymous(s);
    lemma_typed_known(s, s1);
    lemma_resolve_expr(s1, a.rhs);
    let (s2, definition) = resolve_expr(s1, a.rhs);
    match a.ty {
        Some(t) => {
            lemma_resolve_type_typed(s2, t);
        },
        None => {},
    }
    if quiet(s, after) {
        lemma_known_expr(s1, a.rhs);
        match a.ty {
            Some(t) => {
                lemma_known_type(s2, t);
                lemma_typed_known(s2, resolve_type(s2, t).0);
                lemma_known_register(resolve_type(s2, t).0, result->Let_0.variable);
            },
            None => {
                lemma_known_typedef(definition);
                lemma_known_register(s2, result->Let_0.variable);
            },
        }
    }
}

proof fn lemma_known_call(s: ResolverView, c: ast::CallExpr)
    requires
        known_state(s),
    ensures
        quiet(s, resolve_expr(s, ast::Expr::Call(Box::new(c))).0) ==> known_state(
            resolve_expr(s, ast::Expr::Call(Box::new(c))).0,
        ) && known_expr(resolve_expr(s, ast::Expr::Call(Box::new(c))).1),
    decreases c, 0nat,
{
    reveal_with_fuel(known_expr, 3);
    reveal_with_fuel(known_type, 2);
    let e = ast::Expr::Call(Box::new(c));
    let (after, result) = resolve_expr(s, e);
    lemma_anonymous_fresh(s);
    let (s1, identifier) = anonymous(s);
    lemma_typed_known(s, s1);
    lemma_resolve_expr(s1, c.target);
    let (s2, target) = resolve_expr(s1, c.target);
    lemma_resolve_exprs(s2, c.arguments@, c.arguments@.len());
    if quiet(s, after) {
        lemma_known_expr(s1, c.target);
        lemma_known_exprs(s2, c.arguments@, c.arguments@.len());
    }
}

proof fn lemma_known_channel(s: ResolverView, c: ast::ChannelExpr)
    requires
        known_state(s),
    ensures
        quiet(s, resolve_expr(s, ast::Expr::Channel(Box::new(c))).0) ==> known_state(
            resolve_expr(s, ast::Expr::Channel(Box::new(c))).0,
        ) && known_expr(resolve_expr(s, ast::Expr::Channel(Box::new(c))).1),
    decreases c, 0nat,
{
    reveal_with_fuel(known_expr, 3);
    reveal_with_fuel(known_type, 2);
    let e = ast::Expr::Channel(Box::new(c));
    let (after, result) = resolve_expr(s, e);
    lemma_anonymous_fresh(s);
    let (s1, identifier) = anonymous(s);
    lemma_typed_known(s, s1);
    lemma_resolve_expr(s1, c.lhs);
    let (s2, lhs) = resolve_expr(s1, c.lhs);
    lemma_resolve_expr(s2, c.rhs);
    if quiet(s, after) {
        lemma_known_expr(s1, c.lhs);
        lemma_known_expr(s2, c.rhs);
    }
}

proof fn lemma_known_deref(s: ResolverView, d: ast::DerefExpr)
    requires
        known_state(s),
    ensures
        quiet(s, resolve_expr(s, ast::Expr::Deref(Box::new(d))).0) ==> known_state(
            resolve_expr(s, ast::Expr::Deref(Box::new(d))).0,
        ) && known_expr(resolve_expr(s, ast::Expr::Deref(Box::new(d))).1),
    decreases d, 0nat,
{
    reveal_with_fuel(known_expr, 3);
    reveal_with_fuel(known_type, 2);
    let e = ast::Expr::Deref(Box::new(d));
    let (after, result) = resolve_expr(s, e);
    lemma_anonymous_fresh(s);
    let (s1, identifier) = anonymous(s);
    lemma_typed_known(s, s1);
    lemma_resolve_expr(s1, d.inner);
    if quiet(s, after) {
        lemma_known_expr(s1, d.inner);
    }
}

proof fn lemma_known_for(s: ResolverView, f: ast::ForExpr)
    requires
        known_state(s),
    ensures
        quiet(s, resolve_expr(s, ast::Expr::For(Box::new(f))).0) ==> known_state(
            resolve_expr(s, ast::Expr::For(Box::new(f))).0,
        ) && known_expr(resolve_expr(s, ast::Expr::For(Box::new(f))).1),
    decreases f, 0nat,
{
    reveal_with_fuel(known_expr, 3);
    reveal_with_fuel(known_type, 2);
    let e = ast::Expr::For(Box::new(f));
    let (after, result) = resolve_expr(s, e);
    lemma_anonymous_fresh(s);
    let (s1, identifier) = anonymous(s);
    lemma_typed_known(s, s1);
    lemma_resolve_expr(s1, f.iterator);
    let (s2, iterator) = resolve_expr(s1, f.iterator);
    let formals = loop_variables(f.formals@);
    lemma_resolve_block(s2, f.iteration, formals);
    let (s3, iteration) = resolve_block(s2, f.iteration, formals);
    lemma_report_loop_variables_typed(s3, f.formals@, f.formals@.len(), f.span@);
    lemma_loop_variables_reported(s3, f.formals@, f.formals@.len(), f.span@);
    if quiet(s, after) {
        assert(f.formals@.len() == 0);
        lemma_known_expr(s1, f.iterator);
        lemma_known_block(s2, f.iteration, formals);
        lemma_typed_known(s3, after);
    }
}

proof fn lemma_known_if(s: ResolverView, i: ast::IfExpr)
    requires
        known_state(s),
    ensures
        quiet(s, resolve_expr(s, ast::Expr::If(Box::new(i))).0) ==> known_state(
            resolve_expr(s, ast::Expr::If(Box::new(i))).0,
        ) && known_expr(resolve_expr(s, ast::Expr::If(Box::new(i))).1),
    decreases i, 0nat,
{
    reveal_with_fuel(known_expr, 3);
    reveal_with_fuel(known_type, 2);
    let e = ast::Expr::If(Box::new(i));
    let (after, result) = resolve_expr(s, e);
    lemma_anonymous_fresh(s);
    let (s1, identifier) = anonymous(s);
    lemma_typed_known(s, s1);
    lemma_resolve_expr(s1, i.condition);
    let (s2, condition) = resolve_expr(s1, i.condition);
    lemma_resolve_block(s2, i.then_block, Seq::empty());
    let (s3, then_block) = resolve_block(s2, i.then_block, Seq::empty());
    lemma_resolve_block(s3, i.else_block, Seq::empty());
    if quiet(s, after) {
        lemma_known_expr(s1, i.condition);
        lemma_known_block(s2, i.then_block, Seq::empty());
        lemma_known_block(s3, i.else_block, Seq::empty());
    }
}

proof fn lemma_known_item(s: ResolverView, i: ast::ItemExpr)
    requires
        known_state(s),
    ensures
        quiet(s, resolve_expr(s, ast::Expr::Item(Box::new(i))).0) ==> known_state(
            resolve_expr(s, ast::Expr::Item(Box::new(i))).0,
        ) && known_expr(resolve_expr(s, ast::Expr::Item(Box::new(i))).1),
    decreases i, 0nat,
{
    reveal_with_fuel(known_expr, 3);
    reveal_with_fuel(known_type, 2);
    let e = ast::Expr::Item(Box::new(i));
    let (after, result) = resolve_expr(s, e);
    lemma_anonymous_fresh(s);
    let (s1, identifier) = anonymous(s);
    lemma_typed_known(s, s1);
    if quiet(s, after) {
        lemma_known_lookup_path(s1, i.qualifier@, i.symbol@.name);
    }
}

proof fn lemma_known_list(s: ResolverView, l: ast::ListExpr)
    requires
        known_state(s),
    ensures
        quiet(s, resolve_expr(s, ast::Expr::List(Box::new(l))).0) ==> known_state(
            resolve_expr(s, ast::Expr::List(Box::new(l))).0,
        ) && known_expr(resolve_expr(s, ast::Expr::List(Box::new(l))).1),
    decreases l, 0nat,
{
    reveal_with_fuel(known_expr, 3);
    reveal_with_fuel(known_type, 2);
    let e = ast::Expr::List(Box::new(l));
    let (after, result) = resolve_expr(s, e);
    lemma_anonymous_fresh(s);
    let (s1, identifier) = anonymous(s);
    lemma_typed_known(s, s1);
    lemma_resolve_exprs(s1, l.elements@, l.elements@.len());
    if quiet(s, after) {
        lemma_known_exprs(s1, l.elements@, l.elements@.len());
    }
}

proof fn lemma_known_listrange(s: ResolverView, r: ast::ListRangeExpr)
    requires
        known_state(s),
    ensures
        quiet(s, resolve_expr(s, ast::Expr::ListRange(Box::new(r))).0) ==> known_state(
            resolve_expr(s, ast::Expr::ListRange(Box::new(r))).0,
        ) && known_expr(resolve_expr(s, ast::Expr::ListRange(Box::new(r))).1),
    decreases r, 0nat,
{
    reveal_with_fuel(known_expr, 3);
    reveal_with_fuel(known_type, 2);
    let e = ast::Expr::ListRange(Box::new(r));
    let (after, result) = resolve_expr(s, e);
    lemma_anonymous_fresh(s);
    let (s1, identifier) = anonymous(s);
    lemma_typed_known(s, s1);
    lemma_resolve_expr(s1, r.first);
    let (s2, first) = resolve_expr(s1, r.first);
    lemma_resolve_expr(s2, r.last);
    if quiet(s, after) {
        lemma_known_expr(s1, r.first);
        lemma_known_expr(s2, r.last);
    }
}

proof fn lemma_known_literal(s: ResolverView, l: ast::LiteralExpr)
    requires
        known_state(s),
    ensures
        quiet(s, resolve_expr(s, ast::Expr::Literal(Box::new(l))).0) ==> known_state(
            resolve_expr(s, ast::Expr::Literal(Box::new(l))).0,
        ) && known_expr(resolve_expr(s, ast::Expr::Literal(Box::new(l))).1),
    decreases l, 0nat,
{
    reveal_with_fuel(known_expr, 3);
    reveal_with_fuel(known_type, 2);
    let e = ast::Expr::Literal(Box::new(l));
    let (after, result) = resolve_expr(s, e);
    lemma_anonymous_fresh(s);
    let (s1, identifier) = anonymous(s);
    lemma_typed_known(s, s1);
    assert(known_literal(super::model::literal_of(l)));
}

proof fn lemma_known_ref(s: ResolverView, r: ast::RefExpr)
    requires
        known_state(s),
    ensures
        quiet(s, resolve_expr(s, ast::Expr::Ref(Box::new(r))).0) ==> known_state(
            resolve_expr(s, ast::Expr::Ref(Box::new(r))).0,
        ) && known_expr(resolve_expr(s, ast::Expr::Ref(Box::new(r))).1),
    decreases r, 0nat,
{
    reveal_with_fuel(known_expr, 3);
    reveal_with_fuel(known_type, 2);
    let e = ast::Expr::Ref(Box::new(r));
    let (after, result) = resolve_expr(s, e);
    lemma_anonymous_fresh(s);
    let (s1, identifier) = anonymous(s);
    lemma_typed_known(s, s1);
    lemma_resolve_expr(s1, r.inner);
    if quiet(s, after) {
        lemma_known_expr(s1, r.inner);
    }
}

proof fn lemma_known_select(s: ResolverView, sel: ast::SelectExpr)
    requires
        known_state(s),
    ensures
        quiet(s, resolve_expr(s, ast::Expr::Select(Box::new(sel))).0) ==> known_state(
            resolve_expr(s, ast::Expr::Select(Box::new(sel))).0,
        ) && known_expr(resolve_expr(s, ast::Expr::Select(Box::new(sel))).1),
    decreases sel, 0nat,
{
    reveal_with_fuel(known_expr, 3);
    reveal_with_fuel(known_type, 2);
    let e = ast::Expr::Select(Box::new(sel));
    let (after, result) = resolve_expr(s, e);
    lemma_anonymous_fresh(s);
    let (s1, identifier) = anonymous(s);
    lemma_typed_known(s, s1);
    lemma_resolve_exprs(s1, sel.alternatives@, sel.alternatives@.len());
}

proof fn lemma_known_tuple(s: ResolverView, t: ast::TupleExpr)
    requires
        known_state(s),
    ensures
        quiet(s, resolve_expr(s, ast::Expr::Tuple(Box::new(t))).0) ==> known_state(
            resolve_expr(s, ast::Expr::Tuple(Box::new(t))).0,
        ) && known_expr(resolve_expr(s, ast::Expr::Tuple(Box::new(t))).1),
    decreases t, 0nat,
{
    reveal_with_fuel(known_expr, 3);
    reveal_with_fuel(known_type, 2);
    let e = ast::Expr::Tuple(Box::new(t));
    let (after, result) = resolve_expr(s, e);
    lemma_anonymous_fresh(s);
    let (s1, identifier) = anonymous(s);
    lemma_typed_known(s, s1);
    lemma_resolve_exprs(s1, t.elements@, t.elements@.len());
    let (s2, values) = resolve_exprs(s1, t.elements@, t.elements@.len());
    lemma_tuple_elements_typed(s2, values, values.len(), t.span@);
    let (s3, elements) = tuple_elements(s2, values, values.len(), t.span@);
    lemma_allocate_typed(s3);
    if quiet(s, after) {
        lemma_known_exprs(s1, t.elements@, t.elements@.len());
        lemma_known_tuple_elements(s2, values, values.len(), t.span@);
        lemma_typed_known(s2, s3);
        lemma_typed_known(s3, after);
        let fields = tuple_fields(elements, values);
        assert forall|k: int| 0 <= k < fields.len() implies known_type((#[trigger] fields[k]).0.ty)
            && known_expr(fields[k].1) by {
            assert(known_type(elements[k].ty));
            assert(known_expr(values[k]));
        }
    }
}

proof fn lemma_known_void(s: ResolverView, v: ast::VoidExpr)
    requires
        known_state(s),
    ensures
        quiet(s, resolve_expr(s, ast::Expr::Void(Box::new(v))).0) ==> known_state(
            resolve_expr(s, ast::Expr::Void(Box::new(v))).0,
        ) && known_expr(resolve_expr(s, ast::Expr::Void(Box::new(v))).1),
    decreases v, 0nat,
{
    reveal_with_fuel(known_expr, 3);
    reveal_with_fuel(known_type, 2);
    let e = ast::Expr::Void(Box::new(v));
    let (after, result) = resolve_expr(s, e);
    lemma_anonymous_fresh(s);
    let (s1, identifier) = anonymous(s);
    lemma_typed_known(s, s1);
}

/// An expression that resolves without an error holds no type that is only
/// known by name, and leaves none in the state of the resolver.
pub proof fn lemma_known_expr(s: ResolverView, e: ast::Expr)
    requires
        known_state(s),
    ensures
        quiet(s, resolve_expr(s, e).0) ==> known_state(resolve_expr(s, e).0) && known_expr(
            resolve_expr(s, e).1,
        ),
    decreases e, 1nat,
{
    reveal_with_fuel(known_expr, 2);
    match e {
        ast::Expr::Assign(a) => {
            lemma_known_assign(s, *a);
        },
        ast::Expr::Call(c) => {
            lemma_known_call(s, *c);
        },
        ast::Expr::Channel(c) => {
            lemma_known_channel(s, *c);
        },
        ast::Expr::Deref(d) => {
            lemma_known_deref(s, *d);
        },
        ast::Expr::For(f) => {
            lemma_known_for(s, *f);
        },
        ast::Expr::If(i) => {
            lemma_known_if(s, *i);
        },
        ast::Expr::Item(i) => {
            lemma_known_item(s, *i);
        },
        ast::Expr::List(l) => {
            lemma_known_list(s, *l);
        },
        ast::Expr::ListRange(r) => {
            lemma_known_listrange(s, *r);
        },
        ast::Expr::Literal(l) => {
            lemma_known_literal(s, *l);
        },
        ast::Expr::Ref(r) => {
            lemma_known_ref(s, *r);
        },
        ast::Expr::Select(sel) => {
            lemma_known_select(s, *sel);
        },
        ast::Expr::Tuple(t) => {
            lemma_known_tuple(s, *t);
        },
        ast::Expr::Void(v) => {
            lemma_known_void(s, *v);
        },
        ast::Expr::Block(b) => {
            lemma_known_block(s, *b, Seq::empty());
        },
        ast::Expr::Operator(o) => {
            lemma_known_operator(s, *o);
        },
    }
}

/// Expressions that resolve without an error hold no type that is only
/// known by name.
pub proof fn lemma_known_exprs(s: ResolverView, es: Seq<ast::Expr>, n: nat)
    requires
        known_state(s),
    ensures
        quiet(s, resolve_exprs(s, es, n).0) ==> known_state(resolve_exprs(s, es, n).0)
            && known_exprs(resolve_exprs(s, es, n).1),
    decreases es, n,
{
    if !(n == 0 || n > es.len()) {
        lemma_resolve_exprs(s, es, (n - 1) as nat);
        let (s1, before) = resolve_exprs(s, es, (n - 1) as nat);
        lemma_resolve_expr(s1, es[n - 1]);
        if quiet(s, resolve_exprs(s, es, n).0) {
            lemma_known_exprs(s, es, (n - 1) as nat);
            lemma_known_expr(s1, es[n - 1]);
            let after = resolve_exprs(s, es, n).1;
            assert forall|k: int| 0 <= k < after.len() implies known_expr(#[trigger] after[k]) by {
                if k < before.len() {
                    assert(after[k] == before[k]);
                }
            }
        }
    }
}

/// A block that resolves without an error holds no type that is only known
/// by name.
pub proof fn lemma_known_block(s: ResolverView, b: ast::BlockExpr, variables: Seq<VariableView>)
    requires
        known_state(s),
        known_variables(variables),
    ensures
        quiet(s, resolve_block(s, b, variables).0) ==> known_state(
            resolve_block(s, b, variables).0,
        ) && known_block(resolve_block(s, b, variables).1),
    decreases b, 0nat,
{
    let (after, result) = resolve_block(s, b, variables);
    lemma_anonymous_fresh(s);
    let (s1, identifier) = anonymous(s);
    lemma_typed_known(s, s1);
    let s2 = push_block(s1, block_scope(identifier, variables));
    lemma_known_push_block(s1, block_scope(identifier, variables));
    lemma_resolve_exprs(s2, b.body@, b.body@.len());
    let (s3, body) = resolve_exprs(s2, b.body@, b.body@.len());
    lemma_resolve_expr(s3, b.ret);
    let (s4, ret) = resolve_expr(s3, b.ret);
    lemma_resolve_block(s, b, variables);
    if quiet(s, after) {
        lemma_known_exprs(s2, b.body@, b.body@.len());
        lemma_known_expr(s3, b.ret);
        lemma_known_pop_block(s4);
    }
}

/// An operator that resolves without an error holds no type that is only
/// known by name.
pub proof fn lemma_known_operator(s: ResolverView, o: ast::OperatorExpr)
    requires
        known_state(s),
    ensures
        quiet(s, resolve_operator(s, o).0) ==> known_state(resolve_operator(s, o).0)
            && known_expr(ExprView::Call(Box::new(resolve_operator(s, o).1))),
    decreases o, 0nat,
{
    reveal_with_fuel(known_expr, 2);
    let (after, result) = resolve_operator(s, o);
    lemma_anonymous_fresh(s);
    let (s1, identifier) = anonymous(s);
    lemma_typed_known(s, s1);
    match o {
        ast::OperatorExpr::Binary(b) => {
            lemma_resolve_expr(s1, b.lhs);
            let (s2, lhs) = resolve_expr(s1, b.lhs);
            lemma_resolve_expr(s2, b.rhs);
            let (s3, rhs) = resolve_expr(s2, b.rhs);
            lemma_operator_target(s3, b.operator, crate::air::typedef::typedef_expr(lhs));
            if quiet(s, after) {
                lemma_known_expr(s1, b.lhs);
                lemma_known_expr(s2, b.rhs);
                lemma_known_operator_target(
                    s3,
                    b.operator,
                    crate::air::typedef::typedef_expr(lhs),
                );
                lemma_typed_known(s3, after);
            }
        },
        ast::OperatorExpr::Prefix(p) => {
            lemma_resolve_expr(s1, p.rhs);
            let (s2, rhs) = resolve_expr(s1, p.rhs);
            lemma_operator_target(s2, p.operator, crate::air::typedef::typedef_expr(rhs));
            if quiet(s, after) {
                lemma_known_expr(s1, p.rhs);
                lemma_known_operator_target(
                    s2,
                    p.operator,
                    crate::air::typedef::typedef_expr(rhs),
                );
                lemma_typed_known(s2, after);
            }
        },
        ast::OperatorExpr::Suffix(x) => {
            lemma_resolve_expr(s1, x.lhs);
            let (s2, lhs) = resolve_expr(s1, x.lhs);
            lemma_operator_target(s2, x.operator, crate::air::typedef::typedef_expr(lhs));
            if quiet(s, after) {
                lemma_known_expr(s1, x.lhs);
                lemma_known_operator_target(
                    s2,
                    x.operator,
                    crate::air::typedef::typedef_expr(lhs),
                );
                lemma_typed_known(s2, after);
            }
        },
    }
}

/// Putting a known entry into a known table gives a known table.
pub proof fn lemma_known_put_function(
    table: Seq<(IdentifierView, FunctionView)>,
    key: IdentifierView,
    value: FunctionView,
)
    requires
        known_functions(table),
        known_function(value),
    ensures
        known_functions(spec_put(table, key, value)),
{
    lemma_put_found(table, key, value);
    let after = spec_put(table, key, value);
    let at = first_with_id(table_keys(after), key.id, 0)->0;
    assert forall|i: int| 0 <= i < after.len() implies known_function((#[trigger] after[i]).1) by {
        if i != at {
            assert(after[i] == table[i]);
        }
    }
}

/// Putting a known entry into a known table gives a known table.
pub proof fn lemma_known_put_module(
    table: Seq<(IdentifierView, ModuleView)>,
    key: IdentifierView,
    value: ModuleView,
)
    requires
        known_modules(table),
        known_module(value),
    ensures
        known_modules(spec_put(table, key, value)),
{
    lemma_put_found(table, key, value);
    let after = spec_put(table, key, value);
    let at = first_with_id(table_keys(after), key.id, 0)->0;
    assert forall|i: int| 0 <= i < after.len() implies known_module((#[trigger] after[i]).1) by {
        if i != at {
            assert(after[i] == table[i]);
        }
    }
}

/// Putting a known entry into a known table gives a known table.
pub proof fn lemma_known_put_type(
    table: Seq<(IdentifierView, TypeView)>,
    key: IdentifierView,
    value: TypeView,
)
    requires
        known_type_table(table),
        known_type(value),
    ensures
        known_type_table(spec_put(table, key, value)),
{
    lemma_put_found(table, key, value);
    let after = spec_put(table, key, value);
    let at = first_with_id(table_keys(after), key.id, 0)->0;
    assert forall|i: int| 0 <= i < after.len() implies known_type((#[trigger] after[i]).1) by {
        if i != at {
            assert(after[i] == table[i]);
        }
    }
}

/// Writing a known function keeps every type known.
pub proof fn lemma_known_store_function(s: ResolverView, f: FunctionView)
    requires
        known_state(s),
        known_function(f),
    ensures
        known_state(store_function(s, f)),
{
    let after = store_function(s, f);
    lemma_known_put_function(s.context.function_table, f.symbol, f);
    if s.modules.len() > 0 {
        let top = s.modules.last();
        assert(known_module(top));
        lemma_known_put_function(top.function_table, f.symbol, f);
        assert forall|i: int| 0 <= i < after.modules.len() implies known_module(
            #[trigger] after.modules[i],
        ) by {
            if i < after.modules.len() - 1 {
                assert(after.modules[i] == s.modules[i]);
            }
        }
    }
}

/// Writing a known module keeps every type known.
pub proof fn lemma_known_store_module(s: ResolverView, m: ModuleView)
    requires
        known_state(s),
        known_module(m),
    ensures
        known_state(store_module(s, m)),
{
    let after = store_module(s, m);
    lemma_known_put_module(s.context.module_table, m.symbol, m);
    if s.modules.len() > 0 {
        let top = s.modules.last();
        assert(known_module(top));
        lemma_known_put_module(top.module_table, m.symbol, m);
        assert forall|i: int| 0 <= i < after.modules.len() implies known_module(
            #[trigger] after.modules[i],
        ) by {
            if i < after.modules.len() - 1 {
                assert(after.modules[i] == s.modules[i]);
            }
        }
    }
}

/// Writing a known type keeps every type known.
pub proof fn lemma_known_store_type(s: ResolverView, symbol: IdentifierView, t: TypeView)
    requires
        known_state(s),
        known_type(t),
    ensures
        known_state(store_type(s, symbol, t)),
{
    let after = store_type(s, symbol, t);
    lemma_known_put_type(s.context.type_table, symbol, t);
    if s.modules.len() > 0 {
        let top = s.modules.last();
        assert(known_module(top));
        lemma_known_put_type(top.type_table, symbol, t);
        assert forall|i: int| 0 <= i < after.modules.len() implies known_module(
            #[trigger] after.modules[i],
        ) by {
            if i < after.modules.len() - 1 {
                assert(after.modules[i] == s.modules[i]);
            }
        }
    }
}

/// A function that is declared without an error keeps every type known.
pub proof fn lemma_known_declare_function(s: ResolverView, f: FunctionView, span: SpanView)
    requires
        known_state(s),
        known_function(f),
    ensures
        quiet(s, declare_function(s, f, span).0) ==> known_state(declare_function(s, f, span).0),
{
    lemma_known_store_function(s, f);
}

/// Opening the outermost scope keeps every type known.
pub proof fn lemma_known_open_root(s: ResolverView)
    requires
        known_state(s),
    ensures
        known_state(open_root(s)),
        quiet(s, open_root(s)),
{
    let (s1, identifier) = anonymous(s);
    lemma_allocate_typed(s);
    lemma_typed_known(s, s1);
    let after = open_root(s);
    assert forall|i: int| 0 <= i < after.modules.len() implies known_module(
        #[trigger] after.modules[i],
    ) by {
        if i < s.modules.len() {
            assert(after.modules[i] == s.modules[i]);
        }
    }
}

/// The profile of a function that resolves without an error holds no type
/// that is only known by name.
pub proof fn lemma_known_function_profile(s: ResolverView, d: ast::FunctionDecl)
    requires
        known_state(s),
    ensures
        quiet(s, resolve_function_profile(s, d).0) ==> known_state(
            resolve_function_profile(s, d).0,
        ) && (resolve_function_profile(s, d).1 matches Some(p) ==> known_function(p)),
{
    let (after, result) = resolve_function_profile(s, d);
    lemma_first_with_id(table_keys(s.context.function_table), d.symbol@.id, 0);
    match first_with_id(table_keys(s.context.function_table), d.symbol@.id, 0) {
        Some(i) => {
            assert(known_function(s.context.function_table[i].1));
        },
        None => {
            lemma_resolve_variables_typed(s, d.formals@, d.formals@.len());
            let (s1, formals) = resolve_variables(s, d.formals@, d.formals@.len());
            lemma_resolve_type_typed(s1, d.ret);
            let (s2, ret) = resolve_type(s1, d.ret);
            if quiet(s, after) {
                lemma_known_variables(s, d.formals@, d.formals@.len());
                lemma_typed_known(s, s1);
                lemma_known_type(s1, d.ret);
                lemma_typed_known(s1, s2);
                let f = FunctionView { symbol: d.symbol@, formals, ret, body: None };
                lemma_known_store_function(s2, f);
            }
        },
    }
}

/// The body of a function that resolves without an error holds no type
/// that is only known by name.
pub proof fn lemma_known_body(s: ResolverView, e: ast::Expr)
    requires
        known_state(s),
    ensures
        quiet(s, resolve_body(s, e).0) ==> known_state(resolve_body(s, e).0) && known_block(
            resolve_body(s, e).1,
        ),
{
    match e {
        ast::Expr::Block(b) => {
            lemma_known_block(s, *b, Seq::empty());
        },
        _ => {
            let (after, result) = resolve_body(s, e);
            lemma_anonymous_fresh(s);
            let (s1, identifier) = anonymous(s);
            lemma_typed_known(s, s1);
            let s2 = push_block(s1, block_scope(identifier, Seq::empty()));
            lemma_known_push_block(s1, block_scope(identifier, Seq::empty()));
            lemma_resolve_expr(s2, e);
            let (s3, ret) = resolve_expr(s2, e);
            if quiet(s, after) {
                lemma_known_expr(s2, e);
                lemma_known_pop_block(s3);
                assert(s3.blocks.len() > 0);
            }
        },
    }
}

/// A function that resolves without an error holds no type that is only
/// known by name, and it has a body exactly if it is not extern.
pub proof fn lemma_known_function(s: ResolverView, d: ast::FunctionDecl)
    requires
        known_state(s),
    ensures
        quiet(s, resolve_function(s, d).0) ==> known_state(resolve_function(s, d).0) && (
        resolve_function(s, d).1 matches Some(f) ==> known_function(f) && (f.body is None
            <==> d.is_extern)),
{
    let (after, result) = resolve_function(s, d);
    lemma_resolve_function_profile(s.next, s, d);
    let (s1, profile) = resolve_function_profile(s, d);
    match profile {
        None => {
            lemma_known_function_profile(s, d);
        },
        Some(p) => {
            let s2 = push_function(s1, p);
            if !d.is_extern && d.body is Some {
                lemma_resolve_body(s2, d.body->0);
            }
            let (s3, body) = if d.is_extern {
                (s2, None)
            } else {
                match d.body {
                    Some(e) => {
                        let (s3, block) = resolve_body(s2, e);
                        (s3, Some(block))
                    },
                    None => (s2, None),
                }
            };
            let f = FunctionView { body, ..p };
            let s4 = pop_function(s3);
            assert(s4.functions =~= s1.functions);
            if quiet(s, after) {
                lemma_known_function_profile(s, d);
                assert(known_state(s2)) by {
                    assert forall|i: int| 0 <= i < s2.functions.len() implies known_function(
                        #[trigger] s2.functions[i],
                    ) by {
                        if i < s1.functions.len() {
                            assert(s2.functions[i] == s1.functions[i]);
                        }
                    }
                }
                if !d.is_extern && d.body is Some {
                    lemma_known_body(s2, d.body->0);
                }
                assert(known_state(s4)) by {
                    assert forall|i: int| 0 <= i < s4.functions.len() implies known_function(
                        #[trigger] s4.functions[i],
                    ) by {
                        assert(s4.functions[i] == s1.functions[i]);
                    }
                }
                lemma_known_store_function(s4, f);
            }
        },
    }
}

/// The types that stand for the parameters of a declared type are known.
pub proof fn lemma_known_generics(params: Seq<Symbol>)
    ensures
        known_types(generics_of(params)),
        known_type_table(generics_table(params)),
{
    reveal_with_fuel(known_type, 2);
    let generics = generics_of(params);
    assert forall|i: int| 0 <= i < generics.len() implies known_type(#[trigger] generics[i]) by {
        assert(known_types(Seq::<TypeView>::empty()));
    }
    assert forall|i: int| 0 <= i < generics_table(params).len() implies known_type(
        (#[trigger] generics_table(params)[i]).1,
    ) by {
        assert(generics_table(params)[i].1 == generics[i]);
    }
}

/// What a declared type is, where it resolves without an error, holds no
/// type that is only known by name.
pub proof fn lemma_known_type_kind(s: ResolverView, d: ast::TypeDecl)
    requires
        known_state(s),
    ensures
        quiet(s, resolve_type_kind(s, d).0) ==> known_type(resolve_type_kind(s, d).1),
{
    reveal_with_fuel(known_type, 3);
    let generics = generics_of(d.params@);
    lemma_known_generics(d.params@);
    match d.kind {
        ast::TypeDeclKind::Alias(t) => {
            lemma_known_type(s, t);
        },
        ast::TypeDeclKind::Enum(variants) => {
            lemma_known_variables(s, variants@, variants@.len());
        },
        ast::TypeDeclKind::Struct(fields) => {
            lemma_known_variables(s, fields@, fields@.len());
        },
    }
}

/// The declaration of a type that resolves without an error holds no type
/// that is only known by name.
pub proof fn lemma_known_type_decl(s: ResolverView, d: ast::TypeDecl)
    requires
        known_state(s),
    ensures
        quiet(s, resolve_type_decl(s, d).0) ==> known_state(resolve_type_decl(s, d).0) && (
        resolve_type_decl(s, d).1 matches Some(t) ==> known_type(t)),
{
    reveal_with_fuel(known_type, 2);
    let (after, result) = resolve_type_decl(s, d);
    lemma_anonymous_fresh(s);
    let (s1, identifier) = anonymous(s);
    lemma_typed_known(s, s1);
    let scope = BlockScopeView {
        type_table: generics_table(d.params@),
        ..block_scope(identifier, Seq::empty())
    };
    lemma_known_generics(d.params@);
    assert(known_scope(scope));
    let s2 = push_block(s1, scope);
    lemma_known_push_block(s1, scope);
    lemma_resolve_type_kind_typed(s2, d);
    let (s3, t) = resolve_type_kind(s2, d);
    let s4 = pop_block(s3);
    if quiet(s, after) {
        lemma_known_type_kind(s2, d);
        lemma_typed_known(s2, s3);
        lemma_known_pop_block(s3);
        lemma_known_store_type(s4, d.symbol@, t);
    }
}

/// One pass over the declarations of a module that records no error leaves
/// no type that is only known by name.
pub proof fn lemma_known_statements(
    s: ResolverView,
    statements: Seq<ast::Statement>,
    n: nat,
    phase: Phase,
)
    requires
        known_state(s),
    ensures
        quiet(s, resolve_statements(s, statements, n, phase)) ==> known_state(
            resolve_statements(s, statements, n, phase),
        ),
    decreases statements, n,
{
    if !(n == 0 || n > statements.len()) {
        lemma_resolve_statements(s.next, s, statements, (n - 1) as nat, phase);
        let s1 = resolve_statements(s, statements, (n - 1) as nat, phase);
        let after = resolve_statements(s, statements, n, phase);
        lemma_resolve_statements(s.next, s, statements, n, phase);
        match (phase, statements[n - 1]) {
            (Phase::Modules, ast::Statement::Module(m)) => {
                lemma_resolve_module(s1.next, s1, m);
                if quiet(s, after) {
                    lemma_known_statements(s, statements, (n - 1) as nat, phase);
                    lemma_known_module(s1, m);
                }
            },
            (Phase::Types, ast::Statement::Type(t)) => {
                lemma_resolve_type_decl(s1.next, s1, t);
                if quiet(s, after) {
                    lemma_known_statements(s, statements, (n - 1) as nat, phase);
                    lemma_known_type_decl(s1, t);
                }
            },
            (Phase::Profiles, ast::Statement::Function(f)) => {
                lemma_resolve_function_profile(s1.next, s1, f);
                if quiet(s, after) {
                    lemma_known_statements(s, statements, (n - 1) as nat, phase);
                    lemma_known_function_profile(s1, f);
                }
            },
            (Phase::Bodies, ast::Statement::Function(f)) => {
                lemma_resolve_function(s1.next, s1, f);
                if quiet(s, after) {
                    lemma_known_statements(s, statements, (n - 1) as nat, phase);
                    if has_profile(s1, f) {
                        lemma_known_function(s1, f);
                    }
                }
            },
            _ => {
                lemma_known_statements(s, statements, (n - 1) as nat, phase);
            },
        }
    }
}

/// A module that resolves without an error holds no type that is only
/// known by name: not in a type that it declares, not in the profile of a
/// function, and not in a body.
pub proof fn lemma_known_module(s: ResolverView, d: ast::ModuleDecl)
    requires
        known_state(s),
    ensures
        quiet(s, resolve_module(s, d).0) ==> known_state(resolve_module(s, d).0) && (
        resolve_module(s, d).1 matches Some(m) ==> known_module(m)),
    decreases d, 1nat,
{
    let (after, result) = resolve_module(s, d);
    let empty = super::model::module_profile(d.identifier@);
    if !spec_clashes(module_scope(s), empty.symbol) {
        let s0 = store_module(s, empty);
        let s1 = push_module(s0, empty);
        let n = d.statements@.len();
        let s2 = resolve_statements(s1, d.statements@, n, Phase::Modules);
        let s3 = resolve_statements(s2, d.statements@, n, Phase::Types);
        let s4 = resolve_statements(s3, d.statements@, n, Phase::Profiles);
        let s5 = resolve_statements(s4, d.statements@, n, Phase::Bodies);
        lemma_resolve_statements(s1.next, s1, d.statements@, n, Phase::Modules);
        lemma_resolve_statements(s1.next, s2, d.statements@, n, Phase::Types);
        lemma_resolve_statements(s1.next, s3, d.statements@, n, Phase::Profiles);
        lemma_resolve_statements(s1.next, s4, d.statements@, n, Phase::Bodies);
        if quiet(s, after) {
            lemma_known_store_module(s, empty);
            assert(known_state(s1)) by {
                assert forall|i: int| 0 <= i < s1.modules.len() implies known_module(
                    #[trigger] s1.modules[i],
                ) by {
                    if i < s0.modules.len() {
                        assert(s1.modules[i] == s0.modules[i]);
                    }
                }
            }
            lemma_known_passes(s1, d);
            let m = s5.modules.last();
            assert(known_module(m));
            let s6 = pop_module(s5);
            assert(known_state(s6)) by {
                assert forall|i: int| 0 <= i < s6.modules.len() implies known_module(
                    #[trigger] s6.modules[i],
                ) by {
                    assert(s6.modules[i] == s5.modules[i]);
                }
            }
            lemma_known_store_module(s6, m);
        }
    }
}

/// The four passes over the declarations of a module.
proof fn lemma_known_passes(s: ResolverView, d: ast::ModuleDecl)
    requires
        known_state(s),
    ensures
        ({
            let n = d.statements@.len();
            let s2 = resolve_statements(s, d.statements@, n, Phase::Modules);
            let s3 = resolve_statements(s2, d.statements@, n, Phase::Types);
            let s4 = resolve_statements(s3, d.statements@, n, Phase::Profiles);
            let s5 = resolve_statements(s4, d.statements@, n, Phase::Bodies);
            quiet(s, s5) ==> known_state(s5)
        }),
    decreases d, 0nat,
{
    let n = d.statements@.len();
    let s2 = resolve_statements(s, d.statements@, n, Phase::Modules);
    let s3 = resolve_statements(s2, d.statements@, n, Phase::Types);
    let s4 = resolve_statements(s3, d.statements@, n, Phase::Profiles);
    let s5 = resolve_statements(s4, d.statements@, n, Phase::Bodies);
    lemma_resolve_statements(s.next, s, d.statements@, n, Phase::Modules);
    lemma_resolve_statements(s.next, s2, d.statements@, n, Phase::Types);
    lemma_resolve_statements(s.next, s3, d.statements@, n, Phase::Profiles);
    lemma_resolve_statements(s.next, s4, d.statements@, n, Phase::Bodies);
    if quiet(s, s5) {
        lemma_known_statements(s, d.statements@, n, Phase::Modules);
        lemma_known_statements(s2, d.statements@, n, Phase::Types);
        lemma_known_statements(s3, d.statements@, n, Phase::Profiles);
        lemma_known_statements(s4, d.statements@, n, Phase::Bodies);
    }
}

/// In the state of a resolver that holds no declaration and has no scope
/// open, no type is only known by name.
pub proof fn lemma_known_at_first(s: ResolverView)
    requires
        s.context.function_table.len() == 0,
        s.context.module_table.len() == 0,
        s.context.type_table.len() == 0,
        s.modules.len() == 0,
        s.functions.len() == 0,
        s.blocks.len() == 0,
    ensures
        known_state(s),
{
}

/// Functions that are declared without an error keep every type known.
pub proof fn lemma_known_declare_functions(
    s: ResolverView,
    fs: Seq<FunctionView>,
    n: nat,
    span: SpanView,
)
    requires
        known_state(s),
        forall|i: int| 0 <= i < fs.len() ==> known_function(#[trigger] fs[i]),
    ensures
        known_state(super::model::declare_functions(s, fs, n, span)),
    decreases n,
{
    if !(n == 0 || n > fs.len()) {
        lemma_known_declare_functions(s, fs, (n - 1) as nat, span);
        let s1 = super::model::declare_functions(s, fs, (n - 1) as nat, span);
        assert(known_function(fs[n - 1]));
        lemma_known_store_function(s1, fs[n - 1]);
    }
}

/// The functions that the language brings along hold no type that is only
/// known by name.
pub proof fn lemma_known_prelude(next: u64, exhausted: bool, n: nat)
    ensures
        forall|i: int|
            0 <= i < crate::air::prelude::spec_prelude(next, exhausted, n).0.len()
                ==> known_function(
                #[trigger] crate::air::prelude::spec_prelude(next, exhausted, n).0[i],
            ),
    decreases n,
{
    reveal_with_fuel(known_type, 2);
    if n > 0 {
        lemma_known_prelude(next, exhausted, (n - 1) as nat);
        let before = crate::air::prelude::spec_prelude(next, exhausted, (n - 1) as nat).0;
        let all = crate::air::prelude::spec_prelude(next, exhausted, n).0;
        assert forall|i: int| 0 <= i < all.len() implies known_function(#[trigger] all[i]) by {
            if i < before.len() {
                assert(all[i] == before[i]);
            }
        }
    }
}

/// Declaring the functions that the language brings along keeps every
/// type known.
pub proof fn lemma_known_declare_prelude(s: ResolverView, span: SpanView)
    requires
        known_state(s),
    ensures
        known_state(super::model::declare_prelude(s, span)),
{
    let n = crate::air::prelude::PRELUDE_LEN as nat;
    lemma_known_prelude(s.next, s.exhausted, n);
    let (functions, next, exhausted) = crate::air::prelude::spec_prelude(s.next, s.exhausted, n);
    lemma_known_declare_functions(ResolverView { next, exhausted, ..s }, functions, n, span);
}

/// What the resolver hands on, where it resolves without an error, holds
/// no type that is only known by name.
pub proof fn lemma_known_resolve(s: ResolverView, node: ast::Ast)
    requires
        known_state(s),
    ensures
        quiet(s, super::model::resolve(s, node).0) ==> known_state(
            super::model::resolve(s, node).0,
        ) && (match super::model::resolve(s, node).1 {
            super::model::AirView::Expr(e) => known_expr(e),
            super::model::AirView::Module(m) => known_module(m),
            super::model::AirView::Nil => true,
        }),
{
    match node {
        ast::Ast::Expr(e) => {
            lemma_known_expr(s, e);
        },
        ast::Ast::Module(d) => {
            lemma_known_module(s, d);
        },
        ast::Ast::Nil => {},
    }
}

} // verus!
