//! What resolution means. Each step of resolution is a function from the
//! state of the resolver and a piece of syntax to the state afterwards and
//! the resolved piece.

use vstd::prelude::*;
use crate::air::table::{first_with_id, first_with_name, spec_clashes, spec_put, table_keys};
use crate::air::typedef::typedef_expr;
use crate::air::{
    AliasTypeView, BlockExprView, CallExprView, ContextView, DerefExprView, EnumTypeView, ExprView,
    ForExprView, FunctionView, GenericTypeView, IfExprView, ItemExprView, ItemView, LambdaTypeView,
    LetExprView, LiteralExprView, LiteralView, ModuleView, PtrTypeView, RefExprView, RefTypeView,
    StructExprView, StructTypeView, TypeView, UnresolvedTypeView, VariableView, VoidExprView,
};
use crate::ast;
use crate::bair::PrimitiveType;
use crate::identifier::{IdentifierView, Symbol};
use crate::lexer::span::SpanView;
use super::scope::{BlockScopeView, ResolverErrKind, ResolverErrView, ResolverView};

verus! {

// ---------------------------------------------------------------------
// Identities and errors
// ---------------------------------------------------------------------
/// Take the next identity. At the top of the range the counter stays and
/// the state records that the identities have run out.
pub open spec fn allocate(s: ResolverView) -> (ResolverView, u64) {
    (
        ResolverView {
            next: if s.next < u64::MAX {
                (s.next + 1) as u64
            } else {
                u64::MAX
            },
            exhausted: s.exhausted || s.next == u64::MAX,
            ..s
        },
        s.next,
    )
}

/// Take a fresh identifier without a name.
pub open spec fn anonymous(s: ResolverView) -> (ResolverView, IdentifierView) {
    let (s1, id) = allocate(s);
    (s1, IdentifierView { id, name: Seq::empty() })
}

/// Record an error.
pub open spec fn report(
    s: ResolverView,
    kind: ResolverErrKind,
    name: Seq<char>,
    span: SpanView,
) -> ResolverView {
    ResolverView { errors: s.errors.push(ResolverErrView { kind, name, span }), ..s }
}

// ---------------------------------------------------------------------
// Scopes
// ---------------------------------------------------------------------
/// A block scope in which nothing is declared but the given variables.
pub open spec fn block_scope(identifier: IdentifierView, variables: Seq<VariableView>) -> BlockScopeView {
    BlockScopeView {
        identifier,
        variables,
        function_table: Seq::empty(),
        module_table: Seq::empty(),
        type_table: Seq::empty(),
    }
}

/// Open a block.
pub open spec fn push_block(s: ResolverView, scope: BlockScopeView) -> ResolverView {
    ResolverView { blocks: s.blocks.push(scope), ..s }
}

/// Close the innermost block.
pub open spec fn pop_block(s: ResolverView) -> ResolverView {
    if s.blocks.len() > 0 {
        ResolverView { blocks: s.blocks.drop_last(), ..s }
    } else {
        s
    }
}

/// The innermost open block; where none is open, an empty scope under the
/// given identifier.
pub open spec fn top_block(s: ResolverView, identifier: IdentifierView) -> BlockScopeView {
    if s.blocks.len() > 0 {
        s.blocks.last()
    } else {
        block_scope(identifier, Seq::empty())
    }
}

/// Bring a variable into the innermost open block. Where no block is open
/// the variable is brought into no scope.
pub open spec fn register_variable(s: ResolverView, variable: VariableView) -> ResolverView {
    if s.blocks.len() > 0 {
        let top = s.blocks.last();
        ResolverView {
            blocks: s.blocks.update(
                s.blocks.len() - 1,
                BlockScopeView { variables: top.variables.push(variable), ..top },
            ),
            ..s
        }
    } else {
        s
    }
}

/// Open a function.
pub open spec fn push_function(s: ResolverView, function: FunctionView) -> ResolverView {
    ResolverView { functions: s.functions.push(function), ..s }
}

/// Close the innermost function.
pub open spec fn pop_function(s: ResolverView) -> ResolverView {
    if s.functions.len() > 0 {
        ResolverView { functions: s.functions.drop_last(), ..s }
    } else {
        s
    }
}

/// Open a module.
pub open spec fn push_module(s: ResolverView, module: ModuleView) -> ResolverView {
    ResolverView { modules: s.modules.push(module), ..s }
}

/// Close the innermost module.
pub open spec fn pop_module(s: ResolverView) -> ResolverView {
    if s.modules.len() > 0 {
        ResolverView { modules: s.modules.drop_last(), ..s }
    } else {
        s
    }
}

// ---------------------------------------------------------------------
// Name lookup
// ---------------------------------------------------------------------
/// The profile of a function: the function without its body.
pub open spec fn profile_of(function: FunctionView) -> FunctionView {
    FunctionView { body: None, ..function }
}

/// The profile of a module: its symbol alone.
pub open spec fn module_profile(symbol: IdentifierView) -> ModuleView {
    ModuleView {
        symbol,
        function_table: Seq::empty(),
        module_table: Seq::empty(),
        type_table: Seq::empty(),
    }
}

/// The place of the last of the first `upto` variables that has the given
/// display name.
pub open spec fn last_named(variables: Seq<VariableView>, name: Seq<char>, upto: int) -> Option<int>
    decreases upto,
{
    if upto <= 0 || upto > variables.len() {
        None
    } else if variables[upto - 1].symbol.name == name {
        Some(upto - 1)
    } else {
        last_named(variables, name, upto - 1)
    }
}

/// The variable that a name refers to among the given ones: the last one
/// with that display name.
pub open spec fn lookup_variables(variables: Seq<VariableView>, name: Seq<char>) -> Option<ItemView> {
    match last_named(variables, name, variables.len() as int) {
        Some(i) => Some(ItemView::Variable(Box::new(variables[i]))),
        None => None,
    }
}

/// The declaration that a name refers to in the tables of one scope: the
/// first function with that display name, else the first module, else the
/// first type.
pub open spec fn lookup_tables(
    functions: Seq<(IdentifierView, FunctionView)>,
    modules: Seq<(IdentifierView, ModuleView)>,
    types: Seq<(IdentifierView, TypeView)>,
    name: Seq<char>,
) -> Option<ItemView> {
    match first_with_name(table_keys(functions), name, 0) {
        Some(i) => Some(ItemView::Function(Box::new(profile_of(functions[i].1)))),
        None => match first_with_name(table_keys(modules), name, 0) {
            Some(i) => Some(ItemView::Module(Box::new(module_profile(modules[i].1.symbol)))),
            None => match first_with_name(table_keys(types), name, 0) {
                Some(i) => Some(ItemView::Type(Box::new(types[i].1))),
                None => None,
            },
        },
    }
}

/// What a name refers to in one open block: a variable of the block, else
/// a declaration of the block.
pub open spec fn lookup_block(scope: BlockScopeView, name: Seq<char>) -> Option<ItemView> {
    match lookup_variables(scope.variables, name) {
        Some(item) => Some(item),
        None => lookup_tables(scope.function_table, scope.module_table, scope.type_table, name),
    }
}

/// What a name refers to in the innermost `upto` of the open blocks, the
/// innermost first.
pub open spec fn lookup_blocks(blocks: Seq<BlockScopeView>, name: Seq<char>, upto: int) -> Option<
    ItemView,
>
    decreases upto,
{
    if upto <= 0 || upto > blocks.len() {
        None
    } else {
        match lookup_block(blocks[upto - 1], name) {
            Some(item) => Some(item),
            None => lookup_blocks(blocks, name, upto - 1),
        }
    }
}

/// What a name refers to among the formals of the open functions, the
/// innermost function first.
pub open spec fn lookup_functions(functions: Seq<FunctionView>, name: Seq<char>, upto: int) -> Option<
    ItemView,
>
    decreases upto,
{
    if upto <= 0 || upto > functions.len() {
        None
    } else {
        match lookup_variables(functions[upto - 1].formals, name) {
            Some(item) => Some(item),
            None => lookup_functions(functions, name, upto - 1),
        }
    }
}

/// What a name refers to among the declarations of the open modules, the
/// innermost module first.
pub open spec fn lookup_modules(modules: Seq<ModuleView>, name: Seq<char>, upto: int) -> Option<
    ItemView,
>
    decreases upto,
{
    if upto <= 0 || upto > modules.len() {
        None
    } else {
        let m = modules[upto - 1];
        match lookup_tables(m.function_table, m.module_table, m.type_table, name) {
            Some(item) => Some(item),
            None => lookup_modules(modules, name, upto - 1),
        }
    }
}

/// What a name refers to: the first match in the open blocks, then in the
/// formals of the open functions, then in the open modules, each from the
/// innermost outwards. The first match wins.
pub open spec fn lookup(s: ResolverView, name: Seq<char>) -> Option<ItemView> {
    match lookup_blocks(s.blocks, name, s.blocks.len() as int) {
        Some(item) => Some(item),
        None => match lookup_functions(s.functions, name, s.functions.len() as int) {
            Some(item) => Some(item),
            None => lookup_modules(s.modules, name, s.modules.len() as int),
        },
    }
}

/// What a name refers to inside an item: the item must be a module, and
/// the name is looked up in the declarations that the context holds for
/// that module.
pub open spec fn lookup_member(context: ContextView, item: ItemView, name: Seq<char>) -> Option<
    ItemView,
> {
    match item {
        ItemView::Module(m) => match first_with_id(
            table_keys(context.module_table),
            m.symbol.id,
            0,
        ) {
            Some(i) => {
                let full = context.module_table[i].1;
                lookup_tables(full.function_table, full.module_table, full.type_table, name)
            },
            None => None,
        },
        _ => None,
    }
}

/// What the first `n` symbols of a qualifier refer to: the first symbol is
/// looked up in the open scopes, every further one inside what the symbols
/// before it refer to.
pub open spec fn lookup_qualifier(s: ResolverView, qualifier: Seq<Symbol>, n: nat) -> Option<ItemView>
    decreases n,
{
    if n == 0 || n > qualifier.len() {
        None
    } else if n == 1 {
        lookup(s, qualifier[0]@.name)
    } else {
        match lookup_qualifier(s, qualifier, (n - 1) as nat) {
            Some(item) => lookup_member(s.context, item, qualifier[n - 1]@.name),
            None => None,
        }
    }
}

/// What a name refers to that may be qualified by a path of modules.
pub open spec fn lookup_path(s: ResolverView, qualifier: Seq<Symbol>, name: Seq<char>) -> Option<
    ItemView,
> {
    if qualifier.len() == 0 {
        lookup(s, name)
    } else {
        match lookup_qualifier(s, qualifier, qualifier.len()) {
            Some(item) => lookup_member(s.context, item, name),
            None => None,
        }
    }
}

// ---------------------------------------------------------------------
// Names
// ---------------------------------------------------------------------
/// The name of an operator.
pub open spec fn operator_name(kind: ast::OperatorKind) -> Seq<char> {
    match kind {
        ast::OperatorKind::Add => "add"@,
        ast::OperatorKind::AddEq => "addeq"@,
        ast::OperatorKind::And => "and"@,
        ast::OperatorKind::Assign => "assign"@,
        ast::OperatorKind::Div => "div"@,
        ast::OperatorKind::DivEq => "diveq"@,
        ast::OperatorKind::Equal => "equal"@,
        ast::OperatorKind::GreaterThan => "greaterthan"@,
        ast::OperatorKind::GreaterThanEq => "greaterthaneq"@,
        ast::OperatorKind::LessThan => "lessthan"@,
        ast::OperatorKind::LessThanEq => "lessthaneq"@,
        ast::OperatorKind::Mul => "mul"@,
        ast::OperatorKind::MulEq => "muleq"@,
        ast::OperatorKind::Or => "or"@,
        ast::OperatorKind::PushPop => "pushpop"@,
        ast::OperatorKind::Sub => "sub"@,
        ast::OperatorKind::SubEq => "subeq"@,
    }
}

/// The name of the function that stands for an operator on operands of a
/// primitive type.
pub open spec fn operator_function_name(kind: ast::OperatorKind, p: PrimitiveType) -> Seq<char> {
    "__libprelude__"@ + operator_name(kind) + "_"@ + p.spec_name()
}

// ---------------------------------------------------------------------
// Types and variables
// ---------------------------------------------------------------------
/// The type that is only known by the given symbol.
pub open spec fn unresolved(symbol: IdentifierView) -> TypeView {
    TypeView::Unresolved(Box::new(UnresolvedTypeView { symbol }))
}

/// Resolve a type that is given by name. A name without qualifier that is
/// the name of a primitive type denotes that type. Any other name is looked
/// up; where it refers to a type, that type is the result. Where it refers
/// to nothing, or to something else, an error is recorded and the result is
/// the type that is only known by its symbol.
pub open spec fn resolve_named_type(s: ResolverView, u: ast::UnresolvedType) -> (
    ResolverView,
    TypeView,
) {
    let name = u.symbol@.name;
    if u.qualifier@.len() == 0 && PrimitiveType::spec_named(name) is Some {
        (s, TypeView::Primitive(PrimitiveType::spec_named(name)->0))
    } else {
        match lookup_path(s, u.qualifier@, name) {
            Some(ItemView::Type(t)) => (s, *t),
            Some(_) => (
                report(s, ResolverErrKind::TypeMismatch, name, u.span@),
                unresolved(u.symbol@),
            ),
            None => (
                report(s, ResolverErrKind::UnresolvedSymbol, name, u.span@),
                unresolved(u.symbol@),
            ),
        }
    }
}

/// Resolve a type. A structure type without a name gets a fresh symbol.
pub open spec fn resolve_type(s: ResolverView, t: ast::Type) -> (ResolverView, TypeView)
    decreases t, 0nat,
{
    match t {
        ast::Type::Lambda(l) => {
            let (s1, formals) = resolve_types(s, l.formals@, l.formals@.len());
            let (s2, ret) = resolve_type(s1, l.ret);
            (s2, TypeView::Lambda(Box::new(LambdaTypeView { formals, ret })))
        },
        ast::Type::Primitive(p) => (s, TypeView::Primitive(p)),
        ast::Type::Ptr(p) => {
            let (s1, inner) = resolve_type(s, p.inner);
            (s1, TypeView::Ptr(Box::new(PtrTypeView { inner })))
        },
        ast::Type::Ref(r) => {
            let (s1, inner) = resolve_type(s, r.inner);
            (s1, TypeView::Ref(Box::new(RefTypeView { inner })))
        },
        ast::Type::Struct(st) => {
            let (s1, symbol) = anonymous(s);
            let (s2, elements) = resolve_variables(s1, st.elements@, st.elements@.len());
            (
                s2,
                TypeView::Struct(
                    Box::new(StructTypeView { symbol, params: Seq::empty(), elements }),
                ),
            )
        },
        ast::Type::Unresolved(u) => resolve_named_type(s, *u),
    }
}

/// Resolve the first `n` of a row of types, in order.
pub open spec fn resolve_types(s: ResolverView, ts: Seq<ast::Type>, n: nat) -> (
    ResolverView,
    Seq<TypeView>,
)
    decreases ts, n,
{
    if n == 0 || n > ts.len() {
        (s, Seq::empty())
    } else {
        let (s1, before) = resolve_types(s, ts, (n - 1) as nat);
        let (s2, t) = resolve_type(s1, ts[n - 1]);
        (s2, before.push(t))
    }
}

/// Resolve a variable: it keeps its symbol, and its type is resolved.
pub open spec fn resolve_variable(s: ResolverView, f: ast::FunctionFormal) -> (
    ResolverView,
    VariableView,
)
    decreases f, 0nat,
{
    let (s1, ty) = resolve_type(s, f.ty);
    (s1, VariableView { symbol: f.symbol@, ty })
}

/// Resolve the first `n` of a row of variables, in order.
pub open spec fn resolve_variables(s: ResolverView, fs: Seq<ast::FunctionFormal>, n: nat) -> (
    ResolverView,
    Seq<VariableView>,
)
    decreases fs, n,
{
    if n == 0 || n > fs.len() {
        (s, Seq::empty())
    } else {
        let (s1, before) = resolve_variables(s, fs, (n - 1) as nat);
        let (s2, v) = resolve_variable(s1, fs[n - 1]);
        (s2, before.push(v))
    }
}

// ---------------------------------------------------------------------
// Expressions
// ---------------------------------------------------------------------
/// The value of a literal of the source. An integer literal is 64 bits
/// wide and signed; a floating point literal is 64 bits wide.
pub open spec fn literal_of(l: ast::LiteralExpr) -> LiteralView {
    match l {
        ast::LiteralExpr::Bool(v, _) => LiteralView::Bool(v),
        ast::LiteralExpr::Char(v, _) => LiteralView::Char(v as u32),
        ast::LiteralExpr::Float(v, _) => LiteralView::F64(v@),
        ast::LiteralExpr::Int(v, _) => LiteralView::I64(v),
        ast::LiteralExpr::Str(v, _) => LiteralView::Str(v@),
    }
}

/// The expression without a value, under the given identifier.
pub open spec fn void(identifier: IdentifierView) -> ExprView {
    ExprView::Void(Box::new(VoidExprView { identifier }))
}

/// A literal expression.
pub open spec fn literal(identifier: IdentifierView, literal: LiteralView) -> ExprView {
    ExprView::Literal(Box::new(LiteralExprView { identifier, literal }))
}

/// The variables that a loop binds: their types are not known.
pub open spec fn loop_variables(formals: Seq<Symbol>) -> Seq<VariableView> {
    Seq::new(formals.len(), |i: int| VariableView { symbol: formals[i]@, ty: unresolved(formals[i]@) })
}

/// The elements of a tuple, for the first `n` of its values: each value
/// stands under a fresh symbol without a name, with the type of the value.
/// Where the value has no type, a type error is recorded at the place of
/// the tuple, and the element has the type only known by its symbol.
pub open spec fn tuple_elements(
    s: ResolverView,
    values: Seq<ExprView>,
    n: nat,
    span: SpanView,
) -> (ResolverView, Seq<VariableView>)
    decreases n,
{
    if n == 0 || n > values.len() {
        (s, Seq::empty())
    } else {
        let (s1, before) = tuple_elements(s, values, (n - 1) as nat, span);
        let (s2, symbol) = anonymous(s1);
        match typedef_expr(values[n - 1]) {
            Some(ty) => (s2, before.push(VariableView { symbol, ty })),
            None => (
                report(s2, ResolverErrKind::TypeMismatch, "tuple"@, span),
                before.push(VariableView { symbol, ty: unresolved(symbol) }),
            ),
        }
    }
}

/// The variables of a loop have no type that their structure gives: for
/// each of the first `n` of them a type error is recorded at the place of
/// the loop, under the name of the variable.
pub open spec fn report_loop_variables(
    s: ResolverView,
    formals: Seq<Symbol>,
    n: nat,
    span: SpanView,
) -> ResolverView
    decreases n,
{
    if n == 0 || n > formals.len() {
        s
    } else {
        report(
            report_loop_variables(s, formals, (n - 1) as nat, span),
            ResolverErrKind::TypeMismatch,
            formals[n - 1]@.name,
            span,
        )
    }
}

/// Whether a type is the type of a function.
pub open spec fn callable(ty: Option<TypeView>) -> bool {
    ty matches Some(TypeView::Lambda(_))
}

/// Each element of a tuple with its value.
pub open spec fn tuple_fields(elements: Seq<VariableView>, values: Seq<ExprView>) -> Seq<
    (VariableView, ExprView),
> {
    Seq::new(elements.len(), |i: int| (elements[i], values[i]))
}

/// The target of the call that stands for an operator. The target has a
/// fresh identity. Where the operand has a primitive type, the function of
/// the operator for that type is looked up by its name; where no such
/// function is in scope, or the operand has no primitive type, an error is
/// recorded and the target is the expression without a value.
pub open spec fn operator_target(
    s: ResolverView,
    operator: ast::Operator,
    operand: Option<TypeView>,
) -> (ResolverView, ExprView) {
    let (s1, identifier) = anonymous(s);
    match operand {
        Some(TypeView::Primitive(p)) => {
            let name = operator_function_name(operator.spec_kind(), p);
            match lookup(s1, name) {
                Some(item) => (
                    s1,
                    ExprView::Item(Box::new(ItemExprView { identifier, item })),
                ),
                None => (
                    report(s1, ResolverErrKind::UnresolvedSymbol, name, operator.span_of()@),
                    void(identifier),
                ),
            }
        },
        _ => (
            report(
                s1,
                ResolverErrKind::TypeMismatch,
                operator_name(operator.spec_kind()),
                operator.span_of()@,
            ),
            void(identifier),
        ),
    }
}

/// Resolve an expression. Every resolved node gets a fresh identity, taken
/// before its children are resolved; children are resolved in the order of
/// the source.
///
/// A use of a name becomes a reference to what the name refers to; where it
/// refers to nothing an error is recorded, and the reference is to a
/// variable with the symbol of the use whose type is only known by that
/// symbol. A definition resolves its right side first, then brings its
/// variable into the innermost open block; the variable has the type that
/// the source gives it, else the type of the right side, and where that has
/// none a type error is recorded. A call whose target has no function type
/// records a type error. The variables of a loop have no type: for each a
/// type error is recorded. An operator becomes a call. A channel and a list
/// become literals, a tuple becomes a structure value. A selection
/// has no resolved form: its alternatives are resolved, an error is
/// recorded and it becomes the expression without a value.
pub open spec fn resolve_expr(s: ResolverView, e: ast::Expr) -> (ResolverView, ExprView)
    decreases e, 0nat,
{
    match e {
        ast::Expr::Assign(a) => {
            let (s1, identifier) = anonymous(s);
            let (s2, definition) = resolve_expr(s1, a.rhs);
            let (s3, ty) = match a.ty {
                Some(t) => resolve_type(s2, t),
                None => match typedef_expr(definition) {
                    Some(t) => (s2, t),
                    None => (
                        report(s2, ResolverErrKind::TypeMismatch, a.symbol@.name, a.span@),
                        unresolved(a.symbol@),
                    ),
                },
            };
            let variable = VariableView { symbol: a.symbol@, ty };
            (
                register_variable(s3, variable),
                ExprView::Let(Box::new(LetExprView { identifier, variable, definition })),
            )
        },
        ast::Expr::Block(b) => {
            let (s1, block) = resolve_block(s, *b, Seq::empty());
            (s1, ExprView::Block(Box::new(block)))
        },
        ast::Expr::Call(c) => {
            let (s1, identifier) = anonymous(s);
            let (s2, target) = resolve_expr(s1, c.target);
            let (s3, arguments) = resolve_exprs(s2, c.arguments@, c.arguments@.len());
            let s4 = if callable(typedef_expr(target)) {
                s3
            } else {
                report(s3, ResolverErrKind::TypeMismatch, "call"@, c.span@)
            };
            (s4, ExprView::Call(Box::new(CallExprView { identifier, target, arguments })))
        },
        ast::Expr::Channel(c) => {
            let (s1, identifier) = anonymous(s);
            let (s2, lhs) = resolve_expr(s1, c.lhs);
            let (s3, rhs) = resolve_expr(s2, c.rhs);
            (s3, literal(identifier, LiteralView::Channel(Box::new(lhs), Box::new(rhs))))
        },
        ast::Expr::Deref(d) => {
            let (s1, identifier) = anonymous(s);
            let (s2, inner) = resolve_expr(s1, d.inner);
            (s2, ExprView::Deref(Box::new(DerefExprView { identifier, inner })))
        },
        ast::Expr::For(f) => {
            let (s1, identifier) = anonymous(s);
            let (s2, iterator) = resolve_expr(s1, f.iterator);
            let formals = loop_variables(f.formals@);
            let (s3, iteration) = resolve_block(s2, f.iteration, formals);
            (
                report_loop_variables(s3, f.formals@, f.formals@.len(), f.span@),
                ExprView::For(
                    Box::new(
                        ForExprView { identifier, formals, iterator, iteration: Box::new(iteration) },
                    ),
                ),
            )
        },
        ast::Expr::If(i) => {
            let (s1, identifier) = anonymous(s);
            let (s2, condition) = resolve_expr(s1, i.condition);
            let (s3, then_block) = resolve_block(s2, i.then_block, Seq::empty());
            let (s4, else_block) = resolve_block(s3, i.else_block, Seq::empty());
            (
                s4,
                ExprView::If(
                    Box::new(
                        IfExprView {
                            identifier,
                            condition,
                            then_block: Box::new(then_block),
                            else_block: Box::new(else_block),
                        },
                    ),
                ),
            )
        },
        ast::Expr::Item(i) => {
            let (s1, identifier) = anonymous(s);
            match lookup_path(s1, i.qualifier@, i.symbol@.name) {
                Some(item) => (s1, ExprView::Item(Box::new(ItemExprView { identifier, item }))),
                None => (
                    report(s1, ResolverErrKind::UnresolvedSymbol, i.symbol@.name, i.span@),
                    ExprView::Item(
                        Box::new(
                            ItemExprView {
                                identifier,
                                item: ItemView::Variable(
                                    Box::new(
                                        VariableView {
                                            symbol: i.symbol@,
                                            ty: unresolved(i.symbol@),
                                        },
                                    ),
                                ),
                            },
                        ),
                    ),
                ),
            }
        },
        ast::Expr::List(l) => {
            let (s1, identifier) = anonymous(s);
            let (s2, elements) = resolve_exprs(s1, l.elements@, l.elements@.len());
            (s2, literal(identifier, LiteralView::List(elements)))
        },
        ast::Expr::ListRange(r) => {
            let (s1, identifier) = anonymous(s);
            let (s2, first) = resolve_expr(s1, r.first);
            let (s3, last) = resolve_expr(s2, r.last);
            (s3, literal(identifier, LiteralView::ListRange(Box::new(first), Box::new(last))))
        },
        ast::Expr::Literal(l) => {
            let (s1, identifier) = anonymous(s);
            (s1, literal(identifier, literal_of(*l)))
        },
        ast::Expr::Operator(o) => {
            let (s1, call) = resolve_operator(s, *o);
            (s1, ExprView::Call(Box::new(call)))
        },
        ast::Expr::Ref(r) => {
            let (s1, identifier) = anonymous(s);
            let (s2, inner) = resolve_expr(s1, r.inner);
            (s2, ExprView::Ref(Box::new(RefExprView { identifier, inner })))
        },
        ast::Expr::Select(sel) => {
            let (s1, identifier) = anonymous(s);
            let (s2, _alternatives) = resolve_exprs(s1, sel.alternatives@, sel.alternatives@.len());
            (report(s2, ResolverErrKind::TypeMismatch, "select"@, sel.span@), void(identifier))
        },
        ast::Expr::Tuple(t) => {
            let (s1, identifier) = anonymous(s);
            let (s2, values) = resolve_exprs(s1, t.elements@, t.elements@.len());
            let (s3, elements) = tuple_elements(s2, values, values.len(), t.span@);
            let (s4, symbol) = anonymous(s3);
            (
                s4,
                ExprView::Struct(
                    Box::new(
                        StructExprView {
                            identifier,
                            elements: tuple_fields(elements, values),
                            ty: TypeView::Struct(
                                Box::new(StructTypeView { symbol, params: Seq::empty(), elements }),
                            ),
                        },
                    ),
                ),
            )
        },
        ast::Expr::Void(_) => {
            let (s1, identifier) = anonymous(s);
            (s1, void(identifier))
        },
    }
}

/// Resolve the first `n` of a row of expressions, in order.
pub open spec fn resolve_exprs(s: ResolverView, es: Seq<ast::Expr>, n: nat) -> (
    ResolverView,
    Seq<ExprView>,
)
    decreases es, n,
{
    if n == 0 || n > es.len() {
        (s, Seq::empty())
    } else {
        let (s1, before) = resolve_exprs(s, es, (n - 1) as nat);
        let (s2, e) = resolve_expr(s1, es[n - 1]);
        (s2, before.push(e))
    }
}

/// Resolve a block. The block gets a fresh identity and is opened as the
/// innermost scope, with the given variables in it; then its expressions
/// are resolved in order, the last expression after them; then the block
/// is closed. The resolved block holds the declarations that its scope
/// held when it was closed.
pub open spec fn resolve_block(
    s: ResolverView,
    b: ast::BlockExpr,
    variables: Seq<VariableView>,
) -> (ResolverView, BlockExprView)
    decreases b, 0nat,
{
    let (s1, identifier) = anonymous(s);
    let s2 = push_block(s1, block_scope(identifier, variables));
    let (s3, body) = resolve_exprs(s2, b.body@, b.body@.len());
    let (s4, ret) = resolve_expr(s3, b.ret);
    let scope = top_block(s4, identifier);
    (
        pop_block(s4),
        BlockExprView {
            identifier,
            body,
            ret,
            function_table: scope.function_table,
            module_table: scope.module_table,
            type_table: scope.type_table,
        },
    )
}

/// Resolve an expression made with an operator: it becomes a call whose
/// arguments are the resolved operands and whose target stands for the
/// operator on the type of the first operand.
pub open spec fn resolve_operator(s: ResolverView, o: ast::OperatorExpr) -> (
    ResolverView,
    CallExprView,
)
    decreases o, 0nat,
{
    match o {
        ast::OperatorExpr::Binary(b) => {
            let (s1, identifier) = anonymous(s);
            let (s2, lhs) = resolve_expr(s1, b.lhs);
            let (s3, rhs) = resolve_expr(s2, b.rhs);
            let (s4, target) = operator_target(s3, b.operator, typedef_expr(lhs));
            (s4, CallExprView { identifier, target, arguments: seq![lhs, rhs] })
        },
        ast::OperatorExpr::Prefix(p) => {
            let (s1, identifier) = anonymous(s);
            let (s2, rhs) = resolve_expr(s1, p.rhs);
            let (s3, target) = operator_target(s2, p.operator, typedef_expr(rhs));
            (s3, CallExprView { identifier, target, arguments: seq![rhs] })
        },
        ast::OperatorExpr::Suffix(x) => {
            let (s1, identifier) = anonymous(s);
            let (s2, lhs) = resolve_expr(s1, x.lhs);
            let (s3, target) = operator_target(s2, x.operator, typedef_expr(lhs));
            (s3, CallExprView { identifier, target, arguments: seq![lhs] })
        },
    }
}

// ---------------------------------------------------------------------
// Declarations
// ---------------------------------------------------------------------
/// The names under which the scope declares functions into which a new
/// declaration goes: that of the innermost open module, or that of the
/// context where no module is open.
pub open spec fn function_scope(s: ResolverView) -> Seq<IdentifierView> {
    if s.modules.len() > 0 {
        table_keys(s.modules.last().function_table)
    } else {
        table_keys(s.context.function_table)
    }
}

/// The names under which the scope declares modules.
pub open spec fn module_scope(s: ResolverView) -> Seq<IdentifierView> {
    if s.modules.len() > 0 {
        table_keys(s.modules.last().module_table)
    } else {
        table_keys(s.context.module_table)
    }
}

/// The names under which the scope declares types.
pub open spec fn type_scope(s: ResolverView) -> Seq<IdentifierView> {
    if s.modules.len() > 0 {
        table_keys(s.modules.last().type_table)
    } else {
        table_keys(s.context.type_table)
    }
}

/// Write a function into the innermost open module, where one is open, and
/// into the context, each time under its symbol.
pub open spec fn store_function(s: ResolverView, f: FunctionView) -> ResolverView {
    let context = ContextView {
        function_table: spec_put(s.context.function_table, f.symbol, f),
        ..s.context
    };
    if s.modules.len() > 0 {
        let top = s.modules.last();
        ResolverView {
            context,
            modules: s.modules.update(
                s.modules.len() - 1,
                ModuleView { function_table: spec_put(top.function_table, f.symbol, f), ..top },
            ),
            ..s
        }
    } else {
        ResolverView { context, ..s }
    }
}

/// Write a module into the innermost open module, where one is open, and
/// into the context, each time under its symbol.
pub open spec fn store_module(s: ResolverView, m: ModuleView) -> ResolverView {
    let context = ContextView {
        module_table: spec_put(s.context.module_table, m.symbol, m),
        ..s.context
    };
    if s.modules.len() > 0 {
        let top = s.modules.last();
        ResolverView {
            context,
            modules: s.modules.update(
                s.modules.len() - 1,
                ModuleView { module_table: spec_put(top.module_table, m.symbol, m), ..top },
            ),
            ..s
        }
    } else {
        ResolverView { context, ..s }
    }
}

/// Write a type into the innermost open module, where one is open, and
/// into the context, each time under the given symbol.
pub open spec fn store_type(s: ResolverView, symbol: IdentifierView, t: TypeView) -> ResolverView {
    let context = ContextView {
        type_table: spec_put(s.context.type_table, symbol, t),
        ..s.context
    };
    if s.modules.len() > 0 {
        let top = s.modules.last();
        ResolverView {
            context,
            modules: s.modules.update(
                s.modules.len() - 1,
                ModuleView { type_table: spec_put(top.type_table, symbol, t), ..top },
            ),
            ..s
        }
    } else {
        ResolverView { context, ..s }
    }
}

/// Declare a function that is already resolved. Where its display name is
/// already declared in the scope, a redeclaration is recorded at the given
/// place and nothing is declared; else the function is written into the
/// scope and the context.
pub open spec fn declare_function(s: ResolverView, f: FunctionView, span: SpanView) -> (
    ResolverView,
    bool,
) {
    if spec_clashes(function_scope(s), f.symbol) {
        (report(s, ResolverErrKind::Redeclaration, f.symbol.name, span), false)
    } else {
        (store_function(s, f), true)
    }
}

/// Declare the first `n` of a row of functions, in order.
pub open spec fn declare_functions(
    s: ResolverView,
    fs: Seq<FunctionView>,
    n: nat,
    span: SpanView,
) -> ResolverView
    decreases n,
{
    if n == 0 || n > fs.len() {
        s
    } else {
        declare_function(declare_functions(s, fs, (n - 1) as nat, span), fs[n - 1], span).0
    }
}

/// Open a module without a name, under a fresh identity, as the outermost
/// scope: what is declared outside every other module is declared in it,
/// and is in scope everywhere.
pub open spec fn open_root(s: ResolverView) -> ResolverView {
    let (s1, identifier) = anonymous(s);
    push_module(s1, module_profile(identifier))
}

/// Declare the functions that the language brings along: they are made
/// with fresh identities and declared in order.
pub open spec fn declare_prelude(s: ResolverView, span: SpanView) -> ResolverView {
    let (functions, next, exhausted) = crate::air::prelude::spec_prelude(
        s.next,
        s.exhausted,
        crate::air::prelude::PRELUDE_LEN as nat,
    );
    declare_functions(
        ResolverView { next, exhausted, ..s },
        functions,
        crate::air::prelude::PRELUDE_LEN as nat,
        span,
    )
}

/// Resolve the profile of a function: its symbol, the types of its formals
/// and the type of its result. Where the context already holds a function
/// with the symbol's number, the profile of that function is the result and
/// nothing changes. Else the profile is resolved; where its display name is
/// already declared in the scope, a redeclaration is recorded and there is
/// no result; else the profile is written into the scope and the context.
pub open spec fn resolve_function_profile(s: ResolverView, d: ast::FunctionDecl) -> (
    ResolverView,
    Option<FunctionView>,
) {
    match first_with_id(table_keys(s.context.function_table), d.symbol@.id, 0) {
        Some(i) => (s, Some(profile_of(s.context.function_table[i].1))),
        None => {
            let (s1, formals) = resolve_variables(s, d.formals@, d.formals@.len());
            let (s2, ret) = resolve_type(s1, d.ret);
            let f = FunctionView { symbol: d.symbol@, formals, ret, body: None };
            if spec_clashes(function_scope(s2), f.symbol) {
                (report(s2, ResolverErrKind::Redeclaration, f.symbol.name, d.span@), None)
            } else {
                (store_function(s2, f), Some(f))
            }
        },
    }
}

/// Resolve the body of a function. A body that is a block is resolved as
/// that block; any other expression is wrapped in a block with a fresh
/// identity, of which it is the last and only expression.
pub open spec fn resolve_body(s: ResolverView, e: ast::Expr) -> (ResolverView, BlockExprView) {
    match e {
        ast::Expr::Block(b) => resolve_block(s, *b, Seq::empty()),
        _ => {
            let (s1, identifier) = anonymous(s);
            let s2 = push_block(s1, block_scope(identifier, Seq::empty()));
            let (s3, ret) = resolve_expr(s2, e);
            let scope = top_block(s3, identifier);
            (
                pop_block(s3),
                BlockExprView {
                    identifier,
                    body: Seq::empty(),
                    ret,
                    function_table: scope.function_table,
                    module_table: scope.module_table,
                    type_table: scope.type_table,
                },
            )
        },
    }
}

/// Resolve a function: its profile is resolved or reused; with the profile
/// as the innermost open function the body is resolved, unless the
/// function is extern or has none; then the function is closed, and the
/// complete function is written over its profile. A function that is not
/// extern must have a body: where it has none an error is recorded. Where
/// the profile is a redeclaration there is no result.
pub open spec fn resolve_function(s: ResolverView, d: ast::FunctionDecl) -> (
    ResolverView,
    Option<FunctionView>,
) {
    match resolve_function_profile(s, d) {
        (s1, None) => (s1, None),
        (s1, Some(profile)) => {
            let s2 = push_function(s1, profile);
            let (s3, body) = if d.is_extern {
                (s2, None)
            } else {
                match d.body {
                    Some(e) => {
                        let (s3, block) = resolve_body(s2, e);
                        (s3, Some(block))
                    },
                    None => (s2, None),
                }
            };
            let f = FunctionView { body, ..profile };
            let s4 = store_function(pop_function(s3), f);
            if !d.is_extern && d.body is None {
                (report(s4, ResolverErrKind::MissingBody, d.symbol@.name, d.span@), Some(f))
            } else {
                (s4, Some(f))
            }
        },
    }
}

/// The types that stand for the parameters of a declared type.
pub open spec fn generics_of(params: Seq<Symbol>) -> Seq<TypeView> {
    Seq::new(
        params.len(),
        |i: int|
            TypeView::Generic(
                Box::new(GenericTypeView { identifier: params[i]@, params: Seq::empty() }),
            ),
    )
}

/// The table in which each parameter of a declared type stands under its
/// symbol.
pub open spec fn generics_table(params: Seq<Symbol>) -> Seq<(IdentifierView, TypeView)> {
    Seq::new(params.len(), |i: int| (params[i]@, generics_of(params)[i]))
}

/// Resolve what a declared type is, with the parameters of the declaration
/// in scope.
pub open spec fn resolve_type_kind(s: ResolverView, d: ast::TypeDecl) -> (ResolverView, TypeView) {
    let generics = generics_of(d.params@);
    match d.kind {
        ast::TypeDeclKind::Alias(t) => {
            let (s1, inner) = resolve_type(s, t);
            (s1, TypeView::Alias(Box::new(AliasTypeView { inner })))
        },
        ast::TypeDeclKind::Enum(variants) => {
            let (s1, elements) = resolve_variables(s, variants@, variants@.len());
            (
                s1,
                TypeView::Enum(
                    Box::new(
                        EnumTypeView {
                            symbol: d.symbol@,
                            params: generics,
                            variants: Box::new(
                                StructTypeView { symbol: d.symbol@, params: generics, elements },
                            ),
                        },
                    ),
                ),
            )
        },
        ast::TypeDeclKind::Struct(fields) => {
            let (s1, elements) = resolve_variables(s, fields@, fields@.len());
            (
                s1,
                TypeView::Struct(
                    Box::new(StructTypeView { symbol: d.symbol@, params: generics, elements }),
                ),
            )
        },
    }
}

/// Resolve the declaration of a type. A scope with a fresh identity is
/// opened in which the parameters of the declaration are declared as
/// types; in it the type is resolved; then the scope is closed. Where the
/// display name of the type is already declared in the scope into which
/// the declaration goes, a redeclaration is recorded and there is no
/// result; else the type is written into that scope and the context.
pub open spec fn resolve_type_decl(s: ResolverView, d: ast::TypeDecl) -> (
    ResolverView,
    Option<TypeView>,
) {
    let (s1, identifier) = anonymous(s);
    let s2 = push_block(
        s1,
        BlockScopeView {
            type_table: generics_table(d.params@),
            ..block_scope(identifier, Seq::empty())
        },
    );
    let (s3, t) = resolve_type_kind(s2, d);
    let s4 = pop_block(s3);
    if spec_clashes(type_scope(s4), d.symbol@) {
        (report(s4, ResolverErrKind::Redeclaration, d.symbol@.name, d.span@), None)
    } else {
        (store_type(s4, d.symbol@, t), Some(t))
    }
}

/// The passes over the declarations of a module, in their fixed order:
/// later kinds of declaration may refer to earlier ones, but not the other
/// way round.
#[derive(Clone, Copy, Debug, PartialEq, Eq, Structural)]
pub enum Phase {
    /// Submodules, which do not depend on the module's own declarations.
    Modules,
    /// Types, which may refer to the types of submodules.
    Types,
    /// The profiles of all functions, so that every function can call
    /// every other.
    Profiles,
    /// The bodies of the functions.
    Bodies,
}

/// Resolve a module. An empty module under the declaration's identifier is
/// written into the scope and the context, unless its display name is
/// already declared in the scope: then a redeclaration is recorded and
/// there is no result. The module is opened; its submodules, its types, the
/// profiles of its functions and the bodies of its functions are resolved,
/// in this order; the module is closed, and the finished module is written
/// over the empty one.
pub open spec fn resolve_module(s: ResolverView, d: ast::ModuleDecl) -> (
    ResolverView,
    Option<ModuleView>,
)
    decreases d, 0nat,
{
    let empty = module_profile(d.identifier@);
    if spec_clashes(module_scope(s), empty.symbol) {
        (report(s, ResolverErrKind::Redeclaration, empty.symbol.name, d.span@), None)
    } else {
        let s1 = push_module(store_module(s, empty), empty);
        let n = d.statements@.len();
        let s2 = resolve_statements(s1, d.statements@, n, Phase::Modules);
        let s3 = resolve_statements(s2, d.statements@, n, Phase::Types);
        let s4 = resolve_statements(s3, d.statements@, n, Phase::Profiles);
        let s5 = resolve_statements(s4, d.statements@, n, Phase::Bodies);
        let m = if s5.modules.len() > 0 {
            s5.modules.last()
        } else {
            empty
        };
        (store_module(pop_module(s5), m), Some(m))
    }
}

/// Whether the profile of the function is declared: the context holds a
/// function under the number of the declaration's symbol.
pub open spec fn has_profile(s: ResolverView, d: ast::FunctionDecl) -> bool {
    first_with_id(table_keys(s.context.function_table), d.symbol@.id, 0) is Some
}

/// One pass over the first `n` declarations of a module: the declarations
/// of the kind that the pass is for are resolved in order, the others are
/// passed over. The pass for the bodies passes over the functions whose
/// profile is not declared: a declaration that was dropped as a
/// redeclaration stays dropped.
pub open spec fn resolve_statements(
    s: ResolverView,
    statements: Seq<ast::Statement>,
    n: nat,
    phase: Phase,
) -> ResolverView
    decreases statements, n,
{
    if n == 0 || n > statements.len() {
        s
    } else {
        let s1 = resolve_statements(s, statements, (n - 1) as nat, phase);
        match (phase, statements[n - 1]) {
            (Phase::Modules, ast::Statement::Module(m)) => resolve_module(s1, m).0,
            (Phase::Types, ast::Statement::Type(t)) => resolve_type_decl(s1, t).0,
            (Phase::Profiles, ast::Statement::Function(f)) => resolve_function_profile(s1, f).0,
            (Phase::Bodies, ast::Statement::Function(f)) => if has_profile(s1, f) {
                resolve_function(s1, f).0
            } else {
                s1
            },
            _ => s1,
        }
    }
}

/// Resolve what the parser handed on.
pub open spec fn resolve(s: ResolverView, node: ast::Ast) -> (ResolverView, AirView) {
    match node {
        ast::Ast::Expr(e) => {
            let (s1, expr) = resolve_expr(s, e);
            (s1, AirView::Expr(expr))
        },
        ast::Ast::Module(d) => match resolve_module(s, d) {
            (s1, Some(m)) => (s1, AirView::Module(m)),
            (s1, None) => (s1, AirView::Nil),
        },
        ast::Ast::Nil => (s, AirView::Nil),
    }
}

/// What the resolver hands on stands for.
pub ghost enum AirView {
    Expr(ExprView),
    Module(ModuleView),
    Nil,
}

} // verus!
