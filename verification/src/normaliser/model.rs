//! What normalisation means. Each step is a function from the state of the
//! normaliser and a piece of the resolved representation to the state
//! afterwards and the normalised piece.

use vstd::prelude::*;
use crate::air;
use crate::bair::PrimitiveType;
use crate::identifier::IdentifierView;
use crate::noir;

verus! {

/// Why a piece of the resolved representation has no normalised form.
#[derive(Clone, Copy, Debug, PartialEq, Eq, Structural)]
pub enum NormaliserErrKind {
    /// A type that is only known by name.
    UnresolvedType,
    /// A type parameter, or a type applied to parameters.
    GenericType,
    /// A channel or a list.
    UnsupportedLiteral,
}

/// What an error of normalisation stands for: its kind, and the identifier
/// of the piece that it is about.
pub ghost struct NormaliserErrView {
    pub kind: NormaliserErrKind,
    pub identifier: IdentifierView,
}

/// The state of a normaliser: the context of the normalised
/// representation, the next identity and whether the identities have run
/// out, and the errors met so far. Normalisation leaves the context as it
/// is.
pub ghost struct NormaliserView {
    pub context: noir::ContextView,
    pub next: u64,
    pub exhausted: bool,
    pub errors: Seq<NormaliserErrView>,
}

/// Take a fresh identifier without a name.
pub open spec fn anonymous(s: NormaliserView) -> (NormaliserView, IdentifierView) {
    (
        NormaliserView {
            next: if s.next < u64::MAX {
                (s.next + 1) as u64
            } else {
                u64::MAX
            },
            exhausted: s.exhausted || s.next == u64::MAX,
            ..s
        },
        IdentifierView { id: s.next, name: Seq::empty() },
    )
}

/// Record an error.
pub open spec fn report(
    s: NormaliserView,
    kind: NormaliserErrKind,
    identifier: IdentifierView,
) -> NormaliserView {
    NormaliserView { errors: s.errors.push(NormaliserErrView { kind, identifier }), ..s }
}

/// The type that stands in where a type has no normalised form.
pub open spec fn no_type() -> noir::TypeView {
    noir::TypeView::Primitive(PrimitiveType::Void)
}

/// Normalise a type. Another name for a type is unfolded: it is the type
/// that it names. A type that is only known by name, and a type parameter,
/// have no normalised form: an error is recorded and the type of nothing
/// stands in.
pub open spec fn normalise_type(s: NormaliserView, t: air::TypeView) -> (
    NormaliserView,
    noir::TypeView,
)
    decreases t, 0nat,
{
    match t {
        air::TypeView::Alias(a) => normalise_type(s, a.inner),
        air::TypeView::Enum(e) => {
            let (s1, params) = normalise_types(s, e.params, e.params.len());
            let (s2, variants) = normalise_struct_type(s1, *e.variants);
            (
                s2,
                noir::TypeView::Enum(
                    Box::new(
                        noir::EnumTypeView { symbol: e.symbol, params, variants: Box::new(variants) },
                    ),
                ),
            )
        },
        air::TypeView::Generic(g) => (
            report(s, NormaliserErrKind::GenericType, g.identifier),
            no_type(),
        ),
        air::TypeView::Lambda(l) => {
            let (s1, lambda) = normalise_lambda_type(s, *l);
            (s1, noir::TypeView::Lambda(Box::new(lambda)))
        },
        air::TypeView::Primitive(p) => (s, noir::TypeView::Primitive(p)),
        air::TypeView::Ptr(p) => {
            let (s1, inner) = normalise_type(s, p.inner);
            (s1, noir::TypeView::Ptr(Box::new(noir::PtrTypeView { inner })))
        },
        air::TypeView::Ref(r) => {
            let (s1, inner) = normalise_type(s, r.inner);
            (s1, noir::TypeView::Ref(Box::new(noir::RefTypeView { inner })))
        },
        air::TypeView::Struct(st) => {
            let (s1, structure) = normalise_struct_type(s, *st);
            (s1, noir::TypeView::Struct(Box::new(structure)))
        },
        air::TypeView::Unresolved(u) => (
            report(s, NormaliserErrKind::UnresolvedType, u.symbol),
            no_type(),
        ),
    }
}

/// Normalise the type of a function: the types of its formals, then the
/// type of its result.
pub open spec fn normalise_lambda_type(s: NormaliserView, l: air::LambdaTypeView) -> (
    NormaliserView,
    noir::LambdaTypeView,
)
    decreases l, 0nat,
{
    let (s1, formals) = normalise_types(s, l.formals, l.formals.len());
    let (s2, ret) = normalise_type(s1, l.ret);
    (s2, noir::LambdaTypeView { formals, ret })
}

/// Normalise a structure type: its parameters, then its elements.
pub open spec fn normalise_struct_type(s: NormaliserView, st: air::StructTypeView) -> (
    NormaliserView,
    noir::StructTypeView,
)
    decreases st, 0nat,
{
    let (s1, params) = normalise_types(s, st.params, st.params.len());
    let (s2, elements) = normalise_variables(s1, st.elements, st.elements.len());
    (s2, noir::StructTypeView { symbol: st.symbol, params, elements })
}

/// Normalise the first `n` of a row of types, in order.
pub open spec fn normalise_types(s: NormaliserView, ts: Seq<air::TypeView>, n: nat) -> (
    NormaliserView,
    Seq<noir::TypeView>,
)
    decreases ts, n,
{
    if n == 0 || n > ts.len() {
        (s, Seq::empty())
    } else {
        let (s1, before) = normalise_types(s, ts, (n - 1) as nat);
        let (s2, t) = normalise_type(s1, ts[n - 1]);
        (s2, before.push(t))
    }
}

/// Normalise a variable: it keeps its symbol, and its type is normalised.
pub open spec fn normalise_variable(s: NormaliserView, v: air::VariableView) -> (
    NormaliserView,
    noir::VariableView,
)
    decreases v, 0nat,
{
    let (s1, ty) = normalise_type(s, v.ty);
    (s1, noir::VariableView { symbol: v.symbol, ty })
}

/// Normalise the first `n` of a row of variables, in order.
pub open spec fn normalise_variables(s: NormaliserView, vs: Seq<air::VariableView>, n: nat) -> (
    NormaliserView,
    Seq<noir::VariableView>,
)
    decreases vs, n,
{
    if n == 0 || n > vs.len() {
        (s, Seq::empty())
    } else {
        let (s1, before) = normalise_variables(s, vs, (n - 1) as nat);
        let (s2, v) = normalise_variable(s1, vs[n - 1]);
        (s2, before.push(v))
    }
}

/// The normalised value of a literal; a channel and a list have none.
pub open spec fn normalise_literal(l: air::LiteralView) -> Option<noir::LiteralView> {
    match l {
        air::LiteralView::Bool(v) => Some(noir::LiteralView::Bool(v)),
        air::LiteralView::Char(v) => Some(noir::LiteralView::Char(v)),
        air::LiteralView::F32(v) => Some(noir::LiteralView::F32(v)),
        air::LiteralView::F64(v) => Some(noir::LiteralView::F64(v)),
        air::LiteralView::I8(v) => Some(noir::LiteralView::I8(v)),
        air::LiteralView::I16(v) => Some(noir::LiteralView::I16(v)),
        air::LiteralView::I32(v) => Some(noir::LiteralView::I32(v)),
        air::LiteralView::I64(v) => Some(noir::LiteralView::I64(v)),
        air::LiteralView::Str(v) => Some(noir::LiteralView::Str(v)),
        air::LiteralView::U8(v) => Some(noir::LiteralView::U8(v)),
        air::LiteralView::U16(v) => Some(noir::LiteralView::U16(v)),
        air::LiteralView::U32(v) => Some(noir::LiteralView::U32(v)),
        air::LiteralView::U64(v) => Some(noir::LiteralView::U64(v)),
        air::LiteralView::USize(v) => Some(noir::LiteralView::USize(v)),
        air::LiteralView::Channel(..)
        | air::LiteralView::List(_)
        | air::LiteralView::ListRange(..) => None,
    }
}

/// The expression without a value, under the given identifier.
pub open spec fn void(identifier: IdentifierView) -> noir::ExprView {
    noir::ExprView::Void(Box::new(noir::VoidExprView { identifier }))
}

/// The assignment by which a definition gives its variable its value: the
/// left side is a reference, with the given identifier, to the variable.
pub open spec fn definition_of(
    identifier: IdentifierView,
    variable: noir::VariableView,
    rhs: noir::ExprView,
) -> noir::AssignExprView {
    noir::AssignExprView {
        lhs: noir::RefExprView {
            identifier,
            inner: noir::ExprView::Variable(
                Box::new(noir::VariableExprView { variable, parent: Seq::empty() }),
            ),
        },
        rhs,
    }
}

/// Normalise an expression. Every node keeps its identity, and its
/// children are normalised in their order. A definition becomes a
/// definition by assignment; the reference on the left side of the
/// assignment gets a fresh identity. A literal that is a channel or a list
/// has no normalised form: an error is recorded and the expression without
/// a value stands in, under the identity of the literal. A structure value
/// gives up its identity.
pub open spec fn normalise_expr(s: NormaliserView, e: air::ExprView) -> (
    NormaliserView,
    noir::ExprView,
)
    decreases e, 0nat,
{
    match e {
        air::ExprView::Block(b) => {
            let (s1, block) = normalise_block_expr(s, *b);
            (s1, noir::ExprView::Block(Box::new(block)))
        },
        air::ExprView::Call(c) => {
            let (s1, target) = normalise_expr(s, c.target);
            let (s2, arguments) = normalise_exprs(s1, c.arguments, c.arguments.len());
            (
                s2,
                noir::ExprView::Call(
                    Box::new(noir::CallExprView { identifier: c.identifier, target, arguments }),
                ),
            )
        },
        air::ExprView::Deref(d) => {
            let (s1, inner) = normalise_expr(s, d.inner);
            (
                s1,
                noir::ExprView::Deref(
                    Box::new(noir::DerefExprView { identifier: d.identifier, inner }),
                ),
            )
        },
        air::ExprView::For(f) => {
            let (s1, formals) = normalise_variables(s, f.formals, f.formals.len());
            let (s2, iterator) = normalise_expr(s1, f.iterator);
            let (s3, iteration) = normalise_block_expr(s2, *f.iteration);
            (
                s3,
                noir::ExprView::For(
                    Box::new(
                        noir::ForExprView {
                            identifier: f.identifier,
                            formals,
                            iterator,
                            iteration: Box::new(iteration),
                        },
                    ),
                ),
            )
        },
        air::ExprView::If(i) => {
            let (s1, condition) = normalise_expr(s, i.condition);
            let (s2, then_block) = normalise_block_expr(s1, *i.then_block);
            let (s3, else_block) = normalise_block_expr(s2, *i.else_block);
            (
                s3,
                noir::ExprView::If(
                    Box::new(
                        noir::IfExprView {
                            identifier: i.identifier,
                            condition,
                            then_block: Box::new(then_block),
                            else_block: Box::new(else_block),
                        },
                    ),
                ),
            )
        },
        air::ExprView::Item(i) => {
            let (s1, item) = normalise_item(s, i.item);
            (
                s1,
                noir::ExprView::Item(
                    Box::new(noir::ItemExprView { identifier: i.identifier, item }),
                ),
            )
        },
        air::ExprView::Let(l) => {
            let (s1, variable) = normalise_variable(s, l.variable);
            let (s2, rhs) = normalise_expr(s1, l.definition);
            let (s3, identifier) = anonymous(s2);
            (
                s3,
                noir::ExprView::Let(
                    Box::new(
                        noir::LetExprView {
                            identifier: l.identifier,
                            variable,
                            definition: definition_of(identifier, variable, rhs),
                        },
                    ),
                ),
            )
        },
        air::ExprView::Literal(l) => match normalise_literal(l.literal) {
            Some(literal) => (
                s,
                noir::ExprView::Literal(
                    Box::new(noir::LiteralExprView { identifier: l.identifier, literal }),
                ),
            ),
            None => (
                report(s, NormaliserErrKind::UnsupportedLiteral, l.identifier),
                void(l.identifier),
            ),
        },
        air::ExprView::Ref(r) => {
            let (s1, inner) = normalise_expr(s, r.inner);
            (
                s1,
                noir::ExprView::Ref(Box::new(noir::RefExprView { identifier: r.identifier, inner })),
            )
        },
        air::ExprView::Struct(st) => {
            let (s1, elements) = normalise_fields(s, st.elements, st.elements.len());
            let (s2, ty) = normalise_type(s1, st.ty);
            (s2, noir::ExprView::Struct(Box::new(noir::StructExprView { elements, ty })))
        },
        air::ExprView::Void(v) => (s, void(v.identifier)),
    }
}

/// Normalise the first `n` of a row of expressions, in order.
pub open spec fn normalise_exprs(s: NormaliserView, es: Seq<air::ExprView>, n: nat) -> (
    NormaliserView,
    Seq<noir::ExprView>,
)
    decreases es, n,
{
    if n == 0 || n > es.len() {
        (s, Seq::empty())
    } else {
        let (s1, before) = normalise_exprs(s, es, (n - 1) as nat);
        let (s2, e) = normalise_expr(s1, es[n - 1]);
        (s2, before.push(e))
    }
}

/// Normalise the first `n` elements of a structure value, in order: each
/// element, then its value.
pub open spec fn normalise_fields(
    s: NormaliserView,
    fs: Seq<(air::VariableView, air::ExprView)>,
    n: nat,
) -> (NormaliserView, Seq<(noir::VariableView, noir::ExprView)>)
    decreases fs, n,
{
    if n == 0 || n > fs.len() {
        (s, Seq::empty())
    } else {
        let (s1, before) = normalise_fields(s, fs, (n - 1) as nat);
        let (s2, variable) = normalise_variable(s1, fs[n - 1].0);
        let (s3, value) = normalise_expr(s2, fs[n - 1].1);
        (s3, before.push((variable, value)))
    }
}

/// Normalise what an item reference refers to.
pub open spec fn normalise_item(s: NormaliserView, item: air::ItemView) -> (
    NormaliserView,
    noir::ItemView,
)
    decreases item, 0nat,
{
    match item {
        air::ItemView::Function(f) => {
            let (s1, function) = normalise_function(s, *f);
            (s1, noir::ItemView::Function(Box::new(function)))
        },
        air::ItemView::Module(m) => {
            let (s1, module) = normalise_module(s, *m);
            (s1, noir::ItemView::Module(Box::new(module)))
        },
        air::ItemView::Type(t) => {
            let (s1, ty) = normalise_type(s, *t);
            (s1, noir::ItemView::Type(Box::new(ty)))
        },
        air::ItemView::Variable(v) => {
            let (s1, variable) = normalise_variable(s, *v);
            (s1, noir::ItemView::Variable(Box::new(variable)))
        },
    }
}

/// Normalise a block: its expressions, its last expression, and its
/// declarations. Nothing runs before or after its expressions.
pub open spec fn normalise_block_expr(s: NormaliserView, b: air::BlockExprView) -> (
    NormaliserView,
    noir::BlockExprView,
)
    decreases b, 0nat,
{
    let (s1, body) = normalise_exprs(s, b.body, b.body.len());
    let (s2, ret) = normalise_expr(s1, b.ret);
    let (s3, function_table) = normalise_function_table(
        s2,
        b.function_table,
        b.function_table.len(),
    );
    let (s4, module_table) = normalise_module_table(s3, b.module_table, b.module_table.len());
    let (s5, type_table) = normalise_type_table(s4, b.type_table, b.type_table.len());
    (
        s5,
        noir::BlockExprView {
            identifier: b.identifier,
            prelude: Seq::empty(),
            body,
            ret,
            epilogue: Seq::empty(),
            function_table,
            module_table,
            type_table,
        },
    )
}

/// Normalise a function: its formals, the type of its result, and its
/// body. Its mangled name is the display name of its symbol.
pub open spec fn normalise_function(s: NormaliserView, f: air::FunctionView) -> (
    NormaliserView,
    noir::FunctionView,
)
    decreases f, 0nat,
{
    let (s1, formals) = normalise_variables(s, f.formals, f.formals.len());
    let (s2, ret) = normalise_type(s1, f.ret);
    let (s3, body) = match f.body {
        Some(b) => {
            let (s3, block) = normalise_block_expr(s2, b);
            (s3, Some(block))
        },
        None => (s2, None),
    };
    (
        s3,
        noir::FunctionView { symbol: f.symbol, formals, ret, body, mangled_name: f.symbol.name },
    )
}

/// Normalise a module: its functions, its modules and its types.
pub open spec fn normalise_module(s: NormaliserView, m: air::ModuleView) -> (
    NormaliserView,
    noir::ModuleView,
)
    decreases m, 0nat,
{
    let (s1, function_table) = normalise_function_table(
        s,
        m.function_table,
        m.function_table.len(),
    );
    let (s2, module_table) = normalise_module_table(s1, m.module_table, m.module_table.len());
    let (s3, type_table) = normalise_type_table(s2, m.type_table, m.type_table.len());
    (s3, noir::ModuleView { symbol: m.symbol, function_table, module_table, type_table })
}

/// Normalise the first `n` functions of a table, each under its
/// identifier.
pub open spec fn normalise_function_table(
    s: NormaliserView,
    t: Seq<(IdentifierView, air::FunctionView)>,
    n: nat,
) -> (NormaliserView, Seq<(IdentifierView, noir::FunctionView)>)
    decreases t, n,
{
    if n == 0 || n > t.len() {
        (s, Seq::empty())
    } else {
        let (s1, before) = normalise_function_table(s, t, (n - 1) as nat);
        let (s2, f) = normalise_function(s1, t[n - 1].1);
        (s2, before.push((t[n - 1].0, f)))
    }
}

/// Normalise the first `n` modules of a table, each under its identifier.
pub open spec fn normalise_module_table(
    s: NormaliserView,
    t: Seq<(IdentifierView, air::ModuleView)>,
    n: nat,
) -> (NormaliserView, Seq<(IdentifierView, noir::ModuleView)>)
    decreases t, n,
{
    if n == 0 || n > t.len() {
        (s, Seq::empty())
    } else {
        let (s1, before) = normalise_module_table(s, t, (n - 1) as nat);
        let (s2, m) = normalise_module(s1, t[n - 1].1);
        (s2, before.push((t[n - 1].0, m)))
    }
}

/// Normalise the first `n` types of a table, each under its identifier.
pub open spec fn normalise_type_table(
    s: NormaliserView,
    t: Seq<(IdentifierView, air::TypeView)>,
    n: nat,
) -> (NormaliserView, Seq<(IdentifierView, noir::TypeView)>)
    decreases t, n,
{
    if n == 0 || n > t.len() {
        (s, Seq::empty())
    } else {
        let (s1, before) = normalise_type_table(s, t, (n - 1) as nat);
        let (s2, ty) = normalise_type(s1, t[n - 1].1);
        (s2, before.push((t[n - 1].0, ty)))
    }
}

} // verus!
