//! Structural typing: the type of a node, derived from the node and its
//! children alone.

use vstd::prelude::*;
use crate::bair::PrimitiveType;
use super::{
    clone_type, view_type, BlockExpr, CallExpr, Expr, ExprView, Function, FunctionView, IfExpr,
    Item, ItemExpr, ItemView, LambdaType, LambdaTypeView, LetExpr, Literal, LiteralExpr,
    LiteralView, RefType, RefTypeView, Type, TypeView, Variable, VariableView,
};

verus! {

/// The types of a row of variables.
pub open spec fn types_of(variables: Seq<VariableView>) -> Seq<TypeView> {
    Seq::new(variables.len(), |i: int| variables[i].ty)
}

/// The type of a function: the types of its formals and of its result.
pub open spec fn lambda_of(function: FunctionView) -> LambdaTypeView {
    LambdaTypeView { formals: types_of(function.formals), ret: function.ret }
}

/// The type of a literal: the primitive type of its kind. A channel or a
/// list has none.
pub open spec fn typedef_literal(literal: LiteralView) -> Option<TypeView> {
    match literal {
        LiteralView::Bool(_) => Some(TypeView::Primitive(PrimitiveType::Bool)),
        LiteralView::Char(_) => Some(TypeView::Primitive(PrimitiveType::Char)),
        LiteralView::F32(_) => Some(TypeView::Primitive(PrimitiveType::F32)),
        LiteralView::F64(_) => Some(TypeView::Primitive(PrimitiveType::F64)),
        LiteralView::I8(_) => Some(TypeView::Primitive(PrimitiveType::I8)),
        LiteralView::I16(_) => Some(TypeView::Primitive(PrimitiveType::I16)),
        LiteralView::I32(_) => Some(TypeView::Primitive(PrimitiveType::I32)),
        LiteralView::I64(_) => Some(TypeView::Primitive(PrimitiveType::I64)),
        LiteralView::Str(_) => Some(TypeView::Primitive(PrimitiveType::Str)),
        LiteralView::U8(_) => Some(TypeView::Primitive(PrimitiveType::U8)),
        LiteralView::U16(_) => Some(TypeView::Primitive(PrimitiveType::U16)),
        LiteralView::U32(_) => Some(TypeView::Primitive(PrimitiveType::U32)),
        LiteralView::U64(_) => Some(TypeView::Primitive(PrimitiveType::U64)),
        LiteralView::USize(_) => Some(TypeView::Primitive(PrimitiveType::USize)),
        LiteralView::Channel(..) | LiteralView::List(_) | LiteralView::ListRange(..) => None,
    }
}

/// The type of what an item reference refers to: the type of a variable,
/// the type of a function, a type itself. A module has none.
pub open spec fn typedef_item(item: ItemView) -> Option<TypeView> {
    match item {
        ItemView::Function(f) => Some(TypeView::Lambda(Box::new(lambda_of(*f)))),
        ItemView::Module(_) => None,
        ItemView::Type(t) => Some(*t),
        ItemView::Variable(v) => Some(v.ty),
    }
}

/// The type of an expression. A block has the type of its last expression;
/// a call has the result type of its target, which must be a function; a
/// conditional has the type of its first branch; a definition has the type
/// of its variable; a reference has the reference type of its inner type,
/// and a dereference the inner type of a reference or a pointer. A loop
/// has no type.
pub open spec fn typedef_expr(e: ExprView) -> Option<TypeView>
    decreases e,
{
    match e {
        ExprView::Block(b) => typedef_expr(b.ret),
        ExprView::Call(c) => match typedef_expr(c.target) {
            Some(TypeView::Lambda(l)) => Some(l.ret),
            _ => None,
        },
        ExprView::Deref(d) => match typedef_expr(d.inner) {
            Some(TypeView::Ref(r)) => Some(r.inner),
            Some(TypeView::Ptr(p)) => Some(p.inner),
            _ => None,
        },
        ExprView::For(_) => None,
        ExprView::If(i) => typedef_expr(i.then_block.ret),
        ExprView::Item(i) => typedef_item(i.item),
        ExprView::Let(l) => Some(l.variable.ty),
        ExprView::Literal(l) => typedef_literal(l.literal),
        ExprView::Ref(r) => match typedef_expr(r.inner) {
            Some(t) => Some(TypeView::Ref(Box::new(RefTypeView { inner: t }))),
            None => None,
        },
        ExprView::Struct(s) => Some(s.ty),
        ExprView::Void(_) => Some(TypeView::Primitive(PrimitiveType::Void)),
    }
}

/// What a type, or the lack of one, stands for.
pub open spec fn view_typed(t: Option<Type>) -> Option<TypeView> {
    match t {
        Some(t) => Some(t@),
        None => None,
    }
}

/// Implemented by nodes whose type follows from their structure.
pub trait Typedef {
    spec fn spec_typedef(&self) -> Option<TypeView>;

    /// The type of the node; `None` where its structure gives none.
    fn typedef(&self) -> (ty: Option<Type>)
        ensures
            view_typed(ty) == self.spec_typedef(),
    ;
}

fn primitive(p: PrimitiveType) -> (ty: Type)
    ensures
        ty@ == TypeView::Primitive(p),
{
    Type::Primitive(Box::new(p))
}

/// The type of a literal.
pub fn typedef_of_literal(literal: &Literal) -> (ty: Option<Type>)
    ensures
        view_typed(ty) == typedef_literal(literal@),
{
    match literal {
        Literal::Bool(_) => Some(primitive(PrimitiveType::Bool)),
        Literal::Char(_) => Some(primitive(PrimitiveType::Char)),
        Literal::F32(_) => Some(primitive(PrimitiveType::F32)),
        Literal::F64(_) => Some(primitive(PrimitiveType::F64)),
        Literal::I8(_) => Some(primitive(PrimitiveType::I8)),
        Literal::I16(_) => Some(primitive(PrimitiveType::I16)),
        Literal::I32(_) => Some(primitive(PrimitiveType::I32)),
        Literal::I64(_) => Some(primitive(PrimitiveType::I64)),
        Literal::Str(_) => Some(primitive(PrimitiveType::Str)),
        Literal::U8(_) => Some(primitive(PrimitiveType::U8)),
        Literal::U16(_) => Some(primitive(PrimitiveType::U16)),
        Literal::U32(_) => Some(primitive(PrimitiveType::U32)),
        Literal::U64(_) => Some(primitive(PrimitiveType::U64)),
        Literal::USize(_) => Some(primitive(PrimitiveType::USize)),
        Literal::Channel(..) | Literal::List(_) | Literal::ListRange(..) => None,
    }
}

/// The type of a function: the types of its formals and of its result.
pub fn lambda_type_of(function: &Function) -> (ty: LambdaType)
    ensures
        ty@ == lambda_of(function@),
{
    let mut formals: Vec<Type> = Vec::new();
    let mut i: usize = 0;
    while i < function.formals.len()
        invariant
            i <= function.formals.len(),
            formals.len() == i,
            forall|j: int| 0 <= j < i ==> (#[trigger] formals[j])@ == function.formals[j].ty@,
        decreases function.formals.len() - i,
    {
        formals.push(clone_type(&function.formals[i].ty));
        i += 1;
    }
    let ty = LambdaType { formals, ret: clone_type(&function.ret) };
    proof {
        assert forall|j: int| 0 <= j < function.formals.len() implies super::view_variables(
            function.formals@,
        )[j].ty == view_type(function.formals[j].ty) by {
            super::lemma_view_variables_index(function.formals@, j);
        }
        assert(super::view_types(formals@) =~= types_of(
            super::view_variables(function.formals@),
        ));
    }
    ty
}

/// The type of what an item reference refers to.
pub fn typedef_of_item(item: &Item) -> (ty: Option<Type>)
    ensures
        view_typed(ty) == typedef_item(item@),
{
    match item {
        Item::Function(f) => Some(Type::Lambda(Box::new(lambda_type_of(f)))),
        Item::Module(_) => None,
        Item::Type(t) => Some(clone_type(t)),
        Item::Variable(v) => Some(clone_type(&v.ty)),
    }
}

/// The type of an expression.
pub fn typedef_of_expr(e: &Expr) -> (ty: Option<Type>)
    ensures
        view_typed(ty) == typedef_expr(e@),
    decreases e,
{
    proof {
        reveal_with_fuel(super::view_expr, 3);
        reveal_with_fuel(view_type, 2);
    }
    match e {
        Expr::Block(b) => typedef_of_expr(&b.ret),
        Expr::Call(c) => match typedef_of_expr(&c.target) {
            Some(Type::Lambda(l)) => {
                let l: LambdaType = *l;
                Some(l.ret)
            },
            _ => None,
        },
        Expr::Deref(d) => match typedef_of_expr(&d.inner) {
            Some(Type::Ref(r)) => {
                let r: RefType = *r;
                Some(r.inner)
            },
            Some(Type::Ptr(p)) => {
                let p: super::PtrType = *p;
                Some(p.inner)
            },
            _ => None,
        },
        Expr::For(_) => None,
        Expr::If(i) => typedef_of_expr(&i.then_block.ret),
        Expr::Item(i) => typedef_of_item(&i.item),
        Expr::Let(l) => Some(clone_type(&l.variable.ty)),
        Expr::Literal(l) => typedef_of_literal(&l.literal),
        Expr::Ref(r) => match typedef_of_expr(&r.inner) {
            Some(t) => Some(Type::Ref(Box::new(RefType { inner: t }))),
            None => None,
        },
        Expr::Struct(s) => Some(clone_type(&s.ty)),
        Expr::Void(_) => Some(primitive(PrimitiveType::Void)),
    }
}

impl Typedef for Expr {
    open spec fn spec_typedef(&self) -> Option<TypeView> {
        typedef_expr(self@)
    }

    fn typedef(&self) -> (ty: Option<Type>) {
        typedef_of_expr(self)
    }
}

impl Typedef for BlockExpr {
    /// The type of a block is the type of its last expression.
    open spec fn spec_typedef(&self) -> Option<TypeView> {
        typedef_expr(self.ret@)
    }

    fn typedef(&self) -> (ty: Option<Type>) {
        typedef_of_expr(&self.ret)
    }
}

impl Typedef for CallExpr {
    /// The type of a call is the result type of its target.
    open spec fn spec_typedef(&self) -> Option<TypeView> {
        match typedef_expr(self.target@) {
            Some(TypeView::Lambda(l)) => Some(l.ret),
            _ => None,
        }
    }

    fn typedef(&self) -> (ty: Option<Type>) {
        match typedef_of_expr(&self.target) {
            Some(Type::Lambda(l)) => {
                let l: LambdaType = *l;
                Some(l.ret)
            },
            _ => None,
        }
    }
}

impl Typedef for IfExpr {
    /// The type of a conditional is the type of its first branch.
    open spec fn spec_typedef(&self) -> Option<TypeView> {
        typedef_expr(self.then_block.ret@)
    }

    fn typedef(&self) -> (ty: Option<Type>) {
        typedef_of_expr(&self.then_block.ret)
    }
}

impl Typedef for LetExpr {
    open spec fn spec_typedef(&self) -> Option<TypeView> {
        Some(self.variable.ty@)
    }

    fn typedef(&self) -> (ty: Option<Type>) {
        Some(clone_type(&self.variable.ty))
    }
}

impl Typedef for LiteralExpr {
    open spec fn spec_typedef(&self) -> Option<TypeView> {
        typedef_literal(self.literal@)
    }

    fn typedef(&self) -> (ty: Option<Type>) {
        typedef_of_literal(&self.literal)
    }
}

impl Typedef for ItemExpr {
    open spec fn spec_typedef(&self) -> Option<TypeView> {
        typedef_item(self.item@)
    }

    fn typedef(&self) -> (ty: Option<Type>) {
        typedef_of_item(&self.item)
    }
}

impl Typedef for Variable {
    open spec fn spec_typedef(&self) -> Option<TypeView> {
        Some(self.ty@)
    }

    fn typedef(&self) -> (ty: Option<Type>) {
        Some(clone_type(&self.ty))
    }
}

impl Typedef for Function {
    open spec fn spec_typedef(&self) -> Option<TypeView> {
        Some(TypeView::Lambda(Box::new(lambda_of(self@))))
    }

    fn typedef(&self) -> (ty: Option<Type>) {
        Some(Type::Lambda(Box::new(lambda_type_of(self))))
    }
}

impl Function {
    /// Whether the function is only a callable profile: it has no body.
    pub fn is_extern(&self) -> (b: bool)
        ensures
            b == (self@.body is None),
    {
        proof {
            reveal_with_fuel(super::view_function, 2);
        }
        self.body.is_none()
    }

    /// Whether the function gives no result.
    pub fn is_void(&self) -> (b: bool)
        ensures
            b == (self@.ret == TypeView::Primitive(PrimitiveType::Void)),
    {
        proof {
            reveal_with_fuel(super::view_function, 2);
            reveal_with_fuel(view_type, 2);
        }
        match &self.ret {
            Type::Primitive(p) => **p == PrimitiveType::Void,
            _ => false,
        }
    }

    /// The type of the function: the types of its formals and of its
    /// result.
    pub fn lambda_type(&self) -> (ty: LambdaType)
        ensures
            ty@ == lambda_of(self@),
    {
        lambda_type_of(self)
    }
}

/// The type of a block, taken as an expression, is the type of its last
/// expression.
pub proof fn lemma_block_typed_by_tail(block: BlockExpr)
    ensures
        typedef_expr(Expr::Block(Box::new(block))@) == typedef_expr(block.ret@),
        block.spec_typedef() == block.ret.spec_typedef(),
{
    reveal_with_fuel(super::view_expr, 3);
}

/// The type of a literal expression is the primitive type of the literal's
/// kind, whatever its identity.
pub proof fn lemma_literal_typed_by_kind(literal: LiteralExpr)
    ensures
        typedef_expr(Expr::Literal(Box::new(literal))@) == typedef_literal(literal.literal@),
        literal.literal is I64 ==> typedef_expr(Expr::Literal(Box::new(literal))@) == Some(
            TypeView::Primitive(PrimitiveType::I64),
        ),
        literal.literal is Bool ==> typedef_expr(Expr::Literal(Box::new(literal))@) == Some(
            TypeView::Primitive(PrimitiveType::Bool),
        ),
{
    reveal_with_fuel(super::view_expr, 3);
}

} // verus!
