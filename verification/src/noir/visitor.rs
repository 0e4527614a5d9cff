//! Visiting the nodes of the normalised representation: a visitor says
//! what it does at each kind of node, and a walk hands each node to the part
//! of the visitor that is for its kind.

use vstd::prelude::*;
use super::{
    AliasType, AssignExpr, BlockExpr, CallExpr, DerefExpr, EnumType, Expr, ForExpr, Function,
    IfExpr, ItemExpr, LambdaType, LetExpr, LiteralExpr, Module, PrimitiveType, ProcessExpr,
    ProcessJoinExpr, PtrType, RefExpr, RefType, StructExpr, StructType, Type, Variable,
    VariableExpr, VoidExpr,
};

verus! {

/// A visitor of the normalised representation. For each kind of node it
/// has a method, and a statement of what the method does: how the visitor
/// after the visit and the result relate to the visitor before the visit
/// and the node. A visitor that states nothing of a method leaves the
/// statement as it is.
pub trait Visitor: Sized {
    type Return;

    /// What a visit of an `AssignExpr` does.
    open spec fn visited_assign_expr(before: Self, node: AssignExpr, after: Self, ret: Self::Return) -> bool {
        true
    }

    fn visit_assign_expr(&mut self, node: &AssignExpr) -> (ret: Self::Return)
        ensures
            Self::visited_assign_expr(*old(self), *node, *final(self), ret),
    ;

    /// What a visit of a `BlockExpr` does.
    open spec fn visited_block_expr(before: Self, node: BlockExpr, after: Self, ret: Self::Return) -> bool {
        true
    }

    fn visit_block_expr(&mut self, node: &BlockExpr) -> (ret: Self::Return)
        ensures
            Self::visited_block_expr(*old(self), *node, *final(self), ret),
    ;

    /// What a visit of a `CallExpr` does.
    open spec fn visited_call_expr(before: Self, node: CallExpr, after: Self, ret: Self::Return) -> bool {
        true
    }

    fn visit_call_expr(&mut self, node: &CallExpr) -> (ret: Self::Return)
        ensures
            Self::visited_call_expr(*old(self), *node, *final(self), ret),
    ;

    /// What a visit of a `DerefExpr` does.
    open spec fn visited_deref_expr(before: Self, node: DerefExpr, after: Self, ret: Self::Return) -> bool {
        true
    }

    fn visit_deref_expr(&mut self, node: &DerefExpr) -> (ret: Self::Return)
        ensures
            Self::visited_deref_expr(*old(self), *node, *final(self), ret),
    ;

    /// What a visit of a `ForExpr` does.
    open spec fn visited_for_expr(before: Self, node: ForExpr, after: Self, ret: Self::Return) -> bool {
        true
    }

    fn visit_for_expr(&mut self, node: &ForExpr) -> (ret: Self::Return)
        ensures
            Self::visited_for_expr(*old(self), *node, *final(self), ret),
    ;

    /// What a visit of an `IfExpr` does.
    open spec fn visited_if_expr(before: Self, node: IfExpr, after: Self, ret: Self::Return) -> bool {
        true
    }

    fn visit_if_expr(&mut self, node: &IfExpr) -> (ret: Self::Return)
        ensures
            Self::visited_if_expr(*old(self), *node, *final(self), ret),
    ;

    /// What a visit of an `ItemExpr` does.
    open spec fn visited_item_expr(before: Self, node: ItemExpr, after: Self, ret: Self::Return) -> bool {
        true
    }

    fn visit_item_expr(&mut self, node: &ItemExpr) -> (ret: Self::Return)
        ensures
            Self::visited_item_expr(*old(self), *node, *final(self), ret),
    ;

    /// What a visit of a `LetExpr` does.
    open spec fn visited_let_expr(before: Self, node: LetExpr, after: Self, ret: Self::Return) -> bool {
        true
    }

    fn visit_let_expr(&mut self, node: &LetExpr) -> (ret: Self::Return)
        ensures
            Self::visited_let_expr(*old(self), *node, *final(self), ret),
    ;

    /// What a visit of a `LiteralExpr` does.
    open spec fn visited_literal_expr(before: Self, node: LiteralExpr, after: Self, ret: Self::Return) -> bool {
        true
    }

    fn visit_literal_expr(&mut self, node: &LiteralExpr) -> (ret: Self::Return)
        ensures
            Self::visited_literal_expr(*old(self), *node, *final(self), ret),
    ;

    /// What a visit of a `ProcessExpr` does.
    open spec fn visited_process_expr(before: Self, node: ProcessExpr, after: Self, ret: Self::Return) -> bool {
        true
    }

    fn visit_process_expr(&mut self, node: &ProcessExpr) -> (ret: Self::Return)
        ensures
            Self::visited_process_expr(*old(self), *node, *final(self), ret),
    ;

    /// What a visit of a `ProcessJoinExpr` does.
    open spec fn visited_process_join_expr(before: Self, node: ProcessJoinExpr, after: Self, ret: Self::Return) -> bool {
        true
    }

    fn visit_process_join_expr(&mut self, node: &ProcessJoinExpr) -> (ret: Self::Return)
        ensures
            Self::visited_process_join_expr(*old(self), *node, *final(self), ret),
    ;

    /// What a visit of a `StructExpr` does.
    open spec fn visited_struct_expr(before: Self, node: StructExpr, after: Self, ret: Self::Return) -> bool {
        true
    }

    fn visit_struct_expr(&mut self, node: &StructExpr) -> (ret: Self::Return)
        ensures
            Self::visited_struct_expr(*old(self), *node, *final(self), ret),
    ;

    /// What a visit of a `RefExpr` does.
    open spec fn visited_ref_expr(before: Self, node: RefExpr, after: Self, ret: Self::Return) -> bool {
        true
    }

    fn visit_ref_expr(&mut self, node: &RefExpr) -> (ret: Self::Return)
        ensures
            Self::visited_ref_expr(*old(self), *node, *final(self), ret),
    ;

    /// What a visit of a `VariableExpr` does.
    open spec fn visited_variable_expr(before: Self, node: VariableExpr, after: Self, ret: Self::Return) -> bool {
        true
    }

    fn visit_variable_expr(&mut self, node: &VariableExpr) -> (ret: Self::Return)
        ensures
            Self::visited_variable_expr(*old(self), *node, *final(self), ret),
    ;

    /// What a visit of a `VoidExpr` does.
    open spec fn visited_void_expr(before: Self, node: VoidExpr, after: Self, ret: Self::Return) -> bool {
        true
    }

    fn visit_void_expr(&mut self, node: &VoidExpr) -> (ret: Self::Return)
        ensures
            Self::visited_void_expr(*old(self), *node, *final(self), ret),
    ;

    /// What a visit of an `AliasType` does.
    open spec fn visited_alias_type(before: Self, node: AliasType, after: Self, ret: Self::Return) -> bool {
        true
    }

    fn visit_alias_type(&mut self, node: &AliasType) -> (ret: Self::Return)
        ensures
            Self::visited_alias_type(*old(self), *node, *final(self), ret),
    ;

    /// What a visit of an `EnumType` does.
    open spec fn visited_enum_type(before: Self, node: EnumType, after: Self, ret: Self::Return) -> bool {
        true
    }

    fn visit_enum_type(&mut self, node: &EnumType) -> (ret: Self::Return)
        ensures
            Self::visited_enum_type(*old(self), *node, *final(self), ret),
    ;

    /// What a visit of a `LambdaType` does.
    open spec fn visited_lambda_type(before: Self, node: LambdaType, after: Self, ret: Self::Return) -> bool {
        true
    }

    fn visit_lambda_type(&mut self, node: &LambdaType) -> (ret: Self::Return)
        ensures
            Self::visited_lambda_type(*old(self), *node, *final(self), ret),
    ;

    /// What a visit of a `PrimitiveType` does.
    open spec fn visited_primitive_type(before: Self, node: PrimitiveType, after: Self, ret: Self::Return) -> bool {
        true
    }

    fn visit_primitive_type(&mut self, node: &PrimitiveType) -> (ret: Self::Return)
        ensures
            Self::visited_primitive_type(*old(self), *node, *final(self), ret),
    ;

    /// What a visit of a `PtrType` does.
    open spec fn visited_ptr_type(before: Self, node: PtrType, after: Self, ret: Self::Return) -> bool {
        true
    }

    fn visit_ptr_type(&mut self, node: &PtrType) -> (ret: Self::Return)
        ensures
            Self::visited_ptr_type(*old(self), *node, *final(self), ret),
    ;

    /// What a visit of a `RefType` does.
    open spec fn visited_ref_type(before: Self, node: RefType, after: Self, ret: Self::Return) -> bool {
        true
    }

    fn visit_ref_type(&mut self, node: &RefType) -> (ret: Self::Return)
        ensures
            Self::visited_ref_type(*old(self), *node, *final(self), ret),
    ;

    /// What a visit of a `StructType` does.
    open spec fn visited_struct_type(before: Self, node: StructType, after: Self, ret: Self::Return) -> bool {
        true
    }

    fn visit_struct_type(&mut self, node: &StructType) -> (ret: Self::Return)
        ensures
            Self::visited_struct_type(*old(self), *node, *final(self), ret),
    ;

    /// What a visit of a `Function` does.
    open spec fn visited_function(before: Self, node: Function, after: Self, ret: Self::Return) -> bool {
        true
    }

    fn visit_function(&mut self, node: &Function) -> (ret: Self::Return)
        ensures
            Self::visited_function(*old(self), *node, *final(self), ret),
    ;

    /// What a visit of a `Module` does.
    open spec fn visited_module(before: Self, node: Module, after: Self, ret: Self::Return) -> bool {
        true
    }

    fn visit_module(&mut self, node: &Module) -> (ret: Self::Return)
        ensures
            Self::visited_module(*old(self), *node, *final(self), ret),
    ;

    /// What a visit of a `Variable` does.
    open spec fn visited_variable(before: Self, node: Variable, after: Self, ret: Self::Return) -> bool {
        true
    }

    fn visit_variable(&mut self, node: &Variable) -> (ret: Self::Return)
        ensures
            Self::visited_variable(*old(self), *node, *final(self), ret),
    ;
}

/// What a visit of an expression does: what the visit of its kind of node
/// does.
pub open spec fn visited_expr<V: Visitor>(before: V, expr: Expr, after: V, ret: V::Return) -> bool {
    match expr {
        Expr::Assign(node) => V::visited_assign_expr(before, *node, after, ret),
        Expr::Block(node) => V::visited_block_expr(before, *node, after, ret),
        Expr::Call(node) => V::visited_call_expr(before, *node, after, ret),
        Expr::Deref(node) => V::visited_deref_expr(before, *node, after, ret),
        Expr::For(node) => V::visited_for_expr(before, *node, after, ret),
        Expr::If(node) => V::visited_if_expr(before, *node, after, ret),
        Expr::Item(node) => V::visited_item_expr(before, *node, after, ret),
        Expr::Let(node) => V::visited_let_expr(before, *node, after, ret),
        Expr::Literal(node) => V::visited_literal_expr(before, *node, after, ret),
        Expr::Process(node) => V::visited_process_expr(before, *node, after, ret),
        Expr::ProcessJoin(node) => V::visited_process_join_expr(before, *node, after, ret),
        Expr::Struct(node) => V::visited_struct_expr(before, *node, after, ret),
        Expr::Ref(node) => V::visited_ref_expr(before, *node, after, ret),
        Expr::Variable(node) => V::visited_variable_expr(before, *node, after, ret),
        Expr::Void(node) => V::visited_void_expr(before, *node, after, ret),
    }
}

/// What a visit of a type does: what the visit of its kind of node does.
pub open spec fn visited_type<V: Visitor>(before: V, ty: Type, after: V, ret: V::Return) -> bool {
    match ty {
        Type::Alias(node) => V::visited_alias_type(before, *node, after, ret),
        Type::Enum(node) => V::visited_enum_type(before, *node, after, ret),
        Type::Lambda(node) => V::visited_lambda_type(before, *node, after, ret),
        Type::Primitive(node) => V::visited_primitive_type(before, *node, after, ret),
        Type::Ptr(node) => V::visited_ptr_type(before, *node, after, ret),
        Type::Ref(node) => V::visited_ref_type(before, *node, after, ret),
        Type::Struct(node) => V::visited_struct_type(before, *node, after, ret),
    }
}

/// Hand an expression to the method of the visitor that is for its kind.
pub fn walk_expr<V: Visitor>(visitor: &mut V, expr: &Expr) -> (ret: V::Return)
    ensures
        visited_expr::<V>(*old(visitor), *expr, *final(visitor), ret),
{
    match expr {
        Expr::Assign(node) => visitor.visit_assign_expr(node),
        Expr::Block(node) => visitor.visit_block_expr(node),
        Expr::Call(node) => visitor.visit_call_expr(node),
        Expr::Deref(node) => visitor.visit_deref_expr(node),
        Expr::For(node) => visitor.visit_for_expr(node),
        Expr::If(node) => visitor.visit_if_expr(node),
        Expr::Item(node) => visitor.visit_item_expr(node),
        Expr::Let(node) => visitor.visit_let_expr(node),
        Expr::Literal(node) => visitor.visit_literal_expr(node),
        Expr::Process(node) => visitor.visit_process_expr(node),
        Expr::ProcessJoin(node) => visitor.visit_process_join_expr(node),
        Expr::Struct(node) => visitor.visit_struct_expr(node),
        Expr::Ref(node) => visitor.visit_ref_expr(node),
        Expr::Variable(node) => visitor.visit_variable_expr(node),
        Expr::Void(node) => visitor.visit_void_expr(node),
    }
}

/// Hand a type to the method of the visitor that is for its kind.
pub fn walk_type<V: Visitor>(visitor: &mut V, ty: &Type) -> (ret: V::Return)
    ensures
        visited_type::<V>(*old(visitor), *ty, *final(visitor), ret),
{
    match ty {
        Type::Alias(node) => visitor.visit_alias_type(node),
        Type::Enum(node) => visitor.visit_enum_type(node),
        Type::Lambda(node) => visitor.visit_lambda_type(node),
        Type::Primitive(node) => visitor.visit_primitive_type(node),
        Type::Ptr(node) => visitor.visit_ptr_type(node),
        Type::Ref(node) => visitor.visit_ref_type(node),
        Type::Struct(node) => visitor.visit_struct_type(node),
    }
}

} // verus!
