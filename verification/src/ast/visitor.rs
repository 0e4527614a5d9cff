//! Visiting the nodes of a syntax tree: a visitor says what it does at each
//! kind of node, and a walk hands each node to the part of the visitor that
//! is for its kind.

use vstd::prelude::*;
use crate::bair::PrimitiveType;
use super::{
    AssignExpr, BlockExpr, CallExpr, ChannelExpr, DerefExpr, Expr, ForExpr, FunctionDecl,
    FunctionFormal, IfExpr, ItemExpr, LambdaType, ListExpr, ListRangeExpr, LiteralExpr, ModuleDecl,
    OperatorExpr, PtrType, RefExpr, RefType, SelectExpr, StructType, TupleExpr, Type, TypeDecl,
    UnresolvedType, VoidExpr,
};

verus! {

/// A visitor of syntax trees. For each kind of node it has a method, and a
/// statement of what the method does: how the visitor after the visit and
/// the result relate to the visitor before the visit and the node. A visitor
/// that states nothing of a method leaves the statement as it is.
pub trait Visitor: Sized {
    type Return;

    /// What a visit of an `AssignExpr` does.
    open spec fn visited_assign_expr(before: Self, node: AssignExpr, after: Self, ret: Self::Return) -> bool {
        true
    }

    fn visit_assign_expr(&mut self, node: &AssignExpr) -> (ret: Self::Return)
        ensures
            Self::visited_assign_expr(*old(self), *node, *final(self), ret),
    ;

    /// What a visit of a `BlockExpr` does.
    open spec fn visited_block_expr(before: Self, node: BlockExpr, after: Self, ret: Self::Return) -> bool {
        true
    }

    fn visit_block_expr(&mut self, node: &BlockExpr) -> (ret: Self::Return)
        ensures
            Self::visited_block_expr(*old(self), *node, *final(self), ret),
    ;

    /// What a visit of a `CallExpr` does.
    open spec fn visited_call_expr(before: Self, node: CallExpr, after: Self, ret: Self::Return) -> bool {
        true
    }

    fn visit_call_expr(&mut self, node: &CallExpr) -> (ret: Self::Return)
        ensures
            Self::visited_call_expr(*old(self), *node, *final(self), ret),
    ;

    /// What a visit of a `ChannelExpr` does.
    open spec fn visited_channel_expr(before: Self, node: ChannelExpr, after: Self, ret: Self::Return) -> bool {
        true
    }

    fn visit_channel_expr(&mut self, node: &ChannelExpr) -> (ret: Self::Return)
        ensures
            Self::visited_channel_expr(*old(self), *node, *final(self), ret),
    ;

    /// What a visit of a `DerefExpr` does.
    open spec fn visited_deref_expr(before: Self, node: DerefExpr, after: Self, ret: Self::Return) -> bool {
        true
    }

    fn visit_deref_expr(&mut self, node: &DerefExpr) -> (ret: Self::Return)
        ensures
            Self::visited_deref_expr(*old(self), *node, *final(self), ret),
    ;

    /// What a visit of a `ForExpr` does.
    open spec fn visited_for_expr(before: Self, node: ForExpr, after: Self, ret: Self::Return) -> bool {
        true
    }

    fn visit_for_expr(&mut self, node: &ForExpr) -> (ret: Self::Return)
        ensures
            Self::visited_for_expr(*old(self), *node, *final(self), ret),
    ;

    /// What a visit of an `IfExpr` does.
    open spec fn visited_if_expr(before: Self, node: IfExpr, after: Self, ret: Self::Return) -> bool {
        true
    }

    fn visit_if_expr(&mut self, node: &IfExpr) -> (ret: Self::Return)
        ensures
            Self::visited_if_expr(*old(self), *node, *final(self), ret),
    ;

    /// What a visit of an `ItemExpr` does.
    open spec fn visited_item_expr(before: Self, node: ItemExpr, after: Self, ret: Self::Return) -> bool {
        true
    }

    fn visit_item_expr(&mut self, node: &ItemExpr) -> (ret: Self::Return)
        ensures
            Self::visited_item_expr(*old(self), *node, *final(self), ret),
    ;

    /// What a visit of a `ListExpr` does.
    open spec fn visited_list_expr(before: Self, node: ListExpr, after: Self, ret: Self::Return) -> bool {
        true
    }

    fn visit_list_expr(&mut self, node: &ListExpr) -> (ret: Self::Return)
        ensures
            Self::visited_list_expr(*old(self), *node, *final(self), ret),
    ;

    /// What a visit of a `ListRangeExpr` does.
    open spec fn visited_list_range_expr(before: Self, node: ListRangeExpr, after: Self, ret: Self::Return) -> bool {
        true
    }

    fn visit_list_range_expr(&mut self, node: &ListRangeExpr) -> (ret: Self::Return)
        ensures
            Self::visited_list_range_expr(*old(self), *node, *final(self), ret),
    ;

    /// What a visit of a `LiteralExpr` does.
    open spec fn visited_literal_expr(before: Self, node: LiteralExpr, after: Self, ret: Self::Return) -> bool {
        true
    }

    fn visit_literal_expr(&mut self, node: &LiteralExpr) -> (ret: Self::Return)
        ensures
            Self::visited_literal_expr(*old(self), *node, *final(self), ret),
    ;

    /// What a visit of an `OperatorExpr` does.
    open spec fn visited_operator_expr(before: Self, node: OperatorExpr, after: Self, ret: Self::Return) -> bool {
        true
    }

    fn visit_operator_expr(&mut self, node: &OperatorExpr) -> (ret: Self::Return)
        ensures
            Self::visited_operator_expr(*old(self), *node, *final(self), ret),
    ;

    /// What a visit of a `RefExpr` does.
    open spec fn visited_ref_expr(before: Self, node: RefExpr, after: Self, ret: Self::Return) -> bool {
        true
    }

    fn visit_ref_expr(&mut self, node: &RefExpr) -> (ret: Self::Return)
        ensures
            Self::visited_ref_expr(*old(self), *node, *final(self), ret),
    ;

    /// What a visit of a `SelectExpr` does.
    open spec fn visited_select_expr(before: Self, node: SelectExpr, after: Self, ret: Self::Return) -> bool {
        true
    }

    fn visit_select_expr(&mut self, node: &SelectExpr) -> (ret: Self::Return)
        ensures
            Self::visited_select_expr(*old(self), *node, *final(self), ret),
    ;

    /// What a visit of a `TupleExpr` does.
    open spec fn visited_tuple_expr(before: Self, node: TupleExpr, after: Self, ret: Self::Return) -> bool {
        true
    }

    fn visit_tuple_expr(&mut self, node: &TupleExpr) -> (ret: Self::Return)
        ensures
            Self::visited_tuple_expr(*old(self), *node, *final(self), ret),
    ;

    /// What a visit of a `VoidExpr` does.
    open spec fn visited_void_expr(before: Self, node: VoidExpr, after: Self, ret: Self::Return) -> bool {
        true
    }

    fn visit_void_expr(&mut self, node: &VoidExpr) -> (ret: Self::Return)
        ensures
            Self::visited_void_expr(*old(self), *node, *final(self), ret),
    ;

    /// What a visit of a `LambdaType` does.
    open spec fn visited_lambda_type(before: Self, node: LambdaType, after: Self, ret: Self::Return) -> bool {
        true
    }

    fn visit_lambda_type(&mut self, node: &LambdaType) -> (ret: Self::Return)
        ensures
            Self::visited_lambda_type(*old(self), *node, *final(self), ret),
    ;

    /// What a visit of a `PrimitiveType` does.
    open spec fn visited_primitive_type(before: Self, node: PrimitiveType, after: Self, ret: Self::Return) -> bool {
        true
    }

    fn visit_primitive_type(&mut self, node: &PrimitiveType) -> (ret: Self::Return)
        ensures
            Self::visited_primitive_type(*old(self), *node, *final(self), ret),
    ;

    /// What a visit of a `PtrType` does.
    open spec fn visited_ptr_type(before: Self, node: PtrType, after: Self, ret: Self::Return) -> bool {
        true
    }

    fn visit_ptr_type(&mut self, node: &PtrType) -> (ret: Self::Return)
        ensures
            Self::visited_ptr_type(*old(self), *node, *final(self), ret),
    ;

    /// What a visit of a `RefType` does.
    open spec fn visited_ref_type(before: Self, node: RefType, after: Self, ret: Self::Return) -> bool {
        true
    }

    fn visit_ref_type(&mut self, node: &RefType) -> (ret: Self::Return)
        ensures
            Self::visited_ref_type(*old(self), *node, *final(self), ret),
    ;

    /// What a visit of a `StructType` does.
    open spec fn visited_struct_type(before: Self, node: StructType, after: Self, ret: Self::Return) -> bool {
        true
    }

    fn visit_struct_type(&mut self, node: &StructType) -> (ret: Self::Return)
        ensures
            Self::visited_struct_type(*old(self), *node, *final(self), ret),
    ;

    /// What a visit of an `UnresolvedType` does.
    open spec fn visited_unresolved_type(before: Self, node: UnresolvedType, after: Self, ret: Self::Return) -> bool {
        true
    }

    fn visit_unresolved_type(&mut self, node: &UnresolvedType) -> (ret: Self::Return)
        ensures
            Self::visited_unresolved_type(*old(self), *node, *final(self), ret),
    ;

    /// What a visit of a `FunctionDecl` does.
    open spec fn visited_function(before: Self, node: FunctionDecl, after: Self, ret: Self::Return) -> bool {
        true
    }

    fn visit_function(&mut self, node: &FunctionDecl) -> (ret: Self::Return)
        ensures
            Self::visited_function(*old(self), *node, *final(self), ret),
    ;

    /// What a visit of a `ModuleDecl` does.
    open spec fn visited_module(before: Self, node: ModuleDecl, after: Self, ret: Self::Return) -> bool {
        true
    }

    fn visit_module(&mut self, node: &ModuleDecl) -> (ret: Self::Return)
        ensures
            Self::visited_module(*old(self), *node, *final(self), ret),
    ;

    /// What a visit of a `TypeDecl` does.
    open spec fn visited_type_decl(before: Self, node: TypeDecl, after: Self, ret: Self::Return) -> bool {
        true
    }

    fn visit_type_decl(&mut self, node: &TypeDecl) -> (ret: Self::Return)
        ensures
            Self::visited_type_decl(*old(self), *node, *final(self), ret),
    ;

    /// What a visit of a `FunctionFormal` does.
    open spec fn visited_variable(before: Self, node: FunctionFormal, after: Self, ret: Self::Return) -> bool {
        true
    }

    fn visit_variable(&mut self, node: &FunctionFormal) -> (ret: Self::Return)
        ensures
            Self::visited_variable(*old(self), *node, *final(self), ret),
    ;
}

/// What a visit of an expression does: what the visit of its kind of node
/// does.
pub open spec fn visited_expr<V: Visitor>(before: V, expr: Expr, after: V, ret: V::Return) -> bool {
    match expr {
        Expr::Assign(node) => V::visited_assign_expr(before, *node, after, ret),
        Expr::Block(node) => V::visited_block_expr(before, *node, after, ret),
        Expr::Call(node) => V::visited_call_expr(before, *node, after, ret),
        Expr::Channel(node) => V::visited_channel_expr(before, *node, after, ret),
        Expr::Deref(node) => V::visited_deref_expr(before, *node, after, ret),
        Expr::For(node) => V::visited_for_expr(before, *node, after, ret),
        Expr::If(node) => V::visited_if_expr(before, *node, after, ret),
        Expr::Item(node) => V::visited_item_expr(before, *node, after, ret),
        Expr::List(node) => V::visited_list_expr(before, *node, after, ret),
        Expr::ListRange(node) => V::visited_list_range_expr(before, *node, after, ret),
        Expr::Literal(node) => V::visited_literal_expr(before, *node, after, ret),
        Expr::Operator(node) => V::visited_operator_expr(before, *node, after, ret),
        Expr::Ref(node) => V::visited_ref_expr(before, *node, after, ret),
        Expr::Select(node) => V::visited_select_expr(before, *node, after, ret),
        Expr::Tuple(node) => V::visited_tuple_expr(before, *node, after, ret),
        Expr::Void(node) => V::visited_void_expr(before, *node, after, ret),
    }
}

/// What a visit of a type does: what the visit of its kind of node does.
pub open spec fn visited_type<V: Visitor>(before: V, ty: Type, after: V, ret: V::Return) -> bool {
    match ty {
        Type::Lambda(node) => V::visited_lambda_type(before, *node, after, ret),
        Type::Primitive(node) => V::visited_primitive_type(before, node, after, ret),
        Type::Ptr(node) => V::visited_ptr_type(before, *node, after, ret),
        Type::Ref(node) => V::visited_ref_type(before, *node, after, ret),
        Type::Struct(node) => V::visited_struct_type(before, *node, after, ret),
        Type::Unresolved(node) => V::visited_unresolved_type(before, *node, after, ret),
    }
}

/// Hand an expression to the method of the visitor that is for its kind.
pub fn walk_expr<V: Visitor>(visitor: &mut V, expr: &Expr) -> (ret: V::Return)
    ensures
        visited_expr::<V>(*old(visitor), *expr, *final(visitor), ret),
{
    match expr {
        Expr::Assign(node) => visitor.visit_assign_expr(node),
        Expr::Block(node) => visitor.visit_block_expr(node),
        Expr::Call(node) => visitor.visit_call_expr(node),
        Expr::Channel(node) => visitor.visit_channel_expr(node),
        Expr::Deref(node) => visitor.visit_deref_expr(node),
        Expr::For(node) => visitor.visit_for_expr(node),
        Expr::If(node) => visitor.visit_if_expr(node),
        Expr::Item(node) => visitor.visit_item_expr(node),
        Expr::List(node) => visitor.visit_list_expr(node),
        Expr::ListRange(node) => visitor.visit_list_range_expr(node),
        Expr::Literal(node) => visitor.visit_literal_expr(node),
        Expr::Operator(node) => visitor.visit_operator_expr(node),
        Expr::Ref(node) => visitor.visit_ref_expr(node),
        Expr::Select(node) => visitor.visit_select_expr(node),
        Expr::Tuple(node) => visitor.visit_tuple_expr(node),
        Expr::Void(node) => visitor.visit_void_expr(node),
    }
}

/// Hand a type to the method of the visitor that is for its kind.
pub fn walk_type<V: Visitor>(visitor: &mut V, ty: &Type) -> (ret: V::Return)
    ensures
        visited_type::<V>(*old(visitor), *ty, *final(visitor), ret),
{
    match ty {
        Type::Lambda(node) => visitor.visit_lambda_type(node),
        Type::Primitive(node) => visitor.visit_primitive_type(node),
        Type::Ptr(node) => visitor.visit_ptr_type(node),
        Type::Ref(node) => visitor.visit_ref_type(node),
        Type::Struct(node) => visitor.visit_struct_type(node),
        Type::Unresolved(node) => visitor.visit_unresolved_type(node),
    }
}

} // verus!
