//! The names that the language knows without a declaration.

use vstd::prelude::*;
use vstd::string::StringExecFns;
use crate::ast;
use crate::bair::PrimitiveType;
use super::model;

verus! {

/// The name of an operator.
pub fn operator_name(kind: ast::OperatorKind) -> (name: &'static str)
    ensures
        name@ == model::operator_name(kind),
{
    match kind {
        ast::OperatorKind::Add => "add",
        ast::OperatorKind::AddEq => "addeq",
        ast::OperatorKind::And => "and",
        ast::OperatorKind::Assign => "assign",
        ast::OperatorKind::Div => "div",
        ast::OperatorKind::DivEq => "diveq",
        ast::OperatorKind::Equal => "equal",
        ast::OperatorKind::GreaterThan => "greaterthan",
        ast::OperatorKind::GreaterThanEq => "greaterthaneq",
        ast::OperatorKind::LessThan => "lessthan",
        ast::OperatorKind::LessThanEq => "lessthaneq",
        ast::OperatorKind::Mul => "mul",
        ast::OperatorKind::MulEq => "muleq",
        ast::OperatorKind::Or => "or",
        ast::OperatorKind::PushPop => "pushpop",
        ast::OperatorKind::Sub => "sub",
        ast::OperatorKind::SubEq => "subeq",
    }
}

/// The name of the function that stands for an operator on operands of a
/// primitive type.
pub fn operator_function_name(kind: ast::OperatorKind, p: PrimitiveType) -> (name: String)
    ensures
        name@ == model::operator_function_name(kind, p),
{
    let mut name = "__libprelude__".to_owned();
    name.append(operator_name(kind));
    name.append("_");
    name.append(p.name());
    name
}

} // verus!
