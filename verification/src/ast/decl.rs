//! Declarations of the functions that the language brings along for its
//! operators.

use vstd::prelude::*;
use vstd::string::StringExecFns;
use crate::bair::PrimitiveType;
use crate::identifier::{IdAllocator, IdentifierView, Symbol};
use crate::lexer::span::Span;
use super::{FunctionDecl, FunctionFormal, FunctionFormals, Type};

verus! {

/// The identity after the given one; the last identity is followed by
/// itself.
pub open spec fn following(id: u64) -> u64 {
    if id < u64::MAX {
        (id + 1) as u64
    } else {
        u64::MAX
    }
}

/// Whether a declaration is that of the function for a binary operator on
/// a primitive type, made with the identities from `next` on: it is extern
/// and has no body; its formals `x` and `y` are owned and immutable, and
/// they and the result have the primitive type; its name is made of the
/// names of the operator and the type.
pub open spec fn is_binary_operator_decl(
    decl: FunctionDecl,
    next: u64,
    operator: Seq<char>,
    ty: PrimitiveType,
    span: Span,
) -> bool {
    &&& decl.is_extern
    &&& decl.body is None
    &&& decl.ret == Type::Primitive(ty)
    &&& decl.span == span
    &&& decl.symbol@ == (IdentifierView {
        id: following(following(next)),
        name: "__libprelude__"@ + operator + "_"@ + ty.spec_name(),
    })
    &&& decl.formals@.len() == 2
    &&& decl.formals@[0].symbol@ == (IdentifierView { id: next, name: "x"@ })
    &&& decl.formals@[1].symbol@ == (IdentifierView { id: following(next), name: "y"@ })
    &&& forall|i: int|
        0 <= i < 2 ==> {
            &&& !(#[trigger] decl.formals@[i]).is_mut
            &&& !decl.formals@[i].is_ref
            &&& decl.formals@[i].ty == Type::Primitive(ty)
        }
}

/// Create a `FunctionDecl` that represents a binary operator from the
/// prelude library: an extern declaration with a profile that matches the
/// respective binary operator. The formals are immutable and owned.
pub fn decl_binary_operator(
    alloc: &mut IdAllocator,
    operator: &str,
    ty: PrimitiveType,
    span: Span,
) -> (decl: FunctionDecl)
    ensures
        is_binary_operator_decl(decl, old(alloc).spec_next(), operator@, ty, span),
        final(alloc).is_after(*old(alloc), 3),
{
    proof {
        reveal_with_fuel(IdAllocator::spec_after, 4);
    }
    let mut formals = FunctionFormals::new();
    formals.push(FunctionFormal::new(Symbol::new(alloc, "x"), false, false, Type::Primitive(ty)));
    formals.push(FunctionFormal::new(Symbol::new(alloc, "y"), false, false, Type::Primitive(ty)));
    let mut name = "__libprelude__".to_owned();
    name.append(operator);
    name.append("_");
    name.append(ty.name());
    FunctionDecl::new(
        true,
        formals,
        Symbol::new(alloc, name.as_str()),
        Type::Primitive(ty),
        None,
        span,
    )
}

/// The declaration of the addition on a primitive type.
pub fn decl_add_operator(alloc: &mut IdAllocator, ty: PrimitiveType, span: Span) -> (decl:
    FunctionDecl)
    ensures
        is_binary_operator_decl(decl, old(alloc).spec_next(), "add"@, ty, span),
        final(alloc).is_after(*old(alloc), 3),
{
    decl_binary_operator(alloc, "add", ty, span)
}

/// The declaration of the division on a primitive type.
pub fn decl_div_operator(alloc: &mut IdAllocator, ty: PrimitiveType, span: Span) -> (decl:
    FunctionDecl)
    ensures
        is_binary_operator_decl(decl, old(alloc).spec_next(), "div"@, ty, span),
        final(alloc).is_after(*old(alloc), 3),
{
    decl_binary_operator(alloc, "div", ty, span)
}

/// The declaration of the multiplication on a primitive type.
pub fn decl_mul_operator(alloc: &mut IdAllocator, ty: PrimitiveType, span: Span) -> (decl:
    FunctionDecl)
    ensures
        is_binary_operator_decl(decl, old(alloc).spec_next(), "mul"@, ty, span),
        final(alloc).is_after(*old(alloc), 3),
{
    decl_binary_operator(alloc, "mul", ty, span)
}

/// The declaration of the subtraction on a primitive type.
pub fn decl_sub_operator(alloc: &mut IdAllocator, ty: PrimitiveType, span: Span) -> (decl:
    FunctionDecl)
    ensures
        is_binary_operator_decl(decl, old(alloc).spec_next(), "sub"@, ty, span),
        final(alloc).is_after(*old(alloc), 3),
{
    decl_binary_operator(alloc, "sub", ty, span)
}

} // verus!
