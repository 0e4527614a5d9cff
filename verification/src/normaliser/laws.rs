//! What holds of every normalisation.

use vstd::prelude::*;
use crate::air;
use crate::identifier::IdentifierView;
use crate::noir;
use super::model::{
    normalise_expr, normalise_struct_type, normalise_type, normalise_types, normalise_variables,
    NormaliserView,
};

verus! {

/// A type is settled where no part of it is only known by name, and no
/// part of it is a type parameter.
pub open spec fn settled(t: air::TypeView) -> bool
    decreases t, 0nat,
{
    match t {
        air::TypeView::Alias(a) => settled(a.inner),
        air::TypeView::Enum(e) => settled_types(e.params, e.params.len()) && settled_struct(
            *e.variants,
        ),
        air::TypeView::Generic(_) => false,
        air::TypeView::Lambda(l) => settled_types(l.formals, l.formals.len()) && settled(l.ret),
        air::TypeView::Primitive(_) => true,
        air::TypeView::Ptr(p) => settled(p.inner),
        air::TypeView::Ref(r) => settled(r.inner),
        air::TypeView::Struct(st) => settled_struct(*st),
        air::TypeView::Unresolved(_) => false,
    }
}

/// A structure type is settled where its parameters and the types of its
/// elements are.
pub open spec fn settled_struct(st: air::StructTypeView) -> bool
    decreases st, 0nat,
{
    settled_types(st.params, st.params.len()) && settled_variables(
        st.elements,
        st.elements.len(),
    )
}

/// The first `n` types of a row are settled.
pub open spec fn settled_types(ts: Seq<air::TypeView>, n: nat) -> bool
    decreases ts, n,
{
    if n == 0 || n > ts.len() {
        true
    } else {
        settled_types(ts, (n - 1) as nat) && settled(ts[n - 1])
    }
}

/// The types of the first `n` variables of a row are settled.
pub open spec fn settled_variables(vs: Seq<air::VariableView>, n: nat) -> bool
    decreases vs, n,
{
    if n == 0 || n > vs.len() {
        true
    } else {
        settled_variables(vs, (n - 1) as nat) && settled(vs[n - 1].ty)
    }
}

/// A settled type has a normalised form: its normalisation records no
/// error and takes no identity.
pub proof fn lemma_settled_type_normalises(s: NormaliserView, t: air::TypeView)
    requires
        settled(t),
    ensures
        normalise_type(s, t).0 == s,
    decreases t, 0nat,
{
    reveal_with_fuel(normalise_type, 2);
    match t {
        air::TypeView::Alias(a) => {
            lemma_settled_type_normalises(s, a.inner);
        },
        air::TypeView::Enum(e) => {
            lemma_settled_types_normalise(s, e.params, e.params.len());
            lemma_settled_struct_normalises(s, *e.variants);
        },
        air::TypeView::Lambda(l) => {
            lemma_settled_types_normalise(s, l.formals, l.formals.len());
            lemma_settled_type_normalises(s, l.ret);
        },
        air::TypeView::Ptr(p) => {
            lemma_settled_type_normalises(s, p.inner);
        },
        air::TypeView::Ref(r) => {
            lemma_settled_type_normalises(s, r.inner);
        },
        air::TypeView::Struct(st) => {
            lemma_settled_struct_normalises(s, *st);
        },
        _ => {},
    }
}

/// A settled structure type has a normalised form.
pub proof fn lemma_settled_struct_normalises(s: NormaliserView, st: air::StructTypeView)
    requires
        settled_struct(st),
    ensures
        normalise_struct_type(s, st).0 == s,
    decreases st, 0nat,
{
    lemma_settled_types_normalise(s, st.params, st.params.len());
    lemma_settled_variables_normalise(s, st.elements, st.elements.len());
}

/// Settled types have normalised forms.
pub proof fn lemma_settled_types_normalise(s: NormaliserView, ts: Seq<air::TypeView>, n: nat)
    requires
        settled_types(ts, n),
    ensures
        normalise_types(s, ts, n).0 == s,
    decreases ts, n,
{
    if !(n == 0 || n > ts.len()) {
        lemma_settled_types_normalise(s, ts, (n - 1) as nat);
        lemma_settled_type_normalises(s, ts[n - 1]);
    }
}

/// Variables of settled types have normalised forms.
pub proof fn lemma_settled_variables_normalise(
    s: NormaliserView,
    vs: Seq<air::VariableView>,
    n: nat,
)
    requires
        settled_variables(vs, n),
    ensures
        normalise_variables(s, vs, n).0 == s,
    decreases vs, n,
{
    reveal_with_fuel(normalise_variables, 2);
    if !(n == 0 || n > vs.len()) {
        lemma_settled_variables_normalise(s, vs, (n - 1) as nat);
        lemma_settled_type_normalises(s, vs[n - 1].ty);
    }
}

/// The identity of a normalised expression, where it has one: an
/// assignment, a structure value and a use of a variable have none.
pub open spec fn identity_of(e: noir::ExprView) -> Option<IdentifierView> {
    match e {
        noir::ExprView::Assign(_) => None,
        noir::ExprView::Block(n) => Some(n.identifier),
        noir::ExprView::Call(n) => Some(n.identifier),
        noir::ExprView::Deref(n) => Some(n.identifier),
        noir::ExprView::For(n) => Some(n.identifier),
        noir::ExprView::If(n) => Some(n.identifier),
        noir::ExprView::Item(n) => Some(n.identifier),
        noir::ExprView::Let(n) => Some(n.identifier),
        noir::ExprView::Literal(n) => Some(n.identifier),
        noir::ExprView::Process(n) => Some(n.identifier),
        noir::ExprView::ProcessJoin(n) => Some(n.identifier),
        noir::ExprView::Struct(_) => None,
        noir::ExprView::Ref(n) => Some(n.identifier),
        noir::ExprView::Variable(_) => None,
        noir::ExprView::Void(n) => Some(n.identifier),
    }
}

/// Normalisation keeps the identity of every expression but that of a
/// structure value, which has none in the normalised representation: so
/// what referred to a node before normalisation refers to it afterwards.
pub proof fn lemma_identity_kept(s: NormaliserView, e: air::ExprView)
    ensures
        !(e is Struct) ==> identity_of(normalise_expr(s, e).1) == Some(
            air::Expr::identity_of(e),
        ),
        e is Struct ==> identity_of(normalise_expr(s, e).1) is None,
{
    reveal_with_fuel(normalise_expr, 2);
}

} // verus!
