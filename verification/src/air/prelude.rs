//! The functions that the language brings along: the operators on the
//! primitive types, the joining of strings, and writing.

use vstd::prelude::*;
use vstd::string::StringExecFns;
use crate::bair::PrimitiveType;
use crate::identifier::{IdAllocator, IdentifierView, Symbol};
use super::{
    clone_function, lemma_view_functions_list_index, lemma_view_functions_list_push, view_function,
    view_functions_list, view_type, view_types, view_variables, Function, FunctionView, Functions,
    LambdaType, PtrType, Type, TypeView, Variable, VariableView, Variables,
};

verus! {

/// The families of functions that the language brings along.
#[derive(Clone, Copy, Debug, PartialEq, Eq, Structural)]
pub enum Family {
    Add,
    Div,
    Mul,
    Sub,
    ConcatString,
    Write,
    Writeln,
}

impl Family {
    /// The name of the family.
    pub open spec fn spec_name(self) -> Seq<char> {
        match self {
            Family::Add => "add"@,
            Family::Div => "div"@,
            Family::Mul => "mul"@,
            Family::Sub => "sub"@,
            Family::ConcatString => "concat_string"@,
            Family::Write => "write"@,
            Family::Writeln => "writeln"@,
        }
    }

    /// The name of the family.
    pub fn name(self) -> (name: &'static str)
        ensures
            name@ == self.spec_name(),
    {
        match self {
            Family::Add => "add",
            Family::Div => "div",
            Family::Mul => "mul",
            Family::Sub => "sub",
            Family::ConcatString => "concat_string",
            Family::Write => "write",
            Family::Writeln => "writeln",
        }
    }

    /// Whether the functions of the family take two operands.
    pub open spec fn spec_is_binary(self) -> bool {
        self == Family::Add || self == Family::Div || self == Family::Mul || self == Family::Sub
    }

    /// Whether the functions of the family take two operands.
    #[verifier::when_used_as_spec(spec_is_binary)]
    pub fn is_binary(self) -> (b: bool)
        ensures
            b == self.spec_is_binary(),
    {
        match self {
            Family::Add | Family::Div | Family::Mul | Family::Sub => true,
            _ => false,
        }
    }

    /// The type of the result of the function of the family for operands
    /// of the given type: an operator gives the type of its operands, the
    /// joining of strings gives a string, writing gives nothing.
    pub open spec fn spec_result(self, p: PrimitiveType) -> PrimitiveType {
        match self {
            Family::Add | Family::Div | Family::Mul | Family::Sub => p,
            Family::ConcatString => PrimitiveType::Str,
            Family::Write | Family::Writeln => PrimitiveType::Void,
        }
    }

    /// The type of the result of the function of the family for operands
    /// of the given type.
    #[verifier::when_used_as_spec(spec_result)]
    pub fn result(self, p: PrimitiveType) -> (r: PrimitiveType)
        ensures
            r == self.spec_result(p),
    {
        match self {
            Family::Add | Family::Div | Family::Mul | Family::Sub => p,
            Family::ConcatString => PrimitiveType::Str,
            Family::Write | Family::Writeln => PrimitiveType::Void,
        }
    }
}

/// The name of the function of a family for a type.
pub open spec fn spec_function_name(family: Family, p: PrimitiveType) -> Seq<char> {
    "__libprelude__"@ + family.spec_name() + "_"@ + p.spec_name()
}

/// The identity after the given one; the last identity is followed by
/// itself.
pub open spec fn following(id: u64) -> u64 {
    if id < u64::MAX {
        (id + 1) as u64
    } else {
        u64::MAX
    }
}

/// The function of a family for a type, made with the identities from
/// `next` on: it is extern; its symbol has the name of the function; its
/// formals are `x`, and `y` where it takes two operands, of the given
/// type.
pub open spec fn spec_function(next: u64, family: Family, p: PrimitiveType) -> FunctionView {
    let x = VariableView {
        symbol: IdentifierView { id: following(next), name: "x"@ },
        ty: TypeView::Primitive(p),
    };
    let y = VariableView {
        symbol: IdentifierView { id: following(following(next)), name: "y"@ },
        ty: TypeView::Primitive(p),
    };
    FunctionView {
        symbol: IdentifierView { id: next, name: spec_function_name(family, p) },
        formals: if family.spec_is_binary() {
            seq![x, y]
        } else {
            seq![x]
        },
        ret: TypeView::Primitive(family.spec_result(p)),
        body: None,
    }
}

/// The number of identities that a function of the family takes.
pub open spec fn spec_width(family: Family) -> nat {
    if family.spec_is_binary() {
        3
    } else {
        2
    }
}

fn primitive(p: PrimitiveType) -> (ty: Type)
    ensures
        ty@ == TypeView::Primitive(p),
{
    Type::Primitive(Box::new(p))
}

/// The function of a family for a type.
pub fn function(alloc: &mut IdAllocator, family: Family, p: PrimitiveType) -> (f: Function)
    ensures
        f@ == spec_function(old(alloc).spec_next(), family, p),
        final(alloc).is_after(*old(alloc), spec_width(family)),
{
    proof {
        reveal_with_fuel(IdAllocator::spec_after, 4);
        reveal_with_fuel(view_function, 2);
    }
    let mut name = "__libprelude__".to_owned();
    name.append(family.name());
    name.append("_");
    name.append(p.name());
    let symbol = Symbol::new(alloc, name.as_str());
    let mut formals = Variables::new();
    let x = Variable { symbol: Symbol::new(alloc, "x"), ty: primitive(p) };
    formals.push(x);
    if family.is_binary() {
        let y = Variable { symbol: Symbol::new(alloc, "y"), ty: primitive(p) };
        formals.push(y);
        assert(view_variables(formals@) =~= seq![x@, y@]);
    } else {
        assert(view_variables(formals@) =~= seq![x@]);
    }
    Function { symbol, formals, ret: primitive(family.result(p)), body: None }
}

/// The number of functions that the language brings along.
pub const PRELUDE_LEN: usize = 86;

/// The family and the type of the function at each place of the prelude:
/// the four operators on the eleven types of numbers, then the joining of
/// strings and the two ways of writing on the fourteen types of values.
pub open spec fn spec_entry(k: int) -> (Family, PrimitiveType) {
    if k == 0 {
        (Family::Add, PrimitiveType::F32)
    } else if k == 1 {
        (Family::Add, PrimitiveType::F64)
    } else if k == 2 {
        (Family::Add, PrimitiveType::I8)
    } else if k == 3 {
        (Family::Add, PrimitiveType::I16)
    } else if k == 4 {
        (Family::Add, PrimitiveType::I32)
    } else if k == 5 {
        (Family::Add, PrimitiveType::I64)
    } else if k == 6 {
        (Family::Add, PrimitiveType::U8)
    } else if k == 7 {
        (Family::Add, PrimitiveType::U16)
    } else if k == 8 {
        (Family::Add, PrimitiveType::U32)
    } else if k == 9 {
        (Family::Add, PrimitiveType::U64)
    } else if k == 10 {
        (Family::Add, PrimitiveType::USize)
    } else if k == 11 {
        (Family::Div, PrimitiveType::F32)
    } else if k == 12 {
        (Family::Div, PrimitiveType::F64)
    } else if k == 13 {
        (Family::Div, PrimitiveType::I8)
    } else if k == 14 {
        (Family::Div, PrimitiveType::I16)
    } else if k == 15 {
        (Family::Div, PrimitiveType::I32)
    } else if k == 16 {
        (Family::Div, PrimitiveType::I64)
    } else if k == 17 {
        (Family::Div, PrimitiveType::U8)
    } else if k == 18 {
        (Family::Div, PrimitiveType::U16)
    } else if k == 19 {
        (Family::Div, PrimitiveType::U32)
    } else if k == 20 {
        (Family::Div, PrimitiveType::U64)
    } else if k == 21 {
        (Family::Div, PrimitiveType::USize)
    } else if k == 22 {
        (Family::Mul, PrimitiveType::F32)
    } else if k == 23 {
        (Family::Mul, PrimitiveType::F64)
    } else if k == 24 {
        (Family::Mul, PrimitiveType::I8)
    } else if k == 25 {
        (Family::Mul, PrimitiveType::I16)
    } else if k == 26 {
        (Family::Mul, PrimitiveType::I32)
    } else if k == 27 {
        (Family::Mul, PrimitiveType::I64)
    } else if k == 28 {
        (Family::Mul, PrimitiveType::U8)
    } else if k == 29 {
        (Family::Mul, PrimitiveType::U16)
    } else if k == 30 {
        (Family::Mul, PrimitiveType::U32)
    } else if k == 31 {
        (Family::Mul, PrimitiveType::U64)
    } else if k == 32 {
        (Family::Mul, PrimitiveType::USize)
    } else if k == 33 {
        (Family::Sub, PrimitiveType::F32)
    } else if k == 34 {
        (Family::Sub, PrimitiveType::F64)
    } else if k == 35 {
        (Family::Sub, PrimitiveType::I8)
    } else if k == 36 {
        (Family::Sub, PrimitiveType::I16)
    } else if k == 37 {
        (Family::Sub, PrimitiveType::I32)
    } else if k == 38 {
        (Family::Sub, PrimitiveType::I64)
    } else if k == 39 {
        (Family::Sub, PrimitiveType::U8)
    } else if k == 40 {
        (Family::Sub, PrimitiveType::U16)
    } else if k == 41 {
        (Family::Sub, PrimitiveType::U32)
    } else if k == 42 {
        (Family::Sub, PrimitiveType::U64)
    } else if k == 43 {
        (Family::Sub, PrimitiveType::USize)
    } else if k == 44 {
        (Family::ConcatString, PrimitiveType::Bool)
    } else if k == 45 {
        (Family::ConcatString, PrimitiveType::Char)
    } else if k == 46 {
        (Family::ConcatString, PrimitiveType::F32)
    } else if k == 47 {
        (Family::ConcatString, PrimitiveType::F64)
    } else if k == 48 {
        (Family::ConcatString, PrimitiveType::I8)
    } else if k == 49 {
        (Family::ConcatString, PrimitiveType::I16)
    } else if k == 50 {
        (Family::ConcatString, PrimitiveType::I32)
    } else if k == 51 {
        (Family::ConcatString, PrimitiveType::I64)
    } else if k == 52 {
        (Family::ConcatString, PrimitiveType::Str)
    } else if k == 53 {
        (Family::ConcatString, PrimitiveType::U8)
    } else if k == 54 {
        (Family::ConcatString, PrimitiveType::U16)
    } else if k == 55 {
        (Family::ConcatString, PrimitiveType::U32)
    } else if k == 56 {
        (Family::ConcatString, PrimitiveType::U64)
    } else if k == 57 {
        (Family::ConcatString, PrimitiveType::USize)
    } else if k == 58 {
        (Family::Write, PrimitiveType::Bool)
    } else if k == 59 {
        (Family::Write, PrimitiveType::Char)
    } else if k == 60 {
        (Family::Write, PrimitiveType::F32)
    } else if k == 61 {
        (Family::Write, PrimitiveType::F64)
    } else if k == 62 {
        (Family::Write, PrimitiveType::I8)
    } else if k == 63 {
        (Family::Write, PrimitiveType::I16)
    } else if k == 64 {
        (Family::Write, PrimitiveType::I32)
    } else if k == 65 {
        (Family::Write, PrimitiveType::I64)
    } else if k == 66 {
        (Family::Write, PrimitiveType::Str)
    } else if k == 67 {
        (Family::Write, PrimitiveType::U8)
    } else if k == 68 {
        (Family::Write, PrimitiveType::U16)
    } else if k == 69 {
        (Family::Write, PrimitiveType::U32)
    } else if k == 70 {
        (Family::Write, PrimitiveType::U64)
    } else if k == 71 {
        (Family::Write, PrimitiveType::USize)
    } else if k == 72 {
        (Family::Writeln, PrimitiveType::Bool)
    } else if k == 73 {
        (Family::Writeln, PrimitiveType::Char)
    } else if k == 74 {
        (Family::Writeln, PrimitiveType::F32)
    } else if k == 75 {
        (Family::Writeln, PrimitiveType::F64)
    } else if k == 76 {
        (Family::Writeln, PrimitiveType::I8)
    } else if k == 77 {
        (Family::Writeln, PrimitiveType::I16)
    } else if k == 78 {
        (Family::Writeln, PrimitiveType::I32)
    } else if k == 79 {
        (Family::Writeln, PrimitiveType::I64)
    } else if k == 80 {
        (Family::Writeln, PrimitiveType::Str)
    } else if k == 81 {
        (Family::Writeln, PrimitiveType::U8)
    } else if k == 82 {
        (Family::Writeln, PrimitiveType::U16)
    } else if k == 83 {
        (Family::Writeln, PrimitiveType::U32)
    } else if k == 84 {
        (Family::Writeln, PrimitiveType::U64)
    } else {
        (Family::Writeln, PrimitiveType::USize)
    }
}

/// The family and the type of the function at a place of the prelude.
pub fn entry(k: usize) -> (e: (Family, PrimitiveType))
    ensures
        e == spec_entry(k as int),
{
    if k == 0 {
        (Family::Add, PrimitiveType::F32)
    } else if k == 1 {
        (Family::Add, PrimitiveType::F64)
    } else if k == 2 {
        (Family::Add, PrimitiveType::I8)
    } else if k == 3 {
        (Family::Add, PrimitiveType::I16)
    } else if k == 4 {
        (Family::Add, PrimitiveType::I32)
    } else if k == 5 {
        (Family::Add, PrimitiveType::I64)
    } else if k == 6 {
        (Family::Add, PrimitiveType::U8)
    } else if k == 7 {
        (Family::Add, PrimitiveType::U16)
    } else if k == 8 {
        (Family::Add, PrimitiveType::U32)
    } else if k == 9 {
        (Family::Add, PrimitiveType::U64)
    } else if k == 10 {
        (Family::Add, PrimitiveType::USize)
    } else if k == 11 {
        (Family::Div, PrimitiveType::F32)
    } else if k == 12 {
        (Family::Div, PrimitiveType::F64)
    } else if k == 13 {
        (Family::Div, PrimitiveType::I8)
    } else if k == 14 {
        (Family::Div, PrimitiveType::I16)
    } else if k == 15 {
        (Family::Div, PrimitiveType::I32)
    } else if k == 16 {
        (Family::Div, PrimitiveType::I64)
    } else if k == 17 {
        (Family::Div, PrimitiveType::U8)
    } else if k == 18 {
        (Family::Div, PrimitiveType::U16)
    } else if k == 19 {
        (Family::Div, PrimitiveType::U32)
    } else if k == 20 {
        (Family::Div, PrimitiveType::U64)
    } else if k == 21 {
        (Family::Div, PrimitiveType::USize)
    } else if k == 22 {
        (Family::Mul, PrimitiveType::F32)
    } else if k == 23 {
        (Family::Mul, PrimitiveType::F64)
    } else if k == 24 {
        (Family::Mul, PrimitiveType::I8)
    } else if k == 25 {
        (Family::Mul, PrimitiveType::I16)
    } else if k == 26 {
        (Family::Mul, PrimitiveType::I32)
    } else if k == 27 {
        (Family::Mul, PrimitiveType::I64)
    } else if k == 28 {
        (Family::Mul, PrimitiveType::U8)
    } else if k == 29 {
        (Family::Mul, PrimitiveType::U16)
    } else if k == 30 {
        (Family::Mul, PrimitiveType::U32)
    } else if k == 31 {
        (Family::Mul, PrimitiveType::U64)
    } else if k == 32 {
        (Family::Mul, PrimitiveType::USize)
    } else if k == 33 {
        (Family::Sub, PrimitiveType::F32)
    } else if k == 34 {
        (Family::Sub, PrimitiveType::F64)
    } else if k == 35 {
        (Family::Sub, PrimitiveType::I8)
    } else if k == 36 {
        (Family::Sub, PrimitiveType::I16)
    } else if k == 37 {
        (Family::Sub, PrimitiveType::I32)
    } else if k == 38 {
        (Family::Sub, PrimitiveType::I64)
    } else if k == 39 {
        (Family::Sub, PrimitiveType::U8)
    } else if k == 40 {
        (Family::Sub, PrimitiveType::U16)
    } else if k == 41 {
        (Family::Sub, PrimitiveType::U32)
    } else if k == 42 {
        (Family::Sub, PrimitiveType::U64)
    } else if k == 43 {
        (Family::Sub, PrimitiveType::USize)
    } else if k == 44 {
        (Family::ConcatString, PrimitiveType::Bool)
    } else if k == 45 {
        (Family::ConcatString, PrimitiveType::Char)
    } else if k == 46 {
        (Family::ConcatString, PrimitiveType::F32)
    } else if k == 47 {
        (Family::ConcatString, PrimitiveType::F64)
    } else if k == 48 {
        (Family::ConcatString, PrimitiveType::I8)
    } else if k == 49 {
        (Family::ConcatString, PrimitiveType::I16)
    } else if k == 50 {
        (Family::ConcatString, PrimitiveType::I32)
    } else if k == 51 {
        (Family::ConcatString, PrimitiveType::I64)
    } else if k == 52 {
        (Family::ConcatString, PrimitiveType::Str)
    } else if k == 53 {
        (Family::ConcatString, PrimitiveType::U8)
    } else if k == 54 {
        (Family::ConcatString, PrimitiveType::U16)
    } else if k == 55 {
        (Family::ConcatString, PrimitiveType::U32)
    } else if k == 56 {
        (Family::ConcatString, PrimitiveType::U64)
    } else if k == 57 {
        (Family::ConcatString, PrimitiveType::USize)
    } else if k == 58 {
        (Family::Write, PrimitiveType::Bool)
    } else if k == 59 {
        (Family::Write, PrimitiveType::Char)
    } else if k == 60 {
        (Family::Write, PrimitiveType::F32)
    } else if k == 61 {
        (Family::Write, PrimitiveType::F64)
    } else if k == 62 {
        (Family::Write, PrimitiveType::I8)
    } else if k == 63 {
        (Family::Write, PrimitiveType::I16)
    } else if k == 64 {
        (Family::Write, PrimitiveType::I32)
    } else if k == 65 {
        (Family::Write, PrimitiveType::I64)
    } else if k == 66 {
        (Family::Write, PrimitiveType::Str)
    } else if k == 67 {
        (Family::Write, PrimitiveType::U8)
    } else if k == 68 {
        (Family::Write, PrimitiveType::U16)
    } else if k == 69 {
        (Family::Write, PrimitiveType::U32)
    } else if k == 70 {
        (Family::Write, PrimitiveType::U64)
    } else if k == 71 {
        (Family::Write, PrimitiveType::USize)
    } else if k == 72 {
        (Family::Writeln, PrimitiveType::Bool)
    } else if k == 73 {
        (Family::Writeln, PrimitiveType::Char)
    } else if k == 74 {
        (Family::Writeln, PrimitiveType::F32)
    } else if k == 75 {
        (Family::Writeln, PrimitiveType::F64)
    } else if k == 76 {
        (Family::Writeln, PrimitiveType::I8)
    } else if k == 77 {
        (Family::Writeln, PrimitiveType::I16)
    } else if k == 78 {
        (Family::Writeln, PrimitiveType::I32)
    } else if k == 79 {
        (Family::Writeln, PrimitiveType::I64)
    } else if k == 80 {
        (Family::Writeln, PrimitiveType::Str)
    } else if k == 81 {
        (Family::Writeln, PrimitiveType::U8)
    } else if k == 82 {
        (Family::Writeln, PrimitiveType::U16)
    } else if k == 83 {
        (Family::Writeln, PrimitiveType::U32)
    } else if k == 84 {
        (Family::Writeln, PrimitiveType::U64)
    } else {
        (Family::Writeln, PrimitiveType::USize)
    }
}

/// The first `n` functions of the prelude, made with the identities from
/// `next` on, and the state of the allocator after them.
pub open spec fn spec_prelude(next: u64, exhausted: bool, n: nat) -> (Seq<FunctionView>, u64, bool)
    decreases n,
{
    if n == 0 {
        (Seq::empty(), next, exhausted)
    } else {
        let (before, at, out) = spec_prelude(next, exhausted, (n - 1) as nat);
        let (family, p) = spec_entry(n - 1);
        let after = IdAllocator::spec_after(at, out, spec_width(family));
        (before.push(spec_function(at, family, p)), after.0, after.1)
    }
}

/// The function at each place of the prelude is the function of the
/// place's family and type.
pub proof fn lemma_prelude_entry(next: u64, exhausted: bool, n: nat, k: int)
    requires
        0 <= k < n,
    ensures
        spec_prelude(next, exhausted, n).0.len() == n,
        spec_prelude(next, exhausted, n).0[k] == spec_function(
            spec_prelude(next, exhausted, k as nat).1,
            spec_entry(k).0,
            spec_entry(k).1,
        ),
    decreases n,
{
    lemma_prelude_len(next, exhausted, n);
    if k < n - 1 {
        lemma_prelude_entry(next, exhausted, (n - 1) as nat, k);
    } else {
        lemma_prelude_len(next, exhausted, (n - 1) as nat);
    }
}

/// The prelude has as many functions as places.
pub proof fn lemma_prelude_len(next: u64, exhausted: bool, n: nat)
    ensures
        spec_prelude(next, exhausted, n).0.len() == n,
    decreases n,
{
    if n > 0 {
        lemma_prelude_len(next, exhausted, (n - 1) as nat);
    }
}

/// Making the prelude only moves the identities up.
pub proof fn lemma_prelude_advances(next: u64, exhausted: bool, n: nat)
    ensures
        next <= spec_prelude(next, exhausted, n).1,
        exhausted ==> spec_prelude(next, exhausted, n).2,
    decreases n,
{
    if n > 0 {
        lemma_prelude_advances(next, exhausted, (n - 1) as nat);
        let (before, at, out) = spec_prelude(next, exhausted, (n - 1) as nat);
        crate::identifier::lemma_counted(at, out, spec_width(spec_entry(n - 1).0));
    }
}

/// The functions that the language brings along.
pub struct Prelude {
    functions: Functions,
}

impl View for Prelude {
    type V = Seq<FunctionView>;

    closed spec fn view(&self) -> Seq<FunctionView> {
        view_functions_list(self.functions@)
    }
}

impl Prelude {
    #[verifier::type_invariant]
    closed spec fn complete(self) -> bool {
        self.functions.len() == PRELUDE_LEN
    }

    /// The prelude, made with fresh identities.
    pub fn new(alloc: &mut IdAllocator) -> (prelude: Prelude)
        ensures
            (prelude@, final(alloc).spec_next(), final(alloc).spec_exhausted()) == spec_prelude(
                old(alloc).spec_next(),
                old(alloc).spec_exhausted(),
                PRELUDE_LEN as nat,
            ),
            final(alloc).advanced_from(*old(alloc)),
    {
        let mut functions = Functions::new();
        let mut k: usize = 0;
        assert(view_functions_list(functions@) =~= Seq::empty());
        while k < PRELUDE_LEN
            invariant
                k <= PRELUDE_LEN,
                functions.len() == k,
                (view_functions_list(functions@), alloc.spec_next(), alloc.spec_exhausted())
                    == spec_prelude(
                    old(alloc).spec_next(),
                    old(alloc).spec_exhausted(),
                    k as nat,
                ),
            decreases PRELUDE_LEN - k,
        {
            let ghost before = functions@;
            let (family, p) = entry(k);
            let f = function(alloc, family, p);
            functions.push(f);
            proof {
                lemma_view_functions_list_push(before, f);
            }
            k += 1;
        }
        proof {
            lemma_prelude_advances(
                old(alloc).spec_next(),
                old(alloc).spec_exhausted(),
                PRELUDE_LEN as nat,
            );
        }
        Prelude { functions }
    }

    /// All functions of the prelude, in the order of their places.
    pub fn functions(&self) -> (functions: &Functions)
        ensures
            view_functions_list(functions@) == self@,
            functions.len() == PRELUDE_LEN,
    {
        proof {
            use_type_invariant(self);
        }
        &self.functions
    }

    fn function_at(&self, k: usize) -> (f: Function)
        requires
            k < PRELUDE_LEN,
        ensures
            f@ == self@[k as int],
    {
        proof {
            use_type_invariant(self);
            lemma_view_functions_list_index(self.functions@, k as int);
        }
        clone_function(&self.functions[k])
    }

    /// The addition of type `f32`.
    pub fn add_f32_fn(&self) -> (f: Function)
        ensures
            f@ == self@[0],
    {
        self.function_at(0)
    }

    /// The addition of type `f64`.
    pub fn add_f64_fn(&self) -> (f: Function)
        ensures
            f@ == self@[1],
    {
        self.function_at(1)
    }

    /// The addition of type `i8`.
    pub fn add_i8_fn(&self) -> (f: Function)
        ensures
            f@ == self@[2],
    {
        self.function_at(2)
    }

    /// The addition of type `i16`.
    pub fn add_i16_fn(&self) -> (f: Function)
        ensures
            f@ == self@[3],
    {
        self.function_at(3)
    }

    /// The addition of type `i32`.
    pub fn add_i32_fn(&self) -> (f: Function)
        ensures
            f@ == self@[4],
    {
        self.function_at(4)
    }

    /// The addition of type `i64`.
    pub fn add_i64_fn(&self) -> (f: Function)
        ensures
            f@ == self@[5],
    {
        self.function_at(5)
    }

    /// The addition of type `u8`.
    pub fn add_u8_fn(&self) -> (f: Function)
        ensures
            f@ == self@[6],
    {
        self.function_at(6)
    }

    /// The addition of type `u16`.
    pub fn add_u16_fn(&self) -> (f: Function)
        ensures
            f@ == self@[7],
    {
        self.function_at(7)
    }

    /// The addition of type `u32`.
    pub fn add_u32_fn(&self) -> (f: Function)
        ensures
            f@ == self@[8],
    {
        self.function_at(8)
    }

    /// The addition of type `u64`.
    pub fn add_u64_fn(&self) -> (f: Function)
        ensures
            f@ == self@[9],
    {
        self.function_at(9)
    }

    /// The addition of type `usize`.
    pub fn add_usize_fn(&self) -> (f: Function)
        ensures
            f@ == self@[10],
    {
        self.function_at(10)
    }

    /// The division of type `f32`.
    pub fn div_f32_fn(&self) -> (f: Function)
        ensures
            f@ == self@[11],
    {
        self.function_at(11)
    }

    /// The division of type `f64`.
    pub fn div_f64_fn(&self) -> (f: Function)
        ensures
            f@ == self@[12],
    {
        self.function_at(12)
    }

    /// The division of type `i8`.
    pub fn div_i8_fn(&self) -> (f: Function)
        ensures
            f@ == self@[13],
    {
        self.function_at(13)
    }

    /// The division of type `i16`.
    pub fn div_i16_fn(&self) -> (f: Function)
        ensures
            f@ == self@[14],
    {
        self.function_at(14)
    }

    /// The division of type `i32`.
    pub fn div_i32_fn(&self) -> (f: Function)
        ensures
            f@ == self@[15],
    {
        self.function_at(15)
    }

    /// The division of type `i64`.
    pub fn div_i64_fn(&self) -> (f: Function)
        ensures
            f@ == self@[16],
    {
        self.function_at(16)
    }

    /// The division of type `u8`.
    pub fn div_u8_fn(&self) -> (f: Function)
        ensures
            f@ == self@[17],
    {
        self.function_at(17)
    }

    /// The division of type `u16`.
    pub fn div_u16_fn(&self) -> (f: Function)
        ensures
            f@ == self@[18],
    {
        self.function_at(18)
    }

    /// The division of type `u32`.
    pub fn div_u32_fn(&self) -> (f: Function)
        ensures
            f@ == self@[19],
    {
        self.function_at(19)
    }

    /// The division of type `u64`.
    pub fn div_u64_fn(&self) -> (f: Function)
        ensures
            f@ == self@[20],
    {
        self.function_at(20)
    }

    /// The division of type `usize`.
    pub fn div_usize_fn(&self) -> (f: Function)
        ensures
            f@ == self@[21],
    {
        self.function_at(21)
    }

    /// The multiplication of type `f32`.
    pub fn mul_f32_fn(&self) -> (f: Function)
        ensures
            f@ == self@[22],
    {
        self.function_at(22)
    }

    /// The multiplication of type `f64`.
    pub fn mul_f64_fn(&self) -> (f: Function)
        ensures
            f@ == self@[23],
    {
        self.function_at(23)
    }

    /// The multiplication of type `i8`.
    pub fn mul_i8_fn(&self) -> (f: Function)
        ensures
            f@ == self@[24],
    {
        self.function_at(24)
    }

    /// The multiplication of type `i16`.
    pub fn mul_i16_fn(&self) -> (f: Function)
        ensures
            f@ == self@[25],
    {
        self.function_at(25)
    }

    /// The multiplication of type `i32`.
    pub fn mul_i32_fn(&self) -> (f: Function)
        ensures
            f@ == self@[26],
    {
        self.function_at(26)
    }

    /// The multiplication of type `i64`.
    pub fn mul_i64_fn(&self) -> (f: Function)
        ensures
            f@ == self@[27],
    {
        self.function_at(27)
    }

    /// The multiplication of type `u8`.
    pub fn mul_u8_fn(&self) -> (f: Function)
        ensures
            f@ == self@[28],
    {
        self.function_at(28)
    }

    /// The multiplication of type `u16`.
    pub fn mul_u16_fn(&self) -> (f: Function)
        ensures
            f@ == self@[29],
    {
        self.function_at(29)
    }

    /// The multiplication of type `u32`.
    pub fn mul_u32_fn(&self) -> (f: Function)
        ensures
            f@ == self@[30],
    {
        self.function_at(30)
    }

    /// The multiplication of type `u64`.
    pub fn mul_u64_fn(&self) -> (f: Function)
        ensures
            f@ == self@[31],
    {
        self.function_at(31)
    }

    /// The multiplication of type `usize`.
    pub fn mul_usize_fn(&self) -> (f: Function)
        ensures
            f@ == self@[32],
    {
        self.function_at(32)
    }

    /// The subtraction of type `f32`.
    pub fn sub_f32_fn(&self) -> (f: Function)
        ensures
            f@ == self@[33],
    {
        self.function_at(33)
    }

    /// The subtraction of type `f64`.
    pub fn sub_f64_fn(&self) -> (f: Function)
        ensures
            f@ == self@[34],
    {
        self.function_at(34)
    }

    /// The subtraction of type `i8`.
    pub fn sub_i8_fn(&self) -> (f: Function)
        ensures
            f@ == self@[35],
    {
        self.function_at(35)
    }

    /// The subtraction of type `i16`.
    pub fn sub_i16_fn(&self) -> (f: Function)
        ensures
            f@ == self@[36],
    {
        self.function_at(36)
    }

    /// The subtraction of type `i32`.
    pub fn sub_i32_fn(&self) -> (f: Function)
        ensures
            f@ == self@[37],
    {
        self.function_at(37)
    }

    /// The subtraction of type `i64`.
    pub fn sub_i64_fn(&self) -> (f: Function)
        ensures
            f@ == self@[38],
    {
        self.function_at(38)
    }

    /// The subtraction of type `u8`.
    pub fn sub_u8_fn(&self) -> (f: Function)
        ensures
            f@ == self@[39],
    {
        self.function_at(39)
    }

    /// The subtraction of type `u16`.
    pub fn sub_u16_fn(&self) -> (f: Function)
        ensures
            f@ == self@[40],
    {
        self.function_at(40)
    }

    /// The subtraction of type `u32`.
    pub fn sub_u32_fn(&self) -> (f: Function)
        ensures
            f@ == self@[41],
    {
        self.function_at(41)
    }

    /// The subtraction of type `u64`.
    pub fn sub_u64_fn(&self) -> (f: Function)
        ensures
            f@ == self@[42],
    {
        self.function_at(42)
    }

    /// The subtraction of type `usize`.
    pub fn sub_usize_fn(&self) -> (f: Function)
        ensures
            f@ == self@[43],
    {
        self.function_at(43)
    }

    /// The joining of a string and a value of type `bool`.
    pub fn concat_string_bool_fn(&self) -> (f: Function)
        ensures
            f@ == self@[44],
    {
        self.function_at(44)
    }

    /// The joining of a string and a value of type `char`.
    pub fn concat_string_char_fn(&self) -> (f: Function)
        ensures
            f@ == self@[45],
    {
        self.function_at(45)
    }

    /// The joining of a string and a value of type `f32`.
    pub fn concat_string_f32_fn(&self) -> (f: Function)
        ensures
            f@ == self@[46],
    {
        self.function_at(46)
    }

    /// The joining of a string and a value of type `f64`.
    pub fn concat_string_f64_fn(&self) -> (f: Function)
        ensures
            f@ == self@[47],
    {
        self.function_at(47)
    }

    /// The joining of a string and a value of type `i8`.
    pub fn concat_string_i8_fn(&self) -> (f: Function)
        ensures
            f@ == self@[48],
    {
        self.function_at(48)
    }

    /// The joining of a string and a value of type `i16`.
    pub fn concat_string_i16_fn(&self) -> (f: Function)
        ensures
            f@ == self@[49],
    {
        self.function_at(49)
    }

    /// The joining of a string and a value of type `i32`.
    pub fn concat_string_i32_fn(&self) -> (f: Function)
        ensures
            f@ == self@[50],
    {
        self.function_at(50)
    }

    /// The joining of a string and a value of type `i64`.
    pub fn concat_string_i64_fn(&self) -> (f: Function)
        ensures
            f@ == self@[51],
    {
        self.function_at(51)
    }

    /// The joining of a string and a value of type `string`.
    pub fn concat_string_string_fn(&self) -> (f: Function)
        ensures
            f@ == self@[52],
    {
        self.function_at(52)
    }

    /// The joining of a string and a value of type `u8`.
    pub fn concat_string_u8_fn(&self) -> (f: Function)
        ensures
            f@ == self@[53],
    {
        self.function_at(53)
    }

    /// The joining of a string and a value of type `u16`.
    pub fn concat_string_u16_fn(&self) -> (f: Function)
        ensures
            f@ == self@[54],
    {
        self.function_at(54)
    }

    /// The joining of a string and a value of type `u32`.
    pub fn concat_string_u32_fn(&self) -> (f: Function)
        ensures
            f@ == self@[55],
    {
        self.function_at(55)
    }

    /// The joining of a string and a value of type `u64`.
    pub fn concat_string_u64_fn(&self) -> (f: Function)
        ensures
            f@ == self@[56],
    {
        self.function_at(56)
    }

    /// The joining of a string and a value of type `usize`.
    pub fn concat_string_usize_fn(&self) -> (f: Function)
        ensures
            f@ == self@[57],
    {
        self.function_at(57)
    }

    /// The writing of a value of type `bool`.
    pub fn write_bool_fn(&self) -> (f: Function)
        ensures
            f@ == self@[58],
    {
        self.function_at(58)
    }

    /// The writing of a value of type `char`.
    pub fn write_char_fn(&self) -> (f: Function)
        ensures
            f@ == self@[59],
    {
        self.function_at(59)
    }

    /// The writing of a value of type `f32`.
    pub fn write_f32_fn(&self) -> (f: Function)
        ensures
            f@ == self@[60],
    {
        self.function_at(60)
    }

    /// The writing of a value of type `f64`.
    pub fn write_f64_fn(&self) -> (f: Function)
        ensures
            f@ == self@[61],
    {
        self.function_at(61)
    }

    /// The writing of a value of type `i8`.
    pub fn write_i8_fn(&self) -> (f: Function)
        ensures
            f@ == self@[62],
    {
        self.function_at(62)
    }

    /// The writing of a value of type `i16`.
    pub fn write_i16_fn(&self) -> (f: Function)
        ensures
            f@ == self@[63],
    {
        self.function_at(63)
    }

    /// The writing of a value of type `i32`.
    pub fn write_i32_fn(&self) -> (f: Function)
        ensures
            f@ == self@[64],
    {
        self.function_at(64)
    }

    /// The writing of a value of type `i64`.
    pub fn write_i64_fn(&self) -> (f: Function)
        ensures
            f@ == self@[65],
    {
        self.function_at(65)
    }

    /// The writing of a value of type `string`.
    pub fn write_string_fn(&self) -> (f: Function)
        ensures
            f@ == self@[66],
    {
        self.function_at(66)
    }

    /// The writing of a value of type `u8`.
    pub fn write_u8_fn(&self) -> (f: Function)
        ensures
            f@ == self@[67],
    {
        self.function_at(67)
    }

    /// The writing of a value of type `u16`.
    pub fn write_u16_fn(&self) -> (f: Function)
        ensures
            f@ == self@[68],
    {
        self.function_at(68)
    }

    /// The writing of a value of type `u32`.
    pub fn write_u32_fn(&self) -> (f: Function)
        ensures
            f@ == self@[69],
    {
        self.function_at(69)
    }

    /// The writing of a value of type `u64`.
    pub fn write_u64_fn(&self) -> (f: Function)
        ensures
            f@ == self@[70],
    {
        self.function_at(70)
    }

    /// The writing of a value of type `usize`.
    pub fn write_usize_fn(&self) -> (f: Function)
        ensures
            f@ == self@[71],
    {
        self.function_at(71)
    }

    /// The writing of a line with a value of type `bool`.
    pub fn writeln_bool_fn(&self) -> (f: Function)
        ensures
            f@ == self@[72],
    {
        self.function_at(72)
    }

    /// The writing of a line with a value of type `char`.
    pub fn writeln_char_fn(&self) -> (f: Function)
        ensures
            f@ == self@[73],
    {
        self.function_at(73)
    }

    /// The writing of a line with a value of type `f32`.
    pub fn writeln_f32_fn(&self) -> (f: Function)
        ensures
            f@ == self@[74],
    {
        self.function_at(74)
    }

    /// The writing of a line with a value of type `f64`.
    pub fn writeln_f64_fn(&self) -> (f: Function)
        ensures
            f@ == self@[75],
    {
        self.function_at(75)
    }

    /// The writing of a line with a value of type `i8`.
    pub fn writeln_i8_fn(&self) -> (f: Function)
        ensures
            f@ == self@[76],
    {
        self.function_at(76)
    }

    /// The writing of a line with a value of type `i16`.
    pub fn writeln_i16_fn(&self) -> (f: Function)
        ensures
            f@ == self@[77],
    {
        self.function_at(77)
    }

    /// The writing of a line with a value of type `i32`.
    pub fn writeln_i32_fn(&self) -> (f: Function)
        ensures
            f@ == self@[78],
    {
        self.function_at(78)
    }

    /// The writing of a line with a value of type `i64`.
    pub fn writeln_i64_fn(&self) -> (f: Function)
        ensures
            f@ == self@[79],
    {
        self.function_at(79)
    }

    /// The writing of a line with a value of type `string`.
    pub fn writeln_string_fn(&self) -> (f: Function)
        ensures
            f@ == self@[80],
    {
        self.function_at(80)
    }

    /// The writing of a line with a value of type `u8`.
    pub fn writeln_u8_fn(&self) -> (f: Function)
        ensures
            f@ == self@[81],
    {
        self.function_at(81)
    }

    /// The writing of a line with a value of type `u16`.
    pub fn writeln_u16_fn(&self) -> (f: Function)
        ensures
            f@ == self@[82],
    {
        self.function_at(82)
    }

    /// The writing of a line with a value of type `u32`.
    pub fn writeln_u32_fn(&self) -> (f: Function)
        ensures
            f@ == self@[83],
    {
        self.function_at(83)
    }

    /// The writing of a line with a value of type `u64`.
    pub fn writeln_u64_fn(&self) -> (f: Function)
        ensures
            f@ == self@[84],
    {
        self.function_at(84)
    }

    /// The writing of a line with a value of type `usize`.
    pub fn writeln_usize_fn(&self) -> (f: Function)
        ensures
            f@ == self@[85],
    {
        self.function_at(85)
    }
}

/// The functions of the runtime: the one that starts a process, and the
/// one that waits for a process to end.
pub struct Runtime {
    pub process_fn: Function,
    pub process_join_fn: Function,
}

/// The function that starts a process, made with the identities from
/// `next` on: it takes a function without formals and result, and gives a
/// pointer to the process.
pub open spec fn spec_process_fn(next: u64) -> FunctionView {
    FunctionView {
        symbol: IdentifierView { id: next, name: "__libruntime__process"@ },
        formals: seq![
            VariableView {
                symbol: IdentifierView { id: following(next), name: "f"@ },
                ty: TypeView::Lambda(
                    Box::new(
                        super::LambdaTypeView {
                            formals: Seq::empty(),
                            ret: TypeView::Primitive(PrimitiveType::Void),
                        },
                    ),
                ),
            },
        ],
        ret: TypeView::Ptr(
            Box::new(super::PtrTypeView { inner: TypeView::Primitive(PrimitiveType::I8) }),
        ),
        body: None,
    }
}

/// The function that waits for a process to end, made with the identities
/// from `next` on: it takes a pointer to the process and gives nothing.
pub open spec fn spec_process_join_fn(next: u64) -> FunctionView {
    FunctionView {
        symbol: IdentifierView { id: next, name: "__libruntime__process_join"@ },
        formals: seq![
            VariableView {
                symbol: IdentifierView { id: following(next), name: "process"@ },
                ty: TypeView::Ptr(
                    Box::new(super::PtrTypeView { inner: TypeView::Primitive(PrimitiveType::I8) }),
                ),
            },
        ],
        ret: TypeView::Primitive(PrimitiveType::Void),
        body: None,
    }
}

impl Runtime {
    /// The functions of the runtime, made with fresh identities.
    pub fn new(alloc: &mut IdAllocator) -> (runtime: Runtime)
        ensures
            runtime.process_fn@ == spec_process_fn(old(alloc).spec_next()),
            runtime.process_join_fn@ == spec_process_join_fn(
                following(following(old(alloc).spec_next())),
            ),
            final(alloc).is_after(*old(alloc), 4),
    {
        proof {
            reveal_with_fuel(IdAllocator::spec_after, 5);
            reveal_with_fuel(view_function, 2);
            reveal_with_fuel(view_type, 3);
        }
        let process_symbol = Symbol::new(alloc, "__libruntime__process");
        let f = Symbol::new(alloc, "f");
        let none = super::Types::new();
        assert(view_types(none@) =~= Seq::empty());
        let mut process_formals = Variables::new();
        let lambda = Variable {
            symbol: f,
            ty: Type::Lambda(
                Box::new(LambdaType { formals: none, ret: primitive(PrimitiveType::Void) }),
            ),
        };
        process_formals.push(lambda);
        assert(view_variables(process_formals@) =~= seq![lambda@]);
        let process_fn = Function {
            symbol: process_symbol,
            formals: process_formals,
            ret: Type::Ptr(Box::new(PtrType { inner: primitive(PrimitiveType::I8) })),
            body: None,
        };
        let join_symbol = Symbol::new(alloc, "__libruntime__process_join");
        let process = Symbol::new(alloc, "process");
        let mut join_formals = Variables::new();
        let pointer = Variable {
            symbol: process,
            ty: Type::Ptr(Box::new(PtrType { inner: primitive(PrimitiveType::I8) })),
        };
        join_formals.push(pointer);
        assert(view_variables(join_formals@) =~= seq![pointer@]);
        let process_join_fn = Function {
            symbol: join_symbol,
            formals: join_formals,
            ret: primitive(PrimitiveType::Void),
            body: None,
        };
        Runtime { process_fn, process_join_fn }
    }

    /// Both functions of the runtime.
    pub fn functions(&self) -> (functions: Functions)
        ensures
            view_functions_list(functions@) == seq![self.process_fn@, self.process_join_fn@],
    {
        let mut functions = Functions::new();
        let a = clone_function(&self.process_fn);
        let b = clone_function(&self.process_join_fn);
        functions.push(a);
        functions.push(b);
        assert(view_functions_list(functions@) =~= seq![a@, b@]);
        functions
    }
}

} // verus!
