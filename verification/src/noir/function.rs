//! Functions of the normalised representation, and the processes that are
//! run as functions.

use vstd::prelude::*;
use vstd::string::StringExecFns;
use crate::bair::PrimitiveType;
use crate::identifier::{IdAllocator, IdentifierView, Symbol};
use crate::text::{decimal, decimal_text};
use super::{
    clone_block_expr, clone_type, view_block_expr, view_function, view_type, view_types,
    view_variables, BlockExpr, Function, FunctionView, Item, LambdaType, LambdaTypeView,
    ProcessExpr, Type, TypeView, VariableView, Variables,
};

verus! {

/// The types of a row of variables.
pub open spec fn types_of(variables: Seq<VariableView>) -> Seq<TypeView> {
    Seq::new(variables.len(), |i: int| variables[i].ty)
}

/// The type of a function: the types of its formals and of its result.
pub open spec fn lambda_of(function: FunctionView) -> LambdaTypeView {
    LambdaTypeView { formals: types_of(function.formals), ret: function.ret }
}

impl Function {
    /// A function. Its mangled name is the display name of its symbol.
    pub fn new(symbol: Symbol, formals: Variables, ret: Type, body: Option<BlockExpr>) -> (f:
        Function)
        ensures
            f == (Function { symbol, formals, ret, body, mangled_name: f.mangled_name }),
            f.mangled_name@ == symbol@.name,
    {
        let mangled_name = symbol.identifier.name.clone();
        Function { symbol, formals, ret, body, mangled_name }
    }

    /// Whether the function is extern: it has no body.
    pub fn is_extern(&self) -> (b: bool)
        ensures
            b == (self@.body is None),
    {
        proof {
            reveal_with_fuel(view_function, 2);
        }
        self.body.is_none()
    }

    /// Whether the function gives no result.
    pub fn is_void(&self) -> (b: bool)
        ensures
            b == (self@.ret == TypeView::Primitive(PrimitiveType::Void)),
    {
        proof {
            reveal_with_fuel(view_function, 2);
            reveal_with_fuel(view_type, 2);
        }
        match &self.ret {
            Type::Primitive(p) => **p == PrimitiveType::Void,
            _ => false,
        }
    }

    /// The type of the function: the types of its formals and of its
    /// result.
    pub fn lambda_type(&self) -> (ty: LambdaType)
        ensures
            ty@ == lambda_of(self@),
    {
        let mut formals: Vec<Type> = Vec::new();
        let mut i: usize = 0;
        while i < self.formals.len()
            invariant
                i <= self.formals.len(),
                formals.len() == i,
                forall|j: int| 0 <= j < i ==> (#[trigger] formals[j])@ == self.formals[j].ty@,
            decreases self.formals.len() - i,
        {
            formals.push(clone_type(&self.formals[i].ty));
            i += 1;
        }
        let ty = LambdaType { formals, ret: clone_type(&self.ret) };
        proof {
            assert forall|j: int| 0 <= j < self.formals.len() implies view_variables(
                self.formals@,
            )[j].ty == view_type(self.formals[j].ty) by {
                super::lemma_view_variables_index(self.formals@, j);
            }
            assert(view_types(formals@) =~= types_of(view_variables(self.formals@)));
        }
        ty
    }
}

/// The name of the function as which the process with the given number
/// runs.
pub open spec fn process_function_name(id: u64) -> Seq<char> {
    "__libruntime__process_"@ + decimal_text(id as nat)
}

impl ProcessExpr {
    /// The function as which the process runs: it has a fresh symbol, named
    /// after the number of the process, no formals and no result, and its
    /// body is the body of the process.
    pub fn function(&self, alloc: &mut IdAllocator) -> (f: Function)
        ensures
            f@ == (FunctionView {
                symbol: IdentifierView {
                    id: old(alloc).spec_next(),
                    name: process_function_name(self.identifier.id),
                },
                formals: Seq::empty(),
                ret: TypeView::Primitive(PrimitiveType::Void),
                body: Some(view_block_expr(*self.body)),
                mangled_name: process_function_name(self.identifier.id),
            }),
            final(alloc).follows(*old(alloc)),
    {
        proof {
            reveal_with_fuel(view_function, 2);
            reveal_with_fuel(view_type, 2);
        }
        let mut name = "__libruntime__process_".to_owned();
        name.append(decimal(self.identifier.id).as_str());
        let formals = Variables::new();
        assert(view_variables(formals@) =~= Seq::empty());
        Function::new(
            Symbol::new(alloc, name.as_str()),
            formals,
            Type::Primitive(Box::new(PrimitiveType::Void)),
            Some(clone_block_expr(&self.body)),
        )
    }
}

impl Item {
    /// The symbol of the item: that of a function, a module or a variable,
    /// and that of a type that has a name.
    pub open spec fn spec_symbol(self) -> Option<IdentifierView> {
        match self {
            Item::Function(f) => Some(f.symbol@),
            Item::Module(m) => Some(m.symbol@),
            Item::Type(t) => match *t {
                Type::Alias(a) => Some(a.symbol@),
                Type::Enum(e) => Some(e.symbol@),
                Type::Struct(s) => Some(s.symbol@),
                _ => None,
            },
            Item::Variable(v) => Some(v.symbol@),
        }
    }

    /// The symbol of the item, where it has one.
    pub fn symbol(&self) -> (symbol: Option<Symbol>)
        ensures
            match symbol {
                Some(s) => self.spec_symbol() == Some(s@),
                None => self.spec_symbol() is None,
            },
    {
        match self {
            Item::Function(f) => Some(f.symbol.clone()),
            Item::Module(m) => Some(m.symbol.clone()),
            Item::Type(t) => match &**t {
                Type::Alias(a) => Some(a.symbol.clone()),
                Type::Enum(e) => Some(e.symbol.clone()),
                Type::Struct(s) => Some(s.symbol.clone()),
                _ => None,
            },
            Item::Variable(v) => Some(v.symbol.clone()),
        }
    }
}

} // verus!
