//! # Normaliser
//!
//! Normalisation turns the resolved representation into the normalised
//! one. What each step does is stated by the functions of `model`; the
//! normaliser is proved to do the same.

pub mod laws;
pub mod model;

use vstd::prelude::*;
use crate::air;
use crate::bair::PrimitiveType;
use crate::identifier::{IdAllocator, Identifier};
use crate::noir;

pub use model::{NormaliserErrKind, NormaliserErrView, NormaliserView};

verus! {

/// An error of normalisation: its kind, and the identifier of the piece
/// that it is about.
#[derive(Debug)]
pub struct NormaliserErr {
    pub kind: NormaliserErrKind,
    pub identifier: Identifier,
}

impl View for NormaliserErr {
    type V = NormaliserErrView;

    open spec fn view(&self) -> NormaliserErrView {
        NormaliserErrView { kind: self.kind, identifier: self.identifier@ }
    }
}

/// What a list of errors stands for.
pub open spec fn view_errors(xs: Seq<NormaliserErr>) -> Seq<NormaliserErrView> {
    Seq::new(xs.len(), |i: int| xs[i]@)
}

/// The normaliser: the context of the normalised representation, the source
/// of identities, and the errors met so far.
pub struct Normaliser {
    context: noir::Context,
    allocator: IdAllocator,
    errors: Vec<NormaliserErr>,
}

impl View for Normaliser {
    type V = NormaliserView;

    closed spec fn view(&self) -> NormaliserView {
        NormaliserView {
            context: self.context@,
            next: self.allocator.spec_next(),
            exhausted: self.allocator.spec_exhausted(),
            errors: view_errors(self.errors@),
        }
    }
}

impl Normaliser {
    /// A normaliser that takes its identities from the given allocator. No
    /// error is recorded.
    pub fn new(context: noir::Context, allocator: IdAllocator) -> (normaliser: Normaliser)
        ensures
            normaliser@ == (NormaliserView {
                context: context@,
                next: allocator.spec_next(),
                exhausted: allocator.spec_exhausted(),
                errors: Seq::empty(),
            }),
            normaliser.spec_context() == context,
    {
        let normaliser = Normaliser { context, allocator, errors: Vec::new() };
        assert(normaliser@.errors =~= Seq::empty());
        normaliser
    }

    /// The context of the normalised representation.
    pub closed spec fn spec_context(&self) -> noir::Context {
        self.context
    }

    /// The context of the normalised representation.
    pub fn context(&self) -> (context: &noir::Context)
        ensures
            *context == self.spec_context(),
    {
        &self.context
    }

    /// The errors met so far.
    pub fn errors(&self) -> (errors: &Vec<NormaliserErr>)
        ensures
            view_errors(errors@) == self@.errors,
    {
        &self.errors
    }

    /// The source of identities.
    pub fn allocator(&self) -> (allocator: &IdAllocator)
        ensures
            allocator.spec_next() == self@.next,
            allocator.spec_exhausted() == self@.exhausted,
    {
        &self.allocator
    }

    /// Give up the normaliser for its context, its allocator and its
    /// errors.
    pub fn finish(self) -> (parts: (noir::Context, IdAllocator, Vec<NormaliserErr>))
        ensures
            parts.0 == self.spec_context(),
            parts.1.spec_next() == self@.next,
            parts.1.spec_exhausted() == self@.exhausted,
            view_errors(parts.2@) == self@.errors,
    {
        (self.context, self.allocator, self.errors)
    }

    fn fresh(&mut self) -> (identifier: Identifier)
        ensures
            (final(self)@, identifier@) == model::anonymous(old(self)@),
            final(self).spec_context() == old(self).spec_context(),
    {
        Identifier::id(&mut self.allocator)
    }

    fn report(&mut self, kind: NormaliserErrKind, identifier: Identifier)
        ensures
            final(self)@ == model::report(old(self)@, kind, identifier@),
            final(self).spec_context() == old(self).spec_context(),
    {
        self.errors.push(NormaliserErr { kind, identifier });
        assert(self@.errors =~= old(self)@.errors.push(
            NormaliserErrView { kind, identifier: identifier@ },
        ));
    }

    fn no_type() -> (ty: noir::Type)
        ensures
            ty@ == model::no_type(),
    {
        proof {
            reveal_with_fuel(noir::view_type, 2);
        }
        noir::Type::Primitive(Box::new(PrimitiveType::Void))
    }

    /// Normalise a type.
    pub fn normalise_type(&mut self, t: &air::Type) -> (ty: noir::Type)
        ensures
            (final(self)@, ty@) == model::normalise_type(old(self)@, t@),
        decreases t, 1nat,
    {
        proof {
            reveal_with_fuel(air::view_type, 2);
            reveal_with_fuel(noir::view_type, 2);
        }
        match t {
            air::Type::Alias(a) => self.normalise_type(&a.inner),
            air::Type::Enum(e) => {
                let params = self.normalise_types(&e.params);
                let variants = self.normalise_struct_type(&e.variants);
                noir::Type::Enum(
                    Box::new(
                        noir::EnumType {
                            symbol: e.symbol.clone(),
                            params,
                            variants: Box::new(variants),
                        },
                    ),
                )
            },
            air::Type::Generic(g) => {
                self.report(NormaliserErrKind::GenericType, g.identifier.clone());
                Normaliser::no_type()
            },
            air::Type::Lambda(l) => noir::Type::Lambda(Box::new(self.normalise_lambda_type(l))),
            air::Type::Primitive(p) => noir::Type::Primitive(Box::new(**p)),
            air::Type::Ptr(p) => {
                let inner = self.normalise_type(&p.inner);
                noir::Type::Ptr(Box::new(noir::PtrType { inner }))
            },
            air::Type::Ref(r) => {
                let inner = self.normalise_type(&r.inner);
                noir::Type::Ref(Box::new(noir::RefType { inner }))
            },
            air::Type::Struct(st) => noir::Type::Struct(Box::new(self.normalise_struct_type(st))),
            air::Type::Unresolved(u) => {
                self.report(NormaliserErrKind::UnresolvedType, u.symbol.identifier.clone());
                Normaliser::no_type()
            },
        }
    }

    /// Normalise the type of a function.
    pub fn normalise_lambda_type(&mut self, lambda_type: &air::LambdaType) -> (ty:
        noir::LambdaType)
        ensures
            (final(self)@, ty@) == model::normalise_lambda_type(old(self)@, lambda_type@),
        decreases lambda_type, 0nat,
    {
        let formals = self.normalise_types(&lambda_type.formals);
        let ret = self.normalise_type(&lambda_type.ret);
        noir::LambdaType { formals, ret }
    }

    /// Normalise a structure type.
    pub fn normalise_struct_type(&mut self, st: &air::StructType) -> (ty: noir::StructType)
        ensures
            (final(self)@, ty@) == model::normalise_struct_type(old(self)@, st@),
        decreases st, 0nat,
    {
        let params = self.normalise_types(&st.params);
        let elements = self.normalise_variables(&st.elements);
        noir::StructType { symbol: st.symbol.clone(), params, elements }
    }

    /// Normalise a variable.
    pub fn normalise_variable(&mut self, variable: &air::Variable) -> (v: noir::Variable)
        ensures
            (final(self)@, v@) == model::normalise_variable(old(self)@, variable@),
        decreases variable, 0nat,
    {
        let ty = self.normalise_type(&variable.ty);
        noir::Variable { symbol: variable.symbol.clone(), ty }
    }

    /// Normalise a row of types, in order.
    pub fn normalise_types(&mut self, xs: &Vec<air::Type>) -> (res: Vec<noir::Type>)
        ensures
            (final(self)@, noir::view_types(res@)) == model::normalise_types(
                old(self)@,
                air::view_types(xs@),
                xs@.len(),
            ),
        decreases xs, xs.len(),
    {
        let mut res: Vec<noir::Type> = Vec::new();
        let mut i: usize = 0;
        proof {
            assert(noir::view_types(res@) =~= Seq::empty());
            air::lemma_view_types_len(xs@);
        }
        while i < xs.len()
            invariant
                i <= xs.len(),
                air::view_types(xs@).len() == xs.len(),
                (self@, noir::view_types(res@)) == model::normalise_types(old(self)@, air::view_types(xs@), i as nat),
            decreases xs.len() - i,
        {
            let ghost before = res@;
            proof {
                air::lemma_view_types_index(xs@, i as int);
            }
            let x = self.normalise_type(&xs[i]);
            res.push(x);
            proof {
                noir::lemma_view_types_push(before, x);
            }
            i += 1;
        }
        res
    }

    /// Normalise a row of variables, in order.
    pub fn normalise_variables(&mut self, xs: &Vec<air::Variable>) -> (res: Vec<noir::Variable>)
        ensures
            (final(self)@, noir::view_variables(res@)) == model::normalise_variables(
                old(self)@,
                air::view_variables(xs@),
                xs@.len(),
            ),
        decreases xs, xs.len(),
    {
        let mut res: Vec<noir::Variable> = Vec::new();
        let mut i: usize = 0;
        proof {
            assert(noir::view_variables(res@) =~= Seq::empty());
            air::lemma_view_variables_len(xs@);
        }
        while i < xs.len()
            invariant
                i <= xs.len(),
                air::view_variables(xs@).len() == xs.len(),
                (self@, noir::view_variables(res@)) == model::normalise_variables(old(self)@, air::view_variables(xs@), i as nat),
            decreases xs.len() - i,
        {
            let ghost before = res@;
            proof {
                air::lemma_view_variables_index(xs@, i as int);
            }
            let x = self.normalise_variable(&xs[i]);
            res.push(x);
            proof {
                noir::lemma_view_variables_push(before, x);
            }
            i += 1;
        }
        res
    }

    /// Normalise a row of expressions, in order.
    pub fn normalise_exprs(&mut self, xs: &Vec<air::Expr>) -> (res: Vec<noir::Expr>)
        ensures
            (final(self)@, noir::view_exprs(res@)) == model::normalise_exprs(
                old(self)@,
                air::view_exprs(xs@),
                xs@.len(),
            ),
        decreases xs, xs.len(),
    {
        let mut res: Vec<noir::Expr> = Vec::new();
        let mut i: usize = 0;
        proof {
            assert(noir::view_exprs(res@) =~= Seq::empty());
            air::lemma_view_exprs_len(xs@);
        }
        while i < xs.len()
            invariant
                i <= xs.len(),
                air::view_exprs(xs@).len() == xs.len(),
                (self@, noir::view_exprs(res@)) == model::normalise_exprs(old(self)@, air::view_exprs(xs@), i as nat),
            decreases xs.len() - i,
        {
            let ghost before = res@;
            proof {
                air::lemma_view_exprs_index(xs@, i as int);
            }
            let x = self.normalise_expr(&xs[i]);
            res.push(x);
            proof {
                noir::lemma_view_exprs_push(before, x);
            }
            i += 1;
        }
        res
    }

    /// Normalise the elements of a structure value, in order.
    pub fn normalise_fields(&mut self, xs: &Vec<(air::Variable, air::Expr)>) -> (res: Vec<(noir::Variable, noir::Expr)>)
        ensures
            (final(self)@, noir::view_fields(res@)) == model::normalise_fields(
                old(self)@,
                air::view_fields(xs@),
                xs@.len(),
            ),
        decreases xs, xs.len(),
    {
        let mut res: Vec<(noir::Variable, noir::Expr)> = Vec::new();
        let mut i: usize = 0;
        proof {
            assert(noir::view_fields(res@) =~= Seq::empty());
            air::lemma_view_fields_len(xs@);
        }
        while i < xs.len()
            invariant
                i <= xs.len(),
                air::view_fields(xs@).len() == xs.len(),
                (self@, noir::view_fields(res@)) == model::normalise_fields(old(self)@, air::view_fields(xs@), i as nat),
            decreases xs.len() - i,
        {
            let ghost before = res@;
            proof {
                air::lemma_view_fields_index(xs@, i as int);
            }
            let v = self.normalise_variable(&xs[i].0);
            let e = self.normalise_expr(&xs[i].1);
            let x = (v, e);
            res.push(x);
            proof {
                noir::lemma_view_fields_push(before, x);
            }
            i += 1;
        }
        res
    }

    /// Normalise the functions of a table, each under its identifier.
    pub fn normalise_function_table(&mut self, xs: &Vec<(Identifier, air::Function)>) -> (res: Vec<(Identifier, noir::Function)>)
        ensures
            (final(self)@, noir::view_function_table(res@)) == model::normalise_function_table(
                old(self)@,
                air::view_function_table(xs@),
                xs@.len(),
            ),
        decreases xs, xs.len(),
    {
        let mut res: Vec<(Identifier, noir::Function)> = Vec::new();
        let mut i: usize = 0;
        proof {
            assert(noir::view_function_table(res@) =~= Seq::empty());
            air::lemma_view_function_table_len(xs@);
        }
        while i < xs.len()
            invariant
                i <= xs.len(),
                air::view_function_table(xs@).len() == xs.len(),
                (self@, noir::view_function_table(res@)) == model::normalise_function_table(old(self)@, air::view_function_table(xs@), i as nat),
            decreases xs.len() - i,
        {
            let ghost before = res@;
            proof {
                air::lemma_view_function_table_index(xs@, i as int);
            }
            let f = self.normalise_function(&xs[i].1);
            let x = (xs[i].0.clone(), f);
            res.push(x);
            proof {
                noir::lemma_view_function_table_push(before, x);
            }
            i += 1;
        }
        res
    }

    /// Normalise the modules of a table, each under its identifier.
    pub fn normalise_module_table(&mut self, xs: &Vec<(Identifier, air::Module)>) -> (res: Vec<(Identifier, noir::Module)>)
        ensures
            (final(self)@, noir::view_module_table(res@)) == model::normalise_module_table(
                old(self)@,
                air::view_module_table(xs@),
                xs@.len(),
            ),
        decreases xs, xs.len(),
    {
        let mut res: Vec<(Identifier, noir::Module)> = Vec::new();
        let mut i: usize = 0;
        proof {
            assert(noir::view_module_table(res@) =~= Seq::empty());
            air::lemma_view_module_table_len(xs@);
        }
        while i < xs.len()
            invariant
                i <= xs.len(),
                air::view_module_table(xs@).len() == xs.len(),
                (self@, noir::view_module_table(res@)) == model::normalise_module_table(old(self)@, air::view_module_table(xs@), i as nat),
            decreases xs.len() - i,
        {
            let ghost before = res@;
            proof {
                air::lemma_view_module_table_index(xs@, i as int);
            }
            let m = self.normalise_module(&xs[i].1);
            let x = (xs[i].0.clone(), m);
            res.push(x);
            proof {
                noir::lemma_view_module_table_push(before, x);
            }
            i += 1;
        }
        res
    }

    /// Normalise the types of a table, each under its identifier.
    pub fn normalise_type_table(&mut self, xs: &Vec<(Identifier, air::Type)>) -> (res: Vec<(Identifier, noir::Type)>)
        ensures
            (final(self)@, noir::view_type_table(res@)) == model::normalise_type_table(
                old(self)@,
                air::view_type_table(xs@),
                xs@.len(),
            ),
        decreases xs, xs.len(),
    {
        let mut res: Vec<(Identifier, noir::Type)> = Vec::new();
        let mut i: usize = 0;
        proof {
            assert(noir::view_type_table(res@) =~= Seq::empty());
            air::lemma_view_type_table_len(xs@);
        }
        while i < xs.len()
            invariant
                i <= xs.len(),
                air::view_type_table(xs@).len() == xs.len(),
                (self@, noir::view_type_table(res@)) == model::normalise_type_table(old(self)@, air::view_type_table(xs@), i as nat),
            decreases xs.len() - i,
        {
            let ghost before = res@;
            proof {
                air::lemma_view_type_table_index(xs@, i as int);
            }
            let t = self.normalise_type(&xs[i].1);
            let x = (xs[i].0.clone(), t);
            res.push(x);
            proof {
                noir::lemma_view_type_table_push(before, x);
            }
            i += 1;
        }
        res
    }

    fn void(identifier: Identifier) -> (e: noir::Expr)
        ensures
            e@ == model::void(identifier@),
    {
        proof {
            reveal_with_fuel(noir::view_expr, 2);
        }
        noir::Expr::Void(Box::new(noir::VoidExpr { identifier }))
    }

    /// Normalise the expression without a value.
    pub fn normalise_void_expr(&mut self, void_expr: &air::VoidExpr) -> (v: noir::VoidExpr)
        ensures
            v@ == (noir::VoidExprView { identifier: void_expr@.identifier }),
            final(self)@ == old(self)@,
    {
        noir::VoidExpr { identifier: void_expr.identifier.clone() }
    }

    fn normalise_literal(literal: &air::Literal) -> (l: Option<noir::Literal>)
        ensures
            match l {
                Some(l) => model::normalise_literal(literal@) == Some(l@),
                None => model::normalise_literal(literal@) is None,
            },
    {
        proof {
            reveal_with_fuel(air::view_literal, 2);
        }
        match literal {
            air::Literal::Bool(v) => Some(noir::Literal::Bool(*v)),
            air::Literal::Char(v) => Some(noir::Literal::Char(*v)),
            air::Literal::F32(v) => Some(noir::Literal::F32(v.clone())),
            air::Literal::F64(v) => Some(noir::Literal::F64(v.clone())),
            air::Literal::I8(v) => Some(noir::Literal::I8(*v)),
            air::Literal::I16(v) => Some(noir::Literal::I16(*v)),
            air::Literal::I32(v) => Some(noir::Literal::I32(*v)),
            air::Literal::I64(v) => Some(noir::Literal::I64(*v)),
            air::Literal::Str(v) => Some(noir::Literal::Str(v.clone())),
            air::Literal::U8(v) => Some(noir::Literal::U8(*v)),
            air::Literal::U16(v) => Some(noir::Literal::U16(*v)),
            air::Literal::U32(v) => Some(noir::Literal::U32(*v)),
            air::Literal::U64(v) => Some(noir::Literal::U64(*v)),
            air::Literal::USize(v) => Some(noir::Literal::USize(*v)),
            air::Literal::Channel(..) | air::Literal::List(_) | air::Literal::ListRange(..) => None,
        }
    }

    fn definition_of(identifier: Identifier, variable: &noir::Variable, rhs: noir::Expr) -> (d:
        noir::AssignExpr)
        ensures
            d@ == model::definition_of(identifier@, variable@, rhs@),
    {
        proof {
            reveal_with_fuel(noir::view_assign_expr, 6);
        }
        let parent: Vec<noir::Expr> = Vec::new();
        assert(noir::view_exprs(parent@) =~= Seq::empty());
        noir::AssignExpr {
            lhs: noir::RefExpr {
                identifier,
                inner: noir::Expr::Variable(
                    Box::new(
                        noir::VariableExpr { variable: noir::clone_variable(variable), parent },
                    ),
                ),
            },
            rhs,
        }
    }

    /// Normalise an expression.
    pub fn normalise_expr(&mut self, expr: &air::Expr) -> (e: noir::Expr)
        ensures
            (final(self)@, e@) == model::normalise_expr(old(self)@, expr@),
        decreases expr, 1nat,
    {
        proof {
            reveal_with_fuel(air::view_expr, 2);
            reveal_with_fuel(noir::view_expr, 2);
        }
        match expr {
            air::Expr::Block(b) => noir::Expr::Block(Box::new(self.normalise_block_expr(b))),
            air::Expr::Call(c) => {
                let target = self.normalise_expr(&c.target);
                let arguments = self.normalise_exprs(&c.arguments);
                noir::Expr::Call(
                    Box::new(
                        noir::CallExpr { identifier: c.identifier.clone(), target, arguments },
                    ),
                )
            },
            air::Expr::Deref(d) => {
                let inner = self.normalise_expr(&d.inner);
                noir::Expr::Deref(
                    Box::new(noir::DerefExpr { identifier: d.identifier.clone(), inner }),
                )
            },
            air::Expr::For(f) => {
                let formals = self.normalise_variables(&f.formals);
                let iterator = self.normalise_expr(&f.iterator);
                let iteration = self.normalise_block_expr(&f.iteration);
                noir::Expr::For(
                    Box::new(
                        noir::ForExpr {
                            identifier: f.identifier.clone(),
                            formals,
                            iterator,
                            iteration: Box::new(iteration),
                        },
                    ),
                )
            },
            air::Expr::If(i) => {
                let condition = self.normalise_expr(&i.condition);
                let then_block = self.normalise_block_expr(&i.then_block);
                let else_block = self.normalise_block_expr(&i.else_block);
                noir::Expr::If(
                    Box::new(
                        noir::IfExpr {
                            identifier: i.identifier.clone(),
                            condition,
                            then_block: Box::new(then_block),
                            else_block: Box::new(else_block),
                        },
                    ),
                )
            },
            air::Expr::Item(i) => {
                let item = self.normalise_item(&i.item);
                noir::Expr::Item(
                    Box::new(noir::ItemExpr { identifier: i.identifier.clone(), item }),
                )
            },
            air::Expr::Let(l) => {
                let variable = self.normalise_variable(&l.variable);
                let rhs = self.normalise_expr(&l.definition);
                let identifier = self.fresh();
                let definition = Normaliser::definition_of(identifier, &variable, rhs);
                noir::Expr::Let(
                    Box::new(
                        noir::LetExpr { identifier: l.identifier.clone(), variable, definition },
                    ),
                )
            },
            air::Expr::Literal(l) => match Normaliser::normalise_literal(&l.literal) {
                Some(literal) => noir::Expr::Literal(
                    Box::new(noir::LiteralExpr { identifier: l.identifier.clone(), literal }),
                ),
                None => {
                    self.report(NormaliserErrKind::UnsupportedLiteral, l.identifier.clone());
                    Normaliser::void(l.identifier.clone())
                },
            },
            air::Expr::Ref(r) => {
                let inner = self.normalise_expr(&r.inner);
                noir::Expr::Ref(Box::new(noir::RefExpr { identifier: r.identifier.clone(), inner }))
            },
            air::Expr::Struct(st) => {
                let elements = self.normalise_fields(&st.elements);
                let ty = self.normalise_type(&st.ty);
                noir::Expr::Struct(Box::new(noir::StructExpr { elements, ty }))
            },
            air::Expr::Void(v) => Normaliser::void(v.identifier.clone()),
        }
    }

    /// Normalise what an item reference refers to.
    pub fn normalise_item(&mut self, item: &air::Item) -> (i: noir::Item)
        ensures
            (final(self)@, i@) == model::normalise_item(old(self)@, item@),
        decreases item, 0nat,
    {
        proof {
            reveal_with_fuel(air::view_item, 2);
            reveal_with_fuel(noir::view_item, 2);
        }
        match item {
            air::Item::Function(f) => noir::Item::Function(Box::new(self.normalise_function(f))),
            air::Item::Module(m) => noir::Item::Module(Box::new(self.normalise_module(m))),
            air::Item::Type(t) => noir::Item::Type(Box::new(self.normalise_type(t))),
            air::Item::Variable(v) => noir::Item::Variable(Box::new(self.normalise_variable(v))),
        }
    }

    /// Normalise a block.
    pub fn normalise_block_expr(&mut self, block_expr: &air::BlockExpr) -> (b: noir::BlockExpr)
        ensures
            (final(self)@, b@) == model::normalise_block_expr(old(self)@, block_expr@),
        decreases block_expr, 0nat,
    {
        let body = self.normalise_exprs(&block_expr.body);
        let ret = self.normalise_expr(&block_expr.ret);
        let function_table = self.normalise_function_table(&block_expr.function_table);
        let module_table = self.normalise_module_table(&block_expr.module_table);
        let type_table = self.normalise_type_table(&block_expr.type_table);
        let prelude: Vec<noir::Expr> = Vec::new();
        let epilogue: Vec<noir::Expr> = Vec::new();
        assert(noir::view_exprs(prelude@) =~= Seq::empty());
        assert(noir::view_exprs(epilogue@) =~= Seq::empty());
        noir::BlockExpr {
            identifier: block_expr.identifier.clone(),
            prelude,
            body,
            ret,
            epilogue,
            function_table,
            module_table,
            type_table,
        }
    }

    /// Normalise a function.
    pub fn normalise_function(&mut self, function: &air::Function) -> (f: noir::Function)
        ensures
            (final(self)@, f@) == model::normalise_function(old(self)@, function@),
        decreases function, 0nat,
    {
        proof {
            reveal_with_fuel(air::view_function, 2);
            reveal_with_fuel(noir::view_function, 2);
        }
        let formals = self.normalise_variables(&function.formals);
        let ret = self.normalise_type(&function.ret);
        let body = match &function.body {
            Some(b) => Some(self.normalise_block_expr(b)),
            None => None,
        };
        noir::Function::new(function.symbol.clone(), formals, ret, body)
    }

    /// Normalise a module.
    pub fn normalise_module(&mut self, module: &air::Module) -> (m: noir::Module)
        ensures
            (final(self)@, m@) == model::normalise_module(old(self)@, module@),
        decreases module, 0nat,
    {
        let function_table = self.normalise_function_table(&module.function_table);
        let module_table = self.normalise_module_table(&module.module_table);
        let type_table = self.normalise_type_table(&module.type_table);
        noir::Module { symbol: module.symbol.clone(), function_table, module_table, type_table }
    }
}

} // verus!
