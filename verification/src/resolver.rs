//! # Resolver
//!
//! Resolution walks a syntax tree and builds the resolved representation.
//! It keeps the scopes that are open and checks that every name that is
//! used has been brought into scope. What each step does is stated by the
//! functions of `model`; the resolver is proved to do the same.

pub mod lookup;
pub mod below;
pub mod complete;
pub mod declared;
pub mod known;
pub mod laws;
pub mod model;
pub mod names;
pub mod once;
pub mod scope;
pub mod sourced;
pub mod unique;

use vstd::prelude::*;
use crate::lexer::span::Spanned;
use crate::air::table::{clashes, find_id, put};
use crate::air::typedef::{typedef_of_expr, view_typed};
use crate::air::{
    clone_function, clone_module, clone_type, clone_variable, view_expr, view_exprs, view_function,
    view_function_table, view_module, view_module_table, view_type, view_type_table, view_types,
    view_variable, view_variables, Air, BlockExpr, CallExpr, Context, ContextView, Expr, Exprs,
    Function, FunctionTable, Item, Literal, Module, ModuleTable, Type, TypeTable, Types, Variable,
    Variables,
};
use crate::ast;
use crate::bair::PrimitiveType;
use crate::identifier::{IdAllocator, Identifier, Symbol};
use crate::lexer::span::Span;
use lookup::view_found;
use scope::{view_blocks, view_errors, view_functions, view_modules};

pub use scope::{
    BlockScope, BlockScopeView, ResolverErr, ResolverErrKind, ResolverErrView, ResolverView,
};

verus! {

/// The resolver: the source of identities, the context, the three stacks
/// of open scopes, each with the innermost scope last, and the errors met
/// so far.
pub struct Resolver {
    allocator: IdAllocator,
    context: Context,
    modules: Vec<Module>,
    functions: Vec<Function>,
    blocks: Vec<BlockScope>,
    errors: Vec<ResolverErr>,
}

impl View for Resolver {
    type V = ResolverView;

    closed spec fn view(&self) -> ResolverView {
        ResolverView {
            next: self.allocator.spec_next(),
            exhausted: self.allocator.spec_exhausted(),
            context: self.context@,
            modules: view_modules(self.modules@),
            functions: view_functions(self.functions@),
            blocks: view_blocks(self.blocks@),
            errors: view_errors(self.errors@),
        }
    }
}

impl Resolver {
    /// A resolver that takes its identities from the given allocator. No
    /// scope is open, nothing is declared and no error is recorded.
    pub fn new(allocator: IdAllocator) -> (resolver: Resolver)
        ensures
            resolver@ == (ResolverView {
                next: allocator.spec_next(),
                exhausted: allocator.spec_exhausted(),
                context: ContextView {
                    function_table: Seq::empty(),
                    module_table: Seq::empty(),
                    type_table: Seq::empty(),
                },
                modules: Seq::empty(),
                functions: Seq::empty(),
                blocks: Seq::empty(),
                errors: Seq::empty(),
            }),
    {
        let resolver = Resolver {
            allocator,
            context: Context::new(),
            modules: Vec::new(),
            functions: Vec::new(),
            blocks: Vec::new(),
            errors: Vec::new(),
        };
        assert(resolver@.modules =~= Seq::empty());
        assert(resolver@.functions =~= Seq::empty());
        assert(resolver@.blocks =~= Seq::empty());
        assert(resolver@.errors =~= Seq::empty());
        resolver
    }

    /// The context: everything declared so far.
    pub fn context(&self) -> (context: &Context)
        ensures
            context@ == self@.context,
    {
        &self.context
    }

    /// The errors met so far.
    pub fn errors(&self) -> (errors: &Vec<ResolverErr>)
        ensures
            view_errors(errors@) == self@.errors,
    {
        &self.errors
    }

    /// The source of identities.
    pub fn allocator(&self) -> (allocator: &IdAllocator)
        ensures
            allocator.spec_next() == self@.next,
            allocator.spec_exhausted() == self@.exhausted,
    {
        &self.allocator
    }

    /// Give up the resolver for its allocator, its context and its errors.
    pub fn finish(self) -> (parts: (IdAllocator, Context, Vec<ResolverErr>))
        ensures
            parts.0.spec_next() == self@.next,
            parts.0.spec_exhausted() == self@.exhausted,
            parts.1@ == self@.context,
            view_errors(parts.2@) == self@.errors,
    {
        (self.allocator, self.context, self.errors)
    }

    fn fresh(&mut self) -> (identifier: Identifier)
        ensures
            (final(self)@, identifier@) == model::anonymous(old(self)@),
    {
        Identifier::id(&mut self.allocator)
    }

    fn report(&mut self, kind: ResolverErrKind, name: String, span: Span)
        ensures
            final(self)@ == model::report(old(self)@, kind, name@, span@),
    {
        self.errors.push(ResolverErr::new(kind, name, span));
        assert(self@.errors =~= old(self)@.errors.push(
            ResolverErrView { kind, name: name@, span: span@ },
        ));
    }

    /// Open a block as the innermost scope.
    pub fn push_block(&mut self, scope: BlockScope)
        ensures
            final(self)@ == model::push_block(old(self)@, scope@),
    {
        self.blocks.push(scope);
        assert(self@.blocks =~= old(self)@.blocks.push(scope@));
    }

    /// Close the innermost open block and hand out its scope.
    pub fn pop_block(&mut self) -> (scope: Option<BlockScope>)
        ensures
            final(self)@ == model::pop_block(old(self)@),
            match scope {
                Some(scope) => old(self)@.blocks.len() > 0 && scope@ == old(self)@.blocks.last(),
                None => old(self)@.blocks.len() == 0,
            },
    {
        let scope = self.blocks.pop();
        assert(self@.blocks =~= model::pop_block(old(self)@).blocks);
        scope
    }

    /// Bring a variable into the innermost open block. Where no block is open
    /// the variable is brought into no scope.
    pub fn register_variable(&mut self, variable: Variable)
        ensures
            final(self)@ == model::register_variable(old(self)@, variable@),
    {
        match self.blocks.pop() {
            Some(mut scope) => {
                let ghost before = scope.variables@;
                scope.variables.push(variable);
                proof {
                    crate::air::lemma_view_variables_push(before, variable);
                }
                self.blocks.push(scope);
                assert(self@.blocks =~= model::register_variable(old(self)@, variable@).blocks);
            },
            None => {},
        }
    }

    /// Open a function: its formals come into scope.
    pub fn push_function(&mut self, function: Function)
        ensures
            final(self)@ == model::push_function(old(self)@, function@),
    {
        self.functions.push(function);
        assert(self@.functions =~= old(self)@.functions.push(function@));
    }

    /// Close the innermost open function.
    pub fn pop_function(&mut self)
        ensures
            final(self)@ == model::pop_function(old(self)@),
    {
        let _ = self.functions.pop();
        assert(self@.functions =~= model::pop_function(old(self)@).functions);
    }

    /// Open a module as the innermost scope for declarations.
    pub fn push_module(&mut self, module: Module)
        ensures
            final(self)@ == model::push_module(old(self)@, module@),
    {
        self.modules.push(module);
        assert(self@.modules =~= old(self)@.modules.push(module@));
    }

    /// Close the innermost open module and hand it out.
    pub fn pop_module(&mut self) -> (module: Option<Module>)
        ensures
            final(self)@ == model::pop_module(old(self)@),
            match module {
                Some(module) => old(self)@.modules.len() > 0 && module@ == old(
                    self,
                )@.modules.last(),
                None => old(self)@.modules.len() == 0,
            },
    {
        let module = self.modules.pop();
        assert(self@.modules =~= model::pop_module(old(self)@).modules);
        module
    }

    /// What a name refers to in the open scopes: the first match from the
    /// innermost scope outwards.
    pub fn lookup(&self, name: &String) -> (found: Option<Item>)
        ensures
            view_found(found) == model::lookup(self@, name@),
    {
        match lookup::lookup_blocks(&self.blocks, name) {
            Some(item) => Some(item),
            None => match lookup::lookup_functions(&self.functions, name) {
                Some(item) => Some(item),
                None => lookup::lookup_modules(&self.modules, name),
            },
        }
    }

    /// What a name refers to that may be qualified by a path of modules.
    pub fn lookup_path(&self, qualifier: &Vec<Symbol>, name: &String) -> (found: Option<Item>)
        ensures
            view_found(found) == model::lookup_path(self@, qualifier@, name@),
    {
        if qualifier.len() == 0 {
            return self.lookup(name);
        }
        let mut item = match self.lookup(&qualifier[0].identifier.name) {
            Some(item) => item,
            None => {
                proof {
                    lemma_qualifier_fails(self@, qualifier@, 1, qualifier@.len());
                }
                return None;
            },
        };
        let mut n: usize = 1;
        while n < qualifier.len()
            invariant
                1 <= n <= qualifier.len(),
                model::lookup_qualifier(self@, qualifier@, n as nat) == Some(item@),
            decreases qualifier.len() - n,
        {
            match lookup::lookup_member(&self.context, &item, &qualifier[n].identifier.name) {
                Some(next) => {
                    item = next;
                },
                None => {
                    proof {
                        lemma_qualifier_fails(self@, qualifier@, (n + 1) as nat, qualifier@.len());
                    }
                    return None;
                },
            }
            n += 1;
        }
        lookup::lookup_member(&self.context, &item, name)
    }
}

impl Resolver {
    /// Resolve a type that is given by name.
    pub fn resolve_named_type(&mut self, u: &ast::UnresolvedType) -> (ty: Type)
        ensures
            (final(self)@, ty@) == model::resolve_named_type(old(self)@, *u),
    {
        proof {
            reveal_with_fuel(view_type, 2);
            reveal_with_fuel(crate::air::view_item, 2);
        }
        if u.qualifier.len() == 0 {
            match PrimitiveType::named(&u.symbol.identifier.name) {
                Some(p) => {
                    return Type::Primitive(Box::new(p));
                },
                None => {},
            }
        }
        match self.lookup_path(&u.qualifier, &u.symbol.identifier.name) {
            Some(Item::Type(t)) => *t,
            Some(_) => {
                self.report(
                    ResolverErrKind::TypeMismatch,
                    u.symbol.identifier.name.clone(),
                    u.span.clone(),
                );
                Resolver::unresolved(&u.symbol)
            },
            None => {
                self.report(
                    ResolverErrKind::UnresolvedSymbol,
                    u.symbol.identifier.name.clone(),
                    u.span.clone(),
                );
                Resolver::unresolved(&u.symbol)
            },
        }
    }

    fn unresolved(symbol: &Symbol) -> (ty: Type)
        ensures
            ty@ == model::unresolved(symbol@),
    {
        proof {
            reveal_with_fuel(view_type, 2);
        }
        Type::Unresolved(Box::new(crate::air::UnresolvedType { symbol: symbol.clone() }))
    }

    /// Resolve a type.
    pub fn resolve_type(&mut self, t: &ast::Type) -> (ty: Type)
        ensures
            (final(self)@, ty@) == model::resolve_type(old(self)@, *t),
        decreases t, 0nat,
    {
        proof {
            reveal_with_fuel(view_type, 2);
        }
        match t {
            ast::Type::Lambda(l) => {
                let formals = self.resolve_types(&l.formals);
                let ret = self.resolve_type(&l.ret);
                Type::Lambda(Box::new(crate::air::LambdaType { formals, ret }))
            },
            ast::Type::Primitive(p) => Type::Primitive(Box::new(*p)),
            ast::Type::Ptr(p) => {
                let inner = self.resolve_type(&p.inner);
                Type::Ptr(Box::new(crate::air::PtrType { inner }))
            },
            ast::Type::Ref(r) => {
                let inner = self.resolve_type(&r.inner);
                Type::Ref(Box::new(crate::air::RefType { inner }))
            },
            ast::Type::Struct(st) => {
                let symbol = Symbol::from(self.fresh());
                let elements = self.resolve_variables(&st.elements);
                let params = Types::new();
                assert(view_types(params@) =~= Seq::empty());
                Type::Struct(Box::new(crate::air::StructType { symbol, params, elements }))
            },
            ast::Type::Unresolved(u) => self.resolve_named_type(u),
        }
    }

    /// Resolve a row of types, in order.
    pub fn resolve_types(&mut self, ts: &Vec<ast::Type>) -> (types: Types)
        ensures
            (final(self)@, view_types(types@)) == model::resolve_types(
                old(self)@,
                ts@,
                ts@.len(),
            ),
        decreases ts, ts.len(),
    {
        let mut types = Types::new();
        let mut i: usize = 0;
        assert(view_types(types@) =~= Seq::empty());
        while i < ts.len()
            invariant
                i <= ts.len(),
                (self@, view_types(types@)) == model::resolve_types(old(self)@, ts@, i as nat),
            decreases ts.len() - i,
        {
            let ghost before = types@;
            let t = self.resolve_type(&ts[i]);
            types.push(t);
            proof {
                crate::air::lemma_view_types_push(before, t);
            }
            i += 1;
        }
        types
    }

    /// Resolve a variable: it keeps its symbol, and its type is resolved.
    pub fn resolve_variable(&mut self, f: &ast::FunctionFormal) -> (variable: Variable)
        ensures
            (final(self)@, variable@) == model::resolve_variable(old(self)@, *f),
        decreases f, 0nat,
    {
        let ty = self.resolve_type(&f.ty);
        Variable { symbol: f.symbol.clone(), ty }
    }

    /// Resolve a row of variables, in order.
    pub fn resolve_variables(&mut self, fs: &Vec<ast::FunctionFormal>) -> (variables: Variables)
        ensures
            (final(self)@, view_variables(variables@)) == model::resolve_variables(
                old(self)@,
                fs@,
                fs@.len(),
            ),
        decreases fs, fs.len(),
    {
        let mut variables = Variables::new();
        let mut i: usize = 0;
        assert(view_variables(variables@) =~= Seq::empty());
        while i < fs.len()
            invariant
                i <= fs.len(),
                (self@, view_variables(variables@)) == model::resolve_variables(
                    old(self)@,
                    fs@,
                    i as nat,
                ),
            decreases fs.len() - i,
        {
            let ghost before = variables@;
            let v = self.resolve_variable(&fs[i]);
            variables.push(v);
            proof {
                crate::air::lemma_view_variables_push(before, v);
            }
            i += 1;
        }
        variables
    }
}

impl Resolver {
    fn void(identifier: Identifier) -> (e: Expr)
        ensures
            e@ == model::void(identifier@),
    {
        proof {
            reveal_with_fuel(view_expr, 2);
        }
        Expr::Void(Box::new(crate::air::VoidExpr { identifier }))
    }

    fn literal(identifier: Identifier, literal: Literal) -> (e: Expr)
        ensures
            e@ == model::literal(identifier@, literal@),
    {
        proof {
            reveal_with_fuel(view_expr, 2);
        }
        Expr::Literal(Box::new(crate::air::LiteralExpr { identifier, literal }))
    }

    /// Resolve a row of expressions, in order.
    pub fn resolve_exprs(&mut self, es: &Vec<ast::Expr>) -> (exprs: Exprs)
        ensures
            (final(self)@, view_exprs(exprs@)) == model::resolve_exprs(
                old(self)@,
                es@,
                es@.len(),
            ),
        decreases es, es.len(),
    {
        let mut exprs = Exprs::new();
        let mut i: usize = 0;
        assert(view_exprs(exprs@) =~= Seq::empty());
        while i < es.len()
            invariant
                i <= es.len(),
                (self@, view_exprs(exprs@)) == model::resolve_exprs(old(self)@, es@, i as nat),
            decreases es.len() - i,
        {
            let ghost before = exprs@;
            let e = self.resolve_expr(&es[i]);
            exprs.push(e);
            proof {
                crate::air::lemma_view_exprs_push(before, e);
            }
            i += 1;
        }
        exprs
    }

    /// Resolve a block in whose scope the given variables stand.
    fn resolve_block_with(&mut self, b: &ast::BlockExpr, variables: Variables) -> (block: BlockExpr)
        ensures
            (final(self)@, block@) == model::resolve_block(
                old(self)@,
                *b,
                view_variables(variables@),
            ),
        decreases b, 0nat,
    {
        let identifier = self.fresh();
        let scope = BlockScope {
            identifier: identifier.clone(),
            variables,
            function_table: FunctionTable::new(),
            module_table: ModuleTable::new(),
            type_table: TypeTable::new(),
        };
        proof {
            assert(view_function_table(scope.function_table@) =~= Seq::empty());
            assert(view_module_table(scope.module_table@) =~= Seq::empty());
            assert(view_type_table(scope.type_table@) =~= Seq::empty());
        }
        self.push_block(scope);
        let body = self.resolve_exprs(&b.body);
        let ret = self.resolve_expr(&b.ret);
        let block = match self.pop_block() {
            Some(scope) => BlockExpr {
                identifier,
                body,
                ret,
                function_table: scope.function_table,
                module_table: scope.module_table,
                type_table: scope.type_table,
            },
            None => {
                let block = BlockExpr {
                    identifier,
                    body,
                    ret,
                    function_table: FunctionTable::new(),
                    module_table: ModuleTable::new(),
                    type_table: TypeTable::new(),
                };
                proof {
                    assert(view_function_table(block.function_table@) =~= Seq::empty());
                    assert(view_module_table(block.module_table@) =~= Seq::empty());
                    assert(view_type_table(block.type_table@) =~= Seq::empty());
                }
                block
            },
        };
        block
    }

    /// Resolve a block: it is opened as the innermost scope, its
    /// expressions are resolved in order, and it is closed.
    pub fn resolve_block_expr(&mut self, b: &ast::BlockExpr) -> (block: BlockExpr)
        ensures
            (final(self)@, block@) == model::resolve_block(old(self)@, *b, Seq::empty()),
        decreases b, 1nat,
    {
        let variables = Variables::new();
        assert(view_variables(variables@) =~= Seq::empty());
        self.resolve_block_with(b, variables)
    }

    fn operator_target(&mut self, operator: &ast::Operator, operand: Option<Type>) -> (target: Expr)
        ensures
            (final(self)@, target@) == model::operator_target(
                old(self)@,
                *operator,
                view_typed(operand),
            ),
    {
        proof {
            reveal_with_fuel(view_expr, 2);
            reveal_with_fuel(view_type, 2);
        }
        let identifier = self.fresh();
        match operand {
            Some(Type::Primitive(p)) => {
                let name = names::operator_function_name(operator.kind(), *p);
                match self.lookup(&name) {
                    Some(item) => Expr::Item(
                        Box::new(crate::air::ItemExpr { identifier, item }),
                    ),
                    None => {
                        self.report(
                            ResolverErrKind::UnresolvedSymbol,
                            name,
                            operator.span().clone(),
                        );
                        Resolver::void(identifier)
                    },
                }
            },
            _ => {
                self.report(
                    ResolverErrKind::TypeMismatch,
                    names::operator_name(operator.kind()).to_owned(),
                    operator.span().clone(),
                );
                Resolver::void(identifier)
            },
        }
    }

    /// Resolve a binary operator expression into a call.
    pub fn resolve_binary_expr(&mut self, bin_expr: &ast::BinaryOperatorExpr) -> (call: CallExpr)
        ensures
            (final(self)@, call@) == model::resolve_operator(
                old(self)@,
                ast::OperatorExpr::Binary(Box::new(*bin_expr)),
            ),
        decreases bin_expr, 0nat,
    {
        let identifier = self.fresh();
        let lhs = self.resolve_expr(&bin_expr.lhs);
        let rhs = self.resolve_expr(&bin_expr.rhs);
        let operand = typedef_of_expr(&lhs);
        let target = self.operator_target(&bin_expr.operator, operand);
        let mut arguments = Exprs::new();
        arguments.push(lhs);
        arguments.push(rhs);
        proof {
            assert(view_exprs(arguments@) =~= seq![lhs@, rhs@]);
        }
        CallExpr { identifier, target, arguments }
    }

    /// Resolve a prefix operator expression into a call.
    pub fn resolve_prefix_expr(&mut self, prefix_expr: &ast::PrefixOperatorExpr) -> (call: CallExpr)
        ensures
            (final(self)@, call@) == model::resolve_operator(
                old(self)@,
                ast::OperatorExpr::Prefix(Box::new(*prefix_expr)),
            ),
        decreases prefix_expr, 0nat,
    {
        let identifier = self.fresh();
        let rhs = self.resolve_expr(&prefix_expr.rhs);
        let operand = typedef_of_expr(&rhs);
        let target = self.operator_target(&prefix_expr.operator, operand);
        let mut arguments = Exprs::new();
        arguments.push(rhs);
        proof {
            assert(view_exprs(arguments@) =~= seq![rhs@]);
        }
        CallExpr { identifier, target, arguments }
    }

    /// Resolve a suffix operator expression into a call.
    pub fn resolve_suffix_expr(&mut self, suffix_expr: &ast::SuffixOperatorExpr) -> (call: CallExpr)
        ensures
            (final(self)@, call@) == model::resolve_operator(
                old(self)@,
                ast::OperatorExpr::Suffix(Box::new(*suffix_expr)),
            ),
        decreases suffix_expr, 0nat,
    {
        let identifier = self.fresh();
        let lhs = self.resolve_expr(&suffix_expr.lhs);
        let operand = typedef_of_expr(&lhs);
        let target = self.operator_target(&suffix_expr.operator, operand);
        let mut arguments = Exprs::new();
        arguments.push(lhs);
        proof {
            assert(view_exprs(arguments@) =~= seq![lhs@]);
        }
        CallExpr { identifier, target, arguments }
    }

    /// Resolve an expression made with an operator into a call.
    pub fn resolve_operator_expr(&mut self, op_expr: &ast::OperatorExpr) -> (call: CallExpr)
        ensures
            (final(self)@, call@) == model::resolve_operator(old(self)@, *op_expr),
        decreases op_expr, 1nat,
    {
        match op_expr {
            ast::OperatorExpr::Binary(bin_expr) => self.resolve_binary_expr(bin_expr),
            ast::OperatorExpr::Prefix(prefix_expr) => self.resolve_prefix_expr(prefix_expr),
            ast::OperatorExpr::Suffix(suffix_expr) => self.resolve_suffix_expr(suffix_expr),
        }
    }

    /// Resolve an expression.
    pub fn resolve_expr(&mut self, expr: &ast::Expr) -> (e: Expr)
        ensures
            (final(self)@, e@) == model::resolve_expr(old(self)@, *expr),
        decreases expr, 1nat,
    {
        match expr {
            ast::Expr::Assign(a) => self.resolve_assign_expr(a),
            ast::Expr::Block(b) => {
                proof {
                    reveal_with_fuel(view_expr, 2);
                }
                Expr::Block(Box::new(self.resolve_block_expr(b)))
            },
            ast::Expr::Call(c) => self.resolve_call_expr(c),
            ast::Expr::Channel(c) => self.resolve_channel_expr(c),
            ast::Expr::Deref(d) => self.resolve_deref_expr(d),
            ast::Expr::For(f) => self.resolve_for_expr(f),
            ast::Expr::If(i) => self.resolve_if_expr(i),
            ast::Expr::Item(i) => self.resolve_item_expr(i),
            ast::Expr::List(l) => self.resolve_list_expr(l),
            ast::Expr::ListRange(r) => self.resolve_list_range_expr(r),
            ast::Expr::Literal(l) => self.resolve_literal_expr(l),
            ast::Expr::Operator(o) => {
                proof {
                    reveal_with_fuel(view_expr, 2);
                }
                Expr::Call(Box::new(self.resolve_operator_expr(o)))
            },
            ast::Expr::Ref(r) => self.resolve_ref_expr(r),
            ast::Expr::Select(sel) => self.resolve_select_expr(sel),
            ast::Expr::Tuple(t) => self.resolve_tuple_expr(t),
            ast::Expr::Void(v) => self.resolve_void_expr(v),
        }
    }

    /// Resolve a definition: its right side is resolved first, then its
    /// variable is brought into the innermost open block.
    pub fn resolve_assign_expr(&mut self, a: &ast::AssignExpr) -> (e: Expr)
        ensures
            (final(self)@, e@) == model::resolve_expr(
                old(self)@,
                ast::Expr::Assign(Box::new(*a)),
            ),
        decreases a, 0nat,
    {
        proof {
            reveal_with_fuel(view_expr, 2);
        }
        let identifier = self.fresh();
        let definition = self.resolve_expr(&a.rhs);
        let ty = match &a.ty {
            Some(t) => self.resolve_type(t),
            None => match typedef_of_expr(&definition) {
                Some(t) => t,
                None => {
                    self.report(
                        ResolverErrKind::TypeMismatch,
                        a.symbol.identifier.name.clone(),
                        a.span.clone(),
                    );
                    Resolver::unresolved(&a.symbol)
                },
            },
        };
        let variable = Variable { symbol: a.symbol.clone(), ty };
        self.register_variable(clone_variable(&variable));
        Expr::Let(Box::new(crate::air::LetExpr { identifier, variable, definition }))
    }

    /// Resolve a call: its target, then its arguments. Where the target has
    /// no function type a type error is recorded.
    pub fn resolve_call_expr(&mut self, c: &ast::CallExpr) -> (e: Expr)
        ensures
            (final(self)@, e@) == model::resolve_expr(old(self)@, ast::Expr::Call(Box::new(*c))),
        decreases c, 0nat,
    {
        proof {
            reveal_with_fuel(view_expr, 2);
        }
        let identifier = self.fresh();
        let target = self.resolve_expr(&c.target);
        let arguments = self.resolve_exprs(&c.arguments);
        let callable = match typedef_of_expr(&target) {
            Some(Type::Lambda(_)) => true,
            _ => false,
        };
        if !callable {
            self.report(ResolverErrKind::TypeMismatch, "call".to_owned(), c.span.clone());
        }
        Expr::Call(Box::new(CallExpr { identifier, target, arguments }))
    }

    /// Resolve a channel literal.
    pub fn resolve_channel_expr(&mut self, c: &ast::ChannelExpr) -> (e: Expr)
        ensures
            (final(self)@, e@) == model::resolve_expr(
                old(self)@,
                ast::Expr::Channel(Box::new(*c)),
            ),
        decreases c, 0nat,
    {
        proof {
            reveal_with_fuel(crate::air::view_literal, 2);
        }
        let identifier = self.fresh();
        let lhs = self.resolve_expr(&c.lhs);
        let rhs = self.resolve_expr(&c.rhs);
        Resolver::literal(identifier, Literal::Channel(lhs, rhs))
    }

    /// Resolve a dereference.
    pub fn resolve_deref_expr(&mut self, d: &ast::DerefExpr) -> (e: Expr)
        ensures
            (final(self)@, e@) == model::resolve_expr(old(self)@, ast::Expr::Deref(Box::new(*d))),
        decreases d, 0nat,
    {
        proof {
            reveal_with_fuel(view_expr, 2);
        }
        let identifier = self.fresh();
        let inner = self.resolve_expr(&d.inner);
        Expr::Deref(Box::new(crate::air::DerefExpr { identifier, inner }))
    }

    fn loop_variables(formals: &Vec<Symbol>) -> (variables: Variables)
        ensures
            view_variables(variables@) == model::loop_variables(formals@),
    {
        let mut variables = Variables::new();
        let mut i: usize = 0;
        while i < formals.len()
            invariant
                i <= formals.len(),
                variables.len() == i,
                forall|j: int|
                    0 <= j < i ==> view_variable(#[trigger] variables[j]) == model::loop_variables(
                        formals@,
                    )[j],
            decreases formals.len() - i,
        {
            variables.push(
                Variable { symbol: formals[i].clone(), ty: Resolver::unresolved(&formals[i]) },
            );
            i += 1;
        }
        assert(view_variables(variables@) =~= model::loop_variables(formals@));
        variables
    }

    fn report_loop_variables(&mut self, formals: &Vec<Symbol>, span: &Span)
        ensures
            final(self)@ == model::report_loop_variables(
                old(self)@,
                formals@,
                formals@.len(),
                span@,
            ),
    {
        let mut i: usize = 0;
        while i < formals.len()
            invariant
                i <= formals.len(),
                self@ == model::report_loop_variables(old(self)@, formals@, i as nat, span@),
            decreases formals.len() - i,
        {
            self.report(
                ResolverErrKind::TypeMismatch,
                formals[i].identifier.name.clone(),
                span.clone(),
            );
            i += 1;
        }
    }

    /// Resolve a loop: its iterator, then its block, in whose scope the
    /// variables of the loop stand. The variables have no type, and for
    /// each a type error is recorded.
    pub fn resolve_for_expr(&mut self, f: &ast::ForExpr) -> (e: Expr)
        ensures
            (final(self)@, e@) == model::resolve_expr(old(self)@, ast::Expr::For(Box::new(*f))),
        decreases f, 0nat,
    {
        proof {
            reveal_with_fuel(view_expr, 2);
        }
        let identifier = self.fresh();
        let iterator = self.resolve_expr(&f.iterator);
        let formals = Resolver::loop_variables(&f.formals);
        let iteration = self.resolve_block_with(&f.iteration, crate::air::clone_variables(&formals));
        self.report_loop_variables(&f.formals, &f.span);
        Expr::For(
            Box::new(
                crate::air::ForExpr { identifier, formals, iterator, iteration: Box::new(iteration) },
            ),
        )
    }

    /// Resolve a conditional: its condition, then its branches.
    pub fn resolve_if_expr(&mut self, i: &ast::IfExpr) -> (e: Expr)
        ensures
            (final(self)@, e@) == model::resolve_expr(old(self)@, ast::Expr::If(Box::new(*i))),
        decreases i, 0nat,
    {
        proof {
            reveal_with_fuel(view_expr, 2);
        }
        let identifier = self.fresh();
        let condition = self.resolve_expr(&i.condition);
        let then_block = self.resolve_block_expr(&i.then_block);
        let else_block = self.resolve_block_expr(&i.else_block);
        Expr::If(
            Box::new(
                crate::air::IfExpr {
                    identifier,
                    condition,
                    then_block: Box::new(then_block),
                    else_block: Box::new(else_block),
                },
            ),
        )
    }

    /// Resolve a use of a name into a reference to what the name refers
    /// to.
    pub fn resolve_item_expr(&mut self, i: &ast::ItemExpr) -> (e: Expr)
        ensures
            (final(self)@, e@) == model::resolve_expr(old(self)@, ast::Expr::Item(Box::new(*i))),
    {
        proof {
            reveal_with_fuel(view_expr, 2);
            reveal_with_fuel(crate::air::view_item, 2);
        }
        let identifier = self.fresh();
        match self.lookup_path(&i.qualifier, &i.symbol.identifier.name) {
            Some(item) => Expr::Item(Box::new(crate::air::ItemExpr { identifier, item })),
            None => {
                self.report(
                    ResolverErrKind::UnresolvedSymbol,
                    i.symbol.identifier.name.clone(),
                    i.span.clone(),
                );
                let variable = Variable {
                    symbol: i.symbol.clone(),
                    ty: Resolver::unresolved(&i.symbol),
                };
                Expr::Item(
                    Box::new(
                        crate::air::ItemExpr {
                            identifier,
                            item: Item::Variable(Box::new(variable)),
                        },
                    ),
                )
            },
        }
    }

    /// Resolve a list literal.
    pub fn resolve_list_expr(&mut self, l: &ast::ListExpr) -> (e: Expr)
        ensures
            (final(self)@, e@) == model::resolve_expr(old(self)@, ast::Expr::List(Box::new(*l))),
        decreases l, 0nat,
    {
        proof {
            reveal_with_fuel(crate::air::view_literal, 2);
        }
        let identifier = self.fresh();
        let elements = self.resolve_exprs(&l.elements);
        Resolver::literal(identifier, Literal::List(elements))
    }

    /// Resolve a list literal that is given by its first and last element.
    pub fn resolve_list_range_expr(&mut self, r: &ast::ListRangeExpr) -> (e: Expr)
        ensures
            (final(self)@, e@) == model::resolve_expr(
                old(self)@,
                ast::Expr::ListRange(Box::new(*r)),
            ),
        decreases r, 0nat,
    {
        proof {
            reveal_with_fuel(crate::air::view_literal, 2);
        }
        let identifier = self.fresh();
        let first = self.resolve_expr(&r.first);
        let last = self.resolve_expr(&r.last);
        Resolver::literal(identifier, Literal::ListRange(first, last))
    }

    /// Resolve a literal.
    pub fn resolve_literal_expr(&mut self, l: &ast::LiteralExpr) -> (e: Expr)
        ensures
            (final(self)@, e@) == model::resolve_expr(
                old(self)@,
                ast::Expr::Literal(Box::new(*l)),
            ),
    {
        proof {
            reveal_with_fuel(crate::air::view_literal, 2);
        }
        let identifier = self.fresh();
        let literal = match l {
            ast::LiteralExpr::Bool(v, _) => Literal::Bool(*v),
            ast::LiteralExpr::Char(v, _) => Literal::Char(*v),
            ast::LiteralExpr::Float(v, _) => Literal::F64(v.clone()),
            ast::LiteralExpr::Int(v, _) => Literal::I64(*v),
            ast::LiteralExpr::Str(v, _) => Literal::Str(v.clone()),
        };
        Resolver::literal(identifier, literal)
    }

    /// Resolve a reference.
    pub fn resolve_ref_expr(&mut self, r: &ast::RefExpr) -> (e: Expr)
        ensures
            (final(self)@, e@) == model::resolve_expr(old(self)@, ast::Expr::Ref(Box::new(*r))),
        decreases r, 0nat,
    {
        proof {
            reveal_with_fuel(view_expr, 2);
        }
        let identifier = self.fresh();
        let inner = self.resolve_expr(&r.inner);
        Expr::Ref(Box::new(crate::air::RefExpr { identifier, inner }))
    }

    /// Resolve a selection. It has no resolved form: its alternatives are
    /// resolved, an error is recorded, and the result is the expression
    /// without a value.
    pub fn resolve_select_expr(&mut self, sel: &ast::SelectExpr) -> (e: Expr)
        ensures
            (final(self)@, e@) == model::resolve_expr(
                old(self)@,
                ast::Expr::Select(Box::new(*sel)),
            ),
        decreases sel, 0nat,
    {
        let identifier = self.fresh();
        let _ = self.resolve_exprs(&sel.alternatives);
        self.report(ResolverErrKind::TypeMismatch, "select".to_owned(), sel.span.clone());
        Resolver::void(identifier)
    }

    fn tuple_elements(&mut self, values: &Exprs, span: &Span) -> (elements: Variables)
        ensures
            (final(self)@, view_variables(elements@)) == model::tuple_elements(
                old(self)@,
                view_exprs(values@),
                values@.len(),
                span@,
            ),
    {
        let mut elements = Variables::new();
        let mut i: usize = 0;
        assert(view_variables(elements@) =~= Seq::empty());
        proof {
            crate::air::lemma_view_exprs_len(values@);
        }
        while i < values.len()
            invariant
                i <= values.len(),
                view_exprs(values@).len() == values.len(),
                (self@, view_variables(elements@)) == model::tuple_elements(
                    old(self)@,
                    view_exprs(values@),
                    i as nat,
                    span@,
                ),
            decreases values.len() - i,
        {
            let ghost before = elements@;
            let symbol = Symbol::from(self.fresh());
            let ty = match typedef_of_expr(&values[i]) {
                Some(t) => t,
                None => {
                    self.report(ResolverErrKind::TypeMismatch, "tuple".to_owned(), span.clone());
                    Resolver::unresolved(&symbol)
                },
            };
            let element = Variable { symbol, ty };
            elements.push(element);
            proof {
                crate::air::lemma_view_exprs_index(values@, i as int);
                crate::air::lemma_view_variables_push(before, element);
            }
            i += 1;
        }
        elements
    }

    fn tuple_fields(elements: &Variables, values: &Exprs) -> (fields: Vec<(Variable, Expr)>)
        requires
            elements.len() == values.len(),
        ensures
            crate::air::view_fields(fields@) == model::tuple_fields(
                view_variables(elements@),
                view_exprs(values@),
            ),
    {
        let mut fields: Vec<(Variable, Expr)> = Vec::new();
        let mut i: usize = 0;
        while i < elements.len()
            invariant
                i <= elements.len(),
                elements.len() == values.len(),
                fields.len() == i,
                forall|j: int|
                    0 <= j < i ==> view_variable((#[trigger] fields[j]).0) == view_variable(
                        elements[j],
                    ) && view_expr(fields[j].1) == view_expr(values[j]),
            decreases elements.len() - i,
        {
            fields.push((clone_variable(&elements[i]), crate::air::clone_expr(&values[i])));
            i += 1;
        }
        proof {
            assert forall|j: int| 0 <= j < elements.len() implies view_variables(elements@)[j]
                == view_variable(elements[j]) && view_exprs(values@)[j] == view_expr(
                values[j],
            ) by {
                crate::air::lemma_view_variables_index(elements@, j);
                crate::air::lemma_view_exprs_index(values@, j);
            }
            assert(crate::air::view_fields(fields@) =~= model::tuple_fields(
                view_variables(elements@),
                view_exprs(values@),
            ));
        }
        fields
    }

    /// Resolve a tuple into a structure value.
    pub fn resolve_tuple_expr(&mut self, t: &ast::TupleExpr) -> (e: Expr)
        ensures
            (final(self)@, e@) == model::resolve_expr(old(self)@, ast::Expr::Tuple(Box::new(*t))),
        decreases t, 0nat,
    {
        proof {
            reveal_with_fuel(view_expr, 2);
            reveal_with_fuel(view_type, 2);
        }
        let identifier = self.fresh();
        let values = self.resolve_exprs(&t.elements);
        let elements = self.tuple_elements(&values, &t.span);
        let symbol = Symbol::from(self.fresh());
        proof {
            crate::air::lemma_view_exprs_len(values@);
            crate::air::lemma_view_variables_len(elements@);
            laws::lemma_tuple_elements_typed(
                model::resolve_exprs(
                    model::anonymous(old(self)@).0,
                    t.elements@,
                    t.elements@.len(),
                ).0,
                view_exprs(values@),
                values@.len(),
                t.span@,
            );
        }
        let fields = Resolver::tuple_fields(&elements, &values);
        let params = Types::new();
        assert(view_types(params@) =~= Seq::empty());
        Expr::Struct(
            Box::new(
                crate::air::StructExpr {
                    identifier,
                    elements: fields,
                    ty: Type::Struct(
                        Box::new(crate::air::StructType { symbol, params, elements }),
                    ),
                },
            ),
        )
    }

    /// Resolve the expression without a value.
    pub fn resolve_void_expr(&mut self, v: &ast::VoidExpr) -> (e: Expr)
        ensures
            (final(self)@, e@) == model::resolve_expr(old(self)@, ast::Expr::Void(Box::new(*v))),
    {
        let identifier = self.fresh();
        Resolver::void(identifier)
    }
}

/// Putting an entry into a table puts its view into the view of the table.
proof fn lemma_put_function(
    before: Seq<(Identifier, Function)>,
    after: Seq<(Identifier, Function)>,
    key: Identifier,
    value: Function,
)
    requires
        after == (match crate::air::table::first_with_id(
            crate::air::table::entry_keys(before),
            key.id,
            0,
        ) {
            Some(i) => before.update(i, (key, value)),
            None => before.push((key, value)),
        }),
    ensures
        view_function_table(after) == crate::air::table::spec_put(
            view_function_table(before),
            key@,
            view_function(value),
        ),
{
    crate::air::lemma_view_function_table_keys(before);
    crate::air::table::lemma_first_with_id(crate::air::table::entry_keys(before), key.id, 0);
    match crate::air::table::first_with_id(crate::air::table::entry_keys(before), key.id, 0) {
        Some(i) => {
            crate::air::lemma_view_function_table_update(before, i, (key, value));
        },
        None => {
            crate::air::lemma_view_function_table_push(before, (key, value));
        },
    }
}

/// Putting an entry into a table puts its view into the view of the table.
proof fn lemma_put_module(
    before: Seq<(Identifier, Module)>,
    after: Seq<(Identifier, Module)>,
    key: Identifier,
    value: Module,
)
    requires
        after == (match crate::air::table::first_with_id(
            crate::air::table::entry_keys(before),
            key.id,
            0,
        ) {
            Some(i) => before.update(i, (key, value)),
            None => before.push((key, value)),
        }),
    ensures
        view_module_table(after) == crate::air::table::spec_put(
            view_module_table(before),
            key@,
            view_module(value),
        ),
{
    crate::air::lemma_view_module_table_keys(before);
    crate::air::table::lemma_first_with_id(crate::air::table::entry_keys(before), key.id, 0);
    match crate::air::table::first_with_id(crate::air::table::entry_keys(before), key.id, 0) {
        Some(i) => {
            crate::air::lemma_view_module_table_update(before, i, (key, value));
        },
        None => {
            crate::air::lemma_view_module_table_push(before, (key, value));
        },
    }
}

/// Putting an entry into a table puts its view into the view of the table.
proof fn lemma_put_type(
    before: Seq<(Identifier, Type)>,
    after: Seq<(Identifier, Type)>,
    key: Identifier,
    value: Type,
)
    requires
        after == (match crate::air::table::first_with_id(
            crate::air::table::entry_keys(before),
            key.id,
            0,
        ) {
            Some(i) => before.update(i, (key, value)),
            None => before.push((key, value)),
        }),
    ensures
        view_type_table(after) == crate::air::table::spec_put(
            view_type_table(before),
            key@,
            view_type(value),
        ),
{
    crate::air::lemma_view_type_table_keys(before);
    crate::air::table::lemma_first_with_id(crate::air::table::entry_keys(before), key.id, 0);
    match crate::air::table::first_with_id(crate::air::table::entry_keys(before), key.id, 0) {
        Some(i) => {
            crate::air::lemma_view_type_table_update(before, i, (key, value));
        },
        None => {
            crate::air::lemma_view_type_table_push(before, (key, value));
        },
    }
}

impl Resolver {
    fn store_function(&mut self, f: &Function)
        ensures
            final(self)@ == model::store_function(old(self)@, f@),
    {
        proof {
            reveal_with_fuel(view_module, 2);
        }
        let ghost before = self.context.function_table@;
        let key = f.symbol.identifier.clone();
        let value = clone_function(f);
        put(&mut self.context.function_table, key, value);
        proof {
            lemma_put_function(before, self.context.function_table@, key, value);
        }
        match self.modules.pop() {
            Some(mut top) => {
                let ghost before = top.function_table@;
                let key = f.symbol.identifier.clone();
                let value = clone_function(f);
                put(&mut top.function_table, key, value);
                proof {
                    lemma_put_function(before, top.function_table@, key, value);
                }
                self.modules.push(top);
                assert(self@.modules =~= model::store_function(old(self)@, f@).modules);
            },
            None => {},
        }
    }

    fn function_clash(&self, key: &Identifier) -> (b: bool)
        ensures
            b == crate::air::table::spec_clashes(model::function_scope(self@), key@),
    {
        proof {
            reveal_with_fuel(view_module, 2);
        }
        if self.modules.len() > 0 {
            let top = &self.modules[self.modules.len() - 1];
            proof {
                crate::air::lemma_view_function_table_keys(top.function_table@);
            }
            clashes(&top.function_table, key)
        } else {
            proof {
                crate::air::lemma_view_function_table_keys(self.context.function_table@);
            }
            clashes(&self.context.function_table, key)
        }
    }

    fn store_module(&mut self, m: &Module)
        ensures
            final(self)@ == model::store_module(old(self)@, m@),
    {
        proof {
            reveal_with_fuel(view_module, 2);
        }
        let ghost before = self.context.module_table@;
        let key = m.symbol.identifier.clone();
        let value = clone_module(m);
        put(&mut self.context.module_table, key, value);
        proof {
            lemma_put_module(before, self.context.module_table@, key, value);
        }
        match self.modules.pop() {
            Some(mut top) => {
                let ghost before = top.module_table@;
                let key = m.symbol.identifier.clone();
                let value = clone_module(m);
                put(&mut top.module_table, key, value);
                proof {
                    lemma_put_module(before, top.module_table@, key, value);
                }
                self.modules.push(top);
                assert(self@.modules =~= model::store_module(old(self)@, m@).modules);
            },
            None => {},
        }
    }

    fn module_clash(&self, key: &Identifier) -> (b: bool)
        ensures
            b == crate::air::table::spec_clashes(model::module_scope(self@), key@),
    {
        proof {
            reveal_with_fuel(view_module, 2);
        }
        if self.modules.len() > 0 {
            let top = &self.modules[self.modules.len() - 1];
            proof {
                crate::air::lemma_view_module_table_keys(top.module_table@);
            }
            clashes(&top.module_table, key)
        } else {
            proof {
                crate::air::lemma_view_module_table_keys(self.context.module_table@);
            }
            clashes(&self.context.module_table, key)
        }
    }

    fn store_type(&mut self, symbol: &Identifier, t: &Type)
        ensures
            final(self)@ == model::store_type(old(self)@, symbol@, t@),
    {
        proof {
            reveal_with_fuel(view_module, 2);
        }
        let ghost before = self.context.type_table@;
        let key = symbol.clone();
        let value = clone_type(t);
        put(&mut self.context.type_table, key, value);
        proof {
            lemma_put_type(before, self.context.type_table@, key, value);
        }
        match self.modules.pop() {
            Some(mut top) => {
                let ghost before = top.type_table@;
                let key = symbol.clone();
                let value = clone_type(t);
                put(&mut top.type_table, key, value);
                proof {
                    lemma_put_type(before, top.type_table@, key, value);
                }
                self.modules.push(top);
                assert(self@.modules =~= model::store_type(old(self)@, symbol@, t@).modules);
            },
            None => {},
        }
    }

    fn type_clash(&self, key: &Identifier) -> (b: bool)
        ensures
            b == crate::air::table::spec_clashes(model::type_scope(self@), key@),
    {
        proof {
            reveal_with_fuel(view_module, 2);
        }
        if self.modules.len() > 0 {
            let top = &self.modules[self.modules.len() - 1];
            proof {
                crate::air::lemma_view_type_table_keys(top.type_table@);
            }
            clashes(&top.type_table, key)
        } else {
            proof {
                crate::air::lemma_view_type_table_keys(self.context.type_table@);
            }
            clashes(&self.context.type_table, key)
        }
    }

    /// Open a module without a name as the outermost scope.
    pub fn open_root(&mut self)
        ensures
            final(self)@ == model::open_root(old(self)@),
    {
        let symbol = Symbol::from(self.fresh());
        self.push_module(lookup::module_profile(&symbol));
    }

    /// Declare the functions that the language brings along. Errors are
    /// recorded at the given place.
    pub fn declare_prelude(&mut self, span: &Span)
        ensures
            final(self)@ == model::declare_prelude(old(self)@, span@),
    {
        let prelude = crate::air::prelude::Prelude::new(&mut self.allocator);
        self.declare_functions(prelude.functions(), span);
    }

    /// Declare a function that is already resolved, such as a function that
    /// the language brings along. The result says whether it was declared:
    /// it is not where its display name is already declared in the scope.
    pub fn declare_function(&mut self, f: &Function, span: &Span) -> (declared: bool)
        ensures
            (final(self)@, declared) == model::declare_function(old(self)@, f@, span@),
    {
        if self.function_clash(&f.symbol.identifier) {
            self.report(
                ResolverErrKind::Redeclaration,
                f.symbol.identifier.name.clone(),
                span.clone(),
            );
            false
        } else {
            self.store_function(f);
            true
        }
    }

    /// Declare a row of functions that are already resolved, in order.
    pub fn declare_functions(&mut self, fs: &Vec<Function>, span: &Span)
        ensures
            final(self)@ == model::declare_functions(
                old(self)@,
                crate::air::view_functions_list(fs@),
                fs@.len(),
                span@,
            ),
    {
        let mut i: usize = 0;
        proof {
            crate::air::lemma_view_functions_list_len(fs@);
        }
        while i < fs.len()
            invariant
                i <= fs.len(),
                crate::air::view_functions_list(fs@).len() == fs.len(),
                self@ == model::declare_functions(
                    old(self)@,
                    crate::air::view_functions_list(fs@),
                    i as nat,
                    span@,
                ),
            decreases fs.len() - i,
        {
            proof {
                crate::air::lemma_view_functions_list_index(fs@, i as int);
            }
            let _ = self.declare_function(&fs[i], span);
            i += 1;
        }
    }

    /// Resolve the profile of a function, or reuse the profile that the
    /// context holds for it.
    pub fn resolve_function_profile(&mut self, d: &ast::FunctionDecl) -> (profile: Option<Function>)
        ensures
            (final(self)@, view_declared_function(profile)) == model::resolve_function_profile(
                old(self)@,
                *d,
            ),
    {
        proof {
            reveal_with_fuel(view_function, 2);
            crate::air::lemma_view_function_table_keys(self.context.function_table@);
        }
        match find_id(&self.context.function_table, d.symbol.identifier.id) {
            Some(i) => {
                proof {
                    crate::air::lemma_view_function_table_index(
                        self.context.function_table@,
                        i as int,
                    );
                }
                Some(lookup::profile(&self.context.function_table[i].1))
            },
            None => {
                let formals = self.resolve_variables(&d.formals);
                let ret = self.resolve_type(&d.ret);
                let f = Function { symbol: d.symbol.clone(), formals, ret, body: None };
                if self.function_clash(&f.symbol.identifier) {
                    self.report(
                        ResolverErrKind::Redeclaration,
                        f.symbol.identifier.name.clone(),
                        d.span.clone(),
                    );
                    None
                } else {
                    self.store_function(&f);
                    Some(f)
                }
            },
        }
    }

    /// Resolve the body of a function into a block.
    pub fn resolve_body(&mut self, e: &ast::Expr) -> (block: BlockExpr)
        ensures
            (final(self)@, block@) == model::resolve_body(old(self)@, *e),
    {
        match e {
            ast::Expr::Block(b) => self.resolve_block_expr(b),
            _ => {
                let identifier = self.fresh();
                let scope = BlockScope {
                    identifier: identifier.clone(),
                    variables: Variables::new(),
                    function_table: FunctionTable::new(),
                    module_table: ModuleTable::new(),
                    type_table: TypeTable::new(),
                };
                proof {
                    assert(view_variables(scope.variables@) =~= Seq::empty());
                    assert(view_function_table(scope.function_table@) =~= Seq::empty());
                    assert(view_module_table(scope.module_table@) =~= Seq::empty());
                    assert(view_type_table(scope.type_table@) =~= Seq::empty());
                }
                self.push_block(scope);
                let ret = self.resolve_expr(e);
                let body = Exprs::new();
                assert(view_exprs(body@) =~= Seq::empty());
                match self.pop_block() {
                    Some(scope) => BlockExpr {
                        identifier,
                        body,
                        ret,
                        function_table: scope.function_table,
                        module_table: scope.module_table,
                        type_table: scope.type_table,
                    },
                    None => {
                        let block = BlockExpr {
                            identifier,
                            body,
                            ret,
                            function_table: FunctionTable::new(),
                            module_table: ModuleTable::new(),
                            type_table: TypeTable::new(),
                        };
                        proof {
                            assert(view_function_table(block.function_table@) =~= Seq::empty());
                            assert(view_module_table(block.module_table@) =~= Seq::empty());
                            assert(view_type_table(block.type_table@) =~= Seq::empty());
                        }
                        block
                    },
                }
            },
        }
    }

    /// Resolve a function: its profile, then its body with the profile as
    /// the innermost open function; the complete function is written over
    /// its profile.
    pub fn resolve_function(&mut self, d: &ast::FunctionDecl) -> (function: Option<Function>)
        ensures
            (final(self)@, view_declared_function(function)) == model::resolve_function(
                old(self)@,
                *d,
            ),
    {
        proof {
            reveal_with_fuel(view_function, 2);
        }
        match self.resolve_function_profile(d) {
            None => None,
            Some(profile) => {
                self.push_function(clone_function(&profile));
                let body = if d.is_extern {
                    None
                } else {
                    match &d.body {
                        Some(e) => Some(self.resolve_body(e)),
                        None => None,
                    }
                };
                self.pop_function();
                let f = Function {
                    symbol: profile.symbol,
                    formals: profile.formals,
                    ret: profile.ret,
                    body,
                };
                self.store_function(&f);
                if !d.is_extern && d.body.is_none() {
                    self.report(
                        ResolverErrKind::MissingBody,
                        d.symbol.identifier.name.clone(),
                        d.span.clone(),
                    );
                }
                Some(f)
            },
        }
    }

    fn generics_of(params: &Vec<Symbol>) -> (generics: Types)
        ensures
            view_types(generics@) == model::generics_of(params@),
    {
        proof {
            reveal_with_fuel(view_type, 2);
        }
        let mut generics = Types::new();
        let mut i: usize = 0;
        while i < params.len()
            invariant
                i <= params.len(),
                generics.len() == i,
                forall|j: int|
                    0 <= j < i ==> view_type(#[trigger] generics[j]) == model::generics_of(
                        params@,
                    )[j],
            decreases params.len() - i,
        {
            let none = Types::new();
            assert(view_types(none@) =~= Seq::empty());
            generics.push(
                Type::Generic(
                    Box::new(
                        crate::air::GenericType {
                            identifier: params[i].identifier.clone(),
                            params: none,
                        },
                    ),
                ),
            );
            i += 1;
        }
        assert(view_types(generics@) =~= model::generics_of(params@));
        generics
    }

    fn generics_table(params: &Vec<Symbol>) -> (table: TypeTable)
        ensures
            view_type_table(table@) == model::generics_table(params@),
    {
        proof {
            reveal_with_fuel(view_type, 2);
        }
        let mut table = TypeTable::new();
        let mut i: usize = 0;
        while i < params.len()
            invariant
                i <= params.len(),
                table.len() == i,
                forall|j: int|
                    0 <= j < i ==> (#[trigger] table[j]).0@ == params[j]@ && view_type(table[j].1)
                        == model::generics_of(params@)[j],
            decreases params.len() - i,
        {
            let none = Types::new();
            assert(view_types(none@) =~= Seq::empty());
            table.push(
                (
                    params[i].identifier.clone(),
                    Type::Generic(
                        Box::new(
                            crate::air::GenericType {
                                identifier: params[i].identifier.clone(),
                                params: none,
                            },
                        ),
                    ),
                ),
            );
            i += 1;
        }
        assert(view_type_table(table@) =~= model::generics_table(params@));
        table
    }

    fn resolve_type_kind(&mut self, d: &ast::TypeDecl) -> (ty: Type)
        ensures
            (final(self)@, ty@) == model::resolve_type_kind(old(self)@, *d),
    {
        proof {
            reveal_with_fuel(view_type, 3);
        }
        match &d.kind {
            ast::TypeDeclKind::Alias(t) => {
                let inner = self.resolve_type(t);
                Type::Alias(Box::new(crate::air::AliasType { inner }))
            },
            ast::TypeDeclKind::Enum(variants) => {
                let elements = self.resolve_variables(variants);
                Type::Enum(
                    Box::new(
                        crate::air::EnumType {
                            symbol: d.symbol.clone(),
                            params: Resolver::generics_of(&d.params),
                            variants: Box::new(
                                crate::air::StructType {
                                    symbol: d.symbol.clone(),
                                    params: Resolver::generics_of(&d.params),
                                    elements,
                                },
                            ),
                        },
                    ),
                )
            },
            ast::TypeDeclKind::Struct(fields) => {
                let elements = self.resolve_variables(fields);
                Type::Struct(
                    Box::new(
                        crate::air::StructType {
                            symbol: d.symbol.clone(),
                            params: Resolver::generics_of(&d.params),
                            elements,
                        },
                    ),
                )
            },
        }
    }

    /// Resolve the declaration of a type, with its parameters in scope.
    pub fn resolve_type_decl(&mut self, d: &ast::TypeDecl) -> (ty: Option<Type>)
        ensures
            (final(self)@, view_typed(ty)) == model::resolve_type_decl(old(self)@, *d),
    {
        let identifier = self.fresh();
        let scope = BlockScope {
            identifier,
            variables: Variables::new(),
            function_table: FunctionTable::new(),
            module_table: ModuleTable::new(),
            type_table: Resolver::generics_table(&d.params),
        };
        proof {
            assert(view_variables(scope.variables@) =~= Seq::empty());
            assert(view_function_table(scope.function_table@) =~= Seq::empty());
            assert(view_module_table(scope.module_table@) =~= Seq::empty());
        }
        self.push_block(scope);
        let ty = self.resolve_type_kind(d);
        let _ = self.pop_block();
        if self.type_clash(&d.symbol.identifier) {
            self.report(
                ResolverErrKind::Redeclaration,
                d.symbol.identifier.name.clone(),
                d.span.clone(),
            );
            None
        } else {
            self.store_type(&d.symbol.identifier, &ty);
            Some(ty)
        }
    }

    /// Resolve a module: it is registered empty and opened; its
    /// submodules, its types, the profiles of its functions and the bodies
    /// of its functions are resolved, in this order; it is closed, and the
    /// finished module is written over the empty one.
    pub fn resolve_module(&mut self, d: &ast::ModuleDecl) -> (module: Option<Module>)
        ensures
            (final(self)@, view_declared_module(module)) == model::resolve_module(old(self)@, *d),
        decreases d, 0nat,
    {
        let symbol = Symbol::from(d.identifier.clone());
        let empty = lookup::module_profile(&symbol);
        if self.module_clash(&d.identifier) {
            self.report(
                ResolverErrKind::Redeclaration,
                d.identifier.name.clone(),
                d.span.clone(),
            );
            return None;
        }
        self.store_module(&empty);
        self.push_module(empty);
        self.resolve_statements(&d.statements, model::Phase::Modules);
        self.resolve_statements(&d.statements, model::Phase::Types);
        self.resolve_statements(&d.statements, model::Phase::Profiles);
        self.resolve_statements(&d.statements, model::Phase::Bodies);
        let m = match self.pop_module() {
            Some(m) => m,
            None => lookup::module_profile(&symbol),
        };
        self.store_module(&m);
        Some(m)
    }

    /// Whether the profile of the function is declared.
    pub fn has_profile(&self, d: &ast::FunctionDecl) -> (b: bool)
        ensures
            b == model::has_profile(self@, *d),
    {
        proof {
            crate::air::lemma_view_function_table_keys(self.context.function_table@);
        }
        find_id(&self.context.function_table, d.symbol.identifier.id).is_some()
    }

    /// One pass over the declarations of a module.
    pub fn resolve_statements(&mut self, statements: &Vec<ast::Statement>, phase: model::Phase)
        ensures
            final(self)@ == model::resolve_statements(
                old(self)@,
                statements@,
                statements@.len(),
                phase,
            ),
        decreases statements, statements.len(),
    {
        let mut i: usize = 0;
        while i < statements.len()
            invariant
                i <= statements.len(),
                self@ == model::resolve_statements(old(self)@, statements@, i as nat, phase),
            decreases statements.len() - i,
        {
            match &statements[i] {
                ast::Statement::Module(m) => {
                    if phase == model::Phase::Modules {
                        let _ = self.resolve_module(m);
                    }
                },
                ast::Statement::Type(t) => {
                    if phase == model::Phase::Types {
                        let _ = self.resolve_type_decl(t);
                    }
                },
                ast::Statement::Function(f) => {
                    if phase == model::Phase::Profiles {
                        let _ = self.resolve_function_profile(f);
                    } else if phase == model::Phase::Bodies {
                        if self.has_profile(f) {
                            let _ = self.resolve_function(f);
                        }
                    }
                },
            }
            i += 1;
        }
    }

    /// Resolve what the parser handed on.
    pub fn resolve(&mut self, node: &ast::Ast) -> (air: Air)
        ensures
            (final(self)@, view_air(air)) == model::resolve(old(self)@, *node),
    {
        match node {
            ast::Ast::Expr(expr) => Air::Expr(self.resolve_expr(expr)),
            ast::Ast::Module(d) => match self.resolve_module(d) {
                Some(m) => Air::Module(m),
                None => Air::Nil,
            },
            ast::Ast::Nil => Air::Nil,
        }
    }
}

/// What a declared function, or the lack of one, stands for.
pub open spec fn view_declared_function(f: Option<Function>) -> Option<crate::air::FunctionView> {
    match f {
        Some(f) => Some(f@),
        None => None,
    }
}

/// What a declared module, or the lack of one, stands for.
pub open spec fn view_declared_module(m: Option<Module>) -> Option<crate::air::ModuleView> {
    match m {
        Some(m) => Some(m@),
        None => None,
    }
}

/// What the resolver hands on stands for.
pub open spec fn view_air(air: Air) -> model::AirView {
    match air {
        Air::Expr(e) => model::AirView::Expr(e@),
        Air::Module(m) => model::AirView::Module(m@),
        Air::Nil => model::AirView::Nil,
    }
}

/// Where a part of a qualifier refers to nothing, the whole refers to
/// nothing.
proof fn lemma_qualifier_fails(s: ResolverView, qualifier: Seq<Symbol>, i: nat, n: nat)
    requires
        1 <= i <= n <= qualifier.len(),
        model::lookup_qualifier(s, qualifier, i) is None,
    ensures
        model::lookup_qualifier(s, qualifier, n) is None,
    decreases n - i,
{
    if i < n {
        lemma_qualifier_fails(s, qualifier, i, (n - 1) as nat);
    }
}

} // verus!
