//! # NoIR
//!
//! The normalised intermediate representation (NoIR) is the normalised form
//! of the AIR. It is produced by normalising an AIR that has been through
//! all necessary compilation passes. Optimisation passes, and code
//! generation passes, are done using NoIR.
//!
//! Every type of the representation has a view: what a value stands for,
//! with sequences in place of vectors.

pub mod context;
pub mod function;
pub mod visitor;

use vstd::prelude::*;
use crate::air::table;
use crate::identifier::{IdAllocator, Identifier, IdentifierView, Identify, Symbol, Symbolise};

pub use crate::bair::PrimitiveType;
pub use context::{Context, ContextView};

verus! {

/// A row of expressions.
pub type Exprs = Vec<Expr>;

/// A row of types.
pub type Types = Vec<Type>;

/// A row of variables.
pub type Variables = Vec<Variable>;

/// A row of functions.
pub type Functions = Vec<Function>;

/// A row of modules.
pub type Modules = Vec<Module>;

/// A row of blocks.
pub type BlockExprs = Vec<BlockExpr>;

/// The functions declared in a scope, each under its identifier, in the
/// order in which they were declared.
pub type FunctionTable = Vec<(Identifier, Function)>;

/// The modules declared in a scope, each under its identifier.
pub type ModuleTable = Vec<(Identifier, Module)>;

/// The types declared in a scope, each under its identifier.
pub type TypeTable = Vec<(Identifier, Type)>;

/// Another name for a type.
#[derive(Debug)]
pub struct AliasType {
    pub symbol: Symbol,
    pub inner: Type,
}

/// What an `AliasType` stands for.
pub ghost struct AliasTypeView {
    pub symbol: IdentifierView,
    pub inner: TypeView,
}

/// An assignment of a value to a place.
#[derive(Debug)]
pub struct AssignExpr {
    pub lhs: RefExpr,
    pub rhs: Expr,
}

/// What an `AssignExpr` stands for.
pub ghost struct AssignExprView {
    pub lhs: RefExprView,
    pub rhs: ExprView,
}

/// A block: what runs before its expressions, its expressions, the
/// expression whose value is the block's, what runs after them, and the
/// declarations made directly inside the block.
#[derive(Debug)]
pub struct BlockExpr {
    pub identifier: Identifier,
    pub prelude: Exprs,
    pub body: Exprs,
    pub ret: Expr,
    pub epilogue: Exprs,
    pub function_table: FunctionTable,
    pub module_table: ModuleTable,
    pub type_table: TypeTable,
}

/// What a `BlockExpr` stands for.
pub ghost struct BlockExprView {
    pub identifier: IdentifierView,
    pub prelude: Seq<ExprView>,
    pub body: Seq<ExprView>,
    pub ret: ExprView,
    pub epilogue: Seq<ExprView>,
    pub function_table: Seq<(IdentifierView, FunctionView)>,
    pub module_table: Seq<(IdentifierView, ModuleView)>,
    pub type_table: Seq<(IdentifierView, TypeView)>,
}

/// A call of a target with arguments.
#[derive(Debug)]
pub struct CallExpr {
    pub identifier: Identifier,
    pub target: Expr,
    pub arguments: Exprs,
}

/// What a `CallExpr` stands for.
pub ghost struct CallExprView {
    pub identifier: IdentifierView,
    pub target: ExprView,
    pub arguments: Seq<ExprView>,
}

/// A dereference.
#[derive(Debug)]
pub struct DerefExpr {
    pub identifier: Identifier,
    pub inner: Expr,
}

/// What a `DerefExpr` stands for.
pub ghost struct DerefExprView {
    pub identifier: IdentifierView,
    pub inner: ExprView,
}

/// An enumeration: its name, its type parameters and its variants.
#[derive(Debug)]
pub struct EnumType {
    pub symbol: Symbol,
    pub params: Types,
    pub variants: Box<StructType>,
}

/// What an `EnumType` stands for.
pub ghost struct EnumTypeView {
    pub symbol: IdentifierView,
    pub params: Seq<TypeView>,
    pub variants: Box<StructTypeView>,
}

/// A loop: the variables bound in each iteration, the iterator, and the block
/// that is iterated.
#[derive(Debug)]
pub struct ForExpr {
    pub identifier: Identifier,
    pub formals: Variables,
    pub iterator: Expr,
    pub iteration: Box<BlockExpr>,
}

/// What a `ForExpr` stands for.
pub ghost struct ForExprView {
    pub identifier: IdentifierView,
    pub formals: Seq<VariableView>,
    pub iterator: ExprView,
    pub iteration: Box<BlockExprView>,
}

/// A function. One without a body is extern. The mangled name is the name
/// under which generated code knows the function.
#[derive(Debug)]
pub struct Function {
    pub symbol: Symbol,
    pub formals: Variables,
    pub ret: Type,
    pub body: Option<BlockExpr>,
    pub mangled_name: String,
}

/// What a `Function` stands for.
pub ghost struct FunctionView {
    pub symbol: IdentifierView,
    pub formals: Seq<VariableView>,
    pub ret: TypeView,
    pub body: Option<BlockExprView>,
    pub mangled_name: Seq<char>,
}

/// A conditional with both branches.
#[derive(Debug)]
pub struct IfExpr {
    pub identifier: Identifier,
    pub condition: Expr,
    pub then_block: Box<BlockExpr>,
    pub else_block: Box<BlockExpr>,
}

/// What an `IfExpr` stands for.
pub ghost struct IfExprView {
    pub identifier: IdentifierView,
    pub condition: ExprView,
    pub then_block: Box<BlockExprView>,
    pub else_block: Box<BlockExprView>,
}

/// A reference to a declared item.
#[derive(Debug)]
pub struct ItemExpr {
    pub identifier: Identifier,
    pub item: Item,
}

/// What an `ItemExpr` stands for.
pub ghost struct ItemExprView {
    pub identifier: IdentifierView,
    pub item: ItemView,
}

/// The type of a function: the types of its formals and of its result.
#[derive(Debug)]
pub struct LambdaType {
    pub formals: Types,
    pub ret: Type,
}

/// What a `LambdaType` stands for.
pub ghost struct LambdaTypeView {
    pub formals: Seq<TypeView>,
    pub ret: TypeView,
}

/// The definition of a new variable, by an assignment to it.
#[derive(Debug)]
pub struct LetExpr {
    pub identifier: Identifier,
    pub variable: Variable,
    pub definition: AssignExpr,
}

/// What a `LetExpr` stands for.
pub ghost struct LetExprView {
    pub identifier: IdentifierView,
    pub variable: VariableView,
    pub definition: AssignExprView,
}

/// A literal value.
#[derive(Debug)]
pub struct LiteralExpr {
    pub identifier: Identifier,
    pub literal: Literal,
}

/// What a `LiteralExpr` stands for.
pub ghost struct LiteralExprView {
    pub identifier: IdentifierView,
    pub literal: LiteralView,
}

/// A module with the declarations made directly inside it.
#[derive(Debug)]
pub struct Module {
    pub symbol: Symbol,
    pub function_table: FunctionTable,
    pub module_table: ModuleTable,
    pub type_table: TypeTable,
}

/// What a `Module` stands for.
pub ghost struct ModuleView {
    pub symbol: IdentifierView,
    pub function_table: Seq<(IdentifierView, FunctionView)>,
    pub module_table: Seq<(IdentifierView, ModuleView)>,
    pub type_table: Seq<(IdentifierView, TypeView)>,
}

/// A block that runs as a process of its own.
#[derive(Debug)]
pub struct ProcessExpr {
    pub identifier: Identifier,
    pub body: Box<BlockExpr>,
}

/// What a `ProcessExpr` stands for.
pub ghost struct ProcessExprView {
    pub identifier: IdentifierView,
    pub body: Box<BlockExprView>,
}

/// The wait for a process to end.
#[derive(Debug)]
pub struct ProcessJoinExpr {
    pub identifier: Identifier,
    pub process_expr: Box<ProcessExpr>,
}

/// What a `ProcessJoinExpr` stands for.
pub ghost struct ProcessJoinExprView {
    pub identifier: IdentifierView,
    pub process_expr: Box<ProcessExprView>,
}

/// The type of a pointer.
#[derive(Debug)]
pub struct PtrType {
    pub inner: Type,
}

/// What a `PtrType` stands for.
pub ghost struct PtrTypeView {
    pub inner: TypeView,
}

/// The type of a reference.
#[derive(Debug)]
pub struct RefType {
    pub inner: Type,
}

/// What a `RefType` stands for.
pub ghost struct RefTypeView {
    pub inner: TypeView,
}

/// A reference to the value of an expression.
#[derive(Debug)]
pub struct RefExpr {
    pub identifier: Identifier,
    pub inner: Expr,
}

/// What a `RefExpr` stands for.
pub ghost struct RefExprView {
    pub identifier: IdentifierView,
    pub inner: ExprView,
}

/// A structure value: its elements with their values, and its type.
#[derive(Debug)]
pub struct StructExpr {
    pub elements: Vec<(Variable, Expr)>,
    pub ty: Type,
}

/// What a `StructExpr` stands for.
pub ghost struct StructExprView {
    pub elements: Seq<(VariableView, ExprView)>,
    pub ty: TypeView,
}

/// A structure: its name, its type parameters and its elements.
#[derive(Debug)]
pub struct StructType {
    pub symbol: Symbol,
    pub params: Types,
    pub elements: Variables,
}

/// What a `StructType` stands for.
pub ghost struct StructTypeView {
    pub symbol: IdentifierView,
    pub params: Seq<TypeView>,
    pub elements: Seq<VariableView>,
}

/// A formal parameter or a let-binding.
#[derive(Debug)]
pub struct Variable {
    pub symbol: Symbol,
    pub ty: Type,
}

/// What a `Variable` stands for.
pub ghost struct VariableView {
    pub symbol: IdentifierView,
    pub ty: TypeView,
}

/// A use of a variable, with the expressions that lead to it.
#[derive(Debug)]
pub struct VariableExpr {
    pub variable: Variable,
    pub parent: Exprs,
}

/// What a `VariableExpr` stands for.
pub ghost struct VariableExprView {
    pub variable: VariableView,
    pub parent: Seq<ExprView>,
}

/// The expression without a value.
#[derive(Debug)]
pub struct VoidExpr {
    pub identifier: Identifier,
}

/// What a `VoidExpr` stands for.
pub ghost struct VoidExprView {
    pub identifier: IdentifierView,
}

/// A resolved type.
#[derive(Debug)]
pub enum Type {
    Alias(Box<AliasType>),
    Enum(Box<EnumType>),
    Lambda(Box<LambdaType>),
    Primitive(Box<PrimitiveType>),
    Ptr(Box<PtrType>),
    Ref(Box<RefType>),
    Struct(Box<StructType>),
}

/// What a `Type` stands for.
pub ghost enum TypeView {
    Alias(Box<AliasTypeView>),
    Enum(Box<EnumTypeView>),
    Lambda(Box<LambdaTypeView>),
    Primitive(PrimitiveType),
    Ptr(Box<PtrTypeView>),
    Ref(Box<RefTypeView>),
    Struct(Box<StructTypeView>),
}

/// A resolved expression.
#[derive(Debug)]
pub enum Expr {
    Assign(Box<AssignExpr>),
    Block(Box<BlockExpr>),
    Call(Box<CallExpr>),
    Deref(Box<DerefExpr>),
    For(Box<ForExpr>),
    If(Box<IfExpr>),
    Item(Box<ItemExpr>),
    Let(Box<LetExpr>),
    Literal(Box<LiteralExpr>),
    Process(Box<ProcessExpr>),
    ProcessJoin(Box<ProcessJoinExpr>),
    Struct(Box<StructExpr>),
    Ref(Box<RefExpr>),
    Variable(Box<VariableExpr>),
    Void(Box<VoidExpr>),
}

/// What an `Expr` stands for.
pub ghost enum ExprView {
    Assign(Box<AssignExprView>),
    Block(Box<BlockExprView>),
    Call(Box<CallExprView>),
    Deref(Box<DerefExprView>),
    For(Box<ForExprView>),
    If(Box<IfExprView>),
    Item(Box<ItemExprView>),
    Let(Box<LetExprView>),
    Literal(Box<LiteralExprView>),
    Process(Box<ProcessExprView>),
    ProcessJoin(Box<ProcessJoinExprView>),
    Struct(Box<StructExprView>),
    Ref(Box<RefExprView>),
    Variable(Box<VariableExprView>),
    Void(Box<VoidExprView>),
}

/// A declared item that a name refers to. A function is referred to by its
/// profile, a module by its symbol alone.
#[derive(Debug)]
pub enum Item {
    Function(Box<Function>),
    Module(Box<Module>),
    Type(Box<Type>),
    Variable(Box<Variable>),
}

/// What an `Item` stands for.
pub ghost enum ItemView {
    Function(Box<FunctionView>),
    Module(Box<ModuleView>),
    Type(Box<TypeView>),
    Variable(Box<VariableView>),
}

/// The value of a literal. A floating point value is kept as its digits.
#[derive(Debug)]
pub enum Literal {
    Bool(bool),
    Char(char),
    F32(String),
    F64(String),
    I8(i8),
    I16(i16),
    I32(i32),
    I64(i64),
    Str(String),
    U8(u8),
    U16(u16),
    U32(u32),
    U64(u64),
    USize(usize),
}

/// What a `Literal` stands for. A character is given by its code.
pub ghost enum LiteralView {
    Bool(bool),
    Char(u32),
    F32(Seq<char>),
    F64(Seq<char>),
    I8(i8),
    I16(i16),
    I32(i32),
    I64(i64),
    Str(Seq<char>),
    U8(u8),
    U16(u16),
    U32(u32),
    U64(u64),
    USize(usize),
}

/// What the value stands for.
pub open spec fn view_alias_type(x: AliasType) -> AliasTypeView
    decreases x,
{
    AliasTypeView {
        symbol: x.symbol@,
        inner: view_type(x.inner),
    }
}

/// What the value stands for.
pub open spec fn view_assign_expr(x: AssignExpr) -> AssignExprView
    decreases x,
{
    AssignExprView {
        lhs: view_ref_expr(x.lhs),
        rhs: view_expr(x.rhs),
    }
}

/// What the value stands for.
pub open spec fn view_block_expr(x: BlockExpr) -> BlockExprView
    decreases x,
{
    BlockExprView {
        identifier: x.identifier@,
        prelude: view_exprs(x.prelude@),
        body: view_exprs(x.body@),
        ret: view_expr(x.ret),
        epilogue: view_exprs(x.epilogue@),
        function_table: view_function_table(x.function_table@),
        module_table: view_module_table(x.module_table@),
        type_table: view_type_table(x.type_table@),
    }
}

/// What the value stands for.
pub open spec fn view_call_expr(x: CallExpr) -> CallExprView
    decreases x,
{
    CallExprView {
        identifier: x.identifier@,
        target: view_expr(x.target),
        arguments: view_exprs(x.arguments@),
    }
}

/// What the value stands for.
pub open spec fn view_deref_expr(x: DerefExpr) -> DerefExprView
    decreases x,
{
    DerefExprView {
        identifier: x.identifier@,
        inner: view_expr(x.inner),
    }
}

/// What the value stands for.
pub open spec fn view_enum_type(x: EnumType) -> EnumTypeView
    decreases x,
{
    EnumTypeView {
        symbol: x.symbol@,
        params: view_types(x.params@),
        variants: Box::new(view_struct_type(*x.variants)),
    }
}

/// What the value stands for.
pub open spec fn view_for_expr(x: ForExpr) -> ForExprView
    decreases x,
{
    ForExprView {
        identifier: x.identifier@,
        formals: view_variables(x.formals@),
        iterator: view_expr(x.iterator),
        iteration: Box::new(view_block_expr(*x.iteration)),
    }
}

/// What the value stands for.
pub open spec fn view_function(x: Function) -> FunctionView
    decreases x,
{
    FunctionView {
        symbol: x.symbol@,
        formals: view_variables(x.formals@),
        ret: view_type(x.ret),
        body: view_body(x.body),
        mangled_name: x.mangled_name@,
    }
}

/// What the value stands for.
pub open spec fn view_if_expr(x: IfExpr) -> IfExprView
    decreases x,
{
    IfExprView {
        identifier: x.identifier@,
        condition: view_expr(x.condition),
        then_block: Box::new(view_block_expr(*x.then_block)),
        else_block: Box::new(view_block_expr(*x.else_block)),
    }
}

/// What the value stands for.
pub open spec fn view_item_expr(x: ItemExpr) -> ItemExprView
    decreases x,
{
    ItemExprView {
        identifier: x.identifier@,
        item: view_item(x.item),
    }
}

/// What the value stands for.
pub open spec fn view_lambda_type(x: LambdaType) -> LambdaTypeView
    decreases x,
{
    LambdaTypeView {
        formals: view_types(x.formals@),
        ret: view_type(x.ret),
    }
}

/// What the value stands for.
pub open spec fn view_let_expr(x: LetExpr) -> LetExprView
    decreases x,
{
    LetExprView {
        identifier: x.identifier@,
        variable: view_variable(x.variable),
        definition: view_assign_expr(x.definition),
    }
}

/// What the value stands for.
pub open spec fn view_literal_expr(x: LiteralExpr) -> LiteralExprView
    decreases x,
{
    LiteralExprView {
        identifier: x.identifier@,
        literal: view_literal(x.literal),
    }
}

/// What the value stands for.
pub open spec fn view_module(x: Module) -> ModuleView
    decreases x,
{
    ModuleView {
        symbol: x.symbol@,
        function_table: view_function_table(x.function_table@),
        module_table: view_module_table(x.module_table@),
        type_table: view_type_table(x.type_table@),
    }
}

/// What the value stands for.
pub open spec fn view_process_expr(x: ProcessExpr) -> ProcessExprView
    decreases x,
{
    ProcessExprView {
        identifier: x.identifier@,
        body: Box::new(view_block_expr(*x.body)),
    }
}

/// What the value stands for.
pub open spec fn view_process_join_expr(x: ProcessJoinExpr) -> ProcessJoinExprView
    decreases x,
{
    ProcessJoinExprView {
        identifier: x.identifier@,
        process_expr: Box::new(view_process_expr(*x.process_expr)),
    }
}

/// What the value stands for.
pub open spec fn view_ptr_type(x: PtrType) -> PtrTypeView
    decreases x,
{
    PtrTypeView {
        inner: view_type(x.inner),
    }
}

/// What the value stands for.
pub open spec fn view_ref_type(x: RefType) -> RefTypeView
    decreases x,
{
    RefTypeView {
        inner: view_type(x.inner),
    }
}

/// What the value stands for.
pub open spec fn view_ref_expr(x: RefExpr) -> RefExprView
    decreases x,
{
    RefExprView {
        identifier: x.identifier@,
        inner: view_expr(x.inner),
    }
}

/// What the value stands for.
pub open spec fn view_struct_expr(x: StructExpr) -> StructExprView
    decreases x,
{
    StructExprView {
        elements: view_fields(x.elements@),
        ty: view_type(x.ty),
    }
}

/// What the value stands for.
pub open spec fn view_struct_type(x: StructType) -> StructTypeView
    decreases x,
{
    StructTypeView {
        symbol: x.symbol@,
        params: view_types(x.params@),
        elements: view_variables(x.elements@),
    }
}

/// What the value stands for.
pub open spec fn view_variable(x: Variable) -> VariableView
    decreases x,
{
    VariableView {
        symbol: x.symbol@,
        ty: view_type(x.ty),
    }
}

/// What the value stands for.
pub open spec fn view_variable_expr(x: VariableExpr) -> VariableExprView
    decreases x,
{
    VariableExprView {
        variable: view_variable(x.variable),
        parent: view_exprs(x.parent@),
    }
}

/// What the value stands for.
pub open spec fn view_void_expr(x: VoidExpr) -> VoidExprView
    decreases x,
{
    VoidExprView {
        identifier: x.identifier@,
    }
}

/// What the value stands for.
pub open spec fn view_type(x: Type) -> TypeView
    decreases x,
{
    match x {
        Type::Alias(b) => TypeView::Alias(Box::new(view_alias_type(*b))),
        Type::Enum(b) => TypeView::Enum(Box::new(view_enum_type(*b))),
        Type::Lambda(b) => TypeView::Lambda(Box::new(view_lambda_type(*b))),
        Type::Primitive(p) => TypeView::Primitive(*p),
        Type::Ptr(b) => TypeView::Ptr(Box::new(view_ptr_type(*b))),
        Type::Ref(b) => TypeView::Ref(Box::new(view_ref_type(*b))),
        Type::Struct(b) => TypeView::Struct(Box::new(view_struct_type(*b))),
    }
}

/// What the value stands for.
pub open spec fn view_expr(x: Expr) -> ExprView
    decreases x,
{
    match x {
        Expr::Assign(b) => ExprView::Assign(Box::new(view_assign_expr(*b))),
        Expr::Block(b) => ExprView::Block(Box::new(view_block_expr(*b))),
        Expr::Call(b) => ExprView::Call(Box::new(view_call_expr(*b))),
        Expr::Deref(b) => ExprView::Deref(Box::new(view_deref_expr(*b))),
        Expr::For(b) => ExprView::For(Box::new(view_for_expr(*b))),
        Expr::If(b) => ExprView::If(Box::new(view_if_expr(*b))),
        Expr::Item(b) => ExprView::Item(Box::new(view_item_expr(*b))),
        Expr::Let(b) => ExprView::Let(Box::new(view_let_expr(*b))),
        Expr::Literal(b) => ExprView::Literal(Box::new(view_literal_expr(*b))),
        Expr::Process(b) => ExprView::Process(Box::new(view_process_expr(*b))),
        Expr::ProcessJoin(b) => ExprView::ProcessJoin(Box::new(view_process_join_expr(*b))),
        Expr::Struct(b) => ExprView::Struct(Box::new(view_struct_expr(*b))),
        Expr::Ref(b) => ExprView::Ref(Box::new(view_ref_expr(*b))),
        Expr::Variable(b) => ExprView::Variable(Box::new(view_variable_expr(*b))),
        Expr::Void(b) => ExprView::Void(Box::new(view_void_expr(*b))),
    }
}

/// What the value stands for.
pub open spec fn view_item(x: Item) -> ItemView
    decreases x,
{
    match x {
        Item::Function(b) => ItemView::Function(Box::new(view_function(*b))),
        Item::Module(b) => ItemView::Module(Box::new(view_module(*b))),
        Item::Type(b) => ItemView::Type(Box::new(view_type(*b))),
        Item::Variable(b) => ItemView::Variable(Box::new(view_variable(*b))),
    }
}

/// What the value stands for.
pub open spec fn view_literal(x: Literal) -> LiteralView {
    match x {
        Literal::Bool(v) => LiteralView::Bool(v),
        Literal::Char(v) => LiteralView::Char(v as u32),
        Literal::F32(v) => LiteralView::F32(v@),
        Literal::F64(v) => LiteralView::F64(v@),
        Literal::I8(v) => LiteralView::I8(v),
        Literal::I16(v) => LiteralView::I16(v),
        Literal::I32(v) => LiteralView::I32(v),
        Literal::I64(v) => LiteralView::I64(v),
        Literal::Str(v) => LiteralView::Str(v@),
        Literal::U8(v) => LiteralView::U8(v),
        Literal::U16(v) => LiteralView::U16(v),
        Literal::U32(v) => LiteralView::U32(v),
        Literal::U64(v) => LiteralView::U64(v),
        Literal::USize(v) => LiteralView::USize(v),
    }
}

/// What a body, or the lack of one, stands for.
pub open spec fn view_body(x: Option<BlockExpr>) -> Option<BlockExprView>
    decreases x,
{
    match x {
        Some(b) => Some(view_block_expr(b)),
        None => None,
    }
}

/// What the elements of a list stand for, in their order.
pub open spec fn view_types(xs: Seq<Type>) -> Seq<TypeView>
    decreases xs,
{
    Seq::new(
        xs.len(),
        |i: int|
            if 0 <= i < xs.len() {
                view_type(xs[i])
            } else {
                arbitrary()
            },
    )
}

/// What the elements of a list stand for, in their order.
pub open spec fn view_variables(xs: Seq<Variable>) -> Seq<VariableView>
    decreases xs,
{
    Seq::new(
        xs.len(),
        |i: int|
            if 0 <= i < xs.len() {
                view_variable(xs[i])
            } else {
                arbitrary()
            },
    )
}

/// What the elements of a list stand for, in their order.
pub open spec fn view_exprs(xs: Seq<Expr>) -> Seq<ExprView>
    decreases xs,
{
    Seq::new(
        xs.len(),
        |i: int|
            if 0 <= i < xs.len() {
                view_expr(xs[i])
            } else {
                arbitrary()
            },
    )
}

/// What the elements of a list stand for, in their order.
pub open spec fn view_fields(xs: Seq<(Variable, Expr)>) -> Seq<(VariableView, ExprView)>
    decreases xs,
{
    Seq::new(
        xs.len(),
        |i: int|
            if 0 <= i < xs.len() {
                (view_variable(xs[i].0), view_expr(xs[i].1))
            } else {
                arbitrary()
            },
    )
}

/// What the elements of a list stand for, in their order.
pub open spec fn view_function_table(xs: Seq<(Identifier, Function)>) -> Seq<(IdentifierView, FunctionView)>
    decreases xs,
{
    Seq::new(
        xs.len(),
        |i: int|
            if 0 <= i < xs.len() {
                (xs[i].0@, view_function(xs[i].1))
            } else {
                arbitrary()
            },
    )
}

/// What the elements of a list stand for, in their order.
pub open spec fn view_module_table(xs: Seq<(Identifier, Module)>) -> Seq<(IdentifierView, ModuleView)>
    decreases xs,
{
    Seq::new(
        xs.len(),
        |i: int|
            if 0 <= i < xs.len() {
                (xs[i].0@, view_module(xs[i].1))
            } else {
                arbitrary()
            },
    )
}

/// What the elements of a list stand for, in their order.
pub open spec fn view_type_table(xs: Seq<(Identifier, Type)>) -> Seq<(IdentifierView, TypeView)>
    decreases xs,
{
    Seq::new(
        xs.len(),
        |i: int|
            if 0 <= i < xs.len() {
                (xs[i].0@, view_type(xs[i].1))
            } else {
                arbitrary()
            },
    )
}

/// What the elements of a list stand for, in their order.
pub open spec fn view_functions_list(xs: Seq<Function>) -> Seq<FunctionView>
    decreases xs,
{
    Seq::new(
        xs.len(),
        |i: int|
            if 0 <= i < xs.len() {
                view_function(xs[i])
            } else {
                arbitrary()
            },
    )
}

impl View for AliasType {
    type V = AliasTypeView;

    open spec fn view(&self) -> AliasTypeView {
        view_alias_type(*self)
    }
}

impl View for AssignExpr {
    type V = AssignExprView;

    open spec fn view(&self) -> AssignExprView {
        view_assign_expr(*self)
    }
}

impl View for BlockExpr {
    type V = BlockExprView;

    open spec fn view(&self) -> BlockExprView {
        view_block_expr(*self)
    }
}

impl View for CallExpr {
    type V = CallExprView;

    open spec fn view(&self) -> CallExprView {
        view_call_expr(*self)
    }
}

impl View for DerefExpr {
    type V = DerefExprView;

    open spec fn view(&self) -> DerefExprView {
        view_deref_expr(*self)
    }
}

impl View for EnumType {
    type V = EnumTypeView;

    open spec fn view(&self) -> EnumTypeView {
        view_enum_type(*self)
    }
}

impl View for ForExpr {
    type V = ForExprView;

    open spec fn view(&self) -> ForExprView {
        view_for_expr(*self)
    }
}

impl View for Function {
    type V = FunctionView;

    open spec fn view(&self) -> FunctionView {
        view_function(*self)
    }
}

impl View for IfExpr {
    type V = IfExprView;

    open spec fn view(&self) -> IfExprView {
        view_if_expr(*self)
    }
}

impl View for ItemExpr {
    type V = ItemExprView;

    open spec fn view(&self) -> ItemExprView {
        view_item_expr(*self)
    }
}

impl View for LambdaType {
    type V = LambdaTypeView;

    open spec fn view(&self) -> LambdaTypeView {
        view_lambda_type(*self)
    }
}

impl View for LetExpr {
    type V = LetExprView;

    open spec fn view(&self) -> LetExprView {
        view_let_expr(*self)
    }
}

impl View for LiteralExpr {
    type V = LiteralExprView;

    open spec fn view(&self) -> LiteralExprView {
        view_literal_expr(*self)
    }
}

impl View for Module {
    type V = ModuleView;

    open spec fn view(&self) -> ModuleView {
        view_module(*self)
    }
}

impl View for ProcessExpr {
    type V = ProcessExprView;

    open spec fn view(&self) -> ProcessExprView {
        view_process_expr(*self)
    }
}

impl View for ProcessJoinExpr {
    type V = ProcessJoinExprView;

    open spec fn view(&self) -> ProcessJoinExprView {
        view_process_join_expr(*self)
    }
}

impl View for PtrType {
    type V = PtrTypeView;

    open spec fn view(&self) -> PtrTypeView {
        view_ptr_type(*self)
    }
}

impl View for RefType {
    type V = RefTypeView;

    open spec fn view(&self) -> RefTypeView {
        view_ref_type(*self)
    }
}

impl View for RefExpr {
    type V = RefExprView;

    open spec fn view(&self) -> RefExprView {
        view_ref_expr(*self)
    }
}

impl View for StructExpr {
    type V = StructExprView;

    open spec fn view(&self) -> StructExprView {
        view_struct_expr(*self)
    }
}

impl View for StructType {
    type V = StructTypeView;

    open spec fn view(&self) -> StructTypeView {
        view_struct_type(*self)
    }
}

impl View for Variable {
    type V = VariableView;

    open spec fn view(&self) -> VariableView {
        view_variable(*self)
    }
}

impl View for VariableExpr {
    type V = VariableExprView;

    open spec fn view(&self) -> VariableExprView {
        view_variable_expr(*self)
    }
}

impl View for VoidExpr {
    type V = VoidExprView;

    open spec fn view(&self) -> VoidExprView {
        view_void_expr(*self)
    }
}

impl View for Type {
    type V = TypeView;

    open spec fn view(&self) -> TypeView {
        view_type(*self)
    }
}

impl View for Expr {
    type V = ExprView;

    open spec fn view(&self) -> ExprView {
        view_expr(*self)
    }
}

impl View for Item {
    type V = ItemView;

    open spec fn view(&self) -> ItemView {
        view_item(*self)
    }
}

impl View for Literal {
    type V = LiteralView;

    open spec fn view(&self) -> LiteralView {
        view_literal(*self)
    }
}

/// The view of a pushed element is pushed to the view.
pub proof fn lemma_view_types_push(xs: Seq<Type>, x: Type)
    ensures
        view_types(xs.push(x)) == view_types(xs).push(view_type(x)),
        view_types(Seq::<Type>::empty()) == Seq::<TypeView>::empty(),
        view_types(xs).len() == xs.len(),
{
    assert(view_types(xs.push(x)) =~= view_types(xs).push(view_type(x)));
    assert(view_types(Seq::<Type>::empty()) =~= Seq::<TypeView>::empty());
}

/// The view of a list with one element replaced is the view with the view of
/// that element replaced.
pub proof fn lemma_view_types_update(xs: Seq<Type>, i: int, x: Type)
    requires
        0 <= i < xs.len(),
    ensures
        view_types(xs.update(i, x)) == view_types(xs).update(i, view_type(x)),
{
    assert(view_types(xs.update(i, x)) =~= view_types(xs).update(i, view_type(x)));
}

/// The view of a list has as many elements as the list.
pub proof fn lemma_view_types_len(xs: Seq<Type>)
    ensures
        view_types(xs).len() == xs.len(),
{
}

/// The view of a list is made of the views of its elements.
pub proof fn lemma_view_types_index(xs: Seq<Type>, i: int)
    requires
        0 <= i < xs.len(),
    ensures
        view_types(xs).len() == xs.len(),
        view_types(xs)[i] == view_type(xs[i]),
{
}

/// The view of a pushed element is pushed to the view.
pub proof fn lemma_view_variables_push(xs: Seq<Variable>, x: Variable)
    ensures
        view_variables(xs.push(x)) == view_variables(xs).push(view_variable(x)),
        view_variables(Seq::<Variable>::empty()) == Seq::<VariableView>::empty(),
        view_variables(xs).len() == xs.len(),
{
    assert(view_variables(xs.push(x)) =~= view_variables(xs).push(view_variable(x)));
    assert(view_variables(Seq::<Variable>::empty()) =~= Seq::<VariableView>::empty());
}

/// The view of a list with one element replaced is the view with the view of
/// that element replaced.
pub proof fn lemma_view_variables_update(xs: Seq<Variable>, i: int, x: Variable)
    requires
        0 <= i < xs.len(),
    ensures
        view_variables(xs.update(i, x)) == view_variables(xs).update(i, view_variable(x)),
{
    assert(view_variables(xs.update(i, x)) =~= view_variables(xs).update(i, view_variable(x)));
}

/// The view of a list has as many elements as the list.
pub proof fn lemma_view_variables_len(xs: Seq<Variable>)
    ensures
        view_variables(xs).len() == xs.len(),
{
}

/// The view of a list is made of the views of its elements.
pub proof fn lemma_view_variables_index(xs: Seq<Variable>, i: int)
    requires
        0 <= i < xs.len(),
    ensures
        view_variables(xs).len() == xs.len(),
        view_variables(xs)[i] == view_variable(xs[i]),
{
}

/// The view of a pushed element is pushed to the view.
pub proof fn lemma_view_exprs_push(xs: Seq<Expr>, x: Expr)
    ensures
        view_exprs(xs.push(x)) == view_exprs(xs).push(view_expr(x)),
        view_exprs(Seq::<Expr>::empty()) == Seq::<ExprView>::empty(),
        view_exprs(xs).len() == xs.len(),
{
    assert(view_exprs(xs.push(x)) =~= view_exprs(xs).push(view_expr(x)));
    assert(view_exprs(Seq::<Expr>::empty()) =~= Seq::<ExprView>::empty());
}

/// The view of a list with one element replaced is the view with the view of
/// that element replaced.
pub proof fn lemma_view_exprs_update(xs: Seq<Expr>, i: int, x: Expr)
    requires
        0 <= i < xs.len(),
    ensures
        view_exprs(xs.update(i, x)) == view_exprs(xs).update(i, view_expr(x)),
{
    assert(view_exprs(xs.update(i, x)) =~= view_exprs(xs).update(i, view_expr(x)));
}

/// The view of a list has as many elements as the list.
pub proof fn lemma_view_exprs_len(xs: Seq<Expr>)
    ensures
        view_exprs(xs).len() == xs.len(),
{
}

/// The view of a list is made of the views of its elements.
pub proof fn lemma_view_exprs_index(xs: Seq<Expr>, i: int)
    requires
        0 <= i < xs.len(),
    ensures
        view_exprs(xs).len() == xs.len(),
        view_exprs(xs)[i] == view_expr(xs[i]),
{
}

/// The view of a pushed element is pushed to the view.
pub proof fn lemma_view_fields_push(xs: Seq<(Variable, Expr)>, x: (Variable, Expr))
    ensures
        view_fields(xs.push(x)) == view_fields(xs).push((view_variable(x.0), view_expr(x.1))),
        view_fields(Seq::<(Variable, Expr)>::empty()) == Seq::<(VariableView, ExprView)>::empty(),
        view_fields(xs).len() == xs.len(),
{
    assert(view_fields(xs.push(x)) =~= view_fields(xs).push((view_variable(x.0), view_expr(x.1))));
    assert(view_fields(Seq::<(Variable, Expr)>::empty()) =~= Seq::<(VariableView, ExprView)>::empty());
}

/// The view of a list with one element replaced is the view with the view of
/// that element replaced.
pub proof fn lemma_view_fields_update(xs: Seq<(Variable, Expr)>, i: int, x: (Variable, Expr))
    requires
        0 <= i < xs.len(),
    ensures
        view_fields(xs.update(i, x)) == view_fields(xs).update(i, (view_variable(x.0), view_expr(x.1))),
{
    assert(view_fields(xs.update(i, x)) =~= view_fields(xs).update(i, (view_variable(x.0), view_expr(x.1))));
}

/// The view of a list has as many elements as the list.
pub proof fn lemma_view_fields_len(xs: Seq<(Variable, Expr)>)
    ensures
        view_fields(xs).len() == xs.len(),
{
}

/// The view of a list is made of the views of its elements.
pub proof fn lemma_view_fields_index(xs: Seq<(Variable, Expr)>, i: int)
    requires
        0 <= i < xs.len(),
    ensures
        view_fields(xs).len() == xs.len(),
        view_fields(xs)[i] == (view_variable(xs[i].0), view_expr(xs[i].1)),
{
}

/// The view of a pushed element is pushed to the view.
pub proof fn lemma_view_function_table_push(xs: Seq<(Identifier, Function)>, x: (Identifier, Function))
    ensures
        view_function_table(xs.push(x)) == view_function_table(xs).push((x.0@, view_function(x.1))),
        view_function_table(Seq::<(Identifier, Function)>::empty()) == Seq::<(IdentifierView, FunctionView)>::empty(),
        view_function_table(xs).len() == xs.len(),
{
    assert(view_function_table(xs.push(x)) =~= view_function_table(xs).push((x.0@, view_function(x.1))));
    assert(view_function_table(Seq::<(Identifier, Function)>::empty()) =~= Seq::<(IdentifierView, FunctionView)>::empty());
}

/// The view of a list with one element replaced is the view with the view of
/// that element replaced.
pub proof fn lemma_view_function_table_update(xs: Seq<(Identifier, Function)>, i: int, x: (Identifier, Function))
    requires
        0 <= i < xs.len(),
    ensures
        view_function_table(xs.update(i, x)) == view_function_table(xs).update(i, (x.0@, view_function(x.1))),
{
    assert(view_function_table(xs.update(i, x)) =~= view_function_table(xs).update(i, (x.0@, view_function(x.1))));
}

/// The keys of a table are the keys of its view.
pub proof fn lemma_view_function_table_keys(xs: Seq<(Identifier, Function)>)
    ensures
        table::table_keys(view_function_table(xs)) == table::entry_keys(xs),
{
    assert(table::table_keys(view_function_table(xs)) =~= table::entry_keys(xs));
}

/// The view of a list has as many elements as the list.
pub proof fn lemma_view_function_table_len(xs: Seq<(Identifier, Function)>)
    ensures
        view_function_table(xs).len() == xs.len(),
{
}

/// The view of a list is made of the views of its elements.
pub proof fn lemma_view_function_table_index(xs: Seq<(Identifier, Function)>, i: int)
    requires
        0 <= i < xs.len(),
    ensures
        view_function_table(xs).len() == xs.len(),
        view_function_table(xs)[i] == (xs[i].0@, view_function(xs[i].1)),
{
}

/// The view of a pushed element is pushed to the view.
pub proof fn lemma_view_module_table_push(xs: Seq<(Identifier, Module)>, x: (Identifier, Module))
    ensures
        view_module_table(xs.push(x)) == view_module_table(xs).push((x.0@, view_module(x.1))),
        view_module_table(Seq::<(Identifier, Module)>::empty()) == Seq::<(IdentifierView, ModuleView)>::empty(),
        view_module_table(xs).len() == xs.len(),
{
    assert(view_module_table(xs.push(x)) =~= view_module_table(xs).push((x.0@, view_module(x.1))));
    assert(view_module_table(Seq::<(Identifier, Module)>::empty()) =~= Seq::<(IdentifierView, ModuleView)>::empty());
}

/// The view of a list with one element replaced is the view with the view of
/// that element replaced.
pub proof fn lemma_view_module_table_update(xs: Seq<(Identifier, Module)>, i: int, x: (Identifier, Module))
    requires
        0 <= i < xs.len(),
    ensures
        view_module_table(xs.update(i, x)) == view_module_table(xs).update(i, (x.0@, view_module(x.1))),
{
    assert(view_module_table(xs.update(i, x)) =~= view_module_table(xs).update(i, (x.0@, view_module(x.1))));
}

/// The keys of a table are the keys of its view.
pub proof fn lemma_view_module_table_keys(xs: Seq<(Identifier, Module)>)
    ensures
        table::table_keys(view_module_table(xs)) == table::entry_keys(xs),
{
    assert(table::table_keys(view_module_table(xs)) =~= table::entry_keys(xs));
}

/// The view of a list has as many elements as the list.
pub proof fn lemma_view_module_table_len(xs: Seq<(Identifier, Module)>)
    ensures
        view_module_table(xs).len() == xs.len(),
{
}

/// The view of a list is made of the views of its elements.
pub proof fn lemma_view_module_table_index(xs: Seq<(Identifier, Module)>, i: int)
    requires
        0 <= i < xs.len(),
    ensures
        view_module_table(xs).len() == xs.len(),
        view_module_table(xs)[i] == (xs[i].0@, view_module(xs[i].1)),
{
}

/// The view of a pushed element is pushed to the view.
pub proof fn lemma_view_type_table_push(xs: Seq<(Identifier, Type)>, x: (Identifier, Type))
    ensures
        view_type_table(xs.push(x)) == view_type_table(xs).push((x.0@, view_type(x.1))),
        view_type_table(Seq::<(Identifier, Type)>::empty()) == Seq::<(IdentifierView, TypeView)>::empty(),
        view_type_table(xs).len() == xs.len(),
{
    assert(view_type_table(xs.push(x)) =~= view_type_table(xs).push((x.0@, view_type(x.1))));
    assert(view_type_table(Seq::<(Identifier, Type)>::empty()) =~= Seq::<(IdentifierView, TypeView)>::empty());
}

/// The view of a list with one element replaced is the view with the view of
/// that element replaced.
pub proof fn lemma_view_type_table_update(xs: Seq<(Identifier, Type)>, i: int, x: (Identifier, Type))
    requires
        0 <= i < xs.len(),
    ensures
        view_type_table(xs.update(i, x)) == view_type_table(xs).update(i, (x.0@, view_type(x.1))),
{
    assert(view_type_table(xs.update(i, x)) =~= view_type_table(xs).update(i, (x.0@, view_type(x.1))));
}

/// The keys of a table are the keys of its view.
pub proof fn lemma_view_type_table_keys(xs: Seq<(Identifier, Type)>)
    ensures
        table::table_keys(view_type_table(xs)) == table::entry_keys(xs),
{
    assert(table::table_keys(view_type_table(xs)) =~= table::entry_keys(xs));
}

/// The view of a list has as many elements as the list.
pub proof fn lemma_view_type_table_len(xs: Seq<(Identifier, Type)>)
    ensures
        view_type_table(xs).len() == xs.len(),
{
}

/// The view of a list is made of the views of its elements.
pub proof fn lemma_view_type_table_index(xs: Seq<(Identifier, Type)>, i: int)
    requires
        0 <= i < xs.len(),
    ensures
        view_type_table(xs).len() == xs.len(),
        view_type_table(xs)[i] == (xs[i].0@, view_type(xs[i].1)),
{
}

/// The view of a pushed element is pushed to the view.
pub proof fn lemma_view_functions_list_push(xs: Seq<Function>, x: Function)
    ensures
        view_functions_list(xs.push(x)) == view_functions_list(xs).push(view_function(x)),
        view_functions_list(Seq::<Function>::empty()) == Seq::<FunctionView>::empty(),
        view_functions_list(xs).len() == xs.len(),
{
    assert(view_functions_list(xs.push(x)) =~= view_functions_list(xs).push(view_function(x)));
    assert(view_functions_list(Seq::<Function>::empty()) =~= Seq::<FunctionView>::empty());
}

/// The view of a list with one element replaced is the view with the view of
/// that element replaced.
pub proof fn lemma_view_functions_list_update(xs: Seq<Function>, i: int, x: Function)
    requires
        0 <= i < xs.len(),
    ensures
        view_functions_list(xs.update(i, x)) == view_functions_list(xs).update(i, view_function(x)),
{
    assert(view_functions_list(xs.update(i, x)) =~= view_functions_list(xs).update(i, view_function(x)));
}

/// The view of a list has as many elements as the list.
pub proof fn lemma_view_functions_list_len(xs: Seq<Function>)
    ensures
        view_functions_list(xs).len() == xs.len(),
{
}

/// The view of a list is made of the views of its elements.
pub proof fn lemma_view_functions_list_index(xs: Seq<Function>, i: int)
    requires
        0 <= i < xs.len(),
    ensures
        view_functions_list(xs).len() == xs.len(),
        view_functions_list(xs)[i] == view_function(xs[i]),
{
}

/// A copy of the value.
pub fn clone_alias_type(x: &AliasType) -> (res: AliasType)
    ensures
        res@ == x@,
    decreases x,
{
    AliasType {
        symbol: x.symbol.clone(),
        inner: clone_type(&x.inner),
    }
}

/// A copy of the value.
pub fn clone_assign_expr(x: &AssignExpr) -> (res: AssignExpr)
    ensures
        res@ == x@,
    decreases x,
{
    AssignExpr {
        lhs: clone_ref_expr(&x.lhs),
        rhs: clone_expr(&x.rhs),
    }
}

/// A copy of the value.
pub fn clone_block_expr(x: &BlockExpr) -> (res: BlockExpr)
    ensures
        res@ == x@,
    decreases x,
{
    BlockExpr {
        identifier: x.identifier.clone(),
        prelude: clone_exprs(&x.prelude),
        body: clone_exprs(&x.body),
        ret: clone_expr(&x.ret),
        epilogue: clone_exprs(&x.epilogue),
        function_table: clone_function_table(&x.function_table),
        module_table: clone_module_table(&x.module_table),
        type_table: clone_type_table(&x.type_table),
    }
}

/// A copy of the value.
pub fn clone_call_expr(x: &CallExpr) -> (res: CallExpr)
    ensures
        res@ == x@,
    decreases x,
{
    CallExpr {
        identifier: x.identifier.clone(),
        target: clone_expr(&x.target),
        arguments: clone_exprs(&x.arguments),
    }
}

/// A copy of the value.
pub fn clone_deref_expr(x: &DerefExpr) -> (res: DerefExpr)
    ensures
        res@ == x@,
    decreases x,
{
    DerefExpr {
        identifier: x.identifier.clone(),
        inner: clone_expr(&x.inner),
    }
}

/// A copy of the value.
pub fn clone_enum_type(x: &EnumType) -> (res: EnumType)
    ensures
        res@ == x@,
    decreases x,
{
    EnumType {
        symbol: x.symbol.clone(),
        params: clone_types(&x.params),
        variants: Box::new(clone_struct_type(&x.variants)),
    }
}

/// A copy of the value.
pub fn clone_for_expr(x: &ForExpr) -> (res: ForExpr)
    ensures
        res@ == x@,
    decreases x,
{
    ForExpr {
        identifier: x.identifier.clone(),
        formals: clone_variables(&x.formals),
        iterator: clone_expr(&x.iterator),
        iteration: Box::new(clone_block_expr(&x.iteration)),
    }
}

/// A copy of the value.
pub fn clone_function(x: &Function) -> (res: Function)
    ensures
        res@ == x@,
    decreases x,
{
    Function {
        symbol: x.symbol.clone(),
        formals: clone_variables(&x.formals),
        ret: clone_type(&x.ret),
        body: clone_body(&x.body),
        mangled_name: x.mangled_name.clone(),
    }
}

/// A copy of the value.
pub fn clone_if_expr(x: &IfExpr) -> (res: IfExpr)
    ensures
        res@ == x@,
    decreases x,
{
    IfExpr {
        identifier: x.identifier.clone(),
        condition: clone_expr(&x.condition),
        then_block: Box::new(clone_block_expr(&x.then_block)),
        else_block: Box::new(clone_block_expr(&x.else_block)),
    }
}

/// A copy of the value.
pub fn clone_item_expr(x: &ItemExpr) -> (res: ItemExpr)
    ensures
        res@ == x@,
    decreases x,
{
    ItemExpr {
        identifier: x.identifier.clone(),
        item: clone_item(&x.item),
    }
}

/// A copy of the value.
pub fn clone_lambda_type(x: &LambdaType) -> (res: LambdaType)
    ensures
        res@ == x@,
    decreases x,
{
    LambdaType {
        formals: clone_types(&x.formals),
        ret: clone_type(&x.ret),
    }
}

/// A copy of the value.
pub fn clone_let_expr(x: &LetExpr) -> (res: LetExpr)
    ensures
        res@ == x@,
    decreases x,
{
    LetExpr {
        identifier: x.identifier.clone(),
        variable: clone_variable(&x.variable),
        definition: clone_assign_expr(&x.definition),
    }
}

/// A copy of the value.
pub fn clone_literal_expr(x: &LiteralExpr) -> (res: LiteralExpr)
    ensures
        res@ == x@,
    decreases x,
{
    LiteralExpr {
        identifier: x.identifier.clone(),
        literal: clone_literal(&x.literal),
    }
}

/// A copy of the value.
pub fn clone_module(x: &Module) -> (res: Module)
    ensures
        res@ == x@,
    decreases x,
{
    Module {
        symbol: x.symbol.clone(),
        function_table: clone_function_table(&x.function_table),
        module_table: clone_module_table(&x.module_table),
        type_table: clone_type_table(&x.type_table),
    }
}

/// A copy of the value.
pub fn clone_process_expr(x: &ProcessExpr) -> (res: ProcessExpr)
    ensures
        res@ == x@,
    decreases x,
{
    ProcessExpr {
        identifier: x.identifier.clone(),
        body: Box::new(clone_block_expr(&x.body)),
    }
}

/// A copy of the value.
pub fn clone_process_join_expr(x: &ProcessJoinExpr) -> (res: ProcessJoinExpr)
    ensures
        res@ == x@,
    decreases x,
{
    ProcessJoinExpr {
        identifier: x.identifier.clone(),
        process_expr: Box::new(clone_process_expr(&x.process_expr)),
    }
}

/// A copy of the value.
pub fn clone_ptr_type(x: &PtrType) -> (res: PtrType)
    ensures
        res@ == x@,
    decreases x,
{
    PtrType {
        inner: clone_type(&x.inner),
    }
}

/// A copy of the value.
pub fn clone_ref_type(x: &RefType) -> (res: RefType)
    ensures
        res@ == x@,
    decreases x,
{
    RefType {
        inner: clone_type(&x.inner),
    }
}

/// A copy of the value.
pub fn clone_ref_expr(x: &RefExpr) -> (res: RefExpr)
    ensures
        res@ == x@,
    decreases x,
{
    RefExpr {
        identifier: x.identifier.clone(),
        inner: clone_expr(&x.inner),
    }
}

/// A copy of the value.
pub fn clone_struct_expr(x: &StructExpr) -> (res: StructExpr)
    ensures
        res@ == x@,
    decreases x,
{
    StructExpr {
        elements: clone_fields(&x.elements),
        ty: clone_type(&x.ty),
    }
}

/// A copy of the value.
pub fn clone_struct_type(x: &StructType) -> (res: StructType)
    ensures
        res@ == x@,
    decreases x,
{
    StructType {
        symbol: x.symbol.clone(),
        params: clone_types(&x.params),
        elements: clone_variables(&x.elements),
    }
}

/// A copy of the value.
pub fn clone_variable(x: &Variable) -> (res: Variable)
    ensures
        res@ == x@,
    decreases x,
{
    Variable {
        symbol: x.symbol.clone(),
        ty: clone_type(&x.ty),
    }
}

/// A copy of the value.
pub fn clone_variable_expr(x: &VariableExpr) -> (res: VariableExpr)
    ensures
        res@ == x@,
    decreases x,
{
    VariableExpr {
        variable: clone_variable(&x.variable),
        parent: clone_exprs(&x.parent),
    }
}

/// A copy of the value.
pub fn clone_void_expr(x: &VoidExpr) -> (res: VoidExpr)
    ensures
        res@ == x@,
    decreases x,
{
    VoidExpr {
        identifier: x.identifier.clone(),
    }
}

/// A copy of the value.
pub fn clone_type(x: &Type) -> (res: Type)
    ensures
        res@ == x@,
    decreases x,
{
    match x {
        Type::Alias(b) => Type::Alias(Box::new(clone_alias_type(b))),
        Type::Enum(b) => Type::Enum(Box::new(clone_enum_type(b))),
        Type::Lambda(b) => Type::Lambda(Box::new(clone_lambda_type(b))),
        Type::Primitive(p) => Type::Primitive(Box::new(**p)),
        Type::Ptr(b) => Type::Ptr(Box::new(clone_ptr_type(b))),
        Type::Ref(b) => Type::Ref(Box::new(clone_ref_type(b))),
        Type::Struct(b) => Type::Struct(Box::new(clone_struct_type(b))),
    }
}

/// A copy of the value.
pub fn clone_expr(x: &Expr) -> (res: Expr)
    ensures
        res@ == x@,
    decreases x,
{
    match x {
        Expr::Assign(b) => Expr::Assign(Box::new(clone_assign_expr(b))),
        Expr::Block(b) => Expr::Block(Box::new(clone_block_expr(b))),
        Expr::Call(b) => Expr::Call(Box::new(clone_call_expr(b))),
        Expr::Deref(b) => Expr::Deref(Box::new(clone_deref_expr(b))),
        Expr::For(b) => Expr::For(Box::new(clone_for_expr(b))),
        Expr::If(b) => Expr::If(Box::new(clone_if_expr(b))),
        Expr::Item(b) => Expr::Item(Box::new(clone_item_expr(b))),
        Expr::Let(b) => Expr::Let(Box::new(clone_let_expr(b))),
        Expr::Literal(b) => Expr::Literal(Box::new(clone_literal_expr(b))),
        Expr::Process(b) => Expr::Process(Box::new(clone_process_expr(b))),
        Expr::ProcessJoin(b) => Expr::ProcessJoin(Box::new(clone_process_join_expr(b))),
        Expr::Struct(b) => Expr::Struct(Box::new(clone_struct_expr(b))),
        Expr::Ref(b) => Expr::Ref(Box::new(clone_ref_expr(b))),
        Expr::Variable(b) => Expr::Variable(Box::new(clone_variable_expr(b))),
        Expr::Void(b) => Expr::Void(Box::new(clone_void_expr(b))),
    }
}

/// A copy of the value.
pub fn clone_item(x: &Item) -> (res: Item)
    ensures
        res@ == x@,
    decreases x,
{
    match x {
        Item::Function(b) => Item::Function(Box::new(clone_function(b))),
        Item::Module(b) => Item::Module(Box::new(clone_module(b))),
        Item::Type(b) => Item::Type(Box::new(clone_type(b))),
        Item::Variable(b) => Item::Variable(Box::new(clone_variable(b))),
    }
}

/// A copy of the value.
pub fn clone_literal(x: &Literal) -> (res: Literal)
    ensures
        res@ == x@,
{
    match x {
        Literal::Bool(v) => Literal::Bool(*v),
        Literal::Char(v) => Literal::Char(*v),
        Literal::F32(v) => Literal::F32(v.clone()),
        Literal::F64(v) => Literal::F64(v.clone()),
        Literal::I8(v) => Literal::I8(*v),
        Literal::I16(v) => Literal::I16(*v),
        Literal::I32(v) => Literal::I32(*v),
        Literal::I64(v) => Literal::I64(*v),
        Literal::Str(v) => Literal::Str(v.clone()),
        Literal::U8(v) => Literal::U8(*v),
        Literal::U16(v) => Literal::U16(*v),
        Literal::U32(v) => Literal::U32(*v),
        Literal::U64(v) => Literal::U64(*v),
        Literal::USize(v) => Literal::USize(*v),
    }
}

/// A copy of the value.
pub fn clone_body(x: &Option<BlockExpr>) -> (res: Option<BlockExpr>)
    ensures
        view_body(res) == view_body(*x),
    decreases x,
{
    match x {
        Some(b) => Some(clone_block_expr(b)),
        None => None,
    }
}

/// A copy of the list.
pub fn clone_types(xs: &Vec<Type>) -> (res: Vec<Type>)
    ensures
        view_types(res@) == view_types(xs@),
    decreases xs,
{
    let mut res: Vec<Type> = Vec::new();
    let mut i: usize = 0;
    while i < xs.len()
        invariant
            i <= xs.len(),
            res.len() == i,
            forall|j: int| 0 <= j < i ==> view_type((#[trigger] res[j])) == view_type(xs[j]),
        decreases xs.len() - i,
    {
        res.push(clone_type(&xs[i]));
        i += 1;
    }
    assert(view_types(res@) =~= view_types(xs@));
    res
}

/// A copy of the list.
pub fn clone_variables(xs: &Vec<Variable>) -> (res: Vec<Variable>)
    ensures
        view_variables(res@) == view_variables(xs@),
    decreases xs,
{
    let mut res: Vec<Variable> = Vec::new();
    let mut i: usize = 0;
    while i < xs.len()
        invariant
            i <= xs.len(),
            res.len() == i,
            forall|j: int| 0 <= j < i ==> view_variable((#[trigger] res[j])) == view_variable(xs[j]),
        decreases xs.len() - i,
    {
        res.push(clone_variable(&xs[i]));
        i += 1;
    }
    assert(view_variables(res@) =~= view_variables(xs@));
    res
}

/// A copy of the list.
pub fn clone_exprs(xs: &Vec<Expr>) -> (res: Vec<Expr>)
    ensures
        view_exprs(res@) == view_exprs(xs@),
    decreases xs,
{
    let mut res: Vec<Expr> = Vec::new();
    let mut i: usize = 0;
    while i < xs.len()
        invariant
            i <= xs.len(),
            res.len() == i,
            forall|j: int| 0 <= j < i ==> view_expr((#[trigger] res[j])) == view_expr(xs[j]),
        decreases xs.len() - i,
    {
        res.push(clone_expr(&xs[i]));
        i += 1;
    }
    assert(view_exprs(res@) =~= view_exprs(xs@));
    res
}

/// A copy of the list.
pub fn clone_fields(xs: &Vec<(Variable, Expr)>) -> (res: Vec<(Variable, Expr)>)
    ensures
        view_fields(res@) == view_fields(xs@),
    decreases xs,
{
    let mut res: Vec<(Variable, Expr)> = Vec::new();
    let mut i: usize = 0;
    while i < xs.len()
        invariant
            i <= xs.len(),
            res.len() == i,
            forall|j: int| 0 <= j < i ==> (view_variable((#[trigger] res[j]).0), view_expr((#[trigger] res[j]).1)) == (view_variable(xs[j].0), view_expr(xs[j].1)),
        decreases xs.len() - i,
    {
        res.push((clone_variable(&xs[i].0), clone_expr(&xs[i].1)));
        i += 1;
    }
    assert(view_fields(res@) =~= view_fields(xs@));
    res
}

/// A copy of the list.
pub fn clone_function_table(xs: &Vec<(Identifier, Function)>) -> (res: Vec<(Identifier, Function)>)
    ensures
        view_function_table(res@) == view_function_table(xs@),
    decreases xs,
{
    let mut res: Vec<(Identifier, Function)> = Vec::new();
    let mut i: usize = 0;
    while i < xs.len()
        invariant
            i <= xs.len(),
            res.len() == i,
            forall|j: int| 0 <= j < i ==> ((#[trigger] res[j]).0@, view_function((#[trigger] res[j]).1)) == (xs[j].0@, view_function(xs[j].1)),
        decreases xs.len() - i,
    {
        res.push((xs[i].0.clone(), clone_function(&xs[i].1)));
        i += 1;
    }
    assert(view_function_table(res@) =~= view_function_table(xs@));
    res
}

/// A copy of the list.
pub fn clone_module_table(xs: &Vec<(Identifier, Module)>) -> (res: Vec<(Identifier, Module)>)
    ensures
        view_module_table(res@) == view_module_table(xs@),
    decreases xs,
{
    let mut res: Vec<(Identifier, Module)> = Vec::new();
    let mut i: usize = 0;
    while i < xs.len()
        invariant
            i <= xs.len(),
            res.len() == i,
            forall|j: int| 0 <= j < i ==> ((#[trigger] res[j]).0@, view_module((#[trigger] res[j]).1)) == (xs[j].0@, view_module(xs[j].1)),
        decreases xs.len() - i,
    {
        res.push((xs[i].0.clone(), clone_module(&xs[i].1)));
        i += 1;
    }
    assert(view_module_table(res@) =~= view_module_table(xs@));
    res
}

/// A copy of the list.
pub fn clone_type_table(xs: &Vec<(Identifier, Type)>) -> (res: Vec<(Identifier, Type)>)
    ensures
        view_type_table(res@) == view_type_table(xs@),
    decreases xs,
{
    let mut res: Vec<(Identifier, Type)> = Vec::new();
    let mut i: usize = 0;
    while i < xs.len()
        invariant
            i <= xs.len(),
            res.len() == i,
            forall|j: int| 0 <= j < i ==> ((#[trigger] res[j]).0@, view_type((#[trigger] res[j]).1)) == (xs[j].0@, view_type(xs[j].1)),
        decreases xs.len() - i,
    {
        res.push((xs[i].0.clone(), clone_type(&xs[i].1)));
        i += 1;
    }
    assert(view_type_table(res@) =~= view_type_table(xs@));
    res
}

/// A copy of the list.
pub fn clone_functions_list(xs: &Vec<Function>) -> (res: Vec<Function>)
    ensures
        view_functions_list(res@) == view_functions_list(xs@),
    decreases xs,
{
    let mut res: Vec<Function> = Vec::new();
    let mut i: usize = 0;
    while i < xs.len()
        invariant
            i <= xs.len(),
            res.len() == i,
            forall|j: int| 0 <= j < i ==> view_function((#[trigger] res[j])) == view_function(xs[j]),
        decreases xs.len() - i,
    {
        res.push(clone_function(&xs[i]));
        i += 1;
    }
    assert(view_functions_list(res@) =~= view_functions_list(xs@));
    res
}

impl Clone for AliasType {
    fn clone(&self) -> (res: AliasType)
        ensures
            res@ == self@,
    {
        clone_alias_type(self)
    }
}

impl Clone for AssignExpr {
    fn clone(&self) -> (res: AssignExpr)
        ensures
            res@ == self@,
    {
        clone_assign_expr(self)
    }
}

impl Clone for BlockExpr {
    fn clone(&self) -> (res: BlockExpr)
        ensures
            res@ == self@,
    {
        clone_block_expr(self)
    }
}

impl Clone for CallExpr {
    fn clone(&self) -> (res: CallExpr)
        ensures
            res@ == self@,
    {
        clone_call_expr(self)
    }
}

impl Clone for DerefExpr {
    fn clone(&self) -> (res: DerefExpr)
        ensures
            res@ == self@,
    {
        clone_deref_expr(self)
    }
}

impl Clone for EnumType {
    fn clone(&self) -> (res: EnumType)
        ensures
            res@ == self@,
    {
        clone_enum_type(self)
    }
}

impl Clone for ForExpr {
    fn clone(&self) -> (res: ForExpr)
        ensures
            res@ == self@,
    {
        clone_for_expr(self)
    }
}

impl Clone for Function {
    fn clone(&self) -> (res: Function)
        ensures
            res@ == self@,
    {
        clone_function(self)
    }
}

impl Clone for IfExpr {
    fn clone(&self) -> (res: IfExpr)
        ensures
            res@ == self@,
    {
        clone_if_expr(self)
    }
}

impl Clone for ItemExpr {
    fn clone(&self) -> (res: ItemExpr)
        ensures
            res@ == self@,
    {
        clone_item_expr(self)
    }
}

impl Clone for LambdaType {
    fn clone(&self) -> (res: LambdaType)
        ensures
            res@ == self@,
    {
        clone_lambda_type(self)
    }
}

impl Clone for LetExpr {
    fn clone(&self) -> (res: LetExpr)
        ensures
            res@ == self@,
    {
        clone_let_expr(self)
    }
}

impl Clone for LiteralExpr {
    fn clone(&self) -> (res: LiteralExpr)
        ensures
            res@ == self@,
    {
        clone_literal_expr(self)
    }
}

impl Clone for Module {
    fn clone(&self) -> (res: Module)
        ensures
            res@ == self@,
    {
        clone_module(self)
    }
}

impl Clone for ProcessExpr {
    fn clone(&self) -> (res: ProcessExpr)
        ensures
            res@ == self@,
    {
        clone_process_expr(self)
    }
}

impl Clone for ProcessJoinExpr {
    fn clone(&self) -> (res: ProcessJoinExpr)
        ensures
            res@ == self@,
    {
        clone_process_join_expr(self)
    }
}

impl Clone for PtrType {
    fn clone(&self) -> (res: PtrType)
        ensures
            res@ == self@,
    {
        clone_ptr_type(self)
    }
}

impl Clone for RefType {
    fn clone(&self) -> (res: RefType)
        ensures
            res@ == self@,
    {
        clone_ref_type(self)
    }
}

impl Clone for RefExpr {
    fn clone(&self) -> (res: RefExpr)
        ensures
            res@ == self@,
    {
        clone_ref_expr(self)
    }
}

impl Clone for StructExpr {
    fn clone(&self) -> (res: StructExpr)
        ensures
            res@ == self@,
    {
        clone_struct_expr(self)
    }
}

impl Clone for StructType {
    fn clone(&self) -> (res: StructType)
        ensures
            res@ == self@,
    {
        clone_struct_type(self)
    }
}

impl Clone for Variable {
    fn clone(&self) -> (res: Variable)
        ensures
            res@ == self@,
    {
        clone_variable(self)
    }
}

impl Clone for VariableExpr {
    fn clone(&self) -> (res: VariableExpr)
        ensures
            res@ == self@,
    {
        clone_variable_expr(self)
    }
}

impl Clone for VoidExpr {
    fn clone(&self) -> (res: VoidExpr)
        ensures
            res@ == self@,
    {
        clone_void_expr(self)
    }
}

impl Clone for Type {
    fn clone(&self) -> (res: Type)
        ensures
            res@ == self@,
    {
        clone_type(self)
    }
}

impl Clone for Expr {
    fn clone(&self) -> (res: Expr)
        ensures
            res@ == self@,
    {
        clone_expr(self)
    }
}

impl Clone for Item {
    fn clone(&self) -> (res: Item)
        ensures
            res@ == self@,
    {
        clone_item(self)
    }
}

impl Clone for Literal {
    fn clone(&self) -> (res: Literal)
        ensures
            res@ == self@,
    {
        clone_literal(self)
    }
}

impl AliasType {
    /// The value made of the given parts.
    pub fn new(symbol: Symbol, inner: Type) -> (node: AliasType)
        ensures
            node == (AliasType { symbol, inner }),
    {
        AliasType { symbol, inner }
    }
}

impl AssignExpr {
    /// The value made of the given parts.
    pub fn new(lhs: RefExpr, rhs: Expr) -> (node: AssignExpr)
        ensures
            node == (AssignExpr { lhs, rhs }),
    {
        AssignExpr { lhs, rhs }
    }
}

impl BlockExpr {
    /// The value made of the given parts.
    pub fn new_with_id(
        identifier: Identifier,
        prelude: Exprs,
        body: Exprs,
        ret: Expr,
        epilogue: Exprs,
        function_table: FunctionTable,
        module_table: ModuleTable,
        type_table: TypeTable,
    ) -> (node: BlockExpr)
        ensures
            node == (BlockExpr { identifier, prelude, body, ret, epilogue, function_table, module_table, type_table }),
    {
        BlockExpr { identifier, prelude, body, ret, epilogue, function_table, module_table, type_table }
    }

    /// The node with a fresh identity.
    pub fn new(
        alloc: &mut IdAllocator,
        prelude: Exprs,
        body: Exprs,
        ret: Expr,
        epilogue: Exprs,
        function_table: FunctionTable,
        module_table: ModuleTable,
        type_table: TypeTable,
    ) -> (node: BlockExpr)
        ensures
            node.identifier@ == (IdentifierView { id: old(alloc).spec_next(), name: Seq::empty() }),
            node.prelude == prelude,
            node.body == body,
            node.ret == ret,
            node.epilogue == epilogue,
            node.function_table == function_table,
            node.module_table == module_table,
            node.type_table == type_table,
            final(alloc).follows(*old(alloc)),
    {
        let identifier = Identifier::id(alloc);
        BlockExpr { identifier, prelude, body, ret, epilogue, function_table, module_table, type_table }
    }
}

impl CallExpr {
    /// The value made of the given parts.
    pub fn new_with_id(identifier: Identifier, target: Expr, arguments: Exprs) -> (node: CallExpr)
        ensures
            node == (CallExpr { identifier, target, arguments }),
    {
        CallExpr { identifier, target, arguments }
    }

    /// The node with a fresh identity.
    pub fn new(alloc: &mut IdAllocator, target: Expr, arguments: Exprs) -> (node: CallExpr)
        ensures
            node.identifier@ == (IdentifierView { id: old(alloc).spec_next(), name: Seq::empty() }),
            node.target == target,
            node.arguments == arguments,
            final(alloc).follows(*old(alloc)),
    {
        let identifier = Identifier::id(alloc);
        CallExpr { identifier, target, arguments }
    }
}

impl DerefExpr {
    /// The value made of the given parts.
    pub fn new_with_id(identifier: Identifier, inner: Expr) -> (node: DerefExpr)
        ensures
            node == (DerefExpr { identifier, inner }),
    {
        DerefExpr { identifier, inner }
    }

    /// The node with a fresh identity.
    pub fn new(alloc: &mut IdAllocator, inner: Expr) -> (node: DerefExpr)
        ensures
            node.identifier@ == (IdentifierView { id: old(alloc).spec_next(), name: Seq::empty() }),
            node.inner == inner,
            final(alloc).follows(*old(alloc)),
    {
        let identifier = Identifier::id(alloc);
        DerefExpr { identifier, inner }
    }
}

impl EnumType {
    /// The value made of the given parts.
    pub fn new(symbol: Symbol, params: Types, variants: Box<StructType>) -> (node: EnumType)
        ensures
            node == (EnumType { symbol, params, variants }),
    {
        EnumType { symbol, params, variants }
    }
}

impl ForExpr {
    /// The value made of the given parts.
    pub fn new_with_id(
        identifier: Identifier,
        formals: Variables,
        iterator: Expr,
        iteration: Box<BlockExpr>,
    ) -> (node: ForExpr)
        ensures
            node == (ForExpr { identifier, formals, iterator, iteration }),
    {
        ForExpr { identifier, formals, iterator, iteration }
    }

    /// The node with a fresh identity.
    pub fn new(
        alloc: &mut IdAllocator,
        formals: Variables,
        iterator: Expr,
        iteration: Box<BlockExpr>,
    ) -> (node: ForExpr)
        ensures
            node.identifier@ == (IdentifierView { id: old(alloc).spec_next(), name: Seq::empty() }),
            node.formals == formals,
            node.iterator == iterator,
            node.iteration == iteration,
            final(alloc).follows(*old(alloc)),
    {
        let identifier = Identifier::id(alloc);
        ForExpr { identifier, formals, iterator, iteration }
    }
}

impl IfExpr {
    /// The value made of the given parts.
    pub fn new_with_id(
        identifier: Identifier,
        condition: Expr,
        then_block: Box<BlockExpr>,
        else_block: Box<BlockExpr>,
    ) -> (node: IfExpr)
        ensures
            node == (IfExpr { identifier, condition, then_block, else_block }),
    {
        IfExpr { identifier, condition, then_block, else_block }
    }

    /// The node with a fresh identity.
    pub fn new(
        alloc: &mut IdAllocator,
        condition: Expr,
        then_block: Box<BlockExpr>,
        else_block: Box<BlockExpr>,
    ) -> (node: IfExpr)
        ensures
            node.identifier@ == (IdentifierView { id: old(alloc).spec_next(), name: Seq::empty() }),
            node.condition == condition,
            node.then_block == then_block,
            node.else_block == else_block,
            final(alloc).follows(*old(alloc)),
    {
        let identifier = Identifier::id(alloc);
        IfExpr { identifier, condition, then_block, else_block }
    }
}

impl ItemExpr {
    /// The value made of the given parts.
    pub fn new_with_id(identifier: Identifier, item: Item) -> (node: ItemExpr)
        ensures
            node == (ItemExpr { identifier, item }),
    {
        ItemExpr { identifier, item }
    }

    /// The node with a fresh identity.
    pub fn new(alloc: &mut IdAllocator, item: Item) -> (node: ItemExpr)
        ensures
            node.identifier@ == (IdentifierView { id: old(alloc).spec_next(), name: Seq::empty() }),
            node.item == item,
            final(alloc).follows(*old(alloc)),
    {
        let identifier = Identifier::id(alloc);
        ItemExpr { identifier, item }
    }
}

impl LambdaType {
    /// The value made of the given parts.
    pub fn new(formals: Types, ret: Type) -> (node: LambdaType)
        ensures
            node == (LambdaType { formals, ret }),
    {
        LambdaType { formals, ret }
    }
}

impl LetExpr {
    /// The value made of the given parts.
    pub fn new_with_id(
        identifier: Identifier,
        variable: Variable,
        definition: AssignExpr,
    ) -> (node: LetExpr)
        ensures
            node == (LetExpr { identifier, variable, definition }),
    {
        LetExpr { identifier, variable, definition }
    }

    /// The node with a fresh identity.
    pub fn new(
        alloc: &mut IdAllocator,
        variable: Variable,
        definition: AssignExpr,
    ) -> (node: LetExpr)
        ensures
            node.identifier@ == (IdentifierView { id: old(alloc).spec_next(), name: Seq::empty() }),
            node.variable == variable,
            node.definition == definition,
            final(alloc).follows(*old(alloc)),
    {
        let identifier = Identifier::id(alloc);
        LetExpr { identifier, variable, definition }
    }
}

impl LiteralExpr {
    /// The value made of the given parts.
    pub fn new_with_id(identifier: Identifier, literal: Literal) -> (node: LiteralExpr)
        ensures
            node == (LiteralExpr { identifier, literal }),
    {
        LiteralExpr { identifier, literal }
    }

    /// The node with a fresh identity.
    pub fn new(alloc: &mut IdAllocator, literal: Literal) -> (node: LiteralExpr)
        ensures
            node.identifier@ == (IdentifierView { id: old(alloc).spec_next(), name: Seq::empty() }),
            node.literal == literal,
            final(alloc).follows(*old(alloc)),
    {
        let identifier = Identifier::id(alloc);
        LiteralExpr { identifier, literal }
    }
}

impl Module {
    /// The value made of the given parts.
    pub fn new(
        symbol: Symbol,
        function_table: FunctionTable,
        module_table: ModuleTable,
        type_table: TypeTable,
    ) -> (node: Module)
        ensures
            node == (Module { symbol, function_table, module_table, type_table }),
    {
        Module { symbol, function_table, module_table, type_table }
    }
}

impl ProcessExpr {
    /// The value made of the given parts.
    pub fn new_with_id(identifier: Identifier, body: Box<BlockExpr>) -> (node: ProcessExpr)
        ensures
            node == (ProcessExpr { identifier, body }),
    {
        ProcessExpr { identifier, body }
    }

    /// The node with a fresh identity.
    pub fn new(alloc: &mut IdAllocator, body: Box<BlockExpr>) -> (node: ProcessExpr)
        ensures
            node.identifier@ == (IdentifierView { id: old(alloc).spec_next(), name: Seq::empty() }),
            node.body == body,
            final(alloc).follows(*old(alloc)),
    {
        let identifier = Identifier::id(alloc);
        ProcessExpr { identifier, body }
    }
}

impl ProcessJoinExpr {
    /// The value made of the given parts.
    pub fn new_with_id(
        identifier: Identifier,
        process_expr: Box<ProcessExpr>,
    ) -> (node: ProcessJoinExpr)
        ensures
            node == (ProcessJoinExpr { identifier, process_expr }),
    {
        ProcessJoinExpr { identifier, process_expr }
    }

    /// The node with a fresh identity.
    pub fn new(alloc: &mut IdAllocator, process_expr: Box<ProcessExpr>) -> (node: ProcessJoinExpr)
        ensures
            node.identifier@ == (IdentifierView { id: old(alloc).spec_next(), name: Seq::empty() }),
            node.process_expr == process_expr,
            final(alloc).follows(*old(alloc)),
    {
        let identifier = Identifier::id(alloc);
        ProcessJoinExpr { identifier, process_expr }
    }
}

impl PtrType {
    /// The value made of the given parts.
    pub fn new(inner: Type) -> (node: PtrType)
        ensures
            node == (PtrType { inner }),
    {
        PtrType { inner }
    }
}

impl RefType {
    /// The value made of the given parts.
    pub fn new(inner: Type) -> (node: RefType)
        ensures
            node == (RefType { inner }),
    {
        RefType { inner }
    }
}

impl RefExpr {
    /// The value made of the given parts.
    pub fn new_with_id(identifier: Identifier, inner: Expr) -> (node: RefExpr)
        ensures
            node == (RefExpr { identifier, inner }),
    {
        RefExpr { identifier, inner }
    }

    /// The node with a fresh identity.
    pub fn new(alloc: &mut IdAllocator, inner: Expr) -> (node: RefExpr)
        ensures
            node.identifier@ == (IdentifierView { id: old(alloc).spec_next(), name: Seq::empty() }),
            node.inner == inner,
            final(alloc).follows(*old(alloc)),
    {
        let identifier = Identifier::id(alloc);
        RefExpr { identifier, inner }
    }
}

impl StructExpr {
    /// The value made of the given parts.
    pub fn new(elements: Vec<(Variable, Expr)>, ty: Type) -> (node: StructExpr)
        ensures
            node == (StructExpr { elements, ty }),
    {
        StructExpr { elements, ty }
    }
}

impl StructType {
    /// The value made of the given parts.
    pub fn new(symbol: Symbol, params: Types, elements: Variables) -> (node: StructType)
        ensures
            node == (StructType { symbol, params, elements }),
    {
        StructType { symbol, params, elements }
    }
}

impl Variable {
    /// The value made of the given parts.
    pub fn new(symbol: Symbol, ty: Type) -> (node: Variable)
        ensures
            node == (Variable { symbol, ty }),
    {
        Variable { symbol, ty }
    }
}

impl VariableExpr {
    /// The value made of the given parts.
    pub fn new(variable: Variable, parent: Exprs) -> (node: VariableExpr)
        ensures
            node == (VariableExpr { variable, parent }),
    {
        VariableExpr { variable, parent }
    }
}

impl VoidExpr {
    /// The value made of the given parts.
    pub fn new_with_id(identifier: Identifier) -> (node: VoidExpr)
        ensures
            node == (VoidExpr { identifier }),
    {
        VoidExpr { identifier }
    }

    /// The node with a fresh identity.
    pub fn new(alloc: &mut IdAllocator) -> (node: VoidExpr)
        ensures
            node.identifier@ == (IdentifierView { id: old(alloc).spec_next(), name: Seq::empty() }),
            final(alloc).follows(*old(alloc)),
    {
        let identifier = Identifier::id(alloc);
        VoidExpr { identifier }
    }
}

impl Identify for AliasType {
    open spec fn spec_identify(&self) -> IdentifierView {
        self.symbol@
    }

    fn identify(&self) -> (identifier: Identifier) {
        self.symbol.identify()
    }
}

impl Symbolise for AliasType {
    open spec fn spec_symbolise(&self) -> IdentifierView {
        self.symbol@
    }

    fn symbolise(&self) -> (symbol: Symbol) {
        self.symbol.clone()
    }
}

impl Identify for BlockExpr {
    open spec fn spec_identify(&self) -> IdentifierView {
        self.identifier@
    }

    fn identify(&self) -> (identifier: Identifier) {
        self.identifier.clone()
    }
}

impl Identify for CallExpr {
    open spec fn spec_identify(&self) -> IdentifierView {
        self.identifier@
    }

    fn identify(&self) -> (identifier: Identifier) {
        self.identifier.clone()
    }
}

impl Identify for DerefExpr {
    open spec fn spec_identify(&self) -> IdentifierView {
        self.identifier@
    }

    fn identify(&self) -> (identifier: Identifier) {
        self.identifier.clone()
    }
}

impl Identify for ForExpr {
    open spec fn spec_identify(&self) -> IdentifierView {
        self.identifier@
    }

    fn identify(&self) -> (identifier: Identifier) {
        self.identifier.clone()
    }
}

impl Identify for Function {
    open spec fn spec_identify(&self) -> IdentifierView {
        self.symbol@
    }

    fn identify(&self) -> (identifier: Identifier) {
        self.symbol.identify()
    }
}

impl Symbolise for Function {
    open spec fn spec_symbolise(&self) -> IdentifierView {
        self.symbol@
    }

    fn symbolise(&self) -> (symbol: Symbol) {
        self.symbol.clone()
    }
}

impl Identify for IfExpr {
    open spec fn spec_identify(&self) -> IdentifierView {
        self.identifier@
    }

    fn identify(&self) -> (identifier: Identifier) {
        self.identifier.clone()
    }
}

impl Identify for ItemExpr {
    open spec fn spec_identify(&self) -> IdentifierView {
        self.identifier@
    }

    fn identify(&self) -> (identifier: Identifier) {
        self.identifier.clone()
    }
}

impl Identify for LetExpr {
    open spec fn spec_identify(&self) -> IdentifierView {
        self.identifier@
    }

    fn identify(&self) -> (identifier: Identifier) {
        self.identifier.clone()
    }
}

impl Identify for LiteralExpr {
    open spec fn spec_identify(&self) -> IdentifierView {
        self.identifier@
    }

    fn identify(&self) -> (identifier: Identifier) {
        self.identifier.clone()
    }
}

impl Identify for Module {
    open spec fn spec_identify(&self) -> IdentifierView {
        self.symbol@
    }

    fn identify(&self) -> (identifier: Identifier) {
        self.symbol.identify()
    }
}

impl Symbolise for Module {
    open spec fn spec_symbolise(&self) -> IdentifierView {
        self.symbol@
    }

    fn symbolise(&self) -> (symbol: Symbol) {
        self.symbol.clone()
    }
}

impl Identify for ProcessExpr {
    open spec fn spec_identify(&self) -> IdentifierView {
        self.identifier@
    }

    fn identify(&self) -> (identifier: Identifier) {
        self.identifier.clone()
    }
}

impl Identify for ProcessJoinExpr {
    open spec fn spec_identify(&self) -> IdentifierView {
        self.identifier@
    }

    fn identify(&self) -> (identifier: Identifier) {
        self.identifier.clone()
    }
}

impl Identify for RefExpr {
    open spec fn spec_identify(&self) -> IdentifierView {
        self.identifier@
    }

    fn identify(&self) -> (identifier: Identifier) {
        self.identifier.clone()
    }
}

impl Identify for Variable {
    open spec fn spec_identify(&self) -> IdentifierView {
        self.symbol@
    }

    fn identify(&self) -> (identifier: Identifier) {
        self.symbol.identify()
    }
}

impl Symbolise for Variable {
    open spec fn spec_symbolise(&self) -> IdentifierView {
        self.symbol@
    }

    fn symbolise(&self) -> (symbol: Symbol) {
        self.symbol.clone()
    }
}

impl Identify for VoidExpr {
    open spec fn spec_identify(&self) -> IdentifierView {
        self.identifier@
    }

    fn identify(&self) -> (identifier: Identifier) {
        self.identifier.clone()
    }
}

} // verus!
