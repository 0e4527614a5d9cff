//! # Abstract Syntax Tree
//!
//! The abstract syntax tree (AST) is an intermediate representation of the
//! raw input after it has been tokenised and parsed. The AST may only be
//! partially complete with respect to the raw input, because there may be
//! errors in the raw input.

pub mod decl;
pub mod visitor;

use vstd::prelude::*;
use vstd::std_specs::convert::FromSpecImpl;
use crate::bair::PrimitiveType;
use crate::identifier::{Identifier, Symbol};
use crate::lexer::span::{Span, SpanView, Spanned};

verus! {

/// A row of expressions.
pub type Exprs = Vec<Expr>;

/// A row of symbols.
pub type Symbols = Vec<Symbol>;

/// A row of types.
pub type Types = Vec<Type>;

/// A row of formals.
pub type FunctionFormals = Vec<FunctionFormal>;

/// A row of declarations.
pub type Statements = Vec<Statement>;

/// What the parser hands on: an expression, a module, or nothing.
#[derive(Debug, PartialEq)]
pub enum Ast {
    Expr(Expr),
    Module(ModuleDecl),
    Nil,
}

/// An expression of the source.
#[derive(Debug, PartialEq)]
pub enum Expr {
    Assign(Box<AssignExpr>),
    Block(Box<BlockExpr>),
    Call(Box<CallExpr>),
    Channel(Box<ChannelExpr>),
    Deref(Box<DerefExpr>),
    For(Box<ForExpr>),
    If(Box<IfExpr>),
    Item(Box<ItemExpr>),
    List(Box<ListExpr>),
    ListRange(Box<ListRangeExpr>),
    Literal(Box<LiteralExpr>),
    Operator(Box<OperatorExpr>),
    Ref(Box<RefExpr>),
    Select(Box<SelectExpr>),
    Tuple(Box<TupleExpr>),
    Void(Box<VoidExpr>),
}

/// A literal of the source. A floating point literal is kept as its digits.
#[derive(Debug, PartialEq)]
pub enum LiteralExpr {
    Bool(bool, Span),
    Char(char, Span),
    Float(String, Span),
    Int(i64, Span),
    Str(String, Span),
}

/// An expression made with an operator.
#[derive(Debug, PartialEq)]
pub enum OperatorExpr {
    Binary(Box<BinaryOperatorExpr>),
    Prefix(Box<PrefixOperatorExpr>),
    Suffix(Box<SuffixOperatorExpr>),
}

/// An operator of the source, with the span of its token.
#[derive(Debug, PartialEq)]
pub enum Operator {
    Add(Span),
    AddEq(Span),
    And(Span),
    Assign(Span),
    Div(Span),
    DivEq(Span),
    Equal(Span),
    GreaterThan(Span),
    GreaterThanEq(Span),
    LessThan(Span),
    LessThanEq(Span),
    Mul(Span),
    MulEq(Span),
    Or(Span),
    PushPop(Span),
    Sub(Span),
    SubEq(Span),
}

/// Which operator an `Operator` is, without its span.
#[derive(Clone, Copy, Debug, PartialEq, Eq, Structural)]
pub enum OperatorKind {
    Add,
    AddEq,
    And,
    Assign,
    Div,
    DivEq,
    Equal,
    GreaterThan,
    GreaterThanEq,
    LessThan,
    LessThanEq,
    Mul,
    MulEq,
    Or,
    PushPop,
    Sub,
    SubEq,
}

/// A type as the source writes it.
#[derive(Debug, PartialEq)]
pub enum Type {
    Lambda(Box<LambdaType>),
    Primitive(PrimitiveType),
    Ptr(Box<PtrType>),
    Ref(Box<RefType>),
    Struct(Box<StructType>),
    Unresolved(Box<UnresolvedType>),
}

/// A formal of a function, or an element of a structure: a new name and
/// its type.
#[derive(Debug, PartialEq)]
pub struct FunctionFormal {
    pub symbol: Symbol,
    pub is_mut: bool,
    pub is_ref: bool,
    pub ty: Type,
}

impl FunctionFormal {
    /// The formal made of the given parts.
    pub fn new(symbol: Symbol, is_mut: bool, is_ref: bool, ty: Type) -> (formal: FunctionFormal)
        ensures
            formal == (FunctionFormal { symbol, is_mut, is_ref, ty }),
    {
        FunctionFormal { symbol, is_mut, is_ref, ty }
    }
}

/// A declaration inside a module.
#[derive(Debug, PartialEq)]
pub enum Statement {
    Function(FunctionDecl),
    Module(ModuleDecl),
    Type(TypeDecl),
}

/// What a declared type is: another name for a type, an enumeration of
/// variants, or a structure of elements.
#[derive(Debug, PartialEq)]
pub enum TypeDeclKind {
    Alias(Type),
    Enum(FunctionFormals),
    Struct(FunctionFormals),
}

/// A definition: `symbol := rhs`, with the type of the new variable where
/// the source gives one.
#[derive(Debug, PartialEq)]
pub struct AssignExpr {
    pub symbol: Symbol,
    pub ty: Option<Type>,
    pub rhs: Expr,
    pub span: Span,
}

impl AssignExpr {
    /// The node made of the given parts.
    pub fn new(symbol: Symbol, ty: Option<Type>, rhs: Expr, span: Span) -> (node: AssignExpr)
        ensures
            node == (AssignExpr { symbol, ty, rhs, span }),
    {
        AssignExpr { symbol, ty, rhs, span }
    }
}

impl AssignExpr {
    /// The span of this node.
    pub open spec fn span_of(&self) -> Span {
        self.span
    }
}

impl Spanned for AssignExpr {
    open spec fn spec_span(&self) -> SpanView {
        self.span@
    }

    fn span(&self) -> (span: &Span)
        ensures
            *span == self.span_of(),
    {
        &self.span
    }

    fn span_mut(&mut self) -> (span: &mut Span) {
        &mut self.span
    }
}

/// A block: expressions in a row, and the expression whose value is the
/// block's.
#[derive(Debug, PartialEq)]
pub struct BlockExpr {
    pub body: Exprs,
    pub ret: Expr,
    pub span: Span,
}

impl BlockExpr {
    /// The node made of the given parts.
    pub fn new(body: Exprs, ret: Expr, span: Span) -> (node: BlockExpr)
        ensures
            node == (BlockExpr { body, ret, span }),
    {
        BlockExpr { body, ret, span }
    }
}

impl BlockExpr {
    /// The span of this node.
    pub open spec fn span_of(&self) -> Span {
        self.span
    }
}

impl Spanned for BlockExpr {
    open spec fn spec_span(&self) -> SpanView {
        self.span@
    }

    fn span(&self) -> (span: &Span)
        ensures
            *span == self.span_of(),
    {
        &self.span
    }

    fn span_mut(&mut self) -> (span: &mut Span) {
        &mut self.span
    }
}

/// A call of a target with arguments.
#[derive(Debug, PartialEq)]
pub struct CallExpr {
    pub target: Expr,
    pub arguments: Exprs,
    pub span: Span,
}

impl CallExpr {
    /// The node made of the given parts.
    pub fn new(target: Expr, arguments: Exprs, span: Span) -> (node: CallExpr)
        ensures
            node == (CallExpr { target, arguments, span }),
    {
        CallExpr { target, arguments, span }
    }
}

impl CallExpr {
    /// The span of this node.
    pub open spec fn span_of(&self) -> Span {
        self.span
    }
}

impl Spanned for CallExpr {
    open spec fn spec_span(&self) -> SpanView {
        self.span@
    }

    fn span(&self) -> (span: &Span)
        ensures
            *span == self.span_of(),
    {
        &self.span
    }

    fn span_mut(&mut self) -> (span: &mut Span) {
        &mut self.span
    }
}

/// A channel literal, made of two expressions.
#[derive(Debug, PartialEq)]
pub struct ChannelExpr {
    pub lhs: Expr,
    pub rhs: Expr,
    pub span: Span,
}

impl ChannelExpr {
    /// The node made of the given parts.
    pub fn new(lhs: Expr, rhs: Expr, span: Span) -> (node: ChannelExpr)
        ensures
            node == (ChannelExpr { lhs, rhs, span }),
    {
        ChannelExpr { lhs, rhs, span }
    }
}

impl ChannelExpr {
    /// The span of this node.
    pub open spec fn span_of(&self) -> Span {
        self.span
    }
}

impl Spanned for ChannelExpr {
    open spec fn spec_span(&self) -> SpanView {
        self.span@
    }

    fn span(&self) -> (span: &Span)
        ensures
            *span == self.span_of(),
    {
        &self.span
    }

    fn span_mut(&mut self) -> (span: &mut Span) {
        &mut self.span
    }
}

/// A dereference.
#[derive(Debug, PartialEq)]
pub struct DerefExpr {
    pub inner: Expr,
    pub span: Span,
}

impl DerefExpr {
    /// The node made of the given parts.
    pub fn new(inner: Expr, span: Span) -> (node: DerefExpr)
        ensures
            node == (DerefExpr { inner, span }),
    {
        DerefExpr { inner, span }
    }
}

impl DerefExpr {
    /// The span of this node.
    pub open spec fn span_of(&self) -> Span {
        self.span
    }
}

impl Spanned for DerefExpr {
    open spec fn spec_span(&self) -> SpanView {
        self.span@
    }

    fn span(&self) -> (span: &Span)
        ensures
            *span == self.span_of(),
    {
        &self.span
    }

    fn span_mut(&mut self) -> (span: &mut Span) {
        &mut self.span
    }
}

/// A loop over an iterator, with the variables that it binds in each
/// iteration.
#[derive(Debug, PartialEq)]
pub struct ForExpr {
    pub formals: Symbols,
    pub iterator: Expr,
    pub iteration: BlockExpr,
    pub span: Span,
}

impl ForExpr {
    /// The node made of the given parts.
    pub fn new(
        formals: Symbols,
        iterator: Expr,
        iteration: BlockExpr,
        span: Span,
    ) -> (node: ForExpr)
        ensures
            node == (ForExpr { formals, iterator, iteration, span }),
    {
        ForExpr { formals, iterator, iteration, span }
    }
}

impl ForExpr {
    /// The span of this node.
    pub open spec fn span_of(&self) -> Span {
        self.span
    }
}

impl Spanned for ForExpr {
    open spec fn spec_span(&self) -> SpanView {
        self.span@
    }

    fn span(&self) -> (span: &Span)
        ensures
            *span == self.span_of(),
    {
        &self.span
    }

    fn span_mut(&mut self) -> (span: &mut Span) {
        &mut self.span
    }
}

/// A conditional with both branches.
#[derive(Debug, PartialEq)]
pub struct IfExpr {
    pub condition: Expr,
    pub then_block: BlockExpr,
    pub else_block: BlockExpr,
    pub span: Span,
}

impl IfExpr {
    /// The node made of the given parts.
    pub fn new(
        condition: Expr,
        then_block: BlockExpr,
        else_block: BlockExpr,
        span: Span,
    ) -> (node: IfExpr)
        ensures
            node == (IfExpr { condition, then_block, else_block, span }),
    {
        IfExpr { condition, then_block, else_block, span }
    }
}

impl IfExpr {
    /// The span of this node.
    pub open spec fn span_of(&self) -> Span {
        self.span
    }
}

impl Spanned for IfExpr {
    open spec fn spec_span(&self) -> SpanView {
        self.span@
    }

    fn span(&self) -> (span: &Span)
        ensures
            *span == self.span_of(),
    {
        &self.span
    }

    fn span_mut(&mut self) -> (span: &mut Span) {
        &mut self.span
    }
}

/// A use of a name. The name may be qualified by a path of modules, the
/// outermost first.
#[derive(Debug, PartialEq)]
pub struct ItemExpr {
    pub qualifier: Symbols,
    pub symbol: Symbol,
    pub span: Span,
}

impl ItemExpr {
    /// The node made of the given parts.
    pub fn new(qualifier: Symbols, symbol: Symbol, span: Span) -> (node: ItemExpr)
        ensures
            node == (ItemExpr { qualifier, symbol, span }),
    {
        ItemExpr { qualifier, symbol, span }
    }
}

impl ItemExpr {
    /// The span of this node.
    pub open spec fn span_of(&self) -> Span {
        self.span
    }
}

impl Spanned for ItemExpr {
    open spec fn spec_span(&self) -> SpanView {
        self.span@
    }

    fn span(&self) -> (span: &Span)
        ensures
            *span == self.span_of(),
    {
        &self.span
    }

    fn span_mut(&mut self) -> (span: &mut Span) {
        &mut self.span
    }
}

/// A list literal.
#[derive(Debug, PartialEq)]
pub struct ListExpr {
    pub elements: Exprs,
    pub span: Span,
}

impl ListExpr {
    /// The node made of the given parts.
    pub fn new(elements: Exprs, span: Span) -> (node: ListExpr)
        ensures
            node == (ListExpr { elements, span }),
    {
        ListExpr { elements, span }
    }
}

impl ListExpr {
    /// The span of this node.
    pub open spec fn span_of(&self) -> Span {
        self.span
    }
}

impl Spanned for ListExpr {
    open spec fn spec_span(&self) -> SpanView {
        self.span@
    }

    fn span(&self) -> (span: &Span)
        ensures
            *span == self.span_of(),
    {
        &self.span
    }

    fn span_mut(&mut self) -> (span: &mut Span) {
        &mut self.span
    }
}

/// A list literal given by its first and last element.
#[derive(Debug, PartialEq)]
pub struct ListRangeExpr {
    pub first: Expr,
    pub last: Expr,
    pub span: Span,
}

impl ListRangeExpr {
    /// The node made of the given parts.
    pub fn new(first: Expr, last: Expr, span: Span) -> (node: ListRangeExpr)
        ensures
            node == (ListRangeExpr { first, last, span }),
    {
        ListRangeExpr { first, last, span }
    }
}

impl ListRangeExpr {
    /// The span of this node.
    pub open spec fn span_of(&self) -> Span {
        self.span
    }
}

impl Spanned for ListRangeExpr {
    open spec fn spec_span(&self) -> SpanView {
        self.span@
    }

    fn span(&self) -> (span: &Span)
        ensures
            *span == self.span_of(),
    {
        &self.span
    }

    fn span_mut(&mut self) -> (span: &mut Span) {
        &mut self.span
    }
}

/// An operator between two operands.
#[derive(Debug, PartialEq)]
pub struct BinaryOperatorExpr {
    pub operator: Operator,
    pub lhs: Expr,
    pub rhs: Expr,
    pub span: Span,
}

impl BinaryOperatorExpr {
    /// The node made of the given parts.
    pub fn new(operator: Operator, lhs: Expr, rhs: Expr, span: Span) -> (node: BinaryOperatorExpr)
        ensures
            node == (BinaryOperatorExpr { operator, lhs, rhs, span }),
    {
        BinaryOperatorExpr { operator, lhs, rhs, span }
    }
}

impl BinaryOperatorExpr {
    /// The span of this node.
    pub open spec fn span_of(&self) -> Span {
        self.span
    }
}

impl Spanned for BinaryOperatorExpr {
    open spec fn spec_span(&self) -> SpanView {
        self.span@
    }

    fn span(&self) -> (span: &Span)
        ensures
            *span == self.span_of(),
    {
        &self.span
    }

    fn span_mut(&mut self) -> (span: &mut Span) {
        &mut self.span
    }
}

/// An operator before its operand.
#[derive(Debug, PartialEq)]
pub struct PrefixOperatorExpr {
    pub operator: Operator,
    pub rhs: Expr,
    pub span: Span,
}

impl PrefixOperatorExpr {
    /// The node made of the given parts.
    pub fn new(operator: Operator, rhs: Expr, span: Span) -> (node: PrefixOperatorExpr)
        ensures
            node == (PrefixOperatorExpr { operator, rhs, span }),
    {
        PrefixOperatorExpr { operator, rhs, span }
    }
}

impl PrefixOperatorExpr {
    /// The span of this node.
    pub open spec fn span_of(&self) -> Span {
        self.span
    }
}

impl Spanned for PrefixOperatorExpr {
    open spec fn spec_span(&self) -> SpanView {
        self.span@
    }

    fn span(&self) -> (span: &Span)
        ensures
            *span == self.span_of(),
    {
        &self.span
    }

    fn span_mut(&mut self) -> (span: &mut Span) {
        &mut self.span
    }
}

/// An operator after its operand.
#[derive(Debug, PartialEq)]
pub struct SuffixOperatorExpr {
    pub operator: Operator,
    pub lhs: Expr,
    pub span: Span,
}

impl SuffixOperatorExpr {
    /// The node made of the given parts.
    pub fn new(operator: Operator, lhs: Expr, span: Span) -> (node: SuffixOperatorExpr)
        ensures
            node == (SuffixOperatorExpr { operator, lhs, span }),
    {
        SuffixOperatorExpr { operator, lhs, span }
    }
}

impl SuffixOperatorExpr {
    /// The span of this node.
    pub open spec fn span_of(&self) -> Span {
        self.span
    }
}

impl Spanned for SuffixOperatorExpr {
    open spec fn spec_span(&self) -> SpanView {
        self.span@
    }

    fn span(&self) -> (span: &Span)
        ensures
            *span == self.span_of(),
    {
        &self.span
    }

    fn span_mut(&mut self) -> (span: &mut Span) {
        &mut self.span
    }
}

/// A reference to the value of an expression.
#[derive(Debug, PartialEq)]
pub struct RefExpr {
    pub inner: Expr,
    pub span: Span,
}

impl RefExpr {
    /// The node made of the given parts.
    pub fn new(inner: Expr, span: Span) -> (node: RefExpr)
        ensures
            node == (RefExpr { inner, span }),
    {
        RefExpr { inner, span }
    }
}

impl RefExpr {
    /// The span of this node.
    pub open spec fn span_of(&self) -> Span {
        self.span
    }
}

impl Spanned for RefExpr {
    open spec fn spec_span(&self) -> SpanView {
        self.span@
    }

    fn span(&self) -> (span: &Span)
        ensures
            *span == self.span_of(),
    {
        &self.span
    }

    fn span_mut(&mut self) -> (span: &mut Span) {
        &mut self.span
    }
}

/// A selection among alternatives.
#[derive(Debug, PartialEq)]
pub struct SelectExpr {
    pub alternatives: Exprs,
    pub span: Span,
}

impl SelectExpr {
    /// The node made of the given parts.
    pub fn new(alternatives: Exprs, span: Span) -> (node: SelectExpr)
        ensures
            node == (SelectExpr { alternatives, span }),
    {
        SelectExpr { alternatives, span }
    }
}

impl SelectExpr {
    /// The span of this node.
    pub open spec fn span_of(&self) -> Span {
        self.span
    }
}

impl Spanned for SelectExpr {
    open spec fn spec_span(&self) -> SpanView {
        self.span@
    }

    fn span(&self) -> (span: &Span)
        ensures
            *span == self.span_of(),
    {
        &self.span
    }

    fn span_mut(&mut self) -> (span: &mut Span) {
        &mut self.span
    }
}

/// A tuple of values.
#[derive(Debug, PartialEq)]
pub struct TupleExpr {
    pub elements: Exprs,
    pub span: Span,
}

impl TupleExpr {
    /// The node made of the given parts.
    pub fn new(elements: Exprs, span: Span) -> (node: TupleExpr)
        ensures
            node == (TupleExpr { elements, span }),
    {
        TupleExpr { elements, span }
    }
}

impl TupleExpr {
    /// The span of this node.
    pub open spec fn span_of(&self) -> Span {
        self.span
    }
}

impl Spanned for TupleExpr {
    open spec fn spec_span(&self) -> SpanView {
        self.span@
    }

    fn span(&self) -> (span: &Span)
        ensures
            *span == self.span_of(),
    {
        &self.span
    }

    fn span_mut(&mut self) -> (span: &mut Span) {
        &mut self.span
    }
}

/// The expression without a value.
#[derive(Debug, PartialEq)]
pub struct VoidExpr {
    pub span: Span,
}

impl VoidExpr {
    /// The node made of the given parts.
    pub fn new(span: Span) -> (node: VoidExpr)
        ensures
            node == (VoidExpr { span }),
    {
        VoidExpr { span }
    }
}

impl VoidExpr {
    /// The span of this node.
    pub open spec fn span_of(&self) -> Span {
        self.span
    }
}

impl Spanned for VoidExpr {
    open spec fn spec_span(&self) -> SpanView {
        self.span@
    }

    fn span(&self) -> (span: &Span)
        ensures
            *span == self.span_of(),
    {
        &self.span
    }

    fn span_mut(&mut self) -> (span: &mut Span) {
        &mut self.span
    }
}

/// A type given by name. The name may be qualified by a path of modules, the
/// outermost first.
#[derive(Debug, PartialEq)]
pub struct UnresolvedType {
    pub qualifier: Symbols,
    pub symbol: Symbol,
    pub span: Span,
}

impl UnresolvedType {
    /// The node made of the given parts.
    pub fn new(qualifier: Symbols, symbol: Symbol, span: Span) -> (node: UnresolvedType)
        ensures
            node == (UnresolvedType { qualifier, symbol, span }),
    {
        UnresolvedType { qualifier, symbol, span }
    }
}

impl UnresolvedType {
    /// The span of this node.
    pub open spec fn span_of(&self) -> Span {
        self.span
    }
}

impl Spanned for UnresolvedType {
    open spec fn spec_span(&self) -> SpanView {
        self.span@
    }

    fn span(&self) -> (span: &Span)
        ensures
            *span == self.span_of(),
    {
        &self.span
    }

    fn span_mut(&mut self) -> (span: &mut Span) {
        &mut self.span
    }
}

/// The type of a function.
#[derive(Debug, PartialEq)]
pub struct LambdaType {
    pub formals: Types,
    pub ret: Type,
    pub span: Span,
}

impl LambdaType {
    /// The node made of the given parts.
    pub fn new(formals: Types, ret: Type, span: Span) -> (node: LambdaType)
        ensures
            node == (LambdaType { formals, ret, span }),
    {
        LambdaType { formals, ret, span }
    }
}

impl LambdaType {
    /// The span of this node.
    pub open spec fn span_of(&self) -> Span {
        self.span
    }
}

impl Spanned for LambdaType {
    open spec fn spec_span(&self) -> SpanView {
        self.span@
    }

    fn span(&self) -> (span: &Span)
        ensures
            *span == self.span_of(),
    {
        &self.span
    }

    fn span_mut(&mut self) -> (span: &mut Span) {
        &mut self.span
    }
}

/// The type of a pointer.
#[derive(Debug, PartialEq)]
pub struct PtrType {
    pub inner: Type,
    pub span: Span,
}

impl PtrType {
    /// The node made of the given parts.
    pub fn new(inner: Type, span: Span) -> (node: PtrType)
        ensures
            node == (PtrType { inner, span }),
    {
        PtrType { inner, span }
    }
}

impl PtrType {
    /// The span of this node.
    pub open spec fn span_of(&self) -> Span {
        self.span
    }
}

impl Spanned for PtrType {
    open spec fn spec_span(&self) -> SpanView {
        self.span@
    }

    fn span(&self) -> (span: &Span)
        ensures
            *span == self.span_of(),
    {
        &self.span
    }

    fn span_mut(&mut self) -> (span: &mut Span) {
        &mut self.span
    }
}

/// The type of a reference.
#[derive(Debug, PartialEq)]
pub struct RefType {
    pub inner: Type,
    pub span: Span,
}

impl RefType {
    /// The node made of the given parts.
    pub fn new(inner: Type, span: Span) -> (node: RefType)
        ensures
            node == (RefType { inner, span }),
    {
        RefType { inner, span }
    }
}

impl RefType {
    /// The span of this node.
    pub open spec fn span_of(&self) -> Span {
        self.span
    }
}

impl Spanned for RefType {
    open spec fn spec_span(&self) -> SpanView {
        self.span@
    }

    fn span(&self) -> (span: &Span)
        ensures
            *span == self.span_of(),
    {
        &self.span
    }

    fn span_mut(&mut self) -> (span: &mut Span) {
        &mut self.span
    }
}

/// The type of a structure, by its elements.
#[derive(Debug, PartialEq)]
pub struct StructType {
    pub elements: FunctionFormals,
    pub span: Span,
}

impl StructType {
    /// The node made of the given parts.
    pub fn new(elements: FunctionFormals, span: Span) -> (node: StructType)
        ensures
            node == (StructType { elements, span }),
    {
        StructType { elements, span }
    }
}

impl StructType {
    /// The span of this node.
    pub open spec fn span_of(&self) -> Span {
        self.span
    }
}

impl Spanned for StructType {
    open spec fn spec_span(&self) -> SpanView {
        self.span@
    }

    fn span(&self) -> (span: &Span)
        ensures
            *span == self.span_of(),
    {
        &self.span
    }

    fn span_mut(&mut self) -> (span: &mut Span) {
        &mut self.span
    }
}

/// The declaration of a function. An extern function has no body.
#[derive(Debug, PartialEq)]
pub struct FunctionDecl {
    pub is_extern: bool,
    pub formals: FunctionFormals,
    pub symbol: Symbol,
    pub ret: Type,
    pub body: Option<Expr>,
    pub span: Span,
}

impl FunctionDecl {
    /// The node made of the given parts.
    pub fn new(
        is_extern: bool,
        formals: FunctionFormals,
        symbol: Symbol,
        ret: Type,
        body: Option<Expr>,
        span: Span,
    ) -> (node: FunctionDecl)
        ensures
            node == (FunctionDecl { is_extern, formals, symbol, ret, body, span }),
    {
        FunctionDecl { is_extern, formals, symbol, ret, body, span }
    }
}

impl FunctionDecl {
    /// The span of this node.
    pub open spec fn span_of(&self) -> Span {
        self.span
    }
}

impl Spanned for FunctionDecl {
    open spec fn spec_span(&self) -> SpanView {
        self.span@
    }

    fn span(&self) -> (span: &Span)
        ensures
            *span == self.span_of(),
    {
        &self.span
    }

    fn span_mut(&mut self) -> (span: &mut Span) {
        &mut self.span
    }
}

/// The declaration of a module, with the declarations in it.
#[derive(Debug, PartialEq)]
pub struct ModuleDecl {
    pub identifier: Identifier,
    pub statements: Statements,
    pub span: Span,
}

impl ModuleDecl {
    /// The node made of the given parts.
    pub fn new(identifier: Identifier, statements: Statements, span: Span) -> (node: ModuleDecl)
        ensures
            node == (ModuleDecl { identifier, statements, span }),
    {
        ModuleDecl { identifier, statements, span }
    }
}

impl ModuleDecl {
    /// The span of this node.
    pub open spec fn span_of(&self) -> Span {
        self.span
    }
}

impl Spanned for ModuleDecl {
    open spec fn spec_span(&self) -> SpanView {
        self.span@
    }

    fn span(&self) -> (span: &Span)
        ensures
            *span == self.span_of(),
    {
        &self.span
    }

    fn span_mut(&mut self) -> (span: &mut Span) {
        &mut self.span
    }
}

/// The declaration of a type.
#[derive(Debug, PartialEq)]
pub struct TypeDecl {
    pub symbol: Symbol,
    pub params: Symbols,
    pub kind: TypeDeclKind,
    pub span: Span,
}

impl TypeDecl {
    /// The node made of the given parts.
    pub fn new(symbol: Symbol, params: Symbols, kind: TypeDeclKind, span: Span) -> (node: TypeDecl)
        ensures
            node == (TypeDecl { symbol, params, kind, span }),
    {
        TypeDecl { symbol, params, kind, span }
    }
}

impl TypeDecl {
    /// The span of this node.
    pub open spec fn span_of(&self) -> Span {
        self.span
    }
}

impl Spanned for TypeDecl {
    open spec fn spec_span(&self) -> SpanView {
        self.span@
    }

    fn span(&self) -> (span: &Span)
        ensures
            *span == self.span_of(),
    {
        &self.span
    }

    fn span_mut(&mut self) -> (span: &mut Span) {
        &mut self.span
    }
}

impl Expr {
    /// The span of this node.
    pub open spec fn span_of(&self) -> Span {
        match self {
            Expr::Assign(e) => e.span_of(),
            Expr::Block(e) => e.span_of(),
            Expr::Call(e) => e.span_of(),
            Expr::Channel(e) => e.span_of(),
            Expr::Deref(e) => e.span_of(),
            Expr::For(e) => e.span_of(),
            Expr::If(e) => e.span_of(),
            Expr::Item(e) => e.span_of(),
            Expr::List(e) => e.span_of(),
            Expr::ListRange(e) => e.span_of(),
            Expr::Literal(e) => e.span_of(),
            Expr::Operator(e) => e.span_of(),
            Expr::Ref(e) => e.span_of(),
            Expr::Select(e) => e.span_of(),
            Expr::Tuple(e) => e.span_of(),
            Expr::Void(e) => e.span_of(),
        }
    }
}

impl Spanned for Expr {
    open spec fn spec_span(&self) -> SpanView {
        match self {
            Expr::Assign(e) => e.spec_span(),
            Expr::Block(e) => e.spec_span(),
            Expr::Call(e) => e.spec_span(),
            Expr::Channel(e) => e.spec_span(),
            Expr::Deref(e) => e.spec_span(),
            Expr::For(e) => e.spec_span(),
            Expr::If(e) => e.spec_span(),
            Expr::Item(e) => e.spec_span(),
            Expr::List(e) => e.spec_span(),
            Expr::ListRange(e) => e.spec_span(),
            Expr::Literal(e) => e.spec_span(),
            Expr::Operator(e) => e.spec_span(),
            Expr::Ref(e) => e.spec_span(),
            Expr::Select(e) => e.spec_span(),
            Expr::Tuple(e) => e.spec_span(),
            Expr::Void(e) => e.spec_span(),
        }
    }

    fn span(&self) -> (span: &Span)
        ensures
            *span == self.span_of(),
            self.spec_span() == self.span_of()@,
    {
        match self {
            Expr::Assign(e) => e.span(),
            Expr::Block(e) => e.span(),
            Expr::Call(e) => e.span(),
            Expr::Channel(e) => e.span(),
            Expr::Deref(e) => e.span(),
            Expr::For(e) => e.span(),
            Expr::If(e) => e.span(),
            Expr::Item(e) => e.span(),
            Expr::List(e) => e.span(),
            Expr::ListRange(e) => e.span(),
            Expr::Literal(e) => e.span(),
            Expr::Operator(e) => e.span(),
            Expr::Ref(e) => e.span(),
            Expr::Select(e) => e.span(),
            Expr::Tuple(e) => e.span(),
            Expr::Void(e) => e.span(),
        }
    }

    fn span_mut(&mut self) -> (span: &mut Span) {
        match self {
            Expr::Assign(e) => e.span_mut(),
            Expr::Block(e) => e.span_mut(),
            Expr::Call(e) => e.span_mut(),
            Expr::Channel(e) => e.span_mut(),
            Expr::Deref(e) => e.span_mut(),
            Expr::For(e) => e.span_mut(),
            Expr::If(e) => e.span_mut(),
            Expr::Item(e) => e.span_mut(),
            Expr::List(e) => e.span_mut(),
            Expr::ListRange(e) => e.span_mut(),
            Expr::Literal(e) => e.span_mut(),
            Expr::Operator(e) => e.span_mut(),
            Expr::Ref(e) => e.span_mut(),
            Expr::Select(e) => e.span_mut(),
            Expr::Tuple(e) => e.span_mut(),
            Expr::Void(e) => e.span_mut(),
        }
    }
}

impl LiteralExpr {
    /// The span of this node.
    pub open spec fn span_of(&self) -> Span {
        match self {
            LiteralExpr::Bool(_, span) => *span,
            LiteralExpr::Char(_, span) => *span,
            LiteralExpr::Float(_, span) => *span,
            LiteralExpr::Int(_, span) => *span,
            LiteralExpr::Str(_, span) => *span,
        }
    }
}

impl Spanned for LiteralExpr {
    open spec fn spec_span(&self) -> SpanView {
        match self {
            LiteralExpr::Bool(_, span) => span@,
            LiteralExpr::Char(_, span) => span@,
            LiteralExpr::Float(_, span) => span@,
            LiteralExpr::Int(_, span) => span@,
            LiteralExpr::Str(_, span) => span@,
        }
    }

    fn span(&self) -> (span: &Span)
        ensures
            *span == self.span_of(),
            self.spec_span() == self.span_of()@,
    {
        match self {
            LiteralExpr::Bool(_, span) => span,
            LiteralExpr::Char(_, span) => span,
            LiteralExpr::Float(_, span) => span,
            LiteralExpr::Int(_, span) => span,
            LiteralExpr::Str(_, span) => span,
        }
    }

    fn span_mut(&mut self) -> (span: &mut Span) {
        match self {
            LiteralExpr::Bool(_, span) => span,
            LiteralExpr::Char(_, span) => span,
            LiteralExpr::Float(_, span) => span,
            LiteralExpr::Int(_, span) => span,
            LiteralExpr::Str(_, span) => span,
        }
    }
}

impl OperatorExpr {
    /// The span of this node.
    pub open spec fn span_of(&self) -> Span {
        match self {
            OperatorExpr::Binary(e) => e.span_of(),
            OperatorExpr::Prefix(e) => e.span_of(),
            OperatorExpr::Suffix(e) => e.span_of(),
        }
    }
}

impl Spanned for OperatorExpr {
    open spec fn spec_span(&self) -> SpanView {
        match self {
            OperatorExpr::Binary(e) => e.spec_span(),
            OperatorExpr::Prefix(e) => e.spec_span(),
            OperatorExpr::Suffix(e) => e.spec_span(),
        }
    }

    fn span(&self) -> (span: &Span)
        ensures
            *span == self.span_of(),
            self.spec_span() == self.span_of()@,
    {
        match self {
            OperatorExpr::Binary(e) => e.span(),
            OperatorExpr::Prefix(e) => e.span(),
            OperatorExpr::Suffix(e) => e.span(),
        }
    }

    fn span_mut(&mut self) -> (span: &mut Span) {
        match self {
            OperatorExpr::Binary(e) => e.span_mut(),
            OperatorExpr::Prefix(e) => e.span_mut(),
            OperatorExpr::Suffix(e) => e.span_mut(),
        }
    }
}

impl Operator {
    /// The span of this node.
    pub open spec fn span_of(&self) -> Span {
        match self {
            Operator::Add(span) => *span,
            Operator::AddEq(span) => *span,
            Operator::And(span) => *span,
            Operator::Assign(span) => *span,
            Operator::Div(span) => *span,
            Operator::DivEq(span) => *span,
            Operator::Equal(span) => *span,
            Operator::GreaterThan(span) => *span,
            Operator::GreaterThanEq(span) => *span,
            Operator::LessThan(span) => *span,
            Operator::LessThanEq(span) => *span,
            Operator::Mul(span) => *span,
            Operator::MulEq(span) => *span,
            Operator::Or(span) => *span,
            Operator::PushPop(span) => *span,
            Operator::Sub(span) => *span,
            Operator::SubEq(span) => *span,
        }
    }
}

impl Spanned for Operator {
    open spec fn spec_span(&self) -> SpanView {
        match self {
            Operator::Add(span) => span@,
            Operator::AddEq(span) => span@,
            Operator::And(span) => span@,
            Operator::Assign(span) => span@,
            Operator::Div(span) => span@,
            Operator::DivEq(span) => span@,
            Operator::Equal(span) => span@,
            Operator::GreaterThan(span) => span@,
            Operator::GreaterThanEq(span) => span@,
            Operator::LessThan(span) => span@,
            Operator::LessThanEq(span) => span@,
            Operator::Mul(span) => span@,
            Operator::MulEq(span) => span@,
            Operator::Or(span) => span@,
            Operator::PushPop(span) => span@,
            Operator::Sub(span) => span@,
            Operator::SubEq(span) => span@,
        }
    }

    fn span(&self) -> (span: &Span)
        ensures
            *span == self.span_of(),
            self.spec_span() == self.span_of()@,
    {
        match self {
            Operator::Add(span) => span,
            Operator::AddEq(span) => span,
            Operator::And(span) => span,
            Operator::Assign(span) => span,
            Operator::Div(span) => span,
            Operator::DivEq(span) => span,
            Operator::Equal(span) => span,
            Operator::GreaterThan(span) => span,
            Operator::GreaterThanEq(span) => span,
            Operator::LessThan(span) => span,
            Operator::LessThanEq(span) => span,
            Operator::Mul(span) => span,
            Operator::MulEq(span) => span,
            Operator::Or(span) => span,
            Operator::PushPop(span) => span,
            Operator::Sub(span) => span,
            Operator::SubEq(span) => span,
        }
    }

    fn span_mut(&mut self) -> (span: &mut Span) {
        match self {
            Operator::Add(span) => span,
            Operator::AddEq(span) => span,
            Operator::And(span) => span,
            Operator::Assign(span) => span,
            Operator::Div(span) => span,
            Operator::DivEq(span) => span,
            Operator::Equal(span) => span,
            Operator::GreaterThan(span) => span,
            Operator::GreaterThanEq(span) => span,
            Operator::LessThan(span) => span,
            Operator::LessThanEq(span) => span,
            Operator::Mul(span) => span,
            Operator::MulEq(span) => span,
            Operator::Or(span) => span,
            Operator::PushPop(span) => span,
            Operator::Sub(span) => span,
            Operator::SubEq(span) => span,
        }
    }
}

impl Operator {
    /// Which operator this is.
    pub open spec fn spec_kind(&self) -> OperatorKind {
        match self {
            Operator::Add(..) => OperatorKind::Add,
            Operator::AddEq(..) => OperatorKind::AddEq,
            Operator::And(..) => OperatorKind::And,
            Operator::Assign(..) => OperatorKind::Assign,
            Operator::Div(..) => OperatorKind::Div,
            Operator::DivEq(..) => OperatorKind::DivEq,
            Operator::Equal(..) => OperatorKind::Equal,
            Operator::GreaterThan(..) => OperatorKind::GreaterThan,
            Operator::GreaterThanEq(..) => OperatorKind::GreaterThanEq,
            Operator::LessThan(..) => OperatorKind::LessThan,
            Operator::LessThanEq(..) => OperatorKind::LessThanEq,
            Operator::Mul(..) => OperatorKind::Mul,
            Operator::MulEq(..) => OperatorKind::MulEq,
            Operator::Or(..) => OperatorKind::Or,
            Operator::PushPop(..) => OperatorKind::PushPop,
            Operator::Sub(..) => OperatorKind::Sub,
            Operator::SubEq(..) => OperatorKind::SubEq,
        }
    }

    /// Which operator this is.
    #[verifier::when_used_as_spec(spec_kind)]
    pub fn kind(&self) -> (kind: OperatorKind)
        ensures
            kind == self.spec_kind(),
    {
        match self {
            Operator::Add(..) => OperatorKind::Add,
            Operator::AddEq(..) => OperatorKind::AddEq,
            Operator::And(..) => OperatorKind::And,
            Operator::Assign(..) => OperatorKind::Assign,
            Operator::Div(..) => OperatorKind::Div,
            Operator::DivEq(..) => OperatorKind::DivEq,
            Operator::Equal(..) => OperatorKind::Equal,
            Operator::GreaterThan(..) => OperatorKind::GreaterThan,
            Operator::GreaterThanEq(..) => OperatorKind::GreaterThanEq,
            Operator::LessThan(..) => OperatorKind::LessThan,
            Operator::LessThanEq(..) => OperatorKind::LessThanEq,
            Operator::Mul(..) => OperatorKind::Mul,
            Operator::MulEq(..) => OperatorKind::MulEq,
            Operator::Or(..) => OperatorKind::Or,
            Operator::PushPop(..) => OperatorKind::PushPop,
            Operator::Sub(..) => OperatorKind::Sub,
            Operator::SubEq(..) => OperatorKind::SubEq,
        }
    }
}

/// An `OperatorExpr` can be created from a `BinaryOperatorExpr`.
impl From<BinaryOperatorExpr> for OperatorExpr {
    fn from(expr: BinaryOperatorExpr) -> (r: OperatorExpr) {
        OperatorExpr::Binary(Box::new(expr))
    }
}

impl FromSpecImpl<BinaryOperatorExpr> for OperatorExpr {
    open spec fn obeys_from_spec() -> bool {
        true
    }

    open spec fn from_spec(expr: BinaryOperatorExpr) -> OperatorExpr {
        OperatorExpr::Binary(Box::new(expr))
    }
}

/// An `OperatorExpr` can be created from a `PrefixOperatorExpr`.
impl From<PrefixOperatorExpr> for OperatorExpr {
    fn from(expr: PrefixOperatorExpr) -> (r: OperatorExpr) {
        OperatorExpr::Prefix(Box::new(expr))
    }
}

impl FromSpecImpl<PrefixOperatorExpr> for OperatorExpr {
    open spec fn obeys_from_spec() -> bool {
        true
    }

    open spec fn from_spec(expr: PrefixOperatorExpr) -> OperatorExpr {
        OperatorExpr::Prefix(Box::new(expr))
    }
}

/// An `OperatorExpr` can be created from a `SuffixOperatorExpr`.
impl From<SuffixOperatorExpr> for OperatorExpr {
    fn from(expr: SuffixOperatorExpr) -> (r: OperatorExpr) {
        OperatorExpr::Suffix(Box::new(expr))
    }
}

impl FromSpecImpl<SuffixOperatorExpr> for OperatorExpr {
    open spec fn obeys_from_spec() -> bool {
        true
    }

    open spec fn from_spec(expr: SuffixOperatorExpr) -> OperatorExpr {
        OperatorExpr::Suffix(Box::new(expr))
    }
}

/// An `Expr` can be created from a `BinaryOperatorExpr`.
impl From<BinaryOperatorExpr> for Expr {
    fn from(expr: BinaryOperatorExpr) -> (r: Expr) {
        Expr::Operator(Box::new(OperatorExpr::Binary(Box::new(expr))))
    }
}

impl FromSpecImpl<BinaryOperatorExpr> for Expr {
    open spec fn obeys_from_spec() -> bool {
        true
    }

    open spec fn from_spec(expr: BinaryOperatorExpr) -> Expr {
        Expr::Operator(Box::new(OperatorExpr::Binary(Box::new(expr))))
    }
}

/// An `Expr` can be created from a `PrefixOperatorExpr`.
impl From<PrefixOperatorExpr> for Expr {
    fn from(expr: PrefixOperatorExpr) -> (r: Expr) {
        Expr::Operator(Box::new(OperatorExpr::Prefix(Box::new(expr))))
    }
}

impl FromSpecImpl<PrefixOperatorExpr> for Expr {
    open spec fn obeys_from_spec() -> bool {
        true
    }

    open spec fn from_spec(expr: PrefixOperatorExpr) -> Expr {
        Expr::Operator(Box::new(OperatorExpr::Prefix(Box::new(expr))))
    }
}

/// An `Expr` can be created from a `SuffixOperatorExpr`.
impl From<SuffixOperatorExpr> for Expr {
    fn from(expr: SuffixOperatorExpr) -> (r: Expr) {
        Expr::Operator(Box::new(OperatorExpr::Suffix(Box::new(expr))))
    }
}

impl FromSpecImpl<SuffixOperatorExpr> for Expr {
    open spec fn obeys_from_spec() -> bool {
        true
    }

    open spec fn from_spec(expr: SuffixOperatorExpr) -> Expr {
        Expr::Operator(Box::new(OperatorExpr::Suffix(Box::new(expr))))
    }
}

/// An `Expr` can be created from an `AssignExpr`.
impl From<AssignExpr> for Expr {
    fn from(expr: AssignExpr) -> (r: Expr) {
        Expr::Assign(Box::new(expr))
    }
}

impl FromSpecImpl<AssignExpr> for Expr {
    open spec fn obeys_from_spec() -> bool {
        true
    }

    open spec fn from_spec(expr: AssignExpr) -> Expr {
        Expr::Assign(Box::new(expr))
    }
}

/// An `Expr` can be created from a `BlockExpr`.
impl From<BlockExpr> for Expr {
    fn from(expr: BlockExpr) -> (r: Expr) {
        Expr::Block(Box::new(expr))
    }
}

impl FromSpecImpl<BlockExpr> for Expr {
    open spec fn obeys_from_spec() -> bool {
        true
    }

    open spec fn from_spec(expr: BlockExpr) -> Expr {
        Expr::Block(Box::new(expr))
    }
}

/// An `Expr` can be created from a `CallExpr`.
impl From<CallExpr> for Expr {
    fn from(expr: CallExpr) -> (r: Expr) {
        Expr::Call(Box::new(expr))
    }
}

impl FromSpecImpl<CallExpr> for Expr {
    open spec fn obeys_from_spec() -> bool {
        true
    }

    open spec fn from_spec(expr: CallExpr) -> Expr {
        Expr::Call(Box::new(expr))
    }
}

/// An `Expr` can be created from a `ChannelExpr`.
impl From<ChannelExpr> for Expr {
    fn from(expr: ChannelExpr) -> (r: Expr) {
        Expr::Channel(Box::new(expr))
    }
}

impl FromSpecImpl<ChannelExpr> for Expr {
    open spec fn obeys_from_spec() -> bool {
        true
    }

    open spec fn from_spec(expr: ChannelExpr) -> Expr {
        Expr::Channel(Box::new(expr))
    }
}

/// An `Expr` can be created from a `DerefExpr`.
impl From<DerefExpr> for Expr {
    fn from(expr: DerefExpr) -> (r: Expr) {
        Expr::Deref(Box::new(expr))
    }
}

impl FromSpecImpl<DerefExpr> for Expr {
    open spec fn obeys_from_spec() -> bool {
        true
    }

    open spec fn from_spec(expr: DerefExpr) -> Expr {
        Expr::Deref(Box::new(expr))
    }
}

/// An `Expr` can be created from a `ForExpr`.
impl From<ForExpr> for Expr {
    fn from(expr: ForExpr) -> (r: Expr) {
        Expr::For(Box::new(expr))
    }
}

impl FromSpecImpl<ForExpr> for Expr {
    open spec fn obeys_from_spec() -> bool {
        true
    }

    open spec fn from_spec(expr: ForExpr) -> Expr {
        Expr::For(Box::new(expr))
    }
}

/// An `Expr` can be created from an `IfExpr`.
impl From<IfExpr> for Expr {
    fn from(expr: IfExpr) -> (r: Expr) {
        Expr::If(Box::new(expr))
    }
}

impl FromSpecImpl<IfExpr> for Expr {
    open spec fn obeys_from_spec() -> bool {
        true
    }

    open spec fn from_spec(expr: IfExpr) -> Expr {
        Expr::If(Box::new(expr))
    }
}

/// An `Expr` can be created from an `ItemExpr`.
impl From<ItemExpr> for Expr {
    fn from(expr: ItemExpr) -> (r: Expr) {
        Expr::Item(Box::new(expr))
    }
}

impl FromSpecImpl<ItemExpr> for Expr {
    open spec fn obeys_from_spec() -> bool {
        true
    }

    open spec fn from_spec(expr: ItemExpr) -> Expr {
        Expr::Item(Box::new(expr))
    }
}

/// An `Expr` can be created from a `ListExpr`.
impl From<ListExpr> for Expr {
    fn from(expr: ListExpr) -> (r: Expr) {
        Expr::List(Box::new(expr))
    }
}

impl FromSpecImpl<ListExpr> for Expr {
    open spec fn obeys_from_spec() -> bool {
        true
    }

    open spec fn from_spec(expr: ListExpr) -> Expr {
        Expr::List(Box::new(expr))
    }
}

/// An `Expr` can be created from a `ListRangeExpr`.
impl From<ListRangeExpr> for Expr {
    fn from(expr: ListRangeExpr) -> (r: Expr) {
        Expr::ListRange(Box::new(expr))
    }
}

impl FromSpecImpl<ListRangeExpr> for Expr {
    open spec fn obeys_from_spec() -> bool {
        true
    }

    open spec fn from_spec(expr: ListRangeExpr) -> Expr {
        Expr::ListRange(Box::new(expr))
    }
}

/// An `Expr` can be created from a `LiteralExpr`.
impl From<LiteralExpr> for Expr {
    fn from(expr: LiteralExpr) -> (r: Expr) {
        Expr::Literal(Box::new(expr))
    }
}

impl FromSpecImpl<LiteralExpr> for Expr {
    open spec fn obeys_from_spec() -> bool {
        true
    }

    open spec fn from_spec(expr: LiteralExpr) -> Expr {
        Expr::Literal(Box::new(expr))
    }
}

/// An `Expr` can be created from an `OperatorExpr`.
impl From<OperatorExpr> for Expr {
    fn from(expr: OperatorExpr) -> (r: Expr) {
        Expr::Operator(Box::new(expr))
    }
}

impl FromSpecImpl<OperatorExpr> for Expr {
    open spec fn obeys_from_spec() -> bool {
        true
    }

    open spec fn from_spec(expr: OperatorExpr) -> Expr {
        Expr::Operator(Box::new(expr))
    }
}

/// An `Expr` can be created from a `RefExpr`.
impl From<RefExpr> for Expr {
    fn from(expr: RefExpr) -> (r: Expr) {
        Expr::Ref(Box::new(expr))
    }
}

impl FromSpecImpl<RefExpr> for Expr {
    open spec fn obeys_from_spec() -> bool {
        true
    }

    open spec fn from_spec(expr: RefExpr) -> Expr {
        Expr::Ref(Box::new(expr))
    }
}

/// An `Expr` can be created from a `SelectExpr`.
impl From<SelectExpr> for Expr {
    fn from(expr: SelectExpr) -> (r: Expr) {
        Expr::Select(Box::new(expr))
    }
}

impl FromSpecImpl<SelectExpr> for Expr {
    open spec fn obeys_from_spec() -> bool {
        true
    }

    open spec fn from_spec(expr: SelectExpr) -> Expr {
        Expr::Select(Box::new(expr))
    }
}

/// An `Expr` can be created from a `TupleExpr`.
impl From<TupleExpr> for Expr {
    fn from(expr: TupleExpr) -> (r: Expr) {
        Expr::Tuple(Box::new(expr))
    }
}

impl FromSpecImpl<TupleExpr> for Expr {
    open spec fn obeys_from_spec() -> bool {
        true
    }

    open spec fn from_spec(expr: TupleExpr) -> Expr {
        Expr::Tuple(Box::new(expr))
    }
}

/// An `Expr` can be created from a `VoidExpr`.
impl From<VoidExpr> for Expr {
    fn from(expr: VoidExpr) -> (r: Expr) {
        Expr::Void(Box::new(expr))
    }
}

impl FromSpecImpl<VoidExpr> for Expr {
    open spec fn obeys_from_spec() -> bool {
        true
    }

    open spec fn from_spec(expr: VoidExpr) -> Expr {
        Expr::Void(Box::new(expr))
    }
}

} // verus!
