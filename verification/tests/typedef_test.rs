use arvoc::air::typedef::Typedef;
use arvoc::air::{
    BlockExpr, CallExpr, Expr, Function, Item, ItemExpr, LambdaType, Literal, LiteralExpr,
    PrimitiveType, RefExpr, DerefExpr, Type, Variable, VoidExpr,
};
use arvoc::identifier::{IdAllocator, Identifier, Identify, Id, Name, Symbol, Symbolise};

fn literal(alloc: &mut IdAllocator, literal: Literal) -> Expr {
    Expr::Literal(Box::new(LiteralExpr::new(Identifier::id(alloc), literal)))
}

fn primitive(p: PrimitiveType) -> Type {
    Type::Primitive(Box::new(p))
}

fn is_primitive(t: &Option<Type>, p: PrimitiveType) -> bool {
    match t {
        Some(Type::Primitive(q)) => **q == p,
        _ => false,
    }
}

#[test]
fn literal_has_the_type_of_its_kind() {
    let mut alloc = IdAllocator::new();
    assert!(is_primitive(&literal(&mut alloc, Literal::I64(42)).typedef(), PrimitiveType::I64));
    assert!(is_primitive(&literal(&mut alloc, Literal::Bool(true)).typedef(), PrimitiveType::Bool));
    assert!(is_primitive(&literal(&mut alloc, Literal::Char('a')).typedef(), PrimitiveType::Char));
    assert!(is_primitive(&literal(&mut alloc, Literal::I8(1)).typedef(), PrimitiveType::I8));
    assert!(is_primitive(&literal(&mut alloc, Literal::U16(1)).typedef(), PrimitiveType::U16));
    assert!(is_primitive(&literal(&mut alloc, Literal::USize(1)).typedef(), PrimitiveType::USize));
    assert!(is_primitive(
        &literal(&mut alloc, Literal::Str("s".to_string())).typedef(),
        PrimitiveType::Str
    ));
    assert!(is_primitive(
        &literal(&mut alloc, Literal::F64("3.14".to_string())).typedef(),
        PrimitiveType::F64
    ));
    assert!(is_primitive(
        &literal(&mut alloc, Literal::F32("3.14".to_string())).typedef(),
        PrimitiveType::F32
    ));
    assert!(literal(&mut alloc, Literal::List(Vec::new())).typedef().is_none());
}

#[test]
fn block_has_the_type_of_its_tail() {
    let mut alloc = IdAllocator::new();
    let body = vec![
        literal(&mut alloc, Literal::I64(1)),
        literal(&mut alloc, Literal::Str("two".to_string())),
    ];
    let tail = literal(&mut alloc, Literal::Bool(true));
    let block = BlockExpr::new(
        Identifier::id(&mut alloc),
        body,
        tail,
        Vec::new(),
        Vec::new(),
        Vec::new(),
    );
    assert!(is_primitive(&block.ret.typedef(), PrimitiveType::Bool));
    assert!(is_primitive(&block.typedef(), PrimitiveType::Bool));
    assert!(is_primitive(&Expr::Block(Box::new(block)).typedef(), PrimitiveType::Bool));
}

#[test]
fn call_has_the_result_type_of_its_target() {
    let mut alloc = IdAllocator::new();
    let f = Function::new(
        Symbol::new(&mut alloc, "f"),
        vec![Variable::new(Symbol::new(&mut alloc, "x"), primitive(PrimitiveType::I8))],
        primitive(PrimitiveType::U32),
        None,
    );
    match f.typedef() {
        Some(Type::Lambda(l)) => {
            assert_eq!(l.formals.len(), 1);
            assert!(is_primitive(&Some(l.formals[0].clone()), PrimitiveType::I8));
            assert!(is_primitive(&Some(l.ret.clone()), PrimitiveType::U32));
        }
        other => panic!("expected a lambda, found {:?}", other),
    }
    let target = Expr::Item(Box::new(ItemExpr::new(
        Identifier::id(&mut alloc),
        Item::Function(Box::new(f)),
    )));
    let call = CallExpr::new(Identifier::id(&mut alloc), target, Vec::new());
    assert!(is_primitive(&call.typedef(), PrimitiveType::U32));
    // a target that is no function cannot be called
    let not_callable = CallExpr::new(
        Identifier::id(&mut alloc),
        literal(&mut alloc, Literal::I64(1)),
        Vec::new(),
    );
    assert!(not_callable.typedef().is_none());
}

#[test]
fn reference_and_dereference() {
    let mut alloc = IdAllocator::new();
    let inner = literal(&mut alloc, Literal::I32(5));
    let reference = Expr::Ref(Box::new(RefExpr::new(Identifier::id(&mut alloc), inner)));
    match reference.typedef() {
        Some(Type::Ref(r)) => assert!(is_primitive(&Some(r.inner.clone()), PrimitiveType::I32)),
        other => panic!("expected a reference type, found {:?}", other),
    }
    let back = Expr::Deref(Box::new(DerefExpr::new(Identifier::id(&mut alloc), reference)));
    assert!(is_primitive(&back.typedef(), PrimitiveType::I32));
    let wrong = Expr::Deref(Box::new(DerefExpr::new(
        Identifier::id(&mut alloc),
        literal(&mut alloc, Literal::I32(5)),
    )));
    assert!(wrong.typedef().is_none());
    let void = Expr::Void(Box::new(VoidExpr::new(Identifier::id(&mut alloc))));
    assert!(is_primitive(&void.typedef(), PrimitiveType::Void));
}

#[test]
fn lambda_type_constructor() {
    let l = LambdaType::new(vec![primitive(PrimitiveType::I8)], primitive(PrimitiveType::Void));
    assert_eq!(l.formals.len(), 1);
    assert!(is_primitive(&Some(l.ret), PrimitiveType::Void));
}

#[test]
fn identities_are_allocated_in_order() {
    let mut alloc = IdAllocator::new();
    assert_eq!(alloc.next(), 0);
    assert!(!alloc.exhausted());
    let a = Identifier::id(&mut alloc);
    let b = Identifier::name(&mut alloc, "b");
    let c = Symbol::new(&mut alloc, "c");
    assert_eq!(a.id, 0);
    assert_eq!(a.name, "");
    assert_eq!(b.id, 1);
    assert_eq!(b.name, "b");
    assert_eq!(c.identify().id, 2);
    assert_eq!(c.name(), "c");
    assert_eq!(c.id(), 2);
    assert_eq!(Id::id(&b), 1);
    assert_eq!(Name::name(&b), "b");
    assert_eq!(c.symbolise().identify().name, "c");
    assert_eq!(alloc.next(), 3);
    assert_eq!(alloc.allocate(), 3);
}

#[test]
fn identifiers_are_equal_by_number_alone() {
    let mut alloc = IdAllocator::new();
    let a = Identifier::name(&mut alloc, "x");
    let b = Identifier::name(&mut alloc, "x");
    assert!(a != b);
    let renamed = Identifier { id: a.id, name: "y".to_string() };
    assert!(a == renamed);
    assert!(a == a.clone());
    let s = Symbol::from(a.clone());
    assert_eq!(s.identify().id, a.id);
    assert!(s == Symbol::from(renamed));
}

#[test]
fn node_identity() {
    let mut alloc = IdAllocator::new();
    let v = VoidExpr::new(Identifier::name(&mut alloc, "v"));
    assert_eq!(v.identify().id, 0);
    assert_eq!(v.name(), "v");
    let e = Expr::Void(Box::new(v));
    assert_eq!(e.identify().id, 0);
    let variable = Variable::new(Symbol::new(&mut alloc, "x"), primitive(PrimitiveType::I8));
    assert_eq!(variable.symbolise().identify().id, 1);
    assert_eq!(variable.identify().name, "x");
    assert!(is_primitive(&variable.typedef(), PrimitiveType::I8));
}

#[test]
fn identifiers_are_hashed_by_number_alone() {
    let mut alloc = IdAllocator::new();
    let a = Identifier::name(&mut alloc, "x");
    let b = Identifier::name(&mut alloc, "x");
    let renamed = Identifier { id: a.id, name: "y".to_string() };
    let mut set = std::collections::HashSet::new();
    assert!(set.insert(a));
    assert!(set.insert(b));
    assert!(!set.insert(renamed));
    assert_eq!(set.len(), 2);
}
