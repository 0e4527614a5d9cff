use arvoc::air;
use arvoc::ast;
use arvoc::identifier::{IdAllocator, Identifier, Symbol};
use arvoc::lexer::Span;
use arvoc::noir;
use arvoc::normaliser::{Normaliser, NormaliserErrKind};
use arvoc::resolver::Resolver;

fn span() -> Span {
    Span::new("", 1, 1, 1, 1)
}

fn primitive(p: air::PrimitiveType) -> air::Type {
    air::Type::Primitive(Box::new(p))
}

fn is_primitive(t: &noir::Type, p: noir::PrimitiveType) -> bool {
    match t {
        noir::Type::Primitive(q) => **q == p,
        _ => false,
    }
}

fn normaliser(alloc: IdAllocator) -> Normaliser {
    let mut alloc = alloc;
    let context = noir::Context::new(&mut alloc);
    Normaliser::new(context, alloc)
}

#[test]
fn context_brings_prelude_and_runtime() {
    let mut alloc = IdAllocator::new();
    let context = noir::Context::new(&mut alloc);
    assert_eq!(context.prelude.functions().len(), 86);
    assert_eq!(context.runtime.process_fn.symbol.identifier.id, 44 * 3 + 42 * 2);
    assert_eq!(alloc.next(), 44 * 3 + 42 * 2 + 4);
    assert!(context.function_table.is_empty());
    assert!(context.module_table.is_empty());
    assert!(context.type_table.is_empty());
}

#[test]
fn types_are_normalised_structurally() {
    let mut alloc = IdAllocator::new();
    let lambda = air::Type::Lambda(Box::new(air::LambdaType::new(
        vec![primitive(air::PrimitiveType::I8), primitive(air::PrimitiveType::Str)],
        air::Type::Ptr(Box::new(air::PtrType::new(primitive(air::PrimitiveType::Bool)))),
    )));
    let alias = air::Type::Alias(Box::new(air::AliasType::new(lambda)));
    let named = air::Type::Unresolved(Box::new(air::UnresolvedType::new(Symbol::new(
        &mut alloc, "T",
    ))));
    let mut n = normaliser(alloc);
    // another name for a type is the type
    match n.normalise_type(&alias) {
        noir::Type::Lambda(l) => {
            assert_eq!(l.formals.len(), 2);
            assert!(is_primitive(&l.formals[0], noir::PrimitiveType::I8));
            assert!(is_primitive(&l.formals[1], noir::PrimitiveType::Str));
            match &l.ret {
                noir::Type::Ptr(p) => assert!(is_primitive(&p.inner, noir::PrimitiveType::Bool)),
                other => panic!("expected a pointer, found {:?}", other),
            }
        }
        other => panic!("expected a lambda, found {:?}", other),
    }
    assert!(n.errors().is_empty());
    // a type that is only known by name has no normalised form
    assert!(is_primitive(&n.normalise_type(&named), noir::PrimitiveType::Void));
    assert_eq!(n.errors().len(), 1);
    assert_eq!(n.errors()[0].kind, NormaliserErrKind::UnresolvedType);
    assert_eq!(n.errors()[0].identifier.name, "T");
}

#[test]
fn resolved_function_is_normalised() {
    // fn one() i64 -> { x := 1; x }
    let mut alloc = IdAllocator::new();
    let define = ast::Expr::Assign(Box::new(ast::AssignExpr::new(
        Symbol::new(&mut alloc, "x"),
        None,
        ast::Expr::Literal(Box::new(ast::LiteralExpr::Int(1, span()))),
        span(),
    )));
    let tail = ast::Expr::Item(Box::new(ast::ItemExpr::new(
        Vec::new(),
        Symbol::new(&mut alloc, "x"),
        span(),
    )));
    let body = ast::Expr::Block(Box::new(ast::BlockExpr::new(vec![define], tail, span())));
    let f = ast::FunctionDecl::new(
        false,
        Vec::new(),
        Symbol::new(&mut alloc, "one"),
        ast::Type::Primitive(air::PrimitiveType::I64),
        Some(body),
        span(),
    );
    let module = ast::ModuleDecl::new(
        Identifier::name(&mut alloc, "m"),
        vec![ast::Statement::Function(f)],
        span(),
    );
    let mut resolver = Resolver::new(alloc);
    let resolved = resolver.resolve_module(&module).expect("the module resolves");
    assert!(resolver.errors().is_empty());
    let (alloc, _context, _errors) = resolver.finish();
    let mut n = normaliser(alloc);
    let before = n.allocator().next();
    let m = n.normalise_module(&resolved);
    assert!(n.errors().is_empty());
    assert_eq!(m.symbol.identifier.name, "m");
    assert_eq!(m.function_table.len(), 1);
    let one = &m.function_table[0].1;
    assert_eq!(one.mangled_name, "one");
    assert!(!one.is_extern());
    assert!(!one.is_void());
    assert!(one.lambda_type().formals.is_empty());
    let block = one.body.as_ref().unwrap();
    let resolved_block = resolved.function_table[0].1.body.as_ref().unwrap();
    assert_eq!(block.identifier.id, resolved_block.identifier.id);
    assert!(block.prelude.is_empty());
    assert!(block.epilogue.is_empty());
    assert_eq!(block.body.len(), 1);
    match &block.body[0] {
        noir::Expr::Let(l) => {
            assert_eq!(l.variable.symbol.identifier.name, "x");
            assert!(is_primitive(&l.variable.ty, noir::PrimitiveType::I64));
            // the reference on the left side is a new node
            assert_eq!(l.definition.lhs.identifier.id, before);
            match &l.definition.lhs.inner {
                noir::Expr::Variable(v) => {
                    assert_eq!(v.variable.symbol.identifier.id, l.variable.symbol.identifier.id);
                    assert!(v.parent.is_empty());
                }
                other => panic!("expected a variable, found {:?}", other),
            }
            assert!(matches!(l.definition.rhs, noir::Expr::Literal(_)));
        }
        other => panic!("expected a definition, found {:?}", other),
    }
    assert!(matches!(block.ret, noir::Expr::Item(_)));
    assert_eq!(n.allocator().next(), before + 1);
}

#[test]
fn list_has_no_normalised_form() {
    let mut alloc = IdAllocator::new();
    let list = air::Expr::Literal(Box::new(air::LiteralExpr::new(
        Identifier::id(&mut alloc),
        air::Literal::List(Vec::new()),
    )));
    let id = match &list {
        air::Expr::Literal(l) => l.identifier.id,
        _ => unreachable!(),
    };
    let mut n = normaliser(alloc);
    match n.normalise_expr(&list) {
        noir::Expr::Void(v) => assert_eq!(v.identifier.id, id),
        other => panic!("expected nothing, found {:?}", other),
    }
    assert_eq!(n.errors().len(), 1);
    assert_eq!(n.errors()[0].kind, NormaliserErrKind::UnsupportedLiteral);
    assert_eq!(n.errors()[0].identifier.id, id);
    let void = air::VoidExpr::new(Identifier { id: 7, name: String::new() });
    assert_eq!(n.normalise_void_expr(&void).identifier.id, 7);
}

#[test]
fn process_runs_as_a_function() {
    let mut alloc = IdAllocator::new();
    let ret = noir::Expr::Void(Box::new(noir::VoidExpr::new(&mut alloc)));
    let body = noir::BlockExpr::new(
        &mut alloc,
        Vec::new(),
        Vec::new(),
        ret,
        Vec::new(),
        Vec::new(),
        Vec::new(),
        Vec::new(),
    );
    let process = noir::ProcessExpr::new(&mut alloc, Box::new(body));
    assert_eq!(process.identifier.id, 2);
    let join = noir::ProcessJoinExpr::new(&mut alloc, Box::new(process.clone()));
    assert_eq!(join.identifier.id, 3);
    assert_eq!(join.process_expr.identifier.id, 2);
    let f = process.function(&mut alloc);
    assert_eq!(f.symbol.identifier.name, "__libruntime__process_2");
    assert_eq!(f.symbol.identifier.id, 4);
    assert_eq!(f.mangled_name, "__libruntime__process_2");
    assert!(f.is_void());
    assert!(!f.is_extern());
    assert!(f.formals.is_empty());
    assert_eq!(f.body.as_ref().unwrap().identifier.id, 1);
    let item = noir::Item::Function(Box::new(f));
    assert_eq!(item.symbol().unwrap().identifier.id, 4);
    let nameless = noir::Item::Type(Box::new(noir::Type::Primitive(Box::new(
        noir::PrimitiveType::I8,
    ))));
    assert!(nameless.symbol().is_none());
    let with_id = noir::VoidExpr::new_with_id(Identifier { id: 9, name: String::new() });
    assert_eq!(with_id.identifier.id, 9);
}
