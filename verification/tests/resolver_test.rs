use arvoc::air::{Expr, Item, PrimitiveType, Type};
use arvoc::ast;
use arvoc::identifier::{IdAllocator, Identifier, Symbol};
use arvoc::lexer::Span;
use arvoc::resolver::{Resolver, ResolverErrKind};

fn span() -> Span {
    Span::new("test.arvo", 1, 1, 1, 1)
}

fn named_type(alloc: &mut IdAllocator, name: &str) -> ast::Type {
    ast::Type::Unresolved(Box::new(ast::UnresolvedType::new(
        Vec::new(),
        Symbol::new(alloc, name),
        span(),
    )))
}

fn item(alloc: &mut IdAllocator, name: &str) -> ast::Expr {
    ast::Expr::Item(Box::new(ast::ItemExpr::new(Vec::new(), Symbol::new(alloc, name), span())))
}

fn int_literal(value: i64) -> ast::Expr {
    ast::Expr::Literal(Box::new(ast::LiteralExpr::Int(value, span())))
}

fn assign(alloc: &mut IdAllocator, name: &str, rhs: ast::Expr) -> ast::Expr {
    ast::Expr::Assign(Box::new(ast::AssignExpr::new(Symbol::new(alloc, name), None, rhs, span())))
}

fn block(body: Vec<ast::Expr>, ret: ast::Expr) -> ast::BlockExpr {
    ast::BlockExpr::new(body, ret, span())
}

fn call(target: ast::Expr, arguments: Vec<ast::Expr>) -> ast::Expr {
    ast::Expr::Call(Box::new(ast::CallExpr::new(target, arguments, span())))
}

fn void() -> ast::Expr {
    ast::Expr::Void(Box::new(ast::VoidExpr::new(span())))
}

fn function(
    alloc: &mut IdAllocator,
    name: &str,
    formals: Vec<ast::FunctionFormal>,
    ret: ast::Type,
    body: Option<ast::Expr>,
) -> ast::FunctionDecl {
    ast::FunctionDecl::new(false, formals, Symbol::new(alloc, name), ret, body, span())
}

fn referred_variable_id(e: &Expr) -> u64 {
    match e {
        Expr::Item(i) => match &i.item {
            Item::Variable(v) => v.symbol.identifier.id,
            other => panic!("expected a variable, found {:?}", other),
        },
        other => panic!("expected an item, found {:?}", other),
    }
}

fn is_primitive(t: &Type, p: PrimitiveType) -> bool {
    match t {
        Type::Primitive(q) => **q == p,
        _ => false,
    }
}

#[test]
fn end_to_end_identity_function() {
    let mut alloc = IdAllocator::new();
    let x = Symbol::new(&mut alloc, "x");
    let x_id = x.identifier.id;
    let formal_type = named_type(&mut alloc, "i64");
    let ret_type = named_type(&mut alloc, "i64");
    let tail = item(&mut alloc, "x");
    let body = ast::Expr::Block(Box::new(block(Vec::new(), tail)));
    let f = function(
        &mut alloc,
        "id",
        vec![ast::FunctionFormal::new(x, false, false, formal_type)],
        ret_type,
        Some(body),
    );
    let module = ast::ModuleDecl::new(
        Identifier::name(&mut alloc, "m"),
        vec![ast::Statement::Function(f)],
        span(),
    );
    let mut resolver = Resolver::new(alloc);
    let m = resolver.resolve_module(&module).expect("the module resolves");
    assert!(resolver.errors().is_empty());
    assert_eq!(m.symbol.identifier.name, "m");
    assert_eq!(m.function_table.len(), 1);
    assert_eq!(m.module_table.len(), 0);
    assert_eq!(m.type_table.len(), 0);
    let f = &m.function_table[0].1;
    assert_eq!(f.symbol.identifier.name, "id");
    assert_eq!(f.formals.len(), 1);
    assert_eq!(f.formals[0].symbol.identifier.name, "x");
    assert_eq!(f.formals[0].symbol.identifier.id, x_id);
    assert!(is_primitive(&f.formals[0].ty, PrimitiveType::I64));
    assert!(is_primitive(&f.ret, PrimitiveType::I64));
    let body = f.body.as_ref().expect("the function has a body");
    assert_eq!(body.body.len(), 0);
    assert_eq!(referred_variable_id(&body.ret), x_id);
    // the context holds the same module and function
    assert_eq!(resolver.context().module_table.len(), 1);
    assert_eq!(resolver.context().function_table.len(), 1);
    assert!(resolver.context().function_table[0].1.body.is_some());
}

#[test]
fn shadowing_binds_the_innermost_variable() {
    // x := 1; { x := 2; x }; x
    let mut alloc = IdAllocator::new();
    let outer = assign(&mut alloc, "x", int_literal(1));
    let inner = assign(&mut alloc, "x", int_literal(2));
    let inner_use = item(&mut alloc, "x");
    let inner_block = ast::Expr::Block(Box::new(block(vec![inner], inner_use)));
    let outer_use = item(&mut alloc, "x");
    let whole = block(vec![outer, inner_block], outer_use);
    let (outer_id, inner_id) = match (&whole.body[0], &whole.body[1]) {
        (ast::Expr::Assign(o), ast::Expr::Block(b)) => match &b.body[0] {
            ast::Expr::Assign(i) => (o.symbol.identifier.id, i.symbol.identifier.id),
            _ => unreachable!(),
        },
        _ => unreachable!(),
    };
    assert_ne!(outer_id, inner_id);
    let mut resolver = Resolver::new(alloc);
    let resolved = resolver.resolve_block_expr(&whole);
    assert!(resolver.errors().is_empty());
    match &resolved.body[1] {
        Expr::Block(b) => assert_eq!(referred_variable_id(&b.ret), inner_id),
        other => panic!("expected a block, found {:?}", other),
    }
    assert_eq!(referred_variable_id(&resolved.ret), outer_id);
}

#[test]
fn mutual_recursion_resolves_in_any_order() {
    // fn a() { b() }  fn b() { a() }
    let mut alloc = IdAllocator::new();
    let call_b = call(item(&mut alloc, "b"), Vec::new());
    let call_a = call(item(&mut alloc, "a"), Vec::new());
    let ret_a = named_type(&mut alloc, "void");
    let ret_b = named_type(&mut alloc, "void");
    let a = function(
        &mut alloc,
        "a",
        Vec::new(),
        ret_a,
        Some(ast::Expr::Block(Box::new(block(Vec::new(), call_b)))),
    );
    let b = function(
        &mut alloc,
        "b",
        Vec::new(),
        ret_b,
        Some(ast::Expr::Block(Box::new(block(Vec::new(), call_a)))),
    );
    let a_id = a.symbol.identifier.id;
    let b_id = b.symbol.identifier.id;
    let module = ast::ModuleDecl::new(
        Identifier::name(&mut alloc, "m"),
        vec![ast::Statement::Function(a), ast::Statement::Function(b)],
        span(),
    );
    let mut resolver = Resolver::new(alloc);
    let m = resolver.resolve_module(&module).expect("the module resolves");
    assert!(resolver.errors().is_empty());
    assert_eq!(m.function_table.len(), 2);
    let target_of = |i: usize| -> u64 {
        match &m.function_table[i].1.body.as_ref().unwrap().ret {
            Expr::Call(c) => match &c.target {
                Expr::Item(i) => match &i.item {
                    Item::Function(f) => f.symbol.identifier.id,
                    other => panic!("expected a function, found {:?}", other),
                },
                other => panic!("expected an item, found {:?}", other),
            },
            other => panic!("expected a call, found {:?}", other),
        }
    };
    assert_eq!(target_of(0), b_id);
    assert_eq!(target_of(1), a_id);
}

#[test]
fn redeclared_type_is_reported_once() {
    let mut alloc = IdAllocator::new();
    let first = ast::TypeDecl::new(
        Symbol::new(&mut alloc, "Point"),
        Vec::new(),
        ast::TypeDeclKind::Struct(Vec::new()),
        span(),
    );
    let second = ast::TypeDecl::new(
        Symbol::new(&mut alloc, "Point"),
        Vec::new(),
        ast::TypeDeclKind::Struct(Vec::new()),
        span(),
    );
    let first_id = first.symbol.identifier.id;
    let module = ast::ModuleDecl::new(
        Identifier::name(&mut alloc, "m"),
        vec![ast::Statement::Type(first), ast::Statement::Type(second)],
        span(),
    );
    let mut resolver = Resolver::new(alloc);
    let m = resolver.resolve_module(&module).expect("the module resolves");
    assert_eq!(resolver.errors().len(), 1);
    assert_eq!(resolver.errors()[0].kind, ResolverErrKind::Redeclaration);
    assert_eq!(resolver.errors()[0].name, "Point");
    let points: Vec<_> = m.type_table.iter().filter(|(k, _)| k.name == "Point").collect();
    assert_eq!(points.len(), 1);
    assert_eq!(points[0].0.id, first_id);
}

#[test]
fn profile_resolution_is_idempotent() {
    let mut alloc = IdAllocator::new();
    let ret = named_type(&mut alloc, "i64");
    let f = function(&mut alloc, "f", Vec::new(), ret, Some(int_literal(1)));
    let mut resolver = Resolver::new(alloc);
    let next_before = resolver.allocator().next();
    let first = resolver.resolve_function_profile(&f).expect("the profile resolves");
    let second = resolver.resolve_function_profile(&f).expect("the profile is reused");
    assert_eq!(first.symbol.identifier.id, second.symbol.identifier.id);
    assert_eq!(first.symbol.identifier.id, f.symbol.identifier.id);
    assert_eq!(resolver.context().function_table.len(), 1);
    assert_eq!(resolver.allocator().next(), next_before);
    assert!(resolver.errors().is_empty());
}

#[test]
fn unresolved_name_is_reported_and_siblings_resolve() {
    let mut alloc = IdAllocator::new();
    let missing = item(&mut alloc, "y");
    let define = assign(&mut alloc, "x", int_literal(1));
    let tail = item(&mut alloc, "x");
    let whole = block(vec![missing, define], tail);
    let mut resolver = Resolver::new(alloc);
    let resolved = resolver.resolve_block_expr(&whole);
    assert_eq!(resolver.errors().len(), 1);
    assert_eq!(resolver.errors()[0].kind, ResolverErrKind::UnresolvedSymbol);
    assert_eq!(resolver.errors()[0].name, "y");
    assert_eq!(resolved.body.len(), 2);
    match &resolved.ret {
        Expr::Item(i) => match &i.item {
            Item::Variable(v) => assert!(is_primitive(&v.ty, PrimitiveType::I64)),
            other => panic!("expected a variable, found {:?}", other),
        },
        other => panic!("expected an item, found {:?}", other),
    }
}

#[test]
fn every_node_gets_its_own_identity() {
    let mut alloc = IdAllocator::new();
    let define = assign(&mut alloc, "x", int_literal(1));
    let use_x = item(&mut alloc, "x");
    let whole = block(vec![define, void()], call(use_x, vec![int_literal(2), int_literal(3)]));
    let mut resolver = Resolver::new(alloc);
    let before = resolver.allocator().next();
    let resolved = resolver.resolve_block_expr(&whole);
    let after = resolver.allocator().next();
    let mut ids = vec![resolved.identifier.id];
    for e in resolved.body.iter() {
        match e {
            Expr::Let(l) => {
                ids.push(l.identifier.id);
                match &l.definition {
                    Expr::Literal(d) => ids.push(d.identifier.id),
                    other => panic!("expected a literal, found {:?}", other),
                }
            }
            Expr::Void(v) => ids.push(v.identifier.id),
            other => panic!("unexpected {:?}", other),
        }
    }
    match &resolved.ret {
        Expr::Call(c) => {
            ids.push(c.identifier.id);
            match &c.target {
                Expr::Item(i) => ids.push(i.identifier.id),
                other => panic!("expected an item, found {:?}", other),
            }
            for a in c.arguments.iter() {
                match a {
                    Expr::Literal(l) => ids.push(l.identifier.id),
                    other => panic!("expected a literal, found {:?}", other),
                }
            }
        }
        other => panic!("expected a call, found {:?}", other),
    }
    assert_eq!(ids.len(), 8);
    assert_eq!(after - before, 8);
    let mut sorted = ids.clone();
    sorted.sort();
    sorted.dedup();
    assert_eq!(sorted.len(), ids.len());
    assert!(ids.iter().all(|id| before <= *id && *id < after));
}

fn symbols_of(m: &arvoc::air::Module, ids: &mut Vec<u64>) {
    ids.push(m.symbol.identifier.id);
    for (_, f) in m.function_table.iter() {
        ids.push(f.symbol.identifier.id);
        for formal in f.formals.iter() {
            ids.push(formal.symbol.identifier.id);
        }
        if let Some(body) = &f.body {
            ids.push(body.identifier.id);
        }
    }
    for (_, inner) in m.module_table.iter() {
        symbols_of(inner, ids);
    }
    for (key, _) in m.type_table.iter() {
        ids.push(key.id);
    }
}

#[test]
fn symbols_and_blocks_of_a_module_all_differ() {
    // module outer { module inner { fn g(a i64) i64 { a }  type T = i64 }
    //                fn f(a i64, b i64) i64 { a }  fn h() i64 { 1 } }
    let mut alloc = IdAllocator::new();
    let g_formal = ast::FunctionFormal::new(
        Symbol::new(&mut alloc, "a"),
        false,
        false,
        named_type(&mut alloc, "i64"),
    );
    let g_ret = named_type(&mut alloc, "i64");
    let g_tail = item(&mut alloc, "a");
    let g = function(
        &mut alloc,
        "g",
        vec![g_formal],
        g_ret,
        Some(ast::Expr::Block(Box::new(block(Vec::new(), g_tail)))),
    );
    let t_inner = named_type(&mut alloc, "i64");
    let t = ast::TypeDecl::new(
        Symbol::new(&mut alloc, "T"),
        Vec::new(),
        ast::TypeDeclKind::Alias(t_inner),
        span(),
    );
    let inner = ast::ModuleDecl::new(
        Identifier::name(&mut alloc, "inner"),
        vec![ast::Statement::Function(g), ast::Statement::Type(t)],
        span(),
    );
    let f_a = ast::FunctionFormal::new(
        Symbol::new(&mut alloc, "a"),
        false,
        false,
        named_type(&mut alloc, "i64"),
    );
    let f_b = ast::FunctionFormal::new(
        Symbol::new(&mut alloc, "b"),
        false,
        false,
        named_type(&mut alloc, "i64"),
    );
    let f_ret = named_type(&mut alloc, "i64");
    let f_tail = item(&mut alloc, "a");
    let f = function(
        &mut alloc,
        "f",
        vec![f_a, f_b],
        f_ret,
        Some(ast::Expr::Block(Box::new(block(Vec::new(), f_tail)))),
    );
    let h_ret = named_type(&mut alloc, "i64");
    let h = function(&mut alloc, "h", Vec::new(), h_ret, Some(int_literal(1)));
    let outer = ast::ModuleDecl::new(
        Identifier::name(&mut alloc, "outer"),
        vec![
            ast::Statement::Function(f),
            ast::Statement::Module(inner),
            ast::Statement::Function(h),
        ],
        span(),
    );
    let mut resolver = Resolver::new(alloc);
    let m = resolver.resolve_module(&outer).expect("the module resolves");
    assert!(resolver.errors().is_empty(), "{:?}", resolver.errors());
    assert!(!resolver.allocator().exhausted());
    let mut ids = Vec::new();
    symbols_of(&m, &mut ids);
    // outer, f, a, b, block of f, h, block of h, inner, g, a, block of g, T
    assert_eq!(ids.len(), 12);
    let mut sorted = ids.clone();
    sorted.sort();
    sorted.dedup();
    assert_eq!(sorted.len(), ids.len(), "{:?}", ids);
}

#[test]
fn functions_have_bodies_unless_extern() {
    // module m { extern fn put(c i64) i64   fn one() i64 { 1 } }
    let mut alloc = IdAllocator::new();
    let c = ast::FunctionFormal::new(
        Symbol::new(&mut alloc, "c"),
        false,
        false,
        named_type(&mut alloc, "i64"),
    );
    let put_ret = named_type(&mut alloc, "i64");
    let put = ast::FunctionDecl::new(
        true,
        vec![c],
        Symbol::new(&mut alloc, "put"),
        put_ret,
        None,
        span(),
    );
    let one_ret = named_type(&mut alloc, "i64");
    let one = function(&mut alloc, "one", Vec::new(), one_ret, Some(int_literal(1)));
    let put_id = put.symbol.identifier.id;
    let one_id = one.symbol.identifier.id;
    let module = ast::ModuleDecl::new(
        Identifier::name(&mut alloc, "m"),
        vec![ast::Statement::Function(put), ast::Statement::Function(one)],
        span(),
    );
    let mut resolver = Resolver::new(alloc);
    let m = resolver.resolve_module(&module).expect("the module resolves");
    assert!(resolver.errors().is_empty(), "{:?}", resolver.errors());
    assert_eq!(m.function_table.len(), 2);
    for (key, f) in m.function_table.iter() {
        assert_eq!(key.id, f.symbol.identifier.id);
        if key.id == put_id {
            assert!(f.body.is_none());
        } else {
            assert_eq!(key.id, one_id);
            assert!(f.body.is_some());
        }
    }
}
