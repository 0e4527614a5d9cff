use arvoc::air::{Air, Expr, Item, Literal, PrimitiveType, Type};
use arvoc::ast;
use arvoc::identifier::{IdAllocator, Identifier, Symbol};
use arvoc::lexer::Span;
use arvoc::resolver::model::Phase;
use arvoc::resolver::{Resolver, ResolverErrKind};

fn span() -> Span {
    Span::new("scope.arvo", 2, 3, 2, 9)
}

fn named_type(alloc: &mut IdAllocator, qualifier: &[&str], name: &str) -> ast::Type {
    let qualifier = qualifier.iter().map(|q| Symbol::new(alloc, q)).collect();
    ast::Type::Unresolved(Box::new(ast::UnresolvedType::new(
        qualifier,
        Symbol::new(alloc, name),
        span(),
    )))
}

fn item(alloc: &mut IdAllocator, qualifier: &[&str], name: &str) -> ast::Expr {
    let qualifier = qualifier.iter().map(|q| Symbol::new(alloc, q)).collect();
    ast::Expr::Item(Box::new(ast::ItemExpr::new(qualifier, Symbol::new(alloc, name), span())))
}

fn int_literal(value: i64) -> ast::Expr {
    ast::Expr::Literal(Box::new(ast::LiteralExpr::Int(value, span())))
}

fn block(body: Vec<ast::Expr>, ret: ast::Expr) -> ast::BlockExpr {
    ast::BlockExpr::new(body, ret, span())
}

fn void() -> ast::Expr {
    ast::Expr::Void(Box::new(ast::VoidExpr::new(span())))
}

fn is_primitive(t: &Type, p: PrimitiveType) -> bool {
    match t {
        Type::Primitive(q) => **q == p,
        _ => false,
    }
}

#[test]
fn submodule_type_is_found_by_qualified_path() {
    // module outer { module inner { type Point { x i64 } }  type P = inner.Point }
    let mut alloc = IdAllocator::new();
    let x_type = named_type(&mut alloc, &[], "i64");
    let point = ast::TypeDecl::new(
        Symbol::new(&mut alloc, "Point"),
        Vec::new(),
        ast::TypeDeclKind::Struct(vec![ast::FunctionFormal::new(
            Symbol::new(&mut alloc, "x"),
            false,
            false,
            x_type,
        )]),
        span(),
    );
    let point_id = point.symbol.identifier.id;
    let inner = ast::ModuleDecl::new(
        Identifier::name(&mut alloc, "inner"),
        vec![ast::Statement::Type(point)],
        span(),
    );
    let inner_point = named_type(&mut alloc, &["inner"], "Point");
    let alias = ast::TypeDecl::new(
        Symbol::new(&mut alloc, "P"),
        Vec::new(),
        ast::TypeDeclKind::Alias(inner_point),
        span(),
    );
    // the alias stands before the submodule, and is resolved after it
    let outer = ast::ModuleDecl::new(
        Identifier::name(&mut alloc, "outer"),
        vec![ast::Statement::Type(alias), ast::Statement::Module(inner)],
        span(),
    );
    let mut resolver = Resolver::new(alloc);
    let m = resolver.resolve_module(&outer).expect("the module resolves");
    assert!(resolver.errors().is_empty(), "{:?}", resolver.errors());
    assert_eq!(m.module_table.len(), 1);
    assert_eq!(m.module_table[0].1.type_table.len(), 1);
    assert_eq!(m.type_table.len(), 1);
    assert_eq!(m.type_table[0].0.name, "P");
    match &m.type_table[0].1 {
        Type::Alias(a) => match &a.inner {
            Type::Struct(s) => {
                assert_eq!(s.symbol.identifier.id, point_id);
                assert_eq!(s.elements.len(), 1);
                assert!(is_primitive(&s.elements[0].ty, PrimitiveType::I64));
            }
            other => panic!("expected a structure, found {:?}", other),
        },
        other => panic!("expected an alias, found {:?}", other),
    }
    // the context holds both modules, the finished ones
    assert_eq!(resolver.context().module_table.len(), 2);
    let held_outer = resolver
        .context()
        .module_table
        .iter()
        .find(|(k, _)| k.name == "outer")
        .expect("the context holds the module");
    assert_eq!(held_outer.1.module_table.len(), 1);
    assert_eq!(held_outer.1.type_table.len(), 1);
    assert_eq!(resolver.context().type_table.len(), 2);
}

#[test]
fn unknown_member_and_unknown_type_are_reported() {
    let mut alloc = IdAllocator::new();
    let inner = ast::ModuleDecl::new(Identifier::name(&mut alloc, "inner"), Vec::new(), span());
    let missing = named_type(&mut alloc, &["inner"], "Nothing");
    let through_nothing = named_type(&mut alloc, &["nowhere"], "T");
    let f = ast::FunctionDecl::new(
        true,
        vec![ast::FunctionFormal::new(Symbol::new(&mut alloc, "a"), false, false, missing)],
        Symbol::new(&mut alloc, "f"),
        through_nothing,
        None,
        span(),
    );
    let outer = ast::ModuleDecl::new(
        Identifier::name(&mut alloc, "outer"),
        vec![ast::Statement::Module(inner), ast::Statement::Function(f)],
        span(),
    );
    let mut resolver = Resolver::new(alloc);
    let m = resolver.resolve_module(&outer).expect("the module resolves");
    assert_eq!(resolver.errors().len(), 2);
    assert_eq!(resolver.errors()[0].kind, ResolverErrKind::UnresolvedSymbol);
    assert_eq!(resolver.errors()[0].name, "Nothing");
    assert_eq!(resolver.errors()[0].span, span());
    assert_eq!(resolver.errors()[1].name, "T");
    let f = &m.function_table[0].1;
    assert!(matches!(f.formals[0].ty, Type::Unresolved(_)));
    assert!(matches!(f.ret, Type::Unresolved(_)));
    assert!(f.body.is_none());
}

#[test]
fn name_of_a_module_is_no_type() {
    let mut alloc = IdAllocator::new();
    let inner = ast::ModuleDecl::new(Identifier::name(&mut alloc, "inner"), Vec::new(), span());
    let wrong = named_type(&mut alloc, &[], "inner");
    let alias = ast::TypeDecl::new(
        Symbol::new(&mut alloc, "A"),
        Vec::new(),
        ast::TypeDeclKind::Alias(wrong),
        span(),
    );
    let outer = ast::ModuleDecl::new(
        Identifier::name(&mut alloc, "outer"),
        vec![ast::Statement::Module(inner), ast::Statement::Type(alias)],
        span(),
    );
    let mut resolver = Resolver::new(alloc);
    resolver.resolve_module(&outer).expect("the module resolves");
    assert_eq!(resolver.errors().len(), 1);
    assert_eq!(resolver.errors()[0].kind, ResolverErrKind::TypeMismatch);
    assert_eq!(resolver.errors()[0].name, "inner");
}

#[test]
fn type_parameters_are_in_scope_of_their_declaration() {
    // type Option a = Some a | Nil
    let mut alloc = IdAllocator::new();
    let a = Symbol::new(&mut alloc, "a");
    let a_id = a.identifier.id;
    let some_type = named_type(&mut alloc, &[], "a");
    let nil_type = ast::Type::Primitive(PrimitiveType::Void);
    let option = ast::TypeDecl::new(
        Symbol::new(&mut alloc, "Option"),
        vec![a],
        ast::TypeDeclKind::Enum(vec![
            ast::FunctionFormal::new(Symbol::new(&mut alloc, "Some"), false, false, some_type),
            ast::FunctionFormal::new(Symbol::new(&mut alloc, "Nil"), false, false, nil_type),
        ]),
        span(),
    );
    let outside = named_type(&mut alloc, &[], "a");
    let alias = ast::TypeDecl::new(
        Symbol::new(&mut alloc, "B"),
        Vec::new(),
        ast::TypeDeclKind::Alias(outside),
        span(),
    );
    let mut resolver = Resolver::new(alloc);
    let option = resolver.resolve_type_decl(&option).expect("the type resolves");
    assert!(resolver.errors().is_empty());
    match option {
        Type::Enum(e) => {
            assert_eq!(e.symbol.identifier.name, "Option");
            assert_eq!(e.params.len(), 1);
            assert_eq!(e.variants.elements.len(), 2);
            match &e.variants.elements[0].ty {
                Type::Generic(g) => assert_eq!(g.identifier.id, a_id),
                other => panic!("expected a type parameter, found {:?}", other),
            }
            assert!(is_primitive(&e.variants.elements[1].ty, PrimitiveType::Void));
        }
        other => panic!("expected an enumeration, found {:?}", other),
    }
    // outside the declaration the parameter is not in scope
    resolver.resolve_type_decl(&alias).expect("the alias is declared");
    assert_eq!(resolver.errors().len(), 1);
    assert_eq!(resolver.errors()[0].name, "a");
}

#[test]
fn redeclared_module_and_function_are_dropped() {
    let mut alloc = IdAllocator::new();
    let first = ast::ModuleDecl::new(Identifier::name(&mut alloc, "twin"), Vec::new(), span());
    let second = ast::ModuleDecl::new(Identifier::name(&mut alloc, "twin"), Vec::new(), span());
    let f = ast::FunctionDecl::new(
        true,
        Vec::new(),
        Symbol::new(&mut alloc, "f"),
        ast::Type::Primitive(PrimitiveType::Void),
        None,
        span(),
    );
    let g = ast::FunctionDecl::new(
        true,
        Vec::new(),
        Symbol::new(&mut alloc, "f"),
        ast::Type::Primitive(PrimitiveType::I8),
        None,
        span(),
    );
    let outer = ast::ModuleDecl::new(
        Identifier::name(&mut alloc, "outer"),
        vec![
            ast::Statement::Module(first),
            ast::Statement::Function(f),
            ast::Statement::Module(second),
            ast::Statement::Function(g),
        ],
        span(),
    );
    let mut resolver = Resolver::new(alloc);
    let m = resolver.resolve_module(&outer).expect("the module resolves");
    assert_eq!(m.module_table.len(), 1);
    assert_eq!(m.function_table.len(), 1);
    assert!(is_primitive(&m.function_table[0].1.ret, PrimitiveType::Void));
    // each dropped declaration is reported once
    let kinds: Vec<_> = resolver.errors().iter().map(|e| (e.kind, e.name.clone())).collect();
    assert_eq!(
        kinds,
        vec![
            (ResolverErrKind::Redeclaration, "twin".to_string()),
            (ResolverErrKind::Redeclaration, "f".to_string()),
        ]
    );
}

#[test]
fn loops_conditionals_and_the_rest() {
    let mut alloc = IdAllocator::new();
    let use_i = item(&mut alloc, &[], "i");
    let for_loop = ast::Expr::For(Box::new(ast::ForExpr::new(
        vec![Symbol::new(&mut alloc, "i")],
        ast::Expr::ListRange(Box::new(ast::ListRangeExpr::new(
            int_literal(1),
            int_literal(100),
            span(),
        ))),
        block(Vec::new(), use_i),
        span(),
    )));
    let after_loop = item(&mut alloc, &[], "i");
    let conditional = ast::Expr::If(Box::new(ast::IfExpr::new(
        ast::Expr::Literal(Box::new(ast::LiteralExpr::Bool(true, span()))),
        block(Vec::new(), int_literal(1)),
        block(Vec::new(), int_literal(0)),
        span(),
    )));
    let tuple = ast::Expr::Tuple(Box::new(ast::TupleExpr::new(
        vec![int_literal(1), ast::Expr::Literal(Box::new(ast::LiteralExpr::Str("s".into(), span())))],
        span(),
    )));
    let reference = ast::Expr::Ref(Box::new(ast::RefExpr::new(int_literal(5), span())));
    let dereference = ast::Expr::Deref(Box::new(ast::DerefExpr::new(reference, span())));
    let channel = ast::Expr::Channel(Box::new(ast::ChannelExpr::new(
        int_literal(1),
        int_literal(2),
        span(),
    )));
    let list = ast::Expr::List(Box::new(ast::ListExpr::new(vec![int_literal(1)], span())));
    let select = ast::Expr::Select(Box::new(ast::SelectExpr::new(vec![void()], span())));
    let whole = block(
        vec![for_loop, after_loop, conditional, tuple, dereference, channel, list, select],
        void(),
    );
    let mut resolver = Resolver::new(alloc);
    let resolved = resolver.resolve_block_expr(&whole);
    assert_eq!(resolved.body.len(), 8);
    let kinds: Vec<_> = resolver.errors().iter().map(|e| (e.kind, e.name.clone())).collect();
    assert_eq!(
        kinds,
        vec![
            // the variable of the loop has no type
            (ResolverErrKind::TypeMismatch, "i".to_string()),
            // and it is in scope in the loop only
            (ResolverErrKind::UnresolvedSymbol, "i".to_string()),
            (ResolverErrKind::TypeMismatch, "select".to_string()),
        ]
    );
    match &resolved.body[0] {
        Expr::For(f) => {
            assert_eq!(f.formals.len(), 1);
            assert!(matches!(f.formals[0].ty, Type::Unresolved(_)));
            match &f.iterator {
                Expr::Literal(l) => assert!(matches!(l.literal, Literal::ListRange(..))),
                other => panic!("expected a literal, found {:?}", other),
            }
            match &f.iteration.ret {
                Expr::Item(i) => match &i.item {
                    Item::Variable(v) => {
                        assert_eq!(v.symbol.identifier.id, f.formals[0].symbol.identifier.id)
                    }
                    other => panic!("expected a variable, found {:?}", other),
                },
                other => panic!("expected an item, found {:?}", other),
            }
        }
        other => panic!("expected a loop, found {:?}", other),
    }
    assert!(matches!(resolved.body[2], Expr::If(_)));
    match &resolved.body[3] {
        Expr::Struct(s) => {
            assert_eq!(s.elements.len(), 2);
            assert!(is_primitive(&s.elements[0].0.ty, PrimitiveType::I64));
            assert!(is_primitive(&s.elements[1].0.ty, PrimitiveType::Str));
            match &s.ty {
                Type::Struct(t) => {
                    assert_eq!(t.elements.len(), 2);
                    assert_eq!(
                        t.elements[1].symbol.identifier.id,
                        s.elements[1].0.symbol.identifier.id
                    );
                }
                other => panic!("expected a structure type, found {:?}", other),
            }
        }
        other => panic!("expected a structure, found {:?}", other),
    }
    assert!(matches!(resolved.body[4], Expr::Deref(_)));
    match (&resolved.body[5], &resolved.body[6]) {
        (Expr::Literal(c), Expr::Literal(l)) => {
            assert!(matches!(c.literal, Literal::Channel(..)));
            assert!(matches!(l.literal, Literal::List(_)));
        }
        other => panic!("expected literals, found {:?}", other),
    }
    assert!(matches!(resolved.body[7], Expr::Void(_)));
}

#[test]
fn resolve_dispatches_on_what_the_parser_hands_on() {
    let mut alloc = IdAllocator::new();
    let module = ast::ModuleDecl::new(Identifier::name(&mut alloc, "m"), Vec::new(), span());
    let twin = ast::ModuleDecl::new(Identifier::name(&mut alloc, "m"), Vec::new(), span());
    let mut resolver = Resolver::new(alloc);
    assert!(matches!(resolver.resolve(&ast::Ast::Nil), Air::Nil));
    assert!(matches!(resolver.resolve(&ast::Ast::Expr(void())), Air::Expr(Expr::Void(_))));
    assert!(matches!(resolver.resolve(&ast::Ast::Module(module)), Air::Module(_)));
    // outside every module, the context is the scope
    assert!(matches!(resolver.resolve(&ast::Ast::Module(twin)), Air::Nil));
    assert_eq!(resolver.errors().len(), 1);
    resolver.resolve_statements(&Vec::new(), Phase::Bodies);
    let (alloc, context, errors) = resolver.finish();
    assert_eq!(alloc.next(), 3);
    assert_eq!(context.module_table.len(), 1);
    assert_eq!(errors.len(), 1);
}

#[test]
fn definition_with_a_type_and_without() {
    let mut alloc = IdAllocator::new();
    let typed = ast::Expr::Assign(Box::new(ast::AssignExpr::new(
        Symbol::new(&mut alloc, "a"),
        Some(ast::Type::Primitive(PrimitiveType::U8)),
        int_literal(1),
        span(),
    )));
    let untyped = ast::Expr::Assign(Box::new(ast::AssignExpr::new(
        Symbol::new(&mut alloc, "b"),
        None,
        ast::Expr::List(Box::new(ast::ListExpr::new(Vec::new(), span()))),
        span(),
    )));
    let mut resolver = Resolver::new(alloc);
    let resolved = resolver.resolve_block_expr(&block(vec![typed, untyped], void()));
    match (&resolved.body[0], &resolved.body[1]) {
        (Expr::Let(a), Expr::Let(b)) => {
            assert!(is_primitive(&a.variable.ty, PrimitiveType::U8));
            assert!(matches!(b.variable.ty, Type::Unresolved(_)));
        }
        other => panic!("expected definitions, found {:?}", other),
    }
    assert_eq!(resolver.errors().len(), 1);
    assert_eq!(resolver.errors()[0].kind, ResolverErrKind::TypeMismatch);
    assert_eq!(resolver.errors()[0].name, "b");
}

#[test]
fn call_of_what_is_no_function_is_a_type_mismatch() {
    let alloc = IdAllocator::new();
    let call = ast::Expr::Call(Box::new(ast::CallExpr::new(
        int_literal(42),
        vec![int_literal(1)],
        span(),
    )));
    let mut resolver = Resolver::new(alloc);
    let resolved = resolver.resolve_block_expr(&block(vec![call], int_literal(7)));
    assert_eq!(resolver.errors().len(), 1);
    assert_eq!(resolver.errors()[0].kind, ResolverErrKind::TypeMismatch);
    assert_eq!(resolver.errors()[0].name, "call");
    assert_eq!(resolver.errors()[0].span, span());
    // the call is there, and what follows it is resolved
    match &resolved.body[0] {
        Expr::Call(c) => assert_eq!(c.arguments.len(), 1),
        other => panic!("expected a call, found {:?}", other),
    }
    assert!(matches!(resolved.ret, Expr::Literal(_)));
}

#[test]
fn tuple_element_without_a_type_is_a_type_mismatch() {
    let alloc = IdAllocator::new();
    let tuple = ast::Expr::Tuple(Box::new(ast::TupleExpr::new(
        vec![
            int_literal(1),
            ast::Expr::List(Box::new(ast::ListExpr::new(Vec::new(), span()))),
        ],
        span(),
    )));
    let mut resolver = Resolver::new(alloc);
    let resolved = resolver.resolve_expr(&tuple);
    assert_eq!(resolver.errors().len(), 1);
    assert_eq!(resolver.errors()[0].kind, ResolverErrKind::TypeMismatch);
    assert_eq!(resolver.errors()[0].name, "tuple");
    match &resolved {
        Expr::Struct(s) => {
            assert!(is_primitive(&s.elements[0].0.ty, PrimitiveType::I64));
            assert!(matches!(s.elements[1].0.ty, Type::Unresolved(_)));
        }
        other => panic!("expected a structure, found {:?}", other),
    }
}

#[test]
fn function_without_a_body_must_be_extern() {
    let mut alloc = IdAllocator::new();
    let bodiless = ast::FunctionDecl::new(
        false,
        Vec::new(),
        Symbol::new(&mut alloc, "f"),
        ast::Type::Primitive(PrimitiveType::Void),
        None,
        span(),
    );
    let external = ast::FunctionDecl::new(
        true,
        Vec::new(),
        Symbol::new(&mut alloc, "g"),
        ast::Type::Primitive(PrimitiveType::Void),
        None,
        span(),
    );
    let mut resolver = Resolver::new(alloc);
    let f = resolver.resolve_function(&bodiless).expect("the function is declared");
    assert!(f.body.is_none());
    assert_eq!(resolver.errors().len(), 1);
    assert_eq!(resolver.errors()[0].kind, ResolverErrKind::MissingBody);
    assert_eq!(resolver.errors()[0].name, "f");
    let g = resolver.resolve_function(&external).expect("the function is declared");
    assert!(g.body.is_none());
    assert_eq!(resolver.errors().len(), 1);
}
