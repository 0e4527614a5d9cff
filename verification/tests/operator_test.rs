use arvoc::air::prelude::{Family, Prelude, Runtime, PRELUDE_LEN};
use arvoc::air::typedef::Typedef;
use arvoc::air::{Expr, Item, PrimitiveType, Type};
use arvoc::ast;
use arvoc::ast::decl::{decl_add_operator, decl_binary_operator};
use arvoc::identifier::{IdAllocator, Identifier};
use arvoc::lexer::Span;
use arvoc::resolver::{Resolver, ResolverErrKind};

fn span() -> Span {
    Span::new("", 1, 1, 1, 1)
}

fn int_literal(value: i64) -> ast::Expr {
    ast::Expr::Literal(Box::new(ast::LiteralExpr::Int(value, span())))
}

fn plus(lhs: ast::Expr, rhs: ast::Expr) -> ast::Expr {
    ast::Expr::from(ast::BinaryOperatorExpr::new(ast::Operator::Add(span()), lhs, rhs, span()))
}

fn is_primitive(t: &Type, p: PrimitiveType) -> bool {
    match t {
        Type::Primitive(q) => **q == p,
        _ => false,
    }
}

#[test]
fn prelude_holds_every_function_once() {
    let mut alloc = IdAllocator::new();
    let prelude = Prelude::new(&mut alloc);
    assert_eq!(prelude.functions().len(), PRELUDE_LEN);
    assert_eq!(prelude.functions().len(), 86);
    // four operators take three identities each, the others two
    assert_eq!(alloc.next(), 44 * 3 + 42 * 2);
    let mut names: Vec<String> =
        prelude.functions().iter().map(|f| f.symbol.identifier.name.clone()).collect();
    assert_eq!(names[0], "__libprelude__add_f32");
    assert_eq!(names[85], "__libprelude__writeln_usize");
    names.sort();
    names.dedup();
    assert_eq!(names.len(), 86);
    let mut ids: Vec<u64> = prelude.functions().iter().map(|f| f.symbol.identifier.id).collect();
    ids.dedup();
    assert_eq!(ids.len(), 86);
}

#[test]
fn prelude_getters_give_the_profiles() {
    let mut alloc = IdAllocator::new();
    let prelude = Prelude::new(&mut alloc);
    let add = prelude.add_i64_fn();
    assert_eq!(add.symbol.identifier.name, "__libprelude__add_i64");
    assert_eq!(add.formals.len(), 2);
    assert_eq!(add.formals[0].symbol.identifier.name, "x");
    assert_eq!(add.formals[1].symbol.identifier.name, "y");
    assert!(is_primitive(&add.formals[0].ty, PrimitiveType::I64));
    assert!(is_primitive(&add.ret, PrimitiveType::I64));
    assert!(add.body.is_none());
    let concat = prelude.concat_string_bool_fn();
    assert_eq!(concat.symbol.identifier.name, "__libprelude__concat_string_bool");
    assert_eq!(concat.formals.len(), 1);
    assert!(is_primitive(&concat.formals[0].ty, PrimitiveType::Bool));
    assert!(is_primitive(&concat.ret, PrimitiveType::Str));
    let writeln = prelude.writeln_string_fn();
    assert_eq!(writeln.symbol.identifier.name, "__libprelude__writeln_string");
    assert!(is_primitive(&writeln.formals[0].ty, PrimitiveType::Str));
    assert!(is_primitive(&writeln.ret, PrimitiveType::Void));
    assert_eq!(prelude.sub_usize_fn().symbol.identifier.name, "__libprelude__sub_usize");
    assert_eq!(prelude.div_f32_fn().symbol.identifier.name, "__libprelude__div_f32");
    assert_eq!(prelude.mul_u8_fn().symbol.identifier.name, "__libprelude__mul_u8");
    assert_eq!(prelude.write_char_fn().symbol.identifier.name, "__libprelude__write_char");
}

#[test]
fn family_names_and_results() {
    assert_eq!(Family::Add.name(), "add");
    assert_eq!(Family::ConcatString.name(), "concat_string");
    assert!(Family::Mul.is_binary());
    assert!(!Family::Write.is_binary());
    assert_eq!(Family::Sub.result(PrimitiveType::U16), PrimitiveType::U16);
    assert_eq!(Family::ConcatString.result(PrimitiveType::U16), PrimitiveType::Str);
    assert_eq!(Family::Writeln.result(PrimitiveType::U16), PrimitiveType::Void);
}

#[test]
fn runtime_functions() {
    let mut alloc = IdAllocator::new();
    let runtime = Runtime::new(&mut alloc);
    assert_eq!(alloc.next(), 4);
    assert_eq!(runtime.process_fn.symbol.identifier.name, "__libruntime__process");
    assert_eq!(runtime.process_fn.formals[0].symbol.identifier.name, "f");
    match &runtime.process_fn.formals[0].ty {
        Type::Lambda(l) => {
            assert!(l.formals.is_empty());
            assert!(is_primitive(&l.ret, PrimitiveType::Void));
        }
        other => panic!("expected a lambda, found {:?}", other),
    }
    match &runtime.process_fn.ret {
        Type::Ptr(p) => assert!(is_primitive(&p.inner, PrimitiveType::I8)),
        other => panic!("expected a pointer, found {:?}", other),
    }
    assert_eq!(runtime.process_join_fn.symbol.identifier.name, "__libruntime__process_join");
    assert_eq!(runtime.process_join_fn.formals[0].symbol.identifier.name, "process");
    assert!(is_primitive(&runtime.process_join_fn.ret, PrimitiveType::Void));
    let both = runtime.functions();
    assert_eq!(both.len(), 2);
    assert_eq!(both[0].symbol.identifier.id, 0);
    assert_eq!(both[1].symbol.identifier.id, 2);
}

#[test]
fn operator_resolves_to_a_call_of_the_prelude_function() {
    let mut alloc = IdAllocator::new();
    let prelude = Prelude::new(&mut alloc);
    let add_id = prelude.add_i64_fn().symbol.identifier.id;
    let root = arvoc::air::Module::new(
        arvoc::identifier::Symbol::new(&mut alloc, "root"),
        Vec::new(),
        Vec::new(),
        Vec::new(),
    );
    let mut resolver = Resolver::new(alloc);
    // the functions are declared in a module that stays open
    resolver.push_module(root);
    resolver.declare_functions(prelude.functions(), &span());
    assert!(resolver.errors().is_empty());
    assert_eq!(resolver.context().function_table.len(), 86);
    let resolved = resolver.resolve_expr(&plus(int_literal(1), int_literal(2)));
    assert!(resolver.errors().is_empty());
    match &resolved {
        Expr::Call(c) => {
            assert_eq!(c.arguments.len(), 2);
            match &c.target {
                Expr::Item(i) => match &i.item {
                    Item::Function(f) => {
                        assert_eq!(f.symbol.identifier.name, "__libprelude__add_i64");
                        assert_eq!(f.symbol.identifier.id, add_id);
                    }
                    other => panic!("expected a function, found {:?}", other),
                },
                other => panic!("expected an item, found {:?}", other),
            }
        }
        other => panic!("expected a call, found {:?}", other),
    }
    let ty = resolved.typedef().expect("the call has a type");
    assert!(is_primitive(&ty, PrimitiveType::I64));
    let root = resolver.pop_module().expect("the module is open");
    assert_eq!(root.function_table.len(), 86);
    assert!(resolver.pop_module().is_none());
}

#[test]
fn outermost_scope_holds_what_is_declared_outside_every_module() {
    let mut resolver = Resolver::new(IdAllocator::new());
    resolver.open_root();
    resolver.declare_prelude(&span());
    assert!(resolver.errors().is_empty());
    assert_eq!(resolver.allocator().next(), 1 + 44 * 3 + 42 * 2);
    match resolver.lookup(&"__libprelude__writeln_string".to_string()) {
        Some(Item::Function(f)) => assert_eq!(f.formals.len(), 1),
        other => panic!("expected a function, found {:?}", other),
    }
    // declaring the prelude twice redeclares every function
    resolver.declare_prelude(&span());
    assert_eq!(resolver.errors().len(), 86);
    let root = resolver.pop_module().expect("the outermost scope is open");
    assert_eq!(root.symbol.identifier.id, 0);
    assert_eq!(root.symbol.identifier.name, "");
    assert_eq!(root.function_table.len(), 86);
}

#[test]
fn declarations_outside_every_module_are_not_in_scope() {
    let mut alloc = IdAllocator::new();
    let prelude = Prelude::new(&mut alloc);
    let mut resolver = Resolver::new(alloc);
    resolver.declare_functions(prelude.functions(), &span());
    assert_eq!(resolver.context().function_table.len(), 86);
    assert!(resolver.lookup(&"__libprelude__add_i64".to_string()).is_none());
}

#[test]
fn operator_without_declaration_is_unresolved() {
    let mut resolver = Resolver::new(IdAllocator::new());
    let resolved = resolver.resolve_expr(&plus(int_literal(1), int_literal(2)));
    assert_eq!(resolver.errors().len(), 1);
    assert_eq!(resolver.errors()[0].kind, ResolverErrKind::UnresolvedSymbol);
    assert_eq!(resolver.errors()[0].name, "__libprelude__add_i64");
    match &resolved {
        Expr::Call(c) => {
            assert!(matches!(c.target, Expr::Void(_)));
            assert_eq!(c.arguments.len(), 2);
        }
        other => panic!("expected a call, found {:?}", other),
    }
    // a call of the expression without a value has no type
    assert!(resolved.typedef().is_none());
}

#[test]
fn operator_on_an_untyped_operand_is_a_type_mismatch() {
    let mut resolver = Resolver::new(IdAllocator::new());
    let list = ast::Expr::List(Box::new(ast::ListExpr::new(vec![int_literal(1)], span())));
    let _ = resolver.resolve_expr(&plus(list, int_literal(2)));
    assert_eq!(resolver.errors().len(), 1);
    assert_eq!(resolver.errors()[0].kind, ResolverErrKind::TypeMismatch);
    assert_eq!(resolver.errors()[0].name, "add");
}

#[test]
fn declared_operator_resolves_inside_a_module() {
    let mut alloc = IdAllocator::new();
    let add = decl_add_operator(&mut alloc, PrimitiveType::I64, span());
    assert!(add.is_extern);
    assert_eq!(add.symbol.identifier.name, "__libprelude__add_i64");
    assert_eq!(add.formals.len(), 2);
    assert_eq!(add.formals[0].symbol.identifier.id, 0);
    assert_eq!(add.formals[1].symbol.identifier.id, 1);
    assert_eq!(add.symbol.identifier.id, 2);
    let shift = decl_binary_operator(&mut alloc, "shl", PrimitiveType::U8, span());
    assert_eq!(shift.symbol.identifier.name, "__libprelude__shl_u8");
    let f = ast::FunctionDecl::new(
        false,
        Vec::new(),
        arvoc::identifier::Symbol::new(&mut alloc, "three"),
        ast::Type::Primitive(PrimitiveType::I64),
        Some(plus(int_literal(1), int_literal(2))),
        span(),
    );
    let module = ast::ModuleDecl::new(
        Identifier::name(&mut alloc, "m"),
        vec![ast::Statement::Function(f), ast::Statement::Function(add)],
        span(),
    );
    let mut resolver = Resolver::new(alloc);
    let m = resolver.resolve_module(&module).expect("the module resolves");
    assert!(resolver.errors().is_empty());
    let three = &m.function_table[0].1;
    let body = three.body.as_ref().expect("the function has a body");
    // a bare expression body is wrapped in a block of its own
    assert!(body.body.is_empty());
    assert!(matches!(body.ret, Expr::Call(_)));
    assert!(is_primitive(&body.typedef().unwrap(), PrimitiveType::I64));
    // the extern function has no body
    assert!(m.function_table[1].1.body.is_none());
}

#[test]
fn redeclared_function_is_not_declared() {
    let mut alloc = IdAllocator::new();
    let first = arvoc::air::prelude::function(&mut alloc, Family::Add, PrimitiveType::I8);
    let second = arvoc::air::prelude::function(&mut alloc, Family::Add, PrimitiveType::I8);
    let mut resolver = Resolver::new(alloc);
    assert!(resolver.declare_function(&first, &span()));
    assert!(!resolver.declare_function(&second, &span()));
    // declaring the same function again is no redeclaration
    assert!(resolver.declare_function(&first, &span()));
    assert_eq!(resolver.context().function_table.len(), 1);
    assert_eq!(resolver.errors().len(), 1);
    assert_eq!(resolver.errors()[0].kind, ResolverErrKind::Redeclaration);
}
