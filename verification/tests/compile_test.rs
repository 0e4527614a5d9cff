use arvoc::air::typedef::Typedef;
use arvoc::air::{Expr, PrimitiveType, Type};
use arvoc::compile;
use arvoc::lexer::scan::LexErr;
use arvoc::resolver::ResolverErrKind;

#[test]
fn compile_a_literal() {
    let compiled = compile("42").expect("the text has tokens");
    assert!(compiled.parser.errors().is_empty());
    assert!(compiled.resolver.errors().is_empty());
    match compiled.resolved {
        Some(Expr::Literal(l)) => {
            // the outermost scope and the prelude come first
            assert_eq!(l.identifier.id, 1 + 44 * 3 + 42 * 2);
            match l.typedef() {
                Some(Type::Primitive(p)) => assert_eq!(*p, PrimitiveType::I64),
                other => panic!("expected a primitive type, found {:?}", other),
            }
        }
        other => panic!("expected a literal, found {:?}", other),
    }
}

fn called(e: &Expr) -> (String, &Expr, &Expr) {
    match e {
        Expr::Call(c) => match &c.target {
            Expr::Item(i) => match &i.item {
                arvoc::air::Item::Function(f) => {
                    (f.symbol.identifier.name.clone(), &c.arguments[0], &c.arguments[1])
                }
                other => panic!("expected a function, found {:?}", other),
            },
            other => panic!("expected an item, found {:?}", other),
        },
        other => panic!("expected a call, found {:?}", other),
    }
}

#[test]
fn compile_a_sum() {
    let compiled = compile("1+2*3").expect("the text has tokens");
    assert!(compiled.parser.errors().is_empty());
    assert!(compiled.resolver.errors().is_empty());
    let resolved = compiled.resolved.expect("the expression resolves");
    let (add, one, product) = called(&resolved);
    assert_eq!(add, "__libprelude__add_i64");
    assert!(matches!(one, Expr::Literal(_)));
    let (mul, two, three) = called(product);
    assert_eq!(mul, "__libprelude__mul_i64");
    assert!(matches!(two, Expr::Literal(_)));
    assert!(matches!(three, Expr::Literal(_)));
    match resolved.typedef() {
        Some(Type::Primitive(p)) => assert_eq!(*p, PrimitiveType::I64),
        other => panic!("expected a primitive type, found {:?}", other),
    }
}

#[test]
fn compile_an_operator_that_nothing_stands_for() {
    // no function stands for the subtraction of strings
    let compiled = compile("\"a\" - \"b\"").expect("the text has tokens");
    assert!(compiled.parser.errors().is_empty());
    assert_eq!(compiled.resolver.errors().len(), 1);
    assert_eq!(compiled.resolver.errors()[0].kind, ResolverErrKind::UnresolvedSymbol);
    assert_eq!(compiled.resolver.errors()[0].name, "__libprelude__sub_string");
}

#[test]
fn compile_reports_what_is_no_token() {
    assert!(matches!(compile("1 # 2"), Err(LexErr::Unexpected { .. })));
    let compiled = compile("").expect("the empty text has no tokens");
    assert!(compiled.syntax.is_none());
    assert!(compiled.resolved.is_none());
    assert_eq!(compiled.parser.errors().len(), 1);
}
