use arvoc::lexer::TokenKind::{
    Add, AddEq, And, As, Assign, Bool, BraceL, BraceR, BracketL, BracketR, Char, Colon, Comma,
    Comment, Div, DivEq, Dot, DotDot, Else, Equal, Expose, Extern, Float, For, Func, GreaterThan,
    GreaterThanEq, Ident, If, Import, In, Int, LambdaR, LessThan, LessThanEq, Module, Mul, MulEq,
    Mut, Or, ParenL, ParenR, PushPop, Ref, SemiColon, Str, Sub, SubEq, Type, Whitespace,
    WhitespaceNewline,
};

#[test]
fn test_regex() {

    // Reserved keywords
    assert_eq!(As.is_match("as"), Ok(true));
    assert_eq!(Else.is_match("else"), Ok(true));
    assert_eq!(Extern.is_match("extern"), Ok(true));
    assert_eq!(Expose.is_match("expose"), Ok(true));
    assert_eq!(For.is_match("for"), Ok(true));
    assert_eq!(Func.is_match("fn"), Ok(true));
    assert_eq!(If.is_match("if"), Ok(true));
    assert_eq!(Import.is_match("import"), Ok(true));
    assert_eq!(In.is_match("in"), Ok(true));
    assert_eq!(Module.is_match("module"), Ok(true));
    assert_eq!(Mut.is_match("mut"), Ok(true));
    assert_eq!(Ref.is_match("ref"), Ok(true));
    assert_eq!(Type.is_match("type"), Ok(true));

    // Operators
    assert_eq!(Add.is_match("+"), Ok(true));
    assert_eq!(AddEq.is_match("+="), Ok(true));
    assert_eq!(And.is_match("&&"), Ok(true));
    assert_eq!(Assign.is_match(":="), Ok(true));
    assert_eq!(Div.is_match("/"), Ok(true));
    assert_eq!(DivEq.is_match("/="), Ok(true));
    assert_eq!(Equal.is_match("="), Ok(true));
    assert_eq!(GreaterThan.is_match(">"), Ok(true));
    assert_eq!(GreaterThanEq.is_match(">="), Ok(true));
    assert_eq!(LessThan.is_match("<"), Ok(true));
    assert_eq!(LessThanEq.is_match("<="), Ok(true));
    assert_eq!(Mul.is_match("*"), Ok(true));
    assert_eq!(MulEq.is_match("*="), Ok(true));
    assert_eq!(Or.is_match("||"), Ok(true));
    assert_eq!(PushPop.is_match("<-"), Ok(true));
    assert_eq!(Sub.is_match("-"), Ok(true));
    assert_eq!(SubEq.is_match("-="), Ok(true));

    // Symbols
    assert_eq!(BraceL.is_match("{"), Ok(true));
    assert_eq!(BraceR.is_match("}"), Ok(true));
    assert_eq!(BracketL.is_match("["), Ok(true));
    assert_eq!(BracketR.is_match("]"), Ok(true));
    assert_eq!(Colon.is_match(":"), Ok(true));
    assert_eq!(Comma.is_match(","), Ok(true));
    assert_eq!(Dot.is_match("."), Ok(true));
    assert_eq!(DotDot.is_match(".."), Ok(true));
    assert_eq!(LambdaR.is_match("->"), Ok(true));
    assert_eq!(ParenL.is_match("("), Ok(true));
    assert_eq!(ParenR.is_match(")"), Ok(true));
    assert_eq!(SemiColon.is_match(";"), Ok(true));

    // Whitespace
    assert_eq!(WhitespaceNewline.is_match("\r"), Ok(true));
    assert_eq!(WhitespaceNewline.is_match("\n"), Ok(true));
    assert_eq!(Whitespace.is_match(" "), Ok(true));
    assert_eq!(Whitespace.is_match("\t"), Ok(true));

    // Literals
    assert_eq!(Char.is_match("'a'"), Ok(true));
    assert_eq!(Char.is_match("'ä'"), Ok(true));
    assert_eq!(Char.is_match("'\\u00E4'"), Ok(true));
    assert_eq!(Bool.is_match("true"), Ok(true));
    assert_eq!(Bool.is_match("false"), Ok(true));
    assert_eq!(Float.is_match("0.0"), Ok(true));
    assert_eq!(Float.is_match("3.14"), Ok(true));
    assert_eq!(Float.is_match("1234.5678"), Ok(true));
    assert_eq!(Int.is_match("0"), Ok(true));
    assert_eq!(Int.is_match("314"), Ok(true));
    assert_eq!(Int.is_match("12345678"), Ok(true));
    assert_eq!(Str.is_match("\"Arvo Part\""), Ok(true));
    assert_eq!(Str.is_match("\"Arvo Pärt\""), Ok(true));
    assert_eq!(Str.is_match("\"Arvo Pärt ❤\""), Ok(true));

    // Idents
    assert_eq!(Ident.is_match("arvopart"), Ok(true));
    assert_eq!(Ident.is_match("arvo_part"), Ok(true));
    assert_eq!(Ident.is_match("arvoPart"), Ok(true));
    assert_eq!(Ident.is_match("Arvo_Part"), Ok(true));
    assert_eq!(Ident.is_match("ArvoPart"), Ok(true));

    // Comments
    assert_eq!(Comment.is_match("// This is a commment\n"), Ok(true));
}
