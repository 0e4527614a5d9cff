use arvoc::ast;
use arvoc::ast::visitor::{walk_expr, walk_type, Visitor};
use arvoc::bair::PrimitiveType;
use arvoc::lexer::Span;

/// Writes down the kind of every node that it is handed.
struct Kinds {
    seen: Vec<&'static str>,
}

impl Kinds {
    fn see(&mut self, kind: &'static str) -> usize {
        self.seen.push(kind);
        self.seen.len()
    }
}

impl Visitor for Kinds {
    type Return = usize;

    fn visit_assign_expr(&mut self, _: &ast::AssignExpr) -> usize {
        self.see("assign")
    }
    fn visit_block_expr(&mut self, node: &ast::BlockExpr) -> usize {
        self.see("block");
        for e in node.body.iter() {
            walk_expr(self, e);
        }
        walk_expr(self, &node.ret)
    }
    fn visit_call_expr(&mut self, _: &ast::CallExpr) -> usize {
        self.see("call")
    }
    fn visit_channel_expr(&mut self, _: &ast::ChannelExpr) -> usize {
        self.see("channel")
    }
    fn visit_deref_expr(&mut self, _: &ast::DerefExpr) -> usize {
        self.see("deref")
    }
    fn visit_for_expr(&mut self, _: &ast::ForExpr) -> usize {
        self.see("for")
    }
    fn visit_if_expr(&mut self, _: &ast::IfExpr) -> usize {
        self.see("if")
    }
    fn visit_item_expr(&mut self, _: &ast::ItemExpr) -> usize {
        self.see("item")
    }
    fn visit_list_expr(&mut self, _: &ast::ListExpr) -> usize {
        self.see("list")
    }
    fn visit_list_range_expr(&mut self, _: &ast::ListRangeExpr) -> usize {
        self.see("list range")
    }
    fn visit_literal_expr(&mut self, _: &ast::LiteralExpr) -> usize {
        self.see("literal")
    }
    fn visit_operator_expr(&mut self, _: &ast::OperatorExpr) -> usize {
        self.see("operator")
    }
    fn visit_ref_expr(&mut self, _: &ast::RefExpr) -> usize {
        self.see("ref")
    }
    fn visit_select_expr(&mut self, _: &ast::SelectExpr) -> usize {
        self.see("select")
    }
    fn visit_tuple_expr(&mut self, _: &ast::TupleExpr) -> usize {
        self.see("tuple")
    }
    fn visit_void_expr(&mut self, _: &ast::VoidExpr) -> usize {
        self.see("void")
    }
    fn visit_lambda_type(&mut self, node: &ast::LambdaType) -> usize {
        self.see("lambda");
        walk_type(self, &node.ret)
    }
    fn visit_primitive_type(&mut self, _: &PrimitiveType) -> usize {
        self.see("primitive")
    }
    fn visit_ptr_type(&mut self, _: &ast::PtrType) -> usize {
        self.see("ptr")
    }
    fn visit_ref_type(&mut self, _: &ast::RefType) -> usize {
        self.see("ref type")
    }
    fn visit_struct_type(&mut self, _: &ast::StructType) -> usize {
        self.see("struct")
    }
    fn visit_unresolved_type(&mut self, _: &ast::UnresolvedType) -> usize {
        self.see("unresolved")
    }
    fn visit_function(&mut self, _: &ast::FunctionDecl) -> usize {
        self.see("function")
    }
    fn visit_module(&mut self, _: &ast::ModuleDecl) -> usize {
        self.see("module")
    }
    fn visit_type_decl(&mut self, _: &ast::TypeDecl) -> usize {
        self.see("type")
    }
    fn visit_variable(&mut self, _: &ast::FunctionFormal) -> usize {
        self.see("variable")
    }
}

#[test]
fn walk_hands_each_node_to_the_method_of_its_kind() {
    let span = Span::new("", 1, 1, 1, 1);
    let literal = ast::Expr::Literal(Box::new(ast::LiteralExpr::Int(1, span.clone())));
    let void = ast::Expr::Void(Box::new(ast::VoidExpr::new(span.clone())));
    let block = ast::Expr::Block(Box::new(ast::BlockExpr::new(vec![literal], void, span.clone())));
    let mut kinds = Kinds { seen: Vec::new() };
    assert_eq!(walk_expr(&mut kinds, &block), 3);
    assert_eq!(kinds.seen, vec!["block", "literal", "void"]);
    let lambda = ast::Type::Lambda(Box::new(ast::LambdaType::new(
        Vec::new(),
        ast::Type::Primitive(PrimitiveType::Bool),
        span,
    )));
    assert_eq!(walk_type(&mut kinds, &lambda), 5);
    assert_eq!(kinds.seen[3..], ["lambda", "primitive"]);
}
