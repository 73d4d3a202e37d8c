use fusionc::ast_builder::LowerError;
use fusionc::ast_builder::build_ast_from_pairs;
use fusionc::ast_builder::build_add_expr;
use fusionc::ast_builder::build_c_import;
use fusionc::ast_builder::build_expression;
use fusionc::ast_builder::build_field_def;
use fusionc::ast_builder::build_func_call;
use fusionc::ast_builder::build_func_def;
use fusionc::ast_builder::build_param_def_list;
use fusionc::ast_builder::build_primary;
use fusionc::ast_builder::build_return_type;
use fusionc::ast_builder::build_var_access;
use fusionc::ast_builder::build_var_decl;
use fusionc::ast_nodes::AddOp;
use fusionc::ast_nodes::Construct;
use fusionc::ast_nodes::ExpressionKind;
use fusionc::ast_nodes::MulOp;
use fusionc::ast_nodes::PrimaryKind;
use fusionc::codegen::gen_code;
use fusionc::parse_tree::ParseNode;
use fusionc::parse_tree::Rule;

fn node(rule: Rule, text: &str, children: Vec<ParseNode>) -> ParseNode {
    ParseNode { rule, text: text.to_string(), children }
}

fn leaf(rule: Rule, text: &str) -> ParseNode {
    node(rule, text, vec![])
}

fn int_expr_node(text: &str) -> ParseNode {
    node(Rule::Expression, text, vec![leaf(Rule::IntLit, text)])
}

fn primary_int(text: &str) -> ParseNode {
    node(Rule::Primary, text, vec![leaf(Rule::IntLit, text)])
}

fn mul_single(text: &str) -> ParseNode {
    node(Rule::MulExpr, text, vec![primary_int(text)])
}

#[test]
fn program_of_one_literal() {
    let root = node(Rule::Program, "5", vec![int_expr_node("5"), leaf(Rule::EOI, "")]);
    let program = build_ast_from_pairs(&root).unwrap();
    assert_eq!(program.expressions.len(), 1);
    assert_eq!(program.expressions[0].kind, ExpressionKind::IntLit(5));
}

#[test]
fn root_must_be_program() {
    let root = int_expr_node("5");
    let err = build_ast_from_pairs(&root).unwrap_err();
    assert_eq!(err, LowerError::Structure { rule: Rule::Expression, at: "5".to_string() });
}

#[test]
fn stray_node_in_program_is_structural() {
    let root = node(Rule::Program, "", vec![leaf(Rule::Block, "{}")]);
    let err = build_ast_from_pairs(&root).unwrap_err();
    assert_eq!(err, LowerError::Structure { rule: Rule::Block, at: "{}".to_string() });
}

#[test]
fn add_chain_folds_left() {
    // 5 - 2 + 1: first operand, then strictly alternating operator and
    // operand children.
    let chain = node(
        Rule::AddExpr,
        "5-2+1",
        vec![
            mul_single("5"),
            leaf(Rule::Subtract, "-"),
            mul_single("2"),
            leaf(Rule::Add, "+"),
            mul_single("1"),
        ],
    );
    let add = build_add_expr(&chain).unwrap();
    assert_eq!(add.addent.len(), 2);
    assert_eq!(add.left.left.kind, PrimaryKind::IntLit(5));
    assert_eq!(add.addent[0].op, AddOp::Subtract);
    assert_eq!(add.addent[0].value.left.kind, PrimaryKind::IntLit(2));
    assert_eq!(add.addent[1].op, AddOp::Add);
    assert_eq!(add.addent[1].value.left.kind, PrimaryKind::IntLit(1));
}

#[test]
fn trailing_operator_is_rejected() {
    // A chain ending in an operator with no following operand fails,
    // blaming the chain node.
    let chain = node(
        Rule::AddExpr,
        "5-",
        vec![mul_single("5"), leaf(Rule::Subtract, "-")],
    );
    let err = build_add_expr(&chain).unwrap_err();
    assert_eq!(err, LowerError::Structure { rule: Rule::AddExpr, at: "5-".to_string() });
}

#[test]
fn misplaced_operator_is_blamed() {
    let chain = node(
        Rule::AddExpr,
        "5*2",
        vec![mul_single("5"), leaf(Rule::Multiply, "*"), mul_single("2")],
    );
    let err = build_add_expr(&chain).unwrap_err();
    assert_eq!(err, LowerError::Structure { rule: Rule::Multiply, at: "*".to_string() });
}

#[test]
fn mul_chain_inside_add_chain() {
    let mul = node(
        Rule::MulExpr,
        "3*4",
        vec![primary_int("3"), leaf(Rule::Multiply, "*"), primary_int("4")],
    );
    let chain = node(Rule::AddExpr, "2+3*4", vec![mul_single("2"), leaf(Rule::Add, "+"), mul]);
    let add = build_add_expr(&chain).unwrap();
    assert_eq!(add.addent[0].value.factor.len(), 1);
    assert_eq!(add.addent[0].value.factor[0].op, MulOp::Multiply);
}

#[test]
fn integer_literal_parses() {
    let e = build_expression(&int_expr_node("2147483647")).unwrap();
    assert_eq!(e.kind, ExpressionKind::IntLit(2147483647));
    let e = build_expression(&int_expr_node("-2147483648")).unwrap();
    assert_eq!(e.kind, ExpressionKind::IntLit(-2147483648));
    let e = build_expression(&int_expr_node("007")).unwrap();
    assert_eq!(e.kind, ExpressionKind::IntLit(7));
}

#[test]
fn integer_overflow_is_literal_error() {
    let err = build_expression(&int_expr_node("2147483648")).unwrap_err();
    assert_eq!(err, LowerError::Literal { text: "2147483648".to_string() });
    let err = build_expression(&int_expr_node("-2147483649")).unwrap_err();
    assert_eq!(err, LowerError::Literal { text: "-2147483649".to_string() });
}

#[test]
fn malformed_integer_is_literal_error() {
    let err = build_expression(&int_expr_node("1x")).unwrap_err();
    assert_eq!(err, LowerError::Literal { text: "1x".to_string() });
}

#[test]
fn string_literal_kept_verbatim_without_quotes() {
    // The inner text is captured verbatim, escape sequences included;
    // escaping is the code generator's job, done once at emission.
    let e = build_expression(
        &node(Rule::Expression, "\"a\\b\"", vec![leaf(Rule::StrLit, "\"a\\b\"")]),
    )
    .unwrap();
    assert_eq!(e.kind, ExpressionKind::StrLit("a\\b".to_string()));
}

#[test]
fn unquoted_string_literal_is_structural() {
    let err = build_expression(
        &node(Rule::Expression, "abc", vec![leaf(Rule::StrLit, "abc")]),
    )
    .unwrap_err();
    assert_eq!(err, LowerError::Structure { rule: Rule::StrLit, at: "abc".to_string() });
}

#[test]
fn c_import_keeps_angle_brackets() {
    let imp = node(Rule::CImport, "import \"<stdio.h>\"", vec![leaf(
        Rule::StrLit,
        "\"<stdio.h>\"",
    )]);
    let c = build_c_import(&imp).unwrap();
    assert_eq!(c.module, "<stdio.h>");
}

#[test]
fn var_access_reads_identifier() {
    let v = build_var_access(&node(Rule::VarAccess, "x", vec![leaf(Rule::Ident, "x")])).unwrap();
    assert_eq!(v.name, "x");
}

#[test]
fn var_decl_is_not_lowered() {
    let err = build_var_decl(&leaf(Rule::VarDecl, "let x = 1")).unwrap_err();
    assert_eq!(err, LowerError::Unsupported { construct: Construct::VariableDeclaration });
}

#[test]
fn func_call_lowers_name_and_args() {
    let call = node(
        Rule::FuncCall,
        "add(2, 3)",
        vec![
            leaf(Rule::Ident, "add"),
            node(Rule::ParamList, "2, 3", vec![int_expr_node("2"), int_expr_node("3")]),
        ],
    );
    let fc = build_func_call(&call).unwrap();
    assert_eq!(fc.name, "add");
    assert_eq!(fc.params.len(), 2);
    assert_eq!(fc.params[0].kind, ExpressionKind::IntLit(2));
}

#[test]
fn func_def_requires_body() {
    let def = node(Rule::FuncDef, "fn f()", vec![leaf(Rule::Ident, "f")]);
    let err = build_func_def(&def).unwrap_err();
    assert_eq!(err, LowerError::Structure { rule: Rule::FuncDef, at: "fn f()".to_string() });
}

#[test]
fn func_def_lowers_params_body_and_return_type() {
    let def = node(
        Rule::FuncDef,
        "fn add(a: int, b: int) -> int { return 1 }",
        vec![
            leaf(Rule::Ident, "add"),
            node(
                Rule::ParamDefList,
                "a: int, b: int",
                vec![
                    node(Rule::FieldDef, "a: int", vec![
                        leaf(Rule::Ident, "a"),
                        leaf(Rule::Ident, "int"),
                    ]),
                    node(Rule::FieldDef, "b: int", vec![
                        leaf(Rule::Ident, "b"),
                        leaf(Rule::Ident, "int"),
                    ]),
                ],
            ),
            node(Rule::ReturnType, "-> int", vec![leaf(Rule::Ident, "int")]),
            node(Rule::Block, "{ return 1 }", vec![
                node(Rule::Expression, "return 1", vec![
                    node(Rule::ReturnExpr, "return 1", vec![int_expr_node("1")]),
                ]),
            ]),
        ],
    );
    let f = build_func_def(&def).unwrap();
    assert_eq!(f.name, "add");
    assert_eq!(f.params.len(), 2);
    assert_eq!(f.params[1].name, "b");
    assert_eq!(f.params[1].param_type, "int");
    assert_eq!(f.return_type, Some("int".to_string()));
    assert_eq!(f.body.expressions.len(), 1);
}

#[test]
fn field_def_needs_name_and_type() {
    let err = build_field_def(
        &node(Rule::FieldDef, "a", vec![leaf(Rule::Ident, "a")]),
    )
    .unwrap_err();
    assert_eq!(err, LowerError::Structure { rule: Rule::FieldDef, at: "a".to_string() });
}

#[test]
fn param_def_list_preserves_order() {
    let list = node(
        Rule::ParamDefList,
        "x: a, y: b",
        vec![
            node(Rule::FieldDef, "x: a", vec![leaf(Rule::Ident, "x"), leaf(Rule::Ident, "a")]),
            node(Rule::FieldDef, "y: b", vec![leaf(Rule::Ident, "y"), leaf(Rule::Ident, "b")]),
        ],
    );
    let ps = build_param_def_list(&list).unwrap();
    assert_eq!(ps.len(), 2);
    assert_eq!(ps[0].name, "x");
    assert_eq!(ps[1].name, "y");
}

#[test]
fn return_type_reads_identifier() {
    let rt = build_return_type(
        &node(Rule::ReturnType, "-> int", vec![leaf(Rule::Ident, "int")]),
    )
    .unwrap();
    assert_eq!(rt, "int");
}

#[test]
fn primary_dispatches_on_child() {
    let p = build_primary(&primary_int("6")).unwrap();
    assert_eq!(p.kind, PrimaryKind::IntLit(6));
    let p = build_primary(
        &node(Rule::Primary, "x", vec![node(Rule::VarAccess, "x", vec![leaf(Rule::Ident, "x")])]),
    )
    .unwrap();
    assert!(matches!(p.kind, PrimaryKind::VarAccess(_)));
    let err = build_primary(&node(Rule::Primary, "f()", vec![leaf(Rule::FuncCall, "f()")]))
        .unwrap_err();
    assert_eq!(err, LowerError::Structure { rule: Rule::FuncCall, at: "f()".to_string() });
}

#[test]
fn lowered_program_generates_code() {
    // The two verified stages compose: parse tree in, C text out.
    let chain = node(
        Rule::AddExpr,
        "5-2+1",
        vec![
            mul_single("5"),
            leaf(Rule::Subtract, "-"),
            mul_single("2"),
            leaf(Rule::Add, "+"),
            mul_single("1"),
        ],
    );
    let root = node(
        Rule::Program,
        "5-2+1",
        vec![node(Rule::Expression, "5-2+1", vec![chain]), leaf(Rule::EOI, "")],
    );
    let program = build_ast_from_pairs(&root).unwrap();
    let unit = gen_code(&program).unwrap();
    assert_eq!(unit, "typedef char* string;int main(){5-2+1;return 0;}");
}

#[test]
fn later_block_overwrites_earlier() {
    // Repeated pieces of a function definition: the later one wins.
    let def = node(
        Rule::FuncDef,
        "fn f",
        vec![
            leaf(Rule::Ident, "f"),
            node(Rule::Block, "{ 1 }", vec![int_expr_node("1")]),
            node(Rule::Block, "{ 2 }", vec![int_expr_node("2")]),
        ],
    );
    let f = build_func_def(&def).unwrap();
    assert_eq!(f.body.expressions.len(), 1);
    assert_eq!(f.body.expressions[0].kind, ExpressionKind::IntLit(2));
}

#[test]
fn empty_program_lowers_to_empty_ast() {
    let root = node(Rule::Program, "", vec![leaf(Rule::EOI, "")]);
    let program = build_ast_from_pairs(&root).unwrap();
    assert!(program.expressions.is_empty());
}
