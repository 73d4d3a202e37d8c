use fusionc::ast_nodes::AddExprNode;
use fusionc::ast_nodes::AddExprPart;
use fusionc::ast_nodes::AddOp;
use fusionc::ast_nodes::BlockNode;
use fusionc::ast_nodes::CImportNode;
use fusionc::ast_nodes::Construct;
use fusionc::ast_nodes::ExpressionKind;
use fusionc::ast_nodes::ExpressionNode;
use fusionc::ast_nodes::FuncCallNode;
use fusionc::ast_nodes::FuncDefNode;
use fusionc::ast_nodes::FuncParam;
use fusionc::ast_nodes::MulExprNode;
use fusionc::ast_nodes::MulExprPart;
use fusionc::ast_nodes::MulOp;
use fusionc::ast_nodes::PrimaryKind;
use fusionc::ast_nodes::PrimaryNode;
use fusionc::ast_nodes::ProgramNode;
use fusionc::ast_nodes::ReturnExprNode;
use fusionc::ast_nodes::VarAccessNode;
use fusionc::ast_nodes::VarDeclNode;
use fusionc::codegen::CodeGenError;
use fusionc::codegen::Context;
use fusionc::codegen::gen_code;
use fusionc::codegen::walk_add_expr;
use fusionc::codegen::walk_c_import;
use fusionc::codegen::walk_expression;
use fusionc::codegen::walk_func_call;
use fusionc::codegen::walk_func_def;
use fusionc::codegen::walk_func_def_params;
use fusionc::codegen::walk_mul_expr_node;
use fusionc::codegen::walk_primary;
use fusionc::codegen::walk_program;
use fusionc::codegen::walk_return_expr;
use fusionc::codegen::walk_str_lit;

fn int_primary(n: i32) -> PrimaryNode {
    PrimaryNode { kind: PrimaryKind::IntLit(n) }
}

fn var_primary(name: &str) -> PrimaryNode {
    PrimaryNode { kind: PrimaryKind::VarAccess(VarAccessNode { name: name.to_string() }) }
}

fn mul_single(p: PrimaryNode) -> MulExprNode {
    MulExprNode { left: p, factor: vec![] }
}

fn int_expr(n: i32) -> ExpressionNode {
    ExpressionNode { kind: ExpressionKind::IntLit(n) }
}

#[test]
fn left_fold_three_operands() {
    // Operands [5, 2, 1] with operators [Subtract, Add] must fold left:
    // 5-2+1, never 5-(2+1).
    let add = AddExprNode {
        left: mul_single(int_primary(5)),
        addent: vec![
            AddExprPart { op: AddOp::Subtract, value: mul_single(int_primary(2)) },
            AddExprPart { op: AddOp::Add, value: mul_single(int_primary(1)) },
        ],
    };
    let mut ctx = Context::default();
    assert_eq!(walk_add_expr(&add, &mut ctx).unwrap(), "5-2+1");
}

#[test]
fn precedence_needs_no_parentheses() {
    // The AST of 2 + 3*4 renders as 2+3*4 with implicit precedence.
    let mul = MulExprNode {
        left: int_primary(3),
        factor: vec![MulExprPart { op: MulOp::Multiply, value: int_primary(4) }],
    };
    let add = AddExprNode {
        left: mul_single(int_primary(2)),
        addent: vec![AddExprPart { op: AddOp::Add, value: mul }],
    };
    let mut ctx = Context::default();
    assert_eq!(walk_add_expr(&add, &mut ctx).unwrap(), "2+3*4");
}

#[test]
fn division_and_subtraction_symbols() {
    let mul = MulExprNode {
        left: int_primary(8),
        factor: vec![MulExprPart { op: MulOp::Divide, value: int_primary(2) }],
    };
    let add = AddExprNode {
        left: mul,
        addent: vec![AddExprPart { op: AddOp::Subtract, value: mul_single(int_primary(1)) }],
    };
    let mut ctx = Context::default();
    assert_eq!(walk_add_expr(&add, &mut ctx).unwrap(), "8/2-1");
}

#[test]
fn string_literal_escaped_once() {
    // A backslash and a double quote are each escaped exactly once.
    let s = "a\\b\"c";
    assert_eq!(walk_str_lit(s), "\"a\\\\b\\\"c\"");
}

#[test]
fn string_literal_plain_text_kept() {
    assert_eq!(walk_str_lit("hello"), "\"hello\"");
    assert_eq!(walk_str_lit(""), "\"\"");
}

#[test]
fn int_literal_renders_decimal() {
    let mut ctx = Context::default();
    assert_eq!(walk_expression(&int_expr(0), &mut ctx).unwrap(), "0");
    assert_eq!(walk_expression(&int_expr(-7), &mut ctx).unwrap(), "-7");
    assert_eq!(walk_expression(&int_expr(i32::MAX), &mut ctx).unwrap(), "2147483647");
    assert_eq!(walk_expression(&int_expr(i32::MIN), &mut ctx).unwrap(), "-2147483648");
}

#[test]
fn func_call_joins_arguments() {
    let call = FuncCallNode { name: "add".to_string(), params: vec![int_expr(2), int_expr(3)] };
    let mut ctx = Context::default();
    assert_eq!(walk_func_call(&call, &mut ctx).unwrap(), "add(2, 3)");
}

#[test]
fn func_call_no_arguments() {
    let call = FuncCallNode { name: "f".to_string(), params: vec![] };
    let mut ctx = Context::default();
    assert_eq!(walk_func_call(&call, &mut ctx).unwrap(), "f()");
}

#[test]
fn return_expr_renders_with_semicolon() {
    let ret = ReturnExprNode { expression: Box::new(int_expr(4)) };
    let mut ctx = Context::default();
    assert_eq!(walk_return_expr(&ret, &mut ctx).unwrap(), "return 4;");
}

#[test]
fn params_render_type_then_name() {
    let params = vec![
        FuncParam { name: "a".to_string(), param_type: "int".to_string() },
        FuncParam { name: "b".to_string(), param_type: "string".to_string() },
    ];
    assert_eq!(walk_func_def_params(&params), "int a, string b");
    assert_eq!(walk_func_def_params(&vec![]), "");
}

#[test]
fn func_def_is_hoisted_not_returned() {
    let def = FuncDefNode {
        name: "f".to_string(),
        params: vec![],
        body: BlockNode {
            expressions: vec![
                ExpressionNode {
                    kind: ExpressionKind::ReturnExpr(
                        ReturnExprNode { expression: Box::new(int_expr(3)) },
                    ),
                },
            ],
        },
        return_type: Some("int".to_string()),
    };
    let mut ctx = Context::default();
    walk_func_def(&def, &mut ctx).unwrap();
    assert_eq!(ctx.function_declarations, vec!["int f() { return 3; }".to_string()]);
    assert_eq!(ctx.main_function_content, "");
    assert!(ctx.imports.is_empty());
}

#[test]
fn func_def_defaults_to_int_return() {
    let def = FuncDefNode {
        name: "g".to_string(),
        params: vec![],
        body: BlockNode { expressions: vec![] },
        return_type: None,
    };
    let mut ctx = Context::default();
    walk_func_def(&def, &mut ctx).unwrap();
    assert_eq!(ctx.function_declarations, vec!["int g() {  }".to_string()]);
}

#[test]
fn c_import_contributes_one_line() {
    let imp = CImportNode { module: "<stdio.h>".to_string() };
    let mut ctx = Context::default();
    walk_c_import(&imp, &mut ctx);
    assert_eq!(ctx.imports, vec!["#include <stdio.h>\n".to_string()]);
    assert_eq!(ctx.main_function_content, "");
    assert!(ctx.function_declarations.is_empty());
}

#[test]
fn declaration_hoisting_keeps_statement_order() {
    // A definition between two expressions never appears inline in main;
    // the surrounding expressions keep their order.
    let def = FuncDefNode {
        name: "f".to_string(),
        params: vec![],
        body: BlockNode {
            expressions: vec![
                ExpressionNode {
                    kind: ExpressionKind::ReturnExpr(
                        ReturnExprNode { expression: Box::new(int_expr(3)) },
                    ),
                },
            ],
        },
        return_type: Some("int".to_string()),
    };
    let program = ProgramNode {
        expressions: vec![
            int_expr(1),
            ExpressionNode { kind: ExpressionKind::FuncDef(def) },
            int_expr(2),
        ],
    };
    let unit = gen_code(&program).unwrap();
    assert_eq!(
        unit,
        "typedef char* string;int f() { return 3; }int main(){1;2;return 0;}"
    );
    assert_eq!(unit.matches("int f() { return 3; }").count(), 1);
    assert!(!unit.contains("{1;int f()"));
}

#[test]
fn import_isolation_adds_nothing_to_main() {
    let program = ProgramNode {
        expressions: vec![
            int_expr(1),
            ExpressionNode {
                kind: ExpressionKind::CImport(CImportNode { module: "<stdio.h>".to_string() }),
            },
            int_expr(2),
        ],
    };
    let unit = gen_code(&program).unwrap();
    assert_eq!(unit, "typedef char* string;#include <stdio.h>\nint main(){1;2;return 0;}");
}

#[test]
fn end_to_end_unit() {
    // Import, definition, call: the complete translation unit.
    let body = BlockNode {
        expressions: vec![
            ExpressionNode {
                kind: ExpressionKind::ReturnExpr(
                    ReturnExprNode {
                        expression: Box::new(
                            ExpressionNode {
                                kind: ExpressionKind::AddExpr(
                                    AddExprNode {
                                        left: mul_single(var_primary("a")),
                                        addent: vec![
                                            AddExprPart {
                                                op: AddOp::Add,
                                                value: mul_single(var_primary("b")),
                                            },
                                        ],
                                    },
                                ),
                            },
                        ),
                    },
                ),
            },
        ],
    };
    let program = ProgramNode {
        expressions: vec![
            ExpressionNode {
                kind: ExpressionKind::CImport(CImportNode { module: "<stdio.h>".to_string() }),
            },
            ExpressionNode {
                kind: ExpressionKind::FuncDef(
                    FuncDefNode {
                        name: "add".to_string(),
                        params: vec![
                            FuncParam { name: "a".to_string(), param_type: "int".to_string() },
                            FuncParam { name: "b".to_string(), param_type: "int".to_string() },
                        ],
                        body,
                        return_type: Some("int".to_string()),
                    },
                ),
            },
            ExpressionNode {
                kind: ExpressionKind::FuncCall(
                    FuncCallNode {
                        name: "add".to_string(),
                        params: vec![int_expr(2), int_expr(3)],
                    },
                ),
            },
        ],
    };
    let unit = gen_code(&program).unwrap();
    assert!(unit.contains("#include <stdio.h>"));
    assert!(unit.contains("int add(int a, int b) { return a+b; }"));
    assert!(unit.contains("add(2, 3);return 0;}"));
    assert_eq!(
        unit,
        "typedef char* string;#include <stdio.h>\nint add(int a, int b) { return a+b; }int main(){add(2, 3);return 0;}"
    );
}

#[test]
fn var_decl_is_unsupported() {
    // The unimplemented variant fails by value, naming the construct.
    let program = ProgramNode {
        expressions: vec![
            ExpressionNode {
                kind: ExpressionKind::VarDecl(
                    VarDeclNode { name: "x".to_string(), value: Box::new(int_expr(1)) },
                ),
            },
        ],
    };
    let err = gen_code(&program).unwrap_err();
    assert_eq!(err, CodeGenError::Unsupported { construct: Construct::VariableDeclaration });
    assert_eq!(err.describe(), "VariableDeclaration");
    assert_eq!(Construct::VariableDeclaration.name(), "VariableDeclaration");
}

#[test]
fn struct_init_is_unsupported() {
    let mut ctx = Context::default();
    let p = PrimaryNode {
        kind: PrimaryKind::StructInit(fusionc::ast_nodes::StructInitNode {}),
    };
    let err = walk_primary(&p, &mut ctx).unwrap_err();
    assert_eq!(err, CodeGenError::Unsupported { construct: Construct::StructInit });
    assert_eq!(err.describe(), "StructInit");
}

#[test]
fn float_literal_is_unsupported() {
    let mut ctx = Context::default();
    let p = PrimaryNode { kind: PrimaryKind::FloatLit("1.5".to_string()) };
    let err = walk_primary(&p, &mut ctx).unwrap_err();
    assert_eq!(err, CodeGenError::Unsupported { construct: Construct::FloatLiteral });
}

#[test]
fn parenthesized_expression_keeps_parens() {
    let mut ctx = Context::default();
    let p = PrimaryNode { kind: PrimaryKind::Expression(Box::new(int_expr(7))) };
    assert_eq!(walk_primary(&p, &mut ctx).unwrap(), "(7)");
}

#[test]
fn nested_definition_in_argument_is_hoisted() {
    // A definition nested inside a call argument hoists its declaration and
    // leaves no text at its position.
    let inner = FuncDefNode {
        name: "h".to_string(),
        params: vec![],
        body: BlockNode { expressions: vec![] },
        return_type: None,
    };
    let arg = ExpressionNode {
        kind: ExpressionKind::FuncDef(inner),
    };
    let call = FuncCallNode { name: "f".to_string(), params: vec![arg, int_expr(1)] };
    let mut ctx = Context::default();
    assert_eq!(walk_func_call(&call, &mut ctx).unwrap(), "f(, 1)");
    assert_eq!(ctx.function_declarations, vec!["int h() {  }".to_string()]);
}

#[test]
fn empty_program_renders_fixed_frame() {
    let program = ProgramNode { expressions: vec![] };
    assert_eq!(gen_code(&program).unwrap(), "typedef char* string;int main(){return 0;}");
}

#[test]
fn walk_program_accumulates_main() {
    let program = ProgramNode { expressions: vec![int_expr(4), int_expr(5)] };
    let mut ctx = Context::default();
    walk_program(&program, &mut ctx).unwrap();
    assert_eq!(ctx.main_function_content, "4;5;");
}

#[test]
fn mul_chain_of_one_is_bare_operand() {
    let mut ctx = Context::default();
    assert_eq!(walk_mul_expr_node(&mul_single(int_primary(9)), &mut ctx).unwrap(), "9");
}

#[test]
fn add_function_declaration_appends_in_order() {
    let mut ctx = Context::default();
    ctx.add_function_declaration("int a() {  }".to_string());
    ctx.add_function_declaration("int b() {  }".to_string());
    assert_eq!(
        ctx.function_declarations,
        vec!["int a() {  }".to_string(), "int b() {  }".to_string()]
    );
}

#[test]
fn operator_symbols() {
    assert_eq!(AddOp::Add.symbol(), "+");
    assert_eq!(AddOp::Subtract.symbol(), "-");
    assert_eq!(MulOp::Multiply.symbol(), "*");
    assert_eq!(MulOp::Divide.symbol(), "/");
}
