use fusionc::ast_nodes::ExpressionKind;
use fusionc::ast_nodes::ExpressionNode;
use fusionc::ast_nodes::FuncParam;
use fusionc::ast_nodes::MulExprNode;
use fusionc::ast_nodes::MulExprPart;
use fusionc::ast_nodes::MulOp;
use fusionc::ast_nodes::PrimaryKind;
use fusionc::ast_nodes::PrimaryNode;
use fusionc::ast_nodes::StructInitNode;
use fusionc::ast_nodes::VarAccessNode;
use fusionc::pretty::Indent;
use fusionc::pretty::IndentDisplay;

#[test]
fn indent_counts_in_steps_of_two() {
    let i = Indent::new();
    assert_eq!(i.0, 0);
    assert_eq!(i.increment().0, 2);
    assert_eq!(i.increment().increment().0, 4);
}

#[test]
fn indent_renders_as_spaces() {
    assert_eq!(Indent::new().as_str(), "");
    assert_eq!(Indent::new().increment().as_str(), "  ");
    assert_eq!(Indent(5).as_str(), "     ");
}

#[test]
fn int_literal_dump() {
    let e = ExpressionNode { kind: ExpressionKind::IntLit(5) };
    assert_eq!(e.fmt_with_indent(Indent::new()), "Expression\n  IntLiteral(5)\n");
}

#[test]
fn string_literal_dump() {
    let e = ExpressionNode { kind: ExpressionKind::StrLit("hi".to_string()) };
    assert_eq!(e.fmt_with_indent(Indent::new()), "Expression\n  StringLiteral(\"hi\")\n");
}

#[test]
fn dump_respects_given_indent() {
    let e = ExpressionNode { kind: ExpressionKind::IntLit(-3) };
    assert_eq!(e.fmt_with_indent(Indent(4)), "    Expression\n      IntLiteral(-3)\n");
}

#[test]
fn var_access_dump() {
    let v = VarAccessNode { name: "x".to_string() };
    assert_eq!(v.fmt_with_indent(Indent(2)), "  x\n");
}

#[test]
fn func_param_dump() {
    let p = FuncParam { name: "a".to_string(), param_type: "int".to_string() };
    assert_eq!(p.fmt_with_indent(Indent::new()), "a, int\n");
}

#[test]
fn struct_init_dump() {
    let s = StructInitNode {};
    assert_eq!(s.fmt_with_indent(Indent(2)), "  StructInit\n");
}

#[test]
fn mul_chain_dump_lists_factors() {
    let m = MulExprNode {
        left: PrimaryNode { kind: PrimaryKind::IntLit(3) },
        factor: vec![
            MulExprPart {
                op: MulOp::Multiply,
                value: PrimaryNode { kind: PrimaryKind::IntLit(4) },
            },
        ],
    };
    let expected = "MulExpr\n  Left:\n    Primary\n      IntLiteral(3)\n  Factors:\n    [0]:\n      Operator: *\n      Value:\n        Primary\n          IntLiteral(4)\n";
    assert_eq!(m.fmt_with_indent(Indent::new()), expected);
}

#[test]
fn bare_chain_dump_has_no_factor_section() {
    let m = MulExprNode {
        left: PrimaryNode { kind: PrimaryKind::IntLit(3) },
        factor: vec![],
    };
    assert_eq!(m.fmt_with_indent(Indent::new()), "MulExpr\n  Left:\n    Primary\n      IntLiteral(3)\n");
}

#[test]
fn struct_def_dump() {
    let s = fusionc::ast_nodes::StructDefNode {
        name: "point".to_string(),
        fields: vec![
            fusionc::ast_nodes::StructFieldNode {
                name: "x".to_string(),
                field_type: "int".to_string(),
            },
        ],
    };
    assert_eq!(s.fmt_with_indent(Indent(2)), "  point\n");
    assert_eq!(s.fields.len(), 1);
}

#[test]
fn import_dump() {
    let e = ExpressionNode {
        kind: ExpressionKind::CImport(fusionc::ast_nodes::CImportNode {
            module: "<stdio.h>".to_string(),
        }),
    };
    assert_eq!(e.fmt_with_indent(Indent::new()), "Expression\n  CImport(<stdio.h>)\n");
}

#[test]
fn func_def_dump_lists_params_and_body() {
    let f = fusionc::ast_nodes::FuncDefNode {
        name: "f".to_string(),
        params: vec![FuncParam { name: "a".to_string(), param_type: "int".to_string() }],
        body: fusionc::ast_nodes::BlockNode {
            expressions: vec![ExpressionNode { kind: ExpressionKind::IntLit(1) }],
        },
        return_type: None,
    };
    let expected = "FuncDef(f)\n  a, int\nBody:\n  Expression\n    IntLiteral(1)\n";
    assert_eq!(f.fmt_with_indent(Indent::new()), expected);
}
