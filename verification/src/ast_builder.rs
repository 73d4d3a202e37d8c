//! Lowering: from the rule-tagged parse tree to the typed AST.
//!
//! The lowering is a recursive descent that dispatches on rule tags.  An
//! unrecognized or structurally incomplete child is a `Structural` error
//! carrying the offending rule tag and its span text; an integer literal
//! that does not fit 32 bits is a `Literal` error; a recognized construct
//! without defined semantics (a variable declaration) is `Unsupported`.
//!
//! Operator chains are folded left to right: the builder reads the first
//! operand, then repeatedly an operator-tagged node followed by an
//! operand-tagged node.  A chain with a trailing operator and no following
//! operand is rejected.  Precedence is never computed here: it is given by
//! grammar nesting alone (multiplicative rules appear only as children of
//! additive rules).
//!
//! Every builder is specified exactly: its result, viewed, equals the
//! corresponding `spec_lower_*` function of the viewed input, error for
//! error.

use crate::ast_nodes::AddExprNode;
use crate::ast_nodes::AddExprPart;
use crate::ast_nodes::AddOp;
use crate::ast_nodes::AddPartV;
use crate::ast_nodes::AddV;
use crate::ast_nodes::BlockNode;
use crate::ast_nodes::CImportNode;
use crate::ast_nodes::CallV;
use crate::ast_nodes::Construct;
use crate::ast_nodes::ExpressionKind;
use crate::ast_nodes::ExpressionNode;
use crate::ast_nodes::ExprV;
use crate::ast_nodes::FuncCallNode;
use crate::ast_nodes::FuncDefNode;
use crate::ast_nodes::FuncDefV;
use crate::ast_nodes::FuncParam;
use crate::ast_nodes::MulExprNode;
use crate::ast_nodes::MulExprPart;
use crate::ast_nodes::MulOp;
use crate::ast_nodes::MulPartV;
use crate::ast_nodes::MulV;
use crate::ast_nodes::ParamV;
use crate::ast_nodes::PrimV;
use crate::ast_nodes::PrimaryKind;
use crate::ast_nodes::PrimaryNode;
use crate::ast_nodes::ProgV;
use crate::ast_nodes::ProgramNode;
use crate::ast_nodes::ReturnExprNode;
use crate::ast_nodes::VarAccessNode;
use crate::ast_nodes::VarDeclNode;
use crate::ast_nodes::add_parts_view;
use crate::ast_nodes::expr_view;
use crate::ast_nodes::exprs_view;
use crate::ast_nodes::mul_parts_view;
use crate::ast_nodes::mul_view;
use crate::ast_nodes::params_view;
use crate::ast_nodes::primary_view;
use crate::parse_tree::ParseNode;
use crate::parse_tree::Rule;
use crate::parse_tree::TreeV;
use crate::parse_tree::lemma_trees_view_index;
use crate::parse_tree::lemma_trees_view_len;
use crate::parse_tree::trees_view;
use crate::text::spec_parse_i32;
use crate::text::parse_i32;
use vstd::prelude::*;

verus! {

broadcast use vstd::string::to_string_from_display_ensures_for_str;

/// A lowering failure, as a value: the parse tree never drives the process
/// down, every mismatch is returned.
#[derive(Debug, Clone, PartialEq, Eq)]
pub enum LowerError {
    /// The parse tree's shape does not match what the construct's lowering
    /// expects: the offending rule tag and its span text.
    Structure { rule: Rule, at: String },
    /// A literal's text cannot be converted to its target representation
    /// (a 32-bit integer overflow, for instance).
    Literal { text: String },
    /// A construct that is recognized structurally but has no defined
    /// semantics yet.
    Unsupported { construct: Construct },
}

/// Ghost counterpart of `LowerError`.
pub ghost enum LowerErrV {
    Structure { rule: Rule, at: Seq<char> },
    Literal { text: Seq<char> },
    Unsupported { construct: Construct },
}

impl View for LowerError {
    type V = LowerErrV;

    open spec fn view(&self) -> LowerErrV {
        match self {
            LowerError::Structure { rule, at } => LowerErrV::Structure {
                rule: *rule,
                at: at@,
            },
            LowerError::Literal { text } => LowerErrV::Literal { text: text@ },
            LowerError::Unsupported { construct } => LowerErrV::Unsupported {
                construct: *construct,
            },
        }
    }
}

/// The view of a lowering result: the value's view on success, the error's
/// view on failure.
pub open spec fn res_view<T: View>(r: Result<T, LowerError>) -> Result<T::V, LowerErrV> {
    match r {
        Ok(v) => Ok(v@),
        Err(e) => Err(e@),
    }
}

/// The view of a lowered expression list.
pub open spec fn exprs_res_view(r: Result<Vec<ExpressionNode>, LowerError>) -> Result<
    Seq<ExprV>,
    LowerErrV,
> {
    match r {
        Ok(v) => Ok(exprs_view(v@)),
        Err(e) => Err(e@),
    }
}

/// The view of a lowered parameter list.
pub open spec fn params_res_view(r: Result<Vec<FuncParam>, LowerError>) -> Result<
    Seq<ParamV>,
    LowerErrV,
> {
    match r {
        Ok(v) => Ok(params_view(v@)),
        Err(e) => Err(e@),
    }
}

// ---------------------------------------------------------------------------
// The specification of the lowering.
// ---------------------------------------------------------------------------

/// Whether a literal's span text is wrapped in double quotes.
pub open spec fn quoted_ok(s: Seq<char>) -> bool {
    s.len() >= 2 && s[0] == '"' && s.last() == '"'
}

/// The literal text with its surrounding quotes removed.
pub open spec fn strip_quotes(s: Seq<char>) -> Seq<char> {
    s.subrange(1, s.len() - 1)
}

/// The inner text of a string-literal node: the span with its quotes
/// stripped, a structural error where the span is not quoted.
pub open spec fn spec_read_str_lit(t: TreeV) -> Result<Seq<char>, LowerErrV> {
    if quoted_ok(t.text) {
        Ok(strip_quotes(t.text))
    } else {
        Err(LowerErrV::Structure { rule: t.rule, at: t.text })
    }
}

/// Lowers the root: only a program-tagged node is accepted.
pub open spec fn spec_lower(t: TreeV) -> Result<ProgV, LowerErrV> {
    if t.rule == Rule::Program {
        match spec_lower_program_items(t.children) {
            Ok(es) => Ok(ProgV { exprs: es }),
            Err(e) => Err(e),
        }
    } else {
        Err(LowerErrV::Structure { rule: t.rule, at: t.text })
    }
}

/// Lowers the children of a program node in order: expression children are
/// lowered, the end-of-input marker is dropped, anything else is a
/// structural error.
pub open spec fn spec_lower_program_items(cs: Seq<TreeV>) -> Result<Seq<ExprV>, LowerErrV>
    decreases cs,
{
    if cs.len() == 0 {
        Ok(Seq::empty())
    } else if cs[0].rule == Rule::EOI {
        spec_lower_program_items(cs.drop_first())
    } else if cs[0].rule == Rule::Expression {
        match spec_lower_expr(cs[0]) {
            Ok(e) => match spec_lower_program_items(cs.drop_first()) {
                Ok(rest) => Ok(seq![e] + rest),
                Err(e2) => Err(e2),
            },
            Err(e) => Err(e),
        }
    } else {
        Err(LowerErrV::Structure { rule: cs[0].rule, at: cs[0].text })
    }
}

/// Lowers an expression node: dispatches on the rule tag of its single
/// child.
pub open spec fn spec_lower_expr(t: TreeV) -> Result<ExprV, LowerErrV>
    decreases t,
{
    if t.children.len() < 1 {
        Err(LowerErrV::Structure { rule: t.rule, at: t.text })
    } else {
        let c = t.children[0];
        match c.rule {
            Rule::VarDecl => Err(LowerErrV::Unsupported {
                construct: Construct::VariableDeclaration,
            }),
            Rule::AddExpr => match spec_lower_add(c) {
                Ok(a) => Ok(ExprV::AddExpr(a)),
                Err(e) => Err(e),
            },
            Rule::FuncDef => match spec_lower_func_def(c) {
                Ok(f) => Ok(ExprV::FuncDef(f)),
                Err(e) => Err(e),
            },
            Rule::ReturnExpr => spec_lower_return_expr(c),
            Rule::CImport => match spec_lower_cimport(c) {
                Ok(m) => Ok(ExprV::CImport { module: m }),
                Err(e) => Err(e),
            },
            Rule::FuncCall => match spec_lower_call(c) {
                Ok(fc) => Ok(ExprV::FuncCall(fc)),
                Err(e) => Err(e),
            },
            Rule::IntLit => match spec_parse_i32(c.text) {
                Some(n) => Ok(ExprV::IntLit(n)),
                None => Err(LowerErrV::Literal { text: c.text }),
            },
            Rule::StrLit => match spec_read_str_lit(c) {
                Ok(s) => Ok(ExprV::StrLit(s)),
                Err(e) => Err(e),
            },
            _ => Err(LowerErrV::Structure { rule: c.rule, at: c.text }),
        }
    }
}

/// Lowers a list of expression-tagged children in order.
pub open spec fn spec_lower_exprs(cs: Seq<TreeV>) -> Result<Seq<ExprV>, LowerErrV>
    decreases cs,
{
    if cs.len() == 0 {
        Ok(Seq::empty())
    } else if cs[0].rule == Rule::Expression {
        match spec_lower_expr(cs[0]) {
            Ok(e) => match spec_lower_exprs(cs.drop_first()) {
                Ok(rest) => Ok(seq![e] + rest),
                Err(e2) => Err(e2),
            },
            Err(e) => Err(e),
        }
    } else {
        Err(LowerErrV::Structure { rule: cs[0].rule, at: cs[0].text })
    }
}

/// Lowers an additive chain: a multiplicative first operand, then
/// (operator, operand) pairs, folded strictly left to right.
pub open spec fn spec_lower_add(t: TreeV) -> Result<AddV, LowerErrV>
    decreases t,
{
    if t.children.len() < 1 {
        Err(LowerErrV::Structure { rule: t.rule, at: t.text })
    } else if t.children[0].rule != Rule::MulExpr {
        Err(LowerErrV::Structure { rule: t.children[0].rule, at: t.children[0].text })
    } else {
        match spec_lower_mul(t.children[0]) {
            Ok(left) => match spec_lower_add_parts(t.children.skip(1), t.rule, t.text) {
                Ok(terms) => Ok(AddV { left, terms }),
                Err(e) => Err(e),
            },
            Err(e) => Err(e),
        }
    }
}

/// Lowers the (operator, operand) pairs of an additive chain.  `cr` and
/// `ct` are the chain node's tag and span, blamed for a trailing operator
/// with no following operand.
pub open spec fn spec_lower_add_parts(cs: Seq<TreeV>, cr: Rule, ct: Seq<char>) -> Result<
    Seq<AddPartV>,
    LowerErrV,
>
    decreases cs,
{
    if cs.len() == 0 {
        Ok(Seq::empty())
    } else {
        let op = cs[0];
        if op.rule == Rule::Add || op.rule == Rule::Subtract {
            if cs.len() < 2 {
                Err(LowerErrV::Structure { rule: cr, at: ct })
            } else if cs[1].rule != Rule::MulExpr {
                Err(LowerErrV::Structure { rule: cs[1].rule, at: cs[1].text })
            } else {
                match spec_lower_mul(cs[1]) {
                    Ok(v) => match spec_lower_add_parts(cs.skip(2), cr, ct) {
                        Ok(rest) => Ok(
                            seq![
                                AddPartV {
                                    op: if op.rule == Rule::Add {
                                        AddOp::Add
                                    } else {
                                        AddOp::Subtract
                                    },
                                    value: v,
                                },
                            ] + rest,
                        ),
                        Err(e) => Err(e),
                    },
                    Err(e) => Err(e),
                }
            }
        } else {
            Err(LowerErrV::Structure { rule: op.rule, at: op.text })
        }
    }
}

/// Lowers a multiplicative chain: a primary first operand, then
/// (operator, operand) pairs, folded strictly left to right.
pub open spec fn spec_lower_mul(t: TreeV) -> Result<MulV, LowerErrV>
    decreases t,
{
    if t.children.len() < 1 {
        Err(LowerErrV::Structure { rule: t.rule, at: t.text })
    } else if t.children[0].rule != Rule::Primary {
        Err(LowerErrV::Structure { rule: t.children[0].rule, at: t.children[0].text })
    } else {
        match spec_lower_primary(t.children[0]) {
            Ok(left) => match spec_lower_mul_parts(t.children.skip(1), t.rule, t.text) {
                Ok(terms) => Ok(MulV { left, terms }),
                Err(e) => Err(e),
            },
            Err(e) => Err(e),
        }
    }
}

/// Lowers the (operator, operand) pairs of a multiplicative chain.
pub open spec fn spec_lower_mul_parts(cs: Seq<TreeV>, cr: Rule, ct: Seq<char>) -> Result<
    Seq<MulPartV>,
    LowerErrV,
>
    decreases cs,
{
    if cs.len() == 0 {
        Ok(Seq::empty())
    } else {
        let op = cs[0];
        if op.rule == Rule::Multiply || op.rule == Rule::Divide {
            if cs.len() < 2 {
                Err(LowerErrV::Structure { rule: cr, at: ct })
            } else if cs[1].rule != Rule::Primary {
                Err(LowerErrV::Structure { rule: cs[1].rule, at: cs[1].text })
            } else {
                match spec_lower_primary(cs[1]) {
                    Ok(v) => match spec_lower_mul_parts(cs.skip(2), cr, ct) {
                        Ok(rest) => Ok(
                            seq![
                                MulPartV {
                                    op: if op.rule == Rule::Multiply {
                                        MulOp::Multiply
                                    } else {
                                        MulOp::Divide
                                    },
                                    value: v,
                                },
                            ] + rest,
                        ),
                        Err(e) => Err(e),
                    },
                    Err(e) => Err(e),
                }
            }
        } else {
            Err(LowerErrV::Structure { rule: op.rule, at: op.text })
        }
    }
}

/// Lowers a primary node: dispatches on the rule tag of its single child.
pub open spec fn spec_lower_primary(t: TreeV) -> Result<PrimV, LowerErrV>
    decreases t,
{
    if t.children.len() < 1 {
        Err(LowerErrV::Structure { rule: t.rule, at: t.text })
    } else {
        let c = t.children[0];
        match c.rule {
            Rule::VarAccess => match spec_lower_var_access(c) {
                Ok(n) => Ok(PrimV::VarAccess(n)),
                Err(e) => Err(e),
            },
            Rule::IntLit => match spec_parse_i32(c.text) {
                Some(n) => Ok(PrimV::IntLit(n)),
                None => Err(LowerErrV::Literal { text: c.text }),
            },
            Rule::StrLit => match spec_read_str_lit(c) {
                Ok(s) => Ok(PrimV::StrLit(s)),
                Err(e) => Err(e),
            },
            _ => Err(LowerErrV::Structure { rule: c.rule, at: c.text }),
        }
    }
}

/// Lowers a variable access: the name is the text of its identifier child.
pub open spec fn spec_lower_var_access(t: TreeV) -> Result<Seq<char>, LowerErrV> {
    if t.children.len() < 1 {
        Err(LowerErrV::Structure { rule: t.rule, at: t.text })
    } else if t.children[0].rule != Rule::Ident {
        Err(LowerErrV::Structure { rule: t.children[0].rule, at: t.children[0].text })
    } else {
        Ok(t.children[0].text)
    }
}

/// Lowers a function call: an identifier child, then a parameter list whose
/// children are the arguments, in source order.
pub open spec fn spec_lower_call(t: TreeV) -> Result<CallV, LowerErrV>
    decreases t,
{
    if t.children.len() < 2 {
        Err(LowerErrV::Structure { rule: t.rule, at: t.text })
    } else if t.children[0].rule != Rule::Ident {
        Err(LowerErrV::Structure { rule: t.children[0].rule, at: t.children[0].text })
    } else if t.children[1].rule != Rule::ParamList {
        Err(LowerErrV::Structure { rule: t.children[1].rule, at: t.children[1].text })
    } else {
        match spec_lower_exprs(t.children[1].children) {
            Ok(args) => Ok(CallV { name: t.children[0].text, args }),
            Err(e) => Err(e),
        }
    }
}

/// Lowers a return expression: its single expression child becomes the
/// returned value.
pub open spec fn spec_lower_return_expr(t: TreeV) -> Result<ExprV, LowerErrV>
    decreases t,
{
    if t.children.len() < 1 {
        Err(LowerErrV::Structure { rule: t.rule, at: t.text })
    } else if t.children[0].rule != Rule::Expression {
        Err(LowerErrV::Structure { rule: t.children[0].rule, at: t.children[0].text })
    } else {
        match spec_lower_expr(t.children[0]) {
            Ok(e) => Ok(ExprV::ReturnExpr(Box::new(e))),
            Err(e) => Err(e),
        }
    }
}

/// Lowers an import directive: the module is the quoted text of its
/// string-literal child, quotes stripped, everything between kept as
/// written (angle brackets included).
pub open spec fn spec_lower_cimport(t: TreeV) -> Result<Seq<char>, LowerErrV> {
    if t.children.len() < 1 {
        Err(LowerErrV::Structure { rule: t.rule, at: t.text })
    } else if t.children[0].rule != Rule::StrLit {
        Err(LowerErrV::Structure { rule: t.children[0].rule, at: t.children[0].text })
    } else {
        spec_read_str_lit(t.children[0])
    }
}

/// The optional pieces of a function definition read so far.
pub ghost struct FdParts {
    pub params: Option<Seq<ParamV>>,
    pub body: Option<Seq<ExprV>>,
    pub ret: Option<Seq<char>>,
}

/// Lowers a function definition: an identifier child, then in any order an
/// optional parameter list, an optional return type, and a mandatory body
/// block (a later occurrence overwrites an earlier one).
pub open spec fn spec_lower_func_def(t: TreeV) -> Result<FuncDefV, LowerErrV>
    decreases t,
{
    if t.children.len() < 1 {
        Err(LowerErrV::Structure { rule: t.rule, at: t.text })
    } else if t.children[0].rule != Rule::Ident {
        Err(LowerErrV::Structure { rule: t.children[0].rule, at: t.children[0].text })
    } else {
        match spec_lower_func_def_rest(
            t.children.skip(1),
            FdParts { params: None, body: None, ret: None },
        ) {
            Ok(parts) => match parts.body {
                Some(b) => Ok(
                    FuncDefV {
                        name: t.children[0].text,
                        params: match parts.params {
                            Some(ps) => ps,
                            None => Seq::empty(),
                        },
                        body: b,
                        ret: parts.ret,
                    },
                ),
                None => Err(LowerErrV::Structure { rule: t.rule, at: t.text }),
            },
            Err(e) => Err(e),
        }
    }
}

/// Folds the remaining children of a function definition into its parts.
pub open spec fn spec_lower_func_def_rest(cs: Seq<TreeV>, acc: FdParts) -> Result<
    FdParts,
    LowerErrV,
>
    decreases cs,
{
    if cs.len() == 0 {
        Ok(acc)
    } else {
        let c = cs[0];
        match c.rule {
            Rule::ParamDefList => match spec_lower_params(c.children) {
                Ok(ps) => spec_lower_func_def_rest(
                    cs.drop_first(),
                    FdParts { params: Some(ps), body: acc.body, ret: acc.ret },
                ),
                Err(e) => Err(e),
            },
            Rule::Block => match spec_lower_exprs(c.children) {
                Ok(b) => spec_lower_func_def_rest(
                    cs.drop_first(),
                    FdParts { params: acc.params, body: Some(b), ret: acc.ret },
                ),
                Err(e) => Err(e),
            },
            Rule::ReturnType => match spec_lower_return_type(c) {
                Ok(rt) => spec_lower_func_def_rest(
                    cs.drop_first(),
                    FdParts { params: acc.params, body: acc.body, ret: Some(rt) },
                ),
                Err(e) => Err(e),
            },
            _ => Err(LowerErrV::Structure { rule: c.rule, at: c.text }),
        }
    }
}

/// Lowers a parameter definition list: each child is a field definition,
/// in source order.
pub open spec fn spec_lower_params(cs: Seq<TreeV>) -> Result<Seq<ParamV>, LowerErrV>
    decreases cs,
{
    if cs.len() == 0 {
        Ok(Seq::empty())
    } else if cs[0].rule == Rule::FieldDef {
        match spec_lower_field_def(cs[0]) {
            Ok(p) => match spec_lower_params(cs.drop_first()) {
                Ok(rest) => Ok(seq![p] + rest),
                Err(e2) => Err(e2),
            },
            Err(e) => Err(e),
        }
    } else {
        Err(LowerErrV::Structure { rule: cs[0].rule, at: cs[0].text })
    }
}

/// Lowers one field definition: a name identifier and a type identifier,
/// in that order.
pub open spec fn spec_lower_field_def(t: TreeV) -> Result<ParamV, LowerErrV> {
    if t.children.len() < 2 {
        Err(LowerErrV::Structure { rule: t.rule, at: t.text })
    } else if t.children[0].rule != Rule::Ident {
        Err(LowerErrV::Structure { rule: t.children[0].rule, at: t.children[0].text })
    } else if t.children[1].rule != Rule::Ident {
        Err(LowerErrV::Structure { rule: t.children[1].rule, at: t.children[1].text })
    } else {
        Ok(ParamV { name: t.children[0].text, typ: t.children[1].text })
    }
}

/// Lowers a return-type annotation: the opaque type name is the text of its
/// identifier child.
pub open spec fn spec_lower_return_type(t: TreeV) -> Result<Seq<char>, LowerErrV> {
    if t.children.len() < 1 {
        Err(LowerErrV::Structure { rule: t.rule, at: t.text })
    } else if t.children[0].rule != Rule::Ident {
        Err(LowerErrV::Structure { rule: t.children[0].rule, at: t.children[0].text })
    } else {
        Ok(t.children[0].text)
    }
}


// ---------------------------------------------------------------------------
// Result views of the remaining builders.
// ---------------------------------------------------------------------------

/// The view of a lowered additive (operator, operand) list.
pub open spec fn add_parts_res_view(r: Result<Vec<AddExprPart>, LowerError>) -> Result<
    Seq<AddPartV>,
    LowerErrV,
> {
    match r {
        Ok(v) => Ok(add_parts_view(v@)),
        Err(e) => Err(e@),
    }
}

/// The view of a lowered multiplicative (operator, operand) list.
pub open spec fn mul_parts_res_view(r: Result<Vec<MulExprPart>, LowerError>) -> Result<
    Seq<MulPartV>,
    LowerErrV,
> {
    match r {
        Ok(v) => Ok(mul_parts_view(v@)),
        Err(e) => Err(e@),
    }
}

/// The view of the optional pieces of a function definition.
pub open spec fn fd_parts_view(
    params: Option<Vec<FuncParam>>,
    body: Option<BlockNode>,
    ret: Option<String>,
) -> FdParts {
    FdParts {
        params: match params {
            Some(v) => Some(params_view(v@)),
            None => None,
        },
        body: match body {
            Some(b) => Some(exprs_view(b.expressions@)),
            None => None,
        },
        ret: match ret {
            Some(s) => Some(s@),
            None => None,
        },
    }
}

/// The view of the folded pieces of a function definition.
pub open spec fn fd_rest_res_view(
    r: Result<(Option<Vec<FuncParam>>, Option<BlockNode>, Option<String>), LowerError>,
) -> Result<FdParts, LowerErrV> {
    match r {
        Ok(p) => Ok(fd_parts_view(p.0, p.1, p.2)),
        Err(e) => Err(e@),
    }
}

// ---------------------------------------------------------------------------
// The executable lowering.
// ---------------------------------------------------------------------------

/// The inner text of a string-literal node, quotes stripped.
fn read_str_lit(c: &ParseNode) -> (r: Result<String, LowerError>)
    ensures
        res_view(r) == spec_read_str_lit(c@),
{
    let len = c.text.as_str().unicode_len();
    if len >= 2 && c.text.as_str().get_char(0) == '"' && c.text.as_str().get_char(len - 1) == '"' {
        let inner = c.text.as_str().substring_char(1, len - 1);
        Ok(inner.to_string())
    } else {
        Err(LowerError::Structure { rule: c.rule, at: c.text.clone() })
    }
}

/// Lowers the root parse-tree node; only a program-tagged root is accepted.
pub fn build_ast_from_pairs(root: &ParseNode) -> (r: Result<ProgramNode, LowerError>)
    ensures
        res_view(r) == spec_lower(root@),
{
    match root.rule {
        Rule::Program => build_program(root),
        _ => Err(LowerError::Structure { rule: root.rule, at: root.text.clone() }),
    }
}

/// Lowers a program node into the AST root.
pub fn build_program(node: &ParseNode) -> (r: Result<ProgramNode, LowerError>)
    requires
        node.rule == Rule::Program,
    ensures
        res_view(r) == spec_lower(node@),
{
    proof {
        assert(trees_view(node.children@).skip(0) =~= trees_view(node.children@));
    }
    match build_program_items(&node.children, 0) {
        Ok(es) => Ok(ProgramNode { expressions: es }),
        Err(e) => Err(e),
    }
}

/// Lowers the children of a program node from position `i` on.
fn build_program_items(cs: &Vec<ParseNode>, i: usize) -> (r: Result<Vec<ExpressionNode>, LowerError>)
    requires
        i <= cs.len(),
    ensures
        exprs_res_view(r) == spec_lower_program_items(trees_view(cs@).skip(i as int)),
    decreases cs@.len() - i,
{
    proof {
        lemma_trees_view_len(cs@);
    }
    if i >= cs.len() {
        proof {
            assert(trees_view(cs@).skip(i as int) =~= Seq::<TreeV>::empty());
        }
        return Ok(Vec::new());
    }
    proof {
        lemma_trees_view_index(cs@, i as int);
        assert(trees_view(cs@).skip(i as int)[0] == trees_view(cs@)[i as int]);
        assert(trees_view(cs@).skip(i as int).drop_first() =~= trees_view(cs@).skip(i as int + 1));
    }
    let c = &cs[i];
    if c.rule == Rule::EOI {
        return build_program_items(cs, i + 1);
    }
    if c.rule != Rule::Expression {
        return Err(LowerError::Structure { rule: c.rule, at: c.text.clone() });
    }
    let e = match build_expression(c) {
        Ok(e) => e,
        Err(e) => {
            return Err(e);
        },
    };
    let rest = match build_program_items(cs, i + 1) {
        Ok(v) => v,
        Err(e2) => {
            return Err(e2);
        },
    };
    let ghost restv = rest@;
    let mut out = rest;
    let ghost ev = expr_view(e);
    out.insert(0, e);
    proof {
        assert(out@ =~= seq![out@[0]] + restv);
        assert(out@.drop_first() =~= restv);
        assert(exprs_view(out@) == seq![ev] + exprs_view(restv));
    }
    Ok(out)
}

/// Lowers an expression node by the rule tag of its single child.
pub fn build_expression(node: &ParseNode) -> (r: Result<ExpressionNode, LowerError>)
    ensures
        res_view(r) == spec_lower_expr(node@),
    decreases node@, 0int,
{
    proof {
        lemma_trees_view_len(node.children@);
    }
    if node.children.len() < 1 {
        return Err(LowerError::Structure { rule: node.rule, at: node.text.clone() });
    }
    proof {
        lemma_trees_view_index(node.children@, 0);
    }
    let c = &node.children[0];
    match c.rule {
        Rule::VarDecl => match build_var_decl(c) {
            Ok(v) => Ok(ExpressionNode { kind: ExpressionKind::VarDecl(v) }),
            Err(e) => Err(e),
        },
        Rule::AddExpr => match build_add_expr(c) {
            Ok(a) => Ok(ExpressionNode { kind: ExpressionKind::AddExpr(a) }),
            Err(e) => Err(e),
        },
        Rule::FuncDef => match build_func_def(c) {
            Ok(f) => Ok(ExpressionNode { kind: ExpressionKind::FuncDef(f) }),
            Err(e) => Err(e),
        },
        Rule::ReturnExpr => match build_return_expr(c) {
            Ok(rt) => Ok(ExpressionNode { kind: ExpressionKind::ReturnExpr(rt) }),
            Err(e) => Err(e),
        },
        Rule::CImport => match build_c_import(c) {
            Ok(ci) => Ok(ExpressionNode { kind: ExpressionKind::CImport(ci) }),
            Err(e) => Err(e),
        },
        Rule::FuncCall => match build_func_call(c) {
            Ok(fc) => Ok(ExpressionNode { kind: ExpressionKind::FuncCall(fc) }),
            Err(e) => Err(e),
        },
        Rule::IntLit => match parse_i32(c.text.as_str()) {
            Some(n) => Ok(ExpressionNode { kind: ExpressionKind::IntLit(n) }),
            None => Err(LowerError::Literal { text: c.text.clone() }),
        },
        Rule::StrLit => match read_str_lit(c) {
            Ok(s) => Ok(ExpressionNode { kind: ExpressionKind::StrLit(s) }),
            Err(e) => Err(e),
        },
        _ => Err(LowerError::Structure { rule: c.rule, at: c.text.clone() }),
    }
}

/// Lowers a list of expression-tagged children from position `i` on.
fn build_expr_list(cs: &Vec<ParseNode>, i: usize) -> (r: Result<Vec<ExpressionNode>, LowerError>)
    requires
        i <= cs.len(),
    ensures
        exprs_res_view(r) == spec_lower_exprs(trees_view(cs@).skip(i as int)),
    decreases trees_view(cs@), cs@.len() - i,
{
    proof {
        lemma_trees_view_len(cs@);
    }
    if i >= cs.len() {
        proof {
            assert(trees_view(cs@).skip(i as int) =~= Seq::<TreeV>::empty());
        }
        return Ok(Vec::new());
    }
    proof {
        lemma_trees_view_index(cs@, i as int);
        assert(trees_view(cs@).skip(i as int)[0] == trees_view(cs@)[i as int]);
        assert(trees_view(cs@).skip(i as int).drop_first() =~= trees_view(cs@).skip(i as int + 1));
    }
    let c = &cs[i];
    if c.rule != Rule::Expression {
        return Err(LowerError::Structure { rule: c.rule, at: c.text.clone() });
    }
    let e = match build_expression(c) {
        Ok(e) => e,
        Err(e) => {
            return Err(e);
        },
    };
    let rest = match build_expr_list(cs, i + 1) {
        Ok(v) => v,
        Err(e2) => {
            return Err(e2);
        },
    };
    let ghost restv = rest@;
    let ghost ev = expr_view(e);
    let mut out = rest;
    out.insert(0, e);
    proof {
        assert(out@ =~= seq![out@[0]] + restv);
        assert(out@.drop_first() =~= restv);
        assert(exprs_view(out@) == seq![ev] + exprs_view(restv));
    }
    Ok(out)
}

/// Lowers an additive chain.
pub fn build_add_expr(node: &ParseNode) -> (r: Result<AddExprNode, LowerError>)
    ensures
        res_view(r) == spec_lower_add(node@),
{
    proof {
        lemma_trees_view_len(node.children@);
    }
    if node.children.len() < 1 {
        return Err(LowerError::Structure { rule: node.rule, at: node.text.clone() });
    }
    proof {
        lemma_trees_view_index(node.children@, 0);
    }
    let c0 = &node.children[0];
    if c0.rule != Rule::MulExpr {
        return Err(LowerError::Structure { rule: c0.rule, at: c0.text.clone() });
    }
    let left = match build_mul_expr(c0) {
        Ok(m) => m,
        Err(e) => {
            return Err(e);
        },
    };
    let parts = match build_add_parts(node, 1) {
        Ok(p) => p,
        Err(e) => {
            return Err(e);
        },
    };
    Ok(AddExprNode { left, addent: parts })
}

/// Lowers the (operator, operand) pairs of an additive chain from position
/// `i` on.
fn build_add_parts(node: &ParseNode, i: usize) -> (r: Result<Vec<AddExprPart>, LowerError>)
    requires
        i <= node.children.len(),
    ensures
        add_parts_res_view(r) == spec_lower_add_parts(
            trees_view(node.children@).skip(i as int),
            node.rule,
            node.text@,
        ),
    decreases node.children@.len() - i,
{
    proof {
        lemma_trees_view_len(node.children@);
    }
    if i >= node.children.len() {
        proof {
            assert(trees_view(node.children@).skip(i as int) =~= Seq::<TreeV>::empty());
        }
        return Ok(Vec::new());
    }
    proof {
        lemma_trees_view_index(node.children@, i as int);
        assert(trees_view(node.children@).skip(i as int)[0] == trees_view(node.children@)[
            i as int
        ]);
    }
    let opn = &node.children[i];
    let op = match opn.rule {
        Rule::Add => AddOp::Add,
        Rule::Subtract => AddOp::Subtract,
        _ => {
            return Err(LowerError::Structure { rule: opn.rule, at: opn.text.clone() });
        },
    };
    if i + 1 >= node.children.len() {
        // A trailing operator with no following operand: blame the chain.
        return Err(LowerError::Structure { rule: node.rule, at: node.text.clone() });
    }
    proof {
        lemma_trees_view_index(node.children@, i as int + 1);
        assert(trees_view(node.children@).skip(i as int)[1] == trees_view(node.children@)[
            i as int + 1
        ]);
    }
    let vn = &node.children[i + 1];
    if vn.rule != Rule::MulExpr {
        return Err(LowerError::Structure { rule: vn.rule, at: vn.text.clone() });
    }
    proof {
        assert(trees_view(node.children@).skip(i as int).skip(2) =~= trees_view(
            node.children@,
        ).skip(i as int + 2));
    }
    let v = match build_mul_expr(vn) {
        Ok(m) => m,
        Err(e) => {
            return Err(e);
        },
    };
    let rest = match build_add_parts(node, i + 2) {
        Ok(p) => p,
        Err(e) => {
            return Err(e);
        },
    };
    let ghost restv = rest@;
    let mut out = rest;
    out.insert(0, AddExprPart { op, value: v });
    proof {
        assert(out@ =~= seq![out@[0]] + restv);
        assert(out@.drop_first() =~= restv);
        assert(add_parts_view(out@) == seq![
            AddPartV { op: out@[0].op, value: mul_view(out@[0].value) },
        ] + add_parts_view(restv));
    }
    Ok(out)
}

/// Lowers a multiplicative chain.
pub fn build_mul_expr(node: &ParseNode) -> (r: Result<MulExprNode, LowerError>)
    ensures
        res_view(r) == spec_lower_mul(node@),
{
    proof {
        lemma_trees_view_len(node.children@);
    }
    if node.children.len() < 1 {
        return Err(LowerError::Structure { rule: node.rule, at: node.text.clone() });
    }
    proof {
        lemma_trees_view_index(node.children@, 0);
    }
    let c0 = &node.children[0];
    if c0.rule != Rule::Primary {
        return Err(LowerError::Structure { rule: c0.rule, at: c0.text.clone() });
    }
    let left = match build_primary(c0) {
        Ok(p) => p,
        Err(e) => {
            return Err(e);
        },
    };
    let parts = match build_mul_parts(node, 1) {
        Ok(p) => p,
        Err(e) => {
            return Err(e);
        },
    };
    Ok(MulExprNode { left, factor: parts })
}

/// Lowers the (operator, operand) pairs of a multiplicative chain from
/// position `i` on.
fn build_mul_parts(node: &ParseNode, i: usize) -> (r: Result<Vec<MulExprPart>, LowerError>)
    requires
        i <= node.children.len(),
    ensures
        mul_parts_res_view(r) == spec_lower_mul_parts(
            trees_view(node.children@).skip(i as int),
            node.rule,
            node.text@,
        ),
    decreases node.children@.len() - i,
{
    proof {
        lemma_trees_view_len(node.children@);
    }
    if i >= node.children.len() {
        proof {
            assert(trees_view(node.children@).skip(i as int) =~= Seq::<TreeV>::empty());
        }
        return Ok(Vec::new());
    }
    proof {
        lemma_trees_view_index(node.children@, i as int);
        assert(trees_view(node.children@).skip(i as int)[0] == trees_view(node.children@)[
            i as int
        ]);
    }
    let opn = &node.children[i];
    let op = match opn.rule {
        Rule::Multiply => MulOp::Multiply,
        Rule::Divide => MulOp::Divide,
        _ => {
            return Err(LowerError::Structure { rule: opn.rule, at: opn.text.clone() });
        },
    };
    if i + 1 >= node.children.len() {
        // A trailing operator with no following operand: blame the chain.
        return Err(LowerError::Structure { rule: node.rule, at: node.text.clone() });
    }
    proof {
        lemma_trees_view_index(node.children@, i as int + 1);
        assert(trees_view(node.children@).skip(i as int)[1] == trees_view(node.children@)[
            i as int + 1
        ]);
    }
    let vn = &node.children[i + 1];
    if vn.rule != Rule::Primary {
        return Err(LowerError::Structure { rule: vn.rule, at: vn.text.clone() });
    }
    proof {
        assert(trees_view(node.children@).skip(i as int).skip(2) =~= trees_view(
            node.children@,
        ).skip(i as int + 2));
    }
    let v = match build_primary(vn) {
        Ok(p) => p,
        Err(e) => {
            return Err(e);
        },
    };
    let rest = match build_mul_parts(node, i + 2) {
        Ok(p) => p,
        Err(e) => {
            return Err(e);
        },
    };
    let ghost restv = rest@;
    let mut out = rest;
    out.insert(0, MulExprPart { op, value: v });
    proof {
        assert(out@ =~= seq![out@[0]] + restv);
        assert(out@.drop_first() =~= restv);
        assert(mul_parts_view(out@) == seq![
            MulPartV { op: out@[0].op, value: primary_view(out@[0].value) },
        ] + mul_parts_view(restv));
    }
    Ok(out)
}

/// Lowers a primary node by the rule tag of its single child.
pub fn build_primary(node: &ParseNode) -> (r: Result<PrimaryNode, LowerError>)
    ensures
        res_view(r) == spec_lower_primary(node@),
{
    proof {
        lemma_trees_view_len(node.children@);
    }
    if node.children.len() < 1 {
        return Err(LowerError::Structure { rule: node.rule, at: node.text.clone() });
    }
    proof {
        lemma_trees_view_index(node.children@, 0);
    }
    let c = &node.children[0];
    match c.rule {
        Rule::VarAccess => match build_var_access(c) {
            Ok(v) => Ok(PrimaryNode { kind: PrimaryKind::VarAccess(v) }),
            Err(e) => Err(e),
        },
        Rule::IntLit => match parse_i32(c.text.as_str()) {
            Some(n) => Ok(PrimaryNode { kind: PrimaryKind::IntLit(n) }),
            None => Err(LowerError::Literal { text: c.text.clone() }),
        },
        Rule::StrLit => match read_str_lit(c) {
            Ok(s) => Ok(PrimaryNode { kind: PrimaryKind::StrLit(s) }),
            Err(e) => Err(e),
        },
        _ => Err(LowerError::Structure { rule: c.rule, at: c.text.clone() }),
    }
}

/// Lowers a variable access.
pub fn build_var_access(node: &ParseNode) -> (r: Result<VarAccessNode, LowerError>)
    ensures
        res_view(r) == spec_lower_var_access(node@),
{
    proof {
        lemma_trees_view_len(node.children@);
    }
    if node.children.len() < 1 {
        return Err(LowerError::Structure { rule: node.rule, at: node.text.clone() });
    }
    proof {
        lemma_trees_view_index(node.children@, 0);
    }
    let c = &node.children[0];
    if c.rule != Rule::Ident {
        return Err(LowerError::Structure { rule: c.rule, at: c.text.clone() });
    }
    Ok(VarAccessNode { name: c.text.clone() })
}

/// Lowers a function call.
pub fn build_func_call(node: &ParseNode) -> (r: Result<FuncCallNode, LowerError>)
    ensures
        res_view(r) == spec_lower_call(node@),
    decreases node@, 0int,
{
    proof {
        lemma_trees_view_len(node.children@);
    }
    if node.children.len() < 2 {
        return Err(LowerError::Structure { rule: node.rule, at: node.text.clone() });
    }
    proof {
        lemma_trees_view_index(node.children@, 0);
        lemma_trees_view_index(node.children@, 1);
    }
    let c0 = &node.children[0];
    if c0.rule != Rule::Ident {
        return Err(LowerError::Structure { rule: c0.rule, at: c0.text.clone() });
    }
    let c1 = &node.children[1];
    if c1.rule != Rule::ParamList {
        return Err(LowerError::Structure { rule: c1.rule, at: c1.text.clone() });
    }
    proof {
        assert(trees_view(c1.children@).skip(0) =~= trees_view(c1.children@));
    }
    match build_expr_list(&c1.children, 0) {
        Ok(args) => Ok(FuncCallNode { name: c0.text.clone(), params: args }),
        Err(e) => Err(e),
    }
}

/// Lowers a variable declaration: recognized structurally, but it has no
/// defined semantics yet, so lowering it always fails.
pub fn build_var_decl(_node: &ParseNode) -> (r: Result<VarDeclNode, LowerError>)
    ensures
        r == Err::<VarDeclNode, LowerError>(
            LowerError::Unsupported { construct: Construct::VariableDeclaration },
        ),
{
    Err(LowerError::Unsupported { construct: Construct::VariableDeclaration })
}

/// Lowers a return expression.
pub fn build_return_expr(node: &ParseNode) -> (r: Result<ReturnExprNode, LowerError>)
    ensures
        res_view(r) == spec_lower_return_expr(node@),
    decreases node@, 0int,
{
    proof {
        lemma_trees_view_len(node.children@);
    }
    if node.children.len() < 1 {
        return Err(LowerError::Structure { rule: node.rule, at: node.text.clone() });
    }
    proof {
        lemma_trees_view_index(node.children@, 0);
    }
    let c = &node.children[0];
    if c.rule != Rule::Expression {
        return Err(LowerError::Structure { rule: c.rule, at: c.text.clone() });
    }
    match build_expression(c) {
        Ok(e) => Ok(ReturnExprNode { expression: Box::new(e) }),
        Err(e) => Err(e),
    }
}

/// Lowers an import directive.
pub fn build_c_import(node: &ParseNode) -> (r: Result<CImportNode, LowerError>)
    ensures
        res_view(r) == spec_lower_cimport(node@),
{
    proof {
        lemma_trees_view_len(node.children@);
    }
    if node.children.len() < 1 {
        return Err(LowerError::Structure { rule: node.rule, at: node.text.clone() });
    }
    proof {
        lemma_trees_view_index(node.children@, 0);
    }
    let c = &node.children[0];
    if c.rule != Rule::StrLit {
        return Err(LowerError::Structure { rule: c.rule, at: c.text.clone() });
    }
    match read_str_lit(c) {
        Ok(m) => Ok(CImportNode { module: m }),
        Err(e) => Err(e),
    }
}

/// Lowers a function definition.
pub fn build_func_def(node: &ParseNode) -> (r: Result<FuncDefNode, LowerError>)
    ensures
        res_view(r) == spec_lower_func_def(node@),
    decreases node@, 0int,
{
    proof {
        lemma_trees_view_len(node.children@);
    }
    if node.children.len() < 1 {
        return Err(LowerError::Structure { rule: node.rule, at: node.text.clone() });
    }
    proof {
        lemma_trees_view_index(node.children@, 0);
    }
    let c0 = &node.children[0];
    if c0.rule != Rule::Ident {
        return Err(LowerError::Structure { rule: c0.rule, at: c0.text.clone() });
    }
    match build_func_def_rest(&node.children, 1, None, None, None) {
        Ok((params, body, ret)) => match body {
            Some(b) => Ok(
                FuncDefNode {
                    name: c0.text.clone(),
                    params: match params {
                        Some(p) => p,
                        None => Vec::new(),
                    },
                    body: b,
                    return_type: ret,
                },
            ),
            None => Err(LowerError::Structure { rule: node.rule, at: node.text.clone() }),
        },
        Err(e) => Err(e),
    }
}

/// Folds the remaining children of a function definition into its pieces;
/// a later occurrence of a piece overwrites an earlier one.
fn build_func_def_rest(
    cs: &Vec<ParseNode>,
    i: usize,
    params: Option<Vec<FuncParam>>,
    body: Option<BlockNode>,
    ret: Option<String>,
) -> (r: Result<(Option<Vec<FuncParam>>, Option<BlockNode>, Option<String>), LowerError>)
    requires
        i <= cs.len(),
    ensures
        fd_rest_res_view(r) == spec_lower_func_def_rest(
            trees_view(cs@).skip(i as int),
            fd_parts_view(params, body, ret),
        ),
    decreases trees_view(cs@), cs@.len() - i,
{
    proof {
        lemma_trees_view_len(cs@);
    }
    if i >= cs.len() {
        proof {
            assert(trees_view(cs@).skip(i as int) =~= Seq::<TreeV>::empty());
        }
        return Ok((params, body, ret));
    }
    proof {
        lemma_trees_view_index(cs@, i as int);
        assert(trees_view(cs@).skip(i as int)[0] == trees_view(cs@)[i as int]);
        assert(trees_view(cs@).skip(i as int).drop_first() =~= trees_view(cs@).skip(i as int + 1));
    }
    let c = &cs[i];
    match c.rule {
        Rule::ParamDefList => match build_param_def_list(c) {
            Ok(ps) => build_func_def_rest(cs, i + 1, Some(ps), body, ret),
            Err(e) => Err(e),
        },
        Rule::Block => match build_block(c) {
            Ok(b) => build_func_def_rest(cs, i + 1, params, Some(b), ret),
            Err(e) => Err(e),
        },
        Rule::ReturnType => match build_return_type(c) {
            Ok(rt) => build_func_def_rest(cs, i + 1, params, body, Some(rt)),
            Err(e) => Err(e),
        },
        _ => Err(LowerError::Structure { rule: c.rule, at: c.text.clone() }),
    }
}

/// Lowers a block: every child is an expression, in source order.
pub fn build_block(node: &ParseNode) -> (r: Result<BlockNode, LowerError>)
    ensures
        res_view(r) == spec_lower_exprs(node@.children),
    decreases node@, 0int,
{
    proof {
        assert(trees_view(node.children@).skip(0) =~= trees_view(node.children@));
    }
    match build_expr_list(&node.children, 0) {
        Ok(es) => Ok(BlockNode { expressions: es }),
        Err(e) => Err(e),
    }
}

/// Lowers a parameter definition list.
pub fn build_param_def_list(node: &ParseNode) -> (r: Result<Vec<FuncParam>, LowerError>)
    ensures
        params_res_view(r) == spec_lower_params(node@.children),
{
    proof {
        assert(trees_view(node.children@).skip(0) =~= trees_view(node.children@));
    }
    build_param_items(&node.children, 0)
}

/// Lowers field definitions from position `i` on.
fn build_param_items(cs: &Vec<ParseNode>, i: usize) -> (r: Result<Vec<FuncParam>, LowerError>)
    requires
        i <= cs.len(),
    ensures
        params_res_view(r) == spec_lower_params(trees_view(cs@).skip(i as int)),
    decreases cs@.len() - i,
{
    proof {
        lemma_trees_view_len(cs@);
    }
    if i >= cs.len() {
        proof {
            assert(trees_view(cs@).skip(i as int) =~= Seq::<TreeV>::empty());
        }
        return Ok(Vec::new());
    }
    proof {
        lemma_trees_view_index(cs@, i as int);
        assert(trees_view(cs@).skip(i as int)[0] == trees_view(cs@)[i as int]);
        assert(trees_view(cs@).skip(i as int).drop_first() =~= trees_view(cs@).skip(i as int + 1));
    }
    let c = &cs[i];
    if c.rule != Rule::FieldDef {
        return Err(LowerError::Structure { rule: c.rule, at: c.text.clone() });
    }
    let p = match build_field_def(c) {
        Ok(p) => p,
        Err(e) => {
            return Err(e);
        },
    };
    let rest = match build_param_items(cs, i + 1) {
        Ok(v) => v,
        Err(e2) => {
            return Err(e2);
        },
    };
    let ghost restv = rest@;
    let ghost pv = ParamV { name: p.name@, typ: p.param_type@ };
    let mut out = rest;
    out.insert(0, p);
    proof {
        assert(out@ =~= seq![out@[0]] + restv);
        assert(out@.drop_first() =~= restv);
        assert(params_view(out@) == seq![pv] + params_view(restv));
    }
    Ok(out)
}

/// Lowers one field definition: a name and a type, in that order.
pub fn build_field_def(node: &ParseNode) -> (r: Result<FuncParam, LowerError>)
    ensures
        res_view(r) == spec_lower_field_def(node@),
{
    proof {
        lemma_trees_view_len(node.children@);
    }
    if node.children.len() < 2 {
        return Err(LowerError::Structure { rule: node.rule, at: node.text.clone() });
    }
    proof {
        lemma_trees_view_index(node.children@, 0);
        lemma_trees_view_index(node.children@, 1);
    }
    let c0 = &node.children[0];
    if c0.rule != Rule::Ident {
        return Err(LowerError::Structure { rule: c0.rule, at: c0.text.clone() });
    }
    let c1 = &node.children[1];
    if c1.rule != Rule::Ident {
        return Err(LowerError::Structure { rule: c1.rule, at: c1.text.clone() });
    }
    Ok(FuncParam { name: c0.text.clone(), param_type: c1.text.clone() })
}

/// Lowers a return-type annotation to the opaque type name it carries.
pub fn build_return_type(node: &ParseNode) -> (r: Result<String, LowerError>)
    ensures
        res_view(r) == spec_lower_return_type(node@),
{
    proof {
        lemma_trees_view_len(node.children@);
    }
    if node.children.len() < 1 {
        return Err(LowerError::Structure { rule: node.rule, at: node.text.clone() });
    }
    proof {
        lemma_trees_view_index(node.children@, 0);
    }
    let c = &node.children[0];
    if c.rule != Rule::Ident {
        return Err(LowerError::Structure { rule: c.rule, at: c.text.clone() });
    }
    Ok(c.text.clone())
}


} // verus!
