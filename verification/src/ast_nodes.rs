//! The abstract syntax tree of the input language, together with its
//! mathematical model.
//!
//! Every executable node type has a ghost counterpart (`ExprV`, `AddV`, ...)
//! whose text is a `Seq<char>` and whose lists are `Seq`s; the `view`
//! functions map one onto the other.  All contracts of the lowering and of
//! the code generator are stated over these ghost values.
//!
//! Operator chains are kept flat: an additive or multiplicative expression is
//! a first operand followed by an ordered sequence of (operator, operand)
//! pairs, evaluated strictly left to right.  A bare literal is a chain with
//! zero trailing pairs, not a special case.

use vstd::prelude::*;

verus! {

/// Operator of one additive step: `+` or `-`.
#[derive(Debug, Clone, Copy, PartialEq, Eq, Structural)]
pub enum AddOp {
    Add,
    Subtract,
}

/// Operator of one multiplicative step: `*` or `/`.
#[derive(Debug, Clone, Copy, PartialEq, Eq, Structural)]
pub enum MulOp {
    Multiply,
    Divide,
}

impl AddOp {
    /// The operator's symbol, `+` or `-`.
    pub fn symbol(&self) -> (r: String)
        ensures
            r@ == crate::codegen::add_op_text(*self),
    {
        broadcast use vstd::string::to_string_from_display_ensures_for_str;

        match self {
            AddOp::Add => "+".to_string(),
            AddOp::Subtract => "-".to_string(),
        }
    }
}

impl MulOp {
    /// The operator's symbol, `*` or `/`.
    pub fn symbol(&self) -> (r: String)
        ensures
            r@ == crate::codegen::mul_op_text(*self),
    {
        broadcast use vstd::string::to_string_from_display_ensures_for_str;

        match self {
            MulOp::Multiply => "*".to_string(),
            MulOp::Divide => "/".to_string(),
        }
    }
}

/// Root of the tree: the ordered top-level expressions of one compilation.
#[derive(Debug, PartialEq)]
pub struct ProgramNode {
    pub expressions: Vec<ExpressionNode>,
}

/// One expression; exactly one variant of `ExpressionKind` is active.
#[derive(Debug, PartialEq)]
pub struct ExpressionNode {
    pub kind: ExpressionKind,
}

/// The tagged union over every expression shape of the input language.
#[derive(Debug, PartialEq)]
pub enum ExpressionKind {
    /// Reserved: recognized structurally, no semantics defined yet.
    VarDecl(VarDeclNode),
    AddExpr(AddExprNode),
    FuncDef(FuncDefNode),
    ReturnExpr(ReturnExprNode),
    CImport(CImportNode),
    FuncCall(FuncCallNode),
    IntLit(i32),
    /// The literal text, unescaped; escaping happens once, at emission.
    StrLit(String),
}

/// An AST construct that the pipeline recognizes structurally but has no
/// defined semantics or rendering for yet.  A failure names the construct
/// so that it is diagnosable.
#[derive(Debug, Clone, Copy, PartialEq, Eq, Structural)]
pub enum Construct {
    VariableDeclaration,
    StructInit,
    FloatLiteral,
}

impl Construct {
    /// The construct's name, as it appears in diagnostics.
    pub open spec fn spec_name(self) -> Seq<char> {
        match self {
            Construct::VariableDeclaration => "VariableDeclaration"@,
            Construct::StructInit => "StructInit"@,
            Construct::FloatLiteral => "FloatLiteral"@,
        }
    }

    /// The construct's name, as it appears in diagnostics.
    pub fn name(&self) -> (r: String)
        ensures
            r@ == self.spec_name(),
    {
        broadcast use vstd::string::to_string_from_display_ensures_for_str;

        match self {
            Construct::VariableDeclaration => "VariableDeclaration".to_string(),
            Construct::StructInit => "StructInit".to_string(),
            Construct::FloatLiteral => "FloatLiteral".to_string(),
        }
    }
}

/// Reserved shape for a variable declaration.
#[derive(Debug, PartialEq)]
pub struct VarDeclNode {
    pub name: String,
    pub value: Box<ExpressionNode>,
}

/// Left-fold additive chain: `left op0 value0 op1 value1 ...`.
#[derive(Debug, PartialEq)]
pub struct AddExprNode {
    pub left: MulExprNode,
    pub addent: Vec<AddExprPart>,
}

/// One `(operator, operand)` pair of an additive chain.
#[derive(Debug, PartialEq)]
pub struct AddExprPart {
    pub op: AddOp,
    pub value: MulExprNode,
}

/// Left-fold multiplicative chain, one precedence level tighter than
/// addition by construction.
#[derive(Debug, PartialEq)]
pub struct MulExprNode {
    pub left: PrimaryNode,
    pub factor: Vec<MulExprPart>,
}

/// One `(operator, operand)` pair of a multiplicative chain.
#[derive(Debug, PartialEq)]
pub struct MulExprPart {
    pub op: MulOp,
    pub value: PrimaryNode,
}

/// One primary operand; exactly one variant of `PrimaryKind` is active.
#[derive(Debug, PartialEq)]
pub struct PrimaryNode {
    pub kind: PrimaryKind,
}

/// The tagged union over every primary operand shape.
#[derive(Debug, PartialEq)]
pub enum PrimaryKind {
    IntLit(i32),
    /// Reserved: the literal text of a float, kept as written.
    FloatLit(String),
    StrLit(String),
    VarAccess(VarAccessNode),
    FuncCall(FuncCallNode),
    /// Reserved: recognized structurally, no semantics defined yet.
    StructInit(StructInitNode),
    Block(BlockNode),
    FuncDef(FuncDefNode),
    /// A parenthesized expression, boxed for nesting.
    Expression(Box<ExpressionNode>),
}

/// Access of a variable by name; no scope resolution is performed.
#[derive(Debug, PartialEq)]
pub struct VarAccessNode {
    pub name: String,
}

/// Call of a function by name; argument order is evaluation and emission
/// order.
#[derive(Debug, PartialEq)]
pub struct FuncCallNode {
    pub name: String,
    pub params: Vec<ExpressionNode>,
}

/// A function definition with typed parameters and an optional return type.
/// Type names are opaque strings copied into the output.
#[derive(Debug, PartialEq)]
pub struct FuncDefNode {
    pub name: String,
    pub params: Vec<FuncParam>,
    pub body: BlockNode,
    pub return_type: Option<String>,
}

/// One typed parameter of a function definition.
#[derive(Debug, PartialEq)]
pub struct FuncParam {
    pub name: String,
    pub param_type: String,
}

/// An ordered statement list of a nested scope.
#[derive(Debug, PartialEq)]
pub struct BlockNode {
    pub expressions: Vec<ExpressionNode>,
}

/// A directive to embed a raw C header include; the module text is kept as
/// written, quotes or angle brackets included.
#[derive(Debug, PartialEq)]
pub struct CImportNode {
    pub module: String,
}

/// A return statement with its value.
#[derive(Debug, PartialEq)]
pub struct ReturnExprNode {
    pub expression: Box<ExpressionNode>,
}

/// Reserved shape for a struct initializer.
#[derive(Debug, PartialEq)]
pub struct StructInitNode {}

/// Reserved shape for a struct definition.
#[derive(Debug, PartialEq)]
pub struct StructDefNode {
    pub name: String,
    pub fields: Vec<StructFieldNode>,
}

/// One field of a reserved struct definition.
#[derive(Debug, PartialEq)]
pub struct StructFieldNode {
    pub name: String,
    pub field_type: String,
}

// ---------------------------------------------------------------------------
// Ghost counterparts.
// ---------------------------------------------------------------------------

/// Ghost counterpart of `ProgramNode`.
pub ghost struct ProgV {
    pub exprs: Seq<ExprV>,
}

/// Ghost counterpart of `ExpressionNode` / `ExpressionKind`.
pub ghost enum ExprV {
    VarDecl { name: Seq<char>, value: Box<ExprV> },
    AddExpr(AddV),
    FuncDef(FuncDefV),
    ReturnExpr(Box<ExprV>),
    CImport { module: Seq<char> },
    FuncCall(CallV),
    IntLit(int),
    StrLit(Seq<char>),
}

/// Ghost counterpart of `AddExprNode`.
pub ghost struct AddV {
    pub left: MulV,
    pub terms: Seq<AddPartV>,
}

/// Ghost counterpart of `AddExprPart`.
pub ghost struct AddPartV {
    pub op: AddOp,
    pub value: MulV,
}

/// Ghost counterpart of `MulExprNode`.
pub ghost struct MulV {
    pub left: PrimV,
    pub terms: Seq<MulPartV>,
}

/// Ghost counterpart of `MulExprPart`.
pub ghost struct MulPartV {
    pub op: MulOp,
    pub value: PrimV,
}

/// Ghost counterpart of `PrimaryNode` / `PrimaryKind`.
pub ghost enum PrimV {
    IntLit(int),
    FloatLit(Seq<char>),
    StrLit(Seq<char>),
    VarAccess(Seq<char>),
    FuncCall(CallV),
    StructInit,
    Block(Seq<ExprV>),
    FuncDef(FuncDefV),
    Paren(Box<ExprV>),
}

/// Ghost counterpart of `FuncCallNode`.
pub ghost struct CallV {
    pub name: Seq<char>,
    pub args: Seq<ExprV>,
}

/// Ghost counterpart of `FuncDefNode`.
pub ghost struct FuncDefV {
    pub name: Seq<char>,
    pub params: Seq<ParamV>,
    pub body: Seq<ExprV>,
    pub ret: Option<Seq<char>>,
}

/// Ghost counterpart of `FuncParam`.
pub ghost struct ParamV {
    pub name: Seq<char>,
    pub typ: Seq<char>,
}

// ---------------------------------------------------------------------------
// View functions.
// ---------------------------------------------------------------------------

pub open spec fn expr_view(e: ExpressionNode) -> ExprV
    decreases e,
{
    kind_view(e.kind)
}

pub open spec fn kind_view(k: ExpressionKind) -> ExprV
    decreases k,
{
    match k {
        ExpressionKind::VarDecl(v) => ExprV::VarDecl {
            name: v.name@,
            value: Box::new(expr_view(*v.value)),
        },
        ExpressionKind::AddExpr(a) => ExprV::AddExpr(add_view(a)),
        ExpressionKind::FuncDef(f) => ExprV::FuncDef(func_def_view(f)),
        ExpressionKind::ReturnExpr(r) => ExprV::ReturnExpr(Box::new(expr_view(*r.expression))),
        ExpressionKind::CImport(c) => ExprV::CImport { module: c.module@ },
        ExpressionKind::FuncCall(c) => ExprV::FuncCall(call_view(c)),
        ExpressionKind::IntLit(n) => ExprV::IntLit(n as int),
        ExpressionKind::StrLit(s) => ExprV::StrLit(s@),
    }
}

pub open spec fn exprs_view(es: Seq<ExpressionNode>) -> Seq<ExprV>
    decreases es,
{
    if es.len() == 0 {
        Seq::empty()
    } else {
        seq![expr_view(es[0])] + exprs_view(es.drop_first())
    }
}

pub open spec fn add_view(a: AddExprNode) -> AddV
    decreases a,
{
    AddV { left: mul_view(a.left), terms: add_parts_view(a.addent@) }
}

pub open spec fn add_parts_view(ps: Seq<AddExprPart>) -> Seq<AddPartV>
    decreases ps,
{
    if ps.len() == 0 {
        Seq::empty()
    } else {
        seq![AddPartV { op: ps[0].op, value: mul_view(ps[0].value) }]
            + add_parts_view(ps.drop_first())
    }
}

pub open spec fn mul_view(m: MulExprNode) -> MulV
    decreases m,
{
    MulV { left: primary_view(m.left), terms: mul_parts_view(m.factor@) }
}

pub open spec fn mul_parts_view(ps: Seq<MulExprPart>) -> Seq<MulPartV>
    decreases ps,
{
    if ps.len() == 0 {
        Seq::empty()
    } else {
        seq![MulPartV { op: ps[0].op, value: primary_view(ps[0].value) }]
            + mul_parts_view(ps.drop_first())
    }
}

pub open spec fn primary_view(p: PrimaryNode) -> PrimV
    decreases p,
{
    match p.kind {
        PrimaryKind::IntLit(n) => PrimV::IntLit(n as int),
        PrimaryKind::FloatLit(t) => PrimV::FloatLit(t@),
        PrimaryKind::StrLit(s) => PrimV::StrLit(s@),
        PrimaryKind::VarAccess(v) => PrimV::VarAccess(v.name@),
        PrimaryKind::FuncCall(c) => PrimV::FuncCall(call_view(c)),
        PrimaryKind::StructInit(_) => PrimV::StructInit,
        PrimaryKind::Block(b) => PrimV::Block(exprs_view(b.expressions@)),
        PrimaryKind::FuncDef(f) => PrimV::FuncDef(func_def_view(f)),
        PrimaryKind::Expression(e) => PrimV::Paren(Box::new(expr_view(*e))),
    }
}

pub open spec fn call_view(c: FuncCallNode) -> CallV
    decreases c,
{
    CallV { name: c.name@, args: exprs_view(c.params@) }
}

pub open spec fn func_def_view(f: FuncDefNode) -> FuncDefV
    decreases f,
{
    FuncDefV {
        name: f.name@,
        params: params_view(f.params@),
        body: exprs_view(f.body.expressions@),
        ret: match f.return_type {
            Some(t) => Some(t@),
            None => None,
        },
    }
}

pub open spec fn params_view(ps: Seq<FuncParam>) -> Seq<ParamV>
    decreases ps,
{
    if ps.len() == 0 {
        Seq::empty()
    } else {
        seq![ParamV { name: ps[0].name@, typ: ps[0].param_type@ }] + params_view(ps.drop_first())
    }
}

impl View for ExpressionNode {
    type V = ExprV;

    open spec fn view(&self) -> ExprV {
        expr_view(*self)
    }
}

impl View for ProgramNode {
    type V = ProgV;

    open spec fn view(&self) -> ProgV {
        ProgV { exprs: exprs_view(self.expressions@) }
    }
}

impl View for AddExprNode {
    type V = AddV;

    open spec fn view(&self) -> AddV {
        add_view(*self)
    }
}

impl View for MulExprNode {
    type V = MulV;

    open spec fn view(&self) -> MulV {
        mul_view(*self)
    }
}

impl View for PrimaryNode {
    type V = PrimV;

    open spec fn view(&self) -> PrimV {
        primary_view(*self)
    }
}

impl View for FuncCallNode {
    type V = CallV;

    open spec fn view(&self) -> CallV {
        call_view(*self)
    }
}

impl View for FuncDefNode {
    type V = FuncDefV;

    open spec fn view(&self) -> FuncDefV {
        func_def_view(*self)
    }
}

impl View for VarAccessNode {
    type V = Seq<char>;

    open spec fn view(&self) -> Seq<char> {
        self.name@
    }
}

impl View for CImportNode {
    type V = Seq<char>;

    open spec fn view(&self) -> Seq<char> {
        self.module@
    }
}

impl View for ReturnExprNode {
    type V = ExprV;

    open spec fn view(&self) -> ExprV {
        ExprV::ReturnExpr(Box::new(expr_view(*self.expression)))
    }
}

impl View for BlockNode {
    type V = Seq<ExprV>;

    open spec fn view(&self) -> Seq<ExprV> {
        exprs_view(self.expressions@)
    }
}

impl View for FuncParam {
    type V = ParamV;

    open spec fn view(&self) -> ParamV {
        ParamV { name: self.name@, typ: self.param_type@ }
    }
}

/// Every index of `exprs_view` is the view of the element there: the list
/// view is pointwise.
pub proof fn lemma_exprs_view_index(es: Seq<ExpressionNode>, i: int)
    requires
        0 <= i < es.len(),
    ensures
        exprs_view(es).len() == es.len(),
        exprs_view(es)[i] == expr_view(es[i]),
    decreases es.len(),
{
    lemma_exprs_view_len(es);
    if i > 0 {
        lemma_exprs_view_index(es.drop_first(), i - 1);
    }
}

/// `exprs_view` keeps the length.
pub proof fn lemma_exprs_view_len(es: Seq<ExpressionNode>)
    ensures
        exprs_view(es).len() == es.len(),
    decreases es.len(),
{
    if es.len() > 0 {
        lemma_exprs_view_len(es.drop_first());
    }
}

/// The parameter-list view is pointwise.
pub proof fn lemma_params_view_index(ps: Seq<FuncParam>, i: int)
    requires
        0 <= i < ps.len(),
    ensures
        params_view(ps).len() == ps.len(),
        params_view(ps)[i] == (ParamV { name: ps[i].name@, typ: ps[i].param_type@ }),
    decreases ps.len(),
{
    lemma_params_view_len(ps);
    if i > 0 {
        lemma_params_view_index(ps.drop_first(), i - 1);
    }
}

/// `params_view` keeps the length.
pub proof fn lemma_params_view_len(ps: Seq<FuncParam>)
    ensures
        params_view(ps).len() == ps.len(),
    decreases ps.len(),
{
    if ps.len() > 0 {
        lemma_params_view_len(ps.drop_first());
    }
}

/// The additive-part view is pointwise.
pub proof fn lemma_add_parts_view_index(ps: Seq<AddExprPart>, i: int)
    requires
        0 <= i < ps.len(),
    ensures
        add_parts_view(ps).len() == ps.len(),
        add_parts_view(ps)[i] == (AddPartV { op: ps[i].op, value: mul_view(ps[i].value) }),
    decreases ps.len(),
{
    lemma_add_parts_view_len(ps);
    if i > 0 {
        lemma_add_parts_view_index(ps.drop_first(), i - 1);
    }
}

/// `add_parts_view` keeps the length.
pub proof fn lemma_add_parts_view_len(ps: Seq<AddExprPart>)
    ensures
        add_parts_view(ps).len() == ps.len(),
    decreases ps.len(),
{
    if ps.len() > 0 {
        lemma_add_parts_view_len(ps.drop_first());
    }
}

/// The multiplicative-part view is pointwise.
pub proof fn lemma_mul_parts_view_index(ps: Seq<MulExprPart>, i: int)
    requires
        0 <= i < ps.len(),
    ensures
        mul_parts_view(ps).len() == ps.len(),
        mul_parts_view(ps)[i] == (MulPartV { op: ps[i].op, value: primary_view(ps[i].value) }),
    decreases ps.len(),
{
    lemma_mul_parts_view_len(ps);
    if i > 0 {
        lemma_mul_parts_view_index(ps.drop_first(), i - 1);
    }
}

/// `mul_parts_view` keeps the length.
pub proof fn lemma_mul_parts_view_len(ps: Seq<MulExprPart>)
    ensures
        mul_parts_view(ps).len() == ps.len(),
    decreases ps.len(),
{
    if ps.len() > 0 {
        lemma_mul_parts_view_len(ps.drop_first());
    }
}

} // verus!
