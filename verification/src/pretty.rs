//! An indented, human-readable dump of the AST.
//!
//! Every node type implements `IndentDisplay`; `fmt_with_indent` renders
//! the node at the given indentation and is specified exactly by the `p_*`
//! family of spec functions.  The `m_*` family gives each node a budget —
//! an upper bound on the indentation the printer adds below it — so that
//! the indentation arithmetic is proved free of overflow.

use crate::ast_nodes::AddExprNode;
use crate::ast_nodes::AddOp;
use crate::ast_nodes::AddExprPart;
use crate::ast_nodes::AddPartV;
use crate::ast_nodes::AddV;
use crate::ast_nodes::BlockNode;
use crate::ast_nodes::CallV;
use crate::ast_nodes::ExpressionKind;
use crate::ast_nodes::ExpressionNode;
use crate::ast_nodes::ExprV;
use crate::ast_nodes::FuncCallNode;
use crate::ast_nodes::FuncDefNode;
use crate::ast_nodes::FuncDefV;
use crate::ast_nodes::FuncParam;
use crate::ast_nodes::MulExprNode;
use crate::ast_nodes::MulOp;
use crate::ast_nodes::MulExprPart;
use crate::ast_nodes::MulPartV;
use crate::ast_nodes::MulV;
use crate::ast_nodes::ParamV;
use crate::ast_nodes::PrimV;
use crate::ast_nodes::PrimaryKind;
use crate::ast_nodes::PrimaryNode;
use crate::ast_nodes::StructDefNode;
use crate::ast_nodes::StructInitNode;
use crate::ast_nodes::VarAccessNode;
use crate::ast_nodes::VarDeclNode;
use crate::ast_nodes::add_parts_view;
use crate::ast_nodes::lemma_add_parts_view_index;
use crate::ast_nodes::lemma_add_parts_view_len;
use crate::ast_nodes::lemma_exprs_view_index;
use crate::ast_nodes::lemma_exprs_view_len;
use crate::ast_nodes::lemma_mul_parts_view_index;
use crate::ast_nodes::lemma_mul_parts_view_len;
use crate::ast_nodes::lemma_params_view_index;
use crate::ast_nodes::lemma_params_view_len;
use crate::ast_nodes::add_view;
use crate::ast_nodes::call_view;
use crate::ast_nodes::expr_view;
use crate::ast_nodes::exprs_view;
use crate::ast_nodes::func_def_view;
use crate::ast_nodes::kind_view;
use crate::ast_nodes::mul_parts_view;
use crate::ast_nodes::mul_view;
use crate::ast_nodes::params_view;
use crate::ast_nodes::primary_view;
use crate::codegen::add_op_text;
use crate::codegen::mul_op_text;
use crate::text::dec_digits;
use crate::text::i32_to_string;
use crate::text::usize_to_string;
use crate::text::int_text;
use vstd::prelude::*;
use vstd::string::StrSliceExecFns;
use vstd::string::StringExecFns;

verus! {

/// How much one indentation step widens the output.
pub const INDENT_SIZE: usize = 2;

/// `n` spaces.
pub open spec fn spaces(n: nat) -> Seq<char>
    decreases n,
{
    if n == 0 {
        Seq::empty()
    } else {
        spaces((n - 1) as nat).push(' ')
    }
}

/// The current indentation level of the printer, in columns.
#[derive(Debug, Clone, Copy, PartialEq, Eq, Structural)]
pub struct Indent(pub usize);

impl Indent {
    /// The leftmost indentation.
    pub fn new() -> (r: Self)
        ensures
            r.0 == 0,
    {
        Indent(0)
    }

    /// One step further to the right.
    pub fn increment(&self) -> (r: Self)
        requires
            self.0 + INDENT_SIZE <= usize::MAX,
        ensures
            r.0 == self.0 + INDENT_SIZE,
    {
        Indent(self.0 + INDENT_SIZE)
    }

    /// This indentation, as spaces.
    pub fn as_str(&self) -> (r: String)
        ensures
            r@ == spaces(self.0 as nat),
    {
        let mut s = String::new();
        let mut k: usize = 0;
        while k < self.0
            invariant
                k <= self.0,
                s@ == spaces(k as nat),
            decreases self.0 - k,
        {
            s.push(' ');
            k = k + 1;
        }
        s
    }
}

// ---------------------------------------------------------------------------
// Budgets: how much indentation the printer may add below each node.
// ---------------------------------------------------------------------------

pub open spec fn m_expr(e: ExprV) -> nat
    decreases e, 1int,
{
    1 + m_kind(e)
}

pub open spec fn m_kind(e: ExprV) -> nat
    decreases e, 0int,
{
    match e {
        ExprV::VarDecl { value, .. } => 2 + m_expr(*value),
        ExprV::AddExpr(a) => 1 + m_add(a),
        ExprV::FuncDef(f) => 1 + m_funcdef(f),
        ExprV::ReturnExpr(b) => 1 + m_expr(*b),
        ExprV::CImport { .. } => 1,
        ExprV::FuncCall(c) => 1 + m_call(c),
        ExprV::IntLit(_) => 1,
        ExprV::StrLit(_) => 1,
    }
}

pub open spec fn m_add(a: AddV) -> nat
    decreases a, 0int,
{
    1 + m_mul(a.left) + m_add_parts(a.terms)
}

pub open spec fn m_add_parts(ts: Seq<AddPartV>) -> nat
    decreases ts, 0int,
{
    if ts.len() == 0 {
        1
    } else {
        1 + m_add_part(ts[0]) + m_add_parts(ts.drop_first())
    }
}

pub open spec fn m_add_part(p: AddPartV) -> nat
    decreases p, 0int,
{
    1 + m_mul(p.value)
}

pub open spec fn m_mul(m: MulV) -> nat
    decreases m, 0int,
{
    1 + m_prim(m.left) + m_mul_parts(m.terms)
}

pub open spec fn m_mul_parts(ts: Seq<MulPartV>) -> nat
    decreases ts, 0int,
{
    if ts.len() == 0 {
        1
    } else {
        1 + m_mul_part(ts[0]) + m_mul_parts(ts.drop_first())
    }
}

pub open spec fn m_mul_part(p: MulPartV) -> nat
    decreases p, 0int,
{
    1 + m_prim(p.value)
}

pub open spec fn m_prim(p: PrimV) -> nat
    decreases p, 0int,
{
    match p {
        PrimV::FuncCall(c) => 1 + m_call(c),
        PrimV::Block(es) => 1 + m_exprs(es),
        PrimV::FuncDef(f) => 1 + m_funcdef(f),
        PrimV::Paren(b) => 1 + m_expr(*b),
        _ => 1,
    }
}

pub open spec fn m_call(c: CallV) -> nat
    decreases c, 0int,
{
    1 + m_exprs(c.args)
}

pub open spec fn m_funcdef(f: FuncDefV) -> nat
    decreases f, 0int,
{
    1 + m_exprs(f.body)
}

pub open spec fn m_exprs(es: Seq<ExprV>) -> nat
    decreases es, 2int,
{
    if es.len() == 0 {
        1
    } else {
        1 + m_expr(es[0]) + m_exprs(es.drop_first())
    }
}

// ---------------------------------------------------------------------------
// The printed text.
// ---------------------------------------------------------------------------

pub open spec fn p_expr(e: ExprV, ind: nat) -> Seq<char>
    decreases e, 1int,
{
    spaces(ind) + "Expression\n"@ + p_kind(e, ind + 2)
}

pub open spec fn p_kind(e: ExprV, ind: nat) -> Seq<char>
    decreases e, 0int,
{
    match e {
        ExprV::VarDecl { name, value } => spaces(ind) + "VarDecl\n"@ + p_var_decl(
            name,
            *value,
            ind + 2,
        ),
        ExprV::AddExpr(a) => spaces(ind) + "AddExpr\n"@ + p_add(a, ind + 2),
        ExprV::FuncDef(f) => spaces(ind) + "FuncDef\n"@ + p_funcdef(f, ind + 2),
        ExprV::ReturnExpr(b) => spaces(ind) + "ReturnExpr\n"@ + p_expr(*b, ind + 2),
        ExprV::CImport { module } => spaces(ind) + "CImport("@ + module + ")\n"@,
        ExprV::FuncCall(c) => spaces(ind) + "FunctionCall:\n"@ + p_call(c, ind + 2),
        ExprV::IntLit(n) => spaces(ind) + "IntLiteral("@ + int_text(n) + ")\n"@,
        ExprV::StrLit(s) => spaces(ind) + "StringLiteral(\""@ + s + "\")\n"@,
    }
}

pub open spec fn p_var_decl(name: Seq<char>, value: ExprV, ind: nat) -> Seq<char>
    decreases value, 2int,
{
    spaces(ind) + "Name: "@ + name + "\n"@ + spaces(ind) + "Value:\n"@ + p_expr(value, ind + 2)
}

pub open spec fn p_add(a: AddV, ind: nat) -> Seq<char>
    decreases a, 0int,
{
    spaces(ind) + "Left:\n"@ + p_mul(a.left, ind + 2) + (if a.terms.len() > 0 {
        spaces(ind) + "Addents:\n"@ + p_add_parts(a.terms, ind + 2, 0)
    } else {
        Seq::<char>::empty()
    })
}

pub open spec fn p_add_parts(ts: Seq<AddPartV>, ind: nat, idx: nat) -> Seq<char>
    decreases ts, 1int,
{
    if ts.len() == 0 {
        Seq::empty()
    } else {
        spaces(ind) + "["@ + dec_digits(idx) + "]:\n"@ + p_add_part(ts[0], ind + 2) + p_add_parts(
            ts.drop_first(),
            ind,
            idx + 1,
        )
    }
}

pub open spec fn p_add_part(p: AddPartV, ind: nat) -> Seq<char>
    decreases p, 0int,
{
    spaces(ind) + "Operator("@ + add_op_text(p.op) + ")\n"@ + spaces(ind) + "Value:\n"@ + p_mul(
        p.value,
        ind + 2,
    )
}

pub open spec fn p_mul(m: MulV, ind: nat) -> Seq<char>
    decreases m, 0int,
{
    spaces(ind) + "MulExpr\n"@ + spaces(ind + 2) + "Left:\n"@ + p_prim(m.left, ind + 4) + (
    if m.terms.len() > 0 {
        spaces(ind + 2) + "Factors:\n"@ + p_mul_parts(m.terms, ind + 4, 0)
    } else {
        Seq::<char>::empty()
    })
}

pub open spec fn p_mul_parts(ts: Seq<MulPartV>, ind: nat, idx: nat) -> Seq<char>
    decreases ts, 1int,
{
    if ts.len() == 0 {
        Seq::empty()
    } else {
        spaces(ind) + "["@ + dec_digits(idx) + "]:\n"@ + p_mul_part(ts[0], ind + 2) + p_mul_parts(
            ts.drop_first(),
            ind,
            idx + 1,
        )
    }
}

pub open spec fn p_mul_part(p: MulPartV, ind: nat) -> Seq<char>
    decreases p, 0int,
{
    spaces(ind) + "Operator: "@ + mul_op_text(p.op) + "\n"@ + spaces(ind) + "Value:\n"@ + p_prim(
        p.value,
        ind + 2,
    )
}

pub open spec fn p_prim(p: PrimV, ind: nat) -> Seq<char>
    decreases p, 0int,
{
    spaces(ind) + "Primary\n"@ + match p {
        PrimV::IntLit(n) => spaces(ind + 2) + "IntLiteral("@ + int_text(n) + ")\n"@,
        PrimV::FloatLit(t) => spaces(ind + 2) + "FloatLiteral("@ + t + ")\n"@,
        PrimV::StrLit(s) => spaces(ind + 2) + "StringLiteral(\""@ + s + "\")\n"@,
        PrimV::VarAccess(n) => spaces(ind + 2) + n + "\n"@,
        PrimV::FuncCall(c) => spaces(ind + 2) + "FunctionCall:\n"@ + p_call(c, ind + 4),
        PrimV::StructInit => spaces(ind + 2) + "StructInit\n"@,
        PrimV::Block(es) => spaces(ind + 2) + "Block:\n"@ + p_exprs(es, ind + 4),
        PrimV::FuncDef(f) => spaces(ind + 2) + "FunctionDef:\n"@ + p_funcdef(f, ind + 4),
        PrimV::Paren(b) => spaces(ind + 2) + "Expression:\n"@ + p_expr(*b, ind + 4),
    }
}

pub open spec fn p_call(c: CallV, ind: nat) -> Seq<char>
    decreases c, 0int,
{
    spaces(ind) + "FuncCall("@ + c.name + ")\n"@ + p_exprs(c.args, ind + 2)
}

pub open spec fn p_funcdef(f: FuncDefV, ind: nat) -> Seq<char>
    decreases f, 0int,
{
    spaces(ind) + "FuncDef("@ + f.name + ")\n"@ + p_params(f.params, ind + 2) + spaces(ind)
        + "Body:\n"@ + p_exprs(f.body, ind + 2)
}

pub open spec fn p_params(ps: Seq<ParamV>, ind: nat) -> Seq<char>
    decreases ps,
{
    if ps.len() == 0 {
        Seq::empty()
    } else {
        p_param(ps[0], ind) + p_params(ps.drop_first(), ind)
    }
}

pub open spec fn p_param(p: ParamV, ind: nat) -> Seq<char> {
    spaces(ind) + p.name + ", "@ + p.typ + "\n"@
}

pub open spec fn p_exprs(es: Seq<ExprV>, ind: nat) -> Seq<char>
    decreases es, 2int,
{
    if es.len() == 0 {
        Seq::empty()
    } else {
        p_expr(es[0], ind) + p_exprs(es.drop_first(), ind)
    }
}

pub open spec fn p_var_access(name: Seq<char>, ind: nat) -> Seq<char> {
    spaces(ind) + name + "\n"@
}

// ---------------------------------------------------------------------------
// The trait.
// ---------------------------------------------------------------------------

/// Displays an AST node with indentation.  `fmt_text` is the exact text the
/// node renders to; `fmt_budget` bounds the indentation the printer adds
/// below it, so that indentation arithmetic cannot overflow.
pub trait IndentDisplay {
    spec fn fmt_budget(&self) -> nat;

    spec fn fmt_text(&self, ind: nat) -> Seq<char>;

    fn fmt_with_indent(&self, indent: Indent) -> (r: String)
        requires
            indent.0 + self.fmt_budget() <= usize::MAX,
        ensures
            r@ == self.fmt_text(indent.0 as nat),
    ;
}


/// The ghost pair of one additive (operator, operand) step.
pub open spec fn add_part_v(p: AddExprPart) -> AddPartV {
    AddPartV { op: p.op, value: mul_view(p.value) }
}

/// The ghost pair of one multiplicative (operator, operand) step.
pub open spec fn mul_part_v(p: MulExprPart) -> MulPartV {
    MulPartV { op: p.op, value: primary_view(p.value) }
}

// ---------------------------------------------------------------------------
// The executable printer.
// ---------------------------------------------------------------------------

fn fmt_expr_node(e: &ExpressionNode, indent: Indent) -> (r: String)
    requires
        indent.0 + 8 * m_expr(expr_view(*e)) <= usize::MAX,
    ensures
        r@ == p_expr(expr_view(*e), indent.0 as nat),
    decreases expr_view(*e), 1int,
{
    let mut out = indent.as_str();
    out.append("Expression\n");
    let inner = fmt_expr_kind(&e.kind, indent.increment());
    out.append(inner.as_str());
    proof {
        assert(out@ =~= p_expr(expr_view(*e), indent.0 as nat));
    }
    out
}

fn fmt_expr_kind(k: &ExpressionKind, indent: Indent) -> (r: String)
    requires
        indent.0 + 8 * m_kind(kind_view(*k)) <= usize::MAX,
    ensures
        r@ == p_kind(kind_view(*k), indent.0 as nat),
    decreases kind_view(*k), 0int,
{
    let mut out = indent.as_str();
    match k {
        ExpressionKind::VarDecl(v) => {
            out.append("VarDecl\n");
            let inner = fmt_var_decl(v, indent.increment());
            out.append(inner.as_str());
        },
        ExpressionKind::AddExpr(a) => {
            out.append("AddExpr\n");
            let inner = fmt_add_expr(a, indent.increment());
            out.append(inner.as_str());
        },
        ExpressionKind::FuncDef(f) => {
            out.append("FuncDef\n");
            let inner = fmt_func_def(f, indent.increment());
            out.append(inner.as_str());
        },
        ExpressionKind::ReturnExpr(rx) => {
            out.append("ReturnExpr\n");
            let inner = fmt_expr_node(&rx.expression, indent.increment());
            out.append(inner.as_str());
        },
        ExpressionKind::CImport(c) => {
            out.append("CImport(");
            out.append(c.module.as_str());
            out.append(")\n");
        },
        ExpressionKind::FuncCall(c) => {
            out.append("FunctionCall:\n");
            let inner = fmt_func_call(c, indent.increment());
            out.append(inner.as_str());
        },
        ExpressionKind::IntLit(n) => {
            out.append("IntLiteral(");
            let d = i32_to_string(*n);
            out.append(d.as_str());
            out.append(")\n");
        },
        ExpressionKind::StrLit(s) => {
            out.append("StringLiteral(\"");
            out.append(s.as_str());
            out.append("\")\n");
        },
    }
    proof {
        assert(out@ =~= p_kind(kind_view(*k), indent.0 as nat));
    }
    out
}

fn fmt_var_decl(v: &VarDeclNode, indent: Indent) -> (r: String)
    requires
        indent.0 + 8 * (1 + m_expr(expr_view(*v.value))) <= usize::MAX,
    ensures
        r@ == p_var_decl(v.name@, expr_view(*v.value), indent.0 as nat),
    decreases expr_view(*v.value), 2int,
{
    let mut out = indent.as_str();
    out.append("Name: ");
    out.append(v.name.as_str());
    out.append("\n");
    let pad = indent.as_str();
    out.append(pad.as_str());
    out.append("Value:\n");
    let inner = fmt_expr_node(&v.value, indent.increment());
    out.append(inner.as_str());
    proof {
        assert(out@ =~= p_var_decl(v.name@, expr_view(*v.value), indent.0 as nat));
    }
    out
}

fn fmt_add_expr(a: &AddExprNode, indent: Indent) -> (r: String)
    requires
        indent.0 + 8 * m_add(add_view(*a)) <= usize::MAX,
    ensures
        r@ == p_add(add_view(*a), indent.0 as nat),
    decreases add_view(*a), 0int,
{
    proof {
        lemma_add_parts_view_len(a.addent@);
        assert(add_parts_view(a.addent@).skip(0) =~= add_parts_view(a.addent@));
    }
    let mut out = indent.as_str();
    out.append("Left:\n");
    let left = fmt_mul_expr(&a.left, indent.increment());
    out.append(left.as_str());
    if a.addent.len() > 0 {
        let pad = indent.as_str();
        out.append(pad.as_str());
        out.append("Addents:\n");
        let parts = fmt_add_parts(&a.addent, 0, indent.increment());
        out.append(parts.as_str());
    }
    proof {
        assert(out@ =~= p_add(add_view(*a), indent.0 as nat));
    }
    out
}

fn fmt_add_parts(parts: &Vec<AddExprPart>, i: usize, indent: Indent) -> (r: String)
    requires
        i <= parts.len(),
        indent.0 + 8 * m_add_parts(add_parts_view(parts@).skip(i as int)) <= usize::MAX,
    ensures
        r@ == p_add_parts(add_parts_view(parts@).skip(i as int), indent.0 as nat, i as nat),
    decreases add_parts_view(parts@), parts@.len() - i,
{
    proof {
        lemma_add_parts_view_len(parts@);
    }
    if i >= parts.len() {
        proof {
            assert(add_parts_view(parts@).skip(i as int) =~= Seq::<AddPartV>::empty());
        }
        return String::new();
    }
    proof {
        lemma_add_parts_view_index(parts@, i as int);
        assert(add_parts_view(parts@).skip(i as int)[0] == add_parts_view(parts@)[i as int]);
        assert(add_parts_view(parts@).skip(i as int).drop_first() =~= add_parts_view(
            parts@,
        ).skip(i as int + 1));
        assert(decreases_to!(add_parts_view(parts@) => add_parts_view(parts@)[i as int]));
        assert(decreases_to!(add_parts_view(parts@)[i as int] => add_parts_view(parts@)[
            i as int
        ].value));
    }
    let mut out = indent.as_str();
    out.append("[");
    let d = usize_to_string(i);
    out.append(d.as_str());
    out.append("]:\n");
    let part = fmt_add_part(&parts[i], indent.increment());
    out.append(part.as_str());
    let rest = fmt_add_parts(parts, i + 1, indent);
    out.append(rest.as_str());
    proof {
        assert(out@ =~= p_add_parts(
            add_parts_view(parts@).skip(i as int),
            indent.0 as nat,
            i as nat,
        ));
    }
    out
}

fn fmt_add_part(p: &AddExprPart, indent: Indent) -> (r: String)
    requires
        indent.0 + 8 * m_add_part(add_part_v(*p)) <= usize::MAX,
    ensures
        r@ == p_add_part(add_part_v(*p), indent.0 as nat),
    decreases mul_view(p.value), 1int,
{
    let mut out = indent.as_str();
    out.append("Operator(");
    match p.op {
        AddOp::Add => out.append("+"),
        AddOp::Subtract => out.append("-"),
    }
    out.append(")\n");
    let pad = indent.as_str();
    out.append(pad.as_str());
    out.append("Value:\n");
    let inner = fmt_mul_expr(&p.value, indent.increment());
    out.append(inner.as_str());
    proof {
        assert(out@ =~= p_add_part(add_part_v(*p), indent.0 as nat));
    }
    out
}

fn fmt_mul_expr(m: &MulExprNode, indent: Indent) -> (r: String)
    requires
        indent.0 + 8 * m_mul(mul_view(*m)) <= usize::MAX,
    ensures
        r@ == p_mul(mul_view(*m), indent.0 as nat),
    decreases mul_view(*m), 0int,
{
    proof {
        lemma_mul_parts_view_len(m.factor@);
        assert(mul_parts_view(m.factor@).skip(0) =~= mul_parts_view(m.factor@));
    }
    let mut out = indent.as_str();
    out.append("MulExpr\n");
    let inner_indent = indent.increment();
    let pad = inner_indent.as_str();
    out.append(pad.as_str());
    out.append("Left:\n");
    let left = fmt_primary(&m.left, inner_indent.increment());
    out.append(left.as_str());
    if m.factor.len() > 0 {
        out.append(pad.as_str());
        out.append("Factors:\n");
        let parts = fmt_mul_parts(&m.factor, 0, inner_indent.increment());
        out.append(parts.as_str());
    }
    proof {
        assert(out@ =~= p_mul(mul_view(*m), indent.0 as nat));
    }
    out
}

fn fmt_mul_parts(parts: &Vec<MulExprPart>, i: usize, indent: Indent) -> (r: String)
    requires
        i <= parts.len(),
        indent.0 + 8 * m_mul_parts(mul_parts_view(parts@).skip(i as int)) <= usize::MAX,
    ensures
        r@ == p_mul_parts(mul_parts_view(parts@).skip(i as int), indent.0 as nat, i as nat),
    decreases mul_parts_view(parts@), parts@.len() - i,
{
    proof {
        lemma_mul_parts_view_len(parts@);
    }
    if i >= parts.len() {
        proof {
            assert(mul_parts_view(parts@).skip(i as int) =~= Seq::<MulPartV>::empty());
        }
        return String::new();
    }
    proof {
        lemma_mul_parts_view_index(parts@, i as int);
        assert(mul_parts_view(parts@).skip(i as int)[0] == mul_parts_view(parts@)[i as int]);
        assert(mul_parts_view(parts@).skip(i as int).drop_first() =~= mul_parts_view(
            parts@,
        ).skip(i as int + 1));
        assert(decreases_to!(mul_parts_view(parts@) => mul_parts_view(parts@)[i as int]));
        assert(decreases_to!(mul_parts_view(parts@)[i as int] => mul_parts_view(parts@)[
            i as int
        ].value));
    }
    let mut out = indent.as_str();
    out.append("[");
    let d = usize_to_string(i);
    out.append(d.as_str());
    out.append("]:\n");
    let part = fmt_mul_part(&parts[i], indent.increment());
    out.append(part.as_str());
    let rest = fmt_mul_parts(parts, i + 1, indent);
    out.append(rest.as_str());
    proof {
        assert(out@ =~= p_mul_parts(
            mul_parts_view(parts@).skip(i as int),
            indent.0 as nat,
            i as nat,
        ));
    }
    out
}

fn fmt_mul_part(p: &MulExprPart, indent: Indent) -> (r: String)
    requires
        indent.0 + 8 * m_mul_part(mul_part_v(*p)) <= usize::MAX,
    ensures
        r@ == p_mul_part(mul_part_v(*p), indent.0 as nat),
    decreases primary_view(p.value), 1int,
{
    let mut out = indent.as_str();
    out.append("Operator: ");
    match p.op {
        MulOp::Multiply => out.append("*"),
        MulOp::Divide => out.append("/"),
    }
    out.append("\n");
    let pad = indent.as_str();
    out.append(pad.as_str());
    out.append("Value:\n");
    let inner = fmt_primary(&p.value, indent.increment());
    out.append(inner.as_str());
    proof {
        assert(out@ =~= p_mul_part(mul_part_v(*p), indent.0 as nat));
    }
    out
}

fn fmt_primary(p: &PrimaryNode, indent: Indent) -> (r: String)
    requires
        indent.0 + 8 * m_prim(primary_view(*p)) <= usize::MAX,
    ensures
        r@ == p_prim(primary_view(*p), indent.0 as nat),
    decreases primary_view(*p), 0int,
{
    let mut out = indent.as_str();
    out.append("Primary\n");
    let inner_indent = indent.increment();
    let pad = inner_indent.as_str();
    match &p.kind {
        PrimaryKind::IntLit(n) => {
            out.append(pad.as_str());
            out.append("IntLiteral(");
            let d = i32_to_string(*n);
            out.append(d.as_str());
            out.append(")\n");
        },
        PrimaryKind::FloatLit(t) => {
            out.append(pad.as_str());
            out.append("FloatLiteral(");
            out.append(t.as_str());
            out.append(")\n");
        },
        PrimaryKind::StrLit(s) => {
            out.append(pad.as_str());
            out.append("StringLiteral(\"");
            out.append(s.as_str());
            out.append("\")\n");
        },
        PrimaryKind::VarAccess(v) => {
            out.append(pad.as_str());
            out.append(v.name.as_str());
            out.append("\n");
        },
        PrimaryKind::FuncCall(c) => {
            out.append(pad.as_str());
            out.append("FunctionCall:\n");
            let inner = fmt_func_call(c, inner_indent.increment());
            out.append(inner.as_str());
        },
        PrimaryKind::StructInit(_) => {
            out.append(pad.as_str());
            out.append("StructInit\n");
        },
        PrimaryKind::Block(b) => {
            out.append(pad.as_str());
            out.append("Block:\n");
            proof {
                assert(exprs_view(b.expressions@).skip(0) =~= exprs_view(b.expressions@));
            }
            let inner = fmt_exprs(&b.expressions, 0, inner_indent.increment());
            out.append(inner.as_str());
        },
        PrimaryKind::FuncDef(f) => {
            out.append(pad.as_str());
            out.append("FunctionDef:\n");
            let inner = fmt_func_def(f, inner_indent.increment());
            out.append(inner.as_str());
        },
        PrimaryKind::Expression(e) => {
            out.append(pad.as_str());
            out.append("Expression:\n");
            let inner = fmt_expr_node(e, inner_indent.increment());
            out.append(inner.as_str());
        },
    }
    proof {
        assert(out@ =~= p_prim(primary_view(*p), indent.0 as nat));
    }
    out
}

fn fmt_func_call(c: &FuncCallNode, indent: Indent) -> (r: String)
    requires
        indent.0 + 8 * m_call(call_view(*c)) <= usize::MAX,
    ensures
        r@ == p_call(call_view(*c), indent.0 as nat),
    decreases call_view(*c), 0int,
{
    proof {
        assert(exprs_view(c.params@).skip(0) =~= exprs_view(c.params@));
    }
    let mut out = indent.as_str();
    out.append("FuncCall(");
    out.append(c.name.as_str());
    out.append(")\n");
    let inner = fmt_exprs(&c.params, 0, indent.increment());
    out.append(inner.as_str());
    proof {
        assert(out@ =~= p_call(call_view(*c), indent.0 as nat));
    }
    out
}

fn fmt_func_def(f: &FuncDefNode, indent: Indent) -> (r: String)
    requires
        indent.0 + 8 * m_funcdef(func_def_view(*f)) <= usize::MAX,
    ensures
        r@ == p_funcdef(func_def_view(*f), indent.0 as nat),
    decreases func_def_view(*f), 0int,
{
    proof {
        assert(params_view(f.params@).skip(0) =~= params_view(f.params@));
        assert(exprs_view(f.body.expressions@).skip(0) =~= exprs_view(f.body.expressions@));
    }
    let mut out = indent.as_str();
    out.append("FuncDef(");
    out.append(f.name.as_str());
    out.append(")\n");
    let ps = fmt_params(&f.params, 0, indent.increment());
    out.append(ps.as_str());
    let pad = indent.as_str();
    out.append(pad.as_str());
    out.append("Body:\n");
    let body = fmt_exprs(&f.body.expressions, 0, indent.increment());
    out.append(body.as_str());
    proof {
        assert(out@ =~= p_funcdef(func_def_view(*f), indent.0 as nat));
    }
    out
}

fn fmt_params(ps: &Vec<FuncParam>, i: usize, indent: Indent) -> (r: String)
    requires
        i <= ps.len(),
    ensures
        r@ == p_params(params_view(ps@).skip(i as int), indent.0 as nat),
    decreases ps@.len() - i,
{
    proof {
        lemma_params_view_len(ps@);
    }
    if i >= ps.len() {
        proof {
            assert(params_view(ps@).skip(i as int) =~= Seq::<ParamV>::empty());
        }
        return String::new();
    }
    proof {
        lemma_params_view_index(ps@, i as int);
        assert(params_view(ps@).skip(i as int)[0] == params_view(ps@)[i as int]);
        assert(params_view(ps@).skip(i as int).drop_first() =~= params_view(ps@).skip(
            i as int + 1,
        ));
    }
    let mut out = indent.as_str();
    out.append(ps[i].name.as_str());
    out.append(", ");
    out.append(ps[i].param_type.as_str());
    out.append("\n");
    let rest = fmt_params(ps, i + 1, indent);
    out.append(rest.as_str());
    proof {
        assert(out@ =~= p_params(params_view(ps@).skip(i as int), indent.0 as nat));
    }
    out
}

fn fmt_exprs(es: &Vec<ExpressionNode>, i: usize, indent: Indent) -> (r: String)
    requires
        i <= es.len(),
        indent.0 + 8 * m_exprs(exprs_view(es@).skip(i as int)) <= usize::MAX,
    ensures
        r@ == p_exprs(exprs_view(es@).skip(i as int), indent.0 as nat),
    decreases exprs_view(es@), es@.len() - i,
{
    proof {
        lemma_exprs_view_len(es@);
    }
    if i >= es.len() {
        proof {
            assert(exprs_view(es@).skip(i as int) =~= Seq::<ExprV>::empty());
        }
        return String::new();
    }
    proof {
        lemma_exprs_view_index(es@, i as int);
        assert(exprs_view(es@).skip(i as int)[0] == exprs_view(es@)[i as int]);
        assert(exprs_view(es@).skip(i as int).drop_first() =~= exprs_view(es@).skip(i as int + 1));
        assert(decreases_to!(exprs_view(es@) => exprs_view(es@)[i as int]));
    }
    let mut out = fmt_expr_node(&es[i], indent);
    let rest = fmt_exprs(es, i + 1, indent);
    out.append(rest.as_str());
    proof {
        assert(out@ =~= p_exprs(exprs_view(es@).skip(i as int), indent.0 as nat));
    }
    out
}

// ---------------------------------------------------------------------------
// The trait impls.
// ---------------------------------------------------------------------------

impl IndentDisplay for ExpressionNode {
    open spec fn fmt_budget(&self) -> nat {
        8 * m_expr(expr_view(*self))
    }

    open spec fn fmt_text(&self, ind: nat) -> Seq<char> {
        p_expr(expr_view(*self), ind)
    }

    fn fmt_with_indent(&self, indent: Indent) -> (r: String) {
        fmt_expr_node(self, indent)
    }
}

impl IndentDisplay for ExpressionKind {
    open spec fn fmt_budget(&self) -> nat {
        8 * m_kind(kind_view(*self))
    }

    open spec fn fmt_text(&self, ind: nat) -> Seq<char> {
        p_kind(kind_view(*self), ind)
    }

    fn fmt_with_indent(&self, indent: Indent) -> (r: String) {
        fmt_expr_kind(self, indent)
    }
}

impl IndentDisplay for VarDeclNode {
    open spec fn fmt_budget(&self) -> nat {
        8 * (1 + m_expr(expr_view(*self.value)))
    }

    open spec fn fmt_text(&self, ind: nat) -> Seq<char> {
        p_var_decl(self.name@, expr_view(*self.value), ind)
    }

    fn fmt_with_indent(&self, indent: Indent) -> (r: String) {
        fmt_var_decl(self, indent)
    }
}

impl IndentDisplay for AddExprNode {
    open spec fn fmt_budget(&self) -> nat {
        8 * m_add(add_view(*self))
    }

    open spec fn fmt_text(&self, ind: nat) -> Seq<char> {
        p_add(add_view(*self), ind)
    }

    fn fmt_with_indent(&self, indent: Indent) -> (r: String) {
        fmt_add_expr(self, indent)
    }
}

impl IndentDisplay for AddExprPart {
    open spec fn fmt_budget(&self) -> nat {
        8 * m_add_part(add_part_v(*self))
    }

    open spec fn fmt_text(&self, ind: nat) -> Seq<char> {
        p_add_part(add_part_v(*self), ind)
    }

    fn fmt_with_indent(&self, indent: Indent) -> (r: String) {
        fmt_add_part(self, indent)
    }
}

impl IndentDisplay for MulExprNode {
    open spec fn fmt_budget(&self) -> nat {
        8 * m_mul(mul_view(*self))
    }

    open spec fn fmt_text(&self, ind: nat) -> Seq<char> {
        p_mul(mul_view(*self), ind)
    }

    fn fmt_with_indent(&self, indent: Indent) -> (r: String) {
        fmt_mul_expr(self, indent)
    }
}

impl IndentDisplay for MulExprPart {
    open spec fn fmt_budget(&self) -> nat {
        8 * m_mul_part(mul_part_v(*self))
    }

    open spec fn fmt_text(&self, ind: nat) -> Seq<char> {
        p_mul_part(mul_part_v(*self), ind)
    }

    fn fmt_with_indent(&self, indent: Indent) -> (r: String) {
        fmt_mul_part(self, indent)
    }
}

impl IndentDisplay for PrimaryNode {
    open spec fn fmt_budget(&self) -> nat {
        8 * m_prim(primary_view(*self))
    }

    open spec fn fmt_text(&self, ind: nat) -> Seq<char> {
        p_prim(primary_view(*self), ind)
    }

    fn fmt_with_indent(&self, indent: Indent) -> (r: String) {
        fmt_primary(self, indent)
    }
}

impl IndentDisplay for FuncCallNode {
    open spec fn fmt_budget(&self) -> nat {
        8 * m_call(call_view(*self))
    }

    open spec fn fmt_text(&self, ind: nat) -> Seq<char> {
        p_call(call_view(*self), ind)
    }

    fn fmt_with_indent(&self, indent: Indent) -> (r: String) {
        fmt_func_call(self, indent)
    }
}

impl IndentDisplay for FuncDefNode {
    open spec fn fmt_budget(&self) -> nat {
        8 * m_funcdef(func_def_view(*self))
    }

    open spec fn fmt_text(&self, ind: nat) -> Seq<char> {
        p_funcdef(func_def_view(*self), ind)
    }

    fn fmt_with_indent(&self, indent: Indent) -> (r: String) {
        fmt_func_def(self, indent)
    }
}

impl IndentDisplay for FuncParam {
    open spec fn fmt_budget(&self) -> nat {
        0
    }

    open spec fn fmt_text(&self, ind: nat) -> Seq<char> {
        p_param(self@, ind)
    }

    fn fmt_with_indent(&self, indent: Indent) -> (r: String) {
        let mut out = indent.as_str();
        out.append(self.name.as_str());
        out.append(", ");
        out.append(self.param_type.as_str());
        out.append("\n");
        proof {
            assert(out@ =~= p_param(self@, indent.0 as nat));
        }
        out
    }
}

impl IndentDisplay for BlockNode {
    open spec fn fmt_budget(&self) -> nat {
        8 * m_exprs(exprs_view(self.expressions@))
    }

    open spec fn fmt_text(&self, ind: nat) -> Seq<char> {
        p_exprs(exprs_view(self.expressions@), ind)
    }

    fn fmt_with_indent(&self, indent: Indent) -> (r: String) {
        proof {
            assert(exprs_view(self.expressions@).skip(0) =~= exprs_view(self.expressions@));
        }
        fmt_exprs(&self.expressions, 0, indent)
    }
}

impl IndentDisplay for VarAccessNode {
    open spec fn fmt_budget(&self) -> nat {
        0
    }

    open spec fn fmt_text(&self, ind: nat) -> Seq<char> {
        p_var_access(self.name@, ind)
    }

    fn fmt_with_indent(&self, indent: Indent) -> (r: String) {
        let mut out = indent.as_str();
        out.append(self.name.as_str());
        out.append("\n");
        proof {
            assert(out@ =~= p_var_access(self.name@, indent.0 as nat));
        }
        out
    }
}

impl IndentDisplay for StructInitNode {
    open spec fn fmt_budget(&self) -> nat {
        0
    }

    open spec fn fmt_text(&self, ind: nat) -> Seq<char> {
        spaces(ind) + "StructInit\n"@
    }

    fn fmt_with_indent(&self, indent: Indent) -> (r: String) {
        let mut out = indent.as_str();
        out.append("StructInit\n");
        out
    }
}

impl IndentDisplay for StructDefNode {
    open spec fn fmt_budget(&self) -> nat {
        0
    }

    open spec fn fmt_text(&self, ind: nat) -> Seq<char> {
        spaces(ind) + self.name@ + "\n"@
    }

    fn fmt_with_indent(&self, indent: Indent) -> (r: String) {
        let mut out = indent.as_str();
        out.append(self.name.as_str());
        out.append("\n");
        proof {
            assert(out@ =~= spaces(indent.0 as nat) + self.name@ + "\n"@);
        }
        out
    }
}


} // verus!
