//! Code generation: from the typed AST to one complete C translation unit.
//!
//! The walk carries an accumulator (`Context`) owned by one compilation: an
//! ordered list of hoisted function-declaration texts, an ordered list of
//! include lines, and the buffer of the synthesized `main` body.  Function
//! definitions and import directives route themselves to the accumulators
//! and contribute no text at their own position; every other top-level
//! expression becomes one `;`-terminated statement of `main`, in source
//! order.
//!
//! The specification is the `gen_*` family: `gen_expr` gives, for every
//! expression, the text it renders to and the declaration and include lines
//! it hoists, or the error naming the first unsupported construct in walk
//! order.  `spec_gen_code` assembles the unit: a fixed typedef line, the
//! include lines, the hoisted declarations, then
//! `int main(){ <statements> return 0;}`.

use crate::ast_nodes::AddExprNode;
use crate::ast_nodes::AddExprPart;
use crate::ast_nodes::AddOp;
use crate::ast_nodes::AddPartV;
use crate::ast_nodes::AddV;
use crate::ast_nodes::BlockNode;
use crate::ast_nodes::CImportNode;
use crate::ast_nodes::CallV;
use crate::ast_nodes::Construct;
use crate::ast_nodes::ExpressionKind;
use crate::ast_nodes::ExpressionNode;
use crate::ast_nodes::ExprV;
use crate::ast_nodes::FuncCallNode;
use crate::ast_nodes::FuncDefNode;
use crate::ast_nodes::FuncDefV;
use crate::ast_nodes::FuncParam;
use crate::ast_nodes::MulExprNode;
use crate::ast_nodes::MulExprPart;
use crate::ast_nodes::MulOp;
use crate::ast_nodes::MulPartV;
use crate::ast_nodes::MulV;
use crate::ast_nodes::ParamV;
use crate::ast_nodes::PrimV;
use crate::ast_nodes::PrimaryKind;
use crate::ast_nodes::PrimaryNode;
use crate::ast_nodes::ProgV;
use crate::ast_nodes::ProgramNode;
use crate::ast_nodes::ReturnExprNode;
use crate::ast_nodes::add_parts_view;
use crate::ast_nodes::expr_view;
use crate::ast_nodes::exprs_view;
use crate::ast_nodes::lemma_add_parts_view_index;
use crate::ast_nodes::lemma_add_parts_view_len;
use crate::ast_nodes::lemma_exprs_view_index;
use crate::ast_nodes::lemma_exprs_view_len;
use crate::ast_nodes::lemma_mul_parts_view_index;
use crate::ast_nodes::lemma_mul_parts_view_len;
use crate::ast_nodes::lemma_params_view_index;
use crate::ast_nodes::lemma_params_view_len;
use crate::ast_nodes::mul_parts_view;
use crate::ast_nodes::mul_view;
use crate::ast_nodes::params_view;
use crate::ast_nodes::primary_view;
use crate::text::escape_text;
use crate::text::escape_string;
use crate::text::i32_to_string;
use crate::text::int_text;
use vstd::prelude::*;
use vstd::string::StrSliceExecFns;
use vstd::string::StringExecFns;

verus! {

/// A generation failure: the first AST construct in walk order that has no
/// defined rendering rule.  Generation aborts immediately; no partial
/// output is handed back.
#[derive(Debug, Clone, Copy, PartialEq, Eq, Structural)]
pub enum CodeGenError {
    Unsupported { construct: Construct },
}

impl CodeGenError {
    /// The failure, in words: the name of the unsupported construct.
    pub open spec fn spec_describe(self) -> Seq<char> {
        match self {
            CodeGenError::Unsupported { construct } => construct.spec_name(),
        }
    }

    /// The failure, in words: the name of the unsupported construct.
    pub fn describe(&self) -> (r: String)
        ensures
            r@ == self.spec_describe(),
    {
        match self {
            CodeGenError::Unsupported { construct } => construct.name(),
        }
    }
}

/// What one expression contributes: the text at its own position, the
/// hoisted declaration texts, and the include lines, both in walk order.
pub ghost struct GenAcc {
    pub text: Seq<char>,
    pub decls: Seq<Seq<char>>,
    pub imports: Seq<Seq<char>>,
}

impl GenAcc {
    /// A contribution with no text and nothing hoisted.
    pub open spec fn empty() -> GenAcc {
        GenAcc { text: Seq::empty(), decls: Seq::empty(), imports: Seq::empty() }
    }
}

/// The operator symbol of one additive step.
pub open spec fn add_op_text(op: AddOp) -> Seq<char> {
    match op {
        AddOp::Add => "+"@,
        AddOp::Subtract => "-"@,
    }
}

/// The operator symbol of one multiplicative step.
pub open spec fn mul_op_text(op: MulOp) -> Seq<char> {
    match op {
        MulOp::Multiply => "*"@,
        MulOp::Divide => "/"@,
    }
}

/// The C rendering of a string literal: the text with `\` and `"` escaped,
/// wrapped in double quotes.
pub open spec fn str_lit_text(s: Seq<char>) -> Seq<char> {
    "\""@ + escape_text(s) + "\""@
}

/// One include line, the module text kept as written.
pub open spec fn include_line(m: Seq<char>) -> Seq<char> {
    "#include "@ + m + "\n"@
}

/// One rendered parameter: `type name`.
pub open spec fn param_text(p: ParamV) -> Seq<char> {
    p.typ + " "@ + p.name
}

/// A rendered parameter list, joined by `, `.
pub open spec fn params_text(ps: Seq<ParamV>) -> Seq<char>
    decreases ps.len(),
{
    if ps.len() == 0 {
        Seq::empty()
    } else {
        param_text(ps[0]) + params_text_rest(ps.drop_first())
    }
}

/// The tail of a rendered parameter list: each entry with its `, ` prefix.
pub open spec fn params_text_rest(ps: Seq<ParamV>) -> Seq<char>
    decreases ps.len(),
{
    if ps.len() == 0 {
        Seq::empty()
    } else {
        ", "@ + param_text(ps[0]) + params_text_rest(ps.drop_first())
    }
}

/// The rendered return type: the annotation where present, `int` otherwise.
pub open spec fn ret_text(ret: Option<Seq<char>>) -> Seq<char> {
    match ret {
        Some(t) => t,
        None => "int"@,
    }
}

/// A rendered function declaration, given the rendered body.
pub open spec fn func_decl_text(f: FuncDefV, body_text: Seq<char>) -> Seq<char> {
    ret_text(f.ret) + " "@ + f.name + "("@ + params_text(f.params) + ") { "@ + body_text
        + " }"@
}

/// What an expression contributes at a statement position: nothing for the
/// self-routing constructs, its text (already `;`-terminated) for a return,
/// its text followed by `;` for everything else.
pub open spec fn stmt_text(e: ExprV, t: Seq<char>) -> Seq<char> {
    match e {
        ExprV::FuncDef(_) => Seq::empty(),
        ExprV::CImport { .. } => Seq::empty(),
        ExprV::ReturnExpr(_) => t,
        _ => t + ";"@,
    }
}

/// What one expression renders to, or the first unsupported construct in
/// walk order.
pub open spec fn gen_expr(e: ExprV) -> Result<GenAcc, CodeGenError>
    decreases e,
{
    match e {
        ExprV::VarDecl { .. } => Err(
            CodeGenError::Unsupported { construct: Construct::VariableDeclaration },
        ),
        ExprV::AddExpr(a) => gen_add(a),
        ExprV::FuncDef(f) => gen_func_def(f),
        ExprV::ReturnExpr(inner) => match gen_expr(*inner) {
            Ok(g) => Ok(
                GenAcc {
                    text: "return "@ + g.text + ";"@,
                    decls: g.decls,
                    imports: g.imports,
                },
            ),
            Err(er) => Err(er),
        },
        ExprV::CImport { module } => Ok(
            GenAcc {
                text: Seq::empty(),
                decls: Seq::empty(),
                imports: seq![include_line(module)],
            },
        ),
        ExprV::FuncCall(c) => gen_call(c),
        ExprV::IntLit(n) => Ok(
            GenAcc { text: int_text(n), decls: Seq::empty(), imports: Seq::empty() },
        ),
        ExprV::StrLit(s) => Ok(
            GenAcc { text: str_lit_text(s), decls: Seq::empty(), imports: Seq::empty() },
        ),
    }
}

/// What an additive chain renders to: the first operand's text, then each
/// operator symbol and operand text, strictly left to right, with no
/// parentheses added.
pub open spec fn gen_add(a: AddV) -> Result<GenAcc, CodeGenError>
    decreases a,
{
    match gen_mul(a.left) {
        Ok(g0) => match gen_add_parts(a.terms) {
            Ok(gp) => Ok(
                GenAcc {
                    text: g0.text + gp.text,
                    decls: g0.decls + gp.decls,
                    imports: g0.imports + gp.imports,
                },
            ),
            Err(er) => Err(er),
        },
        Err(er) => Err(er),
    }
}

/// What the (operator, operand) pairs of an additive chain render to.
pub open spec fn gen_add_parts(ts: Seq<AddPartV>) -> Result<GenAcc, CodeGenError>
    decreases ts,
{
    if ts.len() == 0 {
        Ok(GenAcc::empty())
    } else {
        match gen_mul(ts[0].value) {
            Ok(g) => match gen_add_parts(ts.drop_first()) {
                Ok(rest) => Ok(
                    GenAcc {
                        text: add_op_text(ts[0].op) + g.text + rest.text,
                        decls: g.decls + rest.decls,
                        imports: g.imports + rest.imports,
                    },
                ),
                Err(er) => Err(er),
            },
            Err(er) => Err(er),
        }
    }
}

/// What a multiplicative chain renders to, one precedence level tighter by
/// construction, again with no parentheses added.
pub open spec fn gen_mul(m: MulV) -> Result<GenAcc, CodeGenError>
    decreases m,
{
    match gen_prim(m.left) {
        Ok(g0) => match gen_mul_parts(m.terms) {
            Ok(gp) => Ok(
                GenAcc {
                    text: g0.text + gp.text,
                    decls: g0.decls + gp.decls,
                    imports: g0.imports + gp.imports,
                },
            ),
            Err(er) => Err(er),
        },
        Err(er) => Err(er),
    }
}

/// What the (operator, operand) pairs of a multiplicative chain render to.
pub open spec fn gen_mul_parts(ts: Seq<MulPartV>) -> Result<GenAcc, CodeGenError>
    decreases ts,
{
    if ts.len() == 0 {
        Ok(GenAcc::empty())
    } else {
        match gen_prim(ts[0].value) {
            Ok(g) => match gen_mul_parts(ts.drop_first()) {
                Ok(rest) => Ok(
                    GenAcc {
                        text: mul_op_text(ts[0].op) + g.text + rest.text,
                        decls: g.decls + rest.decls,
                        imports: g.imports + rest.imports,
                    },
                ),
                Err(er) => Err(er),
            },
            Err(er) => Err(er),
        }
    }
}

/// What one primary operand renders to.
pub open spec fn gen_prim(p: PrimV) -> Result<GenAcc, CodeGenError>
    decreases p,
{
    match p {
        PrimV::IntLit(n) => Ok(
            GenAcc { text: int_text(n), decls: Seq::empty(), imports: Seq::empty() },
        ),
        PrimV::FloatLit(_) => Err(
            CodeGenError::Unsupported { construct: Construct::FloatLiteral },
        ),
        PrimV::StrLit(s) => Ok(
            GenAcc { text: str_lit_text(s), decls: Seq::empty(), imports: Seq::empty() },
        ),
        PrimV::VarAccess(n) => Ok(GenAcc { text: n, decls: Seq::empty(), imports: Seq::empty() }),
        PrimV::FuncCall(c) => gen_call(c),
        PrimV::StructInit => Err(CodeGenError::Unsupported { construct: Construct::StructInit }),
        PrimV::Block(es) => gen_stmts(es),
        PrimV::FuncDef(f) => gen_func_def(f),
        PrimV::Paren(inner) => match gen_expr(*inner) {
            Ok(g) => Ok(
                GenAcc {
                    text: "("@ + g.text + ")"@,
                    decls: g.decls,
                    imports: g.imports,
                },
            ),
            Err(er) => Err(er),
        },
    }
}

/// What a function call renders to: `name(arg0, arg1, ...)`, the arguments
/// in evaluation order.
pub open spec fn gen_call(c: CallV) -> Result<GenAcc, CodeGenError>
    decreases c,
{
    match gen_args(c.args) {
        Ok(g) => Ok(
            GenAcc {
                text: c.name + "("@ + g.text + ")"@,
                decls: g.decls,
                imports: g.imports,
            },
        ),
        Err(er) => Err(er),
    }
}

/// What an argument list renders to, joined by `, `.
pub open spec fn gen_args(args: Seq<ExprV>) -> Result<GenAcc, CodeGenError>
    decreases args,
{
    if args.len() == 0 {
        Ok(GenAcc::empty())
    } else {
        match gen_expr(args[0]) {
            Ok(g) => match gen_args_rest(args.drop_first()) {
                Ok(rest) => Ok(
                    GenAcc {
                        text: g.text + rest.text,
                        decls: g.decls + rest.decls,
                        imports: g.imports + rest.imports,
                    },
                ),
                Err(er) => Err(er),
            },
            Err(er) => Err(er),
        }
    }
}

/// The tail of a rendered argument list: each argument with its `, `
/// prefix.
pub open spec fn gen_args_rest(args: Seq<ExprV>) -> Result<GenAcc, CodeGenError>
    decreases args,
{
    if args.len() == 0 {
        Ok(GenAcc::empty())
    } else {
        match gen_expr(args[0]) {
            Ok(g) => match gen_args_rest(args.drop_first()) {
                Ok(rest) => Ok(
                    GenAcc {
                        text: ", "@ + g.text + rest.text,
                        decls: g.decls + rest.decls,
                        imports: g.imports + rest.imports,
                    },
                ),
                Err(er) => Err(er),
            },
            Err(er) => Err(er),
        }
    }
}

/// What a function definition contributes: no text at its own position;
/// its rendered declaration is hoisted, after whatever its body hoisted.
pub open spec fn gen_func_def(f: FuncDefV) -> Result<GenAcc, CodeGenError>
    decreases f,
{
    match gen_stmts(f.body) {
        Ok(gb) => Ok(
            GenAcc {
                text: Seq::empty(),
                decls: gb.decls + seq![func_decl_text(f, gb.text)],
                imports: gb.imports,
            },
        ),
        Err(er) => Err(er),
    }
}

/// What a statement list renders to: each expression's statement text,
/// concatenated in source order.
pub open spec fn gen_stmts(es: Seq<ExprV>) -> Result<GenAcc, CodeGenError>
    decreases es,
{
    if es.len() == 0 {
        Ok(GenAcc::empty())
    } else {
        match gen_expr(es[0]) {
            Ok(g) => match gen_stmts(es.drop_first()) {
                Ok(rest) => Ok(
                    GenAcc {
                        text: stmt_text(es[0], g.text) + rest.text,
                        decls: g.decls + rest.decls,
                        imports: g.imports + rest.imports,
                    },
                ),
                Err(er) => Err(er),
            },
            Err(er) => Err(er),
        }
    }
}

/// The whole translation unit: the fixed typedef line, the collected
/// include lines, the collected hoisted declarations, then the synthesized
/// `main` holding the top-level statements and `return 0;` — or the first
/// unsupported construct.
pub open spec fn spec_gen_code(p: ProgV) -> Result<Seq<char>, CodeGenError> {
    match gen_stmts(p.exprs) {
        Ok(g) => Ok(
            "typedef char* string;"@ + g.imports.flatten() + g.decls.flatten() + "int main(){"@
                + g.text + "return 0;}"@,
        ),
        Err(er) => Err(er),
    }
}

// ---------------------------------------------------------------------------
// The accumulator.
// ---------------------------------------------------------------------------

/// The per-compilation accumulator of the code generator.  It is owned by
/// one compilation's call stack and never shared: a fresh one is made for
/// every `gen_code` call.
#[derive(Debug)]
pub struct Context {
    pub function_declarations: Vec<String>,
    pub main_function_content: String,
    pub imports: Vec<String>,
}

/// Ghost counterpart of `Context`.
pub ghost struct CtxV {
    pub decls: Seq<Seq<char>>,
    pub main: Seq<char>,
    pub imports: Seq<Seq<char>>,
}

/// The texts of a list of strings.
pub open spec fn strs_view(ss: Seq<String>) -> Seq<Seq<char>> {
    ss.map_values(|s: String| s@)
}

impl View for Context {
    type V = CtxV;

    open spec fn view(&self) -> CtxV {
        CtxV {
            decls: strs_view(self.function_declarations@),
            main: self.main_function_content@,
            imports: strs_view(self.imports@),
        }
    }
}

/// How one walk step changes the accumulator: the contribution's hoisted
/// declarations and include lines are appended in order, the `main` buffer
/// is left alone.
pub open spec fn ctx_step(pre: CtxV, post: CtxV, g: GenAcc) -> bool {
    &&& post.decls == pre.decls + g.decls
    &&& post.imports == pre.imports + g.imports
    &&& post.main == pre.main
}

impl Context {
    /// Appends one hoisted function-declaration text.
    pub fn add_function_declaration(&mut self, code: String)
        ensures
            final(self)@.decls == old(self)@.decls.push(code@),
            final(self)@.imports == old(self)@.imports,
            final(self)@.main == old(self)@.main,
    {
        let ghost pre = self.function_declarations@;
        self.function_declarations.push(code);
        proof {
            assert(strs_view(self.function_declarations@) =~= strs_view(pre).push(
                self.function_declarations@.last()@,
            ));
        }
    }
}

impl Default for Context {
    /// A fresh, empty accumulator.
    fn default() -> (r: Self)
        ensures
            r@.decls == Seq::<Seq<char>>::empty(),
            r@.imports == Seq::<Seq<char>>::empty(),
            r@.main == Seq::<char>::empty(),
    {
        let r = Context {
            function_declarations: Vec::new(),
            main_function_content: String::new(),
            imports: Vec::new(),
        };
        proof {
            assert(strs_view(r.function_declarations@) =~= Seq::<Seq<char>>::empty());
            assert(strs_view(r.imports@) =~= Seq::<Seq<char>>::empty());
        }
        r
    }
}

// ---------------------------------------------------------------------------
// The executable walk: leaves.
// ---------------------------------------------------------------------------

/// The view of a walk result's text.
pub open spec fn str_res_view(r: Result<String, CodeGenError>) -> Result<Seq<char>, CodeGenError> {
    match r {
        Ok(s) => Ok(s@),
        Err(e) => Err(e),
    }
}

/// The text of a generation outcome.
pub open spec fn text_res(r: Result<GenAcc, CodeGenError>) -> Result<Seq<char>, CodeGenError> {
    match r {
        Ok(g) => Ok(g.text),
        Err(e) => Err(e),
    }
}

/// Renders a string literal: escapes `\` and `"` exactly once and wraps
/// the text in double quotes.
pub fn walk_str_lit(s: &str) -> (r: String)
    ensures
        r@ == str_lit_text(s@),
{
    let mut out = String::new();
    out.append("\"");
    let escaped = escape_string(s);
    out.append(escaped.as_str());
    out.append("\"");
    proof {
        assert(out@ =~= str_lit_text(s@));
    }
    out
}

/// Routes an import directive to the include accumulator: exactly one
/// include line, and no text at the directive's own position.
pub fn walk_c_import(node: &CImportNode, ctx: &mut Context)
    ensures
        final(ctx)@.imports == old(ctx)@.imports.push(include_line(node.module@)),
        final(ctx)@.decls == old(ctx)@.decls,
        final(ctx)@.main == old(ctx)@.main,
{
    let mut line = String::new();
    line.append("#include ");
    line.append(node.module.as_str());
    line.append("\n");
    let ghost pre = ctx.imports@;
    ctx.imports.push(line);
    proof {
        assert(ctx.imports@.last()@ =~= include_line(node.module@));
        assert(strs_view(ctx.imports@) =~= strs_view(pre).push(include_line(node.module@)));
    }
}

/// Renders a parameter list: `type name`, joined by `, `, in source order.
pub fn walk_func_def_params(params: &Vec<FuncParam>) -> (r: String)
    ensures
        r@ == params_text(params_view(params@)),
{
    proof {
        assert(params_view(params@).skip(0) =~= params_view(params@));
    }
    walk_params_from(params, 0)
}

/// Renders one parameter as `type name`.
fn walk_one_param(p: &FuncParam) -> (r: String)
    ensures
        r@ == param_text(p@),
{
    let mut out = String::new();
    out.append(p.param_type.as_str());
    out.append(" ");
    out.append(p.name.as_str());
    proof {
        assert(out@ =~= param_text(p@));
    }
    out
}

/// Renders the parameters from position `i` on; the first rendered entry
/// carries no separator, later ones are prefixed by `, `.
fn walk_params_from(params: &Vec<FuncParam>, i: usize) -> (r: String)
    requires
        i <= params.len(),
    ensures
        r@ == params_text(params_view(params@).skip(i as int)),
    decreases params@.len() - i,
{
    proof {
        lemma_params_view_len(params@);
    }
    if i >= params.len() {
        proof {
            assert(params_view(params@).skip(i as int) =~= Seq::<ParamV>::empty());
        }
        return String::new();
    }
    proof {
        lemma_params_view_index(params@, i as int);
        assert(params_view(params@).skip(i as int)[0] == params_view(params@)[i as int]);
        assert(params_view(params@).skip(i as int).drop_first() =~= params_view(params@).skip(
            i as int + 1,
        ));
    }
    let mut out = walk_one_param(&params[i]);
    let rest = walk_params_rest(params, i + 1);
    out.append(rest.as_str());
    out
}

/// Renders the parameter-list tail from position `i` on, each entry with
/// its `, ` prefix.
fn walk_params_rest(params: &Vec<FuncParam>, i: usize) -> (r: String)
    requires
        i <= params.len(),
    ensures
        r@ == params_text_rest(params_view(params@).skip(i as int)),
    decreases params@.len() - i,
{
    proof {
        lemma_params_view_len(params@);
    }
    if i >= params.len() {
        proof {
            assert(params_view(params@).skip(i as int) =~= Seq::<ParamV>::empty());
        }
        return String::new();
    }
    proof {
        lemma_params_view_index(params@, i as int);
        assert(params_view(params@).skip(i as int)[0] == params_view(params@)[i as int]);
        assert(params_view(params@).skip(i as int).drop_first() =~= params_view(params@).skip(
            i as int + 1,
        ));
    }
    let mut out = String::new();
    out.append(", ");
    let p = walk_one_param(&params[i]);
    out.append(p.as_str());
    let rest = walk_params_rest(params, i + 1);
    out.append(rest.as_str());
    out
}


// ---------------------------------------------------------------------------
// The executable walk: composites.
// ---------------------------------------------------------------------------

/// An expression that hoists nothing leaves the accumulator alone.
proof fn lemma_ctx_unchanged(c: CtxV, g: GenAcc)
    requires
        g.decls == Seq::<Seq<char>>::empty(),
        g.imports == Seq::<Seq<char>>::empty(),
    ensures
        ctx_step(c, c, g),
{
    assert(c.decls + g.decls =~= c.decls);
    assert(c.imports + g.imports =~= c.imports);
}

/// Renders one expression at its position and routes its hoisted parts to
/// the accumulator; fails on the first construct with no rendering rule.
pub fn walk_expression(expr: &ExpressionNode, ctx: &mut Context) -> (r: Result<
    String,
    CodeGenError,
>)
    ensures
        str_res_view(r) == text_res(gen_expr(expr@)),
        (gen_expr(expr@) matches Ok(g) ==> ctx_step(old(ctx)@, final(ctx)@, g)),
    decreases expr@, 1int,
{
    match &expr.kind {
        ExpressionKind::AddExpr(node) => walk_add_expr(node, ctx),
        ExpressionKind::FuncDef(node) => match walk_func_def(node, ctx) {
            Ok(_) => Ok(String::new()),
            Err(e) => Err(e),
        },
        ExpressionKind::ReturnExpr(node) => walk_return_expr(node, ctx),
        ExpressionKind::CImport(node) => {
            walk_c_import(node, ctx);
            proof {
                let g = gen_expr(expr@)->Ok_0;
                assert(old(ctx)@.imports + g.imports =~= old(ctx)@.imports.push(
                    include_line(node.module@),
                ));
                assert(old(ctx)@.decls + g.decls =~= old(ctx)@.decls);
            }
            Ok(String::new())
        },
        ExpressionKind::IntLit(val) => {
            proof {
                lemma_ctx_unchanged(old(ctx)@, gen_expr(expr@)->Ok_0);
            }
            Ok(i32_to_string(*val))
        },
        ExpressionKind::FuncCall(node) => walk_func_call(node, ctx),
        ExpressionKind::StrLit(s) => {
            proof {
                lemma_ctx_unchanged(old(ctx)@, gen_expr(expr@)->Ok_0);
            }
            Ok(walk_str_lit(s.as_str()))
        },
        ExpressionKind::VarDecl(_) => Err(
            CodeGenError::Unsupported { construct: Construct::VariableDeclaration },
        ),
    }
}

/// Renders an additive chain: the first operand, then each operator symbol
/// and operand, strictly left to right.
pub fn walk_add_expr(add: &AddExprNode, ctx: &mut Context) -> (r: Result<String, CodeGenError>)
    ensures
        str_res_view(r) == text_res(gen_add(add@)),
        (gen_add(add@) matches Ok(g) ==> ctx_step(old(ctx)@, final(ctx)@, g)),
    decreases add@, 0int,
{
    let mut left_code = match walk_mul_expr_node(&add.left, ctx) {
        Ok(t) => t,
        Err(e) => {
            return Err(e);
        },
    };
    proof {
        assert(add_parts_view(add.addent@).skip(0) =~= add_parts_view(add.addent@));
    }
    let parts = match walk_add_parts(&add.addent, 0, ctx) {
        Ok(t) => t,
        Err(e) => {
            return Err(e);
        },
    };
    left_code.append(parts.as_str());
    proof {
        let g0 = gen_mul(add@.left)->Ok_0;
        let gp = gen_add_parts(add@.terms)->Ok_0;
        assert(old(ctx)@.decls + (g0.decls + gp.decls) =~= (old(ctx)@.decls + g0.decls)
            + gp.decls);
        assert(old(ctx)@.imports + (g0.imports + gp.imports) =~= (old(ctx)@.imports + g0.imports)
            + gp.imports);
    }
    Ok(left_code)
}

/// Renders the (operator, operand) pairs of an additive chain from
/// position `i` on.
fn walk_add_parts(parts: &Vec<AddExprPart>, i: usize, ctx: &mut Context) -> (r: Result<
    String,
    CodeGenError,
>)
    requires
        i <= parts.len(),
    ensures
        str_res_view(r) == text_res(gen_add_parts(add_parts_view(parts@).skip(i as int))),
        (gen_add_parts(add_parts_view(parts@).skip(i as int)) matches Ok(g) ==> ctx_step(
            old(ctx)@,
            final(ctx)@,
            g,
        )),
    decreases add_parts_view(parts@), parts@.len() - i,
{
    proof {
        lemma_add_parts_view_len(parts@);
    }
    if i >= parts.len() {
        proof {
            assert(add_parts_view(parts@).skip(i as int) =~= Seq::<AddPartV>::empty());
            lemma_ctx_unchanged(old(ctx)@, GenAcc::empty());
        }
        return Ok(String::new());
    }
    proof {
        lemma_add_parts_view_index(parts@, i as int);
        assert(add_parts_view(parts@).skip(i as int)[0] == add_parts_view(parts@)[i as int]);
        assert(add_parts_view(parts@).skip(i as int).drop_first() =~= add_parts_view(
            parts@,
        ).skip(i as int + 1));
        assert(decreases_to!(add_parts_view(parts@) => add_parts_view(parts@)[i as int]));
        assert(decreases_to!(add_parts_view(parts@)[i as int] => add_parts_view(parts@)[
            i as int
        ].value));
    }
    let part = &parts[i];
    let vtext = match walk_mul_expr_node(&part.value, ctx) {
        Ok(t) => t,
        Err(e) => {
            return Err(e);
        },
    };
    let rest = match walk_add_parts(parts, i + 1, ctx) {
        Ok(t) => t,
        Err(e) => {
            return Err(e);
        },
    };
    let mut out = String::new();
    match part.op {
        AddOp::Add => out.append("+"),
        AddOp::Subtract => out.append("-"),
    }
    out.append(vtext.as_str());
    out.append(rest.as_str());
    proof {
        let g = gen_mul(mul_view(parts@[i as int].value))->Ok_0;
        let grest = gen_add_parts(add_parts_view(parts@).skip(i as int + 1))->Ok_0;
        assert(out@ =~= add_op_text(parts@[i as int].op) + g.text + grest.text);
        assert(old(ctx)@.decls + (g.decls + grest.decls) =~= (old(ctx)@.decls + g.decls)
            + grest.decls);
        assert(old(ctx)@.imports + (g.imports + grest.imports) =~= (old(ctx)@.imports + g.imports)
            + grest.imports);
    }
    Ok(out)
}

/// Renders a multiplicative chain, evaluated as a primary operand of the
/// additive level.
pub fn walk_mul_expr_node(mul: &MulExprNode, ctx: &mut Context) -> (r: Result<
    String,
    CodeGenError,
>)
    ensures
        str_res_view(r) == text_res(gen_mul(mul@)),
        (gen_mul(mul@) matches Ok(g) ==> ctx_step(old(ctx)@, final(ctx)@, g)),
    decreases mul@, 0int,
{
    let mut left_code = match walk_primary(&mul.left, ctx) {
        Ok(t) => t,
        Err(e) => {
            return Err(e);
        },
    };
    proof {
        assert(mul_parts_view(mul.factor@).skip(0) =~= mul_parts_view(mul.factor@));
    }
    let parts = match walk_mul_parts(&mul.factor, 0, ctx) {
        Ok(t) => t,
        Err(e) => {
            return Err(e);
        },
    };
    left_code.append(parts.as_str());
    proof {
        let g0 = gen_prim(mul@.left)->Ok_0;
        let gp = gen_mul_parts(mul@.terms)->Ok_0;
        assert(old(ctx)@.decls + (g0.decls + gp.decls) =~= (old(ctx)@.decls + g0.decls)
            + gp.decls);
        assert(old(ctx)@.imports + (g0.imports + gp.imports) =~= (old(ctx)@.imports + g0.imports)
            + gp.imports);
    }
    Ok(left_code)
}

/// Renders the (operator, operand) pairs of a multiplicative chain from
/// position `i` on.
fn walk_mul_parts(parts: &Vec<MulExprPart>, i: usize, ctx: &mut Context) -> (r: Result<
    String,
    CodeGenError,
>)
    requires
        i <= parts.len(),
    ensures
        str_res_view(r) == text_res(gen_mul_parts(mul_parts_view(parts@).skip(i as int))),
        (gen_mul_parts(mul_parts_view(parts@).skip(i as int)) matches Ok(g) ==> ctx_step(
            old(ctx)@,
            final(ctx)@,
            g,
        )),
    decreases mul_parts_view(parts@), parts@.len() - i,
{
    proof {
        lemma_mul_parts_view_len(parts@);
    }
    if i >= parts.len() {
        proof {
            assert(mul_parts_view(parts@).skip(i as int) =~= Seq::<MulPartV>::empty());
            lemma_ctx_unchanged(old(ctx)@, GenAcc::empty());
        }
        return Ok(String::new());
    }
    proof {
        lemma_mul_parts_view_index(parts@, i as int);
        assert(mul_parts_view(parts@).skip(i as int)[0] == mul_parts_view(parts@)[i as int]);
        assert(mul_parts_view(parts@).skip(i as int).drop_first() =~= mul_parts_view(
            parts@,
        ).skip(i as int + 1));
        assert(decreases_to!(mul_parts_view(parts@) => mul_parts_view(parts@)[i as int]));
        assert(decreases_to!(mul_parts_view(parts@)[i as int] => mul_parts_view(parts@)[
            i as int
        ].value));
    }
    let part = &parts[i];
    let vtext = match walk_primary(&part.value, ctx) {
        Ok(t) => t,
        Err(e) => {
            return Err(e);
        },
    };
    let rest = match walk_mul_parts(parts, i + 1, ctx) {
        Ok(t) => t,
        Err(e) => {
            return Err(e);
        },
    };
    let mut out = String::new();
    match part.op {
        MulOp::Multiply => out.append("*"),
        MulOp::Divide => out.append("/"),
    }
    out.append(vtext.as_str());
    out.append(rest.as_str());
    proof {
        let g = gen_prim(primary_view(parts@[i as int].value))->Ok_0;
        let grest = gen_mul_parts(mul_parts_view(parts@).skip(i as int + 1))->Ok_0;
        assert(out@ =~= mul_op_text(parts@[i as int].op) + g.text + grest.text);
        assert(old(ctx)@.decls + (g.decls + grest.decls) =~= (old(ctx)@.decls + g.decls)
            + grest.decls);
        assert(old(ctx)@.imports + (g.imports + grest.imports) =~= (old(ctx)@.imports + g.imports)
            + grest.imports);
    }
    Ok(out)
}

/// Renders one primary operand.
pub fn walk_primary(primary: &PrimaryNode, ctx: &mut Context) -> (r: Result<String, CodeGenError>)
    ensures
        str_res_view(r) == text_res(gen_prim(primary@)),
        (gen_prim(primary@) matches Ok(g) ==> ctx_step(old(ctx)@, final(ctx)@, g)),
    decreases primary@, 0int,
{
    match &primary.kind {
        PrimaryKind::IntLit(val) => {
            proof {
                lemma_ctx_unchanged(old(ctx)@, gen_prim(primary@)->Ok_0);
            }
            Ok(i32_to_string(*val))
        },
        PrimaryKind::FloatLit(_) => Err(
            CodeGenError::Unsupported { construct: Construct::FloatLiteral },
        ),
        PrimaryKind::StrLit(s) => {
            proof {
                lemma_ctx_unchanged(old(ctx)@, gen_prim(primary@)->Ok_0);
            }
            Ok(walk_str_lit(s.as_str()))
        },
        PrimaryKind::VarAccess(v) => {
            proof {
                lemma_ctx_unchanged(old(ctx)@, gen_prim(primary@)->Ok_0);
            }
            Ok(v.name.clone())
        },
        PrimaryKind::FuncCall(node) => walk_func_call(node, ctx),
        PrimaryKind::StructInit(_) => Err(
            CodeGenError::Unsupported { construct: Construct::StructInit },
        ),
        PrimaryKind::Block(node) => walk_block(node, ctx),
        PrimaryKind::FuncDef(node) => match walk_func_def(node, ctx) {
            Ok(_) => Ok(String::new()),
            Err(e) => Err(e),
        },
        PrimaryKind::Expression(e) => match walk_expression(e, ctx) {
            Ok(t) => {
                let mut out = String::new();
                out.append("(");
                out.append(t.as_str());
                out.append(")");
                proof {
                    let g = gen_expr(expr_view(**e))->Ok_0;
                    assert(out@ =~= "("@ + g.text + ")"@);
                }
                Ok(out)
            },
            Err(e2) => Err(e2),
        },
    }
}

/// Renders a function call: `name(arg0, arg1, ...)`.
pub fn walk_func_call(func_call: &FuncCallNode, ctx: &mut Context) -> (r: Result<
    String,
    CodeGenError,
>)
    ensures
        str_res_view(r) == text_res(gen_call(func_call@)),
        (gen_call(func_call@) matches Ok(g) ==> ctx_step(old(ctx)@, final(ctx)@, g)),
    decreases func_call@, 0int,
{
    proof {
        assert(exprs_view(func_call.params@).skip(0) =~= exprs_view(func_call.params@));
    }
    let args = match walk_call_args(&func_call.params, 0, ctx) {
        Ok(t) => t,
        Err(e) => {
            return Err(e);
        },
    };
    let mut out = String::new();
    out.append(func_call.name.as_str());
    out.append("(");
    out.append(args.as_str());
    out.append(")");
    proof {
        let g = gen_args(exprs_view(func_call.params@))->Ok_0;
        assert(out@ =~= func_call@.name + "("@ + g.text + ")"@);
    }
    Ok(out)
}

/// Renders an argument list from position `i` on; the first rendered entry
/// carries no separator.
fn walk_call_args(params: &Vec<ExpressionNode>, i: usize, ctx: &mut Context) -> (r: Result<
    String,
    CodeGenError,
>)
    requires
        i <= params.len(),
    ensures
        str_res_view(r) == text_res(gen_args(exprs_view(params@).skip(i as int))),
        (gen_args(exprs_view(params@).skip(i as int)) matches Ok(g) ==> ctx_step(
            old(ctx)@,
            final(ctx)@,
            g,
        )),
    decreases exprs_view(params@), params@.len() - i, 1int,
{
    proof {
        lemma_exprs_view_len(params@);
    }
    if i >= params.len() {
        proof {
            assert(exprs_view(params@).skip(i as int) =~= Seq::<ExprV>::empty());
            lemma_ctx_unchanged(old(ctx)@, GenAcc::empty());
        }
        return Ok(String::new());
    }
    proof {
        lemma_exprs_view_index(params@, i as int);
        assert(exprs_view(params@).skip(i as int)[0] == exprs_view(params@)[i as int]);
        assert(exprs_view(params@).skip(i as int).drop_first() =~= exprs_view(params@).skip(
            i as int + 1,
        ));
        assert(decreases_to!(exprs_view(params@) => exprs_view(params@)[i as int]));
    }
    let t0 = match walk_expression(&params[i], ctx) {
        Ok(t) => t,
        Err(e) => {
            return Err(e);
        },
    };
    let rest = match walk_call_args_rest(params, i + 1, ctx) {
        Ok(t) => t,
        Err(e) => {
            return Err(e);
        },
    };
    let mut out = t0;
    out.append(rest.as_str());
    proof {
        let g = gen_expr(expr_view(params@[i as int]))->Ok_0;
        let grest = gen_args_rest(exprs_view(params@).skip(i as int + 1))->Ok_0;
        assert(old(ctx)@.decls + (g.decls + grest.decls) =~= (old(ctx)@.decls + g.decls)
            + grest.decls);
        assert(old(ctx)@.imports + (g.imports + grest.imports) =~= (old(ctx)@.imports + g.imports)
            + grest.imports);
    }
    Ok(out)
}

/// Renders the argument-list tail from position `i` on, each argument with
/// its `, ` prefix.
fn walk_call_args_rest(params: &Vec<ExpressionNode>, i: usize, ctx: &mut Context) -> (r: Result<
    String,
    CodeGenError,
>)
    requires
        i <= params.len(),
    ensures
        str_res_view(r) == text_res(gen_args_rest(exprs_view(params@).skip(i as int))),
        (gen_args_rest(exprs_view(params@).skip(i as int)) matches Ok(g) ==> ctx_step(
            old(ctx)@,
            final(ctx)@,
            g,
        )),
    decreases exprs_view(params@), params@.len() - i, 0int,
{
    proof {
        lemma_exprs_view_len(params@);
    }
    if i >= params.len() {
        proof {
            assert(exprs_view(params@).skip(i as int) =~= Seq::<ExprV>::empty());
            lemma_ctx_unchanged(old(ctx)@, GenAcc::empty());
        }
        return Ok(String::new());
    }
    proof {
        lemma_exprs_view_index(params@, i as int);
        assert(exprs_view(params@).skip(i as int)[0] == exprs_view(params@)[i as int]);
        assert(exprs_view(params@).skip(i as int).drop_first() =~= exprs_view(params@).skip(
            i as int + 1,
        ));
        assert(decreases_to!(exprs_view(params@) => exprs_view(params@)[i as int]));
    }
    let t0 = match walk_expression(&params[i], ctx) {
        Ok(t) => t,
        Err(e) => {
            return Err(e);
        },
    };
    let rest = match walk_call_args_rest(params, i + 1, ctx) {
        Ok(t) => t,
        Err(e) => {
            return Err(e);
        },
    };
    let mut out = String::new();
    out.append(", ");
    out.append(t0.as_str());
    out.append(rest.as_str());
    proof {
        let g = gen_expr(expr_view(params@[i as int]))->Ok_0;
        let grest = gen_args_rest(exprs_view(params@).skip(i as int + 1))->Ok_0;
        assert(out@ =~= ", "@ + g.text + grest.text);
        assert(old(ctx)@.decls + (g.decls + grest.decls) =~= (old(ctx)@.decls + g.decls)
            + grest.decls);
        assert(old(ctx)@.imports + (g.imports + grest.imports) =~= (old(ctx)@.imports + g.imports)
            + grest.imports);
    }
    Ok(out)
}

/// Renders a return statement: `return <value>;`.
pub fn walk_return_expr(ret: &ReturnExprNode, ctx: &mut Context) -> (r: Result<
    String,
    CodeGenError,
>)
    ensures
        str_res_view(r) == text_res(gen_expr(ret@)),
        (gen_expr(ret@) matches Ok(g) ==> ctx_step(old(ctx)@, final(ctx)@, g)),
    decreases ret@, 0int,
{
    let t = match walk_expression(&ret.expression, ctx) {
        Ok(t) => t,
        Err(e) => {
            return Err(e);
        },
    };
    let mut out = String::new();
    out.append("return ");
    out.append(t.as_str());
    out.append(";");
    proof {
        let g = gen_expr(expr_view(*ret.expression))->Ok_0;
        assert(out@ =~= "return "@ + g.text + ";"@);
    }
    Ok(out)
}

/// Renders a block: each contained expression as one statement, in order.
pub fn walk_block(block: &BlockNode, ctx: &mut Context) -> (r: Result<String, CodeGenError>)
    ensures
        str_res_view(r) == text_res(gen_stmts(block@)),
        (gen_stmts(block@) matches Ok(g) ==> ctx_step(old(ctx)@, final(ctx)@, g)),
    decreases block@, block.expressions@.len() + 1,
{
    proof {
        assert(exprs_view(block.expressions@).skip(0) =~= exprs_view(block.expressions@));
    }
    walk_stmts(&block.expressions, 0, ctx)
}

/// Renders a statement list from position `i` on.
fn walk_stmts(es: &Vec<ExpressionNode>, i: usize, ctx: &mut Context) -> (r: Result<
    String,
    CodeGenError,
>)
    requires
        i <= es.len(),
    ensures
        str_res_view(r) == text_res(gen_stmts(exprs_view(es@).skip(i as int))),
        (gen_stmts(exprs_view(es@).skip(i as int)) matches Ok(g) ==> ctx_step(
            old(ctx)@,
            final(ctx)@,
            g,
        )),
    decreases exprs_view(es@), es@.len() - i,
{
    proof {
        lemma_exprs_view_len(es@);
    }
    if i >= es.len() {
        proof {
            assert(exprs_view(es@).skip(i as int) =~= Seq::<ExprV>::empty());
            lemma_ctx_unchanged(old(ctx)@, GenAcc::empty());
        }
        return Ok(String::new());
    }
    proof {
        lemma_exprs_view_index(es@, i as int);
        assert(exprs_view(es@).skip(i as int)[0] == exprs_view(es@)[i as int]);
        assert(exprs_view(es@).skip(i as int).drop_first() =~= exprs_view(es@).skip(i as int + 1));
        assert(decreases_to!(exprs_view(es@) => exprs_view(es@)[i as int]));
    }
    let e = &es[i];
    let t = match walk_expression(e, ctx) {
        Ok(t) => t,
        Err(er) => {
            return Err(er);
        },
    };
    let rest = match walk_stmts(es, i + 1, ctx) {
        Ok(t) => t,
        Err(er) => {
            return Err(er);
        },
    };
    let mut out = String::new();
    match &e.kind {
        ExpressionKind::FuncDef(_) => {},
        ExpressionKind::CImport(_) => {},
        ExpressionKind::ReturnExpr(_) => {
            out.append(t.as_str());
        },
        _ => {
            out.append(t.as_str());
            out.append(";");
        },
    }
    out.append(rest.as_str());
    proof {
        let g = gen_expr(expr_view(es@[i as int]))->Ok_0;
        let grest = gen_stmts(exprs_view(es@).skip(i as int + 1))->Ok_0;
        assert(out@ =~= stmt_text(expr_view(es@[i as int]), g.text) + grest.text);
        assert(old(ctx)@.decls + (g.decls + grest.decls) =~= (old(ctx)@.decls + g.decls)
            + grest.decls);
        assert(old(ctx)@.imports + (g.imports + grest.imports) =~= (old(ctx)@.imports + g.imports)
            + grest.imports);
    }
    Ok(out)
}

/// Hoists a function definition: renders `<return-or-int> name(params)
/// { body }` and appends it to the declaration accumulator; it contributes
/// nothing at its own position.
pub fn walk_func_def(node: &FuncDefNode, ctx: &mut Context) -> (r: Result<(), CodeGenError>)
    ensures
        (gen_func_def(node@) matches Ok(g) ==> r matches Ok(_) && ctx_step(
            old(ctx)@,
            final(ctx)@,
            g,
        )),
        (gen_func_def(node@) matches Err(er) ==> r == Err::<(), CodeGenError>(er)),
    decreases node@, 0int,
{
    let params_code = walk_func_def_params(&node.params);
    let body = match walk_block(&node.body, ctx) {
        Ok(t) => t,
        Err(e) => {
            return Err(e);
        },
    };
    let mut code = String::new();
    match &node.return_type {
        Some(t) => code.append(t.as_str()),
        None => code.append("int"),
    }
    code.append(" ");
    code.append(node.name.as_str());
    code.append("(");
    code.append(params_code.as_str());
    code.append(") { ");
    code.append(body.as_str());
    code.append(" }");
    let ghost codev = code@;
    ctx.add_function_declaration(code);
    proof {
        let gb = gen_stmts(node@.body)->Ok_0;
        assert(codev =~= func_decl_text(node@, gb.text));
        assert(old(ctx)@.decls + (gb.decls + seq![func_decl_text(node@, gb.text)]) =~= (old(
            ctx,
        )@.decls + gb.decls).push(func_decl_text(node@, gb.text)));
        assert(old(ctx)@.imports + gb.imports =~= old(ctx)@.imports + gb.imports);
    }
    Ok(())
}

// ---------------------------------------------------------------------------
// Top-level assembly.
// ---------------------------------------------------------------------------

/// Walks the whole program: every top-level expression becomes one
/// statement of the `main` buffer, in source order, while function
/// definitions and import directives fill their accumulators and add
/// nothing to `main`.
pub fn walk_program(program: &ProgramNode, ctx: &mut Context) -> (r: Result<(), CodeGenError>)
    ensures
        (gen_stmts(program@.exprs) matches Ok(g) ==> r matches Ok(_)
            && final(ctx)@.decls == old(ctx)@.decls + g.decls
            && final(ctx)@.imports == old(ctx)@.imports + g.imports
            && final(ctx)@.main == old(ctx)@.main + g.text),
        (gen_stmts(program@.exprs) matches Err(er) ==> r == Err::<(), CodeGenError>(er)),
{
    proof {
        assert(exprs_view(program.expressions@).skip(0) =~= exprs_view(program.expressions@));
    }
    match walk_stmts(&program.expressions, 0, ctx) {
        Ok(t) => {
            ctx.main_function_content.append(t.as_str());
            Ok(())
        },
        Err(e) => Err(e),
    }
}

/// Concatenating a list of texts distributes over adding one at the end.
proof fn lemma_flatten_snoc(s: Seq<Seq<char>>, x: Seq<char>)
    ensures
        (s.push(x)).flatten() == s.flatten() + x,
    decreases s.len(),
{
    if s.len() == 0 {
        assert(s.push(x).drop_first() =~= s);
        assert(s.push(x).first() == x);
        assert(s.push(x).flatten() == s.push(x).first().add(s.push(x).drop_first().flatten()));
        assert(s.flatten() == Seq::<char>::empty());
        assert(s.push(x).flatten() =~= s.flatten() + x);
    } else {
        assert(s.push(x).drop_first() =~= s.drop_first().push(x));
        lemma_flatten_snoc(s.drop_first(), x);
        assert(s.push(x).flatten() =~= s.flatten() + x);
    }
}

/// Concatenates a list of texts in order.
fn join_all(ss: &Vec<String>) -> (r: String)
    ensures
        r@ == strs_view(ss@).flatten(),
{
    let mut out = String::new();
    let mut i: usize = 0;
    proof {
        assert(strs_view(ss@).take(0).flatten() =~= Seq::<char>::empty());
    }
    while i < ss.len()
        invariant
            i <= ss@.len(),
            out@ == strs_view(ss@).take(i as int).flatten(),
        decreases ss@.len() - i,
    {
        out.append(ss[i].as_str());
        proof {
            assert(strs_view(ss@).take(i as int + 1) =~= strs_view(ss@).take(i as int).push(
                ss@[i as int]@,
            ));
            lemma_flatten_snoc(strs_view(ss@).take(i as int), ss@[i as int]@);
        }
        i = i + 1;
    }
    proof {
        assert(strs_view(ss@).take(ss@.len() as int) =~= strs_view(ss@));
    }
    out
}

/// Generates the complete C translation unit of a program, or fails with
/// the first unsupported construct; no partial output is ever returned.
pub fn gen_code(program: &ProgramNode) -> (r: Result<String, CodeGenError>)
    ensures
        str_res_view(r) == spec_gen_code(program@),
{
    let mut ctx = Context::default();
    match walk_program(program, &mut ctx) {
        Err(e) => Err(e),
        Ok(_) => {
            let mut out = String::new();
            out.append("typedef char* string;");
            let imps = join_all(&ctx.imports);
            out.append(imps.as_str());
            let decls = join_all(&ctx.function_declarations);
            out.append(decls.as_str());
            out.append("int main(){");
            out.append(ctx.main_function_content.as_str());
            out.append("return 0;}");
            proof {
                let g = gen_stmts(program@.exprs)->Ok_0;
                assert(Seq::<Seq<char>>::empty() + g.decls =~= g.decls);
                assert(Seq::<Seq<char>>::empty() + g.imports =~= g.imports);
                assert(Seq::<char>::empty() + g.text =~= g.text);
                assert(out@ =~= "typedef char* string;"@ + g.imports.flatten() + g.decls.flatten()
                    + "int main(){"@ + g.text + "return 0;}"@);
            }
            Ok(out)
        },
    }
}


} // verus!
