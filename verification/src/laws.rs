//! The load-bearing properties of the code generator, stated and proved
//! once, over the generation specification itself.

use crate::ast_nodes::AddOp;
use crate::ast_nodes::AddPartV;
use crate::ast_nodes::AddV;
use crate::ast_nodes::ExprV;
use crate::ast_nodes::FuncDefV;
use crate::ast_nodes::MulOp;
use crate::ast_nodes::MulPartV;
use crate::ast_nodes::MulV;
use crate::ast_nodes::PrimV;
use crate::codegen::CodeGenError;
use crate::codegen::GenAcc;
use crate::codegen::add_op_text;
use crate::codegen::func_decl_text;
use crate::codegen::gen_add;
use crate::codegen::gen_add_parts;
use crate::codegen::gen_expr;
use crate::codegen::gen_func_def;
use crate::codegen::gen_mul;
use crate::codegen::gen_mul_parts;
use crate::codegen::gen_prim;
use crate::codegen::gen_stmts;
use crate::codegen::include_line;
use crate::codegen::mul_op_text;
use crate::codegen::stmt_text;
use crate::ast_builder::LowerErrV;
use crate::ast_builder::spec_lower_expr;
use crate::ast_builder::strip_quotes;
use crate::codegen::str_lit_text;
use crate::parse_tree::Rule;
use crate::parse_tree::TreeV;
use crate::text::escape_text;
use crate::text::int_text;
use crate::text::lemma_escape_round_trip;
use crate::text::lemma_int_text_parse;
use crate::text::spec_parse_i32;
use crate::text::unescape_text;
use vstd::prelude::*;

verus! {

/// A strict left fold over a chain's pieces: the accumulated text so far,
/// then each operator symbol and operand text appended in order.  Nothing
/// is ever inserted between or around the pieces.
pub open spec fn chain_text(first: Seq<char>, ops: Seq<Seq<char>>, vals: Seq<Seq<char>>) -> Seq<
    char,
>
    decreases ops.len(),
{
    if ops.len() == 0 || vals.len() == 0 {
        first
    } else {
        chain_text(first + ops[0] + vals[0], ops.drop_first(), vals.drop_first())
    }
}

/// The operator symbols of an additive chain, in source order.
pub open spec fn add_ops(ts: Seq<AddPartV>) -> Seq<Seq<char>> {
    ts.map_values(|t: AddPartV| add_op_text(t.op))
}

/// The rendered operands of an additive chain, in source order.
pub open spec fn add_vals(ts: Seq<AddPartV>) -> Seq<Seq<char>> {
    ts.map_values(|t: AddPartV| gen_mul(t.value)->Ok_0.text)
}

/// The operator symbols of a multiplicative chain, in source order.
pub open spec fn mul_ops(ts: Seq<MulPartV>) -> Seq<Seq<char>> {
    ts.map_values(|t: MulPartV| mul_op_text(t.op))
}

/// The rendered operands of a multiplicative chain, in source order.
pub open spec fn mul_vals(ts: Seq<MulPartV>) -> Seq<Seq<char>> {
    ts.map_values(|t: MulPartV| gen_prim(t.value)->Ok_0.text)
}

proof fn lemma_add_parts_fold(ts: Seq<AddPartV>, acc: Seq<char>, gp: GenAcc)
    requires
        gen_add_parts(ts) == Ok::<GenAcc, CodeGenError>(gp),
    ensures
        acc + gp.text == chain_text(acc, add_ops(ts), add_vals(ts)),
    decreases ts.len(),
{
    if ts.len() == 0 {
        assert(acc + gp.text =~= acc);
        assert(add_ops(ts).len() == 0);
    } else {
        let g = gen_mul(ts[0].value)->Ok_0;
        let rest = gen_add_parts(ts.drop_first())->Ok_0;
        assert(add_ops(ts).drop_first() =~= add_ops(ts.drop_first()));
        assert(add_vals(ts).drop_first() =~= add_vals(ts.drop_first()));
        lemma_add_parts_fold(ts.drop_first(), acc + add_op_text(ts[0].op) + g.text, rest);
        assert(acc + gp.text =~= (acc + add_op_text(ts[0].op) + g.text) + rest.text);
    }
}

proof fn lemma_mul_parts_fold(ts: Seq<MulPartV>, acc: Seq<char>, gp: GenAcc)
    requires
        gen_mul_parts(ts) == Ok::<GenAcc, CodeGenError>(gp),
    ensures
        acc + gp.text == chain_text(acc, mul_ops(ts), mul_vals(ts)),
    decreases ts.len(),
{
    if ts.len() == 0 {
        assert(acc + gp.text =~= acc);
        assert(mul_ops(ts).len() == 0);
    } else {
        let g = gen_prim(ts[0].value)->Ok_0;
        let rest = gen_mul_parts(ts.drop_first())->Ok_0;
        assert(mul_ops(ts).drop_first() =~= mul_ops(ts.drop_first()));
        assert(mul_vals(ts).drop_first() =~= mul_vals(ts.drop_first()));
        lemma_mul_parts_fold(ts.drop_first(), acc + mul_op_text(ts[0].op) + g.text, rest);
        assert(acc + gp.text =~= (acc + mul_op_text(ts[0].op) + g.text) + rest.text);
    }
}

/// Left-fold correctness: an additive chain with operands `a0, a1, ..., an`
/// and operators `op1, ..., opn` renders as `a0 op1 a1 op2 a2 ... opn an` —
/// a strict left fold over the rendered operands, never re-associated,
/// never reordered, with no parentheses introduced.
pub proof fn lemma_left_fold_additive(a: AddV, g: GenAcc)
    requires
        gen_add(a) == Ok::<GenAcc, CodeGenError>(g),
    ensures
        g.text == chain_text(gen_mul(a.left)->Ok_0.text, add_ops(a.terms), add_vals(a.terms)),
{
    let g0 = gen_mul(a.left)->Ok_0;
    let gp = gen_add_parts(a.terms)->Ok_0;
    lemma_add_parts_fold(a.terms, g0.text, gp);
}

/// Left-fold correctness at the multiplicative level: one precedence level
/// tighter, the same strict left fold, with no parentheses introduced.
pub proof fn lemma_left_fold_multiplicative(m: MulV, g: GenAcc)
    requires
        gen_mul(m) == Ok::<GenAcc, CodeGenError>(g),
    ensures
        g.text == chain_text(gen_prim(m.left)->Ok_0.text, mul_ops(m.terms), mul_vals(m.terms)),
{
    let g0 = gen_prim(m.left)->Ok_0;
    let gp = gen_mul_parts(m.terms)->Ok_0;
    lemma_mul_parts_fold(m.terms, g0.text, gp);
}

/// A bare integer literal, as a one-operand multiplicative chain.
pub open spec fn int_operand(n: int) -> MulV {
    MulV { left: PrimV::IntLit(n), terms: Seq::empty() }
}

/// Precedence preservation: a multiplicative chain nested inside an
/// additive chain renders with implicit precedence matching C's own — for
/// all 32-bit integers `x`, `y`, `z`, the tree of `x + y*z` renders as
/// exactly `x+y*z`, with no explicit parentheses.
pub proof fn lemma_precedence_preserved(x: int, y: int, z: int)
    ensures
        gen_add(
            AddV {
                left: int_operand(x),
                terms: seq![
                    AddPartV {
                        op: AddOp::Add,
                        value: MulV {
                            left: PrimV::IntLit(y),
                            terms: seq![MulPartV { op: MulOp::Multiply, value: PrimV::IntLit(z) }],
                        },
                    },
                ],
            },
        ) == Ok::<GenAcc, CodeGenError>(
            GenAcc {
                text: int_text(x) + "+"@ + int_text(y) + "*"@ + int_text(z),
                decls: Seq::empty(),
                imports: Seq::empty(),
            },
        ),
{
    let m = MulV {
        left: PrimV::IntLit(y),
        terms: seq![MulPartV { op: MulOp::Multiply, value: PrimV::IntLit(z) }],
    };
    let ts = m.terms;
    assert(ts.drop_first() =~= Seq::<MulPartV>::empty());
    let gp = gen_mul_parts(ts)->Ok_0;
    assert(gp.text =~= "*"@ + int_text(z));
    assert(gp.decls =~= Seq::<Seq<char>>::empty());
    assert(gp.imports =~= Seq::<Seq<char>>::empty());
    let gm = gen_mul(m)->Ok_0;
    assert(gm.text =~= int_text(y) + "*"@ + int_text(z));
    assert(gm.decls =~= Seq::<Seq<char>>::empty());
    assert(gm.imports =~= Seq::<Seq<char>>::empty());

    let a = AddV { left: int_operand(x), terms: seq![AddPartV { op: AddOp::Add, value: m }] };
    assert(gen_mul_parts(int_operand(x).terms) == Ok::<GenAcc, CodeGenError>(GenAcc::empty()));
    let g0 = gen_mul(int_operand(x))->Ok_0;
    assert(g0.text =~= int_text(x));
    assert(g0.decls =~= Seq::<Seq<char>>::empty());
    assert(g0.imports =~= Seq::<Seq<char>>::empty());
    assert(a.terms.drop_first() =~= Seq::<AddPartV>::empty());
    let ga = gen_add_parts(a.terms)->Ok_0;
    assert(ga.text =~= "+"@ + int_text(y) + "*"@ + int_text(z));
    let g = gen_add(a)->Ok_0;
    assert(g.text =~= int_text(x) + "+"@ + int_text(y) + "*"@ + int_text(z));
    assert(g.decls =~= Seq::<Seq<char>>::empty());
    assert(g.imports =~= Seq::<Seq<char>>::empty());
}

/// Statement lists render compositionally: rendering `s1 + s2` renders
/// each part and concatenates the texts, the hoisted declarations and the
/// include lines, in order.
pub proof fn lemma_gen_stmts_append(s1: Seq<ExprV>, s2: Seq<ExprV>, g1: GenAcc, g2: GenAcc)
    requires
        gen_stmts(s1) == Ok::<GenAcc, CodeGenError>(g1),
        gen_stmts(s2) == Ok::<GenAcc, CodeGenError>(g2),
    ensures
        gen_stmts(s1 + s2) == Ok::<GenAcc, CodeGenError>(
            GenAcc {
                text: g1.text + g2.text,
                decls: g1.decls + g2.decls,
                imports: g1.imports + g2.imports,
            },
        ),
    decreases s1.len(),
{
    if s1.len() == 0 {
        assert(s1 + s2 =~= s2);
        assert(g1.text + g2.text =~= g2.text);
        assert(g1.decls + g2.decls =~= g2.decls);
        assert(g1.imports + g2.imports =~= g2.imports);
    } else {
        let s = s1 + s2;
        assert(s.len() > 0);
        assert(s[0] == s1[0]);
        assert(s.drop_first() =~= s1.drop_first() + s2);
        let g = gen_expr(s1[0])->Ok_0;
        let grest1 = gen_stmts(s1.drop_first())->Ok_0;
        lemma_gen_stmts_append(s1.drop_first(), s2, grest1, g2);
        assert(g1.text + g2.text =~= stmt_text(s1[0], g.text) + (grest1.text + g2.text));
        assert(g1.decls + g2.decls =~= g.decls + (grest1.decls + g2.decls));
        assert(g1.imports + g2.imports =~= g.imports + (grest1.imports + g2.imports));
    }
}

/// A statement list holding one function definition renders to no `main`
/// text at all; what it contributes is its hoisted material alone.
pub proof fn lemma_gen_stmts_single_func_def(f: FuncDefV, gf: GenAcc)
    requires
        gen_func_def(f) == Ok::<GenAcc, CodeGenError>(gf),
    ensures
        gen_stmts(seq![ExprV::FuncDef(f)]) == Ok::<GenAcc, CodeGenError>(
            GenAcc { text: Seq::empty(), decls: gf.decls, imports: gf.imports },
        ),
        gf.text == Seq::<char>::empty(),
{
    reveal_with_fuel(gen_stmts, 2);
    let s = seq![ExprV::FuncDef(f)];
    assert(s.drop_first() =~= Seq::<ExprV>::empty());
    assert(stmt_text(s[0], gf.text) =~= Seq::<char>::empty());
    let gr = gen_stmts(s)->Ok_0;
    assert(gr.text =~= Seq::<char>::empty());
    assert(gr.decls =~= gf.decls);
    assert(gr.imports =~= gf.imports);
}

/// Declaration hoisting: a function definition standing between two
/// statement sequences contributes nothing to `main`'s body — the
/// surrounding statements render exactly as they would without it, in
/// their original order — and its rendered declaration appears exactly
/// once, in the declaration section, after whatever its own body hoisted.
pub proof fn lemma_declaration_hoisting(
    pre: Seq<ExprV>,
    f: FuncDefV,
    post: Seq<ExprV>,
    g1: GenAcc,
    gf: GenAcc,
    g2: GenAcc,
)
    requires
        gen_stmts(pre) == Ok::<GenAcc, CodeGenError>(g1),
        gen_func_def(f) == Ok::<GenAcc, CodeGenError>(gf),
        gen_stmts(post) == Ok::<GenAcc, CodeGenError>(g2),
    ensures
        gen_stmts(pre + seq![ExprV::FuncDef(f)] + post) == Ok::<GenAcc, CodeGenError>(
            GenAcc {
                text: g1.text + g2.text,
                decls: g1.decls + gf.decls + g2.decls,
                imports: g1.imports + gf.imports + g2.imports,
            },
        ),
        gf.decls == gen_stmts(f.body)->Ok_0.decls + seq![
            func_decl_text(f, gen_stmts(f.body)->Ok_0.text),
        ],
        gf.text == Seq::<char>::empty(),
{
    lemma_gen_stmts_single_func_def(f, gf);
    let gmid = GenAcc { text: Seq::<char>::empty(), decls: gf.decls, imports: gf.imports };
    lemma_gen_stmts_append(pre, seq![ExprV::FuncDef(f)], g1, gmid);
    let g12 = GenAcc {
        text: g1.text + gmid.text,
        decls: g1.decls + gf.decls,
        imports: g1.imports + gf.imports,
    };
    lemma_gen_stmts_append(pre + seq![ExprV::FuncDef(f)], post, g12, g2);
    assert((pre + seq![ExprV::FuncDef(f)]) + post =~= pre + seq![ExprV::FuncDef(f)] + post);
    assert((g1.text + gmid.text) + g2.text =~= g1.text + g2.text);
    assert((g1.decls + gf.decls) + g2.decls =~= g1.decls + gf.decls + g2.decls);
    assert((g1.imports + gf.imports) + g2.imports =~= g1.imports + gf.imports + g2.imports);
}

/// Import isolation: an import directive standing anywhere among the
/// top-level expressions contributes exactly one include line and zero
/// characters to `main`'s body, and the statements around it render
/// exactly as they would without it, in their original order.
pub proof fn lemma_import_isolation(
    pre: Seq<ExprV>,
    module: Seq<char>,
    post: Seq<ExprV>,
    g1: GenAcc,
    g2: GenAcc,
)
    requires
        gen_stmts(pre) == Ok::<GenAcc, CodeGenError>(g1),
        gen_stmts(post) == Ok::<GenAcc, CodeGenError>(g2),
    ensures
        gen_stmts(pre + seq![ExprV::CImport { module }] + post) == Ok::<GenAcc, CodeGenError>(
            GenAcc {
                text: g1.text + g2.text,
                decls: g1.decls + g2.decls,
                imports: g1.imports + seq![include_line(module)] + g2.imports,
            },
        ),
{
    reveal_with_fuel(gen_stmts, 2);
    let s = seq![ExprV::CImport { module }];
    assert(s.drop_first() =~= Seq::<ExprV>::empty());
    let ge = gen_expr(s[0])->Ok_0;
    assert(stmt_text(s[0], ge.text) =~= Seq::<char>::empty());
    let gm = gen_stmts(s)->Ok_0;
    assert(gm.text =~= Seq::<char>::empty());
    assert(gm.decls =~= Seq::<Seq<char>>::empty());
    assert(gm.imports =~= seq![include_line(module)]);
    let gmid = GenAcc {
        text: Seq::<char>::empty(),
        decls: Seq::<Seq<char>>::empty(),
        imports: seq![include_line(module)],
    };
    assert(gen_stmts(s) == Ok::<GenAcc, CodeGenError>(gmid));
    lemma_gen_stmts_append(pre, s, g1, gmid);
    let g12 = GenAcc {
        text: g1.text + gmid.text,
        decls: g1.decls + gmid.decls,
        imports: g1.imports + seq![include_line(module)],
    };
    lemma_gen_stmts_append(pre + s, post, g12, g2);
    assert((pre + s) + post =~= pre + s + post);
    assert((g1.text + gmid.text) + g2.text =~= g1.text + g2.text);
    assert((g1.decls + gmid.decls) + g2.decls =~= g1.decls + g2.decls);
    assert((g1.imports + seq![include_line(module)]) + g2.imports =~= g1.imports + seq![
        include_line(module),
    ] + g2.imports);
}


/// Round-trip literal fidelity: lowering an integer literal and rendering
/// it yields the canonical decimal text of the same integer — no leading
/// zeros, no sign anomalies beyond a single leading `-` for negatives —
/// and reading that text back gives the integer again.
pub proof fn lemma_int_literal_round_trip(t: TreeV, n: int)
    requires
        t.children.len() >= 1,
        t.children[0].rule == Rule::IntLit,
        spec_parse_i32(t.children[0].text) == Some(n),
    ensures
        spec_lower_expr(t) == Ok::<ExprV, LowerErrV>(ExprV::IntLit(n)),
        gen_expr(ExprV::IntLit(n)) == Ok::<GenAcc, CodeGenError>(
            GenAcc { text: int_text(n), decls: Seq::empty(), imports: Seq::empty() },
        ),
        spec_parse_i32(int_text(n)) == Some(n),
        (int_text(n)[0] == '-') <==> n < 0,
        n >= 1 || n < 0 ==> int_text(n)[if n < 0 { 1int } else { 0int }] != '0',
{
    lemma_int_text_parse(n);
    let g = gen_expr(ExprV::IntLit(n))->Ok_0;
    assert(g.decls =~= Seq::<Seq<char>>::empty());
    assert(g.imports =~= Seq::<Seq<char>>::empty());
}

/// String escaping is performed exactly once: the emitted C string literal
/// is the source text escaped between two double quotes, and reading it
/// back — strip the quotes, undo the escapes — reproduces the source text
/// exactly.
pub proof fn lemma_string_literal_round_trip(s: Seq<char>)
    ensures
        str_lit_text(s).len() == escape_text(s).len() + 2,
        str_lit_text(s)[0] == '"',
        str_lit_text(s).last() == '"',
        strip_quotes(str_lit_text(s)) == escape_text(s),
        unescape_text(strip_quotes(str_lit_text(s))) == Some(s),
{
    reveal_strlit("\"");
    assert(strip_quotes(str_lit_text(s)) =~= escape_text(s));
    lemma_escape_round_trip(s);
}


} // verus!
