//! The parse tree that the lowering consumes.
//!
//! The grammar-driven parser is an external collaborator; what the lowering
//! relies on is only that every node carries a rule tag, the matched source
//! text, and its ordered, rule-tagged children.  `ParseNode` holds exactly
//! that, and `TreeV` is its ghost counterpart.

use vstd::prelude::*;

verus! {

/// The closed set of grammar rule tags that the lowering recognizes.
#[derive(Debug, Clone, Copy, PartialEq, Eq, Structural)]
pub enum Rule {
    Program,
    EOI,
    Expression,
    VarDecl,
    AddExpr,
    MulExpr,
    Primary,
    FuncDef,
    ReturnExpr,
    CImport,
    FuncCall,
    IntLit,
    StrLit,
    VarAccess,
    Ident,
    ParamList,
    ParamDefList,
    FieldDef,
    ReturnType,
    Block,
    Add,
    Subtract,
    Multiply,
    Divide,
}

/// One parse-tree node: a rule tag, the source text of its span, and its
/// ordered children.
#[derive(Debug, PartialEq)]
pub struct ParseNode {
    pub rule: Rule,
    pub text: String,
    pub children: Vec<ParseNode>,
}

/// Ghost counterpart of `ParseNode`.
pub ghost struct TreeV {
    pub rule: Rule,
    pub text: Seq<char>,
    pub children: Seq<TreeV>,
}

pub open spec fn tree_view(t: ParseNode) -> TreeV
    decreases t,
{
    TreeV { rule: t.rule, text: t.text@, children: trees_view(t.children@) }
}

pub open spec fn trees_view(ts: Seq<ParseNode>) -> Seq<TreeV>
    decreases ts,
{
    if ts.len() == 0 {
        Seq::empty()
    } else {
        seq![tree_view(ts[0])] + trees_view(ts.drop_first())
    }
}

impl View for ParseNode {
    type V = TreeV;

    open spec fn view(&self) -> TreeV {
        tree_view(*self)
    }
}

/// The list view is pointwise: it keeps the length and views each element.
pub proof fn lemma_trees_view_index(ts: Seq<ParseNode>, i: int)
    requires
        0 <= i < ts.len(),
    ensures
        trees_view(ts).len() == ts.len(),
        trees_view(ts)[i] == tree_view(ts[i]),
    decreases ts.len(),
{
    lemma_trees_view_len(ts);
    if i > 0 {
        lemma_trees_view_index(ts.drop_first(), i - 1);
    }
}

/// `trees_view` keeps the length.
pub proof fn lemma_trees_view_len(ts: Seq<ParseNode>)
    ensures
        trees_view(ts).len() == ts.len(),
    decreases ts.len(),
{
    if ts.len() > 0 {
        lemma_trees_view_len(ts.drop_first());
    }
}

} // verus!
