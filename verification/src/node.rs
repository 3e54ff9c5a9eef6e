//! The crate's own model of a parsed syntax tree.
//!
//! A `SyntaxNode` holds, as plain values, everything the renderer and the
//! outline walker read from a parse tree: the node's kind tag, its verbatim
//! source text, its 0-based start row, the text of its `name` field child (if
//! the grammar assigns one), and its ordered children.

use vstd::prelude::*;

verus! {

/// Mathematical image of a `SyntaxNode`.
pub ghost struct NodeView {
    pub kind: Seq<char>,
    pub text: Seq<char>,
    pub row: nat,
    pub name_text: Option<Seq<char>>,
    pub children: Seq<NodeView>,
}

/// One node of a parsed syntax tree, owned by the crate.
pub struct SyntaxNode {
    /// The grammar's kind tag for this node.
    pub kind: String,
    /// The node's verbatim source text.
    pub text: String,
    /// 0-based row of the node's first byte.
    pub row: usize,
    /// Text of the child the grammar designates as this node's `name`.
    pub name_text: Option<String>,
    /// The node's children, in source order.
    pub children: Vec<SyntaxNode>,
}

/// The views of a sequence of nodes, in order.
pub open spec fn views_of(s: Seq<SyntaxNode>) -> Seq<NodeView>
    decreases s,
{
    if s.len() == 0 {
        Seq::empty()
    } else {
        seq![node_view(s[0])] + views_of(s.drop_first())
    }
}

/// The view of a single node.
pub open spec fn node_view(n: SyntaxNode) -> NodeView
    decreases n,
{
    NodeView {
        kind: n.kind@,
        text: n.text@,
        row: n.row as nat,
        name_text: match n.name_text {
            Some(s) => Some(s@),
            None => None,
        },
        children: views_of(n.children@),
    }
}

impl View for SyntaxNode {
    type V = NodeView;

    open spec fn view(&self) -> NodeView {
        node_view(*self)
    }
}

/// `views_of` maps each node to its view, position by position.
pub proof fn lemma_views_of(s: Seq<SyntaxNode>)
    ensures
        views_of(s).len() == s.len(),
        forall|i: int| 0 <= i < s.len() ==> views_of(s)[i] == node_view(s[i]),
    decreases s,
{
    if s.len() > 0 {
        lemma_views_of(s.drop_first());
    }
}

/// One line of outline output: a rendered signature at an indentation depth.
pub struct OutlineEntry {
    pub indent: usize,
    pub text: String,
}

/// The mathematical image of a sequence of outline entries.
pub open spec fn entries_view(v: Seq<OutlineEntry>) -> Seq<(usize, Seq<char>)> {
    v.map_values(|e: OutlineEntry| (e.indent, e.text@))
}

} // verus!
