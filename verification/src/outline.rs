//! The outline walker.
//!
//! A pre-order, depth-first, left-to-right traversal of the parse tree: at
//! every node whose kind the language deems outline-worthy it emits one
//! entry, the node's rendered signature at the current indentation; it then
//! recurses into all children with the indentation increased by two.
//! Indentation reflects raw tree depth, not logical symbol nesting.

use vstd::prelude::*;
use vstd::string::StringExecFns;

use crate::lang::Lang;
use crate::lang::lang_definition;
use crate::lang::lang_definition_tokens;
use crate::lang::lang_id;
use crate::lang::lang_is_key;
use crate::render::Token;
use crate::render::tokens_view;
use crate::node::NodeView;
use crate::node::OutlineEntry;
use crate::node::SyntaxNode;
use crate::node::entries_view;
use crate::node::lemma_views_of;
use crate::node::node_view;
use crate::sitter::parse_source;
use crate::sitter::tree_of;

verus! {

/// The indentation of a node's children: two more spaces, capped at the
/// machine limit.
pub open spec fn next_indent(indent: usize) -> usize {
    if indent > usize::MAX - 2 {
        usize::MAX
    } else {
        (indent + 2) as usize
    }
}

/// The outline entries a subtree contributes: the node's own entry if its
/// kind is a key kind, then its children's entries in order.
pub open spec fn outline_spec(lang: Lang, node: NodeView, indent: usize) -> Seq<
    (usize, Seq<char>),
>
    decreases node,
{
    (if lang_is_key(lang, node.kind) {
        seq![(indent, lang_definition(lang, node))]
    } else {
        Seq::<(usize, Seq<char>)>::empty()
    }) + outline_children(lang, node.children, next_indent(indent))
}

/// The concatenated outlines of a child list, left to right.
pub open spec fn outline_children(lang: Lang, cs: Seq<NodeView>, indent: usize) -> Seq<
    (usize, Seq<char>),
>
    decreases cs,
{
    if cs.len() == 0 {
        Seq::empty()
    } else {
        outline_spec(lang, cs[0], indent) + outline_children(lang, cs.drop_first(), indent)
    }
}

/// `next_indent`, executably.
fn next_indent_exec(indent: usize) -> (r: usize)
    ensures
        r == next_indent(indent),
{
    if indent > usize::MAX - 2 {
        usize::MAX
    } else {
        indent + 2
    }
}

/// Walks the subtree rooted at `node` in pre-order, appending one outline
/// entry per key node, indentation growing with raw tree depth.
pub fn recursion_outline(lang: Lang, node: &SyntaxNode, indent: usize, out: &mut Vec<OutlineEntry>)
    ensures
        entries_view(final(out)@) == entries_view(old(out)@) + outline_spec(lang, node@, indent),
    decreases *node,
{
    let ghost out0 = old(out)@;
    let ghost own = if lang_is_key(lang, node@.kind) {
        seq![(indent, lang_definition(lang, node@))]
    } else {
        Seq::<(usize, Seq<char>)>::empty()
    };
    if lang.is_key_node(node) {
        let text = lang.get_definition(node);
        let entry = OutlineEntry { indent, text };
        proof {
            assert(entries_view(out@ + seq![entry]) =~= entries_view(out@) + seq![
                (entry.indent, entry.text@),
            ]);
            assert(entries_view(out0) + own =~= entries_view(out0) + seq![
                (indent, lang_definition(lang, node@)),
            ]);
        }
        out.push(entry);
    } else {
        proof {
            assert(entries_view(out0) + own =~= entries_view(out0));
        }
    }
    let ni = next_indent_exec(indent);
    let ghost cs = node@.children;
    proof {
        lemma_views_of(node.children@);
        assert(cs.skip(0) =~= cs);
        assert((entries_view(out0) + own) + outline_children(lang, cs, ni) =~= entries_view(out0)
            + (own + outline_children(lang, cs, ni)));
    }
    let n = node.children.len();
    let mut i: usize = 0;
    while i < n
        invariant
            n == node.children@.len(),
            cs == node@.children,
            cs.len() == n,
            forall|k: int| 0 <= k < n ==> cs[k] == node_view(node.children@[k]),
            0 <= i <= n,
            entries_view(out@) + outline_children(lang, cs.skip(i as int), ni) == entries_view(
                out0,
            ) + outline_spec(lang, node_view(*node), indent),
        decreases n - i,
    {
        let ghost rest = cs.skip(i as int);
        proof {
            assert(rest.len() > 0);
            assert(rest[0] == cs[i as int]);
            assert(rest.drop_first() =~= cs.skip(i + 1));
            assert(decreases_to!(*node => node.children@[i as int]));
        }
        let ghost out_mid = out@;
        recursion_outline(lang, &node.children[i], ni, out);
        proof {
            assert((entries_view(out_mid) + outline_spec(lang, cs[i as int], ni))
                + outline_children(lang, cs.skip(i + 1), ni) =~= entries_view(out_mid) + (
            outline_spec(lang, cs[i as int], ni) + outline_children(lang, cs.skip(i + 1), ni)));
        }
        i += 1;
    }
    proof {
        assert(cs.skip(n as int) =~= Seq::<NodeView>::empty());
        assert(outline_children(lang, cs.skip(n as int), ni) =~= Seq::<(usize, Seq<char>)>::empty());
        assert(entries_view(out@) + Seq::<(usize, Seq<char>)>::empty() =~= entries_view(out@));
    }
}

/// Parses `code` under `lang` and returns the whole-file outline, one entry
/// per key node in pre-order.
pub fn get_outline(code: &str, lang: Lang) -> (r: Vec<OutlineEntry>)
    ensures
        entries_view(r@) == outline_spec(lang, tree_of(lang_id(lang), code@), 0),
{
    let root = parse_source(lang, code);
    let mut out: Vec<OutlineEntry> = Vec::new();
    proof {
        assert(entries_view(Seq::<OutlineEntry>::empty()) =~= Seq::<(usize, Seq<char>)>::empty());
    }
    recursion_outline(lang, &root, 0, &mut out);
    proof {
        assert(Seq::<(usize, Seq<char>)>::empty() + outline_spec(lang, root@, 0) =~= outline_spec(
            lang,
            root@,
            0,
        ));
    }
    out
}

/// One line of outline output with its signature as marked tokens, so that
/// a presentation layer can emphasise the keyword tokens.
pub struct OutlineTokenEntry {
    pub indent: usize,
    pub tokens: Vec<Token>,
}

/// The mathematical image of a token outline.
pub open spec fn token_entries_view(v: Seq<OutlineTokenEntry>) -> Seq<
    (usize, Seq<(Seq<char>, bool)>),
> {
    v.map_values(|e: OutlineTokenEntry| (e.indent, tokens_view(e.tokens@)))
}

/// The token outline a subtree contributes: as `outline_spec`, with each
/// entry's signature as its marked token stream.
pub open spec fn outline_tokens_spec(lang: Lang, node: NodeView, indent: usize) -> Seq<
    (usize, Seq<(Seq<char>, bool)>),
>
    decreases node,
{
    (if lang_is_key(lang, node.kind) {
        seq![(indent, lang_definition_tokens(lang, node))]
    } else {
        Seq::<(usize, Seq<(Seq<char>, bool)>)>::empty()
    }) + outline_children_tokens(lang, node.children, next_indent(indent))
}

/// The concatenated token outlines of a child list, left to right.
pub open spec fn outline_children_tokens(lang: Lang, cs: Seq<NodeView>, indent: usize) -> Seq<
    (usize, Seq<(Seq<char>, bool)>),
>
    decreases cs,
{
    if cs.len() == 0 {
        Seq::empty()
    } else {
        outline_tokens_spec(lang, cs[0], indent) + outline_children_tokens(
            lang,
            cs.drop_first(),
            indent,
        )
    }
}

/// Walks the subtree rooted at `node` in pre-order, appending one token
/// entry per key node, indentation growing with raw tree depth.
pub fn recursion_outline_tokens(
    lang: Lang,
    node: &SyntaxNode,
    indent: usize,
    out: &mut Vec<OutlineTokenEntry>,
)
    ensures
        token_entries_view(final(out)@) == token_entries_view(old(out)@) + outline_tokens_spec(
            lang,
            node@,
            indent,
        ),
    decreases *node,
{
    let ghost out0 = old(out)@;
    let ghost own = if lang_is_key(lang, node@.kind) {
        seq![(indent, lang_definition_tokens(lang, node@))]
    } else {
        Seq::<(usize, Seq<(Seq<char>, bool)>)>::empty()
    };
    if lang.is_key_node(node) {
        let tokens = lang.get_definition_tokens(node);
        let entry = OutlineTokenEntry { indent, tokens };
        proof {
            assert(token_entries_view(out@ + seq![entry]) =~= token_entries_view(out@) + seq![
                (entry.indent, tokens_view(entry.tokens@)),
            ]);
            assert(token_entries_view(out0) + own =~= token_entries_view(out0) + seq![
                (indent, lang_definition_tokens(lang, node@)),
            ]);
        }
        out.push(entry);
    } else {
        proof {
            assert(token_entries_view(out0) + own =~= token_entries_view(out0));
        }
    }
    let ni = next_indent_exec(indent);
    let ghost cs = node@.children;
    proof {
        lemma_views_of(node.children@);
        assert(cs.skip(0) =~= cs);
        assert((token_entries_view(out0) + own) + outline_children_tokens(lang, cs, ni)
            =~= token_entries_view(out0) + (own + outline_children_tokens(lang, cs, ni)));
    }
    let n = node.children.len();
    let mut i: usize = 0;
    while i < n
        invariant
            n == node.children@.len(),
            cs == node@.children,
            cs.len() == n,
            forall|k: int| 0 <= k < n ==> cs[k] == node_view(node.children@[k]),
            0 <= i <= n,
            token_entries_view(out@) + outline_children_tokens(lang, cs.skip(i as int), ni)
                == token_entries_view(out0) + outline_tokens_spec(lang, node_view(*node), indent),
        decreases n - i,
    {
        let ghost rest = cs.skip(i as int);
        proof {
            assert(rest.len() > 0);
            assert(rest[0] == cs[i as int]);
            assert(rest.drop_first() =~= cs.skip(i + 1));
            assert(decreases_to!(*node => node.children@[i as int]));
        }
        let ghost out_mid = out@;
        recursion_outline_tokens(lang, &node.children[i], ni, out);
        proof {
            assert((token_entries_view(out_mid) + outline_tokens_spec(lang, cs[i as int], ni))
                + outline_children_tokens(lang, cs.skip(i + 1), ni) =~= token_entries_view(out_mid)
                + (outline_tokens_spec(lang, cs[i as int], ni) + outline_children_tokens(
                lang,
                cs.skip(i + 1),
                ni,
            )));
        }
        i += 1;
    }
    proof {
        assert(cs.skip(n as int) =~= Seq::<NodeView>::empty());
        assert(outline_children_tokens(lang, cs.skip(n as int), ni) =~= Seq::<
            (usize, Seq<(Seq<char>, bool)>),
        >::empty());
        assert(token_entries_view(out@) + Seq::<(usize, Seq<(Seq<char>, bool)>)>::empty()
            =~= token_entries_view(out@));
    }
}

/// Parses `code` under `lang` and returns the whole-file outline with each
/// entry's signature as marked tokens.
pub fn get_outline_tokens(code: &str, lang: Lang) -> (r: Vec<OutlineTokenEntry>)
    ensures
        token_entries_view(r@) == outline_tokens_spec(lang, tree_of(lang_id(lang), code@), 0),
{
    let root = parse_source(lang, code);
    let mut out: Vec<OutlineTokenEntry> = Vec::new();
    proof {
        assert(token_entries_view(Seq::<OutlineTokenEntry>::empty()) =~= Seq::<
            (usize, Seq<(Seq<char>, bool)>),
        >::empty());
    }
    recursion_outline_tokens(lang, &root, 0, &mut out);
    proof {
        assert(Seq::<(usize, Seq<(Seq<char>, bool)>)>::empty() + outline_tokens_spec(
            lang,
            root@,
            0,
        ) =~= outline_tokens_spec(lang, root@, 0));
    }
    out
}

/// `n` space characters.
pub open spec fn spaces(n: int) -> Seq<char>
    decreases n,
{
    if n <= 0 {
        Seq::empty()
    } else {
        spaces(n - 1) + seq![' ']
    }
}

impl OutlineEntry {
    /// The entry as one printable line: its indentation in spaces, then its
    /// rendered signature.
    pub fn to_line(&self) -> (r: String)
        ensures
            r@ == spaces(self.indent as int) + self.text@,
    {
        let mut out = String::new();
        let mut i: usize = 0;
        proof {
            assert(out@ =~= spaces(0));
        }
        while i < self.indent
            invariant
                0 <= i <= self.indent,
                out@ == spaces(i as int),
            decreases self.indent - i,
        {
            out.append(" ");
            proof {
                reveal_strlit(" ");
                assert(" "@ =~= seq![' ']);
            }
            i += 1;
        }
        out.append(self.text.as_str());
        out
    }
}

/// Every entry of a subtree's outline is indented at least as deep as the
/// subtree's own indentation: indentation grows with tree depth.
pub proof fn lemma_outline_indent(lang: Lang, node: NodeView, indent: usize)
    ensures
        forall|k: int| 0 <= k < outline_spec(lang, node, indent).len() ==> (#[trigger] outline_spec(
            lang,
            node,
            indent,
        )[k]).0 >= indent,
    decreases node,
{
    lemma_outline_children_indent(lang, node.children, next_indent(indent));
    assert forall|k: int| 0 <= k < outline_spec(lang, node, indent).len() implies (
    #[trigger] outline_spec(lang, node, indent)[k]).0 >= indent by {
        let own = if lang_is_key(lang, node.kind) {
            seq![(indent, lang_definition(lang, node))]
        } else {
            Seq::<(usize, Seq<char>)>::empty()
        };
        if k >= own.len() {
            assert(outline_spec(lang, node, indent)[k] == outline_children(
                lang,
                node.children,
                next_indent(indent),
            )[k - own.len()]);
        }
    }
}

/// As `lemma_outline_indent`, for a child list.
pub proof fn lemma_outline_children_indent(lang: Lang, cs: Seq<NodeView>, indent: usize)
    ensures
        forall|k: int| 0 <= k < outline_children(lang, cs, indent).len() ==> (
        #[trigger] outline_children(lang, cs, indent)[k]).0 >= indent,
    decreases cs,
{
    if cs.len() > 0 {
        lemma_outline_indent(lang, cs[0], indent);
        lemma_outline_children_indent(lang, cs.drop_first(), indent);
        let head = outline_spec(lang, cs[0], indent);
        let tail = outline_children(lang, cs.drop_first(), indent);
        assert forall|k: int| 0 <= k < outline_children(lang, cs, indent).len() implies (
        #[trigger] outline_children(lang, cs, indent)[k]).0 >= indent by {
            if k < head.len() {
                assert(outline_children(lang, cs, indent)[k] == head[k]);
            } else {
                assert(outline_children(lang, cs, indent)[k] == tail[k - head.len()]);
            }
        }
    }
}

} // verus!
