//! The definition renderer.
//!
//! Given a node whose kind matches a rule's root kind, the renderer walks the
//! node's immediate children in order, stops at the first child whose kind is
//! the rule's boundary kind, and reproduces each earlier child's text as
//! whitespace-split tokens joined by single spaces, marking the tokens found
//! in the language's keyword set.  Splitting is on the literal space
//! character alone, a known limitation: tokens separated by newlines or runs
//! of spaces keep those separators in the output instead of collapsing to
//! one space.

use vstd::prelude::*;
use vstd::string::StrSliceExecFns;
use vstd::string::StringExecFns;

use crate::node::NodeView;
use crate::node::SyntaxNode;
use crate::node::lemma_views_of;
use crate::text::str_eq;

verus! {

/// One rendered token: its text and whether it is a reserved keyword of the
/// language (a presentation hint; the text itself is unchanged).
pub struct Token {
    pub text: String,
    pub keyword: bool,
}

/// The mathematical image of a token list.
pub open spec fn tokens_view(v: Seq<Token>) -> Seq<(Seq<char>, bool)> {
    v.map_values(|t: Token| (t.text@, t.keyword))
}

/// Views of a rule list: (root kind, boundary kind) pairs.
pub open spec fn rules_view(rs: Seq<(&str, &str)>) -> Seq<(Seq<char>, Seq<char>)> {
    rs.map_values(|r: (&str, &str)| (r.0@, r.1@))
}

/// Views of a keyword list.
pub open spec fn kws_view(ks: Seq<&str>) -> Seq<Seq<char>> {
    crate::text::strs_view(ks)
}

/// `s` split at every single space character, empty pieces kept: the
/// behaviour of `str::split(" ")`.
pub open spec fn split_at_spaces(s: Seq<char>) -> Seq<Seq<char>>
    decreases s.len(),
{
    if s.len() == 0 {
        seq![Seq::<char>::empty()]
    } else if s[0] == ' ' {
        seq![Seq::<char>::empty()] + split_at_spaces(s.drop_first())
    } else {
        prepend_first(s[0], split_at_spaces(s.drop_first()))
    }
}

/// Prepends a character to the first piece of a non-empty piece list.
pub open spec fn prepend_first(c: char, toks: Seq<Seq<char>>) -> Seq<Seq<char>>
    recommends
        toks.len() > 0,
{
    seq![seq![c] + toks[0]] + toks.drop_first()
}

/// Splitting always yields at least one piece.
pub proof fn lemma_split_len(s: Seq<char>)
    ensures
        split_at_spaces(s).len() >= 1,
    decreases s.len(),
{
    if s.len() > 0 {
        lemma_split_len(s.drop_first());
    }
}

/// Every token, followed by one space.
pub open spec fn join_tokens(toks: Seq<Seq<char>>) -> Seq<char>
    decreases toks.len(),
{
    if toks.len() == 0 {
        Seq::empty()
    } else {
        toks[0] + seq![' '] + join_tokens(toks.drop_first())
    }
}

/// Joining distributes over concatenation of token lists.
pub proof fn lemma_join_append(a: Seq<Seq<char>>, b: Seq<Seq<char>>)
    ensures
        join_tokens(a + b) == join_tokens(a) + join_tokens(b),
    decreases a.len(),
{
    if a.len() == 0 {
        assert(a + b =~= b);
        assert(join_tokens(a) + join_tokens(b) =~= join_tokens(b));
    } else {
        lemma_join_append(a.drop_first(), b);
        assert((a + b).drop_first() =~= a.drop_first() + b);
        assert((a + b)[0] == a[0]);
        assert(a[0] + seq![' '] + (join_tokens(a.drop_first()) + join_tokens(b)) =~= (a[0]
            + seq![' '] + join_tokens(a.drop_first())) + join_tokens(b));
    }
}

/// Splitting on spaces and joining with a space after each token
/// reconstructs the text, plus one trailing space.
pub proof fn lemma_join_split(s: Seq<char>)
    ensures
        join_tokens(split_at_spaces(s)) == s + seq![' '],
    decreases s.len(),
{
    if s.len() == 0 {
        let pieces = split_at_spaces(s);
        assert(pieces =~= seq![Seq::<char>::empty()]);
        assert(pieces.drop_first() =~= Seq::<Seq<char>>::empty());
        assert(join_tokens(pieces) == pieces[0] + seq![' '] + join_tokens(pieces.drop_first()));
        assert(pieces[0] + seq![' '] + join_tokens(pieces.drop_first()) =~= s + seq![' ']);
    } else if s[0] == ' ' {
        lemma_join_split(s.drop_first());
        let rest = split_at_spaces(s.drop_first());
        assert((seq![Seq::<char>::empty()] + rest).drop_first() =~= rest);
        assert(join_tokens(split_at_spaces(s)) =~= s + seq![' ']);
    } else {
        lemma_join_split(s.drop_first());
        let rest = split_at_spaces(s.drop_first());
        lemma_split_len(s.drop_first());
        assert(prepend_first(s[0], rest).drop_first() =~= rest.drop_first());
        assert(prepend_first(s[0], rest)[0] == seq![s[0]] + rest[0]);
        assert(join_tokens(rest) == rest[0] + seq![' '] + join_tokens(rest.drop_first()));
        assert((seq![s[0]] + rest[0]) + seq![' '] + join_tokens(rest.drop_first()) =~= seq![s[0]]
            + (rest[0] + seq![' '] + join_tokens(rest.drop_first())));
        assert(seq![s[0]] + s.drop_first() + seq![' '] =~= s + seq![' ']);
    }
}

/// Pieces of `s`, each marked as keyword or not.
pub open spec fn mark_tokens(pieces: Seq<Seq<char>>, kws: Seq<Seq<char>>) -> Seq<
    (Seq<char>, bool),
> {
    pieces.map_values(|p: Seq<char>| (p, kws.contains(p)))
}

/// Token stream for the children of a definition node: children in order up
/// to (and excluding) the first child of the boundary kind, each child's text
/// split at spaces and its tokens marked against the keyword set.
pub open spec fn children_tokens(
    cs: Seq<NodeView>,
    boundary: Seq<char>,
    kws: Seq<Seq<char>>,
) -> Seq<(Seq<char>, bool)>
    decreases cs.len(),
{
    if cs.len() == 0 {
        Seq::empty()
    } else if cs[0].kind == boundary {
        Seq::empty()
    } else {
        mark_tokens(split_at_spaces(cs[0].text), kws) + children_tokens(
            cs.drop_first(),
            boundary,
            kws,
        )
    }
}

/// Plain text for the children of a definition node: each pre-boundary
/// child's text followed by one space.
pub open spec fn children_string(cs: Seq<NodeView>, boundary: Seq<char>) -> Seq<char>
    decreases cs.len(),
{
    if cs.len() == 0 {
        Seq::empty()
    } else if cs[0].kind == boundary {
        Seq::empty()
    } else {
        cs[0].text + seq![' '] + children_string(cs.drop_first(), boundary)
    }
}

/// Token stream of a definition: the first rule whose root kind equals the
/// node's kind selects the boundary; with no matching rule the stream is
/// empty.
pub open spec fn generic_def_tokens(
    rules: Seq<(Seq<char>, Seq<char>)>,
    kws: Seq<Seq<char>>,
    node: NodeView,
) -> Seq<(Seq<char>, bool)>
    decreases rules.len(),
{
    if rules.len() == 0 {
        Seq::empty()
    } else if rules[0].0 == node.kind {
        children_tokens(node.children, rules[0].1, kws)
    } else {
        generic_def_tokens(rules.drop_first(), kws, node)
    }
}

/// Plain text of a definition under a rule list.
pub open spec fn generic_def_string(
    rules: Seq<(Seq<char>, Seq<char>)>,
    node: NodeView,
) -> Seq<char>
    decreases rules.len(),
{
    if rules.len() == 0 {
        Seq::empty()
    } else if rules[0].0 == node.kind {
        children_string(node.children, rules[0].1)
    } else {
        generic_def_string(rules.drop_first(), node)
    }
}

/// Index of the first child of the boundary kind, or the child count if
/// there is none.
pub open spec fn cut_index(cs: Seq<NodeView>, boundary: Seq<char>) -> int
    decreases cs.len(),
{
    if cs.len() == 0 {
        0
    } else if cs[0].kind == boundary {
        0
    } else {
        1 + cut_index(cs.drop_first(), boundary)
    }
}

/// The cut index lies within the child list.
pub proof fn lemma_cut_index_range(cs: Seq<NodeView>, boundary: Seq<char>)
    ensures
        0 <= cut_index(cs, boundary) <= cs.len(),
    decreases cs.len(),
{
    if cs.len() > 0 && cs[0].kind != boundary {
        lemma_cut_index_range(cs.drop_first(), boundary);
    }
}

/// The renderer never includes source text at or beyond the boundary kind:
/// the rendering of a child list equals the rendering of that list truncated
/// at its first boundary-kind child, so the boundary child and everything
/// after it contribute nothing.
pub proof fn lemma_render_stops_at_boundary(cs: Seq<NodeView>, boundary: Seq<char>)
    ensures
        children_string(cs, boundary) == children_string(
            cs.take(cut_index(cs, boundary)),
            boundary,
        ),
    decreases cs.len(),
{
    lemma_cut_index_range(cs, boundary);
    if cs.len() == 0 {
        assert(cs.take(0) =~= cs);
    } else if cs[0].kind == boundary {
        assert(cs.take(0) =~= Seq::<NodeView>::empty());
    } else {
        lemma_render_stops_at_boundary(cs.drop_first(), boundary);
        lemma_cut_index_range(cs.drop_first(), boundary);
        let cut = cut_index(cs, boundary);
        let t = cs.take(cut);
        assert(t.len() == cut);
        assert(t[0] == cs[0]);
        assert(t.drop_first() =~= cs.drop_first().take(cut - 1));
        assert(children_string(t, boundary) == t[0].text + seq![' '] + children_string(
            t.drop_first(),
            boundary,
        ));
    }
}

/// The texts of a marked token stream.
pub open spec fn token_texts(toks: Seq<(Seq<char>, bool)>) -> Seq<Seq<char>> {
    toks.map_values(|t: (Seq<char>, bool)| t.0)
}

/// The plain text of a definition is its token stream joined with one space
/// after each token.
pub proof fn lemma_children_string_is_join(
    cs: Seq<NodeView>,
    boundary: Seq<char>,
    kws: Seq<Seq<char>>,
)
    ensures
        children_string(cs, boundary) == join_tokens(
            token_texts(children_tokens(cs, boundary, kws)),
        ),
    decreases cs.len(),
{
    if cs.len() == 0 {
        assert(token_texts(children_tokens(cs, boundary, kws)) =~= Seq::<Seq<char>>::empty());
    } else if cs[0].kind == boundary {
        assert(token_texts(children_tokens(cs, boundary, kws)) =~= Seq::<Seq<char>>::empty());
    } else {
        lemma_children_string_is_join(cs.drop_first(), boundary, kws);
        let head = mark_tokens(split_at_spaces(cs[0].text), kws);
        let tail = children_tokens(cs.drop_first(), boundary, kws);
        assert(token_texts(head + tail) =~= token_texts(head) + token_texts(tail));
        assert(token_texts(head) =~= split_at_spaces(cs[0].text));
        lemma_join_append(split_at_spaces(cs[0].text), token_texts(tail));
        lemma_join_split(cs[0].text);
        assert((cs[0].text + seq![' ']) + join_tokens(token_texts(tail)) =~= cs[0].text + seq![' ']
            + join_tokens(token_texts(tail)));
    }
}

/// As `lemma_children_string_is_join`, lifted to the rule lookup.
pub proof fn lemma_def_string_is_join(
    rules: Seq<(Seq<char>, Seq<char>)>,
    kws: Seq<Seq<char>>,
    node: NodeView,
)
    ensures
        generic_def_string(rules, node) == join_tokens(
            token_texts(generic_def_tokens(rules, kws, node)),
        ),
    decreases rules.len(),
{
    if rules.len() == 0 {
        assert(token_texts(generic_def_tokens(rules, kws, node)) =~= Seq::<Seq<char>>::empty());
    } else if rules[0].0 == node.kind {
        lemma_children_string_is_join(node.children, rules[0].1, kws);
    } else {
        lemma_def_string_is_join(rules.drop_first(), kws, node);
    }
}

/// Splits `s` at every single space character, keeping empty pieces.
fn split_spaces(s: &str) -> (r: Vec<String>)
    ensures
        r@.map_values(|t: String| t@) == split_at_spaces(s@),
{
    let n = s.unicode_len();
    let mut out: Vec<String> = Vec::new();
    let mut start: usize = 0;
    let mut i: usize = 0;
    proof {
        let full = split_at_spaces(s@);
        lemma_split_len(s@);
        assert(s@.skip(0) =~= s@);
        assert(s@.subrange(0, 0) =~= Seq::<char>::empty());
        assert(Seq::<char>::empty() + full[0] =~= full[0]);
        assert(prepend_tok(Seq::<char>::empty(), full) =~= seq![full[0]] + full.drop_first());
        assert(seq![full[0]] + full.drop_first() =~= full);
        assert(out@.map_values(|t: String| t@) =~= Seq::<Seq<char>>::empty());
        assert(Seq::<Seq<char>>::empty() + full =~= full);
    }
    while i < n
        invariant
            n == s@.len(),
            0 <= start <= i <= n,
            split_at_spaces(s@) == out@.map_values(|t: String| t@) + prepend_tok(
                s@.subrange(start as int, i as int),
                split_at_spaces(s@.skip(i as int)),
            ),
        decreases n - i,
    {
        let ghost rest = s@.skip(i as int);
        proof {
            lemma_split_len(s@.skip(i + 1));
            assert(rest.len() > 0);
            assert(rest.drop_first() =~= s@.skip(i + 1));
            assert(rest[0] == s@[i as int]);
        }
        let c = s.get_char(i);
        if c == ' ' {
            let piece = s.substring_char(start, i).to_owned();
            proof {
                let done = out@.map_values(|t: String| t@);
                let piece_v = s@.subrange(start as int, i as int);
                let t_next = split_at_spaces(s@.skip(i + 1));
                assert(split_at_spaces(rest) =~= seq![Seq::<char>::empty()] + t_next);
                assert((seq![Seq::<char>::empty()] + t_next).drop_first() =~= t_next);
                assert(piece_v + Seq::<char>::empty() =~= piece_v);
                assert(prepend_tok(piece_v, split_at_spaces(rest)) =~= seq![piece_v] + t_next);
                assert(s@.subrange(i + 1, i + 1) =~= Seq::<char>::empty());
                assert(Seq::<char>::empty() + t_next[0] =~= t_next[0]);
                assert(prepend_tok(s@.subrange(i + 1, i + 1), t_next) =~= t_next);
                assert((done + seq![piece_v]).map_values(|t: Seq<char>| t) =~= done + seq![
                    piece_v,
                ]);
                assert(done + (seq![piece_v] + t_next) =~= (done + seq![piece_v]) + t_next);
                assert((out@ + seq![piece]).map_values(|t: String| t@) =~= done + seq![piece_v]);
            }
            out.push(piece);
            i += 1;
            start = i;
        } else {
            proof {
                let piece_v = s@.subrange(start as int, i as int);
                let t_next = split_at_spaces(s@.skip(i + 1));
                lemma_split_len(s@.skip(i + 1));
                assert(split_at_spaces(rest) =~= prepend_first(s@[i as int], t_next));
                assert(prepend_first(s@[i as int], t_next).drop_first() =~= t_next.drop_first());
                assert(prepend_tok(piece_v, split_at_spaces(rest)) =~= seq![(piece_v + (seq![
                    s@[i as int],
                ] + t_next[0]))] + t_next.drop_first());
                assert(piece_v + (seq![s@[i as int]] + t_next[0]) =~= s@.subrange(
                    start as int,
                    i + 1,
                ) + t_next[0]);
                assert(prepend_tok(piece_v, split_at_spaces(rest)) =~= prepend_tok(
                    s@.subrange(start as int, i + 1),
                    t_next,
                ));
            }
            i += 1;
        }
    }
    let piece = s.substring_char(start, n).to_owned();
    proof {
        let done = out@.map_values(|t: String| t@);
        let piece_v = s@.subrange(start as int, n as int);
        assert(s@.skip(n as int) =~= Seq::<char>::empty());
        assert(split_at_spaces(Seq::<char>::empty()) =~= seq![Seq::<char>::empty()]);
        assert(piece_v + Seq::<char>::empty() =~= piece_v);
        assert(seq![Seq::<char>::empty()].drop_first() =~= Seq::<Seq<char>>::empty());
        assert(prepend_tok(piece_v, seq![Seq::<char>::empty()]) =~= seq![piece_v]);
        assert((out@ + seq![piece]).map_values(|t: String| t@) =~= done + seq![piece_v]);
        assert(done + seq![piece_v] =~= split_at_spaces(s@));
    }
    let mut out = out;
    out.push(piece);
    out
}

/// A token text prepended to the first piece of a piece list.
pub open spec fn prepend_tok(p: Seq<char>, toks: Seq<Seq<char>>) -> Seq<Seq<char>>
    recommends
        toks.len() > 0,
{
    seq![p + toks[0]] + toks.drop_first()
}

/// Renders the token stream of a definition node under a rule list: the
/// children before the boundary kind, split at spaces, marked against the
/// keyword set.
pub fn get_defination_tokens(
    definition_list: &Vec<(&str, &str)>,
    keywords: &Vec<&str>,
    node: &SyntaxNode,
) -> (r: Vec<Token>)
    ensures
        tokens_view(r@) == generic_def_tokens(rules_view(definition_list@), kws_view(keywords@), node@),
{
    let ghost kws = kws_view(keywords@);
    let nrules = definition_list.len();
    let mut ri: usize = 0;
    proof {
        assert(rules_view(definition_list@).skip(0) =~= rules_view(definition_list@));
    }
    while ri < nrules
        invariant
            nrules == definition_list@.len(),
            0 <= ri <= nrules,
            generic_def_tokens(rules_view(definition_list@), kws, node@) == generic_def_tokens(
                rules_view(definition_list@).skip(ri as int),
                kws,
                node@,
            ),
            kws == kws_view(keywords@),
        decreases nrules - ri,
    {
        let ghost remaining = rules_view(definition_list@).skip(ri as int);
        proof {
            assert(remaining.len() > 0);
            assert(remaining[0] == rules_view(definition_list@)[ri as int]);
            assert(remaining.drop_first() =~= rules_view(definition_list@).skip(ri + 1));
        }
        let (root_kind, boundary) = (definition_list[ri].0, definition_list[ri].1);
        if str_eq(root_kind, node.kind.as_str()) {
            return render_children(node, boundary, keywords);
        }
        ri += 1;
    }
    proof {
        assert(rules_view(definition_list@).skip(nrules as int).len() == 0);
    }
    Vec::new()
}

/// Renders the pre-boundary children of `node` as a marked token stream.
fn render_children(node: &SyntaxNode, boundary: &str, keywords: &Vec<&str>) -> (r: Vec<Token>)
    ensures
        tokens_view(r@) == children_tokens(node@.children, boundary@, kws_view(keywords@)),
{
    let ghost kws = kws_view(keywords@);
    let ghost cs = node@.children;
    proof {
        lemma_views_of(node.children@);
    }
    let mut out: Vec<Token> = Vec::new();
    let n = node.children.len();
    let mut i: usize = 0;
    proof {
        assert(cs.skip(0) =~= cs);
        assert(tokens_view(out@) =~= Seq::<(Seq<char>, bool)>::empty());
        assert(Seq::<(Seq<char>, bool)>::empty() + children_tokens(cs, boundary@, kws)
            =~= children_tokens(cs, boundary@, kws));
    }
    while i < n
        invariant
            n == node.children@.len(),
            cs == node@.children,
            cs.len() == n,
            forall|k: int| 0 <= k < n ==> cs[k] == crate::node::node_view(node.children@[k]),
            0 <= i <= n,
            kws == kws_view(keywords@),
            children_tokens(cs, boundary@, kws) == tokens_view(out@) + children_tokens(
                cs.skip(i as int),
                boundary@,
                kws,
            ),
        decreases n - i,
    {
        let child = &node.children[i];
        let ghost rest = cs.skip(i as int);
        proof {
            assert(rest.len() > 0);
            assert(rest[0] == cs[i as int]);
            assert(rest.drop_first() =~= cs.skip(i + 1));
        }
        if str_eq(child.kind.as_str(), boundary) {
            proof {
                assert(children_tokens(rest, boundary@, kws) =~= Seq::<(Seq<char>, bool)>::empty());
                assert(tokens_view(out@) + Seq::<(Seq<char>, bool)>::empty() =~= tokens_view(out@));
            }
            return out;
        }
        let pieces = split_spaces(child.text.as_str());
        let np = pieces.len();
        let mut j: usize = 0;
        proof {
            assert(tokens_view(out@) + mark_tokens(split_at_spaces(cs[i as int].text), kws).take(0)
                =~= tokens_view(out@));
        }
        let ghost out_before = out@;
        while j < np
            invariant
                np == pieces@.len(),
                pieces@.map_values(|t: String| t@) == split_at_spaces(cs[i as int].text),
                0 <= j <= np,
                kws == kws_view(keywords@),
                tokens_view(out@) == tokens_view(out_before) + mark_tokens(
                    split_at_spaces(cs[i as int].text),
                    kws,
                ).take(j as int),
            decreases np - j,
        {
            let kw = crate::text::str_in_list(keywords, pieces[j].as_str());
            let tok = Token { text: pieces[j].clone(), keyword: kw };
            proof {
                let marked = mark_tokens(split_at_spaces(cs[i as int].text), kws);
                assert(marked[j as int] == (pieces@[j as int]@, kws.contains(pieces@[j as int]@)));
                assert(marked.take(j + 1) =~= marked.take(j as int) + seq![marked[j as int]]);
                assert(tokens_view(out@ + seq![tok]) =~= tokens_view(out@) + seq![
                    (tok.text@, tok.keyword),
                ]);
                assert(tokens_view(out_before) + marked.take(j as int) + seq![marked[j as int]]
                    =~= tokens_view(out_before) + marked.take(j + 1));
            }
            out.push(tok);
            j += 1;
        }
        proof {
            let marked = mark_tokens(split_at_spaces(cs[i as int].text), kws);
            assert(marked.take(np as int) =~= marked);
            assert(children_tokens(rest, boundary@, kws) == marked + children_tokens(
                cs.skip(i + 1),
                boundary@,
                kws,
            ));
            assert(tokens_view(out_before) + (marked + children_tokens(cs.skip(i + 1), boundary@, kws))
                =~= (tokens_view(out_before) + marked) + children_tokens(
                cs.skip(i + 1),
                boundary@,
                kws,
            ));
        }
        i += 1;
    }
    proof {
        assert(cs.skip(n as int) =~= Seq::<NodeView>::empty());
        assert(children_tokens(cs.skip(n as int), boundary@, kws) =~= Seq::<
            (Seq<char>, bool),
        >::empty());
        assert(tokens_view(out@) + Seq::<(Seq<char>, bool)>::empty() =~= tokens_view(out@));
    }
    out
}

/// Joins a token stream into plain text, one space after each token.
pub fn join_token_texts(toks: &Vec<Token>) -> (r: String)
    ensures
        r@ == join_tokens(token_texts(tokens_view(toks@))),
{
    let mut out = String::new();
    let n = toks.len();
    let mut i: usize = 0;
    proof {
        assert(token_texts(tokens_view(toks@)).take(0) =~= Seq::<Seq<char>>::empty());
        assert(Seq::<char>::empty() =~= join_tokens(token_texts(tokens_view(toks@)).take(0)));
    }
    while i < n
        invariant
            n == toks@.len(),
            0 <= i <= n,
            out@ == join_tokens(token_texts(tokens_view(toks@)).take(i as int)),
        decreases n - i,
    {
        out.append(toks[i].text.as_str());
        out.append(" ");
        proof {
            let texts = token_texts(tokens_view(toks@));
            assert(texts.take(i + 1) =~= texts.take(i as int) + seq![texts[i as int]]);
            lemma_join_append(texts.take(i as int), seq![texts[i as int]]);
            assert(seq![texts[i as int]].drop_first() =~= Seq::<Seq<char>>::empty());
            assert(join_tokens(seq![texts[i as int]]) == texts[i as int] + seq![' ']
                + join_tokens(Seq::<Seq<char>>::empty()));
            assert(texts[i as int] + seq![' '] + Seq::<char>::empty() =~= texts[i as int]
                + seq![' ']);
            assert(texts[i as int] == toks@[i as int].text@);
            reveal_strlit(" ");
            assert(" "@ =~= seq![' ']);
            assert(join_tokens(texts.take(i as int)) + (texts[i as int] + seq![' ']) =~= (
            join_tokens(texts.take(i as int)) + texts[i as int]) + seq![' ']);
        }
        i += 1;
    }
    proof {
        assert(token_texts(tokens_view(toks@)).take(n as int) =~= token_texts(tokens_view(toks@)));
    }
    out
}

/// Reconstructs the truncated signature string of a definition node: the
/// source text of each child before the rule's boundary kind, tokens joined
/// by single spaces, with a space after every token.
pub fn get_defination_string(
    definition_list: &Vec<(&str, &str)>,
    keywords: &Vec<&str>,
    node: &SyntaxNode,
) -> (r: String)
    ensures
        r@ == generic_def_string(rules_view(definition_list@), node@),
{
    let toks = get_defination_tokens(definition_list, keywords, node);
    let r = join_token_texts(&toks);
    proof {
        lemma_def_string_is_join(rules_view(definition_list@), kws_view(keywords@), node@);
    }
    r
}

} // verus!
