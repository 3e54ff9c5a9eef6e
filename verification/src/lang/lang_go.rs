//! The Go language descriptor.
//!
//! Go needs three renderings of its own on top of the generic rule table:
//! type declarations are labelled `struct` or `interface` by inspecting the
//! nested type-spec's children, method declarations concatenate every
//! pre-block child's raw text, and a field declaration renders as just its
//! name child's text.

use vstd::prelude::*;
use vstd::string::StringExecFns;

use crate::node::NodeView;
use crate::node::SyntaxNode;
use crate::node::lemma_views_of;
use crate::node::node_view;
use crate::render::Token;
use crate::render::generic_def_string;
use crate::render::generic_def_tokens;
use crate::render::get_defination_string;
use crate::render::get_defination_tokens;
use crate::render::kws_view;
use crate::render::rules_view;
use crate::render::tokens_view;
use crate::text::str_eq;

verus! {

/// The Go descriptor.
pub struct GoQuery;

/// Query patterns for Go: function declarations and type specs.
pub open spec fn go_patterns() -> Seq<Seq<char>> {
    seq![
        r#"
            ((function_declaration
             name:(identifier) @function)
             (#match? @function ":?"))
            "#@,
        r#"
            ((type_spec
             name:(type_identifier) @type)
             (#match? @type ":?"))
            "#@,
    ]
}

/// Outline-worthy node kinds for Go.
pub open spec fn go_is_key(kind: Seq<char>) -> bool {
    ||| kind == "function_declaration"@
    ||| kind == "method_declaration"@
    ||| kind == "method_elem"@
    ||| kind == "type_declaration"@
    ||| kind == "field_declaration"@
}

/// Signature-truncation rules for the generic part of the Go renderer.  A
/// function's boundary is its body block, so the declaration head survives;
/// an interface method element has no body, so nothing is cut.
pub open spec fn go_rules() -> Seq<(Seq<char>, Seq<char>)> {
    seq![("function_declaration"@, "block"@), ("method_elem"@, "block"@)]
}

/// Rendering of one child of a type-spec: `struct` and `interface` children
/// render as those labels, everything else as its raw text.
pub open spec fn go_sub_render(s: NodeView) -> Seq<char> {
    if s.kind == "struct_type"@ {
        "struct"@
    } else if s.kind == "interface_type"@ {
        "interface"@
    } else {
        s.text
    }
}

/// Rendering of a type-spec's children, each followed by one space.
pub open spec fn go_type_spec_string(subs: Seq<NodeView>) -> Seq<char>
    decreases subs.len(),
{
    if subs.len() == 0 {
        Seq::empty()
    } else {
        go_sub_render(subs[0]) + seq![' '] + go_type_spec_string(subs.drop_first())
    }
}

/// Contribution of one child of a type declaration: the `type` keyword, or
/// the rendered type-spec, each followed by the per-child space.
pub open spec fn go_type_child_string(c: NodeView) -> Seq<char> {
    if c.kind == "type"@ {
        "type"@ + seq![' ']
    } else if c.kind == "type_spec"@ {
        go_type_spec_string(c.children) + seq![' ']
    } else {
        seq![' ']
    }
}

/// Rendering of a whole type declaration.
pub open spec fn go_type_decl_string(cs: Seq<NodeView>) -> Seq<char>
    decreases cs.len(),
{
    if cs.len() == 0 {
        Seq::empty()
    } else {
        go_type_child_string(cs[0]) + go_type_decl_string(cs.drop_first())
    }
}

/// Rendering of a method declaration: every child before the `block`, raw
/// text with the `func` keyword substituted, each followed by one space.
pub open spec fn go_method_decl_string(cs: Seq<NodeView>) -> Seq<char>
    decreases cs.len(),
{
    if cs.len() == 0 {
        Seq::empty()
    } else if cs[0].kind == "block"@ {
        Seq::empty()
    } else {
        (if cs[0].kind == "func"@ {
            "func"@
        } else {
            cs[0].text
        }) + seq![' '] + go_method_decl_string(cs.drop_first())
    }
}

/// The rendered signature of a Go definition node.
pub open spec fn go_definition(node: NodeView) -> Seq<char> {
    if node.kind == "type_declaration"@ {
        go_type_decl_string(node.children)
    } else if node.kind == "method_declaration"@ {
        go_method_decl_string(node.children)
    } else if node.kind == "field_declaration"@ {
        match node.name_text {
            Some(t) => t,
            None => Seq::empty(),
        }
    } else {
        generic_def_string(go_rules(), node)
    }
}

/// Keyword set for Go.
pub open spec fn go_keywords() -> Seq<Seq<char>> {
    seq!["func"@, "type"@]
}

/// The token of one child of a type-spec: the `struct` and `interface`
/// labels are keywords, everything else is its raw text.
pub open spec fn go_sub_token(s: NodeView) -> (Seq<char>, bool) {
    if s.kind == "struct_type"@ {
        ("struct"@, true)
    } else if s.kind == "interface_type"@ {
        ("interface"@, true)
    } else {
        (s.text, false)
    }
}

/// Tokens of a type-spec's children, one per child.
pub open spec fn go_type_spec_tokens(subs: Seq<NodeView>) -> Seq<(Seq<char>, bool)>
    decreases subs.len(),
{
    if subs.len() == 0 {
        Seq::empty()
    } else {
        seq![go_sub_token(subs[0])] + go_type_spec_tokens(subs.drop_first())
    }
}

/// Tokens of one child of a type declaration; the bare per-child space of
/// the plain rendering appears as an empty token.
pub open spec fn go_type_child_tokens(c: NodeView) -> Seq<(Seq<char>, bool)> {
    if c.kind == "type"@ {
        seq![("type"@, true)]
    } else if c.kind == "type_spec"@ {
        go_type_spec_tokens(c.children) + seq![(Seq::<char>::empty(), false)]
    } else {
        seq![(Seq::<char>::empty(), false)]
    }
}

/// Tokens of a whole type declaration.
pub open spec fn go_type_decl_tokens(cs: Seq<NodeView>) -> Seq<(Seq<char>, bool)>
    decreases cs.len(),
{
    if cs.len() == 0 {
        Seq::empty()
    } else {
        go_type_child_tokens(cs[0]) + go_type_decl_tokens(cs.drop_first())
    }
}

/// Tokens of a method declaration: one per pre-block child, `func` marked
/// as a keyword.
pub open spec fn go_method_decl_tokens(cs: Seq<NodeView>) -> Seq<(Seq<char>, bool)>
    decreases cs.len(),
{
    if cs.len() == 0 {
        Seq::empty()
    } else if cs[0].kind == "block"@ {
        Seq::empty()
    } else {
        seq![
            (if cs[0].kind == "func"@ {
                ("func"@, true)
            } else {
                (cs[0].text, false)
            }),
        ] + go_method_decl_tokens(cs.drop_first())
    }
}

/// The token stream of a Go definition node.  A field declaration renders
/// as its bare name, with no trailing separator in the plain form, so its
/// one token stands alone.
pub open spec fn go_definition_tokens(node: NodeView) -> Seq<(Seq<char>, bool)> {
    if node.kind == "type_declaration"@ {
        go_type_decl_tokens(node.children)
    } else if node.kind == "method_declaration"@ {
        go_method_decl_tokens(node.children)
    } else if node.kind == "field_declaration"@ {
        match node.name_text {
            Some(t) => seq![(t, false)],
            None => Seq::empty(),
        }
    } else {
        generic_def_tokens(go_rules(), go_keywords(), node)
    }
}

/// Renders one child of a Go type declaration.
fn go_type_child(child: &SyntaxNode) -> (r: String)
    ensures
        r@ == go_type_child_string(node_view(*child)),
{
    proof {
        reveal_strlit("type");
        reveal_strlit("type_spec");
        reveal_strlit(" ");
        assert(" "@ =~= seq![' ']);
        assert("type"@.len() != "type_spec"@.len());
    }
    let mut out = String::new();
    if str_eq(child.kind.as_str(), "type") {
        out.append("type");
    }
    if str_eq(child.kind.as_str(), "type_spec") {
        let ghost subs = node_view(*child).children;
        proof {
            lemma_views_of(child.children@);
            assert(subs.skip(0) =~= subs);
            assert(out@ + go_type_spec_string(subs) =~= go_type_spec_string(subs));
        }
        let n = child.children.len();
        let mut j: usize = 0;
        while j < n
            invariant
                n == child.children@.len(),
                subs == node_view(*child).children,
                subs.len() == n,
                forall|k: int| 0 <= k < n ==> subs[k] == node_view(child.children@[k]),
                0 <= j <= n,
                out@ + go_type_spec_string(subs.skip(j as int)) == go_type_spec_string(subs),
            decreases n - j,
        {
            let sub = &child.children[j];
            let ghost rest = subs.skip(j as int);
            proof {
                assert(rest.len() > 0);
                assert(rest[0] == subs[j as int]);
                assert(rest.drop_first() =~= subs.skip(j + 1));
                reveal_strlit(" ");
                assert(" "@ =~= seq![' ']);
            }
            if str_eq(sub.kind.as_str(), "struct_type") {
                out.append("struct");
            } else if str_eq(sub.kind.as_str(), "interface_type") {
                out.append("interface");
            } else {
                out.append(sub.text.as_str());
            }
            out.append(" ");
            proof {
                assert(out@ + go_type_spec_string(subs.skip(j + 1)) =~= go_type_spec_string(subs));
            }
            j += 1;
        }
        proof {
            assert(subs.skip(n as int) =~= Seq::<NodeView>::empty());
            assert(out@ + Seq::<char>::empty() =~= out@);
        }
    }
    out.append(" ");
    proof {
        reveal_strlit(" ");
        assert(" "@ =~= seq![' ']);
        assert(out@ =~= go_type_child_string(node_view(*child)));
    }
    out
}

/// Tokens of one child of a Go type declaration.
fn go_type_child_toks(child: &SyntaxNode) -> (r: Vec<Token>)
    ensures
        tokens_view(r@) == go_type_child_tokens(node_view(*child)),
{
    proof {
        reveal_strlit("type");
        reveal_strlit("type_spec");
        assert("type"@.len() != "type_spec"@.len());
    }
    let mut out: Vec<Token> = Vec::new();
    if str_eq(child.kind.as_str(), "type") {
        out.push(Token { text: String::from_str("type"), keyword: true });
        proof {
            assert(tokens_view(out@) =~= go_type_child_tokens(node_view(*child)));
        }
        out
    } else if str_eq(child.kind.as_str(), "type_spec") {
        let ghost subs = node_view(*child).children;
        proof {
            lemma_views_of(child.children@);
            assert(subs.skip(0) =~= subs);
            assert(tokens_view(out@) + go_type_spec_tokens(subs) =~= go_type_spec_tokens(subs));
        }
        let n = child.children.len();
        let mut j: usize = 0;
        while j < n
            invariant
                n == child.children@.len(),
                subs == node_view(*child).children,
                subs.len() == n,
                forall|k: int| 0 <= k < n ==> subs[k] == node_view(child.children@[k]),
                0 <= j <= n,
                tokens_view(out@) + go_type_spec_tokens(subs.skip(j as int))
                    == go_type_spec_tokens(subs),
            decreases n - j,
        {
            let sub = &child.children[j];
            let ghost rest = subs.skip(j as int);
            proof {
                assert(rest.len() > 0);
                assert(rest[0] == subs[j as int]);
                assert(rest.drop_first() =~= subs.skip(j + 1));
            }
            let tok = if str_eq(sub.kind.as_str(), "struct_type") {
                Token { text: String::from_str("struct"), keyword: true }
            } else if str_eq(sub.kind.as_str(), "interface_type") {
                Token { text: String::from_str("interface"), keyword: true }
            } else {
                Token { text: sub.text.clone(), keyword: false }
            };
            proof {
                assert(go_sub_token(rest[0]) == (tok.text@, tok.keyword));
                assert(tokens_view(out@ + seq![tok]) =~= tokens_view(out@) + seq![
                    (tok.text@, tok.keyword),
                ]);
                assert((tokens_view(out@) + seq![go_sub_token(rest[0])]) + go_type_spec_tokens(
                    subs.skip(j + 1),
                ) =~= tokens_view(out@) + (seq![go_sub_token(rest[0])] + go_type_spec_tokens(
                    subs.skip(j + 1),
                )));
            }
            out.push(tok);
            j += 1;
        }
        proof {
            assert(subs.skip(n as int) =~= Seq::<NodeView>::empty());
            assert(tokens_view(out@) + Seq::<(Seq<char>, bool)>::empty() =~= tokens_view(out@));
        }
        let blank = Token { text: String::new(), keyword: false };
        proof {
            assert(tokens_view(out@ + seq![blank]) =~= tokens_view(out@) + seq![
                (Seq::<char>::empty(), false),
            ]);
            assert(tokens_view(out@) + seq![(Seq::<char>::empty(), false)] =~= go_type_child_tokens(
                node_view(*child),
            ));
        }
        out.push(blank);
        out
    } else {
        let blank = Token { text: String::new(), keyword: false };
        out.push(blank);
        proof {
            assert(tokens_view(out@) =~= go_type_child_tokens(node_view(*child)));
        }
        out
    }
}

impl GoQuery {
    /// The Go query patterns, one `:?` placeholder each.
    pub fn get_queries(&self) -> (r: Vec<String>)
        ensures
            r@.map_values(|s: String| s@) == go_patterns(),
    {
        let r: Vec<String> = vec![
            String::from_str(
                r#"
            ((function_declaration
             name:(identifier) @function)
             (#match? @function ":?"))
            "#,
            ),
            String::from_str(
                r#"
            ((type_spec
             name:(type_identifier) @type)
             (#match? @type ":?"))
            "#,
            ),
        ];
        proof {
            assert(r@.map_values(|s: String| s@) =~= go_patterns());
        }
        r
    }

    /// Is the node of an outline-worthy Go kind?
    pub fn is_key_node(&self, node: &SyntaxNode) -> (r: bool)
        ensures
            r == go_is_key(node@.kind),
    {
        let k = node.kind.as_str();
        str_eq(k, "function_declaration") || str_eq(k, "method_declaration") || str_eq(
            k,
            "method_elem",
        ) || str_eq(k, "type_declaration") || str_eq(k, "field_declaration")
    }

    /// The node's signature as marked tokens under the Go rules, the three
    /// bespoke renderings dispatched before the generic rule table.
    pub fn get_definition_tokens(&self, node: &SyntaxNode) -> (r: Vec<Token>)
        ensures
            tokens_view(r@) == go_definition_tokens(node@),
    {
        let ghost cs = node@.children;
        if str_eq(node.kind.as_str(), "type_declaration") {
            proof {
                lemma_views_of(node.children@);
                assert(cs.skip(0) =~= cs);
            }
            let mut out: Vec<Token> = Vec::new();
            let n = node.children.len();
            let mut i: usize = 0;
            proof {
                assert(tokens_view(out@) + go_type_decl_tokens(cs) =~= go_type_decl_tokens(cs));
            }
            while i < n
                invariant
                    n == node.children@.len(),
                    cs == node@.children,
                    cs.len() == n,
                    forall|k: int| 0 <= k < n ==> cs[k] == node_view(node.children@[k]),
                    0 <= i <= n,
                    tokens_view(out@) + go_type_decl_tokens(cs.skip(i as int))
                        == go_type_decl_tokens(cs),
                decreases n - i,
            {
                let ghost rest = cs.skip(i as int);
                proof {
                    assert(rest.len() > 0);
                    assert(rest[0] == cs[i as int]);
                    assert(rest.drop_first() =~= cs.skip(i + 1));
                }
                let mut piece = go_type_child_toks(&node.children[i]);
                proof {
                    assert(tokens_view(out@ + piece@) =~= tokens_view(out@) + tokens_view(piece@));
                    assert((tokens_view(out@) + go_type_child_tokens(rest[0]))
                        + go_type_decl_tokens(cs.skip(i + 1)) =~= tokens_view(out@) + (
                    go_type_child_tokens(rest[0]) + go_type_decl_tokens(cs.skip(i + 1))));
                }
                out.append(&mut piece);
                i += 1;
            }
            proof {
                assert(cs.skip(n as int) =~= Seq::<NodeView>::empty());
                assert(tokens_view(out@) + Seq::<(Seq<char>, bool)>::empty() =~= tokens_view(out@));
            }
            out
        } else if str_eq(node.kind.as_str(), "method_declaration") {
            proof {
                lemma_views_of(node.children@);
                assert(cs.skip(0) =~= cs);
            }
            let mut out: Vec<Token> = Vec::new();
            let n = node.children.len();
            let mut i: usize = 0;
            proof {
                assert(tokens_view(out@) + go_method_decl_tokens(cs) =~= go_method_decl_tokens(cs));
            }
            while i < n
                invariant
                    n == node.children@.len(),
                    cs == node@.children,
                    cs.len() == n,
                    forall|k: int| 0 <= k < n ==> cs[k] == node_view(node.children@[k]),
                    0 <= i <= n,
                    node@.kind != "type_declaration"@,
                    node@.kind == "method_declaration"@,
                    tokens_view(out@) + go_method_decl_tokens(cs.skip(i as int))
                        == go_method_decl_tokens(cs),
                decreases n - i,
            {
                let child = &node.children[i];
                let ghost rest = cs.skip(i as int);
                proof {
                    assert(rest.len() > 0);
                    assert(rest[0] == cs[i as int]);
                    assert(rest.drop_first() =~= cs.skip(i + 1));
                }
                if str_eq(child.kind.as_str(), "block") {
                    proof {
                        assert(go_method_decl_tokens(rest) =~= Seq::<(Seq<char>, bool)>::empty());
                        assert(tokens_view(out@) + Seq::<(Seq<char>, bool)>::empty()
                            =~= tokens_view(out@));
                        assert(go_definition_tokens(node@) == go_method_decl_tokens(
                            node@.children,
                        ));
                    }
                    return out;
                }
                let tok = if str_eq(child.kind.as_str(), "func") {
                    Token { text: String::from_str("func"), keyword: true }
                } else {
                    Token { text: child.text.clone(), keyword: false }
                };
                proof {
                    assert(tokens_view(out@ + seq![tok]) =~= tokens_view(out@) + seq![
                        (tok.text@, tok.keyword),
                    ]);
                    assert((tokens_view(out@) + seq![(tok.text@, tok.keyword)])
                        + go_method_decl_tokens(cs.skip(i + 1)) =~= tokens_view(out@) + (seq![
                        (tok.text@, tok.keyword),
                    ] + go_method_decl_tokens(cs.skip(i + 1))));
                }
                out.push(tok);
                i += 1;
            }
            proof {
                assert(cs.skip(n as int) =~= Seq::<NodeView>::empty());
                assert(tokens_view(out@) + Seq::<(Seq<char>, bool)>::empty() =~= tokens_view(out@));
            }
            out
        } else if str_eq(node.kind.as_str(), "field_declaration") {
            match &node.name_text {
                Some(t) => {
                    let tok = Token { text: t.clone(), keyword: false };
                    let r: Vec<Token> = vec![tok];
                    proof {
                        assert(tokens_view(r@) =~= go_definition_tokens(node@));
                    }
                    r
                },
                None => {
                    let r: Vec<Token> = Vec::new();
                    proof {
                        assert(tokens_view(r@) =~= go_definition_tokens(node@));
                    }
                    r
                },
            }
        } else {
            let definition_list: Vec<(&str, &str)> = vec![
                ("function_declaration", "block"),
                ("method_elem", "block"),
            ];
            let keywords: Vec<&str> = vec!["func", "type"];
            let r = get_defination_tokens(&definition_list, &keywords, node);
            proof {
                assert(rules_view(definition_list@) =~= go_rules());
                assert(kws_view(keywords@) =~= go_keywords());
            }
            r
        }
    }

    /// The node's reconstructed signature under the Go rules, with the three
    /// bespoke renderings dispatched before the generic rule table.
    pub fn get_definition(&self, node: &SyntaxNode) -> (r: String)
        ensures
            r@ == go_definition(node@),
    {
        let ghost cs = node@.children;
        if str_eq(node.kind.as_str(), "type_declaration") {
            proof {
                lemma_views_of(node.children@);
                assert(cs.skip(0) =~= cs);
            }
            let mut out = String::new();
            let n = node.children.len();
            let mut i: usize = 0;
            proof {
                assert(out@ + go_type_decl_string(cs) =~= go_type_decl_string(cs));
            }
            while i < n
                invariant
                    n == node.children@.len(),
                    cs == node@.children,
                    cs.len() == n,
                    forall|k: int| 0 <= k < n ==> cs[k] == node_view(node.children@[k]),
                    0 <= i <= n,
                    out@ + go_type_decl_string(cs.skip(i as int)) == go_type_decl_string(cs),
                decreases n - i,
            {
                let ghost rest = cs.skip(i as int);
                proof {
                    assert(rest.len() > 0);
                    assert(rest[0] == cs[i as int]);
                    assert(rest.drop_first() =~= cs.skip(i + 1));
                }
                let piece = go_type_child(&node.children[i]);
                out.append(piece.as_str());
                proof {
                    assert(out@ + go_type_decl_string(cs.skip(i + 1)) =~= go_type_decl_string(cs));
                }
                i += 1;
            }
            proof {
                assert(cs.skip(n as int) =~= Seq::<NodeView>::empty());
                assert(out@ + Seq::<char>::empty() =~= out@);
            }
            out
        } else if str_eq(node.kind.as_str(), "method_declaration") {
            proof {
                lemma_views_of(node.children@);
                assert(cs.skip(0) =~= cs);
            }
            let mut out = String::new();
            let n = node.children.len();
            let mut i: usize = 0;
            proof {
                assert(out@ + go_method_decl_string(cs) =~= go_method_decl_string(cs));
            }
            while i < n
                invariant
                    n == node.children@.len(),
                    cs == node@.children,
                    cs.len() == n,
                    forall|k: int| 0 <= k < n ==> cs[k] == node_view(node.children@[k]),
                    0 <= i <= n,
                    node@.kind != "type_declaration"@,
                    node@.kind == "method_declaration"@,
                    out@ + go_method_decl_string(cs.skip(i as int)) == go_method_decl_string(cs),
                decreases n - i,
            {
                let child = &node.children[i];
                let ghost rest = cs.skip(i as int);
                proof {
                    assert(rest.len() > 0);
                    assert(rest[0] == cs[i as int]);
                    assert(rest.drop_first() =~= cs.skip(i + 1));
                    reveal_strlit(" ");
                    assert(" "@ =~= seq![' ']);
                }
                if str_eq(child.kind.as_str(), "block") {
                    proof {
                        assert(go_method_decl_string(rest) =~= Seq::<char>::empty());
                        assert(out@ + Seq::<char>::empty() =~= out@);
                        assert(out@ == go_method_decl_string(cs));
                        assert(go_definition(node@) == go_method_decl_string(node@.children));
                    }
                    return out;
                }
                if str_eq(child.kind.as_str(), "func") {
                    out.append("func");
                } else {
                    out.append(child.text.as_str());
                }
                out.append(" ");
                proof {
                    assert(out@ + go_method_decl_string(cs.skip(i + 1)) =~= go_method_decl_string(
                        cs,
                    ));
                }
                i += 1;
            }
            proof {
                assert(cs.skip(n as int) =~= Seq::<NodeView>::empty());
                assert(out@ + Seq::<char>::empty() =~= out@);
            }
            out
        } else if str_eq(node.kind.as_str(), "field_declaration") {
            match &node.name_text {
                Some(t) => t.clone(),
                None => String::new(),
            }
        } else {
            let definition_list: Vec<(&str, &str)> = vec![
                ("function_declaration", "block"),
                ("method_elem", "block"),
            ];
            let keywords: Vec<&str> = vec!["func", "type"];
            let r = get_defination_string(&definition_list, &keywords, node);
            proof {
                assert(rules_view(definition_list@) =~= go_rules());
            }
            r
        }
    }
}

} // verus!
