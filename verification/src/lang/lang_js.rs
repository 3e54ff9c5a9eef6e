//! The JavaScript language descriptor.

use vstd::prelude::*;
use vstd::string::StringExecFns;

use crate::node::NodeView;
use crate::node::SyntaxNode;
use crate::render::Token;
use crate::render::generic_def_string;
use crate::render::generic_def_tokens;
use crate::render::get_defination_string;
use crate::render::get_defination_tokens;
use crate::render::kws_view;
use crate::render::rules_view;
use crate::render::tokens_view;
use crate::text::str_eq;

verus! {

/// The JavaScript descriptor.
pub struct JavascriptQuery;

/// Query patterns for JavaScript: function declarations.
pub open spec fn javascript_patterns() -> Seq<Seq<char>> {
    seq![
        r#"
            ((function_declaration
             name:(identifier) @function)
             (#match? @function ":?"))
            "#@,
    ]
}

/// Outline-worthy node kinds for JavaScript.
pub open spec fn javascript_is_key(kind: Seq<char>) -> bool {
    ||| kind == "function_declaration"@
    ||| kind == "class_declaration"@
    ||| kind == "method_definition"@
    ||| kind == "lexical_declaration"@
}

/// Signature-truncation rules for JavaScript.  Each boundary is the kind
/// that opens the definition's body, so the declaration head survives.
pub open spec fn javascript_rules() -> Seq<(Seq<char>, Seq<char>)> {
    seq![
        ("function_declaration"@, "statement_block"@),
        ("class_declaration"@, "class_body"@),
        ("method_definition"@, "statement_block"@),
    ]
}

/// Keyword set for JavaScript.
pub open spec fn javascript_keywords() -> Seq<Seq<char>> {
    seq!["function"@, "async"@, "const"@, "let"@, "var"@, "class"@]
}

/// The token stream of a JavaScript definition node.
pub open spec fn javascript_definition_tokens(node: NodeView) -> Seq<(Seq<char>, bool)> {
    generic_def_tokens(javascript_rules(), javascript_keywords(), node)
}

/// The rendered signature of a JavaScript definition node.
pub open spec fn javascript_definition(node: NodeView) -> Seq<char> {
    generic_def_string(javascript_rules(), node)
}

impl JavascriptQuery {
    /// The JavaScript query patterns, one `:?` placeholder each.
    pub fn get_queries(&self) -> (r: Vec<String>)
        ensures
            r@.map_values(|s: String| s@) == javascript_patterns(),
    {
        let r: Vec<String> = vec![
            String::from_str(
                r#"
            ((function_declaration
             name:(identifier) @function)
             (#match? @function ":?"))
            "#,
            ),
        ];
        proof {
            assert(r@.map_values(|s: String| s@) =~= javascript_patterns());
        }
        r
    }

    /// Is the node of an outline-worthy JavaScript kind?
    pub fn is_key_node(&self, node: &SyntaxNode) -> (r: bool)
        ensures
            r == javascript_is_key(node@.kind),
    {
        let k = node.kind.as_str();
        str_eq(k, "function_declaration") || str_eq(k, "class_declaration") || str_eq(
            k,
            "method_definition",
        ) || str_eq(k, "lexical_declaration")
    }

    /// The node's signature as marked tokens under the JavaScript rules.
    pub fn get_definition_tokens(&self, node: &SyntaxNode) -> (r: Vec<Token>)
        ensures
            tokens_view(r@) == javascript_definition_tokens(node@),
    {
        let definition_list: Vec<(&str, &str)> = vec![
            ("function_declaration", "statement_block"),
            ("class_declaration", "class_body"),
            ("method_definition", "statement_block"),
        ];
        let keywords: Vec<&str> = vec!["function", "async", "const", "let", "var", "class"];
        let r = get_defination_tokens(&definition_list, &keywords, node);
        proof {
            assert(rules_view(definition_list@) =~= javascript_rules());
            assert(kws_view(keywords@) =~= javascript_keywords());
        }
        r
    }

    /// The node's reconstructed signature under the JavaScript rules.
    pub fn get_definition(&self, node: &SyntaxNode) -> (r: String)
        ensures
            r@ == javascript_definition(node@),
    {
        let definition_list: Vec<(&str, &str)> = vec![
            ("function_declaration", "statement_block"),
            ("class_declaration", "class_body"),
            ("method_definition", "statement_block"),
        ];
        let keywords: Vec<&str> = vec!["function", "async", "const", "let", "var", "class"];
        let r = get_defination_string(&definition_list, &keywords, node);
        proof {
            assert(rules_view(definition_list@) =~= javascript_rules());
        }
        r
    }
}

} // verus!
