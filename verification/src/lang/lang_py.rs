//! The Python language descriptor.

use vstd::prelude::*;
use vstd::string::StringExecFns;

use crate::node::NodeView;
use crate::node::SyntaxNode;
use crate::render::Token;
use crate::render::generic_def_string;
use crate::render::generic_def_tokens;
use crate::render::get_defination_string;
use crate::render::get_defination_tokens;
use crate::render::kws_view;
use crate::render::rules_view;
use crate::render::tokens_view;
use crate::text::str_eq;

verus! {

/// The Python descriptor.
pub struct PythonQuery;

/// Query patterns for Python: functions and classes.
pub open spec fn python_patterns() -> Seq<Seq<char>> {
    seq![
        r#"
            ((function_definition
             name:(identifier) @function)
             (#match? @function ":?"))
            "#@,
        r#"
                ((class_definition
                    name:(identifier) @class)
                    (#match? @class ":?"))
                "#@,
    ]
}

/// Outline-worthy node kinds for Python.
pub open spec fn python_is_key(kind: Seq<char>) -> bool {
    ||| kind == "class_definition"@
    ||| kind == "function_definition"@
}

/// Signature-truncation rules for Python.  Each boundary is the kind that
/// opens the definition's body, so the declaration head survives.
pub open spec fn python_rules() -> Seq<(Seq<char>, Seq<char>)> {
    seq![("class_definition"@, "block"@), ("function_definition"@, "block"@)]
}

/// Keyword set for Python.
pub open spec fn python_keywords() -> Seq<Seq<char>> {
    seq!["class"@, "def"@]
}

/// The token stream of a Python definition node.
pub open spec fn python_definition_tokens(node: NodeView) -> Seq<(Seq<char>, bool)> {
    generic_def_tokens(python_rules(), python_keywords(), node)
}

/// The rendered signature of a Python definition node.
pub open spec fn python_definition(node: NodeView) -> Seq<char> {
    generic_def_string(python_rules(), node)
}

impl PythonQuery {
    /// The Python query patterns, one `:?` placeholder each.
    pub fn get_queries(&self) -> (r: Vec<String>)
        ensures
            r@.map_values(|s: String| s@) == python_patterns(),
    {
        let r: Vec<String> = vec![
            String::from_str(
                r#"
            ((function_definition
             name:(identifier) @function)
             (#match? @function ":?"))
            "#,
            ),
            String::from_str(
                r#"
                ((class_definition
                    name:(identifier) @class)
                    (#match? @class ":?"))
                "#,
            ),
        ];
        proof {
            assert(r@.map_values(|s: String| s@) =~= python_patterns());
        }
        r
    }

    /// Is the node of an outline-worthy Python kind?
    pub fn is_key_node(&self, node: &SyntaxNode) -> (r: bool)
        ensures
            r == python_is_key(node@.kind),
    {
        let k = node.kind.as_str();
        str_eq(k, "class_definition") || str_eq(k, "function_definition")
    }

    /// The node's signature as marked tokens under the Python rules.
    pub fn get_definition_tokens(&self, node: &SyntaxNode) -> (r: Vec<Token>)
        ensures
            tokens_view(r@) == python_definition_tokens(node@),
    {
        let definition_list: Vec<(&str, &str)> = vec![
            ("class_definition", "block"),
            ("function_definition", "block"),
        ];
        let keywords: Vec<&str> = vec!["class", "def"];
        let r = get_defination_tokens(&definition_list, &keywords, node);
        proof {
            assert(rules_view(definition_list@) =~= python_rules());
            assert(kws_view(keywords@) =~= python_keywords());
        }
        r
    }

    /// The node's reconstructed signature under the Python rules.
    pub fn get_definition(&self, node: &SyntaxNode) -> (r: String)
        ensures
            r@ == python_definition(node@),
    {
        let definition_list: Vec<(&str, &str)> = vec![
            ("class_definition", "block"),
            ("function_definition", "block"),
        ];
        let keywords: Vec<&str> = vec!["class", "def"];
        let r = get_defination_string(&definition_list, &keywords, node);
        proof {
            assert(rules_view(definition_list@) =~= python_rules());
        }
        r
    }
}

} // verus!
