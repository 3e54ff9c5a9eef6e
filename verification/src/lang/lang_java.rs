//! The Java language descriptor.

use vstd::prelude::*;
use vstd::string::StringExecFns;

use crate::node::NodeView;
use crate::node::SyntaxNode;
use crate::render::Token;
use crate::render::generic_def_string;
use crate::render::generic_def_tokens;
use crate::render::get_defination_string;
use crate::render::get_defination_tokens;
use crate::render::kws_view;
use crate::render::rules_view;
use crate::render::tokens_view;
use crate::text::str_eq;

verus! {

/// The Java descriptor.
pub struct JavaQuery;

/// Query patterns for Java: methods, classes and interfaces.
pub open spec fn java_patterns() -> Seq<Seq<char>> {
    seq![
        r#"
            ((method_declaration
             name:(identifier) @method)
             (#match? @method ":?"))
            "#@,
        r#"
                ((class_declaration
                    name:(identifier) @class)
                    (#match? @class ":?"))
                "#@,
        r#"
                ((interface_declaration
                    name:(identifier) @interface)
                    (#match? @interface ":?"))
                "#@,
    ]
}

/// Outline-worthy node kinds for Java.
pub open spec fn java_is_key(kind: Seq<char>) -> bool {
    ||| kind == "class_declaration"@
    ||| kind == "method_declaration"@
    ||| kind == "interface_declaration"@
}

/// Signature-truncation rules for Java.  Each boundary is the kind that
/// opens the definition's body, so the declaration head survives.
pub open spec fn java_rules() -> Seq<(Seq<char>, Seq<char>)> {
    seq![
        ("class_declaration"@, "class_body"@),
        ("method_declaration"@, "block"@),
        ("interface_declaration"@, "interface_body"@),
    ]
}

/// Keyword set for Java.
pub open spec fn java_keywords() -> Seq<Seq<char>> {
    seq!["static"@, "class"@, "extends"@, "public"@, "private"@, "protected"@, "interface"@]
}

/// The token stream of a Java definition node.
pub open spec fn java_definition_tokens(node: NodeView) -> Seq<(Seq<char>, bool)> {
    generic_def_tokens(java_rules(), java_keywords(), node)
}

/// The rendered signature of a Java definition node.
pub open spec fn java_definition(node: NodeView) -> Seq<char> {
    generic_def_string(java_rules(), node)
}

impl JavaQuery {
    /// The Java query patterns, one `:?` placeholder each.
    pub fn get_queries(&self) -> (r: Vec<String>)
        ensures
            r@.map_values(|s: String| s@) == java_patterns(),
    {
        let r: Vec<String> = vec![
            String::from_str(
                r#"
            ((method_declaration
             name:(identifier) @method)
             (#match? @method ":?"))
            "#,
            ),
            String::from_str(
                r#"
                ((class_declaration
                    name:(identifier) @class)
                    (#match? @class ":?"))
                "#,
            ),
            String::from_str(
                r#"
                ((interface_declaration
                    name:(identifier) @interface)
                    (#match? @interface ":?"))
                "#,
            ),
        ];
        proof {
            assert(r@.map_values(|s: String| s@) =~= java_patterns());
        }
        r
    }

    /// Is the node of an outline-worthy Java kind?
    pub fn is_key_node(&self, node: &SyntaxNode) -> (r: bool)
        ensures
            r == java_is_key(node@.kind),
    {
        let k = node.kind.as_str();
        str_eq(k, "class_declaration") || str_eq(k, "method_declaration") || str_eq(
            k,
            "interface_declaration",
        )
    }

    /// The node's signature as marked tokens under the Java rules.
    pub fn get_definition_tokens(&self, node: &SyntaxNode) -> (r: Vec<Token>)
        ensures
            tokens_view(r@) == java_definition_tokens(node@),
    {
        let definition_list: Vec<(&str, &str)> = vec![
            ("class_declaration", "class_body"),
            ("method_declaration", "block"),
            ("interface_declaration", "interface_body"),
        ];
        let keywords: Vec<&str> = vec![
            "static",
            "class",
            "extends",
            "public",
            "private",
            "protected",
            "interface",
        ];
        let r = get_defination_tokens(&definition_list, &keywords, node);
        proof {
            assert(rules_view(definition_list@) =~= java_rules());
            assert(kws_view(keywords@) =~= java_keywords());
        }
        r
    }

    /// The node's reconstructed signature under the Java rules.
    pub fn get_definition(&self, node: &SyntaxNode) -> (r: String)
        ensures
            r@ == java_definition(node@),
    {
        let definition_list: Vec<(&str, &str)> = vec![
            ("class_declaration", "class_body"),
            ("method_declaration", "block"),
            ("interface_declaration", "interface_body"),
        ];
        let keywords: Vec<&str> = vec![
            "static",
            "class",
            "extends",
            "public",
            "private",
            "protected",
            "interface",
        ];
        let r = get_defination_string(&definition_list, &keywords, node);
        proof {
            assert(rules_view(definition_list@) =~= java_rules());
        }
        r
    }
}

} // verus!
