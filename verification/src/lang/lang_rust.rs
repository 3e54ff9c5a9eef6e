//! The Rust language descriptor.

use vstd::prelude::*;
use vstd::string::StringExecFns;

use crate::node::NodeView;
use crate::node::SyntaxNode;
use crate::render::Token;
use crate::render::generic_def_string;
use crate::render::generic_def_tokens;
use crate::render::get_defination_string;
use crate::render::get_defination_tokens;
use crate::render::kws_view;
use crate::render::rules_view;
use crate::render::tokens_view;
use crate::text::str_eq;

verus! {

/// The Rust descriptor.
pub struct RustQuery;

/// Query patterns for Rust: functions and structs.
pub open spec fn rust_patterns() -> Seq<Seq<char>> {
    seq![
        r#"
            ((function_item
             name:(identifier) @function)
             (#match? @function ":?"))
            "#@,
        r#"
                ((struct_item
                    name:(type_identifier) @struct)
                    (#match? @struct ":?"))
                "#@,
    ]
}

/// Outline-worthy node kinds for Rust.
pub open spec fn rust_is_key(kind: Seq<char>) -> bool {
    ||| kind == "function_item"@
    ||| kind == "struct_item"@
    ||| kind == "impl_item"@
    ||| kind == "trait_item"@
    ||| kind == "function_signature_item"@
}

/// Signature-truncation rules for Rust.  Each boundary is the kind that
/// opens the definition's body, so the declaration head — modifiers, name
/// and parameter list — survives.
pub open spec fn rust_rules() -> Seq<(Seq<char>, Seq<char>)> {
    seq![
        ("function_item"@, "block"@),
        ("impl_item"@, "declaration_list"@),
        ("struct_item"@, "field_declaration_list"@),
        ("trait_item"@, "declaration_list"@),
        ("function_signature_item"@, ";"@),
    ]
}

/// Keyword set for Rust.
pub open spec fn rust_keywords() -> Seq<Seq<char>> {
    seq!["fn"@, "for"@, "impl"@, "where"@, "struct"@, "pub"@, "trait"@]
}

/// The token stream of a Rust definition node.
pub open spec fn rust_definition_tokens(node: NodeView) -> Seq<(Seq<char>, bool)> {
    generic_def_tokens(rust_rules(), rust_keywords(), node)
}

/// The rendered signature of a Rust definition node.
pub open spec fn rust_definition(node: NodeView) -> Seq<char> {
    generic_def_string(rust_rules(), node)
}

impl RustQuery {
    /// The Rust query patterns, one `:?` placeholder each.
    pub fn get_queries(&self) -> (r: Vec<String>)
        ensures
            r@.map_values(|s: String| s@) == rust_patterns(),
    {
        let r: Vec<String> = vec![
            String::from_str(
                r#"
            ((function_item
             name:(identifier) @function)
             (#match? @function ":?"))
            "#,
            ),
            String::from_str(
                r#"
                ((struct_item
                    name:(type_identifier) @struct)
                    (#match? @struct ":?"))
                "#,
            ),
        ];
        proof {
            assert(r@.map_values(|s: String| s@) =~= rust_patterns());
        }
        r
    }

    /// Is the node of an outline-worthy Rust kind?
    pub fn is_key_node(&self, node: &SyntaxNode) -> (r: bool)
        ensures
            r == rust_is_key(node@.kind),
    {
        let k = node.kind.as_str();
        str_eq(k, "function_item") || str_eq(k, "struct_item") || str_eq(k, "impl_item") || str_eq(
            k,
            "trait_item",
        ) || str_eq(k, "function_signature_item")
    }

    /// The node's signature as marked tokens under the Rust rules.
    pub fn get_definition_tokens(&self, node: &SyntaxNode) -> (r: Vec<Token>)
        ensures
            tokens_view(r@) == rust_definition_tokens(node@),
    {
        let definition_list: Vec<(&str, &str)> = vec![
            ("function_item", "block"),
            ("impl_item", "declaration_list"),
            ("struct_item", "field_declaration_list"),
            ("trait_item", "declaration_list"),
            ("function_signature_item", ";"),
        ];
        let keywords: Vec<&str> = vec!["fn", "for", "impl", "where", "struct", "pub", "trait"];
        let r = get_defination_tokens(&definition_list, &keywords, node);
        proof {
            assert(rules_view(definition_list@) =~= rust_rules());
            assert(kws_view(keywords@) =~= rust_keywords());
        }
        r
    }

    /// The node's reconstructed signature under the Rust rules.
    pub fn get_definition(&self, node: &SyntaxNode) -> (r: String)
        ensures
            r@ == rust_definition(node@),
    {
        let definition_list: Vec<(&str, &str)> = vec![
            ("function_item", "block"),
            ("impl_item", "declaration_list"),
            ("struct_item", "field_declaration_list"),
            ("trait_item", "declaration_list"),
            ("function_signature_item", ";"),
        ];
        let keywords: Vec<&str> = vec!["fn", "for", "impl", "where", "struct", "pub", "trait"];
        let r = get_defination_string(&definition_list, &keywords, node);
        proof {
            assert(rules_view(definition_list@) =~= rust_rules());
        }
        r
    }
}

} // verus!
