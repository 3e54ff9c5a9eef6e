//! The C++ language descriptor.

use vstd::prelude::*;
use vstd::string::StringExecFns;

use crate::node::NodeView;
use crate::node::SyntaxNode;
use crate::render::Token;
use crate::render::generic_def_string;
use crate::render::generic_def_tokens;
use crate::render::get_defination_string;
use crate::render::get_defination_tokens;
use crate::render::kws_view;
use crate::render::rules_view;
use crate::render::tokens_view;
use crate::text::str_eq;

verus! {

/// The C++ descriptor.
pub struct CppQuery;

/// Query patterns for C++: function definitions, structs and classes.
pub open spec fn cpp_patterns() -> Seq<Seq<char>> {
    seq![
        r#"
            ((function_definition
                declarator:(
                    function_declarator
                        declarator:(identifier) @function
                )
            )
            (#match? @function ":?"))
            "#@,
        r#"
                ((struct_specifier
                    name:(type_identifier) @struct)
                    (#match? @struct ":?"))
                "#@,
        r#"
                ((class_specifier
                    name:(type_identifier) @class)
                    (#match? @class ":?"))
                "#@,
    ]
}

/// Outline-worthy node kinds for C++.
pub open spec fn cpp_is_key(kind: Seq<char>) -> bool {
    ||| kind == "function_definition"@
    ||| kind == "struct_specifier"@
    ||| kind == "class_specifier"@
    ||| kind == "field_declaration"@
}

/// Signature-truncation rules for C++.
pub open spec fn cpp_rules() -> Seq<(Seq<char>, Seq<char>)> {
    seq![
        ("function_definition"@, "compound_statement"@),
        ("struct_specifier"@, "field_declaration_list"@),
        ("class_specifier"@, "field_declaration_list"@),
        ("field_declaration"@, ";"@),
    ]
}

/// Keyword set for C++.
pub open spec fn cpp_keywords() -> Seq<Seq<char>> {
    seq!["struct"@, "class"@, "public"@, "private"@, "protected"@, "virtual"@, "static"@, "const"@, "void"@]
}

/// The token stream of a C++ definition node.
pub open spec fn cpp_definition_tokens(node: NodeView) -> Seq<(Seq<char>, bool)> {
    generic_def_tokens(cpp_rules(), cpp_keywords(), node)
}

/// The rendered signature of a C++ definition node.
pub open spec fn cpp_definition(node: NodeView) -> Seq<char> {
    generic_def_string(cpp_rules(), node)
}

impl CppQuery {
    /// The C++ query patterns, one `:?` placeholder each.
    pub fn get_queries(&self) -> (r: Vec<String>)
        ensures
            r@.map_values(|s: String| s@) == cpp_patterns(),
    {
        let r: Vec<String> = vec![
            String::from_str(
                r#"
            ((function_definition
                declarator:(
                    function_declarator
                        declarator:(identifier) @function
                )
            )
            (#match? @function ":?"))
            "#,
            ),
            String::from_str(
                r#"
                ((struct_specifier
                    name:(type_identifier) @struct)
                    (#match? @struct ":?"))
                "#,
            ),
            String::from_str(
                r#"
                ((class_specifier
                    name:(type_identifier) @class)
                    (#match? @class ":?"))
                "#,
            ),
        ];
        proof {
            assert(r@.map_values(|s: String| s@) =~= cpp_patterns());
        }
        r
    }

    /// Is the node of an outline-worthy C++ kind?
    pub fn is_key_node(&self, node: &SyntaxNode) -> (r: bool)
        ensures
            r == cpp_is_key(node@.kind),
    {
        let k = node.kind.as_str();
        str_eq(k, "function_definition") || str_eq(k, "struct_specifier") || str_eq(
            k,
            "class_specifier",
        ) || str_eq(k, "field_declaration")
    }

    /// The node's signature as marked tokens under the C++ rules.
    pub fn get_definition_tokens(&self, node: &SyntaxNode) -> (r: Vec<Token>)
        ensures
            tokens_view(r@) == cpp_definition_tokens(node@),
    {
        let definition_list: Vec<(&str, &str)> = vec![
            ("function_definition", "compound_statement"),
            ("struct_specifier", "field_declaration_list"),
            ("class_specifier", "field_declaration_list"),
            ("field_declaration", ";"),
        ];
        let keywords: Vec<&str> = vec![
            "struct",
            "class",
            "public",
            "private",
            "protected",
            "virtual",
            "static",
            "const",
            "void",
        ];
        let r = get_defination_tokens(&definition_list, &keywords, node);
        proof {
            assert(rules_view(definition_list@) =~= cpp_rules());
            assert(kws_view(keywords@) =~= cpp_keywords());
        }
        r
    }

    /// The node's reconstructed signature under the C++ rules.
    pub fn get_definition(&self, node: &SyntaxNode) -> (r: String)
        ensures
            r@ == cpp_definition(node@),
    {
        let definition_list: Vec<(&str, &str)> = vec![
            ("function_definition", "compound_statement"),
            ("struct_specifier", "field_declaration_list"),
            ("class_specifier", "field_declaration_list"),
            ("field_declaration", ";"),
        ];
        let keywords: Vec<&str> = vec![
            "struct",
            "class",
            "public",
            "private",
            "protected",
            "virtual",
            "static",
            "const",
            "void",
        ];
        let r = get_defination_string(&definition_list, &keywords, node);
        proof {
            assert(rules_view(definition_list@) =~= cpp_rules());
        }
        r
    }
}

} // verus!
