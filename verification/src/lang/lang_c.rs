//! The C language descriptor.

use vstd::prelude::*;
use vstd::string::StringExecFns;

use crate::node::NodeView;
use crate::node::SyntaxNode;
use crate::render::Token;
use crate::render::generic_def_string;
use crate::render::generic_def_tokens;
use crate::render::get_defination_string;
use crate::render::get_defination_tokens;
use crate::render::kws_view;
use crate::render::rules_view;
use crate::render::tokens_view;
use crate::text::str_eq;

verus! {

/// The C descriptor.
pub struct CQuery;

/// Query patterns for C: function definitions and structs.
pub open spec fn c_patterns() -> Seq<Seq<char>> {
    seq![
        r#"
            ((function_definition
                declarator:(
                    function_declarator
                        declarator:(identifier) @function
                )
            )
            (#match? @function ":?"))
            "#@,
        r#"
                ((struct_specifier
                    name:(type_identifier) @struct)
                    (#match? @struct ":?"))
                "#@,
    ]
}

/// Outline-worthy node kinds for C.
pub open spec fn c_is_key(kind: Seq<char>) -> bool {
    kind == "function_definition"@
}

/// Signature-truncation rules for C.
pub open spec fn c_rules() -> Seq<(Seq<char>, Seq<char>)> {
    seq![("function_definition"@, "compound_statement"@)]
}

/// Keyword set for C.
pub open spec fn c_keywords() -> Seq<Seq<char>> {
    seq!["struct"@, "int"@, "char"@, "void"@, "float"@, "double"@, "long"@, "unsigned"@, "signed"@]
}

/// The token stream of a C definition node.
pub open spec fn c_definition_tokens(node: NodeView) -> Seq<(Seq<char>, bool)> {
    generic_def_tokens(c_rules(), c_keywords(), node)
}

/// The rendered signature of a C definition node.
pub open spec fn c_definition(node: NodeView) -> Seq<char> {
    generic_def_string(c_rules(), node)
}

impl CQuery {
    /// The C query patterns, one `:?` placeholder each.
    pub fn get_queries(&self) -> (r: Vec<String>)
        ensures
            r@.map_values(|s: String| s@) == c_patterns(),
    {
        let r: Vec<String> = vec![
            String::from_str(
                r#"
            ((function_definition
                declarator:(
                    function_declarator
                        declarator:(identifier) @function
                )
            )
            (#match? @function ":?"))
            "#,
            ),
            String::from_str(
                r#"
                ((struct_specifier
                    name:(type_identifier) @struct)
                    (#match? @struct ":?"))
                "#,
            ),
        ];
        proof {
            assert(r@.map_values(|s: String| s@) =~= c_patterns());
        }
        r
    }

    /// Is the node of an outline-worthy C kind?
    pub fn is_key_node(&self, node: &SyntaxNode) -> (r: bool)
        ensures
            r == c_is_key(node@.kind),
    {
        str_eq(node.kind.as_str(), "function_definition")
    }

    /// The node's signature as marked tokens under the C rules.
    pub fn get_definition_tokens(&self, node: &SyntaxNode) -> (r: Vec<Token>)
        ensures
            tokens_view(r@) == c_definition_tokens(node@),
    {
        let definition_list: Vec<(&str, &str)> = vec![
            ("function_definition", "compound_statement"),
        ];
        let keywords: Vec<&str> = vec![
            "struct",
            "int",
            "char",
            "void",
            "float",
            "double",
            "long",
            "unsigned",
            "signed",
        ];
        let r = get_defination_tokens(&definition_list, &keywords, node);
        proof {
            assert(rules_view(definition_list@) =~= c_rules());
            assert(kws_view(keywords@) =~= c_keywords());
        }
        r
    }

    /// The node's reconstructed signature under the C rules.
    pub fn get_definition(&self, node: &SyntaxNode) -> (r: String)
        ensures
            r@ == c_definition(node@),
    {
        let definition_list: Vec<(&str, &str)> = vec![
            ("function_definition", "compound_statement"),
        ];
        let keywords: Vec<&str> = vec![
            "struct",
            "int",
            "char",
            "void",
            "float",
            "double",
            "long",
            "unsigned",
            "signed",
        ];
        let r = get_defination_string(&definition_list, &keywords, node);
        proof {
            assert(rules_view(definition_list@) =~= c_rules());
        }
        r
    }
}

} // verus!
