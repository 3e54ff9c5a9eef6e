//! The C# language descriptor.

use vstd::prelude::*;
use vstd::string::StringExecFns;

use crate::node::NodeView;
use crate::node::SyntaxNode;
use crate::render::Token;
use crate::render::generic_def_string;
use crate::render::generic_def_tokens;
use crate::render::get_defination_string;
use crate::render::get_defination_tokens;
use crate::render::kws_view;
use crate::render::rules_view;
use crate::render::tokens_view;
use crate::text::str_eq;

verus! {

/// The C# descriptor.
pub struct CSharpQuery;

/// Query patterns for C#: structs, classes and methods.
pub open spec fn csharp_patterns() -> Seq<Seq<char>> {
    seq![
        r#"
            ((struct_declaration
             name:(identifier) @struct)
             (#match? @struct ":?"))
            "#@,
        r#"
            ((class_declaration
             name:(identifier) @class)
             (#match? @class ":?"))
            "#@,
        r#"
            ((method_declaration
             name:(identifier) @method)
             (#match? @method ":?"))
            "#@,
    ]
}

/// Outline-worthy node kinds for C#.
pub open spec fn csharp_is_key(kind: Seq<char>) -> bool {
    ||| kind == "struct_declaration"@
    ||| kind == "class_declaration"@
    ||| kind == "method_declaration"@
    ||| kind == "namespace_declaration"@
}

/// Signature-truncation rules for C#.  Each boundary is the kind that
/// opens the definition's body, so the declaration head survives.
pub open spec fn csharp_rules() -> Seq<(Seq<char>, Seq<char>)> {
    seq![
        ("namespace_declaration"@, "declaration_list"@),
        ("struct_declaration"@, "declaration_list"@),
        ("class_declaration"@, "declaration_list"@),
        ("method_declaration"@, "block"@),
    ]
}

/// Keyword set for C#.
pub open spec fn csharp_keywords() -> Seq<Seq<char>> {
    seq!["struct"@, "class"@, "public"@, "private"@, "protected"@, "internal"@, "static"@, "void"@]
}

/// The token stream of a C# definition node.
pub open spec fn csharp_definition_tokens(node: NodeView) -> Seq<(Seq<char>, bool)> {
    generic_def_tokens(csharp_rules(), csharp_keywords(), node)
}

/// The rendered signature of a C# definition node.
pub open spec fn csharp_definition(node: NodeView) -> Seq<char> {
    generic_def_string(csharp_rules(), node)
}

impl CSharpQuery {
    /// The C# query patterns, one `:?` placeholder each.
    pub fn get_queries(&self) -> (r: Vec<String>)
        ensures
            r@.map_values(|s: String| s@) == csharp_patterns(),
    {
        let r: Vec<String> = vec![
            String::from_str(
                r#"
            ((struct_declaration
             name:(identifier) @struct)
             (#match? @struct ":?"))
            "#,
            ),
            String::from_str(
                r#"
            ((class_declaration
             name:(identifier) @class)
             (#match? @class ":?"))
            "#,
            ),
            String::from_str(
                r#"
            ((method_declaration
             name:(identifier) @method)
             (#match? @method ":?"))
            "#,
            ),
        ];
        proof {
            assert(r@.map_values(|s: String| s@) =~= csharp_patterns());
        }
        r
    }

    /// Is the node of an outline-worthy C# kind?
    pub fn is_key_node(&self, node: &SyntaxNode) -> (r: bool)
        ensures
            r == csharp_is_key(node@.kind),
    {
        let k = node.kind.as_str();
        str_eq(k, "struct_declaration") || str_eq(k, "class_declaration") || str_eq(
            k,
            "method_declaration",
        ) || str_eq(k, "namespace_declaration")
    }

    /// The node's signature as marked tokens under the C# rules.
    pub fn get_definition_tokens(&self, node: &SyntaxNode) -> (r: Vec<Token>)
        ensures
            tokens_view(r@) == csharp_definition_tokens(node@),
    {
        let definition_list: Vec<(&str, &str)> = vec![
            ("namespace_declaration", "declaration_list"),
            ("struct_declaration", "declaration_list"),
            ("class_declaration", "declaration_list"),
            ("method_declaration", "block"),
        ];
        let keywords: Vec<&str> = vec![
            "struct",
            "class",
            "public",
            "private",
            "protected",
            "internal",
            "static",
            "void",
        ];
        let r = get_defination_tokens(&definition_list, &keywords, node);
        proof {
            assert(rules_view(definition_list@) =~= csharp_rules());
            assert(kws_view(keywords@) =~= csharp_keywords());
        }
        r
    }

    /// The node's reconstructed signature under the C# rules.
    pub fn get_definition(&self, node: &SyntaxNode) -> (r: String)
        ensures
            r@ == csharp_definition(node@),
    {
        let definition_list: Vec<(&str, &str)> = vec![
            ("namespace_declaration", "declaration_list"),
            ("struct_declaration", "declaration_list"),
            ("class_declaration", "declaration_list"),
            ("method_declaration", "block"),
        ];
        let keywords: Vec<&str> = vec![
            "struct",
            "class",
            "public",
            "private",
            "protected",
            "internal",
            "static",
            "void",
        ];
        let r = get_defination_string(&definition_list, &keywords, node);
        proof {
            assert(rules_view(definition_list@) =~= csharp_rules());
        }
        r
    }
}

} // verus!
