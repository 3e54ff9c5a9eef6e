//! Language descriptors and language selection.
//!
//! Each supported language bundles its query patterns, its set of
//! outline-worthy ("key") node kinds, its signature-truncation rules and its
//! keyword set.  Selection from a file extension is a total function:
//! extensions without a specific mapping resolve to the Rust descriptor
//! rather than failing.

use vstd::prelude::*;

use crate::node::NodeView;
use crate::node::SyntaxNode;
use crate::text::str_eq;

pub mod lang_c;
pub mod lang_cpp;
pub mod lang_csharp;
pub mod lang_go;
pub mod lang_java;
pub mod lang_js;
pub mod lang_py;
pub mod lang_rust;

pub use lang_c::CQuery;
pub use lang_cpp::CppQuery;
pub use lang_csharp::CSharpQuery;
pub use lang_go::GoQuery;
pub use lang_java::JavaQuery;
pub use lang_js::JavascriptQuery;
pub use lang_py::PythonQuery;
pub use lang_rust::RustQuery;

verus! {

/// The closed set of supported languages.
#[derive(Clone, Copy, PartialEq, Eq, Structural, Debug)]
pub enum Lang {
    Rust,
    Java,
    Python,
    Javascript,
    C,
    Cpp,
    Go,
    CSharp,
}

/// A distinct numeric tag for each language, used to state what the
/// grammar-dependent trusted calls return.
pub open spec fn lang_id(l: Lang) -> int {
    match l {
        Lang::Rust => 0,
        Lang::Java => 1,
        Lang::Python => 2,
        Lang::Javascript => 3,
        Lang::C => 4,
        Lang::Cpp => 5,
        Lang::Go => 6,
        Lang::CSharp => 7,
    }
}

/// The query patterns of a language, in declaration order.
pub open spec fn lang_patterns(l: Lang) -> Seq<Seq<char>> {
    match l {
        Lang::Rust => lang_rust::rust_patterns(),
        Lang::Java => lang_java::java_patterns(),
        Lang::Python => lang_py::python_patterns(),
        Lang::Javascript => lang_js::javascript_patterns(),
        Lang::C => lang_c::c_patterns(),
        Lang::Cpp => lang_cpp::cpp_patterns(),
        Lang::Go => lang_go::go_patterns(),
        Lang::CSharp => lang_csharp::csharp_patterns(),
    }
}

/// Does the language consider a node of this kind outline-worthy?
pub open spec fn lang_is_key(l: Lang, kind: Seq<char>) -> bool {
    match l {
        Lang::Rust => lang_rust::rust_is_key(kind),
        Lang::Java => lang_java::java_is_key(kind),
        Lang::Python => lang_py::python_is_key(kind),
        Lang::Javascript => lang_js::javascript_is_key(kind),
        Lang::C => lang_c::c_is_key(kind),
        Lang::Cpp => lang_cpp::cpp_is_key(kind),
        Lang::Go => lang_go::go_is_key(kind),
        Lang::CSharp => lang_csharp::csharp_is_key(kind),
    }
}

/// The marked token stream of a definition node under the language's rules.
pub open spec fn lang_definition_tokens(l: Lang, node: NodeView) -> Seq<(Seq<char>, bool)> {
    match l {
        Lang::Rust => lang_rust::rust_definition_tokens(node),
        Lang::Java => lang_java::java_definition_tokens(node),
        Lang::Python => lang_py::python_definition_tokens(node),
        Lang::Javascript => lang_js::javascript_definition_tokens(node),
        Lang::C => lang_c::c_definition_tokens(node),
        Lang::Cpp => lang_cpp::cpp_definition_tokens(node),
        Lang::Go => lang_go::go_definition_tokens(node),
        Lang::CSharp => lang_csharp::csharp_definition_tokens(node),
    }
}

/// The rendered signature of a definition node under the language's rules.
pub open spec fn lang_definition(l: Lang, node: NodeView) -> Seq<char> {
    match l {
        Lang::Rust => lang_rust::rust_definition(node),
        Lang::Java => lang_java::java_definition(node),
        Lang::Python => lang_py::python_definition(node),
        Lang::Javascript => lang_js::javascript_definition(node),
        Lang::C => lang_c::c_definition(node),
        Lang::Cpp => lang_cpp::cpp_definition(node),
        Lang::Go => lang_go::go_definition(node),
        Lang::CSharp => lang_csharp::csharp_definition(node),
    }
}

impl Lang {
    /// The language's query patterns, each containing one `:?` placeholder
    /// for the search key.
    pub fn get_queries(&self) -> (r: Vec<String>)
        ensures
            r@.map_values(|s: String| s@) == lang_patterns(*self),
    {
        match self {
            Lang::Rust => (RustQuery).get_queries(),
            Lang::Java => (JavaQuery).get_queries(),
            Lang::Python => (PythonQuery).get_queries(),
            Lang::Javascript => (JavascriptQuery).get_queries(),
            Lang::C => (CQuery).get_queries(),
            Lang::Cpp => (CppQuery).get_queries(),
            Lang::Go => (GoQuery).get_queries(),
            Lang::CSharp => (CSharpQuery).get_queries(),
        }
    }

    /// Does the language's outline include nodes of this node's kind?
    pub fn is_key_node(&self, node: &SyntaxNode) -> (r: bool)
        ensures
            r == lang_is_key(*self, node@.kind),
    {
        match self {
            Lang::Rust => (RustQuery).is_key_node(node),
            Lang::Java => (JavaQuery).is_key_node(node),
            Lang::Python => (PythonQuery).is_key_node(node),
            Lang::Javascript => (JavascriptQuery).is_key_node(node),
            Lang::C => (CQuery).is_key_node(node),
            Lang::Cpp => (CppQuery).is_key_node(node),
            Lang::Go => (GoQuery).is_key_node(node),
            Lang::CSharp => (CSharpQuery).is_key_node(node),
        }
    }

    /// The node's signature as marked tokens under the language's rules:
    /// the same rendering as `get_definition`, with each token flagged as a
    /// reserved keyword or not, for presentation-layer emphasis.
    pub fn get_definition_tokens(&self, node: &SyntaxNode) -> (r: Vec<crate::render::Token>)
        ensures
            crate::render::tokens_view(r@) == lang_definition_tokens(*self, node@),
    {
        match self {
            Lang::Rust => (RustQuery).get_definition_tokens(node),
            Lang::Java => (JavaQuery).get_definition_tokens(node),
            Lang::Python => (PythonQuery).get_definition_tokens(node),
            Lang::Javascript => (JavascriptQuery).get_definition_tokens(node),
            Lang::C => (CQuery).get_definition_tokens(node),
            Lang::Cpp => (CppQuery).get_definition_tokens(node),
            Lang::Go => (GoQuery).get_definition_tokens(node),
            Lang::CSharp => (CSharpQuery).get_definition_tokens(node),
        }
    }

    /// The node's reconstructed signature under the language's rules.
    pub fn get_definition(&self, node: &SyntaxNode) -> (r: String)
        ensures
            r@ == lang_definition(*self, node@),
    {
        match self {
            Lang::Rust => (RustQuery).get_definition(node),
            Lang::Java => (JavaQuery).get_definition(node),
            Lang::Python => (PythonQuery).get_definition(node),
            Lang::Javascript => (JavascriptQuery).get_definition(node),
            Lang::C => (CQuery).get_definition(node),
            Lang::Cpp => (CppQuery).get_definition(node),
            Lang::Go => (GoQuery).get_definition(node),
            Lang::CSharp => (CSharpQuery).get_definition(node),
        }
    }
}

/// The language selected by a file extension; extensions without a specific
/// mapping resolve to Rust.  A known quirk follows: non-code files accepted
/// by the extension allowlist are parsed with the default grammar.
pub open spec fn ext_lang(e: Seq<char>) -> Lang {
    if e == "rs"@ {
        Lang::Rust
    } else if e == "java"@ {
        Lang::Java
    } else if e == "py"@ {
        Lang::Python
    } else if e == "c"@ {
        Lang::C
    } else if e == "cpp"@ {
        Lang::Cpp
    } else if e == "js"@ {
        Lang::Javascript
    } else if e == "go"@ {
        Lang::Go
    } else {
        Lang::Rust
    }
}

/// Selects the language descriptor for a file extension; a total function
/// with Rust as the default.
pub fn get_symbol_query(extention: &str) -> (l: Lang)
    ensures
        l == ext_lang(extention@),
{
    if str_eq(extention, "rs") {
        Lang::Rust
    } else if str_eq(extention, "java") {
        Lang::Java
    } else if str_eq(extention, "py") {
        Lang::Python
    } else if str_eq(extention, "c") {
        Lang::C
    } else if str_eq(extention, "cpp") {
        Lang::Cpp
    } else if str_eq(extention, "js") {
        Lang::Javascript
    } else if str_eq(extention, "go") {
        Lang::Go
    } else {
        Lang::Rust
    }
}

} // verus!
