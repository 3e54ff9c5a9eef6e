//! The trusted boundary to the tree-sitter parser.
//!
//! Parsing and query execution are performed by the tree-sitter library and
//! the per-language grammar crates.  Both are deterministic: the same
//! language and source always produce the same tree, and the same language,
//! query and source always produce the same captures.  Those results are
//! therefore given names (`tree_of`, `captures_of`, `query_ok`) that the
//! wrappers' contracts speak of; everything computed from them is verified.

use vstd::prelude::*;

use tree_sitter::StreamingIterator;
use tree_sitter_c::LANGUAGE as C_LANGUAGE;
use tree_sitter_c_sharp::LANGUAGE as CSHARP_LANGUAGE;
use tree_sitter_cpp::LANGUAGE as CPP_LANGUAGE;
use tree_sitter_go::LANGUAGE as GO_LANGUAGE;
use tree_sitter_java::LANGUAGE as JAVA_LANGUAGE;
use tree_sitter_javascript::LANGUAGE as JS_LANGUAGE;
use tree_sitter_python::LANGUAGE as PY_LANGUAGE;
use tree_sitter_rust::LANGUAGE as RUST_LANGUAGE;

use crate::lang::Lang;
use crate::lang::lang_id;
use crate::node::NodeView;
use crate::node::SyntaxNode;

verus! {

/// The tree that parsing `source` with the grammar of the language numbered
/// `lang` yields.  Tree-sitter parsing is deterministic, so this is a
/// function of its arguments.
pub uninterp spec fn tree_of(lang: int, source: Seq<char>) -> NodeView;

/// Whether the language numbered `lang` accepts `query` as a well-formed
/// query.  Compilation failure depends on the query text alone.
pub uninterp spec fn query_ok(lang: int, query: Seq<char>) -> bool;

/// The captures that executing `query` against the parse of `source` under
/// the language numbered `lang` yields: (0-based start row, verbatim node
/// text) pairs, in capture order.
pub uninterp spec fn captures_of(lang: int, query: Seq<char>, source: Seq<char>) -> Seq<
    (usize, Seq<char>),
>;

/// The mathematical image of a (row, text) result list.
pub open spec fn raw_entries_view(v: Seq<(usize, String)>) -> Seq<(usize, Seq<char>)> {
    v.map_values(|e: (usize, String)| (e.0, e.1@))
}

#[verifier::external_type_specification]
#[verifier::external_body]
pub struct ExNode<'a>(tree_sitter::Node<'a>);

#[verifier::external_type_specification]
#[verifier::external_body]
pub struct ExLanguage(tree_sitter::Language);

/// Relies on tree_sitter::Language::new and the eight grammar crates'
/// LANGUAGE constants: the grammar object of each supported language.
#[verifier::external_body]
fn grammar(lang: Lang) -> tree_sitter::Language {
    tree_sitter::Language::new(match lang {
        Lang::Rust => RUST_LANGUAGE, Lang::Java => JAVA_LANGUAGE,
        Lang::Python => PY_LANGUAGE, Lang::Javascript => JS_LANGUAGE,
        Lang::C => C_LANGUAGE, Lang::Cpp => CPP_LANGUAGE,
        Lang::Go => GO_LANGUAGE, Lang::CSharp => CSHARP_LANGUAGE,
    })
}

/// Relies on tree_sitter::Node's accessors (kind, start_position, utf8_text,
/// child_by_field_name, children): copies one node and its subtree, byte
/// ranges resolved to text, into the crate's own tree type.
#[verifier::external_body]
fn convert_node(node: tree_sitter::Node<'_>, code: &[u8]) -> SyntaxNode {
    SyntaxNode {
        kind: node.kind().to_string(),
        text: node.utf8_text(code).unwrap_or("").to_string(),
        row: node.start_position().row,
        name_text: node.child_by_field_name("name").map(
            |n| n.utf8_text(code).unwrap_or("").to_string(),
        ),
        children: node.children(&mut node.walk()).map(|c| convert_node(c, code)).collect(),
    }
}

/// Relies on tree_sitter::Parser (set_language, parse) and the grammar
/// crates' LANGUAGE constants: parses `code` with the grammar of `lang`.
/// Parsing is deterministic, so the result is the tree named by `tree_of`.
/// The unwraps cannot fire: set_language accepts all eight bundled grammars
/// (their ABI versions lie in the supported range), and with a language set
/// and no timeout or cancellation configured, parse always returns a tree.
#[verifier::external_body]
pub fn parse_source(lang: Lang, code: &str) -> (r: SyntaxNode)
    ensures
        r@ == tree_of(lang_id(lang), code@),
{
    let mut parser = tree_sitter::Parser::new();
    parser.set_language(&grammar(lang)).unwrap();
    let tree = parser.parse(code, None).unwrap();
    convert_node(tree.root_node(), code.as_bytes())
}

/// Relies on tree_sitter::Parser, Query::new and QueryCursor::captures:
/// compiles `query_text` against the grammar of `lang` (compilation failure
/// depends on the query text alone, the name `query_ok`) and returns every
/// capture's 0-based start row and verbatim text, in capture order, the
/// sequence named `captures_of`.  Each returned text is sliced out of
/// `code` itself (an unrepresentable slice is absorbed to the empty
/// string), so it occurs in `code`.  The unwraps cannot fire: a language is
/// set, no timeout or cancellation is configured, and capture ranges index
/// the UTF-8 source that was just parsed.
#[verifier::external_body]
pub fn run_query(lang: Lang, query_text: &str, code: &str) -> (r: Option<Vec<(usize, String)>>)
    ensures
        r is Some <==> query_ok(lang_id(lang), query_text@),
        r matches Some(v) ==> raw_entries_view(v@) == captures_of(
            lang_id(lang),
            query_text@,
            code@,
        ),
        r matches Some(v) ==> forall|j: int|
            0 <= j < v@.len() ==> crate::text::seq_contains(code@, v@[j].1@),
{
    let lg = grammar(lang);
    let mut parser = tree_sitter::Parser::new();
    parser.set_language(&lg).unwrap();
    let tree = parser.parse(code, None).unwrap();
    let Ok(query) = tree_sitter::Query::new(&lg, query_text) else { return None };
    let mut cursor = tree_sitter::QueryCursor::new();
    let mut out: Vec<(usize, String)> = Vec::new();
    let mut caps = cursor.captures(&query, tree.root_node(), code.as_bytes());
    while let Some((m, ci)) = caps.next() {
        let node = m.captures()[*ci].node;
        out.push((node.start_position().row, node.utf8_text(code.as_bytes()).unwrap_or("").to_string()));
    }
    Some(out)
}

} // verus!
