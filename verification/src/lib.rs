//! A multi-language source-code symbol extractor and outline renderer.
//!
//! Given a source text and a language, the crate locates symbol definitions
//! matching a search key and can render a whole-file outline in which each
//! definition's signature is reconstructed with its body elided.  Parsing and
//! query execution are delegated to the tree-sitter library; everything the
//! crate computes from the resulting trees is verified.

pub mod engine;
pub mod hinter;
pub mod index;
pub mod lang;
pub mod linesearch;
pub mod node;
pub mod outline;
pub mod render;
pub mod sitter;
pub mod text;

pub use engine::get_all_symbols;
pub use engine::get_all_symbols_report;
pub use hinter::CodeHinter;
pub use hinter::CommandHint;
pub use hinter::diy_hints;
pub use index::CodeIndex;
pub use index::SourceFile;
pub use index::build_index;
pub use index::extension_of;
pub use index::index_file;
pub use index::search_index;
pub use index::should_collect;
pub use index::valid_language_file;
pub use lang::CQuery;
pub use lang::CSharpQuery;
pub use lang::CppQuery;
pub use lang::GoQuery;
pub use lang::JavaQuery;
pub use lang::JavascriptQuery;
pub use lang::Lang;
pub use lang::PythonQuery;
pub use lang::RustQuery;
pub use lang::get_symbol_query;
pub use linesearch::find_text_in_lines;
pub use node::OutlineEntry;
pub use node::SyntaxNode;
pub use outline::OutlineTokenEntry;
pub use outline::get_outline;
pub use outline::get_outline_tokens;
pub use outline::recursion_outline;
pub use outline::recursion_outline_tokens;
pub use render::Token;
pub use render::get_defination_string;
pub use render::get_defination_tokens;
