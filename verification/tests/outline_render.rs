//! Outline and renderer behaviour: body truncation, pre-order entry order,
//! Go's bespoke renderings, and the token splitter's known quirks.

use code_search::Lang;
use code_search::SyntaxNode;
use code_search::get_defination_string;
use code_search::get_defination_tokens;
use code_search::get_outline;
use code_search::get_outline_tokens;
use code_search::recursion_outline;

fn leaf(kind: &str, text: &str) -> SyntaxNode {
    SyntaxNode {
        kind: kind.to_string(),
        text: text.to_string(),
        row: 0,
        name_text: None,
        children: Vec::new(),
    }
}

#[test]
fn render_elides_function_body() {
    let entries = get_outline("fn foo(x: i32) { return 1 + 1; }\n", Lang::Rust);
    assert_eq!(entries.len(), 1);
    assert_eq!(entries[0].text, "fn foo (x: i32) ");
    assert!(!entries[0].text.contains("return"));
    assert!(!entries[0].text.contains("1 + 1"));
}

#[test]
fn outline_is_preorder_left_to_right() {
    let entries = get_outline("struct A { }\nfn b() { }\n", Lang::Rust);
    assert_eq!(entries.len(), 2);
    assert_eq!(entries[0].text, "struct A ");
    assert_eq!(entries[1].text, "fn b () ");
    assert_eq!(entries[0].indent, entries[1].indent);
}

#[test]
fn outline_indent_grows_with_depth() {
    let code = "impl A {\n    fn m() { }\n}\n";
    let entries = get_outline(code, Lang::Rust);
    assert_eq!(entries.len(), 2);
    assert!(entries[0].text.contains("impl"));
    assert_eq!(entries[1].text, "fn m () ");
    assert!(entries[1].indent > entries[0].indent);
}

#[test]
fn go_type_declaration_renders_struct_token() {
    let entries = get_outline("package main\ntype T struct { A int }\n", Lang::Go);
    assert!(entries.len() >= 1);
    assert_eq!(entries[0].text, "type T struct  ");
    assert!(entries[0].text.contains("struct"));
}

#[test]
fn go_interface_declaration_renders_interface_token() {
    let entries = get_outline("package main\ntype I interface { M() }\n", Lang::Go);
    assert!(entries.len() >= 1);
    assert!(entries[0].text.contains("interface"));
    assert!(entries[0].text.contains("I"));
}

#[test]
fn go_field_declaration_renders_name_only() {
    let entries = get_outline("package main\ntype T struct { A int }\n", Lang::Go);
    let field = entries.iter().find(|e| e.text == "A").unwrap();
    assert!(field.indent > entries[0].indent);
}

#[test]
fn go_method_declaration_stops_at_block() {
    let code = "package main\ntype T struct { }\nfunc (t T) M(x int) int { return x }\n";
    let entries = get_outline(code, Lang::Go);
    let m = entries.iter().find(|e| e.text.contains("M")).unwrap();
    assert!(m.text.starts_with("func "));
    assert!(!m.text.contains("return"));
}

#[test]
fn outline_of_empty_source_is_empty() {
    let entries = get_outline("", Lang::Rust);
    assert_eq!(entries.len(), 0);
}

#[test]
fn entry_line_prefixes_indent_spaces() {
    let entries = get_outline("fn a() { }\n", Lang::Rust);
    let line = entries[0].to_line();
    assert_eq!(line, "  fn a () ");
}

#[test]
fn walker_emits_preorder_on_hand_built_tree() {
    let tree = SyntaxNode {
        kind: "source_file".to_string(),
        text: String::new(),
        row: 0,
        name_text: None,
        children: vec![
            SyntaxNode {
                kind: "struct_item".to_string(),
                text: "struct A { }".to_string(),
                row: 0,
                name_text: None,
                children: vec![
                    leaf("struct", "struct"),
                    leaf("type_identifier", "A"),
                    leaf("field_declaration_list", "{ }"),
                ],
            },
            SyntaxNode {
                kind: "function_item".to_string(),
                text: "fn b() { }".to_string(),
                row: 1,
                name_text: None,
                children: vec![
                    leaf("fn", "fn"),
                    leaf("identifier", "b"),
                    leaf("parameters", "()"),
                    leaf("block", "{ }"),
                ],
            },
        ],
    };
    let mut out = Vec::new();
    recursion_outline(Lang::Rust, &tree, 0, &mut out);
    assert_eq!(out.len(), 2);
    assert_eq!(out[0].indent, 2);
    assert_eq!(out[0].text, "struct A ");
    assert_eq!(out[1].indent, 2);
    assert_eq!(out[1].text, "fn b () ");
}

#[test]
fn renderer_stops_before_boundary_child() {
    let node = SyntaxNode {
        kind: "function_item".to_string(),
        text: "fn foo(x: i32) { body }".to_string(),
        row: 0,
        name_text: None,
        children: vec![
            leaf("fn", "fn"),
            leaf("identifier", "foo"),
            leaf("parameters", "(x: i32)"),
            leaf("block", "{ body }"),
        ],
    };
    let rules = vec![("function_item", "parameters")];
    let keywords = vec!["fn"];
    assert_eq!(get_defination_string(&rules, &keywords, &node), "fn foo ");
}

#[test]
fn renderer_without_matching_rule_is_empty() {
    let node = leaf("unknown_kind", "whatever");
    let rules = vec![("function_item", "parameters")];
    let keywords: Vec<&str> = vec![];
    assert_eq!(get_defination_string(&rules, &keywords, &node), "");
}

#[test]
fn renderer_preserves_runs_of_spaces() {
    let node = SyntaxNode {
        kind: "function_item".to_string(),
        text: "pub  fn".to_string(),
        row: 0,
        name_text: None,
        children: vec![leaf("modifiers", "pub  fn"), leaf("parameters", "()")],
    };
    let rules = vec![("function_item", "parameters")];
    let keywords = vec!["fn", "pub"];
    assert_eq!(get_defination_string(&rules, &keywords, &node), "pub  fn ");
}

#[test]
fn renderer_marks_keyword_tokens() {
    let node = SyntaxNode {
        kind: "function_item".to_string(),
        text: "fn foo".to_string(),
        row: 0,
        name_text: None,
        children: vec![leaf("head", "fn foo"), leaf("parameters", "()")],
    };
    let rules = vec![("function_item", "parameters")];
    let keywords = vec!["fn"];
    let toks = get_defination_tokens(&rules, &keywords, &node);
    assert_eq!(toks.len(), 2);
    assert_eq!(toks[0].text, "fn");
    assert!(toks[0].keyword);
    assert_eq!(toks[1].text, "foo");
    assert!(!toks[1].keyword);
}

#[test]
fn outline_tokens_mark_keywords() {
    let entries = get_outline_tokens("fn foo(x: i32) { return 1 + 1; }\n", Lang::Rust);
    assert_eq!(entries.len(), 1);
    let toks = &entries[0].tokens;
    assert_eq!(toks[0].text, "fn");
    assert!(toks[0].keyword);
    assert_eq!(toks[1].text, "foo");
    assert!(!toks[1].keyword);
    let mut joined = String::new();
    for t in toks {
        joined.push_str(&t.text);
        joined.push(' ');
    }
    assert_eq!(joined, "fn foo (x: i32) ");
}

#[test]
fn go_outline_tokens_mark_type_keywords() {
    let entries = get_outline_tokens("package main\ntype T struct { A int }\n", Lang::Go);
    let first = &entries[0].tokens;
    assert!(first.iter().any(|t| t.text == "type" && t.keyword));
    assert!(first.iter().any(|t| t.text == "struct" && t.keyword));
    assert!(first.iter().any(|t| t.text == "T" && !t.keyword));
}
