//! Per-language search behaviour: one targeted search per language, and a
//! wildcard search with an exactly known result set per language.

use code_search::Lang;
use code_search::get_all_symbols;
use code_search::get_all_symbols_report;
use code_search::get_symbol_query;

#[test]
fn search_rust_single_definition() {
    let r = get_all_symbols("fn foo() {}\n", "foo", Lang::Rust);
    assert_eq!(r.len(), 1);
    assert_eq!(r[0].0, 1);
    assert!(r[0].1.contains("foo"));
}

#[test]
fn search_java_single_definition() {
    let r = get_all_symbols("class A { }\n", "A", Lang::Java);
    assert_eq!(r.len(), 1);
    assert_eq!(r[0].0, 1);
    assert!(r[0].1.contains("A"));
}

#[test]
fn search_python_single_definition() {
    let r = get_all_symbols("def f():\n    pass\n", "f", Lang::Python);
    assert_eq!(r.len(), 1);
    assert_eq!(r[0].0, 1);
    assert!(r[0].1.contains("f"));
}

#[test]
fn search_javascript_single_definition() {
    let r = get_all_symbols("function f() { }\n", "f", Lang::Javascript);
    assert_eq!(r.len(), 1);
    assert_eq!(r[0].0, 1);
    assert!(r[0].1.contains("f"));
}

#[test]
fn search_c_single_definition() {
    let r = get_all_symbols("int main() { return 0; }\n", "main", Lang::C);
    assert_eq!(r.len(), 1);
    assert_eq!(r[0].0, 1);
    assert!(r[0].1.contains("main"));
}

#[test]
fn search_cpp_single_definition() {
    let r = get_all_symbols("void foo() { }\n", "foo", Lang::Cpp);
    assert_eq!(r.len(), 1);
    assert_eq!(r[0].0, 1);
    assert!(r[0].1.contains("foo"));
}

#[test]
fn search_go_single_definition() {
    let r = get_all_symbols("package main\nfunc f() {}\n", "f", Lang::Go);
    assert_eq!(r.len(), 1);
    assert_eq!(r[0].0, 2);
    assert!(r[0].1.contains("f"));
}

#[test]
fn search_csharp_single_definition() {
    let r = get_all_symbols("class C { }\n", "C", Lang::CSharp);
    assert_eq!(r.len(), 1);
    assert_eq!(r[0].0, 1);
    assert!(r[0].1.contains("C"));
}

#[test]
fn wildcard_rust_counts_all_matches() {
    let r = get_all_symbols("fn a() {}\nstruct B;\n", ".*", Lang::Rust);
    assert_eq!(r, vec![(1, "a".to_string()), (2, "B".to_string())]);
}

#[test]
fn wildcard_java_counts_all_matches() {
    let code = "class A {\n  void m() { }\n}\ninterface I { }\n";
    let r = get_all_symbols(code, ".*", Lang::Java);
    assert_eq!(
        r,
        vec![(2, "m".to_string()), (1, "A".to_string()), (4, "I".to_string())]
    );
}

#[test]
fn wildcard_python_counts_all_matches() {
    let code = "def f():\n    pass\nclass C:\n    pass\n";
    let r = get_all_symbols(code, ".*", Lang::Python);
    assert_eq!(r, vec![(1, "f".to_string()), (3, "C".to_string())]);
}

#[test]
fn wildcard_javascript_counts_all_matches() {
    let r = get_all_symbols("function f() { }\n", ".*", Lang::Javascript);
    assert_eq!(r, vec![(1, "f".to_string())]);
}

#[test]
fn wildcard_c_counts_all_matches() {
    let code = "int f() { return 0; }\nstruct S { int x; };\n";
    let r = get_all_symbols(code, ".*", Lang::C);
    assert_eq!(r, vec![(1, "f".to_string()), (2, "S".to_string())]);
}

#[test]
fn wildcard_cpp_counts_all_matches() {
    let code = "void f() { }\nstruct S { };\nclass K { };\n";
    let r = get_all_symbols(code, ".*", Lang::Cpp);
    assert_eq!(
        r,
        vec![(1, "f".to_string()), (2, "S".to_string()), (3, "K".to_string())]
    );
}

#[test]
fn wildcard_go_counts_all_matches() {
    let code = "package main\nfunc f() {}\ntype T struct { A int }\n";
    let r = get_all_symbols(code, ".*", Lang::Go);
    assert_eq!(r, vec![(2, "f".to_string()), (3, "T".to_string())]);
}

#[test]
fn wildcard_csharp_counts_all_matches() {
    let code = "struct S { }\nclass C {\n  void M() { }\n}\n";
    let r = get_all_symbols(code, ".*", Lang::CSharp);
    assert_eq!(
        r,
        vec![(1, "S".to_string()), (2, "C".to_string()), (3, "M".to_string())]
    );
}

#[test]
fn search_twice_yields_identical_results() {
    let code = "fn alpha() {}\nstruct Beta;\nfn alpha_two() {}\n";
    let r1 = get_all_symbols(code, "alpha", Lang::Rust);
    let r2 = get_all_symbols(code, "alpha", Lang::Rust);
    assert_eq!(r1, r2);
    assert!(r1.len() >= 1);
}

#[test]
fn malformed_key_is_skipped_not_fatal() {
    let r = get_all_symbols("fn foo() {}\n", "(", Lang::Rust);
    assert_eq!(r, vec![]);
}

#[test]
fn extension_selects_language() {
    assert_eq!(get_symbol_query("rs"), Lang::Rust);
    assert_eq!(get_symbol_query("java"), Lang::Java);
    assert_eq!(get_symbol_query("py"), Lang::Python);
    assert_eq!(get_symbol_query("c"), Lang::C);
    assert_eq!(get_symbol_query("cpp"), Lang::Cpp);
    assert_eq!(get_symbol_query("js"), Lang::Javascript);
    assert_eq!(get_symbol_query("go"), Lang::Go);
    assert_eq!(get_symbol_query("md"), Lang::Rust);
    assert_eq!(get_symbol_query(""), Lang::Rust);
}

#[test]
fn report_lists_skipped_patterns() {
    let (entries, skipped) = get_all_symbols_report("fn foo() {}\n", "(", Lang::Rust);
    assert!(entries.is_empty());
    assert_eq!(skipped.len(), 2);
    assert!(skipped[0].contains("("));
    let (entries2, skipped2) = get_all_symbols_report("fn foo() {}\n", "foo", Lang::Rust);
    assert_eq!(entries2.len(), 1);
    assert!(skipped2.is_empty());
}
