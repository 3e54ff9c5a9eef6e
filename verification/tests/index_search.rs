//! Index building, index lookup, line search and the extension allowlist.

use code_search::CodeIndex;
use code_search::SourceFile;
use code_search::build_index;
use code_search::extension_of;
use code_search::find_text_in_lines;
use code_search::index_file;
use code_search::search_index;
use code_search::should_collect;
use code_search::valid_language_file;

fn lines(v: &[&str]) -> Vec<String> {
    v.iter().map(|s| s.to_string()).collect()
}

#[test]
fn index_skips_unreadable_file_keeps_valid_one() {
    let files = vec![
        SourceFile { path: "bad.rs".to_string(), code: "".to_string() },
        SourceFile { path: "good.rs".to_string(), code: "fn hello() {}\n".to_string() },
    ];
    let index = build_index(&files);
    assert_eq!(index.len(), 1);
    assert_eq!(index[0].path, "good.rs");
    assert_eq!(index[0].line, 1);
    assert_eq!(index[0].line_code, "hello");
}

#[test]
fn index_keeps_file_order_then_match_order() {
    let files = vec![
        SourceFile { path: "a.rs".to_string(), code: "fn one() {}\nfn two() {}\n".to_string() },
        SourceFile { path: "b.py".to_string(), code: "def three():\n    pass\n".to_string() },
    ];
    let index = build_index(&files);
    assert_eq!(index.len(), 3);
    assert_eq!((index[0].path.as_str(), index[0].line, index[0].line_code.as_str()), ("a.rs", 1, "one"));
    assert_eq!((index[1].path.as_str(), index[1].line, index[1].line_code.as_str()), ("a.rs", 2, "two"));
    assert_eq!((index[2].path.as_str(), index[2].line, index[2].line_code.as_str()), ("b.py", 1, "three"));
}

#[test]
fn index_file_without_extension_contributes_nothing() {
    let index = index_file("README", "fn hello() {}\n");
    assert_eq!(index.len(), 0);
}

#[test]
fn search_index_filters_by_substring() {
    let index = vec![
        CodeIndex { path: "a.rs".to_string(), line: 1, line_code: "alpha".to_string() },
        CodeIndex { path: "a.rs".to_string(), line: 2, line_code: "beta".to_string() },
        CodeIndex { path: "b.rs".to_string(), line: 7, line_code: "alphabet".to_string() },
    ];
    let hits = search_index(&index, "alpha");
    assert_eq!(hits.len(), 2);
    assert_eq!(hits[0].line, 1);
    assert_eq!(hits[1].line, 7);
    assert_eq!(hits[1].path, "b.rs");
}

#[test]
fn find_text_plain_substring() {
    let ls = lines(&["hello world", "nothing", "oh hell"]);
    let r = find_text_in_lines(&ls, "hell", false).unwrap();
    assert_eq!(r, vec![(1, "hello world".to_string()), (3, "oh hell".to_string())]);
}

#[test]
fn find_text_with_regex() {
    let ls = lines(&["hello", "hallo", "hullo", "help"]);
    let r = find_text_in_lines(&ls, "h[au]llo", true).unwrap();
    assert_eq!(r, vec![(2, "hallo".to_string()), (3, "hullo".to_string())]);
}

#[test]
fn find_text_bad_regex_is_reported() {
    let ls = lines(&["hello"]);
    assert!(find_text_in_lines(&ls, "(", true).is_none());
}

#[test]
fn find_text_bad_pattern_is_fine_without_regex_flag() {
    let ls = lines(&["a ( b", "c"]);
    let r = find_text_in_lines(&ls, "(", false).unwrap();
    assert_eq!(r, vec![(1, "a ( b".to_string())]);
}

#[test]
fn extension_of_simple_paths() {
    assert_eq!(extension_of("a/b/c.rs").as_deref(), Some("rs"));
    assert_eq!(extension_of("main.go").as_deref(), Some("go"));
    assert_eq!(extension_of("archive.tar.gz").as_deref(), Some("gz"));
    assert_eq!(extension_of("noext"), None);
    assert_eq!(extension_of("dir.v/noext"), None);
    assert_eq!(extension_of(".hidden"), None);
    assert_eq!(extension_of("trailing."), Some("".to_string()));
}

#[test]
fn allowlist_accepts_known_extensions() {
    assert!(valid_language_file("rs"));
    assert!(valid_language_file("md"));
    assert!(valid_language_file("properties"));
    assert!(!valid_language_file("exe"));
    assert!(!valid_language_file(""));
}

#[test]
fn collect_honours_filter_and_allowlist() {
    assert!(should_collect("rs", ""));
    assert!(should_collect("rs", "rs"));
    assert!(!should_collect("rs", "go"));
    assert!(!should_collect("exe", ""));
    assert!(!should_collect("exe", "exe"));
}
