//! Interactive-session hints.

use code_search::CodeHinter;
use code_search::CommandHint;
use code_search::diy_hints;

#[test]
fn builtin_hints_are_the_four_commands() {
    let hints = diy_hints();
    assert_eq!(hints.len(), 4);
    assert_eq!(hints[0].display, "help");
    assert_eq!(hints[0].complete_up_to, 4);
    assert!(hints[1].display.starts_with("outline "));
    assert_eq!(hints[1].complete_up_to, 8);
    assert_eq!(hints[2].display, "search path search_key");
    assert_eq!(hints[2].complete_up_to, 7);
    assert_eq!(hints[3].display, "quit()");
    assert_eq!(hints[3].complete_up_to, 6);
}

#[test]
fn new_hint_counts_prefix_characters() {
    let h = CommandHint::new("outline x", "outline ");
    assert_eq!(h.display, "outline x");
    assert_eq!(h.complete_up_to, 8);
}

#[test]
fn suffix_strips_and_saturates() {
    let h = CommandHint::new("search k", "search ");
    let s = h.suffix(6);
    assert_eq!(s.display, " k");
    assert_eq!(s.complete_up_to, 1);
    let s2 = h.suffix(8);
    assert_eq!(s2.display, "");
    assert_eq!(s2.complete_up_to, 0);
}

#[test]
fn completion_is_typed_prefix_or_nothing() {
    let h = CommandHint::new("quit()", "quit()");
    assert_eq!(h.completion().as_deref(), Some("quit()"));
    let s = h.suffix(6);
    assert_eq!(s.completion(), None);
}

#[test]
fn hint_matches_first_hint_in_order() {
    let hinter = CodeHinter { hints: diy_hints() };
    let line = "sear";
    let h = hinter.hint(line, line.len()).unwrap();
    assert_eq!(h.display, "ch path search_key");
    assert_eq!(h.complete_up_to, 3);
}

#[test]
fn hint_counts_characters_not_bytes() {
    let hinter = CodeHinter { hints: diy_hints() };
    let h = hinter.hint("outline", 7).unwrap();
    assert_eq!(h.complete_up_to, 1);
    assert!(h.display.starts_with(' '));
    assert_eq!(h.completion().as_deref(), Some(" "));
}

#[test]
fn hint_is_none_for_empty_line_or_mid_cursor() {
    let hinter = CodeHinter { hints: diy_hints() };
    assert!(hinter.hint("", 0).is_none());
    assert!(hinter.hint("help", 2).is_none());
    assert!(hinter.hint("zzz", 3).is_none());
}
