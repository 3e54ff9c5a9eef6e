//! Plain and regular-expression line search.
//!
//! Given a file's lines, finds every line containing the search text (as a
//! substring) or, with the regex flag, every line the pattern captures in.
//! Pattern compilation and matching are delegated to the regex crate behind
//! trusted wrappers; both depend only on the pattern and the line, so their
//! results are named and everything around them is verified.

use vstd::prelude::*;

use crate::sitter::raw_entries_view;
use crate::text::seq_contains;
use crate::text::str_contains;

verus! {

/// Whether the regex crate accepts `pattern`: a function of the pattern
/// text alone.
pub uninterp spec fn regex_ok(pattern: Seq<char>) -> bool;

/// Whether `pattern` captures somewhere in `line`: a function of the two
/// texts alone.
pub uninterp spec fn regex_match(pattern: Seq<char>, line: Seq<char>) -> bool;

/// Relies on regex::Regex::new: whether a pattern compiles depends on the
/// pattern text alone, the name `regex_ok`.
#[verifier::external_body]
fn regex_valid(pattern: &str) -> (r: bool)
    ensures
        r == regex_ok(pattern@),
{
    regex::Regex::new(pattern).is_ok()
}

/// Relies on regex::Regex::new and Regex::captures: compilation failure
/// depends on the pattern alone (`regex_ok`), and whether a line has a
/// capture depends on the pattern and the line alone (`regex_match`).
#[verifier::external_body]
fn regex_match_line(pattern: &str, line: &str) -> (r: Option<bool>)
    ensures
        r is Some <==> regex_ok(pattern@),
        r matches Some(b) ==> b == regex_match(pattern@, line@),
{
    match regex::Regex::new(pattern) {
        Ok(re) => Some(re.captures(line).is_some()),
        Err(_) => None,
    }
}

/// The views of a list of lines.
pub open spec fn lines_view(ls: Seq<String>) -> Seq<Seq<char>> {
    ls.map_values(|l: String| l@)
}

/// Does a line match the search: substring containment, or a regex capture
/// when the regex flag is set.
pub open spec fn line_matches(line: Seq<char>, text: Seq<char>, use_reg: bool) -> bool {
    if use_reg {
        regex_match(text, line)
    } else {
        seq_contains(line, text)
    }
}

/// The matching lines from index `i` on, each with its 1-based line number.
pub open spec fn found_from(
    lines: Seq<Seq<char>>,
    text: Seq<char>,
    use_reg: bool,
    i: int,
) -> Seq<(usize, Seq<char>)>
    decreases lines.len() - i
        when 0 <= i
{
    if i < 0 || i >= lines.len() {
        Seq::empty()
    } else {
        let rest = found_from(lines, text, use_reg, i + 1);
        if line_matches(lines[i], text, use_reg) {
            seq![(((i + 1) as usize), lines[i])] + rest
        } else {
            rest
        }
    }
}

/// All matching lines, each with its 1-based line number, in line order.
pub open spec fn found_lines(lines: Seq<Seq<char>>, text: Seq<char>, use_reg: bool) -> Seq<
    (usize, Seq<char>),
> {
    found_from(lines, text, use_reg, 0)
}

/// Finds `text` in the given lines: every line containing the text (or,
/// with `use_reg`, every line the pattern captures in) paired with its
/// 1-based line number, in line order.  Returns `None` exactly when the
/// regex flag is set and the pattern does not compile.
pub fn find_text_in_lines(lines: &Vec<String>, text: &str, use_reg: bool) -> (r: Option<
    Vec<(usize, String)>,
>)
    ensures
        r is Some <==> (!use_reg || regex_ok(text@)),
        r matches Some(v) ==> raw_entries_view(v@) == found_lines(lines_view(lines@), text@, use_reg),
{
    if use_reg && !regex_valid(text) {
        return None;
    }
    let ghost lv = lines_view(lines@);
    let mut out: Vec<(usize, String)> = Vec::new();
    let n = lines.len();
    let mut i: usize = 0;
    proof {
        assert(raw_entries_view(out@) =~= Seq::<(usize, Seq<char>)>::empty());
        assert(Seq::<(usize, Seq<char>)>::empty() + found_from(lv, text@, use_reg, 0) =~= found_from(
            lv,
            text@,
            use_reg,
            0,
        ));
    }
    while i < n
        invariant
            n == lines@.len(),
            lv == lines_view(lines@),
            0 <= i <= n,
            use_reg ==> regex_ok(text@),
            raw_entries_view(out@) + found_from(lv, text@, use_reg, i as int) == found_lines(
                lv,
                text@,
                use_reg,
            ),
        decreases n - i,
    {
        let line = &lines[i];
        let matched: bool = if use_reg {
            regex_match_line(text, line.as_str()).unwrap()
        } else {
            str_contains(line.as_str(), text)
        };
        proof {
            assert(lv[i as int] == lines@[i as int]@);
            assert(matched == line_matches(lv[i as int], text@, use_reg));
        }
        if matched {
            let entry = (i + 1, line.clone());
            proof {
                assert(raw_entries_view(out@ + seq![entry]) =~= raw_entries_view(out@) + seq![
                    (entry.0, entry.1@),
                ]);
                assert(found_from(lv, text@, use_reg, i as int) == seq![
                    (((i + 1) as usize), lv[i as int]),
                ] + found_from(lv, text@, use_reg, i + 1));
                assert((raw_entries_view(out@) + seq![(entry.0, entry.1@)]) + found_from(
                    lv,
                    text@,
                    use_reg,
                    i + 1,
                ) =~= raw_entries_view(out@) + (seq![(((i + 1) as usize), lv[i as int])]
                    + found_from(lv, text@, use_reg, i + 1)));
            }
            out.push(entry);
        }
        i += 1;
    }
    proof {
        assert(found_from(lv, text@, use_reg, n as int) =~= Seq::<(usize, Seq<char>)>::empty());
        assert(raw_entries_view(out@) + Seq::<(usize, Seq<char>)>::empty() =~= raw_entries_view(
            out@,
        ));
    }
    Some(out)
}

} // verus!
