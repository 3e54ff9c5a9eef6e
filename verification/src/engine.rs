//! The symbol query engine.
//!
//! A search substitutes the caller's key into each of the language's query
//! patterns (no escaping: a key containing characters meaningful to the
//! pattern predicate passes through unmodified), executes each pattern
//! against the parsed source, and collects each capture's 1-based start line
//! and verbatim text.  Results keep pattern-declaration order, then capture
//! order; they are not globally sorted by line.  A pattern that is malformed
//! after substitution is skipped, so one bad pattern cannot abort a whole
//! scan.

use vstd::prelude::*;

use crate::lang::Lang;
use crate::lang::lang_id;
use crate::lang::lang_patterns;
use crate::sitter::captures_of;
use crate::sitter::query_ok;
use crate::sitter::raw_entries_view;
use crate::sitter::run_query;
use crate::text::replace_seq;
use crate::text::replace_str;

verus! {

/// A pattern with the search key substituted for its `:?` placeholder.
pub open spec fn subst(pat: Seq<char>, key: Seq<char>) -> Seq<char> {
    replace_seq(pat, ":?"@, key)
}

/// A capture row turned into a 1-based line number.
pub open spec fn line_of(row: usize) -> usize {
    if row == usize::MAX {
        usize::MAX
    } else {
        (row + 1) as usize
    }
}

/// The (line, text) entries one pattern contributes: its captures with
/// 1-based lines, or nothing if the substituted pattern is malformed.
pub open spec fn pattern_results(lang: Lang, pat: Seq<char>, key: Seq<char>, code: Seq<char>) -> Seq<
    (usize, Seq<char>),
> {
    let q = subst(pat, key);
    if query_ok(lang_id(lang), q) {
        captures_of(lang_id(lang), q, code).map_values(
            |e: (usize, Seq<char>)| (line_of(e.0), e.1),
        )
    } else {
        Seq::empty()
    }
}

/// The concatenated results of a pattern list, in declaration order.
pub open spec fn search_from(
    lang: Lang,
    key: Seq<char>,
    code: Seq<char>,
    pats: Seq<Seq<char>>,
) -> Seq<(usize, Seq<char>)>
    decreases pats.len(),
{
    if pats.len() == 0 {
        Seq::empty()
    } else {
        pattern_results(lang, pats[0], key, code) + search_from(lang, key, code, pats.drop_first())
    }
}

/// Everything a search returns: the language's patterns applied in order.
pub open spec fn search_spec(lang: Lang, key: Seq<char>, code: Seq<char>) -> Seq<
    (usize, Seq<char>),
> {
    search_from(lang, key, code, lang_patterns(lang))
}

/// `line_of`, executably.
fn line_of_exec(row: usize) -> (r: usize)
    ensures
        r == line_of(row),
{
    if row == usize::MAX {
        row
    } else {
        row + 1
    }
}

/// The substituted patterns that fail to compile, in pattern order.
pub open spec fn skipped_from(
    lang: Lang,
    key: Seq<char>,
    pats: Seq<Seq<char>>,
) -> Seq<Seq<char>>
    decreases pats.len(),
{
    if pats.len() == 0 {
        Seq::empty()
    } else {
        (if query_ok(lang_id(lang), subst(pats[0], key)) {
            Seq::<Seq<char>>::empty()
        } else {
            seq![subst(pats[0], key)]
        }) + skipped_from(lang, key, pats.drop_first())
    }
}

/// Every substituted pattern a search has to skip as malformed.
pub open spec fn skipped_spec(lang: Lang, key: Seq<char>) -> Seq<Seq<char>> {
    skipped_from(lang, key, lang_patterns(lang))
}

/// Finds all symbols matching `search_key` in `code` under `lang`'s query
/// patterns, and reports the failures: the first list holds each capture's
/// 1-based start line and its verbatim source text (a substring of `code`),
/// in pattern-declaration order, then capture order; the second holds every
/// substituted pattern that was malformed and therefore skipped, so one bad
/// pattern costs only its own results and the caller learns of it.
pub fn get_all_symbols_report(code: &str, search_key: &str, lang: Lang) -> (r: (
    Vec<(usize, String)>,
    Vec<String>,
))
    ensures
        raw_entries_view(r.0@) == search_spec(lang, search_key@, code@),
        forall|k: int| 0 <= k < r.0@.len() ==> crate::text::seq_contains(code@, r.0@[k].1@),
        r.1@.map_values(|s: String| s@) == skipped_spec(lang, search_key@),
{
    let patterns = lang.get_queries();
    let ghost pats = lang_patterns(lang);
    let mut out: Vec<(usize, String)> = Vec::new();
    let mut skipped: Vec<String> = Vec::new();
    let n = patterns.len();
    let mut pi: usize = 0;
    proof {
        reveal_strlit(":?");
        assert(pats.skip(0) =~= pats);
        assert(raw_entries_view(out@) =~= Seq::<(usize, Seq<char>)>::empty());
        assert(Seq::<(usize, Seq<char>)>::empty() + search_from(lang, search_key@, code@, pats)
            =~= search_from(lang, search_key@, code@, pats));
        assert(skipped@.map_values(|s: String| s@) =~= Seq::<Seq<char>>::empty());
        assert(Seq::<Seq<char>>::empty() + skipped_from(lang, search_key@, pats) =~= skipped_from(
            lang,
            search_key@,
            pats,
        ));
    }
    while pi < n
        invariant
            n == patterns@.len(),
            pats == lang_patterns(lang),
            patterns@.map_values(|s: String| s@) == pats,
            0 <= pi <= n,
            ":?"@.len() > 0,
            raw_entries_view(out@) + search_from(lang, search_key@, code@, pats.skip(pi as int))
                == search_spec(lang, search_key@, code@),
            forall|k: int|
                0 <= k < out@.len() ==> crate::text::seq_contains(code@, out@[k].1@),
            skipped@.map_values(|s: String| s@) + skipped_from(
                lang,
                search_key@,
                pats.skip(pi as int),
            ) == skipped_spec(lang, search_key@),
        decreases n - pi,
    {
        let ghost rest = pats.skip(pi as int);
        proof {
            assert(rest.len() > 0);
            assert(rest[0] == pats[pi as int]);
            assert(rest.drop_first() =~= pats.skip(pi + 1));
            assert(patterns@[pi as int]@ == pats[pi as int]);
        }
        let q = replace_str(patterns[pi].as_str(), ":?", search_key);
        let ghost skipped_rest = skipped_from(lang, search_key@, pats.skip(pi + 1));
        match run_query(lang, q.as_str(), code) {
            Some(v) => {
                let ghost caps = captures_of(lang_id(lang), q@, code@);
                let ghost mapped = caps.map_values(|e: (usize, Seq<char>)| (line_of(e.0), e.1));
                let ghost out_before = out@;
                let m = v.len();
                let mut j: usize = 0;
                proof {
                    assert(raw_entries_view(out@) + mapped.take(0) =~= raw_entries_view(out@));
                }
                while j < m
                    invariant
                        m == v@.len(),
                        caps == captures_of(lang_id(lang), q@, code@),
                        raw_entries_view(v@) == caps,
                        mapped == caps.map_values(|e: (usize, Seq<char>)| (line_of(e.0), e.1)),
                        0 <= j <= m,
                        forall|jj: int|
                            0 <= jj < m ==> crate::text::seq_contains(code@, v@[jj].1@),
                        forall|k: int|
                            0 <= k < out@.len() ==> crate::text::seq_contains(code@, out@[k].1@),
                        raw_entries_view(out@) == raw_entries_view(out_before) + mapped.take(
                            j as int,
                        ),
                    decreases m - j,
                {
                    let line = line_of_exec(v[j].0);
                    let entry = (line, v[j].1.clone());
                    proof {
                        assert(caps[j as int] == (v@[j as int].0, v@[j as int].1@));
                        assert(mapped[j as int] == (line_of(v@[j as int].0), v@[j as int].1@));
                        assert(mapped.take(j + 1) =~= mapped.take(j as int) + seq![
                            mapped[j as int],
                        ]);
                        assert(raw_entries_view(out@ + seq![entry]) =~= raw_entries_view(out@)
                            + seq![(entry.0, entry.1@)]);
                        assert(raw_entries_view(out_before) + mapped.take(j as int) + seq![
                            mapped[j as int],
                        ] =~= raw_entries_view(out_before) + mapped.take(j + 1));
                        assert(crate::text::seq_contains(code@, entry.1@));
                    }
                    out.push(entry);
                    j += 1;
                }
                proof {
                    assert(mapped.take(m as int) =~= mapped);
                    assert(pattern_results(lang, pats[pi as int], search_key@, code@) == mapped);
                    assert(raw_entries_view(out_before) + (mapped + search_from(
                        lang,
                        search_key@,
                        code@,
                        pats.skip(pi + 1),
                    )) =~= (raw_entries_view(out_before) + mapped) + search_from(
                        lang,
                        search_key@,
                        code@,
                        pats.skip(pi + 1),
                    ));
                    assert(skipped_from(lang, search_key@, rest) =~= Seq::<Seq<char>>::empty()
                        + skipped_rest);
                    assert(Seq::<Seq<char>>::empty() + skipped_rest =~= skipped_rest);
                }
            },
            None => {
                proof {
                    assert(pattern_results(lang, pats[pi as int], search_key@, code@) =~= Seq::<
                        (usize, Seq<char>),
                    >::empty());
                    assert(raw_entries_view(out@) + (Seq::<(usize, Seq<char>)>::empty()
                        + search_from(lang, search_key@, code@, pats.skip(pi + 1)))
                        =~= raw_entries_view(out@) + search_from(
                        lang,
                        search_key@,
                        code@,
                        pats.skip(pi + 1),
                    ));
                    let done = skipped@.map_values(|s: String| s@);
                    assert(skipped_from(lang, search_key@, rest) == seq![
                        subst(pats[pi as int], search_key@),
                    ] + skipped_rest);
                    assert((skipped@ + seq![q]).map_values(|s: String| s@) =~= done + seq![q@]);
                    assert((done + seq![q@]) + skipped_rest =~= done + (seq![q@] + skipped_rest));
                }
                skipped.push(q);
            },
        }
        pi += 1;
    }
    proof {
        assert(pats.skip(n as int) =~= Seq::<Seq<char>>::empty());
        assert(raw_entries_view(out@) + Seq::<(usize, Seq<char>)>::empty() =~= raw_entries_view(
            out@,
        ));
        assert(skipped@.map_values(|s: String| s@) + Seq::<Seq<char>>::empty()
            =~= skipped@.map_values(|s: String| s@));
    }
    (out, skipped)
}

/// Finds all symbols matching `search_key` in `code` under `lang`'s query
/// patterns: each entry is the capture's 1-based start line and its verbatim
/// source text (a substring of `code`), in pattern-declaration order, then
/// capture order.  A pattern that is malformed after key substitution
/// contributes nothing; `get_all_symbols_report` also says which were
/// skipped.
pub fn get_all_symbols(code: &str, search_key: &str, lang: Lang) -> (r: Vec<(usize, String)>)
    ensures
        raw_entries_view(r@) == search_spec(lang, search_key@, code@),
        forall|k: int| 0 <= k < r@.len() ==> crate::text::seq_contains(code@, r@[k].1@),
{
    let (entries, _skipped) = get_all_symbols_report(code, search_key, lang);
    entries
}

/// Searching is idempotent: over immutable inputs the result is a function
/// of the language, the key and the source alone, so two runs with identical
/// inputs yield identical ordered results.
pub proof fn lemma_search_deterministic(
    r1: Seq<(usize, Seq<char>)>,
    r2: Seq<(usize, Seq<char>)>,
    lang: Lang,
    key: Seq<char>,
    code: Seq<char>,
)
    requires
        r1 == search_spec(lang, key, code),
        r2 == search_spec(lang, key, code),
    ensures
        r1 == r2,
{
}

} // verus!
