//! Verified character-level string utilities.
//!
//! Strings are modelled by their views, sequences of characters.  These
//! helpers supply the equality, prefix, substring and replacement operations
//! that the rest of the crate states its contracts over.

use vstd::prelude::*;
use vstd::string::StrSliceExecFns;
use vstd::string::StringExecFns;

verus! {

/// Character-level string equality.
pub fn str_eq(a: &str, b: &str) -> (r: bool)
    ensures
        r == (a@ == b@),
{
    let sa = a.to_owned();
    let sb = b.to_owned();
    sa == sb
}

/// The views of a list of string slices.
pub open spec fn strs_view(ks: Seq<&str>) -> Seq<Seq<char>> {
    ks.map_values(|k: &str| k@)
}

/// Is `s` one of the strings in `list`?
pub fn str_in_list(list: &Vec<&str>, s: &str) -> (r: bool)
    ensures
        r == strs_view(list@).contains(s@),
{
    let n = list.len();
    let mut j: usize = 0;
    while j < n
        invariant
            n == list@.len(),
            0 <= j <= n,
            forall|m: int| 0 <= m < j ==> strs_view(list@)[m] != s@,
        decreases n - j,
    {
        if str_eq(list[j], s) {
            assert(strs_view(list@)[j as int] == s@);
            return true;
        }
        j += 1;
    }
    assert(forall|m: int| 0 <= m < strs_view(list@).len() ==> strs_view(list@)[m] != s@);
    false
}

/// `needle` occurs in `hay` starting at position `i`.
pub open spec fn occurs_at(hay: Seq<char>, needle: Seq<char>, i: int) -> bool {
    0 <= i && i + needle.len() <= hay.len() && hay.subrange(i, i + needle.len() as int) == needle
}

/// `needle` occurs somewhere in `hay`.
pub open spec fn seq_contains(hay: Seq<char>, needle: Seq<char>) -> bool {
    exists|i: int| occurs_at(hay, needle, i)
}

/// `needle` occurs in `hay` starting at character position `i`.
fn occurs_at_exec(hay: &str, needle: &str, i: usize, hay_len: usize, needle_len: usize) -> (r:
    bool)
    requires
        hay_len == hay@.len(),
        needle_len == needle@.len(),
        i + needle_len <= hay_len,
    ensures
        r == occurs_at(hay@, needle@, i as int),
{
    let mut j: usize = 0;
    while j < needle_len
        invariant
            0 <= j <= needle_len,
            hay_len == hay@.len(),
            needle_len == needle@.len(),
            i + needle_len <= hay_len,
            forall|k: int| 0 <= k < j ==> hay@[i + k] == needle@[k],
        decreases needle_len - j,
    {
        if hay.get_char(i + j) != needle.get_char(j) {
            assert(hay@.subrange(i as int, i + needle@.len() as int)[j as int] != needle@[j as int]);
            return false;
        }
        j += 1;
    }
    assert(hay@.subrange(i as int, i + needle@.len() as int) =~= needle@);
    true
}

/// Character-level substring search.
pub fn str_contains(hay: &str, needle: &str) -> (r: bool)
    ensures
        r == seq_contains(hay@, needle@),
{
    let hay_len = hay.unicode_len();
    let needle_len = needle.unicode_len();
    if needle_len > hay_len {
        assert(forall|i: int| !occurs_at(hay@, needle@, i));
        return false;
    }
    if needle_len == 0 {
        proof {
            assert(hay@.subrange(0, 0) =~= needle@);
            assert(occurs_at(hay@, needle@, 0));
        }
        return true;
    }
    let mut i: usize = 0;
    while i <= hay_len - needle_len
        invariant
            hay_len == hay@.len(),
            needle_len == needle@.len(),
            0 < needle_len <= hay_len,
            0 <= i <= hay_len - needle_len + 1,
            forall|k: int| 0 <= k < i ==> !occurs_at(hay@, needle@, k),
        decreases hay_len - i,
    {
        if occurs_at_exec(hay, needle, i, hay_len, needle_len) {
            return true;
        }
        i += 1;
    }
    assert(forall|k: int| occurs_at(hay@, needle@, k) ==> 0 <= k <= hay@.len() - needle@.len());
    false
}

/// Character-level prefix test.
pub fn str_starts_with(s: &str, prefix: &str) -> (r: bool)
    ensures
        r == prefix@.is_prefix_of(s@),
{
    let s_len = s.unicode_len();
    let p_len = prefix.unicode_len();
    if p_len > s_len {
        return false;
    }
    let r = occurs_at_exec(s, prefix, 0, s_len, p_len);
    assert(occurs_at(s@, prefix@, 0) == prefix@.is_prefix_of(s@));
    r
}

/// Leftmost, non-overlapping replacement of `from` by `to` in `s`, the
/// behaviour of `str::replace`.
pub open spec fn replace_seq(s: Seq<char>, from: Seq<char>, to: Seq<char>) -> Seq<char>
    recommends
        from.len() > 0,
    decreases s.len(),
{
    if s.len() == 0 {
        s
    } else if from.len() > 0 && from.len() <= s.len() && s.subrange(0, from.len() as int) == from {
        to + replace_seq(s.skip(from.len() as int), from, to)
    } else {
        seq![s[0]] + replace_seq(s.skip(1), from, to)
    }
}

/// Replaces every occurrence of `from` in `s` by `to`, leftmost first.
pub fn replace_str(s: &str, from: &str, to: &str) -> (r: String)
    requires
        from@.len() > 0,
    ensures
        r@ == replace_seq(s@, from@, to@),
{
    let s_len = s.unicode_len();
    let from_len = from.unicode_len();
    let mut out: String = String::new();
    let mut i: usize = 0;
    proof {
        assert(s@.skip(0) =~= s@);
        assert(Seq::<char>::empty() + replace_seq(s@, from@, to@) =~= replace_seq(
            s@,
            from@,
            to@,
        ));
    }
    while i < s_len
        invariant
            s_len == s@.len(),
            from_len == from@.len(),
            from_len > 0,
            0 <= i <= s_len,
            out@ + replace_seq(s@.skip(i as int), from@, to@) == replace_seq(s@, from@, to@),
        decreases s_len - i,
    {
        let ghost rest = s@.skip(i as int);
        if from_len <= s_len - i && occurs_at_exec(s, from, i, s_len, from_len) {
            proof {
                assert(rest.len() > 0);
                assert(rest.subrange(0, from@.len() as int) =~= s@.subrange(
                    i as int,
                    i + from@.len() as int,
                ));
                assert(rest.skip(from@.len() as int) =~= s@.skip(i + from@.len() as int));
            }
            out.append(to);
            i += from_len;
        } else {
            proof {
                if rest.len() >= from@.len() && rest.subrange(0, from@.len() as int) == from@ {
                    assert(s@.subrange(i as int, i + from@.len() as int) =~= rest.subrange(
                        0,
                        from@.len() as int,
                    ));
                    assert(occurs_at(s@, from@, i as int));
                }
                assert(seq![rest[0]] =~= s@.subrange(i as int, i + 1));
                assert(rest.skip(1) =~= s@.skip(i + 1));
            }
            let c = s.substring_char(i, i + 1);
            out.append(c);
            i += 1;
        }
    }
    proof {
        assert(s@.skip(s@.len() as int) =~= Seq::<char>::empty());
        assert(out@ + Seq::<char>::empty() =~= out@);
    }
    out
}

} // verus!
