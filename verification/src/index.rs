//! The in-memory symbol index.
//!
//! An index is a batch application of the symbol query engine, with the
//! wildcard search key, across a list of files, flattened into one ordered
//! list of (path, line, text) records.  The caller supplies each file's path
//! and content (an unreadable file degrades to empty content and so
//! contributes nothing); the index is held for the session only.

use vstd::prelude::*;
use vstd::string::StrSliceExecFns;

use crate::engine::get_all_symbols;
use crate::engine::search_spec;
use crate::lang::Lang;
use crate::lang::ext_lang;
use crate::lang::get_symbol_query;
use crate::text::seq_contains;
use crate::text::str_contains;
use crate::text::str_eq;
use crate::text::strs_view;
use crate::text::str_in_list;

verus! {

/// The file extensions the directory walker accepts.
pub open spec fn valid_extensions() -> Seq<Seq<char>> {
    seq![
        "rs"@, "js"@, "ts"@, "java"@, "py"@, "go"@, "c"@, "cpp"@, "md"@, "txt"@, "html"@,
        "css"@, "cs"@, "kt"@, "swift"@, "php"@, "rb"@, "sh"@, "sql"@, "vb"@, "lua"@, "hs"@,
        "scala"@, "erl"@, "m"@, "r"@, "h"@, "hpp"@, "toml"@, "yaml"@, "yml"@, "properties"@,
    ]
}

/// Is the extension on the recognized-extension allowlist?
pub fn valid_language_file(extention: &str) -> (r: bool)
    ensures
        r == valid_extensions().contains(extention@),
{
    let list: Vec<&str> = vec![
        "rs", "js", "ts", "java", "py", "go", "c", "cpp", "md", "txt", "html", "css", "cs",
        "kt", "swift", "php", "rb", "sh", "sql", "vb", "lua", "hs", "scala", "erl", "m", "r",
        "h", "hpp", "toml", "yaml", "yml", "properties",
    ];
    let r = str_in_list(&list, extention);
    proof {
        assert(strs_view(list@) =~= valid_extensions());
    }
    r
}

/// Should the directory walker collect a file: its extension passes the
/// allowlist, and matches the caller's single-extension filter if one is
/// set.
pub fn should_collect(extension: &str, filter: &str) -> (r: bool)
    ensures
        r == ((filter@.len() == 0 || filter@ == extension@) && valid_extensions().contains(
            extension@,
        )),
{
    (filter.unicode_len() == 0 || str_eq(filter, extension)) && valid_language_file(extension)
}

/// The largest index of `c` in `s`, or -1 if `c` does not occur.
pub open spec fn last_index_of(s: Seq<char>, c: char) -> int
    decreases s.len(),
{
    if s.len() == 0 {
        -1
    } else if s[s.len() - 1] == c {
        s.len() - 1
    } else {
        last_index_of(s.drop_last(), c)
    }
}

/// `last_index_of` is the largest occurrence, and -1 means no occurrence.
pub proof fn lemma_last_index_of(s: Seq<char>, c: char)
    ensures
        last_index_of(s, c) == -1 ==> forall|i: int| 0 <= i < s.len() ==> s[i] != c,
        last_index_of(s, c) >= 0 ==> last_index_of(s, c) < s.len() && s[last_index_of(s, c)] == c
            && forall|i: int| last_index_of(s, c) < i < s.len() ==> s[i] != c,
        -1 <= last_index_of(s, c) < s.len(),
    decreases s.len(),
{
    if s.len() > 0 && s[s.len() - 1] != c {
        lemma_last_index_of(s.drop_last(), c);
        assert(forall|i: int| 0 <= i < s.len() - 1 ==> s[i] == s.drop_last()[i]);
    }
}

/// The largest character position of `c` in `s`, if any.
pub fn last_index_of_exec(s: &str, c: char) -> (r: Option<usize>)
    ensures
        match r {
            Some(i) => last_index_of(s@, c) == i as int,
            None => last_index_of(s@, c) == -1,
        },
{
    proof {
        lemma_last_index_of(s@, c);
    }
    let n = s.unicode_len();
    let mut j: usize = n;
    while j > 0
        invariant
            n == s@.len(),
            0 <= j <= n,
            forall|k: int| j <= k < n ==> s@[k] != c,
        decreases j,
    {
        j -= 1;
        if s.get_char(j) == c {
            proof {
                lemma_last_index_of(s@, c);
                let ghost last = last_index_of(s@, c);
                if last == -1 {
                    assert(s@[j as int] != c);
                } else if last > j as int {
                    assert(s@[last] != c);
                } else if last < j as int {
                    assert(s@[j as int] != c);
                }
            }
            return Some(j);
        }
    }
    proof {
        lemma_last_index_of(s@, c);
        let ghost last = last_index_of(s@, c);
        if last >= 0 {
            assert(s@[last] != c);
        }
    }
    None
}

/// The file name part of a path: everything after the last separator.
pub open spec fn file_name_of(p: Seq<char>) -> Seq<char> {
    p.skip(last_index_of(p, '/') + 1)
}

/// The extension of a path, modelled on the standard library's rule: the
/// part of the file name after its last dot, none if the file name has no
/// dot past its first character, with the `.` and `..` names excluded.
pub open spec fn ext_of(p: Seq<char>) -> Option<Seq<char>> {
    let name = file_name_of(p);
    if name == "."@ || name == ".."@ {
        None
    } else {
        let d = last_index_of(name, '.');
        if d >= 1 {
            Some(name.skip(d + 1))
        } else {
            None
        }
    }
}

/// The extension of a path, if it has one.
pub fn extension_of(path: &str) -> (r: Option<String>)
    ensures
        match r {
            Some(e) => ext_of(path@) == Some(e@),
            None => ext_of(path@) is None,
        },
{
    let n = path.unicode_len();
    proof {
        lemma_last_index_of(path@, '/');
    }
    let name_start: usize = match last_index_of_exec(path, '/') {
        Some(i) => i + 1,
        None => 0,
    };
    let name = path.substring_char(name_start, n);
    proof {
        assert(name@ =~= file_name_of(path@));
    }
    if str_eq(name, ".") || str_eq(name, "..") {
        return None;
    }
    proof {
        lemma_last_index_of(name@, '.');
    }
    match last_index_of_exec(name, '.') {
        Some(d) => {
            if d >= 1 {
                let nlen = name.unicode_len();
                let e = name.substring_char(d + 1, nlen);
                proof {
                    assert(e@ =~= name@.skip(d + 1));
                }
                Some(e.to_owned())
            } else {
                None
            }
        },
        None => None,
    }
}

/// One searchable record of the index.
#[derive(Debug, PartialEq, Eq)]
pub struct CodeIndex {
    pub path: String,
    pub line: usize,
    pub line_code: String,
}

/// One file handed to the index builder: its path and its content.
pub struct SourceFile {
    pub path: String,
    pub code: String,
}

/// The mathematical image of an index.
pub open spec fn index_view(v: Seq<CodeIndex>) -> Seq<(Seq<char>, usize, Seq<char>)> {
    v.map_values(|e: CodeIndex| (e.path@, e.line, e.line_code@))
}

/// The mathematical image of a file list.
pub open spec fn files_view(v: Seq<SourceFile>) -> Seq<(Seq<char>, Seq<char>)> {
    v.map_values(|f: SourceFile| (f.path@, f.code@))
}

/// The records one file contributes: a wildcard search of its content under
/// the language its extension selects; a file without an extension
/// contributes nothing.
pub open spec fn file_entries(path: Seq<char>, code: Seq<char>) -> Seq<
    (Seq<char>, usize, Seq<char>),
> {
    match ext_of(path) {
        Some(e) => search_spec(ext_lang(e), ".*"@, code).map_values(
            |r: (usize, Seq<char>)| (path, r.0, r.1),
        ),
        None => Seq::empty(),
    }
}

/// The records of a file list, in file order then match order.
pub open spec fn index_spec(files: Seq<(Seq<char>, Seq<char>)>) -> Seq<
    (Seq<char>, usize, Seq<char>),
>
    decreases files.len(),
{
    if files.len() == 0 {
        Seq::empty()
    } else {
        file_entries(files[0].0, files[0].1) + index_spec(files.drop_first())
    }
}

/// Indexes one file: every wildcard symbol match of its content, as (path,
/// 1-based line, text) records.
pub fn index_file(path: &str, code: &str) -> (r: Vec<CodeIndex>)
    ensures
        index_view(r@) == file_entries(path@, code@),
{
    let lang: Lang = match extension_of(path) {
        Some(e) => get_symbol_query(e.as_str()),
        None => {
            proof {
                assert(index_view(Seq::<CodeIndex>::empty()) =~= Seq::<
                    (Seq<char>, usize, Seq<char>),
                >::empty());
            }
            return Vec::new();
        },
    };
    let result = get_all_symbols(code, ".*", lang);
    let mut out: Vec<CodeIndex> = Vec::new();
    let n = result.len();
    let mut i: usize = 0;
    let ghost entries = file_entries(path@, code@);
    proof {
        assert(entries == search_spec(lang, ".*"@, code@).map_values(
            |r: (usize, Seq<char>)| (path@, r.0, r.1),
        ));
        assert(index_view(out@) =~= entries.take(0));
    }
    while i < n
        invariant
            n == result@.len(),
            entries == file_entries(path@, code@),
            crate::sitter::raw_entries_view(result@) == search_spec(lang, ".*"@, code@),
            entries == search_spec(lang, ".*"@, code@).map_values(
                |r: (usize, Seq<char>)| (path@, r.0, r.1),
            ),
            0 <= i <= n,
            index_view(out@) == entries.take(i as int),
        decreases n - i,
    {
        let item = CodeIndex {
            path: path.to_owned(),
            line: result[i].0,
            line_code: result[i].1.clone(),
        };
        proof {
            assert(entries[i as int] == (path@, result@[i as int].0, result@[i as int].1@));
            assert(entries.take(i + 1) =~= entries.take(i as int) + seq![entries[i as int]]);
            assert(index_view(out@ + seq![item]) =~= index_view(out@) + seq![
                (item.path@, item.line, item.line_code@),
            ]);
        }
        out.push(item);
        i += 1;
    }
    proof {
        assert(entries.take(n as int) =~= entries);
    }
    out
}

/// Builds the index over a file list: each file's wildcard matches in file
/// order.  A file whose content is empty (the degraded form of an
/// unreadable file) contributes zero records and does not abort the build.
pub fn build_index(files: &Vec<SourceFile>) -> (r: Vec<CodeIndex>)
    ensures
        index_view(r@) == index_spec(files_view(files@)),
{
    let ghost fv = files_view(files@);
    let mut out: Vec<CodeIndex> = Vec::new();
    let n = files.len();
    let mut i: usize = 0;
    proof {
        assert(fv.skip(0) =~= fv);
        assert(index_view(out@) =~= Seq::<(Seq<char>, usize, Seq<char>)>::empty());
        assert(Seq::<(Seq<char>, usize, Seq<char>)>::empty() + index_spec(fv) =~= index_spec(fv));
    }
    while i < n
        invariant
            n == files@.len(),
            fv == files_view(files@),
            0 <= i <= n,
            index_view(out@) + index_spec(fv.skip(i as int)) == index_spec(fv),
        decreases n - i,
    {
        let ghost rest = fv.skip(i as int);
        proof {
            assert(rest.len() > 0);
            assert(rest[0] == fv[i as int]);
            assert(rest.drop_first() =~= fv.skip(i + 1));
        }
        let mut part = index_file(files[i].path.as_str(), files[i].code.as_str());
        let ghost out_before = out@;
        let ghost part_v = part@;
        let m = part.len();
        let mut j: usize = 0;
        proof {
            assert(index_view(out@) + index_view(part_v.skip(0)) =~= index_view(out@)
                + index_view(part_v));
            assert(part_v.skip(0) =~= part_v);
        }
        while j < m
            invariant
                m == part@.len(),
                part@ == part_v,
                0 <= j <= m,
                index_view(out@) == index_view(out_before) + index_view(part_v.take(j as int)),
            decreases m - j,
        {
            let item = CodeIndex {
                path: part[j].path.clone(),
                line: part[j].line,
                line_code: part[j].line_code.clone(),
            };
            proof {
                assert(part_v.take(j + 1) =~= part_v.take(j as int) + seq![part_v[j as int]]);
                assert(index_view(part_v.take(j as int) + seq![part_v[j as int]]) =~= index_view(
                    part_v.take(j as int),
                ) + seq![(part_v[j as int].path@, part_v[j as int].line, part_v[j as int].line_code@)]);
                assert(index_view(out@ + seq![item]) =~= index_view(out@) + seq![
                    (item.path@, item.line, item.line_code@),
                ]);
                assert(index_view(out_before) + (index_view(part_v.take(j as int)) + seq![
                    (part_v[j as int].path@, part_v[j as int].line, part_v[j as int].line_code@),
                ]) =~= (index_view(out_before) + index_view(part_v.take(j as int))) + seq![
                    (part_v[j as int].path@, part_v[j as int].line, part_v[j as int].line_code@),
                ]);
            }
            out.push(item);
            j += 1;
        }
        proof {
            assert(part_v.take(m as int) =~= part_v);
            assert(index_view(part_v) == file_entries(fv[i as int].0, fv[i as int].1));
            assert((index_view(out_before) + index_view(part_v)) + index_spec(fv.skip(i + 1))
                =~= index_view(out_before) + (index_view(part_v) + index_spec(fv.skip(i + 1))));
        }
        i += 1;
    }
    proof {
        assert(fv.skip(n as int) =~= Seq::<(Seq<char>, Seq<char>)>::empty());
        assert(index_view(out@) + Seq::<(Seq<char>, usize, Seq<char>)>::empty() =~= index_view(
            out@,
        ));
    }
    out
}

/// The records whose text contains the needle, in index order.
pub open spec fn filter_index(
    ix: Seq<(Seq<char>, usize, Seq<char>)>,
    needle: Seq<char>,
) -> Seq<(Seq<char>, usize, Seq<char>)>
    decreases ix.len(),
{
    if ix.len() == 0 {
        Seq::empty()
    } else {
        let rest = filter_index(ix.drop_first(), needle);
        if seq_contains(ix[0].2, needle) {
            seq![ix[0]] + rest
        } else {
            rest
        }
    }
}

/// Looks `needle` up in the index: every record whose line text contains it
/// as a substring, in index order.
pub fn search_index(index: &Vec<CodeIndex>, needle: &str) -> (r: Vec<CodeIndex>)
    ensures
        index_view(r@) == filter_index(index_view(index@), needle@),
{
    let ghost iv = index_view(index@);
    let mut out: Vec<CodeIndex> = Vec::new();
    let n = index.len();
    let mut i: usize = 0;
    proof {
        assert(iv.skip(0) =~= iv);
        assert(index_view(out@) =~= Seq::<(Seq<char>, usize, Seq<char>)>::empty());
        assert(Seq::<(Seq<char>, usize, Seq<char>)>::empty() + filter_index(iv, needle@)
            =~= filter_index(iv, needle@));
    }
    while i < n
        invariant
            n == index@.len(),
            iv == index_view(index@),
            0 <= i <= n,
            index_view(out@) + filter_index(iv.skip(i as int), needle@) == filter_index(
                iv,
                needle@,
            ),
        decreases n - i,
    {
        let ghost rest = iv.skip(i as int);
        proof {
            assert(rest.len() > 0);
            assert(rest[0] == iv[i as int]);
            assert(rest.drop_first() =~= iv.skip(i + 1));
        }
        if str_contains(index[i].line_code.as_str(), needle) {
            let item = CodeIndex {
                path: index[i].path.clone(),
                line: index[i].line,
                line_code: index[i].line_code.clone(),
            };
            proof {
                assert(index_view(out@ + seq![item]) =~= index_view(out@) + seq![iv[i as int]]);
                assert((index_view(out@) + seq![iv[i as int]]) + filter_index(
                    iv.skip(i + 1),
                    needle@,
                ) =~= index_view(out@) + (seq![iv[i as int]] + filter_index(
                    iv.skip(i + 1),
                    needle@,
                )));
            }
            out.push(item);
        }
        i += 1;
    }
    proof {
        assert(iv.skip(n as int) =~= Seq::<(Seq<char>, usize, Seq<char>)>::empty());
        assert(filter_index(iv.skip(n as int), needle@) =~= Seq::<
            (Seq<char>, usize, Seq<char>),
        >::empty());
        assert(index_view(out@) + Seq::<(Seq<char>, usize, Seq<char>)>::empty() =~= index_view(
            out@,
        ));
    }
    out
}

} // verus!
