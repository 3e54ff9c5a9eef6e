//! Input hints for the interactive session.
//!
//! A hint pairs the full text shown to the user with the number of leading
//! characters already typed, so that completion may insert the remainder.
//! Positions are counted in characters.

use vstd::prelude::*;
use vstd::string::StrSliceExecFns;

use crate::text::str_starts_with;

verus! {

/// One interactive-mode input hint.
#[derive(Debug, PartialEq, Eq, Hash)]
pub struct CommandHint {
    pub display: String,
    pub complete_up_to: usize,
}

/// A hint never claims more typed characters than its display holds.
pub open spec fn hint_wf(h: CommandHint) -> bool {
    h.complete_up_to <= h.display@.len()
}

/// Every hint of a list is well formed.
pub open spec fn hints_wf(hs: Seq<CommandHint>) -> bool {
    forall|i: int| 0 <= i < hs.len() ==> hint_wf(#[trigger] hs[i])
}

/// The (display, complete_up_to) values of a hint stripped of its first
/// `strip` characters, the count saturating at zero.
pub open spec fn hint_suffix_view(h: CommandHint, strip: usize) -> (Seq<char>, usize) {
    (
        h.display@.skip(strip as int),
        if h.complete_up_to >= strip {
            (h.complete_up_to - strip) as usize
        } else {
            0usize
        },
    )
}

/// The first hint of the list whose display starts with `line`, stripped of
/// the first `pos` characters.
pub open spec fn first_hint(hs: Seq<CommandHint>, line: Seq<char>, pos: usize) -> Option<
    (Seq<char>, usize),
>
    decreases hs.len(),
{
    if hs.len() == 0 {
        None
    } else if line.is_prefix_of(hs[0].display@) {
        Some(hint_suffix_view(hs[0], pos))
    } else {
        first_hint(hs.drop_first(), line, pos)
    }
}

/// What hinting returns: nothing for an empty line or a cursor before the
/// line's end, else the first matching hint's remainder.
pub open spec fn hint_spec(hs: Seq<CommandHint>, line: Seq<char>, pos: usize) -> Option<
    (Seq<char>, usize),
> {
    if line.len() == 0 || (pos as int) < line.len() {
        None
    } else {
        first_hint(hs, line, pos)
    }
}

impl CommandHint {
    /// A hint displaying `text`, of which the `complete_up_to` prefix is
    /// counted as already typed.
    pub fn new(text: &str, complete_up_to: &str) -> (r: CommandHint)
        requires
            complete_up_to@.is_prefix_of(text@),
        ensures
            r.display@ == text@,
            r.complete_up_to == complete_up_to@.len(),
            hint_wf(r),
    {
        let l = complete_up_to.unicode_len();
        CommandHint { display: text.to_owned(), complete_up_to: l }
    }

    /// This hint with its first `strip_chars` characters removed; the typed
    /// count saturates at zero.
    pub fn suffix(&self, strip_chars: usize) -> (r: CommandHint)
        requires
            strip_chars <= self.display@.len(),
        ensures
            (r.display@, r.complete_up_to) == hint_suffix_view(*self, strip_chars),
            hint_wf(*self) ==> hint_wf(r),
    {
        let len = self.display.as_str().unicode_len();
        let display = self.display.as_str().substring_char(strip_chars, len).to_owned();
        let complete_up_to = if self.complete_up_to >= strip_chars {
            self.complete_up_to - strip_chars
        } else {
            0
        };
        proof {
            assert(self.display@.subrange(strip_chars as int, self.display@.len() as int)
                =~= self.display@.skip(strip_chars as int));
        }
        CommandHint { display, complete_up_to }
    }

    /// The text completion may insert: the typed prefix of the display, or
    /// nothing when no characters are counted as typed.
    pub fn completion(&self) -> (r: Option<String>)
        requires
            hint_wf(*self),
        ensures
            match r {
                Some(p) => self.complete_up_to > 0 && p@ == self.display@.take(
                    self.complete_up_to as int,
                ),
                None => self.complete_up_to == 0,
            },
    {
        if self.complete_up_to > 0 {
            let p = self.display.as_str().substring_char(0, self.complete_up_to).to_owned();
            proof {
                assert(self.display@.subrange(0, self.complete_up_to as int) =~= self.display@.take(
                    self.complete_up_to as int,
                ));
            }
            Some(p)
        } else {
            None
        }
    }

    /// The full text shown for this hint.
    pub fn display(&self) -> (r: &str)
        ensures
            r@ == self.display@,
    {
        self.display.as_str()
    }
}

/// Supplies hints for the interactive session.
pub struct CodeHinter {
    pub hints: Vec<CommandHint>,
}

impl CodeHinter {
    /// The hint for the current line and cursor position: nothing for an
    /// empty line or a cursor before the line's end; otherwise the first
    /// hint, in list order, whose display starts with the line, stripped of
    /// the typed characters.
    pub fn hint(&self, line: &str, pos: usize) -> (r: Option<CommandHint>)
        requires
            pos <= line@.len(),
            hints_wf(self.hints@),
        ensures
            match r {
                Some(h) => hint_spec(self.hints@, line@, pos) == Some(
                    (h.display@, h.complete_up_to),
                ),
                None => hint_spec(self.hints@, line@, pos) is None,
            },
    {
        let llen = line.unicode_len();
        if llen == 0 || pos < llen {
            return None;
        }
        let ghost hs = self.hints@;
        let n = self.hints.len();
        let mut i: usize = 0;
        proof {
            assert(hs.skip(0) =~= hs);
        }
        while i < n
            invariant
                n == self.hints@.len(),
                hs == self.hints@,
                hints_wf(hs),
                pos <= line@.len(),
                line@.len() > 0,
                pos as int >= line@.len(),
                first_hint(hs.skip(i as int), line@, pos) == first_hint(hs, line@, pos),
                0 <= i <= n,
            decreases n - i,
        {
            let ghost rest = hs.skip(i as int);
            proof {
                assert(rest.len() > 0);
                assert(rest[0] == hs[i as int]);
                assert(rest.drop_first() =~= hs.skip(i + 1));
            }
            let h = &self.hints[i];
            if str_starts_with(h.display.as_str(), line) {
                return Some(h.suffix(pos));
            }
            i += 1;
        }
        proof {
            assert(hs.skip(n as int) =~= Seq::<CommandHint>::empty());
        }
        None
    }
}

/// The built-in hints of the interactive session, in consultation order.
pub fn diy_hints() -> (r: Vec<CommandHint>)
    ensures
        r@.len() == 4,
        hints_wf(r@),
        r@[0].display@ == "help"@ && r@[0].complete_up_to == "help"@.len(),
        r@[1].display@ == "outline 代码文件路径"@ && r@[1].complete_up_to == "outline "@.len(),
        r@[2].display@ == "search path search_key"@ && r@[2].complete_up_to == "search "@.len(),
        r@[3].display@ == "quit()"@ && r@[3].complete_up_to == "quit()"@.len(),
{
    proof {
        reveal_strlit("help");
        reveal_strlit("outline 代码文件路径");
        reveal_strlit("outline ");
        reveal_strlit("search path search_key");
        reveal_strlit("search ");
        reveal_strlit("quit()");
        assert("help"@ =~= "help"@.subrange(0, "help"@.len() as int));
        assert("outline "@ =~= "outline 代码文件路径"@.subrange(0, "outline "@.len() as int));
        assert("search "@ =~= "search path search_key"@.subrange(0, "search "@.len() as int));
        assert("quit()"@ =~= "quit()"@.subrange(0, "quit()"@.len() as int));
    }
    let mut set: Vec<CommandHint> = Vec::new();
    set.push(CommandHint::new("help", "help"));
    set.push(CommandHint::new("outline 代码文件路径", "outline "));
    set.push(CommandHint::new("search path search_key", "search "));
    set.push(CommandHint::new("quit()", "quit()"));
    set
}

} // verus!
