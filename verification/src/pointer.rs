//! The pointer file: one line of text that records the settings file the user
//! chose last, so that the choice outlives the process.
//!
//! The file holds exactly the chosen path. It is read back trimmed: white space
//! around the path, such as a line end that an editor added, does not count.

use vstd::prelude::*;
use vstd::string::*;
use crate::host::{is_white_space, white_space};

verus! {

/// For each character of `s`, whether it is white space.
pub open spec fn white_flags(s: Seq<char>) -> Seq<bool> {
    Seq::new(s.len(), |i: int| white_space(s[i]))
}

/// The flags that count for a text of `len` characters: a character without a
/// flag is not white space, and a flag without a character is dropped.
pub open spec fn flags_for(len: nat, white: Seq<bool>) -> Seq<bool> {
    Seq::new(len, |i: int| i < white.len() && white[i])
}

/// The first index at or after `from` whose flag is not set, or `white.len()`
/// where there is none.
pub open spec fn first_clear(white: Seq<bool>, from: int) -> int
    decreases white.len() - from,
{
    if from < 0 || from >= white.len() {
        white.len() as int
    } else if !white[from] {
        from
    } else {
        first_clear(white, from + 1)
    }
}

/// One past the last index below `upto` whose flag is not set, or 0 where there
/// is none.
pub open spec fn clear_end(white: Seq<bool>, upto: int) -> int
    decreases upto,
{
    if upto <= 0 || upto > white.len() {
        0
    } else if !white[upto - 1] {
        upto
    } else {
        clear_end(white, upto - 1)
    }
}

/// `s` without the characters flagged at its beginning and at its end: what lies
/// from the first character that is not flagged up to the last one. Nothing is
/// left where every character is flagged.
pub open spec fn cut(s: Seq<char>, white: Seq<bool>) -> Seq<char> {
    let flags = flags_for(s.len(), white);
    let from = first_clear(flags, 0);
    let to = clear_end(flags, s.len() as int);
    if from < to {
        s.subrange(from, to)
    } else {
        Seq::empty()
    }
}

/// `s` without its leading and trailing white space.
pub open spec fn trimmed(s: Seq<char>) -> Seq<char> {
    cut(s, white_flags(s))
}

/// `first_clear` is where the leading run of set flags ends.
pub proof fn lemma_first_clear(white: Seq<bool>, from: int, at: int)
    requires
        0 <= from <= at <= white.len(),
        forall|k: int| from <= k < at ==> #[trigger] white[k],
        at < white.len() ==> !white[at],
    ensures
        first_clear(white, from) == at,
    decreases at - from,
{
    if from < at {
        lemma_first_clear(white, from + 1, at);
    }
}

/// `clear_end` is where the trailing run of set flags begins.
pub proof fn lemma_clear_end(white: Seq<bool>, upto: int, at: int)
    requires
        0 <= at <= upto <= white.len(),
        forall|k: int| at <= k < upto ==> #[trigger] white[k],
        at > 0 ==> !white[at - 1],
    ensures
        clear_end(white, upto) == at,
    decreases upto - at,
{
    if at < upto {
        lemma_clear_end(white, upto - 1, at);
    }
}

/// `clear_end` lies at or below `upto`, with set flags from there up to `upto`
/// and a flag that is not set just below it.
pub proof fn lemma_clear_end_is_low(white: Seq<bool>, upto: int)
    requires
        0 <= upto <= white.len(),
    ensures
        0 <= clear_end(white, upto) <= upto,
        forall|k: int| clear_end(white, upto) <= k < upto ==> #[trigger] white[k],
        clear_end(white, upto) > 0 ==> !white[clear_end(white, upto) - 1],
    decreases upto,
{
    if upto > 0 && white[upto - 1] {
        lemma_clear_end_is_low(white, upto - 1);
    }
}

/// Whether `s` neither begins nor ends with white space.
pub open spec fn solid_at_both_ends(s: Seq<char>) -> bool {
    s.len() > 0 ==> !white_space(s[0]) && !white_space(s.last())
}

/// Trimming leaves a text that neither begins nor ends with white space as it is.
pub proof fn lemma_trimmed_keeps_solid_text(s: Seq<char>)
    requires
        solid_at_both_ends(s),
    ensures
        trimmed(s) == s,
{
    let flags = flags_for(s.len(), white_flags(s));
    if s.len() > 0 {
        lemma_first_clear(flags, 0, 0);
        lemma_clear_end(flags, s.len() as int, s.len() as int);
        assert(s.subrange(0, s.len() as int) =~= s);
    } else {
        assert(s =~= Seq::empty());
    }
}

/// Whether the character at `i` counts as flagged.
fn flagged(white: &Vec<bool>, i: usize) -> (set: bool)
    ensures
        set == (i < white@.len() && white@[i as int]),
{
    i < white.len() && white[i]
}

/// Cuts from `text` the characters flagged at its beginning and at its end.
/// `white` holds one flag for each character, in order.
pub fn cut_text(text: &str, white: &Vec<bool>) -> (rest: String)
    ensures
        rest@ == cut(text@, white@),
{
    let len: usize = text.unicode_len();
    let ghost flags = flags_for(text@.len(), white@);
    let mut from: usize = 0;
    while from < len && flagged(white, from)
        invariant
            from <= len == text@.len(),
            flags == flags_for(text@.len(), white@),
            forall|k: int| 0 <= k < from ==> #[trigger] flags[k],
        decreases len - from,
    {
        from = from + 1;
    }
    let mut to: usize = len;
    while to > from && flagged(white, to - 1)
        invariant
            from <= to <= len == text@.len(),
            flags == flags_for(text@.len(), white@),
            from < len ==> !flags[from as int],
            forall|k: int| to <= k < len ==> #[trigger] flags[k],
        decreases to,
    {
        to = to - 1;
    }
    proof {
        lemma_first_clear(flags, 0, from as int);
        if from < to {
            lemma_clear_end(flags, len as int, to as int);
        } else {
            lemma_clear_end_is_low(flags, len as int);
        }
    }
    if from < to {
        String::from_str(text.substring_char(from, to))
    } else {
        String::new()
    }
}

/// The candidate path that a pointer file's text stands for: the text without
/// the white space around it.
pub fn candidate_path(text: &str) -> (candidate: String)
    ensures
        candidate@ == trimmed(text@),
{
    let mut white: Vec<bool> = Vec::new();
    for c in it: text.chars()
        invariant
            it.seq() == text@,
            white@.len() == it.index(),
            forall|k: int| 0 <= k < white@.len() ==> white@[k] == white_space(#[trigger] text@[k]),
    {
        white.push(is_white_space(c));
    }
    assert(white@ =~= white_flags(text@));
    cut_text(text, &white)
}

} // verus!
