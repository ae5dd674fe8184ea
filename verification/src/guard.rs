//! The port guard: who has to leave the backend's port before a launch.
//!
//! The operating system is asked which processes listen on the port and
//! answers with text, one process id per line. This module reads that text.

use vstd::prelude::*;

verus! {

/// The TCP port on which the backend listens.
pub const TARGET_PORT: u16 = 4000;

/// Whether the guard does anything on this platform.
#[derive(Clone, Copy, Debug, PartialEq, Eq, Structural)]
pub enum GuardPolicy {
    /// The tools to find and stop a listener are at hand.
    Active,
    /// They are not: the guard is skipped.
    Inactive,
}

/// Blank, tab, line feed, vertical tab, form feed, carriage return.
pub open spec fn is_blank(b: u8) -> bool {
    b == 32 || (9 <= b && b <= 13)
}

/// An ASCII decimal digit.
pub open spec fn is_digit(b: u8) -> bool {
    48 <= b && b <= 57
}

/// Whether every byte of `word` is a decimal digit.
pub open spec fn all_digits(word: Seq<u8>) -> bool {
    forall|i: int| 0 <= i < word.len() ==> is_digit(#[trigger] word[i])
}

/// The number that a row of decimal digits writes.
pub open spec fn decimal(word: Seq<u8>) -> nat
    decreases word.len(),
{
    if word.len() == 0 {
        0
    } else {
        (10 * decimal(word.drop_last()) + (word.last() - 48)) as nat
    }
}

/// Length of the word at the front of `text`: the bytes up to the first
/// blank, or all of them.
pub open spec fn word_len(text: Seq<u8>) -> nat
    decreases text.len(),
{
    if text.len() == 0 || is_blank(text[0]) {
        0
    } else {
        1 + word_len(text.skip(1))
    }
}

/// The process id that a word names: a row of digits whose number fits
/// into 32 bits. Anything else names none.
pub open spec fn pid_of(word: Seq<u8>) -> Option<u32> {
    if word.len() > 0 && all_digits(word) && decimal(word) <= u32::MAX {
        Some(decimal(word) as u32)
    } else {
        None
    }
}

/// The process ids named in `text`, word by word, in the order in which
/// they stand. Words are separated by blanks; a word that names no process
/// id is passed over.
pub open spec fn holders(text: Seq<u8>) -> Seq<u32>
    decreases text.len(),
    via holders_terminates
{
    if text.len() == 0 {
        Seq::empty()
    } else if is_blank(text[0]) {
        holders(text.skip(1))
    } else {
        let n = word_len(text) as int;
        match pid_of(text.take(n)) {
            Some(pid) => seq![pid] + holders(text.skip(n)),
            None => holders(text.skip(n)),
        }
    }
}

#[via_fn]
proof fn holders_terminates(text: Seq<u8>) {
    lemma_word_len_bounds(text);
}

/// The process ids named by the answer to the query for listeners; none
/// where the query failed and there is no answer.
pub open spec fn listed(answer: Option<Seq<u8>>) -> Seq<u32> {
    match answer {
        Some(text) => holders(text),
        None => Seq::empty(),
    }
}

/// The word at the front of a text that does not start with a blank is not
/// empty and does not reach beyond the text.
pub proof fn lemma_word_len_bounds(text: Seq<u8>)
    ensures
        word_len(text) <= text.len(),
        text.len() > 0 && !is_blank(text[0]) ==> word_len(text) > 0,
    decreases text.len(),
{
    if text.len() > 0 && !is_blank(text[0]) {
        lemma_word_len_bounds(text.skip(1));
    }
}

/// A run of bytes without a blank is part of one word: the word at the
/// front of `text` is those `n` bytes and the word that follows them.
proof fn lemma_word_len_split(text: Seq<u8>, n: int)
    requires
        0 <= n <= text.len(),
        forall|k: int| 0 <= k < n ==> !is_blank(#[trigger] text[k]),
    ensures
        word_len(text) == n + word_len(text.skip(n)),
    decreases n,
{
    if n == 0 {
        assert(text.skip(0) =~= text);
    } else {
        let rest = text.skip(1);
        lemma_word_len_split(rest, n - 1);
        assert(rest.skip(n - 1) =~= text.skip(n));
    }
}

/// The word at the front of a text holds no blank, and it ends at a blank
/// or at the end of the text.
pub proof fn lemma_word_is_maximal(text: Seq<u8>)
    ensures
        forall|k: int| 0 <= k < word_len(text) ==> !is_blank(#[trigger] text[k]),
        word_len(text) < text.len() ==> is_blank(text[word_len(text) as int]),
    decreases text.len(),
{
    lemma_word_len_bounds(text);
    if text.len() > 0 && !is_blank(text[0]) {
        let rest = text.skip(1);
        lemma_word_is_maximal(rest);
        lemma_word_len_bounds(rest);
        assert forall|k: int| 0 <= k < word_len(text) implies !is_blank(#[trigger] text[k]) by {
            if k > 0 {
                assert(text[k] == rest[k - 1]);
            }
        }
    }
}

/// A text without a blank is one word: it names the process id of that
/// word, or nobody.
pub proof fn law_single_word(word: Seq<u8>)
    requires
        word.len() > 0,
        forall|k: int| 0 <= k < word.len() ==> !is_blank(#[trigger] word[k]),
    ensures
        holders(word) == match pid_of(word) {
            Some(pid) => seq![pid],
            None => Seq::<u32>::empty(),
        },
{
    lemma_word_len_split(word, word.len() as int);
    assert(word.take(word.len() as int) =~= word);
    assert(holders(word.skip(word.len() as int)) =~= Seq::<u32>::empty());
}

/// Blanks separate: the process ids named by two texts with a blank in
/// between are those of the first text followed by those of the second.
pub proof fn law_blank_separates(before: Seq<u8>, blank: u8, after: Seq<u8>)
    requires
        is_blank(blank),
    ensures
        holders(before + seq![blank] + after) == holders(before) + holders(after),
    decreases before.len(),
{
    let text = before + seq![blank] + after;
    if before.len() == 0 {
        assert(text.skip(1) =~= after);
    } else if is_blank(before[0]) {
        law_blank_separates(before.skip(1), blank, after);
        assert(text.skip(1) =~= before.skip(1) + seq![blank] + after);
    } else {
        let n = word_len(before) as int;
        lemma_word_len_bounds(before);
        lemma_word_is_maximal(before);
        lemma_word_len_split(text, n);
        assert(text.take(n) =~= before.take(n));
        assert(text.skip(n) =~= before.skip(n) + seq![blank] + after);
        law_blank_separates(before.skip(n), blank, after);
    }
}

/// Nothing but blanks names nobody.
pub proof fn law_blanks_name_nobody(text: Seq<u8>)
    requires
        forall|k: int| 0 <= k < text.len() ==> is_blank(#[trigger] text[k]),
    ensures
        holders(text) == Seq::<u32>::empty(),
    decreases text.len(),
{
    if text.len() > 0 {
        let rest = text.skip(1);
        law_blanks_name_nobody(rest);
    }
}

/// Tells whether a byte separates words.
pub fn blank(b: u8) -> (r: bool)
    ensures
        r == is_blank(b),
{
    b == 32 || (9 <= b && b <= 13)
}

/// Reads the word that starts at `start` and says where it ends and which
/// process id it names, if any.
fn read_word(text: &[u8], start: usize) -> (r: (usize, Option<u32>))
    requires
        start < text@.len(),
        !is_blank(text@[start as int]),
    ensures
        start < r.0 <= text@.len(),
        r.0 - start == word_len(text@.skip(start as int)),
        r.1 == pid_of(text@.subrange(start as int, r.0 as int)),
{
    let mut end: usize = start;
    let mut value: u32 = 0;
    let mut fits = true;
    while end < text.len() && !blank(text[end])
        invariant
            start <= end <= text@.len(),
            start < text@.len(),
            !is_blank(text@[start as int]),
            forall|k: int| start <= k < end ==> !is_blank(#[trigger] text@[k]),
            fits ==> all_digits(text@.subrange(start as int, end as int)) && decimal(
                text@.subrange(start as int, end as int),
            ) == value,
            !fits ==> !all_digits(text@.subrange(start as int, end as int)) || decimal(
                text@.subrange(start as int, end as int),
            ) > u32::MAX,
        decreases text@.len() - end,
    {
        let b = text[end];
        proof {
            let before = text@.subrange(start as int, end as int);
            let after = text@.subrange(start as int, end + 1);
            assert(after.drop_last() =~= before);
        }
        if fits && 48 <= b && b <= 57 {
            let next: u64 = value as u64 * 10 + (b - 48) as u64;
            if next <= u32::MAX as u64 {
                value = next as u32;
            } else {
                fits = false;
            }
        } else {
            fits = false;
        }
        end = end + 1;
    }
    proof {
        let tail = text@.skip(start as int);
        lemma_word_len_split(tail, end - start);
    }
    if fits {
        (end, Some(value))
    } else {
        (end, None)
    }
}

/// Reads the answer to the query for listeners: the process ids that it
/// names, in order. Words that are not process ids are passed over, so any
/// text at all can be read.
pub fn read_holders(text: &[u8]) -> (pids: Vec<u32>)
    ensures
        pids@ == holders(text@),
{
    let mut pids: Vec<u32> = Vec::new();
    let mut at: usize = 0;
    proof {
        assert(text@.skip(0) =~= text@);
    }
    while at < text.len()
        invariant
            at <= text@.len(),
            holders(text@) == pids@ + holders(text@.skip(at as int)),
        decreases text@.len() - at,
    {
        let ghost rest = text@.skip(at as int);
        if blank(text[at]) {
            proof {
                assert(rest.skip(1) =~= text@.skip(at + 1));
            }
            at = at + 1;
        } else {
            let (end, pid) = read_word(text, at);
            proof {
                assert(rest.take(end - at) =~= text@.subrange(at as int, end as int));
                assert(rest.skip(end - at) =~= text@.skip(end as int));
            }
            match pid {
                Some(p) => {
                    pids.push(p);
                },
                None => {},
            }
            at = end;
        }
    }
    pids
}

/// Reads what the query for listeners came back with. A query that failed
/// names nobody.
pub fn list_holders(answer: Option<Vec<u8>>) -> (pids: Vec<u32>)
    ensures
        pids@ == listed(
            match answer {
                Some(text) => Some(text@),
                None => None,
            },
        ),
{
    match answer {
        Some(text) => read_holders(text.as_slice()),
        None => Vec::new(),
    }
}

} // verus!
