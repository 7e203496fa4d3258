//! Splitting a line into words at ASCII whitespace.

use vstd::prelude::*;
use crate::command::Command;
use crate::text::{chars_of, texts};

verus! {

/// Whether `c` separates words: space, tab, line feed, form feed or carriage
/// return.
pub open spec fn is_separator(c: char) -> bool {
    c == ' ' || c == '\t' || c == '\n' || c == '\x0C' || c == '\r'
}

/// Tells whether `c` separates words.
pub fn char_is_separator(c: char) -> (r: bool)
    ensures
        r == is_separator(c),
{
    c == ' ' || c == '\t' || c == '\n' || c == '\x0C' || c == '\r'
}

/// The words of `line`: its maximal runs of characters that are no
/// separators, from left to right.
///
/// Read from the left, a separator adds nothing; any other character
/// lengthens the last word where the character before it belongs to one, and
/// starts a new word where it does not.
pub open spec fn words(line: Seq<char>) -> Seq<Seq<char>>
    decreases line.len(),
{
    if line.len() == 0 {
        Seq::empty()
    } else {
        let before = words(line.drop_last());
        let c = line.last();
        if is_separator(c) {
            before
        } else if line.len() >= 2 && !is_separator(line[line.len() - 2]) && before.len() > 0 {
            before.drop_last().push(before.last().push(c))
        } else {
            before.push(seq![c])
        }
    }
}

/// Whether `line` holds at least one word.
pub open spec fn has_word(line: Seq<char>) -> bool {
    exists|i: int| 0 <= i < line.len() && !is_separator(#[trigger] line[i])
}

/// No word is empty, and no word holds a separator.
pub proof fn lemma_words_hold_no_separator(line: Seq<char>)
    ensures
        forall|k: int|
            0 <= k < words(line).len() ==> (#[trigger] words(line)[k]).len() > 0 && forall|j: int|
                0 <= j < words(line)[k].len() ==> !is_separator(#[trigger] words(line)[k][j]),
    decreases line.len(),
{
    if line.len() > 0 {
        let before = words(line.drop_last());
        let c = line.last();
        lemma_words_hold_no_separator(line.drop_last());
        assert forall|k: int| 0 <= k < words(line).len() implies (#[trigger] words(line)[k]).len()
            > 0 && forall|j: int|
            0 <= j < words(line)[k].len() ==> !is_separator(#[trigger] words(line)[k][j]) by {
            if !is_separator(c) && k == words(line).len() - 1 {
                if line.len() >= 2 && !is_separator(line[line.len() - 2]) && before.len() > 0 {
                    assert(words(line)[k] == before.last().push(c));
                    assert(before.last() == before[before.len() - 1]);
                } else {
                    assert(words(line)[k] == seq![c]);
                }
            } else {
                assert(words(line)[k] == before[k]);
            }
        }
    }
}

/// A line holds a word exactly where one of its characters is no separator.
pub proof fn lemma_words_where_has_word(line: Seq<char>)
    ensures
        words(line).len() > 0 <==> has_word(line),
    decreases line.len(),
{
    if line.len() > 0 {
        let before = line.drop_last();
        lemma_words_where_has_word(before);
        if has_word(before) {
            let i = choose|i: int| 0 <= i < before.len() && !is_separator(#[trigger] before[i]);
            assert(!is_separator(line[i]));
        }
        if has_word(line) && is_separator(line.last()) {
            let i = choose|i: int| 0 <= i < line.len() && !is_separator(#[trigger] line[i]);
            assert(!is_separator(before[i]));
        }
        if !is_separator(line.last()) {
            assert(!is_separator(line[line.len() - 1]));
        }
    }
}

/// The words of `found` written one behind the other.
pub open spec fn joined(found: Seq<Seq<char>>) -> Seq<char>
    decreases found.len(),
{
    if found.len() == 0 {
        Seq::empty()
    } else {
        joined(found.drop_last()) + found.last()
    }
}

/// The test for a character that is no separator.
pub open spec fn no_separator() -> spec_fn(char) -> bool {
    |c: char| !is_separator(c)
}

/// The words of a line, one behind the other, are the line without its
/// separators: splitting loses no character, adds none, and keeps the order.
pub proof fn lemma_words_keep_the_text(line: Seq<char>)
    ensures
        joined(words(line)) == line.filter(no_separator()),
    decreases line.len(),
{
    let kept = no_separator();
    reveal(Seq::filter);
    if line.len() == 0 {
        assert(joined(words(line)) =~= line.filter(kept));
    } else {
        let rest = line.drop_last();
        let before = words(rest);
        let c = line.last();
        lemma_words_keep_the_text(rest);
        if !is_separator(c) {
            if line.len() >= 2 && !is_separator(line[line.len() - 2]) && before.len() > 0 {
                let grown = before.drop_last().push(before.last().push(c));
                assert(grown.drop_last() =~= before.drop_last());
                assert(joined(grown) =~= joined(before) + seq![c]);
            } else {
                assert(before.push(seq![c]).drop_last() =~= before);
            }
            assert(joined(words(line)) =~= line.filter(kept));
        } else {
            assert(!kept(c));
        }
    }
}

/// Whether `line[from..to]` is a maximal run of characters that are no
/// separators: it holds none, it is not empty, and it can be lengthened at
/// neither end.
pub open spec fn is_run(line: Seq<char>, from: int, to: int) -> bool {
    &&& 0 <= from < to <= line.len()
    &&& forall|i: int| from <= i < to ==> !is_separator(#[trigger] line[i])
    &&& from == 0 || is_separator(line[from - 1])
    &&& to == line.len() || is_separator(line[to])
}

/// Whether `spans` gives, word by word, the place of each word of `line`:
/// each word is a maximal run, the runs come in order, and every character
/// that is no separator lies in one of them.
pub open spec fn places_words(line: Seq<char>, spans: Seq<(int, int)>) -> bool {
    &&& spans.len() == words(line).len()
    &&& forall|k: int|
        0 <= k < spans.len() ==> is_run(line, (#[trigger] spans[k]).0, spans[k].1) && words(
            line,
        )[k] == line.subrange(spans[k].0, spans[k].1)
    &&& forall|k: int, l: int|
        0 <= k < l < spans.len() ==> (#[trigger] spans[k]).1 < (#[trigger] spans[l]).0
    &&& forall|i: int|
        0 <= i < line.len() && !is_separator(#[trigger] line[i]) ==> exists|k: int|
            0 <= k < spans.len() && (#[trigger] spans[k]).0 <= i < spans[k].1
}

/// The words of a line are exactly its maximal runs of characters that are
/// no separators, from left to right.
pub proof fn lemma_words_are_the_runs(line: Seq<char>) -> (spans: Seq<(int, int)>)
    ensures
        places_words(line, spans),
    decreases line.len(),
{
    if line.len() == 0 {
        Seq::empty()
    } else {
        let old_spans = lemma_words_are_the_runs(line.drop_last());
        lemma_words_are_the_runs_step(line, old_spans)
    }
}

/// The step of [`lemma_words_are_the_runs`]: from the places of the words of
/// a line without its last character to those of the line.
proof fn lemma_words_are_the_runs_step(line: Seq<char>, old_spans: Seq<(int, int)>) -> (spans: Seq<
    (int, int),
>)
    requires
        line.len() > 0,
        places_words(line.drop_last(), old_spans),
    ensures
        places_words(line, spans),
{
    let rest = line.drop_last();
    let before = words(rest);
    let c = line.last();
    let n = line.len() as int;
    assert forall|k: int| 0 <= k < old_spans.len() implies rest.subrange(
        (#[trigger] old_spans[k]).0,
        old_spans[k].1,
    ) == line.subrange(old_spans[k].0, old_spans[k].1) by {
        assert(rest.subrange(old_spans[k].0, old_spans[k].1) =~= line.subrange(
            old_spans[k].0,
            old_spans[k].1,
        ));
    }
    assert forall|i: int| 0 <= i < n - 1 implies rest[i] == line[i] by {}
    if is_separator(c) {
        assert forall|i: int| 0 <= i < n && !is_separator(#[trigger] line[i]) implies exists|k: int|
            0 <= k < old_spans.len() && (#[trigger] old_spans[k]).0 <= i < old_spans[k].1 by {
            assert(!is_separator(rest[i]));
        }
        old_spans
    } else if n >= 2 && !is_separator(line[n - 2]) {
        // The character before lies in a word, which must be the last one
        // and must end where `rest` ends.
        assert(!is_separator(rest[n - 2]));
        let last = choose|k: int|
            0 <= k < old_spans.len() && (#[trigger] old_spans[k]).0 <= n - 2 < old_spans[k].1;
        assert(is_run(rest, old_spans[last].0, old_spans[last].1));
        if last < old_spans.len() - 1 {
            assert(is_run(rest, old_spans[last + 1].0, old_spans[last + 1].1));
            assert(old_spans[last].1 < old_spans[last + 1].0);
        }
        assert(last == old_spans.len() - 1);
        let from = old_spans[last].0;
        let spans = old_spans.update(last, (from, n));
        assert(before.last() == rest.subrange(from, n - 1));
        assert(before.last().push(c) =~= line.subrange(from, n));
        assert forall|k: int| 0 <= k < spans.len() implies is_run(
            line,
            (#[trigger] spans[k]).0,
            spans[k].1,
        ) && words(line)[k] == line.subrange(spans[k].0, spans[k].1) by {
            if k < last {
                assert(is_run(rest, old_spans[k].0, old_spans[k].1));
                assert(old_spans[k].1 < old_spans[last].0);
                assert(words(line)[k] == before[k]);
            }
        }
        assert forall|i: int| 0 <= i < n && !is_separator(#[trigger] line[i]) implies exists|k: int|
            0 <= k < spans.len() && (#[trigger] spans[k]).0 <= i < spans[k].1 by {
            if i < n - 1 {
                assert(!is_separator(rest[i]));
                let k = choose|k: int|
                    0 <= k < old_spans.len() && (#[trigger] old_spans[k]).0 <= i < old_spans[k].1;
                assert(spans[k].0 <= i < spans[k].1);
            } else {
                assert(spans[last].0 <= i < spans[last].1);
            }
        }
        spans
    } else {
        let spans = old_spans.push((n - 1, n));
        assert(words(line) == before.push(seq![c]));
        assert(seq![c] =~= line.subrange(n - 1, n));
        assert forall|k: int| 0 <= k < old_spans.len() implies (#[trigger] old_spans[k]).1 < n
            - 1 by {
            assert(is_run(rest, old_spans[k].0, old_spans[k].1));
            if n >= 2 && old_spans[k].1 == n - 1 {
                assert(!is_separator(rest[n - 2]));
            }
        }
        assert forall|k: int| 0 <= k < spans.len() implies is_run(
            line,
            (#[trigger] spans[k]).0,
            spans[k].1,
        ) && words(line)[k] == line.subrange(spans[k].0, spans[k].1) by {
            if k < old_spans.len() {
                assert(is_run(rest, old_spans[k].0, old_spans[k].1));
                assert(old_spans[k].1 < n - 1);
                assert(words(line)[k] == before[k]);
            }
        }
        assert forall|i: int| 0 <= i < n && !is_separator(#[trigger] line[i]) implies exists|k: int|
            0 <= k < spans.len() && (#[trigger] spans[k]).0 <= i < spans[k].1 by {
            if i < n - 1 {
                assert(!is_separator(rest[i]));
                let k = choose|k: int|
                    0 <= k < old_spans.len() && (#[trigger] old_spans[k]).0 <= i < old_spans[k].1;
                assert(spans[k].0 <= i < spans[k].1);
            } else {
                assert(spans[spans.len() - 1].0 <= i < spans[spans.len() - 1].1);
            }
        }
        spans
    }
}

/// Splits `line` into its words.
pub fn split_words(line: &str) -> (found: Vec<String>)
    ensures
        texts(found@) == words(line@),
{
    let chars = chars_of(line);
    let mut found: Vec<String> = Vec::new();
    let mut word = String::new();
    let mut in_word = false;
    let mut i: usize = 0;
    while i < chars.len()
        invariant
            i <= chars.len(),
            chars@ == line@,
            in_word ==> i > 0 && !is_separator(chars@[i - 1]) && word@.len() > 0,
            in_word ==> words(chars@.take(i as int)) == texts(found@).push(word@),
            !in_word ==> words(chars@.take(i as int)) == texts(found@),
            !in_word ==> i == 0 || is_separator(chars@[i - 1]),
            !in_word ==> word@.len() == 0,
        decreases chars.len() - i,
    {
        let c = chars[i];
        proof {
            assert(chars@.take(i + 1).drop_last() =~= chars@.take(i as int));
            assert(chars@.take(i + 1).last() == c);
        }
        if char_is_separator(c) {
            if in_word {
                let ghost before = texts(found@);
                found.push(word);
                assert(texts(found@) =~= before.push(word@));
                word = String::new();
                in_word = false;
            }
        } else {
            proof {
                let ws = words(chars@.take(i as int));
                if in_word {
                    assert(ws.drop_last() =~= texts(found@));
                    assert(ws.last() == word@);
                }
            }
            word.push(c);
            in_word = true;
            proof {
                if i == 0 || is_separator(chars@[i - 1]) {
                    assert(word@ =~= seq![c]);
                }
            }
        }
        i = i + 1;
    }
    assert(chars@.take(i as int) =~= chars@);
    if in_word {
        let ghost before = texts(found@);
        found.push(word);
        assert(texts(found@) =~= before.push(word@));
    }
    found
}

/// Splits a command line into its keyword, the first word, and its
/// arguments, the words after it. The line must hold a word.
pub fn tokenize_command(command: String) -> (parsed: Command)
    requires
        words(command@).len() > 0,
    ensures
        parsed@.keyword == words(command@)[0],
        parsed@.args == words(command@).drop_first(),
{
    let found = split_words(command.as_str());
    assert(texts(found@)[0] == found@[0]@);
    Command::from_words(found)
}

} // verus!
