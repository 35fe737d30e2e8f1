//! Line framing of the history file: one entry per line, each line ended by a
//! line feed, and the cut that keeps the file from growing without bound.

use vstd::prelude::*;

verus! {

/// How many lines the history file keeps when it is cut.
pub const MAX_DISK_ENTRIES: usize = 5000;

/// The position of the first line feed, or the length if there is none.
pub open spec fn newline_at(text: Seq<char>) -> nat
    decreases text.len(),
{
    if text.len() == 0 || text[0] == '\n' {
        0
    } else {
        1 + newline_at(text.drop_first())
    }
}

/// A line as it stands before its line feed, without the carriage return of a
/// two-character line ending.
pub open spec fn without_cr(line: Seq<char>) -> Seq<char> {
    if line.len() > 0 && line.last() == '\r' {
        line.drop_last()
    } else {
        line
    }
}

/// The lines of a text. A line ends at a line feed or at a carriage return
/// followed by one; the ending is not part of the line, and the last line needs
/// none.
pub open spec fn lines(text: Seq<char>) -> Seq<Seq<char>>
    decreases text.len(),
{
    let end = newline_at(text);
    if text.len() == 0 {
        seq![]
    } else if end >= text.len() {
        seq![text]
    } else {
        seq![without_cr(text.take(end as int))] + lines(text.skip(end as int + 1))
    }
}

/// The text that holds the given lines, each ended by a line feed.
pub open spec fn framed(entries: Seq<Seq<char>>) -> Seq<char>
    decreases entries.len(),
{
    if entries.len() == 0 {
        seq![]
    } else {
        framed(entries.drop_last()) + entries.last().push('\n')
    }
}

/// The last `count` elements, or all of them if there are fewer.
pub open spec fn last_of<A>(items: Seq<A>, count: nat) -> Seq<A> {
    if items.len() <= count {
        items
    } else {
        items.skip(items.len() - count)
    }
}

/// The first `count` elements, or all of them if there are fewer.
pub open spec fn first_of<A>(items: Seq<A>, count: nat) -> Seq<A> {
    if items.len() <= count {
        items
    } else {
        items.take(count as int)
    }
}

/// What follows the first `count` elements.
pub open spec fn after_first<A>(items: Seq<A>, count: nat) -> Seq<A> {
    if items.len() <= count {
        seq![]
    } else {
        items.skip(count as int)
    }
}

/// The content that replaces a history file: nothing while it holds at most
/// [`MAX_DISK_ENTRIES`] lines, else its last lines, framed again.
pub open spec fn rotated(text: Seq<char>) -> Option<Seq<char>> {
    if lines(text).len() <= MAX_DISK_ENTRIES {
        None
    } else {
        Some(framed(last_of(lines(text), MAX_DISK_ENTRIES as nat)))
    }
}

/// The contents of a list of strings.
pub open spec fn texts(strings: Seq<String>) -> Seq<Seq<char>> {
    strings.map_values(|string: String| string@)
}

/// The first line feed after a stretch without one.
proof fn lemma_newline_at(head: Seq<char>, tail: Seq<char>)
    requires
        !head.contains('\n'),
    ensures
        newline_at(head + tail) == head.len() + newline_at(tail),
    decreases head.len(),
{
    if head.len() == 0 {
        assert(head + tail == tail);
    } else {
        assert((head + tail).drop_first() == head.drop_first() + tail);
        assert(head[0] != '\n');
        assert forall|i: int| 0 <= i < head.len() - 1 implies head.drop_first()[i] != '\n' by {
            assert(head.contains(head[i + 1]));
        }
        lemma_newline_at(head.drop_first(), tail);
    }
}

/// The lines of a text whose first line is ended by a line feed.
proof fn lemma_lines_step(head: Seq<char>, tail: Seq<char>)
    requires
        !head.contains('\n'),
    ensures
        lines(head.push('\n') + tail) == seq![without_cr(head)] + lines(tail),
{
    let text = head.push('\n') + tail;
    let rest = seq!['\n'] + tail;
    assert(text == head + rest);
    lemma_newline_at(head, rest);
    assert(newline_at(rest) == 0);
    assert(text.take(head.len() as int) == head);
    assert(text.skip(head.len() as int + 1) == tail);
}

/// The lines of a text without a line feed.
proof fn lemma_lines_end(text: Seq<char>)
    requires
        !text.contains('\n'),
    ensures
        lines(text) == if text.len() == 0 { Seq::<Seq<char>>::empty() } else { seq![text] },
{
    assert(text + Seq::<char>::empty() == text);
    lemma_newline_at(text, seq![]);
}

/// Splits a text into its lines.
pub fn split_lines(text: &str) -> (res: Vec<String>)
    ensures
        texts(res@) == lines(text@),
{
    let mut out: Vec<String> = Vec::new();
    let mut current = String::new();
    // Whether a carriage return was met that may belong to a line ending.
    let mut held = false;
    let ghost mut pending: Seq<char> = seq![];
    assert(texts(out@) == Seq::<Seq<char>>::empty());
    assert(Seq::<Seq<char>>::empty() + lines(text@) == lines(text@));
    assert(pending + text@.skip(0) == text@);
    for c in it: text.chars()
        invariant
            it.seq() == text@,
            !pending.contains('\n'),
            pending == if held { current@.push('\r') } else { current@ },
            !held ==> (pending.len() == 0 || pending.last() != '\r'),
            texts(out@) + lines(pending + text@.skip(it.index() as int)) == lines(text@),
    {
        let ghost before = out@;
        let ghost rest = text@.skip(it.index() as int + 1);
        assert(text@.skip(it.index() as int) == seq![c] + rest);
        if c == '\n' {
            proof {
                lemma_lines_step(pending, rest);
                assert(pending + (seq!['\n'] + rest) == pending.push('\n') + rest);
                assert(without_cr(pending) == current@);
            }
            out.push(current);
            proof {
                assert(texts(out@) == texts(before).push(without_cr(pending)));
                pending = seq![];
                assert(pending + rest == rest);
            }
            current = String::new();
            held = false;
        } else {
            proof {
                assert(pending + (seq![c] + rest) == pending.push(c) + rest);
                assert forall|i: int| 0 <= i < pending.push(c).len() implies pending.push(c)[i]
                    != '\n' by {
                    if i < pending.len() {
                        assert(pending.contains(pending[i]));
                    }
                }
                pending = pending.push(c);
            }
            if held {
                current.push('\r');
            }
            if c == '\r' {
                held = true;
            } else {
                held = false;
                current.push(c);
            }
        }
    }
    proof {
        assert(pending + text@.skip(text@.len() as int) == pending);
        lemma_lines_end(pending);
    }
    if held {
        current.push('\r');
    }
    let ghost before = out@;
    if !current.as_str().is_empty() {
        out.push(current);
        assert(texts(out@) == texts(before).push(pending));
    }
    out
}

/// The text that a serialised entry takes in the history file.
pub fn framed_line(entry: &str) -> (res: String)
    ensures
        res@ == entry@.push('\n'),
        res@ == framed(seq![entry@]),
{
    let mut out = entry.to_owned();
    out.push('\n');
    proof {
        let single = seq![entry@];
        assert(single.drop_last() == Seq::<Seq<char>>::empty());
        assert(framed(single.drop_last()) == Seq::<char>::empty());
        assert(framed(single) == entry@.push('\n'));
    }
    out
}

/// Frames the lines from position `from` on.
fn frame_from(entries: &Vec<String>, from: usize) -> (res: String)
    requires
        from <= entries@.len(),
    ensures
        res@ == framed(texts(entries@).skip(from as int)),
{
    let mut out = String::new();
    let ghost kept = texts(entries@).skip(from as int);
    assert(kept.take(0) == Seq::<Seq<char>>::empty());
    for i in from..entries.len()
        invariant
            from <= entries@.len(),
            kept == texts(entries@).skip(from as int),
            out@ == framed(kept.take(i - from)),
    {
        let ghost next = kept.take(i - from + 1);
        assert(next.drop_last() == kept.take(i - from));
        assert(next.last() == entries@[i as int]@);
        out.append(entries[i].as_str());
        out.push('\n');
        assert(out@ == framed(next));
    }
    assert(kept.take(entries@.len() - from) == kept);
    out
}

/// Decides whether a history file with this content is cut, and what then
/// replaces it.
pub fn rotate_if_needed(content: &str) -> (res: Option<String>)
    ensures
        match res {
            Some(text) => rotated(content@) == Some(text@),
            None => rotated(content@) is None,
        },
{
    let all = split_lines(content);
    let count: usize = all.len();
    assert(texts(all@).len() == count);
    if count <= MAX_DISK_ENTRIES {
        return None;
    }
    Some(frame_from(&all, count - MAX_DISK_ENTRIES))
}

/// A framed list of lines, seen from its first line.
proof fn lemma_framed_first(first: Seq<char>, rest: Seq<Seq<char>>)
    ensures
        framed(seq![first] + rest) == first.push('\n') + framed(rest),
    decreases rest.len(),
{
    let whole = seq![first] + rest;
    if rest.len() == 0 {
        assert(whole.drop_last() == rest);
        assert(framed(whole) == first.push('\n') + framed(rest));
    } else {
        assert(whole.drop_last() == seq![first] + rest.drop_last());
        lemma_framed_first(first, rest.drop_last());
        assert(framed(whole) == first.push('\n') + framed(rest));
    }
}

/// The lines of a framed list are the entries, but for a carriage return at the
/// end of an entry: it reads as part of the line ending.
pub proof fn law_lines_of_framed(entries: Seq<Seq<char>>)
    requires
        forall|i: int| 0 <= i < entries.len() ==> !(#[trigger] entries[i]).contains('\n'),
    ensures
        lines(framed(entries)) == entries.map_values(|entry: Seq<char>| without_cr(entry)),
    decreases entries.len(),
{
    let stripped = entries.map_values(|entry: Seq<char>| without_cr(entry));
    if entries.len() == 0 {
        assert(lines(framed(entries)) == stripped);
    } else {
        let first = entries[0];
        let rest = entries.drop_first();
        assert(entries == seq![first] + rest);
        lemma_framed_first(first, rest);
        lemma_lines_step(first, framed(rest));
        assert forall|i: int| 0 <= i < rest.len() implies !(#[trigger] rest[i]).contains('\n') by {
            assert(rest[i] == entries[i + 1]);
        }
        law_lines_of_framed(rest);
        assert(lines(framed(entries)) == stripped);
    }
}

/// What was framed is read back: entries that hold no line feed and end in no
/// carriage return come out of the file as they went in, in order.
pub proof fn law_framed_entries_read_back(entries: Seq<Seq<char>>)
    requires
        forall|i: int|
            0 <= i < entries.len() ==> {
                &&& !(#[trigger] entries[i]).contains('\n')
                &&& entries[i].len() == 0 || entries[i].last() != '\r'
            },
    ensures
        lines(framed(entries)) == entries,
{
    law_lines_of_framed(entries);
    assert(entries.map_values(|entry: Seq<char>| without_cr(entry)) == entries);
}

/// Appending to a framed file adds lines after those that it holds.
pub proof fn law_appending_adds_lines(existing: Seq<Seq<char>>, added: Seq<Seq<char>>)
    ensures
        framed(existing) + framed(added) == framed(existing + added),
    decreases added.len(),
{
    if added.len() == 0 {
        assert(existing + added == existing);
        assert(framed(existing) + framed(added) == framed(existing));
    } else {
        law_appending_adds_lines(existing, added.drop_last());
        assert((existing + added).drop_last() == existing + added.drop_last());
        assert(framed(existing) + framed(added) == framed(existing + added));
    }
}

/// No line holds a line feed.
pub proof fn law_lines_hold_no_line_feed(text: Seq<char>)
    ensures
        forall|i: int| 0 <= i < lines(text).len() ==> !(#[trigger] lines(text)[i]).contains('\n'),
    decreases text.len(),
{
    let end = newline_at(text);
    lemma_before_newline(text);
    if text.len() > 0 && end < text.len() {
        law_lines_hold_no_line_feed(text.skip(end as int + 1));
        let first = without_cr(text.take(end as int));
        assert forall|i: int| 0 <= i < lines(text).len() implies !(#[trigger] lines(
            text,
        )[i]).contains('\n') by {
            if i == 0 {
                assert(lines(text)[i] == first);
                assert forall|j: int| 0 <= j < first.len() implies first[j] != '\n' by {
                    assert(first[j] == text[j]);
                }
            } else {
                assert(lines(text)[i] == lines(text.skip(end as int + 1))[i - 1]);
            }
        }
    }
}

/// No line feed stands before the first one.
proof fn lemma_before_newline(text: Seq<char>)
    ensures
        newline_at(text) <= text.len(),
        forall|i: int| 0 <= i < newline_at(text) ==> text[i] != '\n',
    decreases text.len(),
{
    if text.len() > 0 && text[0] != '\n' {
        lemma_before_newline(text.drop_first());
        assert forall|i: int| 0 <= i < newline_at(text) implies text[i] != '\n' by {
            if i > 0 {
                assert(text[i] == text.drop_first()[i - 1]);
            }
        }
    }
}

/// A cut file holds exactly [`MAX_DISK_ENTRIES`] lines, the last ones of the
/// file before, and is not cut again. A carriage return at the end of a kept
/// line reads as part of its new line ending.
pub proof fn law_rotation_keeps_last_lines(text: Seq<char>)
    requires
        lines(text).len() > MAX_DISK_ENTRIES,
    ensures
        rotated(text) matches Some(kept) && {
            &&& lines(kept) == last_of(lines(text), MAX_DISK_ENTRIES as nat).map_values(
                |line: Seq<char>| without_cr(line),
            )
            &&& lines(kept).len() == MAX_DISK_ENTRIES
            &&& rotated(kept) is None
        },
{
    law_lines_hold_no_line_feed(text);
    law_lines_of_framed(last_of(lines(text), MAX_DISK_ENTRIES as nat));
}

/// The last items of a list are its end, as long as was asked for or as there is.
pub proof fn law_last_of_is_the_end<A>(items: Seq<A>, count: nat)
    ensures
        last_of(items, count).len() == if items.len() < count { items.len() } else { count },
        forall|i: int|
            0 <= i < last_of(items, count).len() ==> #[trigger] last_of(items, count)[i] == items[i
                + items.len() - last_of(items, count).len()],
{
}

/// A framed list is its entries one after the other, each followed by a line feed.
pub proof fn law_framed_is_concatenation(entries: Seq<Seq<char>>)
    ensures
        framed(entries) == entries.map_values(|entry: Seq<char>| entry.push('\n')).flatten(),
    decreases entries.len(),
{
    broadcast use Seq::lemma_flatten_push;

    let ended = entries.map_values(|entry: Seq<char>| entry.push('\n'));
    if entries.len() == 0 {
        assert(framed(entries) == ended.flatten());
    } else {
        law_framed_is_concatenation(entries.drop_last());
        let shorter = entries.drop_last().map_values(|entry: Seq<char>| entry.push('\n'));
        assert(ended == shorter.push(entries.last().push('\n')));
    }
}

/// What is read from a text that consists of lines, each followed by a line feed,
/// and of a rest without one: every line, whole but for a carriage return at its
/// end, and the rest as it is, if there is one.
pub proof fn law_lines_are_whole(entries: Seq<Seq<char>>, rest: Seq<char>)
    requires
        forall|i: int| 0 <= i < entries.len() ==> !(#[trigger] entries[i]).contains('\n'),
        !rest.contains('\n'),
    ensures
        ({
            let text = entries.map_values(|entry: Seq<char>| entry.push('\n')).flatten() + rest;
            &&& lines(text).len() == entries.len() + if rest.len() == 0 { 0int } else { 1int }
            &&& forall|i: int|
                0 <= i < entries.len() ==> #[trigger] lines(text)[i] == if entries[i].len() > 0
                    && entries[i].last() == '\r' {
                    entries[i].drop_last()
                } else {
                    entries[i]
                }
            &&& rest.len() > 0 ==> lines(text).last() == rest
        }),
    decreases entries.len(),
{
    law_framed_is_concatenation(entries);
    let text = framed(entries) + rest;
    if entries.len() == 0 {
        assert(text == rest);
        lemma_lines_end(rest);
    } else {
        let first = entries[0];
        let others = entries.drop_first();
        assert(entries == seq![first] + others);
        assert forall|i: int| 0 <= i < others.len() implies !(#[trigger] others[i]).contains(
            '\n',
        ) by {
            assert(others[i] == entries[i + 1]);
        }
        law_lines_are_whole(others, rest);
        law_framed_is_concatenation(others);
        lemma_framed_first(first, others);
        let after = framed(others) + rest;
        assert(text == first.push('\n') + after);
        lemma_lines_step(first, after);
        assert forall|i: int| 0 <= i < entries.len() implies #[trigger] lines(text)[i] == if entries[
        i].len() > 0 && entries[i].last() == '\r' {
            entries[i].drop_last()
        } else {
            entries[i]
        } by {
            if i > 0 {
                assert(lines(text)[i] == lines(after)[i - 1]);
                assert(entries[i] == others[i - 1]);
            }
        }
    }
}

/// Every text consists of lines, each followed by a line feed, and of a rest
/// without one.
pub proof fn law_texts_consist_of_lines(text: Seq<char>) -> (res: (Seq<Seq<char>>, Seq<char>))
    ensures
        text == res.0.map_values(|entry: Seq<char>| entry.push('\n')).flatten() + res.1,
        forall|i: int| 0 <= i < res.0.len() ==> !(#[trigger] res.0[i]).contains('\n'),
        !res.1.contains('\n'),
    decreases text.len(),
{
    let end = newline_at(text) as int;
    lemma_before_newline(text);
    if end >= text.len() {
        let none = Seq::<Seq<char>>::empty();
        law_framed_is_concatenation(none);
        assert(framed(none) + text == text);
        (none, text)
    } else {
        lemma_newline_is_one(text);
        let (others, rest) = law_texts_consist_of_lines(text.skip(end + 1));
        let first = text.take(end);
        let entries = seq![first] + others;
        law_framed_is_concatenation(others);
        law_framed_is_concatenation(entries);
        lemma_framed_first(first, others);
        assert(text == first.push('\n') + text.skip(end + 1));
        assert(first.push('\n') + (framed(others) + rest) == framed(entries) + rest);
        assert forall|i: int| 0 <= i < entries.len() implies !(#[trigger] entries[i]).contains(
            '\n',
        ) by {
            if i > 0 {
                assert(entries[i] == others[i - 1]);
            } else {
                assert forall|j: int| 0 <= j < first.len() implies first[j] != '\n' by {
                    assert(first[j] == text[j]);
                }
            }
        }
        (entries, rest)
    }
}

/// The first line feed is a line feed.
proof fn lemma_newline_is_one(text: Seq<char>)
    requires
        newline_at(text) < text.len(),
    ensures
        text[newline_at(text) as int] == '\n',
    decreases text.len(),
{
    if text[0] != '\n' {
        lemma_newline_is_one(text.drop_first());
    }
}

/// Splitting gives every line of a text, whole but for a carriage return at its
/// end, and the rest behind the last line feed as it is, if there is one.
pub proof fn law_split_lines_gives_whole_lines(
    text: &str,
    res: Vec<String>,
    entries: Seq<Seq<char>>,
    rest: Seq<char>,
)
    requires
        call_ensures(split_lines, (text,), res),
        text@ == entries.map_values(|entry: Seq<char>| entry.push('\n')).flatten() + rest,
        forall|i: int| 0 <= i < entries.len() ==> !(#[trigger] entries[i]).contains('\n'),
        !rest.contains('\n'),
    ensures
        res@.len() == entries.len() + if rest.len() == 0 { 0int } else { 1int },
        forall|i: int|
            0 <= i < entries.len() ==> (#[trigger] res@[i])@ == if entries[i].len() > 0
                && entries[i].last() == '\r' {
                entries[i].drop_last()
            } else {
                entries[i]
            },
        rest.len() > 0 ==> res@.last()@ == rest,
{
    law_lines_are_whole(entries, rest);
    assert(texts(res@).len() == res@.len());
    assert forall|i: int| 0 <= i < entries.len() implies (#[trigger] res@[i])@ == if entries[
    i].len() > 0 && entries[i].last() == '\r' {
        entries[i].drop_last()
    } else {
        entries[i]
    } by {
        assert(texts(res@)[i] == lines(text@)[i]);
    }
    if rest.len() > 0 {
        assert(texts(res@).last() == res@.last()@);
    }
}

/// A framed entry is the entry and a line feed.
pub proof fn law_framed_line_adds_a_line_feed(entry: &str, res: String)
    requires
        call_ensures(framed_line, (entry,), res),
    ensures
        res@ == entry@ + seq!['\n'],
{
}

/// A file of at most [`MAX_DISK_ENTRIES`] lines is left alone. Of a longer one
/// the last lines stay, whole and in order, each followed by a line feed.
pub proof fn law_rotation_is_exact(content: &str, res: Option<String>, read: Vec<String>)
    requires
        call_ensures(rotate_if_needed, (content,), res),
        call_ensures(split_lines, (content,), read),
    ensures
        read@.len() <= MAX_DISK_ENTRIES <==> res is None,
        res matches Some(kept) ==> kept@ == Seq::new(
            MAX_DISK_ENTRIES as nat,
            |i: int| read@[i + read@.len() - MAX_DISK_ENTRIES]@.push('\n'),
        ).flatten(),
{
    let all = lines(content@);
    assert(texts(read@).len() == read@.len());
    if all.len() > MAX_DISK_ENTRIES {
        let kept = last_of(all, MAX_DISK_ENTRIES as nat);
        let ended = kept.map_values(|entry: Seq<char>| entry.push('\n'));
        law_framed_is_concatenation(kept);
        assert forall|i: int| 0 <= i < kept.len() implies #[trigger] kept[i] == read@[i + read@.len()
            - MAX_DISK_ENTRIES]@ by {
            assert(texts(read@)[i + read@.len() - MAX_DISK_ENTRIES] == kept[i]);
        }
        assert(ended == Seq::new(
            MAX_DISK_ENTRIES as nat,
            |i: int| read@[i + read@.len() - MAX_DISK_ENTRIES]@.push('\n'),
        ));
    }
}

} // verus!
