//! What holds over many events of a tool history: every call is handed over to be
//! written once, the memory holds the newest calls, and what is written to the
//! history file is what the next start loads. A batch is not handed over again:
//! if the file cannot be opened for it, its calls are in memory only.

use vstd::prelude::*;

use crate::lines;
use crate::tool_history;
use crate::tool_history::{
    ActionView, EventView, HistoryView, RecordView, ToolCallRecord, MAX_HISTORY_ENTRIES,
};

verus! {

/// The state after a run of events.
pub open spec fn run(state: HistoryView, events: Seq<EventView>) -> HistoryView
    decreases events.len(),
{
    if events.len() == 0 {
        state
    } else {
        tool_history::next_state(run(state, events.drop_last()), events.last())
    }
}

/// The calls that a run of events records, in order.
pub open spec fn recorded(events: Seq<EventView>) -> Seq<RecordView>
    decreases events.len(),
{
    if events.len() == 0 {
        seq![]
    } else {
        match events.last() {
            EventView::Recorded(record) => recorded(events.drop_last()).push(record),
            _ => recorded(events.drop_last()),
        }
    }
}

/// The calls that enter the inbox in a run of events, in order: those that are
/// recorded before the processor stops.
pub open spec fn accepted(state: HistoryView, events: Seq<EventView>) -> Seq<RecordView>
    decreases events.len(),
{
    if events.len() == 0 {
        seq![]
    } else {
        let earlier = accepted(state, events.drop_last());
        match events.last() {
            EventView::Recorded(record) => if run(state, events.drop_last()).stopped {
                earlier
            } else {
                earlier.push(record)
            },
            _ => earlier,
        }
    }
}

/// The calls that leave the inbox in a run of events, in order.
pub open spec fn taken_in(state: HistoryView, events: Seq<EventView>) -> Seq<RecordView>
    decreases events.len(),
{
    if events.len() == 0 {
        seq![]
    } else {
        let earlier = taken_in(state, events.drop_last());
        let inbox = run(state, events.drop_last()).inbox;
        if (events.last() is Received || events.last() is Closed) && inbox.len() > 0 {
            earlier.push(inbox.first())
        } else {
            earlier
        }
    }
}

/// The calls that a run of events hands over for writing, in order.
pub open spec fn handed_over(state: HistoryView, events: Seq<EventView>) -> Seq<RecordView>
    decreases events.len(),
{
    if events.len() == 0 {
        seq![]
    } else {
        let earlier = handed_over(state, events.drop_last());
        match tool_history::next_action(run(state, events.drop_last()), events.last()) {
            ActionView::Append(batch) => earlier + batch,
            ActionView::FlushAndStop(batch) => earlier + batch,
            _ => earlier,
        }
    }
}

/// Every reached state is well formed.
pub proof fn law_reached_states_are_well_formed(state: HistoryView, events: Seq<EventView>)
    requires
        tool_history::well_formed(state),
    ensures
        tool_history::well_formed(run(state, events)),
    decreases events.len(),
{
    if events.len() > 0 {
        law_reached_states_are_well_formed(state, events.drop_last());
    }
}

/// Until the processor stops no recorded call is dropped.
pub proof fn law_no_call_is_dropped_before_stop(state: HistoryView, events: Seq<EventView>)
    requires
        !run(state, events).stopped,
    ensures
        accepted(state, events) == recorded(events),
    decreases events.len(),
{
    if events.len() > 0 {
        law_no_call_is_dropped_before_stop(state, events.drop_last());
    }
}

/// Calls are taken in once each and in the order in which they were recorded:
/// what was in the inbox and what entered it is what left it and what is still
/// there.
pub proof fn law_every_call_is_taken_in_once(state: HistoryView, events: Seq<EventView>)
    ensures
        taken_in(state, events) + run(state, events).inbox == state.inbox + accepted(state, events),
    decreases events.len(),
{
    if events.len() == 0 {
        assert(taken_in(state, events) + state.inbox == state.inbox + accepted(state, events));
    } else {
        let before = events.drop_last();
        law_every_call_is_taken_in_once(state, before);
        let taken = taken_in(state, before);
        let inbox = run(state, before).inbox;
        match events.last() {
            EventView::Recorded(record) => {
                assert(taken + inbox.push(record) == (taken + inbox).push(record));
                assert(state.inbox + accepted(state, before).push(record) == (state.inbox
                    + accepted(state, before)).push(record));
            },
            EventView::Received | EventView::Closed => {
                if inbox.len() > 0 {
                    assert(taken.push(inbox.first()) + inbox.drop_first() == taken + inbox);
                }
            },
            _ => {},
        }
    }
}

/// Every call that was taken in is handed over for writing once and in order:
/// what was waiting and what was taken in is what was handed over and what still
/// waits.
pub proof fn law_every_call_is_handed_over_once(state: HistoryView, events: Seq<EventView>)
    ensures
        handed_over(state, events) + run(state, events).write_queue == state.write_queue + taken_in(
            state,
            events,
        ),
    decreases events.len(),
{
    if events.len() == 0 {
        assert(handed_over(state, events) + state.write_queue == state.write_queue + taken_in(
            state,
            events,
        ));
    } else {
        let before = events.drop_last();
        law_every_call_is_handed_over_once(state, before);
        let handed = handed_over(state, before);
        let waiting = run(state, before).write_queue;
        let inbox = run(state, before).inbox;
        let none = Seq::<RecordView>::empty();
        assert(handed + waiting + none == handed + waiting);
        assert(waiting.len() == 0 ==> handed + waiting == handed);
        if inbox.len() > 0 {
            let record = inbox.first();
            assert(handed + waiting.push(record) == (handed + waiting).push(record));
            assert(state.write_queue + taken_in(state, before).push(record) == (state.write_queue
                + taken_in(state, before)).push(record));
        }
    }
}

/// Stopping leaves nothing behind: once the processor has stopped, everything that
/// was waiting or recorded before has been handed over, once and in order.
pub proof fn law_stopping_hands_everything_over(state: HistoryView, events: Seq<EventView>)
    requires
        tool_history::well_formed(state),
        run(state, events).stopped,
    ensures
        handed_over(state, events) == state.write_queue + state.inbox + accepted(state, events),
{
    law_reached_states_are_well_formed(state, events);
    law_every_call_is_taken_in_once(state, events);
    law_every_call_is_handed_over_once(state, events);
    let reached = run(state, events);
    let handed = handed_over(state, events);
    let taken = taken_in(state, events);
    assert(handed + reached.write_queue == handed);
    assert(taken + reached.inbox == taken);
    assert(state.write_queue + (state.inbox + accepted(state, events)) == state.write_queue
        + state.inbox + accepted(state, events));
}

/// The newest items of a list and one more depend on the newest alone.
proof fn lemma_last_of_push<A>(items: Seq<A>, item: A, limit: nat)
    ensures
        lines::last_of(lines::last_of(items, limit).push(item), limit) == lines::last_of(
            items.push(item),
            limit,
        ),
{
}

/// The memory holds the newest of the calls that were taken in, at most
/// [`MAX_HISTORY_ENTRIES`] of them, in the order in which they were recorded.
pub proof fn law_memory_holds_newest_calls(state: HistoryView, events: Seq<EventView>)
    requires
        tool_history::well_formed(state),
    ensures
        run(state, events).entries == lines::last_of(
            state.entries + taken_in(state, events),
            MAX_HISTORY_ENTRIES as nat,
        ),
    decreases events.len(),
{
    let limit = MAX_HISTORY_ENTRIES as nat;
    if events.len() == 0 {
        assert(state.entries + taken_in(state, events) == state.entries);
    } else {
        let before = events.drop_last();
        law_memory_holds_newest_calls(state, before);
        let all = state.entries + taken_in(state, before);
        let inbox = run(state, before).inbox;
        if inbox.len() > 0 {
            let record = inbox.first();
            assert(state.entries + taken_in(state, before).push(record) == all.push(record));
            lemma_last_of_push(all, record, limit);
        }
    }
}

/// Once everything was taken in, the memory holds the newest of all the calls: of
/// those that were in it, in the inbox, or recorded since.
pub proof fn law_recorded_calls_reach_memory(state: HistoryView, events: Seq<EventView>)
    requires
        tool_history::well_formed(state),
        run(state, events).inbox.len() == 0,
        !run(state, events).stopped,
    ensures
        run(state, events).entries == lines::last_of(
            state.entries + state.inbox + recorded(events),
            MAX_HISTORY_ENTRIES as nat,
        ),
{
    law_memory_holds_newest_calls(state, events);
    law_every_call_is_taken_in_once(state, events);
    law_no_call_is_dropped_before_stop(state, events);
    let taken = taken_in(state, events);
    assert(taken + run(state, events).inbox == taken);
    assert(state.entries + (state.inbox + recorded(events)) == state.entries + state.inbox
        + recorded(events));
}

/// A recorded call is read back: once everything was taken in, the call that was
/// recorded last is the newest of all calls.
pub proof fn law_recorded_call_is_read_back(
    state: HistoryView,
    events: Seq<EventView>,
    max_results: nat,
)
    requires
        tool_history::well_formed(state),
        recorded(events).len() > 0,
        run(state, events).inbox.len() == 0,
        !run(state, events).stopped,
    ensures
        ({
            let entries = run(state, events).entries;
            let stamps = tool_history::stamps_of(entries);
            tool_history::page(
                tool_history::selected(entries, stamps, None, None),
                max_results,
                -1,
            ) == seq![recorded(events).last()]
        }),
{
    law_recorded_calls_reach_memory(state, events);
    let entries = run(state, events).entries;
    tool_history::law_no_filter_selects_all(entries, tool_history::stamps_of(entries));
    assert(entries.last() == recorded(events).last());
    assert(tool_history::page(entries, max_results, -1) == seq![recorded(events).last()]);
}

/// No event changes which file the history is kept in.
pub proof fn law_history_file_is_fixed(state: HistoryView, events: Seq<EventView>)
    ensures
        run(state, events).history_file == state.history_file,
    decreases events.len(),
{
    if events.len() > 0 {
        law_history_file_is_fixed(state, events.drop_last());
    }
}

/// Whether `encode` writes a call on one line from which `decode` reads it back.
pub open spec fn is_written_faithfully(
    call: RecordView,
    encode: spec_fn(RecordView) -> Seq<char>,
    decode: spec_fn(Seq<char>) -> Option<ToolCallRecord>,
) -> bool {
    &&& !encode(call).contains('\n')
    &&& encode(call).len() == 0 || encode(call).last() != '\r'
    &&& (decode(encode(call)) matches Some(record) && record@ == call)
}

/// Whether all the calls are written faithfully.
pub open spec fn are_written_faithfully(
    calls: Seq<RecordView>,
    encode: spec_fn(RecordView) -> Seq<char>,
    decode: spec_fn(Seq<char>) -> Option<ToolCallRecord>,
) -> bool {
    forall|i: int|
        0 <= i < calls.len() ==> is_written_faithfully(#[trigger] calls[i], encode, decode)
}

/// The text that a list of calls is written as.
pub open spec fn written(
    calls: Seq<RecordView>,
    encode: spec_fn(RecordView) -> Seq<char>,
) -> Seq<char> {
    lines::framed(calls.map_values(encode))
}

/// What is parsed from a file, line by line.
pub open spec fn parsed(
    file: Seq<char>,
    decode: spec_fn(Seq<char>) -> Option<ToolCallRecord>,
) -> Seq<Option<ToolCallRecord>> {
    lines::lines(file).map_values(decode)
}

/// The history file after an action that succeeds: batches are appended to it,
/// and a rotation cuts it if it has grown too long.
pub open spec fn file_after_action(
    file: Seq<char>,
    action: ActionView,
    encode: spec_fn(RecordView) -> Seq<char>,
) -> Seq<char> {
    match action {
        ActionView::Wait => file,
        ActionView::Append(batch) => file + written(batch, encode),
        ActionView::Rotate => match lines::rotated(file) {
            Some(kept) => kept,
            None => file,
        },
        ActionView::FlushAndStop(batch) => file + written(batch, encode),
    }
}

/// The history file after a run of events, each action of which succeeds.
pub open spec fn file_after_run(
    state: HistoryView,
    file: Seq<char>,
    events: Seq<EventView>,
    encode: spec_fn(RecordView) -> Seq<char>,
) -> Seq<char>
    decreases events.len(),
{
    if events.len() == 0 {
        file
    } else {
        file_after_action(
            file_after_run(state, file, events.drop_last(), encode),
            tool_history::next_action(run(state, events.drop_last()), events.last()),
            encode,
        )
    }
}

/// Where every line parsed, all the records are read.
proof fn lemma_all_parsed(parsed: Seq<Option<ToolCallRecord>>, expected: Seq<RecordView>)
    requires
        parsed.len() == expected.len(),
        forall|i: int|
            0 <= i < parsed.len() ==> (#[trigger] parsed[i] matches Some(record) && record@
                == expected[i]),
    ensures
        tool_history::parsed_records(parsed) == expected,
    decreases parsed.len(),
{
    if parsed.len() > 0 {
        let shorter = parsed.drop_last();
        assert forall|i: int| 0 <= i < shorter.len() implies (#[trigger] shorter[i] matches Some(
            record,
        ) && record@ == expected.drop_last()[i]) by {
            assert(shorter[i] == parsed[i]);
        }
        lemma_all_parsed(shorter, expected.drop_last());
        assert(parsed[parsed.len() - 1] is Some);
        assert(tool_history::parsed_records(parsed) == expected.drop_last().push(expected.last()));
        assert(expected.drop_last().push(expected.last()) == expected);
    }
}

/// Calls that were written are read back, in order and without a loss.
pub proof fn law_written_calls_are_read_back(
    calls: Seq<RecordView>,
    encode: spec_fn(RecordView) -> Seq<char>,
    decode: spec_fn(Seq<char>) -> Option<ToolCallRecord>,
)
    requires
        are_written_faithfully(calls, encode, decode),
    ensures
        lines::lines(written(calls, encode)) == calls.map_values(encode),
        tool_history::parsed_records(parsed(written(calls, encode), decode)) == calls,
{
    let entries = calls.map_values(encode);
    assert forall|i: int| 0 <= i < entries.len() implies ({
        &&& !(#[trigger] entries[i]).contains('\n')
        &&& entries[i].len() == 0 || entries[i].last() != '\r'
    }) by {
        assert(is_written_faithfully(calls[i], encode, decode));
    }
    lines::law_framed_entries_read_back(entries);
    let read = parsed(written(calls, encode), decode);
    assert forall|i: int| 0 <= i < read.len() implies (#[trigger] read[i] matches Some(record)
        && record@ == calls[i]) by {
        assert(is_written_faithfully(calls[i], encode, decode));
    }
    lemma_all_parsed(read, calls);
}

/// Appending a batch adds its calls behind those that the file holds.
proof fn lemma_appended(
    existing: Seq<RecordView>,
    batch: Seq<RecordView>,
    encode: spec_fn(RecordView) -> Seq<char>,
)
    ensures
        written(existing, encode) + written(batch, encode) == written(existing + batch, encode),
{
    lines::law_appending_adds_lines(existing.map_values(encode), batch.map_values(encode));
    assert(existing.map_values(encode) + batch.map_values(encode) == (existing + batch).map_values(
        encode,
    ));
}

/// The history survives a restart. A file to which `before` and then `after` were
/// appended loads as exactly those calls. If it was cut in between, it still
/// loads with the newest of them, as many as the memory holds.
pub proof fn law_history_survives_restart(
    before: Seq<RecordView>,
    after: Seq<RecordView>,
    encode: spec_fn(RecordView) -> Seq<char>,
    decode: spec_fn(Seq<char>) -> Option<ToolCallRecord>,
)
    requires
        are_written_faithfully(before + after, encode, decode),
    ensures
        ({
            let file = written(before, encode);
            let added = written(after, encode);
            &&& tool_history::parsed_records(parsed(file + added, decode)) == before + after
            &&& (lines::rotated(file) matches Some(kept) ==> lines::last_of(
                tool_history::parsed_records(parsed(kept + added, decode)),
                MAX_HISTORY_ENTRIES as nat,
            ) == lines::last_of(before + after, MAX_HISTORY_ENTRIES as nat))
        }),
{
    let cut = lines::MAX_DISK_ENTRIES as nat;
    let limit = MAX_HISTORY_ENTRIES as nat;
    let all = before + after;
    let file = written(before, encode);
    lemma_appended(before, after, encode);
    law_written_calls_are_read_back(all, encode, decode);
    assert forall|i: int| 0 <= i < before.len() implies is_written_faithfully(
        #[trigger] before[i],
        encode,
        decode,
    ) by {
        assert(before[i] == all[i]);
    }
    law_written_calls_are_read_back(before, encode, decode);
    if before.len() > cut {
        lemma_cut(before, encode);
        let kept = lines::last_of(before, cut);
        let still = kept + after;
        let dropped = before.len() - cut;
        assert forall|i: int| 0 <= i < still.len() implies is_written_faithfully(
            #[trigger] still[i],
            encode,
            decode,
        ) by {
            assert(still[i] == all[i + dropped]);
        }
        lemma_appended(kept, after, encode);
        law_written_calls_are_read_back(still, encode, decode);
        assert(lines::last_of(still, limit) == lines::last_of(all, limit));
    }
}

/// Cutting the list of written lines is cutting the list of calls.
proof fn lemma_cut(calls: Seq<RecordView>, encode: spec_fn(RecordView) -> Seq<char>)
    ensures
        lines::last_of(calls.map_values(encode), lines::MAX_DISK_ENTRIES as nat) == lines::last_of(
            calls,
            lines::MAX_DISK_ENTRIES as nat,
        ).map_values(encode),
{
}

/// Whether a file holds the last `count` of the calls, which are at least as many
/// as a cut leaves.
spec fn holds_last(
    file: Seq<char>,
    calls: Seq<RecordView>,
    count: nat,
    encode: spec_fn(RecordView) -> Seq<char>,
) -> bool {
    &&& count <= calls.len()
    &&& count < lines::MAX_DISK_ENTRIES ==> count == calls.len()
    &&& file == written(lines::last_of(calls, count), encode)
}

/// After a run of events the file holds the newest of the calls that were in it
/// or handed over. How many it holds is returned.
proof fn lemma_file_holds_newest(
    calls: Seq<RecordView>,
    state: HistoryView,
    events: Seq<EventView>,
    encode: spec_fn(RecordView) -> Seq<char>,
    decode: spec_fn(Seq<char>) -> Option<ToolCallRecord>,
) -> (count: nat)
    requires
        are_written_faithfully(calls + handed_over(state, events), encode, decode),
    ensures
        holds_last(
            file_after_run(state, written(calls, encode), events, encode),
            calls + handed_over(state, events),
            count,
            encode,
        ),
    decreases events.len(),
{
    let cut = lines::MAX_DISK_ENTRIES as nat;
    if events.len() == 0 {
        assert(calls + handed_over(state, events) == calls);
        calls.len()
    } else {
        let earlier = events.drop_last();
        let old_calls = calls + handed_over(state, earlier);
        let new_calls = calls + handed_over(state, events);
        assert forall|i: int| 0 <= i < old_calls.len() implies is_written_faithfully(
            #[trigger] old_calls[i],
            encode,
            decode,
        ) by {
            assert(old_calls[i] == new_calls[i]);
        }
        let count = lemma_file_holds_newest(calls, state, earlier, encode, decode);
        let file = file_after_run(state, written(calls, encode), earlier, encode);
        let held = lines::last_of(old_calls, count);
        match tool_history::next_action(run(state, earlier), events.last()) {
            ActionView::Append(batch) | ActionView::FlushAndStop(batch) => {
                assert(new_calls == old_calls + batch);
                lemma_appended(held, batch, encode);
                assert(held + batch == lines::last_of(new_calls, count + batch.len()));
                count + batch.len()
            },
            ActionView::Rotate => {
                let dropped = old_calls.len() - count;
                assert forall|i: int| 0 <= i < held.len() implies is_written_faithfully(
                    #[trigger] held[i],
                    encode,
                    decode,
                ) by {
                    assert(held[i] == old_calls[i + dropped]);
                }
                law_written_calls_are_read_back(held, encode, decode);
                lemma_cut(held, encode);
                if count > cut {
                    assert(lines::last_of(held, cut) == lines::last_of(old_calls, cut));
                    cut
                } else {
                    count
                }
            },
            ActionView::Wait => count,
        }
    }
}

/// What a run of events writes is what the next start loads. Let a history whose
/// memory agrees with its file go through a run of events in which no append
/// fails. Whatever was cut on the way, a history that is then filled from the
/// file holds the newest of the calls that were in it or handed over. Once
/// nothing waits to be written, that is what the memory held at the end.
pub proof fn law_restart_restores_memory(
    calls: Seq<RecordView>,
    state: HistoryView,
    events: Seq<EventView>,
    restarted: HistoryView,
    encode: spec_fn(RecordView) -> Seq<char>,
    decode: spec_fn(Seq<char>) -> Option<ToolCallRecord>,
)
    requires
        tool_history::well_formed(state),
        state.entries == lines::last_of(calls, MAX_HISTORY_ENTRIES as nat),
        state.write_queue.len() == 0,
        forall|i: int| 0 <= i < events.len() ==> #[trigger] events[i] !is AppendFailed,
        are_written_faithfully(calls + taken_in(state, events), encode, decode),
    ensures
        ({
            let file = file_after_run(state, written(calls, encode), events, encode);
            let reloaded = tool_history::loaded(restarted, parsed(file, decode));
            &&& reloaded.entries == lines::last_of(
                calls + handed_over(state, events),
                MAX_HISTORY_ENTRIES as nat,
            )
            &&& run(state, events).write_queue.len() == 0 ==> reloaded.entries == run(
                state,
                events,
            ).entries
        }),
{
    let limit = MAX_HISTORY_ENTRIES as nat;
    let handed = handed_over(state, events);
    let taken = taken_in(state, events);
    law_every_call_is_handed_over_once(state, events);
    assert(state.write_queue + taken == taken);
    let all = calls + handed;
    assert forall|i: int| 0 <= i < all.len() implies is_written_faithfully(
        #[trigger] all[i],
        encode,
        decode,
    ) by {
        if i >= calls.len() {
            assert((handed + run(state, events).write_queue)[i - calls.len()] == all[i]);
        }
        assert(all[i] == (calls + taken)[i]);
    }
    let count = lemma_file_holds_newest(calls, state, events, encode, decode);
    let held = lines::last_of(all, count);
    assert forall|i: int| 0 <= i < held.len() implies is_written_faithfully(
        #[trigger] held[i],
        encode,
        decode,
    ) by {
        assert(held[i] == all[i + all.len() - count]);
    }
    law_written_calls_are_read_back(held, encode, decode);
    assert(lines::last_of(held, limit) == lines::last_of(all, limit));
    if run(state, events).write_queue.len() == 0 {
        assert(handed + run(state, events).write_queue == handed);
        law_memory_holds_newest_calls(state, events);
        assert(lines::last_of(state.entries + taken, limit) == lines::last_of(
            calls + taken,
            limit,
        ));
    }
}

/// How many calls a run of events reports as written.
pub open spec fn written_count(events: Seq<EventView>) -> nat
    decreases events.len(),
{
    if events.len() == 0 {
        0
    } else {
        written_count(events.drop_last()) + match events.last() {
            EventView::Appended(count) => count,
            _ => 0,
        }
    }
}

/// Every written call counts: while the file is not looked at, the counter grows
/// by the sum of everything that is reported as written.
pub proof fn law_every_written_call_counts(state: HistoryView, events: Seq<EventView>)
    requires
        forall|i: int|
            0 <= i < events.len() ==> tool_history::next_action(
                run(state, events.take(i)),
                #[trigger] events[i],
            ) !is Rotate,
    ensures
        run(state, events).writes_since_check == state.writes_since_check + written_count(events),
    decreases events.len(),
{
    if events.len() > 0 {
        let before = events.drop_last();
        assert forall|i: int| 0 <= i < before.len() implies tool_history::next_action(
            run(state, before.take(i)),
            #[trigger] before[i],
        ) !is Rotate by {
            assert(before[i] == events[i]);
            assert(before.take(i) == events.take(i));
        }
        law_every_written_call_counts(state, before);
        let last = events.len() - 1;
        assert(events.take(last) == before);
        assert(events[last] == events.last());
    }
}

/// The file is looked at in time: after a run in which it was not looked at, the
/// next report has it looked at exactly if everything that was written since the
/// last look, in whatever portions, reaches [`ROTATION_CHECK_INTERVAL`]. The count
/// then starts anew.
pub proof fn law_file_is_looked_at_in_time(state: HistoryView, events: Seq<EventView>, count: nat)
    requires
        forall|i: int|
            0 <= i < events.len() ==> tool_history::next_action(
                run(state, events.take(i)),
                #[trigger] events[i],
            ) !is Rotate,
    ensures
        ({
            let report = EventView::Appended(count);
            let total = state.writes_since_check + written_count(events) + count;
            let looks = tool_history::next_action(run(state, events), report) is Rotate;
            let after = run(state, events.push(report));
            &&& looks <==> total >= tool_history::ROTATION_CHECK_INTERVAL
            &&& looks ==> after.writes_since_check == 0
            &&& !looks ==> after.writes_since_check == total
        }),
{
    law_every_written_call_counts(state, events);
    assert(events.push(EventView::Appended(count)).drop_last() == events);
}

/// Between two looks at the file fewer than [`ROTATION_CHECK_INTERVAL`] calls are
/// written.
pub proof fn law_few_calls_are_written_between_looks(state: HistoryView, events: Seq<EventView>)
    requires
        tool_history::well_formed(state),
        forall|i: int|
            0 <= i < events.len() ==> tool_history::next_action(
                run(state, events.take(i)),
                #[trigger] events[i],
            ) !is Rotate,
    ensures
        written_count(events) < tool_history::ROTATION_CHECK_INTERVAL,
{
    law_every_written_call_counts(state, events);
    law_reached_states_are_well_formed(state, events);
}

/// The processor stops only when it is told that no more calls will come.
pub proof fn law_stops_only_on_closing(state: HistoryView, events: Seq<EventView>)
    requires
        !state.stopped,
        forall|i: int| 0 <= i < events.len() ==> #[trigger] events[i] !is Closed,
    ensures
        !run(state, events).stopped,
    decreases events.len(),
{
    if events.len() > 0 {
        let before = events.drop_last();
        assert forall|i: int| 0 <= i < before.len() implies #[trigger] before[i] !is Closed by {
            assert(before[i] == events[i]);
        }
        law_stops_only_on_closing(state, before);
        assert(events[events.len() - 1] !is Closed);
    }
}

/// Each action has its occasion: calls are appended on a flush, the file is looked
/// at after a report of written calls, and the processor stops on closing, once
/// the inbox is empty.
pub proof fn law_actions_have_their_occasions(state: HistoryView, event: EventView)
    ensures
        tool_history::next_action(state, event) is Append <==> event is Tick
            && state.write_queue.len() > 0,
        tool_history::next_action(state, event) is Rotate ==> event is Appended,
        tool_history::next_action(state, event) is FlushAndStop <==> event is Closed
            && state.inbox.len() == 0,
{
}

/// Closing comes to an end: told often enough that no more calls will come, the
/// processor has taken in everything and stopped.
pub proof fn law_closing_comes_to_an_end(state: HistoryView, times: nat)
    ensures
        ({
            let reached = run(state, Seq::new(times, |i: int| EventView::Closed));
            &&& times <= state.inbox.len() ==> reached.inbox == state.inbox.skip(times as int)
            &&& times > state.inbox.len() ==> reached.stopped && reached.inbox.len() == 0
                && reached.write_queue.len() == 0
        }),
    decreases times,
{
    let events = Seq::new(times, |i: int| EventView::Closed);
    if times > 0 {
        let fewer = (times - 1) as nat;
        law_closing_comes_to_an_end(state, fewer);
        assert(events.drop_last() == Seq::new(fewer, |i: int| EventView::Closed));
        if times <= state.inbox.len() {
            assert(state.inbox.skip(fewer as int).drop_first() == state.inbox.skip(times as int));
        }
    }
}

} // verus!
