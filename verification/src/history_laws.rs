//! What each operation of a tool history does to the history and gives to its
//! caller, part by part.

use vstd::prelude::*;

use crate::clock;
use crate::tool_history;
use crate::tool_history::{
    fault_notice, page_bounds, passes_filters, ActionView, EventView, HistoryFault, HistoryStats,
    ProcessorAction, ProcessorEvent, RecordView, ToolCallRecord, ToolHistory, MAX_HISTORY_ENTRIES,
    ROTATION_CHECK_INTERVAL,
};

verus! {

/// What a record holds is all of its parts, as they are.
pub proof fn law_record_is_whole(record: ToolCallRecord)
    ensures
        record@.timestamp == record.timestamp@,
        record@.tool_name == record.tool_name@,
        record@.arguments == record.arguments,
        record@.output == record.output,
        record@.duration_ms == record.duration_ms,
{
}

/// What a list of records holds is each of them, in order.
pub proof fn law_records_are_one_for_one(list: Seq<ToolCallRecord>)
    ensures
        tool_history::records(list).len() == list.len(),
        forall|i: int| 0 <= i < list.len() ==> #[trigger] tool_history::records(list)[i] == list[i]@,
{
}

/// A clone of a record has the same parts.
pub proof fn law_clone_keeps_every_part(record: ToolCallRecord, copy: ToolCallRecord)
    requires
        call_ensures(<ToolCallRecord as Clone>::clone, (&record,), copy),
    ensures
        copy.timestamp@ == record.timestamp@,
        copy.tool_name@ == record.tool_name@,
        copy.arguments == record.arguments,
        copy.output == record.output,
        copy.duration_ms == record.duration_ms,
{
    law_record_is_whole(record);
    law_record_is_whole(copy);
}

/// A record of a call that is made now holds what it was given and what the clock
/// says.
pub proof fn law_record_of_now_holds_the_call(
    tool_name: String,
    arguments: serde_json::Value,
    output: serde_json::Value,
    duration_ms: Option<u64>,
    res: ToolCallRecord,
)
    requires
        call_ensures(ToolCallRecord::now, (tool_name, arguments, output, duration_ms), res),
    ensures
        call_ensures(clock::now_rfc3339, (), res.timestamp),
        res.tool_name@ == tool_name@,
        res.arguments == arguments,
        res.output == output,
        res.duration_ms == duration_ms,
{
    law_record_is_whole(res);
}

/// A new history is empty, and its file is named after the instance.
pub proof fn law_new_history_is_empty(instance_id: String, res: ToolHistory, file: &str)
    requires
        call_ensures(ToolHistory::new, (instance_id,), res),
        call_ensures(ToolHistory::history_file, (&res,), file),
    ensures
        res@.inbox.len() == 0,
        res@.entries.len() == 0,
        res@.write_queue.len() == 0,
        res@.writes_since_check == 0,
        !res@.stopped,
        file@ == "tool-history_"@ + instance_id@ + ".jsonl"@,
{
}

/// Recording puts the record behind those that wait in the inbox and leaves
/// everything else as it is. After the processor has stopped it does nothing.
pub proof fn law_recording_fills_the_inbox(history: &mut ToolHistory, record: ToolCallRecord)
    requires
        call_ensures(ToolHistory::enqueue, (history, record), ()),
    ensures
        old(history)@.stopped ==> final(history)@ == old(history)@,
        !old(history)@.stopped ==> {
            let inbox = final(history)@.inbox;
            &&& inbox.len() == old(history)@.inbox.len() + 1
            &&& inbox.drop_last() == old(history)@.inbox
            &&& inbox.last().timestamp == record.timestamp@
            &&& inbox.last().tool_name == record.tool_name@
            &&& inbox.last().arguments == record.arguments
            &&& inbox.last().output == record.output
            &&& inbox.last().duration_ms == record.duration_ms
        },
        final(history)@.entries == old(history)@.entries,
        final(history)@.write_queue == old(history)@.write_queue,
        final(history)@.writes_since_check == old(history)@.writes_since_check,
        final(history)@.history_file == old(history)@.history_file,
        final(history)@.stopped == old(history)@.stopped,
{
    law_record_is_whole(record);
}

/// Adding a call records it as it was given, with the time that the clock says.
pub proof fn law_added_call_is_recorded(
    history: &mut ToolHistory,
    tool_name: String,
    arguments: serde_json::Value,
    output: serde_json::Value,
    duration_ms: Option<u64>,
)
    requires
        call_ensures(
            ToolHistory::add_call,
            (history, tool_name, arguments, output, duration_ms),
            (),
        ),
    ensures
        old(history)@.stopped ==> final(history)@ == old(history)@,
        !old(history)@.stopped ==> {
            let inbox = final(history)@.inbox;
            &&& inbox.len() == old(history)@.inbox.len() + 1
            &&& inbox.drop_last() == old(history)@.inbox
            &&& exists|timestamp: String| #[trigger]
                call_ensures(clock::now_rfc3339, (), timestamp) && inbox.last().timestamp
                    == timestamp@
            &&& inbox.last().tool_name == tool_name@
            &&& inbox.last().arguments == arguments
            &&& inbox.last().output == output
            &&& inbox.last().duration_ms == duration_ms
        },
        final(history)@.entries == old(history)@.entries,
        final(history)@.write_queue == old(history)@.write_queue,
        final(history)@.writes_since_check == old(history)@.writes_since_check,
        final(history)@.history_file == old(history)@.history_file,
        final(history)@.stopped == old(history)@.stopped,
{
}

/// Of parsed lines every record counts, in order, and nothing else does.
pub proof fn law_every_parsed_record_counts(
    parsed: Seq<Option<ToolCallRecord>>,
    record: ToolCallRecord,
)
    ensures
        tool_history::parsed_records(Seq::empty()).len() == 0,
        tool_history::parsed_records(parsed.push(None)) == tool_history::parsed_records(parsed),
        tool_history::parsed_records(parsed.push(Some(record))) == tool_history::parsed_records(
            parsed,
        ).push(record@),
{
    broadcast use Seq::lemma_filter_map_take_succ;

    let at = parsed.len() as int;
    let without = parsed.push(None);
    let with = parsed.push(Some(record));
    assert(without.take(at) == parsed && with.take(at) == parsed);
    assert(without.take(at + 1) == without && with.take(at + 1) == with);
}

/// Loading fills the memory with the last of the parsed records, as many as the
/// memory holds, in order, and leaves everything else as it is.
pub proof fn law_loading_keeps_the_last_records(
    history: &mut ToolHistory,
    parsed: Vec<Option<ToolCallRecord>>,
)
    requires
        call_ensures(ToolHistory::load_from_disk, (history, parsed), ()),
    ensures
        ({
            let read = tool_history::parsed_records(parsed@);
            let entries = final(history)@.entries;
            &&& entries.len() == if read.len() < MAX_HISTORY_ENTRIES {
                read.len() as int
            } else {
                MAX_HISTORY_ENTRIES as int
            }
            &&& forall|i: int|
                0 <= i < entries.len() ==> #[trigger] entries[i] == read[i + read.len()
                    - entries.len()]
        }),
        final(history)@.inbox == old(history)@.inbox,
        final(history)@.write_queue == old(history)@.write_queue,
        final(history)@.writes_since_check == old(history)@.writes_since_check,
        final(history)@.history_file == old(history)@.history_file,
        final(history)@.stopped == old(history)@.stopped,
{
}

/// A received call becomes the newest in memory and the last to be written. The
/// memory keeps everything older but what makes room for it. The processor waits.
pub proof fn law_received_call_is_taken_in(history: &mut ToolHistory, res: ProcessorAction)
    requires
        call_ensures(ToolHistory::step, (history, ProcessorEvent::Received), res),
        old(history)@.entries.len() <= MAX_HISTORY_ENTRIES,
    ensures
        res is Wait,
        old(history)@.inbox.len() == 0 ==> final(history)@ == old(history)@,
        old(history)@.inbox.len() > 0 ==> {
            let record = old(history)@.inbox[0];
            let before = old(history)@.entries;
            let after = final(history)@.entries;
            &&& final(history)@.inbox == old(history)@.inbox.skip(1)
            &&& final(history)@.write_queue == old(history)@.write_queue + seq![record]
            &&& before.len() < MAX_HISTORY_ENTRIES ==> after == before + seq![record]
            &&& before.len() == MAX_HISTORY_ENTRIES ==> after == before.skip(1) + seq![record]
        },
        final(history)@.writes_since_check == old(history)@.writes_since_check,
        final(history)@.history_file == old(history)@.history_file,
        final(history)@.stopped == old(history)@.stopped,
{
}

/// A flush hands over everything that waits to be written, each call once and in
/// order, and leaves nothing waiting. Where nothing waits, nothing is handed over.
pub proof fn law_flush_hands_over_all_that_waits(history: &mut ToolHistory, res: ProcessorAction)
    requires
        call_ensures(ToolHistory::step, (history, ProcessorEvent::Tick), res),
    ensures
        old(history)@.write_queue.len() == 0 ==> res is Wait,
        old(history)@.write_queue.len() > 0 ==> (res matches ProcessorAction::Append(batch) && {
            &&& batch@.len() == old(history)@.write_queue.len()
            &&& forall|i: int|
                0 <= i < batch@.len() ==> (#[trigger] batch@[i])@ == old(history)@.write_queue[i]
        }),
        final(history)@.write_queue.len() == 0,
        final(history)@.inbox == old(history)@.inbox,
        final(history)@.entries == old(history)@.entries,
        final(history)@.writes_since_check == old(history)@.writes_since_check,
        final(history)@.history_file == old(history)@.history_file,
        final(history)@.stopped == old(history)@.stopped,
{
    if let ProcessorAction::Append(batch) = res {
        law_records_are_one_for_one(batch@);
    }
}

/// Written calls are added up. The file is looked at exactly if the sum reaches
/// the interval, and the sum then starts anew.
pub proof fn law_written_calls_add_up(
    history: &mut ToolHistory,
    count: usize,
    res: ProcessorAction,
)
    requires
        call_ensures(ToolHistory::step, (history, ProcessorEvent::Appended(count)), res),
    ensures
        old(history)@.writes_since_check + count >= ROTATION_CHECK_INTERVAL ==> res is Rotate
            && final(history)@.writes_since_check == 0,
        old(history)@.writes_since_check + count < ROTATION_CHECK_INTERVAL ==> res is Wait
            && final(history)@.writes_since_check == old(history)@.writes_since_check + count,
        final(history)@.inbox == old(history)@.inbox,
        final(history)@.entries == old(history)@.entries,
        final(history)@.write_queue == old(history)@.write_queue,
        final(history)@.history_file == old(history)@.history_file,
        final(history)@.stopped == old(history)@.stopped,
{
}

/// A failed append changes nothing, and the processor waits.
pub proof fn law_failed_append_changes_nothing(history: &mut ToolHistory, res: ProcessorAction)
    requires
        call_ensures(ToolHistory::step, (history, ProcessorEvent::AppendFailed), res),
    ensures
        res is Wait,
        final(history)@ == old(history)@,
{
}

/// Closing first takes in what is left, as if it had just been received. Then it
/// hands over everything that waits to be written, and the processor stops.
pub proof fn law_closing_hands_over_all_that_waits(history: &mut ToolHistory, res: ProcessorAction)
    requires
        call_ensures(ToolHistory::step, (history, ProcessorEvent::Closed), res),
        old(history)@.entries.len() <= MAX_HISTORY_ENTRIES,
    ensures
        old(history)@.inbox.len() > 0 ==> {
            let record = old(history)@.inbox[0];
            let before = old(history)@.entries;
            let after = final(history)@.entries;
            &&& res is Wait
            &&& final(history)@.inbox == old(history)@.inbox.skip(1)
            &&& final(history)@.write_queue == old(history)@.write_queue + seq![record]
            &&& before.len() < MAX_HISTORY_ENTRIES ==> after == before + seq![record]
            &&& before.len() == MAX_HISTORY_ENTRIES ==> after == before.skip(1) + seq![record]
            &&& final(history)@.stopped == old(history)@.stopped
        },
        old(history)@.inbox.len() == 0 ==> {
            &&& res matches ProcessorAction::FlushAndStop(batch) && {
                &&& batch@.len() == old(history)@.write_queue.len()
                &&& forall|i: int|
                    0 <= i < batch@.len() ==> (#[trigger] batch@[i])@
                        == old(history)@.write_queue[i]
            }
            &&& final(history)@.inbox.len() == 0
            &&& final(history)@.write_queue.len() == 0
            &&& final(history)@.entries == old(history)@.entries
            &&& final(history)@.stopped
        },
        final(history)@.writes_since_check == old(history)@.writes_since_check,
        final(history)@.history_file == old(history)@.history_file,
{
    if let ProcessorAction::FlushAndStop(batch) = res {
        law_records_are_one_for_one(batch@);
    }
}

/// What an event or an action holds is all of it.
pub proof fn law_events_and_actions_are_whole(event: ProcessorEvent, action: ProcessorAction)
    ensures
        event is Received <==> event@ is Received,
        event is Tick <==> event@ is Tick,
        event is AppendFailed <==> event@ is AppendFailed,
        event is Closed <==> event@ is Closed,
        event matches ProcessorEvent::Appended(count) ==> event@ == EventView::Appended(
            count as nat,
        ),
        action is Wait <==> action@ is Wait,
        action is Rotate <==> action@ is Rotate,
        action matches ProcessorAction::Append(batch) ==> (action@ matches ActionView::Append(held)
            && held.len() == batch@.len() && forall|i: int|
            0 <= i < batch@.len() ==> held[i] == (#[trigger] batch@[i])@),
        action matches ProcessorAction::FlushAndStop(batch) ==> (
        action@ matches ActionView::FlushAndStop(held) && held.len() == batch@.len()
            && forall|i: int| 0 <= i < batch@.len() ==> held[i] == (#[trigger] batch@[i])@),
{
}

/// Every call that a name filter lets through is a call to the tool of exactly
/// that name, and without a limit in time every such call is let through, in
/// order.
pub proof fn law_name_filter_is_exact(
    entries: Seq<RecordView>,
    stamps: Seq<Option<(i64, u32)>>,
    name: Seq<char>,
    since: Option<(i64, u32)>,
)
    ensures
        forall|i: int|
            0 <= i < tool_history::selected(entries, stamps, Some(name), since).len() ==> (
            #[trigger] tool_history::selected(entries, stamps, Some(name), since)[i]).tool_name
                == name,
        tool_history::selected(entries, stamps, Some(name), None) == entries.filter(
            |record: RecordView| record.tool_name == name,
        ),
    decreases entries.len(),
{
    if entries.len() > 0 {
        law_name_filter_is_exact(entries.drop_last(), stamps, name, since);
        let chosen = tool_history::selected(entries, stamps, Some(name), since);
        let earlier = tool_history::selected(entries.drop_last(), stamps, Some(name), since);
        assert forall|i: int| 0 <= i < chosen.len() implies (#[trigger] chosen[i]).tool_name
            == name by {
            if i < earlier.len() {
                assert(chosen[i] == earlier[i]);
            }
        }
    }
    reveal(Seq::filter);
}

/// A limit in time lets through exactly the calls that are not earlier, and the
/// calls whose time is unknown. One more call is let through or not by itself,
/// whatever came before it.
pub proof fn law_time_filter_is_exact(
    entries: Seq<RecordView>,
    stamps: Seq<Option<(i64, u32)>>,
    record: RecordView,
    stamp: Option<(i64, u32)>,
    tool_name: Option<Seq<char>>,
    since: Option<(i64, u32)>,
)
    requires
        stamps.len() == entries.len(),
    ensures
        tool_history::selected(Seq::empty(), stamps, tool_name, since).len() == 0,
        tool_history::selected(entries.push(record), stamps.push(stamp), tool_name, since) == if {
            &&& tool_name matches Some(name) ==> record.tool_name == name
            &&& since matches Some(limit) ==> (stamp matches Some(at) ==> at.0 > limit.0 || (at.0
                == limit.0 && at.1 >= limit.1))
        } {
            tool_history::selected(entries, stamps, tool_name, since).push(record)
        } else {
            tool_history::selected(entries, stamps, tool_name, since)
        },
{
    let longer = entries.push(record);
    assert(longer.drop_last() == entries);
    lemma_later_stamps_unread(entries, stamps, stamps.push(stamp), tool_name, since);
}

/// Only the instants of the calls themselves are looked at.
proof fn lemma_later_stamps_unread(
    entries: Seq<RecordView>,
    some: Seq<Option<(i64, u32)>>,
    other: Seq<Option<(i64, u32)>>,
    tool_name: Option<Seq<char>>,
    since: Option<(i64, u32)>,
)
    requires
        forall|i: int| 0 <= i < entries.len() ==> #[trigger] some[i] == other[i],
    ensures
        tool_history::selected(entries, some, tool_name, since) == tool_history::selected(
            entries,
            other,
            tool_name,
            since,
        ),
    decreases entries.len(),
{
    if entries.len() > 0 {
        lemma_later_stamps_unread(entries.drop_last(), some, other, tool_name, since);
        assert(some[entries.len() - 1] == other[entries.len() - 1]);
    }
}

/// Selecting by the instants of the calls is filtering them, one by one.
proof fn lemma_selected_is_filter(
    entries: Seq<RecordView>,
    stamps: Seq<Option<(i64, u32)>>,
    tool_name: Option<Seq<char>>,
    since: Option<(i64, u32)>,
    passes: spec_fn(RecordView) -> bool,
)
    requires
        forall|i: int|
            0 <= i < entries.len() ==> #[trigger] passes(entries[i]) == tool_history::is_selected(
                entries[i],
                stamps[i],
                tool_name,
                since,
            ),
    ensures
        tool_history::selected(entries, stamps, tool_name, since) == entries.filter(passes),
    decreases entries.len(),
{
    reveal(Seq::filter);
    if entries.len() > 0 {
        let shorter = entries.drop_last();
        assert forall|i: int| 0 <= i < shorter.len() implies #[trigger] passes(shorter[i])
            == tool_history::is_selected(shorter[i], stamps[i], tool_name, since) by {
            assert(shorter[i] == entries[i]);
        }
        lemma_selected_is_filter(shorter, stamps, tool_name, since, passes);
        assert(passes(entries[entries.len() - 1]) == passes(entries.last()));
    }
}

/// A query gives the calls in memory to exactly the named tool, that are not
/// earlier than the limit: from the offset on, at most as many as asked for and
/// as fit on a page, or, for a negative offset, the newest of them, as many as it
/// says. Each is given with all its parts.
pub proof fn law_query_is_exact(
    history: &ToolHistory,
    max_results: usize,
    offset: i64,
    tool_name: Option<&str>,
    since: Option<&str>,
    res: Vec<ToolCallRecord>,
)
    requires
        call_ensures(
            ToolHistory::get_recent_calls,
            (history, max_results, offset, tool_name, since),
            res,
        ),
    ensures
        ({
            let chosen = history@.entries.filter(
                |record: RecordView|
                    (tool_name matches Some(name) ==> record.tool_name == name@) && (
                    since matches Some(text) ==> (clock::rfc3339_instant(text@) matches Some(limit)
                        ==> (clock::rfc3339_instant(record.timestamp) matches Some(at) ==> at.0
                        > limit.0 || (at.0 == limit.0 && at.1 >= limit.1)))),
            );
            let total = chosen.len() as int;
            let start = if offset < 0 {
                if total + offset > 0 {
                    total + offset
                } else {
                    0
                }
            } else if offset < total {
                offset as int
            } else {
                total
            };
            let most = if offset < 0 {
                total
            } else if max_results < MAX_HISTORY_ENTRIES {
                max_results as int
            } else {
                MAX_HISTORY_ENTRIES as int
            };
            &&& res@.len() == if most < total - start {
                most
            } else {
                total - start
            }
            &&& forall|i: int|
                0 <= i < res@.len() ==> {
                    &&& (#[trigger] res@[i]).timestamp@ == chosen[start + i].timestamp
                    &&& res@[i].tool_name@ == chosen[start + i].tool_name
                    &&& res@[i].arguments == chosen[start + i].arguments
                    &&& res@[i].output == chosen[start + i].output
                    &&& res@[i].duration_ms == chosen[start + i].duration_ms
                }
        }),
{
    let passes = |record: RecordView|
        (tool_name matches Some(name) ==> record.tool_name == name@) && (
        since matches Some(text) ==> (clock::rfc3339_instant(text@) matches Some(limit) ==> (
        clock::rfc3339_instant(record.timestamp) matches Some(at) ==> at.0 > limit.0 || (at.0
            == limit.0 && at.1 >= limit.1))));
    let entries = history@.entries;
    let stamps = tool_history::stamps_of(entries);
    let name = tool_history::optional_text(tool_name);
    let limit = tool_history::optional_instant(since);
    assert forall|i: int| 0 <= i < entries.len() implies #[trigger] passes(entries[i])
        == tool_history::is_selected(entries[i], stamps[i], name, limit) by {
        assert(stamps[i] == clock::rfc3339_instant(entries[i].timestamp));
    }
    lemma_selected_is_filter(entries, stamps, name, limit, passes);
    law_records_are_one_for_one(res@);
    assert forall|i: int| 0 <= i < res@.len() implies tool_history::records(res@)[i] == (
    #[trigger] res@[i])@ by {
        law_record_is_whole(res@[i]);
    }
}

/// A filter decides by the name and the instant of the one record.
pub proof fn law_filter_decides_by_name_and_time(
    record: &ToolCallRecord,
    stamp: Option<(i64, u32)>,
    tool_name: &Option<String>,
    since: Option<(i64, u32)>,
    res: bool,
)
    requires
        call_ensures(passes_filters, (record, stamp, tool_name, since), res),
    ensures
        res <==> {
            &&& *tool_name matches Some(name) ==> record.tool_name@ == name@
            &&& since matches Some(limit) ==> (stamp matches Some(at) ==> at.0 > limit.0 || (at.0
                == limit.0 && at.1 >= limit.1))
        },
{
}

/// A page starts at the offset, or at the end if there is less, and is as long as
/// asked for, as a page can be, or as there is. For a negative offset it is the
/// tail of that length, or everything if there is less.
pub proof fn law_page_is_exact<A>(items: Seq<A>, max_results: nat, offset: int)
    ensures
        offset < 0 && -offset <= items.len() ==> tool_history::page(items, max_results, offset)
            == items.skip(items.len() + offset),
        offset < 0 && -offset > items.len() ==> tool_history::page(items, max_results, offset)
            == items,
        offset >= items.len() && offset >= 0 ==> tool_history::page(
            items,
            max_results,
            offset,
        ).len() == 0,
        0 <= offset < items.len() ==> {
            let found = tool_history::page(items, max_results, offset);
            &&& found.len() <= max_results
            &&& found.len() <= MAX_HISTORY_ENTRIES
            &&& found.len() <= items.len() - offset
            &&& found.len() == max_results || found.len() == MAX_HISTORY_ENTRIES || found.len()
                == items.len() - offset
            &&& forall|i: int| 0 <= i < found.len() ==> #[trigger] found[i] == items[offset + i]
        },
{
}

/// The bounds of a page are those of the part of a list that the page holds.
pub proof fn law_page_bounds_are_those_of_the_page<A>(
    items: Seq<A>,
    total: usize,
    max_results: usize,
    offset: i64,
    res: (usize, usize),
)
    requires
        call_ensures(page_bounds, (total, max_results, offset), res),
        items.len() == total,
    ensures
        res.0 <= res.1 <= total,
        tool_history::page(items, max_results as nat, offset as int) == items.subrange(
            res.0 as int,
            res.1 as int,
        ),
{
    assert(tool_history::page(items, max_results as nat, offset as int) == items.subrange(
        res.0 as int,
        res.1 as int,
    ));
}

/// The statistics count the calls in memory and name the times of the first and
/// the last of them.
pub proof fn law_stats_describe_memory(history: &ToolHistory, res: HistoryStats)
    requires
        call_ensures(ToolHistory::get_stats, (history,), res),
    ensures
        res.total_entries == history@.entries.len(),
        history@.entries.len() == 0 ==> res.oldest_entry is None && res.newest_entry is None,
        history@.entries.len() > 0 ==> {
            &&& res.oldest_entry matches Some(timestamp) && timestamp@
                == history@.entries[0].timestamp
            &&& res.newest_entry matches Some(timestamp) && timestamp@
                == history@.entries[history@.entries.len() - 1].timestamp
        },
{
}

/// A notice says what went wrong and why.
pub proof fn law_notice_names_fault_and_cause(fault: HistoryFault, cause: &str, res: String)
    requires
        call_ensures(fault_notice, (fault, cause), res),
    ensures
        fault is CreateDirectory ==> res@ == "Failed to create history directory: "@ + cause@,
        fault is Load ==> res@ == "Failed to load tool history: "@ + cause@,
        fault is Write ==> res@ == "Failed to write tool history: "@ + cause@,
        fault is Rotate ==> res@ == "Failed to rotate tool history: "@ + cause@,
{
}

/// A clone of the statistics says the same.
pub proof fn law_stats_clone_says_the_same(stats: HistoryStats, copy: HistoryStats)
    requires
        call_ensures(<HistoryStats as Clone>::clone, (&stats,), copy),
    ensures
        copy.total_entries == stats.total_entries,
        copy.oldest_entry == stats.oldest_entry,
        copy.newest_entry == stats.newest_entry,
{
}

/// A query whose instants are given selects by them, and gives the page of what
/// it selected, each call with all its parts.
pub proof fn law_query_by_instants_is_exact(
    history: &ToolHistory,
    max_results: usize,
    offset: i64,
    tool_name: Option<&str>,
    since: Option<(i64, u32)>,
    stamps: &Vec<Option<(i64, u32)>>,
    res: Vec<ToolCallRecord>,
)
    requires
        call_ensures(
            ToolHistory::get_calls_with_stamps,
            (history, max_results, offset, tool_name, since, stamps),
            res,
        ),
    ensures
        ({
            let chosen = tool_history::selected(
                history@.entries,
                stamps@,
                match tool_name {
                    Some(name) => Some(name@),
                    None => None,
                },
                since,
            );
            let found = tool_history::page(chosen, max_results as nat, offset as int);
            &&& res@.len() == found.len()
            &&& forall|i: int|
                0 <= i < res@.len() ==> {
                    &&& (#[trigger] res@[i]).timestamp@ == found[i].timestamp
                    &&& res@[i].tool_name@ == found[i].tool_name
                    &&& res@[i].arguments == found[i].arguments
                    &&& res@[i].output == found[i].output
                    &&& res@[i].duration_ms == found[i].duration_ms
                }
        }),
{
    law_records_are_one_for_one(res@);
    assert forall|i: int| 0 <= i < res@.len() implies tool_history::records(res@)[i] == (
    #[trigger] res@[i])@ by {
        law_record_is_whole(res@[i]);
    }
}

} // verus!
