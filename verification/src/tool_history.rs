//! The history of tool calls: the inbox that recorded calls wait in, the calls
//! kept in memory, the calls waiting to be written, and the decisions of the
//! background processor.

use crate::clock;
use crate::lines;
use crate::text;
use std::collections::VecDeque;
use vstd::prelude::*;

verus! {

/// How many calls are kept in memory, and the most that one page returns.
pub const MAX_HISTORY_ENTRIES: usize = 1000;

/// After how many writes the history file is looked at for a cut.
pub const ROTATION_CHECK_INTERVAL: usize = 100;

/// How many seconds pass between two flushes of the write queue.
pub const FLUSH_INTERVAL_SECS: u64 = 1;

/// The directory, within the user's configuration directory, that history files
/// are kept in.
pub const HISTORY_DIR: &'static str = "kodegen-mcp";

/// What can go wrong with the history file.
pub enum HistoryFault {
    /// Its directory could not be created.
    CreateDirectory,
    /// It could not be read.
    Load,
    /// It could not be opened for writing.
    Write,
    /// It could not be cut.
    Rotate,
}

/// The notice that a fault is reported with; `cause` describes what went wrong.
pub fn fault_notice(fault: HistoryFault, cause: &str) -> (res: String)
    ensures
        res@ == match fault {
            HistoryFault::CreateDirectory => "Failed to create history directory: "@,
            HistoryFault::Load => "Failed to load tool history: "@,
            HistoryFault::Write => "Failed to write tool history: "@,
            HistoryFault::Rotate => "Failed to rotate tool history: "@,
        } + cause@,
{
    match fault {
        HistoryFault::CreateDirectory => text::joined("Failed to create history directory: ", cause),
        HistoryFault::Load => text::joined("Failed to load tool history: ", cause),
        HistoryFault::Write => text::joined("Failed to write tool history: ", cause),
        HistoryFault::Rotate => text::joined("Failed to rotate tool history: ", cause),
    }
}

/// Single tool call record
#[derive(Debug)]
pub struct ToolCallRecord {
    /// ISO 8601 timestamp (UTC)
    pub timestamp: String,
    /// Name of the tool that was called
    pub tool_name: String,
    /// Arguments passed to the tool (as JSON)
    pub arguments: serde_json::Value,
    /// Output returned by the tool (as JSON)
    pub output: serde_json::Value,
    /// Execution duration in milliseconds
    pub duration_ms: Option<u64>,
}

/// What a [`ToolCallRecord`] holds.
pub struct RecordView {
    pub timestamp: Seq<char>,
    pub tool_name: Seq<char>,
    pub arguments: serde_json::Value,
    pub output: serde_json::Value,
    pub duration_ms: Option<u64>,
}

impl View for ToolCallRecord {
    type V = RecordView;

    open spec fn view(&self) -> RecordView {
        RecordView {
            timestamp: self.timestamp@,
            tool_name: self.tool_name@,
            arguments: self.arguments,
            output: self.output,
            duration_ms: self.duration_ms,
        }
    }
}

impl Clone for ToolCallRecord {
    fn clone(&self) -> (res: Self)
        ensures
            res@ == self@,
    {
        ToolCallRecord {
            timestamp: self.timestamp.clone(),
            tool_name: self.tool_name.clone(),
            arguments: self.arguments.clone(),
            output: self.output.clone(),
            duration_ms: self.duration_ms,
        }
    }
}

impl ToolCallRecord {
    /// A record of a call that is made now: its timestamp is what the clock says.
    pub fn now(
        tool_name: String,
        arguments: serde_json::Value,
        output: serde_json::Value,
        duration_ms: Option<u64>,
    ) -> (res: Self)
        ensures
            call_ensures(clock::now_rfc3339, (), res.timestamp),
            res@ == record_view(
                res.timestamp@,
                tool_name@,
                arguments,
                output,
                duration_ms,
            ),
    {
        ToolCallRecord { timestamp: clock::now_rfc3339(), tool_name, arguments, output, duration_ms }
    }
}

/// A record, from its parts.
pub open spec fn record_view(
    timestamp: Seq<char>,
    tool_name: Seq<char>,
    arguments: serde_json::Value,
    output: serde_json::Value,
    duration_ms: Option<u64>,
) -> RecordView {
    RecordView { timestamp, tool_name, arguments, output, duration_ms }
}

/// What a list of records holds.
pub open spec fn records(list: Seq<ToolCallRecord>) -> Seq<RecordView> {
    list.map_values(|record: ToolCallRecord| record@)
}

/// The state of a [`ToolHistory`].
pub struct HistoryView {
    /// The recorded calls that the background processor has not taken in yet,
    /// oldest first.
    pub inbox: Seq<RecordView>,
    /// The calls in memory, oldest first.
    pub entries: Seq<RecordView>,
    /// The calls waiting to be written, oldest first.
    pub write_queue: Seq<RecordView>,
    /// How many calls were written since the history file was last looked at.
    pub writes_since_check: nat,
    /// The name of the history file.
    pub history_file: Seq<char>,
    /// Whether the background processor has stopped.
    pub stopped: bool,
}

/// Tool call history manager with inbox, in-memory cache and write queue
pub struct ToolHistory {
    inbox: VecDeque<ToolCallRecord>,
    entries: VecDeque<ToolCallRecord>,
    history_file: String,
    write_queue: Vec<ToolCallRecord>,
    writes_since_check: usize,
    stopped: bool,
}

impl View for ToolHistory {
    type V = HistoryView;

    closed spec fn view(&self) -> HistoryView {
        HistoryView {
            inbox: records(self.inbox@),
            entries: records(self.entries@),
            write_queue: records(self.write_queue@),
            writes_since_check: self.writes_since_check as nat,
            history_file: self.history_file@,
            stopped: self.stopped,
        }
    }
}

/// The state of a new history.
pub open spec fn fresh(instance_id: Seq<char>) -> HistoryView {
    HistoryView {
        inbox: seq![],
        entries: seq![],
        write_queue: seq![],
        writes_since_check: 0,
        history_file: "tool-history_"@ + instance_id + ".jsonl"@,
        stopped: false,
    }
}

/// What holds of every state of the history: the memory is bounded, the write
/// counter stays below the next look at the file, and a processor that has
/// stopped has left nothing behind.
pub open spec fn well_formed(state: HistoryView) -> bool {
    &&& state.entries.len() <= MAX_HISTORY_ENTRIES
    &&& state.writes_since_check < ROTATION_CHECK_INTERVAL
    &&& state.stopped ==> state.inbox.len() == 0 && state.write_queue.len() == 0
}

/// What the background processor is told.
pub enum ProcessorEvent {
    /// A recorded call is in the inbox.
    Received,
    /// The flush interval has passed.
    Tick,
    /// The history file was opened and this many calls were written to it.
    Appended(usize),
    /// The history file could not be opened.
    AppendFailed,
    /// No more calls will be recorded.
    Closed,
}

/// What the background processor does next.
pub enum ProcessorAction {
    /// Wait for the next event.
    Wait,
    /// Append these calls to the history file.
    Append(Vec<ToolCallRecord>),
    /// Cut the history file if it has grown too long.
    Rotate,
    /// Append these calls to the history file, if there are any, and stop.
    FlushAndStop(Vec<ToolCallRecord>),
}

/// What happens to a history: a call is recorded, or the background processor is
/// told something.
pub enum EventView {
    Recorded(RecordView),
    Received,
    Tick,
    Appended(nat),
    AppendFailed,
    Closed,
}

/// What a [`ProcessorAction`] holds.
pub enum ActionView {
    Wait,
    Append(Seq<RecordView>),
    Rotate,
    FlushAndStop(Seq<RecordView>),
}

impl View for ProcessorEvent {
    type V = EventView;

    open spec fn view(&self) -> EventView {
        match *self {
            ProcessorEvent::Received => EventView::Received,
            ProcessorEvent::Tick => EventView::Tick,
            ProcessorEvent::Appended(count) => EventView::Appended(count as nat),
            ProcessorEvent::AppendFailed => EventView::AppendFailed,
            ProcessorEvent::Closed => EventView::Closed,
        }
    }
}

impl View for ProcessorAction {
    type V = ActionView;

    open spec fn view(&self) -> ActionView {
        match *self {
            ProcessorAction::Wait => ActionView::Wait,
            ProcessorAction::Append(batch) => ActionView::Append(records(batch@)),
            ProcessorAction::Rotate => ActionView::Rotate,
            ProcessorAction::FlushAndStop(batch) => ActionView::FlushAndStop(records(batch@)),
        }
    }
}

/// The state after the oldest call of the inbox, if there is one, is taken in: it
/// is the newest in memory, where the oldest makes room for it, and the last to
/// be written.
pub open spec fn after_taking_in(state: HistoryView) -> HistoryView {
    if state.inbox.len() == 0 {
        state
    } else {
        HistoryView {
            inbox: state.inbox.drop_first(),
            entries: lines::last_of(
                state.entries.push(state.inbox.first()),
                MAX_HISTORY_ENTRIES as nat,
            ),
            write_queue: state.write_queue.push(state.inbox.first()),
            ..state
        }
    }
}

/// The state of the history after an event. A recorded call waits in the inbox;
/// nothing else changes. Once the processor has stopped, recorded calls are
/// dropped. It stops when no more calls will be recorded and the inbox is empty.
pub open spec fn next_state(state: HistoryView, event: EventView) -> HistoryView {
    match event {
        EventView::Recorded(record) => if state.stopped {
            state
        } else {
            HistoryView { inbox: state.inbox.push(record), ..state }
        },
        EventView::Received => after_taking_in(state),
        EventView::Tick => HistoryView { write_queue: seq![], ..state },
        EventView::Appended(count) => HistoryView {
            writes_since_check: if state.writes_since_check + count >= ROTATION_CHECK_INTERVAL {
                0
            } else {
                state.writes_since_check + count
            },
            ..state
        },
        EventView::AppendFailed => state,
        EventView::Closed => if state.inbox.len() == 0 {
            HistoryView { write_queue: seq![], stopped: true, ..state }
        } else {
            after_taking_in(state)
        },
    }
}

/// What the background processor does on an event.
pub open spec fn next_action(state: HistoryView, event: EventView) -> ActionView {
    match event {
        EventView::Recorded(_) => ActionView::Wait,
        EventView::Received => ActionView::Wait,
        EventView::Tick => if state.write_queue.len() == 0 {
            ActionView::Wait
        } else {
            ActionView::Append(state.write_queue)
        },
        EventView::Appended(count) => if state.writes_since_check + count
            >= ROTATION_CHECK_INTERVAL {
            ActionView::Rotate
        } else {
            ActionView::Wait
        },
        EventView::AppendFailed => ActionView::Wait,
        EventView::Closed => if state.inbox.len() == 0 {
            ActionView::FlushAndStop(state.write_queue)
        } else {
            ActionView::Wait
        },
    }
}

/// The records among parsed lines; a line that could not be parsed is passed over.
pub open spec fn parsed_records(parsed: Seq<Option<ToolCallRecord>>) -> Seq<RecordView> {
    parsed.filter_map(
        |line: Option<ToolCallRecord>|
            match line {
                Some(record) => Some(record@),
                None => None,
            },
    )
}

/// The most calls that a page from the front holds.
pub open spec fn page_limit(max_results: nat) -> nat {
    if max_results < MAX_HISTORY_ENTRIES {
        max_results
    } else {
        MAX_HISTORY_ENTRIES as nat
    }
}

/// The page that an offset and a limit pick. A negative offset asks for the tail
/// of that length, whatever the limit is. Any other offset is passed over, and
/// what follows is read up to the limit.
pub open spec fn page<A>(items: Seq<A>, max_results: nat, offset: int) -> Seq<A> {
    if offset < 0 {
        lines::last_of(items, (-offset) as nat)
    } else {
        lines::first_of(lines::after_first(items, offset as nat), page_limit(max_results))
    }
}

/// The state after the memory was filled from the parsed lines of the history
/// file. Only the last calls are kept.
pub open spec fn loaded(
    state: HistoryView,
    parsed: Seq<Option<ToolCallRecord>>,
) -> HistoryView {
    HistoryView {
        entries: lines::last_of(parsed_records(parsed), MAX_HISTORY_ENTRIES as nat),
        ..state
    }
}

/// Whether a call passes the filters. `stamp` is the instant that its timestamp
/// names. A call without an instant passes every limit in time.
pub open spec fn is_selected(
    record: RecordView,
    stamp: Option<(i64, u32)>,
    tool_name: Option<Seq<char>>,
    since: Option<(i64, u32)>,
) -> bool {
    &&& match tool_name {
        Some(name) => record.tool_name == name,
        None => true,
    }
    &&& match since {
        Some(limit) => match stamp {
            Some(at) => !clock::is_before(at, limit),
            None => true,
        },
        None => true,
    }
}

/// The calls that pass the filters, in order; `stamps[i]` is the instant of
/// `entries[i]`.
pub open spec fn selected(
    entries: Seq<RecordView>,
    stamps: Seq<Option<(i64, u32)>>,
    tool_name: Option<Seq<char>>,
    since: Option<(i64, u32)>,
) -> Seq<RecordView>
    decreases entries.len(),
{
    if entries.len() == 0 {
        seq![]
    } else {
        let earlier = selected(entries.drop_last(), stamps, tool_name, since);
        if is_selected(entries.last(), stamps[entries.len() - 1], tool_name, since) {
            earlier.push(entries.last())
        } else {
            earlier
        }
    }
}

/// The instants that the timestamps of the calls name.
pub open spec fn stamps_of(entries: Seq<RecordView>) -> Seq<Option<(i64, u32)>> {
    entries.map_values(|record: RecordView| clock::rfc3339_instant(record.timestamp))
}

/// The content of an optional text.
pub open spec fn optional_text(text: Option<&str>) -> Option<Seq<char>> {
    match text {
        Some(content) => Some(content@),
        None => None,
    }
}

/// The instant that an optional text names.
pub open spec fn optional_instant(text: Option<&str>) -> Option<(i64, u32)> {
    match text {
        Some(content) => clock::rfc3339_instant(content@),
        None => None,
    }
}

/// Where a page of `total` calls starts and ends.
pub fn page_bounds(total: usize, max_results: usize, offset: i64) -> (res: (usize, usize))
    ensures
        res.0 <= res.1 <= total,
        offset < 0 ==> res.0 == (if total + offset > 0 { total + offset } else { 0 }),
        offset < 0 ==> res.1 == total,
        offset >= 0 ==> res.0 == (if offset < total { offset as int } else { total as int }),
        offset >= 0 ==> res.1 - res.0 == (if page_limit(max_results as nat) < total - res.0 {
            page_limit(max_results as nat) as int
        } else {
            total - res.0
        }),
{
    let magnitude: u64 = text::magnitude(offset);
    if offset < 0 {
        if magnitude < total as u64 {
            (total - magnitude as usize, total)
        } else {
            (0, total)
        }
    } else {
        let start: usize = if magnitude < total as u64 {
            magnitude as usize
        } else {
            total
        };
        let limit: usize = if max_results < MAX_HISTORY_ENTRIES {
            max_results
        } else {
            MAX_HISTORY_ENTRIES
        };
        let end: usize = if limit < total - start {
            start + limit
        } else {
            total
        };
        (start, end)
    }
}

/// Decides whether a call passes the filters; `stamp` is the instant that its
/// timestamp names.
pub fn passes_filters(
    record: &ToolCallRecord,
    stamp: Option<(i64, u32)>,
    tool_name: &Option<String>,
    since: Option<(i64, u32)>,
) -> (res: bool)
    ensures
        res == is_selected(
            record@,
            stamp,
            match *tool_name {
                Some(name) => Some(name@),
                None => None,
            },
            since,
        ),
{
    if let Some(name) = tool_name {
        if record.tool_name != *name {
            return false;
        }
    }
    if let Some(limit) = since {
        if let Some(at) = stamp {
            if clock::before(at, limit) {
                return false;
            }
        }
    }
    true
}

impl ToolHistory {
    /// Every history is in a well-formed state.
    #[verifier::type_invariant]
    spec fn is_well_formed(self) -> bool {
        well_formed(self@)
    }

    /// Create a new, empty history manager
    pub fn new(instance_id: String) -> (res: Self)
        ensures
            well_formed(res@),
            res@ == fresh(instance_id@),
    {
        let mut history_file = "tool-history_".to_owned();
        history_file.append(instance_id.as_str());
        history_file.append(".jsonl");
        let inbox: VecDeque<ToolCallRecord> = VecDeque::new();
        let entries: VecDeque<ToolCallRecord> = VecDeque::new();
        let write_queue: Vec<ToolCallRecord> = Vec::new();
        assert(records(inbox@) == Seq::<RecordView>::empty());
        assert(records(entries@) == Seq::<RecordView>::empty());
        assert(records(write_queue@) == Seq::<RecordView>::empty());
        ToolHistory {
            inbox,
            entries,
            history_file,
            write_queue,
            writes_since_check: 0,
            stopped: false,
        }
    }

    /// The name of the history file
    pub fn history_file(&self) -> (res: &str)
        ensures
            res@ == self@.history_file,
    {
        self.history_file.as_str()
    }

    /// Takes the oldest call of the inbox in: it joins the calls in memory and
    /// the write queue.
    fn take_in(&mut self)
        ensures
            final(self)@ == after_taking_in(old(self)@),
            well_formed(final(self)@),
    {
        proof {
            use_type_invariant(&*self);
        }
        let ghost before = *self;
        let mut inbox: VecDeque<ToolCallRecord> = VecDeque::new();
        let mut entries: VecDeque<ToolCallRecord> = VecDeque::new();
        let mut queue: Vec<ToolCallRecord> = Vec::new();
        assert(records(inbox@) == Seq::<RecordView>::empty());
        assert(records(entries@) == Seq::<RecordView>::empty());
        assert(records(queue@) == Seq::<RecordView>::empty());
        std::mem::swap(&mut inbox, &mut self.inbox);
        std::mem::swap(&mut entries, &mut self.entries);
        std::mem::swap(&mut queue, &mut self.write_queue);
        assert(records(inbox@).len() == inbox@.len());
        if let Some(record) = inbox.pop_front() {
            assert(records(before.inbox@).first() == record@);
            assert(records(inbox@) == records(before.inbox@).drop_first());
            entries.push_back(record.clone());
            let ghost pushed = entries@;
            assert(records(pushed) == records(before.entries@).push(record@));
            if entries.len() > MAX_HISTORY_ENTRIES {
                let _ = entries.pop_front();
                assert(records(entries@) == lines::last_of(
                    records(pushed),
                    MAX_HISTORY_ENTRIES as nat,
                ));
            }
            queue.push(record);
            assert(records(queue@) == records(before.write_queue@).push(record@));
        }
        self.inbox = inbox;
        self.entries = entries;
        self.write_queue = queue;
    }

    /// Puts a record into the inbox, behind all earlier ones.
    pub fn enqueue(&mut self, record: ToolCallRecord)
        ensures
            final(self)@ == next_state(old(self)@, EventView::Recorded(record@)),
            well_formed(final(self)@),
    {
        proof {
            use_type_invariant(&*self);
        }
        if !self.stopped {
            let mut inbox: VecDeque<ToolCallRecord> = VecDeque::new();
            assert(records(inbox@) == Seq::<RecordView>::empty());
            std::mem::swap(&mut inbox, &mut self.inbox);
            let ghost waiting = inbox@;
            inbox.push_back(record);
            assert(records(inbox@) == records(waiting).push(record@));
            self.inbox = inbox;
        }
    }

    /// Add a tool call to history: a record of it, stamped with the current time,
    /// waits in the inbox. The calls in memory and the write queue are left alone
    /// until the background processor takes it in.
    pub fn add_call(
        &mut self,
        tool_name: String,
        arguments: serde_json::Value,
        output: serde_json::Value,
        duration_ms: Option<u64>,
    )
        ensures
            well_formed(final(self)@),
            exists|timestamp: String| #[trigger]
                call_ensures(clock::now_rfc3339, (), timestamp) && final(self)@ == next_state(
                    old(self)@,
                    EventView::Recorded(
                        record_view(timestamp@, tool_name@, arguments, output, duration_ms),
                    ),
                ),
    {
        let record = ToolCallRecord::now(tool_name, arguments, output, duration_ms);
        self.enqueue(record);
    }

    /// Fills the memory from the lines of the history file: `parsed` holds, in
    /// order, what each line parsed to. Only the last calls are kept.
    pub fn load_from_disk(&mut self, parsed: Vec<Option<ToolCallRecord>>)
        ensures
            final(self)@ == loaded(old(self)@, parsed@),
            well_formed(final(self)@),
    {
        proof {
            use_type_invariant(&*self);
        }
        let mut entries: VecDeque<ToolCallRecord> = VecDeque::new();
        assert(parsed@.take(0) == Seq::<Option<ToolCallRecord>>::empty());
        assert(records(entries@) == parsed_records(parsed@.take(0)));
        for i in 0..parsed.len()
            invariant
                records(entries@) == parsed_records(parsed@.take(i as int)),
        {
            let ghost before = entries@;
            proof {
                broadcast use Seq::lemma_filter_map_take_succ;

                assert(parsed@.take(i + 1) == parsed@.take(i as int).push(parsed@[i as int]));
            }
            if let Some(record) = &parsed[i] {
                entries.push_back(record.clone());
                assert(records(entries@) == records(before).push(record@));
            }
            assert(records(entries@) == parsed_records(parsed@.take(i + 1)));
        }
        assert(parsed@.take(parsed@.len() as int) == parsed@);
        let ghost all = records(entries@);
        assert(all.skip(0) == all);
        while entries.len() > MAX_HISTORY_ENTRIES
            invariant
                entries@.len() <= all.len(),
                entries@.len() < all.len() ==> entries@.len() >= MAX_HISTORY_ENTRIES,
                records(entries@) == all.skip(all.len() - entries@.len()),
            decreases entries@.len(),
        {
            let ghost before = entries@;
            let _ = entries.pop_front();
            assert(records(entries@) == records(before).skip(1));
            assert(records(entries@) == all.skip(all.len() - entries@.len()));
        }
        assert(records(entries@) == lines::last_of(all, MAX_HISTORY_ENTRIES as nat));
        self.entries = entries;
    }

    /// Takes an event of the background processor in and decides what it does
    /// next.
    pub fn step(&mut self, event: ProcessorEvent) -> (res: ProcessorAction)
        ensures
            final(self)@ == next_state(old(self)@, event@),
            res@ == next_action(old(self)@, event@),
            well_formed(final(self)@),
    {
        proof {
            use_type_invariant(&*self);
        }
        match event {
            ProcessorEvent::Received => {
                self.take_in();
                ProcessorAction::Wait
            },
            ProcessorEvent::Tick => {
                let mut batch: Vec<ToolCallRecord> = Vec::new();
                assert(records(batch@) == Seq::<RecordView>::empty());
                std::mem::swap(&mut batch, &mut self.write_queue);
                assert(records(batch@).len() == batch@.len());
                if batch.len() == 0 {
                    ProcessorAction::Wait
                } else {
                    ProcessorAction::Append(batch)
                }
            },
            ProcessorEvent::Appended(count) => {
                if count >= ROTATION_CHECK_INTERVAL - self.writes_since_check {
                    self.writes_since_check = 0;
                    ProcessorAction::Rotate
                } else {
                    self.writes_since_check = self.writes_since_check + count;
                    ProcessorAction::Wait
                }
            },
            ProcessorEvent::AppendFailed => ProcessorAction::Wait,
            ProcessorEvent::Closed => {
                assert(records(self.inbox@).len() == self.inbox@.len());
                if self.inbox.len() == 0 {
                    let mut batch: Vec<ToolCallRecord> = Vec::new();
                    assert(records(batch@) == Seq::<RecordView>::empty());
                    std::mem::swap(&mut batch, &mut self.write_queue);
                    self.stopped = true;
                    ProcessorAction::FlushAndStop(batch)
                } else {
                    self.take_in();
                    ProcessorAction::Wait
                }
            },
        }
    }

    /// Get recent tool calls, given the instants that the timestamps of the calls
    /// in memory name. They are looked at only where there is a limit in time.
    pub fn get_calls_with_stamps(
        &self,
        max_results: usize,
        offset: i64,
        tool_name: Option<&str>,
        since: Option<(i64, u32)>,
        stamps: &Vec<Option<(i64, u32)>>,
    ) -> (res: Vec<ToolCallRecord>)
        requires
            since is Some ==> stamps@.len() == self@.entries.len(),
        ensures
            records(res@) == page(
                selected(self@.entries, stamps@, optional_text(tool_name), since),
                max_results as nat,
                offset as int,
            ),
    {
        let name: Option<String> = match tool_name {
            Some(content) => Some(content.to_owned()),
            None => None,
        };
        let ghost all = self@.entries;
        let ghost filter = optional_text(tool_name);
        let mut filtered: Vec<ToolCallRecord> = Vec::new();
        assert(all.take(0) == Seq::<RecordView>::empty());
        assert(records(filtered@) == selected(all.take(0), stamps@, filter, since));
        for i in 0..self.entries.len()
            invariant
                all == records(self.entries@),
                filtered@.len() <= i,
                since is Some ==> stamps@.len() == all.len(),
                filter == match name {
                    Some(content) => Some(content@),
                    None => None,
                },
                records(filtered@) == selected(all.take(i as int), stamps@, filter, since),
        {
            let ghost before = filtered@;
            let stamp: Option<(i64, u32)> = if since.is_some() {
                stamps[i]
            } else {
                None
            };
            let ghost next = all.take(i + 1);
            assert(next.drop_last() == all.take(i as int));
            assert(next.last() == self.entries@[i as int]@);
            let record = &self.entries[i];
            if passes_filters(record, stamp, &name, since) {
                filtered.push(record.clone());
                assert(records(filtered@) == records(before).push(record@));
            }
            assert(records(filtered@) == selected(next, stamps@, filter, since));
        }
        assert(all.take(all.len() as int) == all);
        assert(records(filtered@).len() == filtered@.len());
        let (start, end) = page_bounds(filtered.len(), max_results, offset);
        assert(page(records(filtered@), max_results as nat, offset as int) == records(
            filtered@,
        ).subrange(start as int, end as int));
        copy_range(&filtered, start, end)
    }

    /// Get recent tool calls with optional filters and offset support
    pub fn get_recent_calls(
        &self,
        max_results: usize,
        offset: i64,
        tool_name: Option<&str>,
        since: Option<&str>,
    ) -> (res: Vec<ToolCallRecord>)
        ensures
            records(res@) == page(
                selected(
                    self@.entries,
                    stamps_of(self@.entries),
                    optional_text(tool_name),
                    optional_instant(since),
                ),
                max_results as nat,
                offset as int,
            ),
    {
        let limit: Option<(i64, u32)> = match since {
            Some(content) => clock::parse_rfc3339(content),
            None => None,
        };
        let mut stamps: Vec<Option<(i64, u32)>> = Vec::new();
        if limit.is_some() {
            for i in 0..self.entries.len()
                invariant
                    self@.entries == records(self.entries@),
                    stamps@ == stamps_of(self@.entries).take(i as int),
            {
                stamps.push(clock::parse_rfc3339(self.entries[i].timestamp.as_str()));
                assert(stamps@ == stamps_of(self@.entries).take(i + 1));
            }
            assert(stamps@ == stamps_of(self@.entries));
        } else {
            proof {
                lemma_stamps_unread(
                    self@.entries,
                    stamps@,
                    stamps_of(self@.entries),
                    optional_text(tool_name),
                );
            }
        }
        self.get_calls_with_stamps(max_results, offset, tool_name, limit, &stamps)
    }

    /// Get history statistics
    pub fn get_stats(&self) -> (res: HistoryStats)
        ensures
            res.total_entries == self@.entries.len(),
            match res.oldest_entry {
                Some(timestamp) => self@.entries.len() > 0 && timestamp@
                    == self@.entries.first().timestamp,
                None => self@.entries.len() == 0,
            },
            match res.newest_entry {
                Some(timestamp) => self@.entries.len() > 0 && timestamp@
                    == self@.entries.last().timestamp,
                None => self@.entries.len() == 0,
            },
    {
        let total: usize = self.entries.len();
        if total == 0 {
            HistoryStats { total_entries: total, oldest_entry: None, newest_entry: None }
        } else {
            HistoryStats {
                total_entries: total,
                oldest_entry: Some(self.entries[0].timestamp.clone()),
                newest_entry: Some(self.entries[total - 1].timestamp.clone()),
            }
        }
    }
}

/// History statistics
#[derive(Debug)]
pub struct HistoryStats {
    /// How many calls are in memory.
    pub total_entries: usize,
    /// The timestamp of the oldest of them.
    pub oldest_entry: Option<String>,
    /// The timestamp of the newest of them.
    pub newest_entry: Option<String>,
}

impl Clone for HistoryStats {
    fn clone(&self) -> (res: Self)
        ensures
            res == *self,
    {
        HistoryStats {
            total_entries: self.total_entries,
            oldest_entry: match &self.oldest_entry {
                Some(timestamp) => Some(timestamp.clone()),
                None => None,
            },
            newest_entry: match &self.newest_entry {
                Some(timestamp) => Some(timestamp.clone()),
                None => None,
            },
        }
    }
}

/// Copies the records from `start` to before `end`.
fn copy_range(list: &Vec<ToolCallRecord>, start: usize, end: usize) -> (res: Vec<ToolCallRecord>)
    requires
        start <= end <= list@.len(),
    ensures
        records(res@) == records(list@).subrange(start as int, end as int),
{
    let mut out: Vec<ToolCallRecord> = Vec::new();
    for i in start..end
        invariant
            start <= end <= list@.len(),
            records(out@) == records(list@).subrange(start as int, i as int),
    {
        let ghost before = out@;
        out.push(list[i].clone());
        assert(records(out@) == records(before).push(list@[i as int]@));
        assert(records(out@) == records(list@).subrange(start as int, i + 1));
    }
    out
}

/// Without a limit in time the instants are not looked at.
proof fn lemma_stamps_unread(
    entries: Seq<RecordView>,
    some_stamps: Seq<Option<(i64, u32)>>,
    other_stamps: Seq<Option<(i64, u32)>>,
    tool_name: Option<Seq<char>>,
)
    ensures
        selected(entries, some_stamps, tool_name, None) == selected(
            entries,
            other_stamps,
            tool_name,
            None,
        ),
    decreases entries.len(),
{
    if entries.len() > 0 {
        lemma_stamps_unread(entries.drop_last(), some_stamps, other_stamps, tool_name);
    }
}

/// Without filters every call is selected.
pub proof fn law_no_filter_selects_all(
    entries: Seq<RecordView>,
    stamps: Seq<Option<(i64, u32)>>,
)
    ensures
        selected(entries, stamps, None, None) == entries,
    decreases entries.len(),
{
    if entries.len() > 0 {
        law_no_filter_selects_all(entries.drop_last(), stamps);
        assert(entries.drop_last().push(entries.last()) == entries);
    }
}

/// Only calls that pass the filters are selected, and every call that passes is.
pub proof fn law_selection_is_exact(
    entries: Seq<RecordView>,
    stamps: Seq<Option<(i64, u32)>>,
    tool_name: Option<Seq<char>>,
    since: Option<(i64, u32)>,
)
    ensures
        forall|record: RecordView| #[trigger]
            selected(entries, stamps, tool_name, since).contains(record) <==> (exists|i: int|
                0 <= i < entries.len() && #[trigger] entries[i] == record && is_selected(
                    record,
                    stamps[i],
                    tool_name,
                    since,
                )),
    decreases entries.len(),
{
    let chosen = selected(entries, stamps, tool_name, since);
    if entries.len() > 0 {
        let shorter = entries.drop_last();
        let earlier = selected(shorter, stamps, tool_name, since);
        let newest = entries.len() - 1;
        law_selection_is_exact(shorter, stamps, tool_name, since);
        assert forall|record: RecordView| #[trigger] chosen.contains(record) <==> (exists|i: int|
            0 <= i < entries.len() && #[trigger] entries[i] == record && is_selected(
                record,
                stamps[i],
                tool_name,
                since,
            )) by {
            if chosen.contains(record) {
                let k = choose|k: int| 0 <= k < chosen.len() && chosen[k] == record;
                if k < earlier.len() {
                    assert(earlier[k] == record);
                    assert(earlier.contains(record));
                    let i = choose|i: int|
                        0 <= i < shorter.len() && #[trigger] shorter[i] == record && is_selected(
                            record,
                            stamps[i],
                            tool_name,
                            since,
                        );
                    assert(entries[i] == record);
                } else {
                    assert(entries[newest] == record);
                }
            }
            if exists|i: int|
                0 <= i < entries.len() && #[trigger] entries[i] == record && is_selected(
                    record,
                    stamps[i],
                    tool_name,
                    since,
                ) {
                let i = choose|i: int|
                    0 <= i < entries.len() && #[trigger] entries[i] == record && is_selected(
                        record,
                        stamps[i],
                        tool_name,
                        since,
                    );
                if i < newest {
                    assert(shorter[i] == record);
                    assert(earlier.contains(record));
                    let k = choose|k: int| 0 <= k < earlier.len() && earlier[k] == record;
                    assert(chosen[k] == record);
                } else {
                    assert(chosen[earlier.len() as int] == record);
                }
            }
        }
    }
}

/// A negative offset picks the newest calls, whatever the limit is; a tail longer
/// than the list is the whole list.
pub proof fn law_negative_offset_reads_tail<A>(items: Seq<A>, max_results: nat, offset: int)
    requires
        offset < 0,
    ensures
        page(items, max_results, offset).is_suffix_of(items),
        page(items, max_results, offset).len() == (if -offset < items.len() {
            -offset
        } else {
            items.len() as int
        }),
        page(items, max_results, offset) == page(items, 0, offset),
{
}

/// A page from the front holds at most what was asked for, and never more than
/// [`MAX_HISTORY_ENTRIES`] calls.
pub proof fn law_page_size<A>(items: Seq<A>, max_results: nat, offset: int)
    requires
        offset >= 0,
    ensures
        page(items, max_results, offset).len() <= max_results,
        page(items, max_results, offset).len() <= MAX_HISTORY_ENTRIES,
{
}

/// Consecutive pages follow one another without gap or overlap.
pub proof fn law_pages_tile<A>(items: Seq<A>, first: nat, second: nat, offset: nat)
    requires
        first + second <= MAX_HISTORY_ENTRIES,
    ensures
        page(items, first, offset as int) + page(items, second, (offset + first) as int) == page(
            items,
            first + second,
            offset as int,
        ),
{
    assert(page(items, first, offset as int) + page(items, second, (offset + first) as int)
        == page(items, first + second, offset as int));
}

/// One full page from the front, without filters, is the whole memory.
pub proof fn law_full_page_reads_memory(state: HistoryView, max_results: nat)
    requires
        well_formed(state),
        max_results >= MAX_HISTORY_ENTRIES,
    ensures
        page(selected(state.entries, stamps_of(state.entries), None, None), max_results, 0)
            == state.entries,
{
    law_no_filter_selects_all(state.entries, stamps_of(state.entries));
    assert(page(state.entries, max_results, 0) == state.entries);
}

/// A call that was taken in is read back: whatever was in memory, it is the
/// newest call, of all calls and of the calls to its tool.
pub proof fn law_taken_in_call_is_read_back(state: HistoryView, max_results: nat)
    requires
        state.inbox.len() > 0,
    ensures
        ({
            let record = state.inbox.first();
            let entries = after_taking_in(state).entries;
            let stamps = stamps_of(entries);
            &&& page(selected(entries, stamps, None, None), max_results, -1) == seq![record]
            &&& page(selected(entries, stamps, Some(record.tool_name), None), max_results, -1)
                == seq![record]
        }),
{
    let record = state.inbox.first();
    let entries = after_taking_in(state).entries;
    let stamps = stamps_of(entries);
    assert(entries.last() == record);
    let all = selected(entries, stamps, None, None);
    let own = selected(entries, stamps, Some(record.tool_name), None);
    assert(all.last() == record);
    assert(own.last() == record);
    assert(page(all, max_results, -1) == seq![record]);
    assert(page(own, max_results, -1) == seq![record]);
}

} // verus!
