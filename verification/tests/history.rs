use kodegen_mcp_tool::clock::now_rfc3339;
use kodegen_mcp_tool::lines::{framed_line, rotate_if_needed, split_lines};
use kodegen_mcp_tool::tool_history::{
    fault_notice, page_bounds, passes_filters, HistoryFault, ProcessorAction, ProcessorEvent,
    ToolCallRecord, ToolHistory, FLUSH_INTERVAL_SECS, HISTORY_DIR, MAX_HISTORY_ENTRIES,
    ROTATION_CHECK_INTERVAL,
};
use serde_json::Value;

fn record(timestamp: &str, tool: &str, number: u64) -> ToolCallRecord {
    ToolCallRecord {
        timestamp: timestamp.to_string(),
        tool_name: tool.to_string(),
        arguments: Value::from(number),
        output: Value::String(format!("out {number}")),
        duration_ms: Some(number),
    }
}

fn history_of(records: Vec<ToolCallRecord>) -> ToolHistory {
    let mut history = ToolHistory::new("test".to_string());
    for item in records {
        take_in(&mut history, item);
    }
    history
}

fn take_in(history: &mut ToolHistory, item: ToolCallRecord) {
    history.enqueue(item);
    assert!(matches!(history.step(ProcessorEvent::Received), ProcessorAction::Wait));
}

fn numbers(records: &[ToolCallRecord]) -> Vec<u64> {
    records.iter().map(|item| item.duration_ms.unwrap()).collect()
}

fn batch_of(action: ProcessorAction) -> Vec<u64> {
    match action {
        ProcessorAction::Append(batch) => numbers(&batch),
        ProcessorAction::FlushAndStop(batch) => numbers(&batch),
        _ => panic!("no batch"),
    }
}

const T1: &str = "2024-01-01T00:00:00+00:00";
const T2: &str = "2024-01-02T00:00:00+00:00";
const T3: &str = "2024-01-03T00:00:00.000000001+00:00";

#[test]
fn new_history_is_empty() {
    let history = ToolHistory::new("server-7".to_string());
    assert_eq!(history.history_file(), "tool-history_server-7.jsonl");
    assert_eq!(HISTORY_DIR, "kodegen-mcp");
    let stats = history.get_stats();
    assert_eq!(stats.total_entries, 0);
    assert_eq!(stats.oldest_entry, None);
    assert_eq!(stats.newest_entry, None);
    assert!(history.get_recent_calls(10, 0, None, None).is_empty());
    assert!(history.get_recent_calls(10, -5, None, None).is_empty());
}

#[test]
fn record_keeps_its_parts_when_cloned() {
    let item = record(T1, "echo", 4);
    let copy = item.clone();
    assert_eq!(copy.timestamp, T1);
    assert_eq!(copy.tool_name, "echo");
    assert_eq!(copy.arguments, Value::from(4));
    assert_eq!(copy.output, Value::String("out 4".to_string()));
    assert_eq!(copy.duration_ms, Some(4));
}

#[test]
fn stamped_record_has_the_current_time() {
    let before = chrono::Utc::now();
    let stamped = ToolCallRecord::now("echo".to_string(), Value::Null, Value::Bool(true), None);
    let after = chrono::Utc::now();
    let stamp = chrono::DateTime::parse_from_rfc3339(&stamped.timestamp).unwrap();
    assert!(before <= stamp && stamp <= after);
    assert_eq!(stamped.tool_name, "echo");
    assert_eq!(stamped.output, Value::Bool(true));
    assert_eq!(stamped.duration_ms, None);
}

#[test]
fn the_clock_writes_the_offset_of_utc() {
    let stamp = now_rfc3339();
    assert!(stamp.ends_with("+00:00"));
    assert!(chrono::DateTime::parse_from_rfc3339(&stamp).is_ok());
}

#[test]
fn added_call_waits_until_it_is_taken_in() {
    let mut history = ToolHistory::new("test".to_string());
    history.add_call("echo".to_string(), Value::from(1), Value::from(2), Some(3));
    // Neither in memory nor in the write queue yet.
    assert!(history.get_recent_calls(10, 0, None, None).is_empty());
    assert_eq!(history.get_stats().total_entries, 0);
    assert!(matches!(history.step(ProcessorEvent::Tick), ProcessorAction::Wait));

    assert!(matches!(history.step(ProcessorEvent::Received), ProcessorAction::Wait));
    let calls = history.get_recent_calls(10, 0, None, None);
    assert_eq!(calls.len(), 1);
    assert_eq!(calls[0].tool_name, "echo");
    assert_eq!(calls[0].arguments, Value::from(1));
    assert_eq!(calls[0].output, Value::from(2));
    assert!(calls[0].timestamp.ends_with("+00:00"));
    assert_eq!(batch_of(history.step(ProcessorEvent::Tick)), vec![3]);
}

#[test]
fn calls_are_taken_in_one_at_a_time_and_in_order() {
    let mut history = ToolHistory::new("test".to_string());
    for n in 1..=3 {
        history.enqueue(record(T1, "a", n));
    }
    history.step(ProcessorEvent::Received);
    history.step(ProcessorEvent::Received);
    assert_eq!(numbers(&history.get_recent_calls(10, 0, None, None)), vec![1, 2]);
    history.step(ProcessorEvent::Received);
    // Nothing is left to take in.
    history.step(ProcessorEvent::Received);
    assert_eq!(numbers(&history.get_recent_calls(10, 0, None, None)), vec![1, 2, 3]);
}

#[test]
fn name_filter_selects_only_that_tool() {
    let history = history_of(vec![
        record(T1, "a", 1),
        record(T2, "b", 2),
        record(T3, "a", 3),
    ]);
    assert_eq!(numbers(&history.get_recent_calls(10, 0, Some("a"), None)), vec![1, 3]);
    assert_eq!(numbers(&history.get_recent_calls(10, 0, Some("b"), None)), vec![2]);
    assert!(history.get_recent_calls(10, 0, Some("A"), None).is_empty());
    assert_eq!(numbers(&history.get_recent_calls(10, 0, None, None)), vec![1, 2, 3]);
}

#[test]
fn since_filter_compares_instants() {
    let history = history_of(vec![
        record(T1, "a", 1),
        record(T2, "b", 2),
        record(T3, "a", 3),
        record("not a time", "c", 4),
    ]);
    // The limit itself is included; a record without an instant always passes.
    assert_eq!(numbers(&history.get_recent_calls(10, 0, None, Some(T2))), vec![2, 3, 4]);
    // The same instant in another time zone.
    let shifted = "2024-01-02T02:00:00+02:00";
    assert_eq!(numbers(&history.get_recent_calls(10, 0, None, Some(shifted))), vec![2, 3, 4]);
    // Nanoseconds count.
    let exact = "2024-01-03T00:00:00.000000001Z";
    let later = "2024-01-03T00:00:00.000000002Z";
    assert_eq!(numbers(&history.get_recent_calls(10, 0, None, Some(exact))), vec![3, 4]);
    assert_eq!(numbers(&history.get_recent_calls(10, 0, None, Some(later))), vec![4]);
    // A limit that is no date and time is no limit.
    assert_eq!(numbers(&history.get_recent_calls(10, 0, None, Some("soon"))), vec![1, 2, 3, 4]);
    // Both filters together.
    assert_eq!(numbers(&history.get_recent_calls(10, 0, Some("a"), Some(T2))), vec![3]);
}

#[test]
fn given_stamps_decide() {
    let history = history_of(vec![record("x", "a", 1), record("y", "a", 2), record("z", "a", 3)]);
    let stamps = vec![Some((5, 0)), None, Some((6, 1))];
    let since = |limit| numbers(&history.get_calls_with_stamps(10, 0, None, limit, &stamps));
    assert_eq!(since(None), vec![1, 2, 3]);
    assert_eq!(since(Some((5, 0))), vec![1, 2, 3]);
    assert_eq!(since(Some((5, 1))), vec![2, 3]);
    assert_eq!(since(Some((6, 1))), vec![2, 3]);
    assert_eq!(since(Some((6, 2))), vec![2]);
}

#[test]
fn filters_on_one_record() {
    let item = record(T1, "a", 1);
    let name = |text: &str| Some(text.to_string());
    assert!(passes_filters(&item, None, &None, None));
    assert!(passes_filters(&item, None, &name("a"), Some((1, 0))));
    assert!(!passes_filters(&item, None, &name("b"), None));
    assert!(!passes_filters(&item, Some((0, 999)), &name("a"), Some((1, 0))));
    assert!(passes_filters(&item, Some((1, 0)), &name("a"), Some((1, 0))));
}

#[test]
fn page_bounds_follow_offset_and_limit() {
    assert_eq!(page_bounds(10, 3, 0), (0, 3));
    assert_eq!(page_bounds(10, 3, 8), (8, 10));
    assert_eq!(page_bounds(10, 3, 10), (10, 10));
    assert_eq!(page_bounds(10, 3, 99), (10, 10));
    assert_eq!(page_bounds(10, 0, 2), (2, 2));
    assert_eq!(page_bounds(10, 3, -4), (6, 10));
    assert_eq!(page_bounds(10, 3, -10), (0, 10));
    assert_eq!(page_bounds(10, 3, -11), (0, 10));
    assert_eq!(page_bounds(5000, usize::MAX, 0), (0, 1000));
    assert_eq!(page_bounds(5000, usize::MAX, 4500), (4500, 5000));
    assert_eq!(page_bounds(0, 3, -1), (0, 0));
    assert_eq!(page_bounds(10, 3, i64::MIN + 1), (0, 10));
    assert_eq!(page_bounds(10, 3, i64::MIN), (0, 10));
    assert_eq!(page_bounds(10, 3, i64::MAX), (10, 10));
    assert_eq!(page_bounds(usize::MAX, 3, i64::MAX), (i64::MAX as usize, i64::MAX as usize + 3));
}

#[test]
fn negative_offset_ignores_the_limit() {
    let history = history_of((1..=6).map(|n| record(T1, "a", n)).collect());
    assert_eq!(numbers(&history.get_recent_calls(1, -3, None, None)), vec![4, 5, 6]);
    assert_eq!(numbers(&history.get_recent_calls(0, -99, None, None)), vec![1, 2, 3, 4, 5, 6]);
    assert_eq!(numbers(&history.get_recent_calls(0, i64::MIN, None, None)), vec![1, 2, 3, 4, 5, 6]);
}

#[test]
fn the_newest_call_is_read_back() {
    let history = history_of((0..1001).map(|n| record(T1, if n % 2 == 0 { "even" } else { "odd" }, n)).collect());
    assert_eq!(numbers(&history.get_recent_calls(0, -1, None, None)), vec![1000]);
    assert_eq!(numbers(&history.get_recent_calls(0, -1, Some("even"), None)), vec![1000]);
    assert_eq!(numbers(&history.get_recent_calls(0, -1, Some("odd"), None)), vec![999]);
}

#[test]
fn consecutive_pages_tile() {
    let history = history_of((1..=7).map(|n| record(T1, "a", n)).collect());
    let mut joined = numbers(&history.get_recent_calls(3, 0, None, None));
    joined.extend(numbers(&history.get_recent_calls(2, 3, None, None)));
    assert_eq!(joined, numbers(&history.get_recent_calls(5, 0, None, None)));
    assert_eq!(joined, vec![1, 2, 3, 4, 5]);
}

#[test]
fn memory_is_bounded_and_keeps_the_newest() {
    let history = history_of((0..1003).map(|n| record(&format!("t{n}"), "a", n)).collect());
    assert_eq!(MAX_HISTORY_ENTRIES, 1000);
    let all = numbers(&history.get_recent_calls(5000, 0, None, None));
    assert_eq!(all, (3..1003).collect::<Vec<u64>>());
    let stats = history.get_stats();
    assert_eq!(stats.total_entries, 1000);
    assert_eq!(stats.oldest_entry.as_deref(), Some("t3"));
    assert_eq!(stats.newest_entry.as_deref(), Some("t1002"));
    let copy = stats.clone();
    assert_eq!(copy.newest_entry, stats.newest_entry);
}

#[test]
fn loading_passes_over_bad_lines_and_keeps_the_newest() {
    let mut history = ToolHistory::new("test".to_string());
    let parsed: Vec<Option<ToolCallRecord>> = (0..1500)
        .map(|n| if n % 3 == 0 { None } else { Some(record(T1, "a", n)) })
        .collect();
    history.load_from_disk(parsed);
    let all = numbers(&history.get_recent_calls(1000, 0, None, None));
    assert_eq!(all.len(), 1000);
    assert_eq!(all[0], 1);
    assert_eq!(all[999], 1499);

    let parsed: Vec<Option<ToolCallRecord>> = (0..1001).map(|n| Some(record(T1, "a", n))).collect();
    history.load_from_disk(parsed);
    let all = numbers(&history.get_recent_calls(1000, 0, None, None));
    assert_eq!(all, (1..1001).collect::<Vec<u64>>());
    // Loading queues nothing for writing.
    assert!(matches!(history.step(ProcessorEvent::Tick), ProcessorAction::Wait));
}

#[test]
fn tick_hands_the_queue_over_once() {
    let mut history = history_of(vec![record(T1, "a", 1), record(T1, "a", 2)]);
    assert_eq!(batch_of(history.step(ProcessorEvent::Tick)), vec![1, 2]);
    assert!(matches!(history.step(ProcessorEvent::Tick), ProcessorAction::Wait));
    take_in(&mut history, record(T1, "a", 3));
    assert_eq!(batch_of(history.step(ProcessorEvent::Tick)), vec![3]);
    assert_eq!(numbers(&history.get_recent_calls(10, 0, None, None)), vec![1, 2, 3]);
}

#[test]
fn failed_append_drops_the_batch() {
    let mut history = history_of(vec![record(T1, "a", 1)]);
    assert_eq!(batch_of(history.step(ProcessorEvent::Tick)), vec![1]);
    assert!(matches!(history.step(ProcessorEvent::AppendFailed), ProcessorAction::Wait));
    assert!(matches!(history.step(ProcessorEvent::Tick), ProcessorAction::Wait));
}

#[test]
fn rotation_is_due_after_enough_writes() {
    assert_eq!(ROTATION_CHECK_INTERVAL, 100);
    assert_eq!(FLUSH_INTERVAL_SECS, 1);
    let mut history = ToolHistory::new("test".to_string());
    assert!(matches!(history.step(ProcessorEvent::Appended(99)), ProcessorAction::Wait));
    assert!(matches!(history.step(ProcessorEvent::Appended(1)), ProcessorAction::Rotate));
    assert!(matches!(history.step(ProcessorEvent::Appended(99)), ProcessorAction::Wait));
    assert!(matches!(history.step(ProcessorEvent::Appended(0)), ProcessorAction::Wait));
    assert!(matches!(history.step(ProcessorEvent::Appended(usize::MAX)), ProcessorAction::Rotate));
}

#[test]
fn closing_flushes_what_waits() {
    let mut history = history_of(vec![record(T1, "a", 1)]);
    history.step(ProcessorEvent::Tick);
    take_in(&mut history, record(T1, "a", 2));
    take_in(&mut history, record(T1, "a", 3));
    let action = history.step(ProcessorEvent::Closed);
    assert!(matches!(action, ProcessorAction::FlushAndStop(_)));
    assert_eq!(batch_of(action), vec![2, 3]);
    // Nothing is handed over twice, and what comes later is dropped.
    assert!(matches!(history.step(ProcessorEvent::Tick), ProcessorAction::Wait));
    take_in(&mut history, record(T1, "a", 4));
    assert_eq!(numbers(&history.get_recent_calls(10, 0, None, None)), vec![1, 2, 3]);
    let mut quiet = ToolHistory::new("test".to_string());
    assert!(batch_of(quiet.step(ProcessorEvent::Closed)).is_empty());
}

#[test]
fn closing_takes_in_what_is_left_first() {
    let mut history = history_of(vec![record(T1, "a", 1)]);
    history.enqueue(record(T1, "a", 2));
    assert!(matches!(history.step(ProcessorEvent::Closed), ProcessorAction::Wait));
    assert_eq!(batch_of(history.step(ProcessorEvent::Closed)), vec![1, 2]);
}

/// Carries an action out on a file that is held as a text of one number per line.
fn perform(file: &mut String, action: ProcessorAction) -> Option<ProcessorEvent> {
    match action {
        ProcessorAction::Wait => None,
        ProcessorAction::Append(batch) => {
            for item in &batch {
                file.push_str(&framed_line(&item.duration_ms.unwrap().to_string()));
            }
            Some(ProcessorEvent::Appended(batch.len()))
        }
        ProcessorAction::Rotate => {
            if let Some(kept) = rotate_if_needed(file) {
                *file = kept;
            }
            None
        }
        ProcessorAction::FlushAndStop(batch) => {
            for item in &batch {
                file.push_str(&framed_line(&item.duration_ms.unwrap().to_string()));
            }
            None
        }
    }
}

#[test]
fn restart_restores_the_memory() {
    let mut file = String::new();
    let mut history = ToolHistory::new("test".to_string());
    for n in 1..=5430 {
        take_in(&mut history, record(T1, "a", n));
        if n % 60 == 0 {
            let mut action = history.step(ProcessorEvent::Tick);
            while let Some(event) = perform(&mut file, action) {
                action = history.step(event);
            }
        }
    }
    let action = history.step(ProcessorEvent::Closed);
    perform(&mut file, action);
    // The file was cut on the way, and added to after the cut.
    let lines = split_lines(&file);
    assert!(lines.len() < 5430 && lines.len() > 5000);

    let parsed = lines.iter().map(|line| line.parse().ok().map(|n| record(T1, "a", n))).collect();
    let mut restarted = ToolHistory::new("test".to_string());
    restarted.load_from_disk(parsed);
    let memory = numbers(&history.get_recent_calls(1000, 0, None, None));
    assert_eq!(memory, (4431..=5430).collect::<Vec<u64>>());
    assert_eq!(numbers(&restarted.get_recent_calls(1000, 0, None, None)), memory);
}

#[test]
fn history_file_is_read_back() {
    let mut file = String::new();
    for text in ["{\"n\":1}", "{\"s\":\"a b\"}", ""] {
        file.push_str(&framed_line(text));
    }
    assert_eq!(split_lines(&file), vec!["{\"n\":1}", "{\"s\":\"a b\"}", ""]);
}

#[test]
fn notices_name_the_fault() {
    assert_eq!(
        fault_notice(HistoryFault::CreateDirectory, "denied"),
        "Failed to create history directory: denied"
    );
    assert_eq!(fault_notice(HistoryFault::Load, "x"), "Failed to load tool history: x");
    assert_eq!(fault_notice(HistoryFault::Write, "x"), "Failed to write tool history: x");
    assert_eq!(fault_notice(HistoryFault::Rotate, "x"), "Failed to rotate tool history: x");
}
