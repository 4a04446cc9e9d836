use todo_timer::{get_todo, DecodeError, Document, RawDocument, ToDo};

const SEC: u64 = 1_000_000_000;
const SEC_SPAN: u128 = 1_000_000_000;
const MILLI: u128 = 1_000_000;

fn raw(cur: Vec<Option<u64>>, prev: Vec<Option<u64>>, pause: Vec<Option<u64>>) -> RawDocument {
    RawDocument {
        completed: Some(3),
        removed: Some(1),
        tasks: vec![Some("a".to_string()), None, Some("b".to_string())],
        break_time: pause,
        cur_task: cur,
        prev_task: prev,
    }
}

#[test]
fn persistence_format() {
    let span = 3661 * SEC_SPAN + 250 * MILLI;
    let s = ToDo::from(vec![], 0, 0, span, 0, 0, 0);
    let doc = s.to_document(0);
    assert_eq!(doc.cur_task, (3661, 250));
    let stored = Document {
        completed: 0,
        removed: 0,
        tasks: vec![],
        break_time: (0, 0),
        cur_task: (3661, 250),
        prev_task: (0, 0),
    };
    let back = stored.decode(40 * SEC).unwrap();
    assert_eq!(back.current_task.export_time(), span);
}

#[test]
fn encode_drops_sub_millisecond_part() {
    let s = ToDo::from(vec![], 0, 0, 2 * SEC_SPAN + 999_999_999, 1_234_567, 0, 0);
    let doc = s.to_document(0);
    assert_eq!(doc.cur_task, (2, 999));
    assert_eq!(doc.prev_task, (0, 1));
}

#[test]
fn encode_refreshes_running_timer_only() {
    let mut s = ToDo::new(0);
    s.toggle_break(4 * SEC);
    let doc = s.to_document(10 * SEC);
    assert_eq!(doc.cur_task, (4, 0));
    assert_eq!(doc.break_time, (6, 0));
    s.toggle_sleep(10 * SEC);
    let doc = s.to_document(30 * SEC);
    assert_eq!(doc.break_time, (6, 0));
}

#[test]
fn encode_hides_draft_task() {
    let mut s = ToDo::from(vec!["a".to_string()], 2, 5, 0, 0, 0, 0);
    s.new_task();
    s.add_task("draft".to_string(), 1);
    let doc = s.to_document(0);
    assert_eq!(doc.tasks, vec!["a".to_string()]);
    assert_eq!(doc.completed, 2);
    assert_eq!(doc.removed, 5);
}

#[test]
fn round_trip_keeps_tasks_counters_and_totals() {
    let mut s = ToDo::from(vec!["x".to_string(), "y".to_string()], 7, 8, 0, 12 * SEC_SPAN + 345_678_901, 0, 1_000);
    s.tick(1_000 + 5 * SEC + 123_456_789, 1, "c".to_string());
    s.toggle_break(1_000 + 6 * SEC);
    let t0 = 1_000 + 9 * SEC + 4_000_000;
    let doc = s.to_document(t0);
    let back = doc.decode(77).unwrap();
    assert_eq!(back.tasks, s.tasks);
    assert_eq!(back.complete, 7);
    assert_eq!(back.removed, 8);
    assert_eq!(back.current_task.export_time(), 6 * SEC_SPAN);
    assert_eq!(back.last_task.export_time(), 12 * SEC_SPAN + 345 * MILLI);
    assert_eq!(back.break_time.export_time(), 3 * SEC_SPAN + 4 * MILLI);
    assert!(!back.rest);
    assert_eq!(back.current_task.start, 77);
}

#[test]
fn decode_rejects_millis_out_of_range() {
    let stored = Document {
        completed: 0,
        removed: 0,
        tasks: vec![],
        break_time: (0, 1000),
        cur_task: (1, 0),
        prev_task: (0, 0),
    };
    assert_eq!(stored.decode(0).unwrap_err(), DecodeError::MillisOutOfRange);
}

#[test]
fn get_todo_reads_loose_document() {
    let r = raw(
        vec![Some(5), Some(20)],
        vec![None, Some(1), Some(2), Some(3)],
        vec![Some(0), Some(999)],
    );
    let s = get_todo(&r, 50).unwrap();
    assert_eq!(s.tasks, vec!["a".to_string(), "b".to_string()]);
    assert_eq!(s.complete, 3);
    assert_eq!(s.removed, 1);
    assert_eq!(s.current_task.export_time(), 5 * SEC_SPAN + 20 * MILLI);
    assert_eq!(s.last_task.export_time(), 1 * SEC_SPAN + 2 * MILLI);
    assert_eq!(s.break_time.export_time(), 999 * MILLI);
    assert_eq!(s.current_task.start, 50);
}

#[test]
fn get_todo_defaults_missing_counters() {
    let mut r = raw(vec![Some(0), Some(0)], vec![Some(0), Some(0)], vec![Some(0), Some(0)]);
    r.completed = None;
    r.removed = None;
    let s = get_todo(&r, 0).unwrap();
    assert_eq!(s.complete, 0);
    assert_eq!(s.removed, 0);
}

#[test]
fn get_todo_missing_span() {
    let r = raw(vec![Some(0), Some(0)], vec![Some(4), None], vec![Some(0), Some(0)]);
    assert_eq!(get_todo(&r, 0).unwrap_err(), DecodeError::MissingSpan);
    let r = raw(vec![Some(0), Some(0)], vec![Some(0), Some(0)], vec![]);
    assert_eq!(get_todo(&r, 0).unwrap_err(), DecodeError::MissingSpan);
}

#[test]
fn get_todo_first_bad_span_decides() {
    let r = raw(vec![Some(0), Some(1000)], vec![Some(4)], vec![Some(0), Some(0)]);
    assert_eq!(get_todo(&r, 0).unwrap_err(), DecodeError::MillisOutOfRange);
    let r = raw(vec![Some(0)], vec![Some(0), Some(5000)], vec![Some(0), Some(0)]);
    assert_eq!(get_todo(&r, 0).unwrap_err(), DecodeError::MissingSpan);
}

#[test]
fn check_gives_document() {
    let r = raw(vec![Some(9), Some(8)], vec![Some(7), Some(6)], vec![Some(5), Some(4)]);
    let d = r.check().unwrap();
    assert_eq!(d.cur_task, (9, 8));
    assert_eq!(d.prev_task, (7, 6));
    assert_eq!(d.break_time, (5, 4));
    assert_eq!(d.tasks, vec!["a".to_string(), "b".to_string()]);
}
