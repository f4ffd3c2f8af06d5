use ai_orchestrator::kernel::trail::{next_event_sequence, rebuild_slot, url_recorded, EventKey, Rebuild};

fn key(run: &str, sequence: i64, url: Option<&str>) -> EventKey {
    EventKey { run_id: run.to_string(), sequence, memory_url: url.map(|u| u.to_string()) }
}

#[test]
fn first_event_of_a_run_takes_place_one() {
    assert_eq!(next_event_sequence(&vec![], "run-1"), Some(1));
    assert_eq!(next_event_sequence(&vec![key("other", 7, None)], "run-1"), Some(1));
}

#[test]
fn next_event_goes_after_the_runs_last() {
    let keys = vec![key("run-1", 2, None), key("run-1", 1, None), key("run-2", 9, None)];
    assert_eq!(next_event_sequence(&keys, "run-1"), Some(3));
    assert_eq!(next_event_sequence(&keys, "run-2"), Some(10));
}

#[test]
fn events_are_numbered_in_order() {
    let mut keys: Vec<EventKey> = vec![];
    for expected in 1..=4 {
        let s = next_event_sequence(&keys, "run-1").unwrap();
        assert_eq!(s, expected);
        keys.push(key("run-1", s, None));
    }
}

#[test]
fn a_run_at_the_last_place_has_none_left() {
    let keys = vec![key("run-1", i64::MAX, None)];
    assert_eq!(next_event_sequence(&keys, "run-1"), None);
    assert_eq!(rebuild_slot(&keys, "run-1", "handoffs/run_run-1.md"), Rebuild::NoPlaceLeft);
}

#[test]
fn rebuilding_a_page_twice_records_it_once() {
    let mut keys = vec![key("run-1", 1, None)];
    let url = "handoffs/run_run-1.md";
    assert!(!url_recorded(&keys, url));
    let first = rebuild_slot(&keys, "run-1", url);
    assert_eq!(first, Rebuild::Append(2));
    keys.push(key("run-1", 2, Some(url)));
    assert!(url_recorded(&keys, url));
    assert_eq!(rebuild_slot(&keys, "run-1", url), Rebuild::AlreadyRecorded);
    assert_eq!(rebuild_slot(&keys, "run-9", url), Rebuild::AlreadyRecorded);
    assert_eq!(rebuild_slot(&keys, "run-1", "handoffs/other.md"), Rebuild::Append(3));
}
