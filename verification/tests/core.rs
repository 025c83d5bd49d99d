use xwinctl::greet;
use xwinctl::monitor::begin_stop;
use xwinctl::monitor::monitor_tick;
use xwinctl::monitor::CancelFlag;
use xwinctl::monitor::MonitorSlot;
use xwinctl::monitor::RunningMonitor;
use xwinctl::monitor::StopAction;
use xwinctl::title::choose_title;
use xwinctl::title::property_title;

#[test]
fn greet_formats_the_name() {
    assert_eq!(greet("Ferris"), "Hello, Ferris! You've been greeted from Rust!");
}

#[test]
fn modern_name_wins_when_both_set() {
    let r = choose_title(Some("modern".to_string()), Some("legacy".to_string()));
    assert_eq!(r, "modern");
}

#[test]
fn empty_modern_falls_back_to_legacy() {
    let r = choose_title(Some(String::new()), Some("legacy".to_string()));
    assert_eq!(r, "legacy");
}

#[test]
fn absent_modern_falls_back_to_legacy() {
    let r = choose_title(None, Some("legacy".to_string()));
    assert_eq!(r, "legacy");
}

#[test]
fn sentinel_when_both_absent() {
    assert_eq!(choose_title(None, None), "<No Name>");
}

#[test]
fn sentinel_when_both_empty() {
    assert_eq!(choose_title(Some(String::new()), Some(String::new())), "<No Name>");
}

#[test]
fn property_title_decodes_utf8() {
    let raw = Some("Known Title".as_bytes().to_vec());
    assert_eq!(property_title(raw), Some("Known Title".to_string()));
}

#[test]
fn property_title_rejects_invalid_utf8() {
    let raw = Some(vec![0xffu8, 0xfe, 0xfd]);
    assert_eq!(property_title(raw), None);
}

#[test]
fn property_title_treats_empty_and_absent_alike() {
    assert_eq!(property_title(Some(Vec::new())), None);
    assert_eq!(property_title(None), None);
}

#[test]
fn registered_title_round_trips_through_resolution() {
    let modern = property_title(Some("Synthetic Window".as_bytes().to_vec()));
    assert_eq!(choose_title(modern, None), "Synthetic Window");
}

#[test]
fn monitor_collapses_adjacent_duplicates() {
    let inputs = ["A", "A", "B", "B", "B", "C"];
    let mut last: Option<String> = None;
    let mut emitted: Vec<String> = Vec::new();
    for t in inputs {
        let (emit, new_last) = monitor_tick(last, Some(t.to_string()));
        if let Some(e) = emit {
            emitted.push(e);
        }
        last = new_last;
    }
    assert_eq!(emitted, vec!["A".to_string(), "B".to_string(), "C".to_string()]);
}

#[test]
fn monitor_reemits_after_intervening_title() {
    let inputs = ["A", "B", "A"];
    let mut last: Option<String> = None;
    let mut emitted: Vec<String> = Vec::new();
    for t in inputs {
        let (emit, new_last) = monitor_tick(last, Some(t.to_string()));
        if let Some(e) = emit {
            emitted.push(e);
        }
        last = new_last;
    }
    assert_eq!(emitted, vec!["A".to_string(), "B".to_string(), "A".to_string()]);
}

#[test]
fn monitor_tick_without_observation_keeps_state() {
    let (emit, last) = monitor_tick(Some("A".to_string()), None);
    assert_eq!(emit, None);
    assert_eq!(last, Some("A".to_string()));
}

#[test]
fn stop_on_stopped_monitor_is_noop_success() {
    let mut slot: MonitorSlot<u32> = MonitorSlot::new();
    assert!(matches!(begin_stop(&mut slot), StopAction::AlreadyStopped));
}

#[test]
fn restart_replaces_single_monitor() {
    let mut slot: MonitorSlot<u32> = MonitorSlot::new();
    let prev = slot.install(RunningMonitor { task: 1, cancel: CancelFlag::new() });
    assert!(prev.is_none());
    match begin_stop(&mut slot) {
        StopAction::Join(h) => assert_eq!(h, 1),
        StopAction::AlreadyStopped => panic!("a monitor was running"),
    }
    let prev = slot.install(RunningMonitor { task: 2, cancel: CancelFlag::new() });
    assert!(prev.is_none());
    match begin_stop(&mut slot) {
        StopAction::Join(h) => assert_eq!(h, 2),
        StopAction::AlreadyStopped => panic!("the replacement was running"),
    }
}

#[test]
fn install_hands_back_previous_monitor() {
    let mut slot: MonitorSlot<u32> = MonitorSlot::new();
    slot.install(RunningMonitor { task: 7, cancel: CancelFlag::new() });
    let prev = slot.install(RunningMonitor { task: 8, cancel: CancelFlag::new() });
    assert_eq!(prev.map(|m| m.task), Some(7));
}

#[test]
fn cancel_flag_signals_every_mirror() {
    let flag = CancelFlag::new();
    let worker = flag.mirror();
    assert!(worker.should_continue());
    flag.request_stop();
    assert!(!worker.should_continue());
}
