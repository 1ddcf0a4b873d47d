use altpay::sync::{needs_sync, sync_graph, SyncAction, SyncEvent, SyncStage};

fn step(stage: SyncStage, event: SyncEvent) -> (SyncStage, SyncAction) {
    sync_graph(stage, event, "https://rgs/", "/data")
}

fn wanted(now_secs: u64, last_secs: Option<u32>) -> SyncEvent {
    SyncEvent::Wanted { now_secs, last_secs }
}

fn fetch(action: SyncAction) -> (String, String, bool) {
    match action {
        SyncAction::Fetch { url, file, remove_first } => (url, file, remove_first),
        other => panic!("{:?}", other),
    }
}

#[test]
fn a_graph_is_fresh_for_five_minutes() {
    assert!(!needs_sync(1000, Some(1000)));
    assert!(!needs_sync(1299, Some(1000)));
    assert!(needs_sync(1300, Some(1000)));
    assert!(!needs_sync(500, Some(1000)));
    assert!(needs_sync(0, None));
    assert!(needs_sync(100, None));
    assert!(needs_sync(100, Some(0)));
}

#[test]
fn a_fresh_graph_is_left_alone() {
    let (stage, action) = step(SyncStage::Start, wanted(1100, Some(1000)));
    assert_eq!(stage, SyncStage::Done);
    assert!(matches!(action, SyncAction::UpToDate));
}

#[test]
fn changes_are_fetched_since_the_last_time() {
    let (stage, action) = step(SyncStage::Start, wanted(9000, Some(1000)));
    assert_eq!(stage, SyncStage::Changes);
    assert_eq!(
        fetch(action),
        (String::from("https://rgs/1000"), String::from("/data/rapid_sync.lngossip"), false)
    );
    let (stage, action) = step(stage, SyncEvent::Applied);
    assert_eq!(stage, SyncStage::Done);
    assert!(matches!(action, SyncAction::UpToDate));
}

#[test]
fn the_whole_graph_is_fetched_where_changes_do_not_fit() {
    let (stage, action) = step(SyncStage::Changes, SyncEvent::Rejected);
    assert_eq!(stage, SyncStage::Whole);
    assert_eq!(
        fetch(action),
        (String::from("https://rgs/0"), String::from("/data/rapid_sync.lngossip"), true)
    );
    assert!(matches!(step(stage, SyncEvent::Applied).1, SyncAction::UpToDate));
    let (stage, action) = step(stage, SyncEvent::Rejected);
    assert_eq!(stage, SyncStage::Done);
    assert!(matches!(action, SyncAction::GiveUp));
}

#[test]
fn a_first_graph_is_a_whole_graph() {
    let first = fetch(step(SyncStage::Start, wanted(9000, None)).1).0;
    let whole = fetch(step(SyncStage::Changes, SyncEvent::Rejected).1).0;
    assert_eq!(first, whole);
}

#[test]
fn nothing_is_fetched_more_than_twice() {
    let events = [
        wanted(9000, Some(1)),
        SyncEvent::Rejected,
        SyncEvent::Rejected,
        SyncEvent::Rejected,
        wanted(9000, Some(1)),
        SyncEvent::Applied,
    ];
    let mut stage = SyncStage::Start;
    let mut fetched = 0;
    for event in events {
        let (next, action) = step(stage, event);
        stage = next;
        if matches!(action, SyncAction::Fetch { .. }) {
            fetched += 1;
        }
    }
    assert_eq!(fetched, 2);
    assert_eq!(stage, SyncStage::Done);
}

#[test]
fn unexpected_events_change_nothing() {
    assert!(matches!(step(SyncStage::Start, SyncEvent::Applied), (SyncStage::Start, SyncAction::Wait)));
    assert!(matches!(step(SyncStage::Done, SyncEvent::Rejected), (SyncStage::Done, SyncAction::Wait)));
    assert!(matches!(step(SyncStage::Whole, wanted(1, None)), (SyncStage::Whole, SyncAction::Wait)));
}
