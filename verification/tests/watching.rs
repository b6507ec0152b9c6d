use commonos_files::watcher::{
    select_files, triggers_sync, watch_step, FsCreateKind, FsEvent, FsEventKind, PathEntry,
    WatchAction, WatcherSlot,
};

fn entry(path: &str, is_file: bool) -> PathEntry {
    PathEntry { path: path.to_string(), is_file }
}

#[test]
fn only_plain_creation_triggers_sync() {
    assert!(triggers_sync(&FsEventKind::Create(FsCreateKind::Any)));
    assert!(!triggers_sync(&FsEventKind::Create(FsCreateKind::File)));
    assert!(!triggers_sync(&FsEventKind::Modify));
    assert!(!triggers_sync(&FsEventKind::Any));
}

#[test]
fn select_files_keeps_files_in_order() {
    let entries = vec![entry("/d/a", true), entry("/d/sub", false), entry("/d/b", true)];
    assert_eq!(select_files(&entries), vec!["/d/a".to_string(), "/d/b".to_string()]);
}

#[test]
fn creation_of_files_is_synced() {
    let event = FsEvent {
        kind: FsEventKind::Create(FsCreateKind::Any),
        entries: vec![entry("/d/x.txt", true), entry("/d/folder", false)],
    };
    match watch_step(Ok(event)) {
        WatchAction::Sync(paths) => assert_eq!(paths, vec!["/d/x.txt".to_string()]),
        _ => panic!("expected a sync"),
    }
}

#[test]
fn creation_of_folders_only_is_ignored() {
    let event = FsEvent {
        kind: FsEventKind::Create(FsCreateKind::Any),
        entries: vec![entry("/d/folder", false)],
    };
    assert!(matches!(watch_step(Ok(event)), WatchAction::Ignore));
}

#[test]
fn other_events_are_ignored() {
    let event = FsEvent { kind: FsEventKind::Modify, entries: vec![entry("/d/x.txt", true)] };
    assert!(matches!(watch_step(Ok(event)), WatchAction::Ignore));
}

#[test]
fn watcher_errors_are_reported() {
    match watch_step(Err("boom".to_string())) {
        WatchAction::ReportError(e) => assert_eq!(e, "boom"),
        _ => panic!("expected an error report"),
    }
}

#[test]
fn installing_a_watcher_returns_the_previous_one() {
    let mut slot: WatcherSlot<u32> = WatcherSlot::new();
    assert_eq!(slot.install(1), None);
    assert_eq!(slot.install(2), Some(1));
    assert_eq!(slot.install(3), Some(2));
    assert_eq!(slot.stop_current(), Some(3));
    assert_eq!(slot.stop_current(), None);
    assert_eq!(slot.install(4), None);
}

#[test]
fn repeated_spawns_leave_only_the_last_watcher() {
    let mut slot: WatcherSlot<u32> = WatcherSlot::new();
    let mut stopped: Vec<u32> = Vec::new();
    for handle in [10, 20, 30, 40] {
        if let Some(previous) = slot.stop_current() {
            stopped.push(previous);
        }
        assert_eq!(slot.install(handle), None);
    }
    assert_eq!(stopped, vec![10, 20, 30]);
    assert_eq!(slot.stop_current(), Some(40));
}
