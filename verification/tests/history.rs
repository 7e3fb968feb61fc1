use kalk::history::{History, MAX_HISTORY};

#[test]
fn undo_restores_the_recorded_state_and_redo_brings_it_back() {
    let mut h: History<u32> = History::new();
    assert!(!h.can_undo());
    h.record(1);
    h.record(2);
    assert_eq!(h.undo(3), Some(2));
    assert!(h.can_redo());
    assert_eq!(h.redo(2), Some(3));
    assert_eq!(h.undo(3), Some(2));
    assert_eq!(h.undo(2), Some(1));
    assert_eq!(h.undo(1), None);
    assert_eq!(h.redo(1), Some(2));
    assert_eq!(h.redo(2), Some(3));
    assert_eq!(h.redo(3), None);
}

#[test]
fn recording_clears_redo() {
    let mut h: History<&str> = History::new();
    h.record("a");
    assert_eq!(h.undo("b"), Some("a"));
    assert_eq!(h.redo_len(), 1);
    h.record("c");
    assert_eq!(h.redo_len(), 0);
    assert!(!h.can_redo());
    assert_eq!(h.redo("x"), None);
}

#[test]
fn history_keeps_only_the_most_recent_snapshots() {
    let mut h: History<usize> = History::new();
    for i in 0..(MAX_HISTORY + 10) {
        h.record(i);
    }
    assert_eq!(h.undo_len(), MAX_HISTORY);
    let mut restored = Vec::new();
    while let Some(s) = h.undo(0) {
        restored.push(s);
    }
    assert_eq!(restored.len(), MAX_HISTORY);
    assert_eq!(restored[0], MAX_HISTORY + 9);
    assert_eq!(*restored.last().unwrap(), 10);
}

#[test]
fn discarding_an_empty_recording() {
    let mut h: History<u8> = History::new();
    h.record(1);
    h.record(2);
    h.discard_last();
    assert_eq!(h.undo_len(), 1);
    assert_eq!(h.undo(9), Some(1));
    h.discard_last();
    h.discard_last();
    assert_eq!(h.undo_len(), 0);
    assert_eq!(h.redo_len(), 1);
}
