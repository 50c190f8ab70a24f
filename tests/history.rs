use text_editor_core::history::EditHistory;

fn texts(h: &EditHistory) -> Vec<String> {
    let mut out = Vec::new();
    for i in 0..h.len() {
        out.push(h.snapshot(i).clone());
    }
    out
}

#[test]
fn new_history_holds_only_the_baseline() {
    let h = EditHistory::new("base".to_string());
    assert_eq!(h.len(), 1);
    assert_eq!(h.current_index(), 0);
    assert!(h.is_clean());
    assert_eq!(texts(&h), vec!["base".to_string()]);
}

#[test]
fn undo_at_baseline_returns_nothing() {
    let mut h = EditHistory::new("base".to_string());
    assert_eq!(h.undo(), None);
    assert_eq!(h.current_index(), 0);
    assert_eq!(h.len(), 1);
}

#[test]
fn add_edit_appends_and_moves_index() {
    let mut h = EditHistory::new("a".to_string());
    h.add_edit("ab".to_string());
    h.add_edit("abc".to_string());
    assert_eq!(h.len(), 3);
    assert_eq!(h.current_index(), 2);
    assert!(!h.is_clean());
    assert_eq!(texts(&h), vec!["a".to_string(), "ab".to_string(), "abc".to_string()]);
}

#[test]
fn record_after_undo_discards_redo_branch() {
    let mut h = EditHistory::new("A".to_string());
    h.add_edit("B".to_string());
    h.add_edit("C".to_string());
    assert_eq!(h.current_index(), 2);
    assert_eq!(h.undo(), Some("B".to_string()));
    assert_eq!(h.current_index(), 1);
    h.add_edit("D".to_string());
    assert_eq!(texts(&h), vec!["A".to_string(), "B".to_string(), "D".to_string()]);
    assert_eq!(h.current_index(), 2);
}

#[test]
fn record_after_two_undos_drops_both() {
    let mut h = EditHistory::new("A".to_string());
    h.add_edit("B".to_string());
    h.add_edit("C".to_string());
    h.undo();
    h.undo();
    h.add_edit("E".to_string());
    assert_eq!(texts(&h), vec!["A".to_string(), "E".to_string()]);
    assert_eq!(h.current_index(), 1);
}

#[test]
fn repeated_undo_walks_back_then_returns_nothing() {
    let mut h = EditHistory::new("0".to_string());
    h.add_edit("1".to_string());
    h.add_edit("2".to_string());
    h.add_edit("3".to_string());
    assert_eq!(h.undo(), Some("2".to_string()));
    assert_eq!(h.undo(), Some("1".to_string()));
    assert_eq!(h.undo(), Some("0".to_string()));
    assert!(h.is_clean());
    assert_eq!(h.undo(), None);
    assert_eq!(h.undo(), None);
    assert_eq!(h.len(), 4);
}

#[test]
fn undo_never_returns_last_recorded() {
    let mut h = EditHistory::new("x".to_string());
    h.add_edit("y".to_string());
    h.undo();
    h.add_edit("z".to_string());
    let got = h.undo();
    assert_eq!(got, Some("x".to_string()));
    assert_ne!(got, Some("z".to_string()));
}

#[test]
fn is_clean_tracks_index_zero() {
    let mut h = EditHistory::new(String::new());
    assert!(h.is_clean());
    h.add_edit("a".to_string());
    assert!(!h.is_clean());
    h.undo();
    assert!(h.is_clean());
    h.add_edit("b".to_string());
    assert_eq!(h.current_index() == 0, h.is_clean());
}
