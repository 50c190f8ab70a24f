use text_editor_core::gate::InputGate;

#[test]
fn gate_starts_open() {
    let g = InputGate::new();
    assert!(g.should_apply_edit());
    assert!(!g.suspended);
}

#[test]
fn press_suspends_and_release_reopens() {
    let mut g = InputGate::new();
    assert!(g.on_modifier_press());
    assert!(!g.should_apply_edit());
    g.on_modifier_release();
    assert!(g.should_apply_edit());
}

#[test]
fn one_release_clears_two_presses() {
    let mut g = InputGate::new();
    g.on_modifier_press();
    g.on_modifier_press();
    g.on_modifier_release();
    assert!(g.should_apply_edit());
}

#[test]
fn release_without_press_leaves_gate_open() {
    let mut g = InputGate::new();
    g.on_modifier_release();
    assert!(g.should_apply_edit());
}
