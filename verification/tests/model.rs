use fantray::menu::{MenuKind, MenuModel};
use fantray::probe::{ProbeOutcome, is_active};

fn sample_menu() -> MenuModel {
    let mut m = MenuModel::new();
    m.add_entry(1, MenuKind::Lock, "Lock Screen".to_string());
    m.add_entry(2, MenuKind::ToggleService, "ToggleOff".to_string());
    m.add_entry(3, MenuKind::Quit, "Quit".to_string());
    m
}

#[test]
fn labels_are_looked_up_by_identity() {
    let m = sample_menu();
    assert_eq!(m.entry_count(), 3);
    assert_eq!(m.label_text(1), Some("Lock Screen".to_string()));
    assert_eq!(m.label_text(2), Some("ToggleOff".to_string()));
    assert_eq!(m.label_text(3), Some("Quit".to_string()));
    assert_eq!(m.label_text(4), None);
}

#[test]
fn set_label_rewrites_only_the_addressed_entry() {
    let mut m = sample_menu();
    m.set_label(2, "ToggleOn");
    assert_eq!(m.label_text(2), Some("ToggleOn".to_string()));
    assert_eq!(m.label_text(1), Some("Lock Screen".to_string()));
    assert_eq!(m.label_text(3), Some("Quit".to_string()));
    assert_eq!(m.entry_count(), 3);
}

#[test]
fn set_label_twice_is_as_good_as_once() {
    let mut once = sample_menu();
    once.set_label(2, "ToggleOn");
    let mut twice = sample_menu();
    twice.set_label(2, "ToggleOn");
    twice.set_label(2, "ToggleOn");
    assert_eq!(once.entry_count(), twice.entry_count());
    for id in [1u64, 2, 3, 4] {
        assert_eq!(once.label_text(id), twice.label_text(id));
    }
}

#[test]
fn set_label_on_absent_identity_changes_nothing() {
    let mut m = sample_menu();
    m.set_label(9, "Phantom");
    assert_eq!(m.entry_count(), 3);
    for id in [1u64, 2, 3] {
        assert_eq!(m.label_text(id), sample_menu().label_text(id));
    }
    assert_eq!(m.label_text(9), None);
}

#[test]
fn empty_menu_has_no_labels() {
    let m = MenuModel::new();
    assert_eq!(m.entry_count(), 0);
    assert_eq!(m.label_text(0), None);
}

#[test]
fn probe_is_active_only_on_exact_sentinel() {
    assert!(is_active(&ProbeOutcome::Stdout(b"active\n".to_vec())));
    assert!(!is_active(&ProbeOutcome::Stdout(b"active".to_vec())));
    assert!(!is_active(&ProbeOutcome::Stdout(b"inactive\n".to_vec())));
    assert!(!is_active(&ProbeOutcome::Stdout(b"activee\n".to_vec())));
    assert!(!is_active(&ProbeOutcome::Stdout(Vec::new())));
}

#[test]
fn probe_failure_is_never_active() {
    // Fail-closed: a failed query resolves to inactive, it neither errors
    // nor counts as active.
    assert!(!is_active(&ProbeOutcome::QueryFailed));
}
