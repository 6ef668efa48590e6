use fantray::action::{Action, CommandOutcome, Diagnostic, ToggleCommand, toggle_command};
use fantray::dispatch::{Controller, LoopEvent, LoopState};
use fantray::menu::{MenuKind, MenuModel};

const LOCK: u64 = 10;
const SUSPEND: u64 = 11;
const SEP_A: u64 = 12;
const TOGGLE: u64 = 13;
const SEP_B: u64 = 14;
const QUIT: u64 = 15;

fn controller(initial_active: bool) -> Controller {
    let mut menu = MenuModel::new();
    menu.add_entry(LOCK, MenuKind::Lock, "Lock Screen".to_string());
    menu.add_entry(SUSPEND, MenuKind::Suspend, "Suspend".to_string());
    menu.add_entry(SEP_A, MenuKind::Separator, String::new());
    menu.add_entry(TOGGLE, MenuKind::ToggleService, "ToggleOff".to_string());
    menu.add_entry(SEP_B, MenuKind::Separator, String::new());
    menu.add_entry(QUIT, MenuKind::Quit, "Quit".to_string());
    Controller::new(
        menu,
        LOCK,
        SUSPEND,
        TOGGLE,
        QUIT,
        "ToggleOn".to_string(),
        "ToggleOff".to_string(),
        initial_active,
    )
}

#[test]
fn init_creates_tray_once_running() {
    let mut c = controller(false);
    assert_eq!(c.state, LoopState::Uninitialized);
    assert!(!c.tray_present);

    // Events before the lifecycle-init signal are ignored.
    let a = c.step(LoopEvent::MenuSelection(QUIT));
    assert!(a.is_empty());
    assert_eq!(c.state, LoopState::Uninitialized);

    let a = c.step(LoopEvent::LifecycleInit);
    assert_eq!(a, vec![Action::CreateTray]);
    assert_eq!(c.state, LoopState::Running);
    assert!(c.tray_present);
}

#[test]
fn seed_label_reflects_initial_probe() {
    let c = controller(true);
    assert_eq!(c.menu.label_text(TOGGLE), Some("ToggleOn".to_string()));
    let c = controller(false);
    assert_eq!(c.menu.label_text(TOGGLE), Some("ToggleOff".to_string()));
}

#[test]
fn lock_selection_tears_down_tray_then_locks() {
    let mut c = controller(false);
    c.step(LoopEvent::LifecycleInit);
    let a = c.step(LoopEvent::MenuSelection(LOCK));
    assert_eq!(a, vec![Action::DestroyTray, Action::RunLock]);
    assert!(!c.tray_present);
    assert_eq!(c.state, LoopState::Running);
}

#[test]
fn suspend_selection_dispatches_three_detached_tasks() {
    let mut c = controller(false);
    c.step(LoopEvent::LifecycleInit);
    let a = c.step(LoopEvent::MenuSelection(SUSPEND));
    assert_eq!(
        a,
        vec![
            Action::DestroyTray,
            Action::SpawnPauseMedia,
            Action::SpawnLock,
            Action::SpawnSuspend,
        ]
    );
    // No join: step has already returned, and the loop is still responsive
    // to the next event.
    assert_eq!(c.state, LoopState::Running);
    let a = c.step(LoopEvent::MenuSelection(QUIT));
    assert_eq!(a, vec![Action::DestroyTray]);
    assert_eq!(c.state, LoopState::Terminated);
}

#[test]
fn quit_takes_tray_and_terminates() {
    let mut c = controller(false);
    c.step(LoopEvent::LifecycleInit);
    assert!(c.tray_present);
    let a = c.step(LoopEvent::MenuSelection(QUIT));
    assert_eq!(a, vec![Action::DestroyTray]);
    assert!(!c.tray_present);
    assert_eq!(c.state, LoopState::Terminated);
}

#[test]
fn no_actions_after_terminated() {
    let mut c = controller(false);
    c.step(LoopEvent::LifecycleInit);
    c.step(LoopEvent::MenuSelection(QUIT));
    assert_eq!(c.state, LoopState::Terminated);
    for event in [
        LoopEvent::LifecycleInit,
        LoopEvent::TrayIcon,
        LoopEvent::MenuSelection(LOCK),
        LoopEvent::MenuSelection(SUSPEND),
        LoopEvent::MenuSelection(TOGGLE),
        LoopEvent::MenuSelection(QUIT),
        LoopEvent::Other,
    ] {
        let a = c.step(event);
        assert!(a.is_empty());
        assert_eq!(c.state, LoopState::Terminated);
    }
}

#[test]
fn terminates_only_on_quit_identity() {
    let mut c = controller(false);
    c.step(LoopEvent::LifecycleInit);
    for event in [
        LoopEvent::MenuSelection(LOCK),
        LoopEvent::MenuSelection(SUSPEND),
        LoopEvent::MenuSelection(TOGGLE),
        LoopEvent::MenuSelection(999),
        LoopEvent::TrayIcon,
        LoopEvent::Other,
        LoopEvent::LifecycleInit,
    ] {
        c.step(event);
        assert_eq!(c.state, LoopState::Running);
    }
    c.step(LoopEvent::MenuSelection(QUIT));
    assert_eq!(c.state, LoopState::Terminated);
}

#[test]
fn unknown_selection_and_tray_events_are_ignored() {
    let mut c = controller(false);
    c.step(LoopEvent::LifecycleInit);
    let a = c.step(LoopEvent::MenuSelection(999));
    assert!(a.is_empty());
    assert!(c.tray_present);
    let a = c.step(LoopEvent::TrayIcon);
    assert!(a.is_empty());
    let a = c.step(LoopEvent::Other);
    assert!(a.is_empty());
    assert_eq!(c.state, LoopState::Running);
}

#[test]
fn toggle_scenario_start_succeeds() {
    // Toggle entry shows "ToggleOff", the probe says inactive: the toggle
    // must issue "start"; on success the fresh probe says active and the
    // label becomes "ToggleOn".
    let mut c = controller(false);
    c.step(LoopEvent::LifecycleInit);
    assert_eq!(c.menu.label_text(TOGGLE), Some("ToggleOff".to_string()));

    let a = c.step(LoopEvent::MenuSelection(TOGGLE));
    assert_eq!(a, vec![Action::DestroyTray, Action::RunToggleService]);

    assert_eq!(toggle_command(false), ToggleCommand::Start);

    let ok = c.handle_toggle_outcome(
        CommandOutcome::Completed { success: true, stderr: Vec::new() },
        true,
    );
    assert!(ok);
    assert_eq!(c.menu.label_text(TOGGLE), Some("ToggleOn".to_string()));
    assert!(c.diagnostics.is_empty());
}

#[test]
fn toggle_scenario_start_fails() {
    // Same selection, but the privileged command is denied: the fresh probe
    // still says inactive, the label stays "ToggleOff", and a diagnostic is
    // recorded.
    let mut c = controller(false);
    c.step(LoopEvent::LifecycleInit);
    c.step(LoopEvent::MenuSelection(TOGGLE));

    let ok = c.handle_toggle_outcome(
        CommandOutcome::Completed { success: false, stderr: b"denied".to_vec() },
        false,
    );
    assert!(!ok);
    assert_eq!(c.menu.label_text(TOGGLE), Some("ToggleOff".to_string()));
    assert_eq!(c.diagnostics.len(), 1);
    match &c.diagnostics[0] {
        Diagnostic::ToggleCommandFailed { stderr } => assert_eq!(stderr, &b"denied".to_vec()),
        other => panic!("unexpected diagnostic: {:?}", other),
    }
}

#[test]
fn toggle_label_follows_probe_even_on_launch_failure() {
    let mut c = controller(true);
    c.step(LoopEvent::LifecycleInit);
    c.step(LoopEvent::MenuSelection(TOGGLE));

    let ok = c.handle_toggle_outcome(
        CommandOutcome::LaunchFailed { message: "no such command".to_string() },
        true,
    );
    assert!(!ok);
    // The stop request never ran; the service is still active and the label
    // says so.
    assert_eq!(c.menu.label_text(TOGGLE), Some("ToggleOn".to_string()));
    assert_eq!(c.diagnostics.len(), 1);
    match &c.diagnostics[0] {
        Diagnostic::ToggleLaunchFailed { message } => assert_eq!(message, "no such command"),
        other => panic!("unexpected diagnostic: {:?}", other),
    }
}

#[test]
fn toggle_command_choice() {
    assert_eq!(toggle_command(true), ToggleCommand::Stop);
    assert_eq!(toggle_command(false), ToggleCommand::Start);
}
