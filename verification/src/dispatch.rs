//! The event-dispatch loop as a state machine.  The controller receives one
//! unified stream of events, resolves menu selections to actions by identity
//! equality alone, and keeps the toggle entry's label synchronized with the
//! observed service state.  One event is processed to completion before the
//! next is taken; the embedding program performs the emitted actions and
//! feeds the results back.

use vstd::prelude::*;

use crate::action::{
    Action, CommandOutcome, CommandOutcomeModel, Diagnostic, DiagnosticModel, diagnostic_of,
    toggle_succeeded,
};
use crate::menu::{
    EntryModel, MenuModel, has_entry, label_of, lemma_label_of_after_set,
    lemma_set_label_preserves_ids, menu_wf, set_label_spec,
};

verus! {

/// The loop's lifecycle: it starts uninitialized, runs once the first
/// lifecycle-init event arrives, and terminates only on a quit selection.
#[derive(Clone, Copy, PartialEq, Eq, Structural, Debug)]
pub enum LoopState {
    Uninitialized,
    Running,
    Terminated,
}

/// One event delivered to the loop: the lifecycle-init signal, a tray-icon
/// event (diagnostics only), a menu selection carrying the selected entry's
/// identity, or anything else, which is silently ignored.
#[derive(Clone, Copy, PartialEq, Eq, Structural, Debug)]
pub enum LoopEvent {
    LifecycleInit,
    TrayIcon,
    MenuSelection(u64),
    Other,
}

/// The controller: loop state, the tray-icon resource, the menu model, the
/// four known entry identities, the two texts the toggle label alternates
/// between, and the recorded diagnostics.
pub struct Controller {
    pub state: LoopState,
    pub tray_present: bool,
    pub menu: MenuModel,
    pub lock_id: u64,
    pub suspend_id: u64,
    pub toggle_id: u64,
    pub quit_id: u64,
    pub label_active: String,
    pub label_inactive: String,
    pub diagnostics: Vec<Diagnostic>,
}

/// Mathematical model of the controller.
pub struct ControllerModel {
    pub state: LoopState,
    pub tray_present: bool,
    pub menu: Seq<EntryModel>,
    pub lock_id: u64,
    pub suspend_id: u64,
    pub toggle_id: u64,
    pub quit_id: u64,
    pub label_active: Seq<char>,
    pub label_inactive: Seq<char>,
    pub diagnostics: Seq<DiagnosticModel>,
}

impl View for Controller {
    type V = ControllerModel;

    open spec fn view(&self) -> ControllerModel {
        ControllerModel {
            state: self.state,
            tray_present: self.tray_present,
            menu: self.menu@,
            lock_id: self.lock_id,
            suspend_id: self.suspend_id,
            toggle_id: self.toggle_id,
            quit_id: self.quit_id,
            label_active: self.label_active@,
            label_inactive: self.label_inactive@,
            diagnostics: self.diagnostics@.map(|i: int, d: Diagnostic| d@),
        }
    }
}

impl ControllerModel {
    /// The four selectable identities are pairwise distinct, menu identities
    /// are distinct, and the toggle entry is present.
    pub open spec fn wf(self) -> bool {
        &&& self.lock_id != self.suspend_id
        &&& self.lock_id != self.toggle_id
        &&& self.lock_id != self.quit_id
        &&& self.suspend_id != self.toggle_id
        &&& self.suspend_id != self.quit_id
        &&& self.toggle_id != self.quit_id
        &&& menu_wf(self.menu)
        &&& has_entry(self.menu, self.toggle_id)
    }

    /// The text the toggle label must show for an observed service state.
    pub open spec fn toggle_label(self, active: bool) -> Seq<char> {
        if active {
            self.label_active
        } else {
            self.label_inactive
        }
    }
}

/// The controller after one event.  Only a quit selection terminates the
/// loop; every selectable entry tears the tray icon down; unmatched events
/// change nothing.
pub open spec fn step_state(c: ControllerModel, event: LoopEvent) -> ControllerModel {
    match c.state {
        LoopState::Uninitialized => if event is LifecycleInit {
            ControllerModel { state: LoopState::Running, tray_present: true, ..c }
        } else {
            c
        },
        LoopState::Running => match event {
            LoopEvent::MenuSelection(id) => if id == c.quit_id {
                ControllerModel { state: LoopState::Terminated, tray_present: false, ..c }
            } else if id == c.lock_id || id == c.suspend_id || id == c.toggle_id {
                ControllerModel { tray_present: false, ..c }
            } else {
                c
            },
            _ => c,
        },
        LoopState::Terminated => c,
    }
}

/// The actions one event makes the loop emit, in order.
pub open spec fn step_actions(c: ControllerModel, event: LoopEvent) -> Seq<Action> {
    match c.state {
        LoopState::Uninitialized => if event is LifecycleInit {
            seq![Action::CreateTray]
        } else {
            Seq::empty()
        },
        LoopState::Running => match event {
            LoopEvent::MenuSelection(id) => if id == c.lock_id {
                seq![Action::DestroyTray, Action::RunLock]
            } else if id == c.suspend_id {
                seq![
                    Action::DestroyTray,
                    Action::SpawnPauseMedia,
                    Action::SpawnLock,
                    Action::SpawnSuspend,
                ]
            } else if id == c.toggle_id {
                seq![Action::DestroyTray, Action::RunToggleService]
            } else if id == c.quit_id {
                seq![Action::DestroyTray]
            } else {
                Seq::empty()
            },
            _ => Seq::empty(),
        },
        LoopState::Terminated => Seq::empty(),
    }
}

/// The controller after a toggle selection is fully handled: a failed
/// command leaves a diagnostic behind, and the toggle label is rewritten to
/// match the freshly probed state whether or not the command succeeded.
pub open spec fn toggle_handled(
    c: ControllerModel,
    outcome: CommandOutcomeModel,
    probe_active: bool,
) -> ControllerModel {
    let with_diag = if toggle_succeeded(outcome) {
        c
    } else {
        ControllerModel { diagnostics: c.diagnostics.push(diagnostic_of(outcome)), ..c }
    };
    ControllerModel {
        menu: set_label_spec(c.menu, c.toggle_id, c.toggle_label(probe_active)),
        ..with_diag
    }
}

impl Controller {
    /// The controller's invariant, over its model.
    pub open spec fn wf(&self) -> bool {
        self@.wf()
    }

    /// Builds the controller around an assembled menu.  The toggle label is
    /// seeded from one initial probe of the service, so the displayed text
    /// never starts out contradicting the observed state.
    pub fn new(
        menu: MenuModel,
        lock_id: u64,
        suspend_id: u64,
        toggle_id: u64,
        quit_id: u64,
        label_active: String,
        label_inactive: String,
        initial_active: bool,
    ) -> (c: Controller)
        requires
            menu.wf(),
            has_entry(menu@, toggle_id),
            lock_id != suspend_id,
            lock_id != toggle_id,
            lock_id != quit_id,
            suspend_id != toggle_id,
            suspend_id != quit_id,
            toggle_id != quit_id,
        ensures
            c.wf(),
            c@.state is Uninitialized,
            !c@.tray_present,
            c@.menu == set_label_spec(
                menu@,
                toggle_id,
                if initial_active { label_active@ } else { label_inactive@ },
            ),
            label_of(c@.menu, toggle_id)
                == if initial_active { label_active@ } else { label_inactive@ },
            c@.lock_id == lock_id,
            c@.suspend_id == suspend_id,
            c@.toggle_id == toggle_id,
            c@.quit_id == quit_id,
            c@.label_active == label_active@,
            c@.label_inactive == label_inactive@,
            c@.diagnostics == Seq::<DiagnosticModel>::empty(),
    {
        let mut menu = menu;
        let ghost menu_before = menu@;
        let seed = if initial_active {
            label_active.clone()
        } else {
            label_inactive.clone()
        };
        menu.set_label(toggle_id, seed.as_str());
        proof {
            lemma_set_label_preserves_ids(menu_before, toggle_id, seed@);
            lemma_label_of_after_set(menu_before, toggle_id, seed@);
        }
        let c = Controller {
            state: LoopState::Uninitialized,
            tray_present: false,
            menu,
            lock_id,
            suspend_id,
            toggle_id,
            quit_id,
            label_active,
            label_inactive,
            diagnostics: Vec::new(),
        };
        proof {
            assert(c@.diagnostics =~= Seq::<DiagnosticModel>::empty());
        }
        c
    }

    /// Processes one event: transitions the loop state and emits the actions
    /// the surroundings must perform, exactly as the step model says.  Each
    /// selection branch is guarded independently, by identity equality
    /// alone.  After termination no event changes anything and no action is
    /// ever emitted again.
    pub fn step(&mut self, event: LoopEvent) -> (actions: Vec<Action>)
        requires
            old(self).wf(),
        ensures
            final(self).wf(),
            final(self)@ == step_state(old(self)@, event),
            actions@ == step_actions(old(self)@, event),
    {
        let mut actions: Vec<Action> = Vec::new();
        match self.state {
            LoopState::Terminated => {},
            LoopState::Uninitialized => {
                if let LoopEvent::LifecycleInit = event {
                    self.state = LoopState::Running;
                    self.tray_present = true;
                    actions.push(Action::CreateTray);
                }
            },
            LoopState::Running => {
                if let LoopEvent::MenuSelection(id) = event {
                    if id == self.lock_id {
                        self.tray_present = false;
                        actions.push(Action::DestroyTray);
                        actions.push(Action::RunLock);
                    }
                    if id == self.suspend_id {
                        self.tray_present = false;
                        actions.push(Action::DestroyTray);
                        actions.push(Action::SpawnPauseMedia);
                        actions.push(Action::SpawnLock);
                        actions.push(Action::SpawnSuspend);
                    }
                    if id == self.toggle_id {
                        self.tray_present = false;
                        actions.push(Action::DestroyTray);
                        actions.push(Action::RunToggleService);
                    }
                    if id == self.quit_id {
                        self.tray_present = false;
                        self.state = LoopState::Terminated;
                        actions.push(Action::DestroyTray);
                    }
                }
            },
        }
        proof {
            assert(actions@ =~= step_actions(old(self)@, event));
            assert(self@ =~= step_state(old(self)@, event));
        }
        actions
    }

    /// Finishes a toggle selection once the privileged command's outcome and
    /// a fresh probe of the service are in hand: reports whether the command
    /// succeeded, records a diagnostic when it did not, and rewrites the
    /// toggle label to the freshly observed state — success or not, the
    /// label always reflects observed reality.
    pub fn handle_toggle_outcome(&mut self, outcome: CommandOutcome, probe_active: bool) -> (r:
        bool)
        requires
            old(self).wf(),
        ensures
            final(self).wf(),
            r == toggle_succeeded(outcome@),
            final(self)@ == toggle_handled(old(self)@, outcome@, probe_active),
            label_of(final(self)@.menu, final(self)@.toggle_id)
                == old(self)@.toggle_label(probe_active),
    {
        let ghost outcome_model = outcome@;
        let r = match outcome {
            CommandOutcome::Completed { success, stderr } => {
                if success {
                    true
                } else {
                    self.diagnostics.push(Diagnostic::ToggleCommandFailed { stderr });
                    false
                }
            },
            CommandOutcome::LaunchFailed { message } => {
                self.diagnostics.push(Diagnostic::ToggleLaunchFailed { message });
                false
            },
        };
        proof {
            if !toggle_succeeded(outcome_model) {
                assert(self@.diagnostics =~= old(self)@.diagnostics.push(
                    diagnostic_of(outcome_model),
                ));
            }
        }
        let text = if probe_active {
            self.label_active.clone()
        } else {
            self.label_inactive.clone()
        };
        let ghost menu_before = self.menu@;
        self.menu.set_label(self.toggle_id, text.as_str());
        proof {
            lemma_set_label_preserves_ids(menu_before, self@.toggle_id, text@);
            lemma_label_of_after_set(menu_before, self@.toggle_id, text@);
        }
        r
    }
}

/// The controller after a whole sequence of events, one at a time.
pub open spec fn run_state(c: ControllerModel, events: Seq<LoopEvent>) -> ControllerModel
    decreases events.len(),
{
    if events.len() == 0 {
        c
    } else {
        run_state(step_state(c, events[0]), events.subrange(1, events.len() as int))
    }
}

/// Some event in the sequence selects the given identity.
pub open spec fn selects(events: Seq<LoopEvent>, id: u64) -> bool {
    exists|i: int| 0 <= i < events.len() && events[i] == LoopEvent::MenuSelection(id)
}

/// Law: a terminated loop is inert — no event changes it and no action is
/// ever emitted again.
pub proof fn lemma_terminated_inert(c: ControllerModel, event: LoopEvent)
    requires
        c.state is Terminated,
    ensures
        step_state(c, event) == c,
        step_actions(c, event) == Seq::<Action>::empty(),
{
}

/// Law: from a terminated loop, any sequence of further events leaves the
/// controller exactly as it stands.
pub proof fn lemma_terminated_stable(c: ControllerModel, events: Seq<LoopEvent>)
    requires
        c.state is Terminated,
    ensures
        run_state(c, events) == c,
    decreases events.len(),
{
    if events.len() > 0 {
        lemma_terminated_stable(c, events.subrange(1, events.len() as int));
    }
}

/// Law: from a running loop, a sequence of events terminates the loop if
/// and only if one of them is a menu selection of the quit identity.
pub proof fn lemma_quit_terminates(c: ControllerModel, events: Seq<LoopEvent>)
    requires
        c.state is Running,
    ensures
        run_state(c, events).state is Terminated <==> selects(events, c.quit_id),
    decreases events.len(),
{
    if events.len() > 0 {
        let first = events[0];
        let rest = events.subrange(1, events.len() as int);
        let next = step_state(c, first);
        if first == LoopEvent::MenuSelection(c.quit_id) {
            lemma_terminated_stable(next, rest);
        } else {
            assert(next.state is Running);
            assert(next.quit_id == c.quit_id);
            lemma_quit_terminates(next, rest);
            assert forall|i: int| 0 <= i < events.len()
                && events[i] == LoopEvent::MenuSelection(c.quit_id) implies selects(
                rest,
                c.quit_id,
            ) by {
                assert(i != 0);
                assert(rest[i - 1] == events[i]);
            }
            if selects(rest, c.quit_id) {
                let i = choose|i: int| 0 <= i < rest.len()
                    && rest[i] == LoopEvent::MenuSelection(c.quit_id);
                assert(events[i + 1] == rest[i]);
            }
        }
    }
}

} // verus!
