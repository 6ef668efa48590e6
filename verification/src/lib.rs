//! A verified model of a tray-resident session controller.
//!
//! The library holds the decision logic of a status-bar controller that
//! offers a lock-screen action, a suspend action, a toggle for a managed
//! background service, and a quit action.  The event-dispatch loop, the
//! menu-label bookkeeping, the fail-closed interpretation of the service
//! status probe, and the choice of the privileged start/stop command are
//! all verified here; the surrounding process invocation and tray
//! presentation are ordinary I/O left to the embedding program, which
//! feeds plain events in and carries plain actions out.

pub mod action;
pub mod dispatch;
pub mod menu;
pub mod probe;
