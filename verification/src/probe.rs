//! The service status probe, interpreted fail-closed: the service counts as
//! active only when the status query succeeded and its standard output is
//! exactly the expected sentinel; a failed query never propagates an error
//! and never counts as active.

use vstd::prelude::*;

verus! {

/// What the status query produced: its captured standard output, or the
/// fact that the query itself could not be run.
#[derive(Debug)]
pub enum ProbeOutcome {
    Stdout(Vec<u8>),
    QueryFailed,
}

/// Mathematical model of a probe outcome.
pub enum ProbeOutcomeModel {
    Stdout(Seq<u8>),
    QueryFailed,
}

impl View for ProbeOutcome {
    type V = ProbeOutcomeModel;

    open spec fn view(&self) -> ProbeOutcomeModel {
        match self {
            ProbeOutcome::Stdout(bytes) => ProbeOutcomeModel::Stdout(bytes@),
            ProbeOutcome::QueryFailed => ProbeOutcomeModel::QueryFailed,
        }
    }
}

/// The exact standard output that means "active": the bytes of the line
/// `active` followed by a newline.
pub open spec fn active_sentinel() -> Seq<u8> {
    seq![97u8, 99u8, 116u8, 105u8, 118u8, 101u8, 10u8]
}

/// The service is active exactly when the query ran and printed the
/// sentinel; a failed query is never active.
pub open spec fn probe_active(o: ProbeOutcomeModel) -> bool {
    match o {
        ProbeOutcomeModel::Stdout(bytes) => bytes == active_sentinel(),
        ProbeOutcomeModel::QueryFailed => false,
    }
}

/// Decides whether the probed service is active.  Fail-closed: a query
/// failure resolves to `false`, never to an error.
pub fn is_active(outcome: &ProbeOutcome) -> (r: bool)
    ensures
        r == probe_active(outcome@),
        outcome@ is QueryFailed ==> !r,
{
    match outcome {
        ProbeOutcome::QueryFailed => false,
        ProbeOutcome::Stdout(bytes) => {
            if bytes.len() != 7 {
                proof {
                    assert(active_sentinel().len() == 7);
                }
                return false;
            }
            let r = bytes[0] == 97 && bytes[1] == 99 && bytes[2] == 116 && bytes[3] == 105
                && bytes[4] == 118 && bytes[5] == 101 && bytes[6] == 10;
            proof {
                if r {
                    assert(bytes@ =~= active_sentinel());
                } else {
                    assert(bytes@ != active_sentinel());
                }
            }
            r
        },
    }
}

} // verus!
