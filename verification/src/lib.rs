//! Core of a display-synchronized timer: a service that invokes a user
//! callback once per display refresh, handing it the predicted presentation
//! time of the next frame in the process's monotonic clock domain.
//!
//! The platform's refresh-timer object (the callback source that can be
//! created, started, stopped and torn down) is an external collaborator and
//! is driven by the embedding program; this crate holds everything that can
//! be stated and proved about the timer itself:
//!
//! * [`time`] — conversion of a native floating-point seconds value (given by
//!   its IEEE 754 binary64 bit pattern) into an exact nanosecond duration;
//! * [`anchor`] — the lazily-established correspondence between the native
//!   clock and the monotonic clock, and the translation of native timestamps
//!   through it;
//! * [`callback`] — the per-callback state machine run on every refresh
//!   firing: establish the anchor once, translate every reported timestamp
//!   through it;
//! * the pause/resume lifecycle state machine below, which decides which
//!   backend operation ([`BackendOp`]) the embedding program must perform at
//!   each transition.

use vstd::prelude::*;

pub mod anchor;
pub mod callback;
pub mod time;

verus! {

/// Error signalled by [`DisplayLink::pause`] when the timer is not running.
#[derive(Debug, Clone, Copy, PartialEq, Eq, Structural)]
pub enum PauseError {
    AlreadyPaused,
}

/// Error signalled by [`DisplayLink::resume`] when the timer is already running.
#[derive(Debug, Clone, Copy, PartialEq, Eq, Structural)]
pub enum ResumeError {
    AlreadyRunning,
}

/// An operation on the platform timer backend. Lifecycle transitions return
/// the operation the embedding program must perform on the native timer
/// object; the state machine itself never touches the backend.
#[derive(Debug, Clone, Copy, PartialEq, Eq, Structural)]
pub enum BackendOp {
    /// Add the native timer to the active scheduling context.
    Start,
    /// Remove the native timer from the active scheduling context.
    Stop,
    /// Release all native resources. Safe only once the timer is stopped.
    Teardown,
}

/// The backend operations owed on destruction from a given lifecycle state:
/// a running timer is stopped strictly before it is torn down, so the backend
/// can never fire into freed callback state.
pub open spec fn shutdown_plan(paused: bool) -> Seq<BackendOp> {
    if paused {
        seq![BackendOp::Teardown]
    } else {
        seq![BackendOp::Stop, BackendOp::Teardown]
    }
}

/// The pause/resume lifecycle state machine of one timer instance.
///
/// A `DisplayLink` is constructed paused and never fires before the caller
/// explicitly resumes it. `pause` and `resume` enforce strict transition
/// legality: each is legal only from the opposite state and reports a typed
/// condition, with no state change, when called redundantly.
#[derive(Debug)]
pub struct DisplayLink {
    paused: bool,
}

impl DisplayLink {
    /// Whether the timer is paused, for use in contracts.
    pub closed spec fn spec_is_paused(&self) -> bool {
        self.paused
    }

    /// Creates a timer in the paused state: callback registration alone must
    /// not start the timer firing.
    pub fn new() -> (dl: DisplayLink)
        ensures
            dl.spec_is_paused(),
    {
        DisplayLink { paused: true }
    }

    /// Returns `true` if the timer is currently paused.
    pub fn is_paused(&self) -> (r: bool)
        ensures
            r == self.spec_is_paused(),
    {
        self.paused
    }

    /// Transition `Running -> Paused`. The embedding program must perform the
    /// returned backend operation (stop the native timer). Pausing a timer
    /// that is already paused signals `AlreadyPaused` and changes nothing.
    pub fn pause(&mut self) -> (r: Result<BackendOp, PauseError>)
        ensures
            old(self).spec_is_paused() ==> r == Err::<BackendOp, PauseError>(
                PauseError::AlreadyPaused,
            ) && *final(self) == *old(self),
            !old(self).spec_is_paused() ==> r == Ok::<BackendOp, PauseError>(BackendOp::Stop)
                && final(self).spec_is_paused(),
    {
        if self.paused {
            Err(PauseError::AlreadyPaused)
        } else {
            self.paused = true;
            Ok(BackendOp::Stop)
        }
    }

    /// Transition `Paused -> Running`. The embedding program must perform the
    /// returned backend operation (start the native timer). Resuming a timer
    /// that is already running signals `AlreadyRunning` and changes nothing.
    pub fn resume(&mut self) -> (r: Result<BackendOp, ResumeError>)
        ensures
            !old(self).spec_is_paused() ==> r == Err::<BackendOp, ResumeError>(
                ResumeError::AlreadyRunning,
            ) && *final(self) == *old(self),
            old(self).spec_is_paused() ==> r == Ok::<BackendOp, ResumeError>(BackendOp::Start)
                && !final(self).spec_is_paused(),
    {
        if !self.paused {
            Err(ResumeError::AlreadyRunning)
        } else {
            self.paused = false;
            Ok(BackendOp::Start)
        }
    }

    /// The ordered backend operations of destruction: stop first when
    /// running, then tear down. The embedding program performs them in order
    /// when it drops the timer, so the backend is never torn down while a
    /// live registration could still fire.
    pub fn shutdown_ops(&mut self) -> (ops: Vec<BackendOp>)
        ensures
            ops@ == shutdown_plan(old(self).spec_is_paused()),
            final(self).spec_is_paused(),
    {
        if self.paused {
            let ops = vec![BackendOp::Teardown];
            proof {
                assert(ops@ =~= shutdown_plan(true));
            }
            ops
        } else {
            self.paused = true;
            let ops = vec![BackendOp::Stop, BackendOp::Teardown];
            proof {
                assert(ops@ =~= shutdown_plan(false));
            }
            ops
        }
    }
}

} // verus!
