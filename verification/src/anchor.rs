//! The translation anchor: the single correspondence pair between the
//! platform's native clock and the process's monotonic clock, captured at the
//! first callback firing and reused for every later translation.
//!
//! Both clocks are modelled in nanoseconds. The native side comes from the
//! platform's floating-point seconds values through
//! [`crate::time::from_secs_bits`]; the monotonic side counts nanoseconds
//! from an arbitrary process-local epoch. Once an anchor
//! `(native_reference, monotonic_reference)` is set, a reported native
//! timestamp `t` with frame duration `d` translates to the monotonic instant
//! `monotonic_reference + (t + d - native_reference)`, on the assumption
//! that both clocks advance at the same rate past the anchor point.

use crate::time::TimeError;
use vstd::prelude::*;

verus! {

/// A point in the process's monotonic clock domain, counted in nanoseconds
/// from an arbitrary process-local epoch.
#[derive(Debug, Clone, Copy, PartialEq, Eq, Structural)]
pub struct MonotonicInstant {
    pub nanos: u128,
}

impl View for MonotonicInstant {
    type V = int;

    open spec fn view(&self) -> int {
        self.nanos as int
    }
}

impl MonotonicInstant {
    /// An instant from its nanosecond count.
    pub fn from_nanos(nanos: u128) -> (r: MonotonicInstant)
        ensures
            r@ == nanos,
    {
        MonotonicInstant { nanos }
    }
}

/// The first-observed correspondence between the native clock and the
/// monotonic clock. Once constructed it is never mutated; every subsequent
/// native timestamp is translated through it.
#[derive(Debug, Clone, Copy, PartialEq, Eq, Structural)]
pub struct TranslationAnchor {
    /// The native timestamp of the anchor point, in nanoseconds.
    pub native_reference: u128,
    /// The monotonic instant corresponding to `native_reference`.
    pub monotonic_reference: MonotonicInstant,
}

impl View for TranslationAnchor {
    type V = (int, int);

    /// An anchor is modelled by its pair of nanosecond counts:
    /// `(native_reference, monotonic_reference)`.
    open spec fn view(&self) -> (int, int) {
        (self.native_reference as int, self.monotonic_reference@)
    }
}

impl TranslationAnchor {
    /// Establishes the anchor from the first reported native timestamp, the
    /// native clock's value "now" and the monotonic clock's value "now".
    ///
    /// The anchor's monotonic reference is the monotonic instant at which the
    /// native clock read `reported`: the offset `|native_now - reported|` is
    /// applied to `monotonic_now` with the sign that keeps the anchor
    /// consistent with the backend's own report, whichever of the two native
    /// values is larger — the two real platform backends disagree on whether
    /// the reported timestamp precedes or follows the query point, and both
    /// orderings are tolerated. Fails when that instant falls outside the
    /// monotonic clock's range.
    pub fn establish(
        reported: u128,
        native_now: u128,
        monotonic_now: MonotonicInstant,
    ) -> (r: Result<TranslationAnchor, TimeError>)
        ensures
            match r {
                Ok(a) => a@.0 == reported && a@.1 == monotonic_now@ + reported - native_now && 0
                    <= monotonic_now@ + reported - native_now <= u128::MAX,
                Err(e) => (e == TimeError::Underflow && monotonic_now@ + reported - native_now
                    < 0) || (e == TimeError::Overflow && monotonic_now@ + reported - native_now
                    > u128::MAX),
            },
    {
        if native_now >= reported {
            let offset: u128 = native_now - reported;
            if offset > monotonic_now.nanos {
                Err(TimeError::Underflow)
            } else {
                Ok(
                    TranslationAnchor {
                        native_reference: reported,
                        monotonic_reference: MonotonicInstant {
                            nanos: monotonic_now.nanos - offset,
                        },
                    },
                )
            }
        } else {
            let ahead: u128 = reported - native_now;
            if ahead > u128::MAX - monotonic_now.nanos {
                Err(TimeError::Overflow)
            } else {
                Ok(
                    TranslationAnchor {
                        native_reference: reported,
                        monotonic_reference: MonotonicInstant {
                            nanos: monotonic_now.nanos + ahead,
                        },
                    },
                )
            }
        }
    }

    /// Translates a reported native timestamp and frame duration (both in
    /// nanoseconds) into the monotonic instant of the predicted next frame:
    /// exactly `monotonic_reference + (reported + frame_duration -
    /// native_reference)`.
    ///
    /// Fails with an underflow when the target native time falls before the
    /// anchor point, and with an overflow when the translated instant does
    /// not fit the monotonic clock's range; either signals a platform
    /// contract violation and is fatal for this firing.
    pub fn translate(&self, reported: u128, frame_duration: u128) -> (r: Result<
        MonotonicInstant,
        TimeError,
    >)
        ensures
            match r {
                Ok(inst) => inst@ == self@.1 + reported + frame_duration - self@.0 && self@.0
                    <= reported + frame_duration && self@.1 + reported + frame_duration - self@.0
                    <= u128::MAX,
                Err(e) => (e == TimeError::Underflow && reported + frame_duration < self@.0) || (
                e == TimeError::Overflow && reported + frame_duration >= self@.0 && self@.1
                    + reported + frame_duration - self@.0 > u128::MAX),
            },
    {
        let mono = self.monotonic_reference.nanos;
        if self.native_reference <= reported {
            let since_anchor: u128 = reported - self.native_reference;
            if since_anchor > u128::MAX - mono {
                return Err(TimeError::Overflow);
            }
            let at_report: u128 = mono + since_anchor;
            if frame_duration > u128::MAX - at_report {
                return Err(TimeError::Overflow);
            }
            Ok(MonotonicInstant { nanos: at_report + frame_duration })
        } else {
            let gap: u128 = self.native_reference - reported;
            if frame_duration < gap {
                return Err(TimeError::Underflow);
            }
            let past_anchor: u128 = frame_duration - gap;
            if past_anchor > u128::MAX - mono {
                return Err(TimeError::Overflow);
            }
            Ok(MonotonicInstant { nanos: mono + past_anchor })
        }
    }
}

} // verus!
