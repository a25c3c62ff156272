//! The per-callback state machine run on every refresh firing.
//!
//! The platform backend hands each firing a reported native timestamp and a
//! frame duration, both as binary64 seconds patterns. The first firing also
//! needs the native clock's and the monotonic clock's current values, from
//! which the translation anchor is established; every later firing reuses
//! that anchor unchanged. Each firing converts the reported values to
//! nanoseconds and translates them through the anchor into the monotonic
//! instant handed to the user callback.
//!
//! Every failure here is fatal for the process by design: it signals either
//! a platform contract violation or a clock-range overflow, and the stack
//! above the firing belongs to a foreign runtime that cannot be unwound
//! through safely. The embedding program therefore aborts on an `Err` from
//! [`CallbackState::handle_fire`] instead of propagating it.

use crate::anchor::{MonotonicInstant, TranslationAnchor};
use crate::time::{from_secs_bits, secs_bits_to_nanos, TimeError};
use vstd::prelude::*;

verus! {

/// What establishing the anchor yields, on the model level: an existing
/// anchor is kept as it is; otherwise the anchor pairs the reported native
/// timestamp with the monotonic instant at which the native clock read it,
/// and fails when that instant falls outside the monotonic clock's range.
pub open spec fn anchor_outcome(
    anchor0: Option<(int, int)>,
    reported: int,
    native_now_bits: u64,
    monotonic_now: int,
) -> Result<(int, int), TimeError> {
    match anchor0 {
        Some(a) => Ok(a),
        None => match secs_bits_to_nanos(native_now_bits) {
            Err(e) => Err(e),
            Ok(native_now) => {
                let mref = monotonic_now + reported - native_now;
                if mref < 0 {
                    Err(TimeError::Underflow)
                } else if mref > u128::MAX {
                    Err(TimeError::Overflow)
                } else {
                    Ok((reported, mref))
                }
            },
        },
    }
}

/// What one firing yields, on the model level: the anchor afterwards and
/// either the nanosecond count of the delivered monotonic instant or the
/// fatal condition that stopped the firing. The reported timestamp and the
/// frame duration are converted first; then the anchor is established if
/// absent; then the target native time `reported + frame_duration` is
/// translated through the anchor.
pub open spec fn fire_outcome(
    anchor0: Option<(int, int)>,
    reported_bits: u64,
    frame_duration_bits: u64,
    native_now_bits: u64,
    monotonic_now: int,
) -> (Option<(int, int)>, Result<int, TimeError>) {
    match secs_bits_to_nanos(reported_bits) {
        Err(e) => (anchor0, Err(e)),
        Ok(reported) => match secs_bits_to_nanos(frame_duration_bits) {
            Err(e) => (anchor0, Err(e)),
            Ok(frame_duration) => match anchor_outcome(
                anchor0,
                reported,
                native_now_bits,
                monotonic_now,
            ) {
                Err(e) => (anchor0, Err(e)),
                Ok(a) => {
                    let target = reported + frame_duration;
                    if target < a.0 {
                        (Some(a), Err(TimeError::Underflow))
                    } else if a.1 + target - a.0 > u128::MAX {
                        (Some(a), Err(TimeError::Overflow))
                    } else {
                        (Some(a), Ok(a.1 + target - a.0))
                    }
                },
            },
        },
    }
}

/// The state owned by one timer callback: the translation anchor, absent
/// until the first firing establishes it.
pub struct CallbackState {
    anchor: Option<TranslationAnchor>,
}

impl View for CallbackState {
    type V = Option<(int, int)>;

    /// The state is modelled by its anchor's pair of nanosecond counts.
    closed spec fn view(&self) -> Option<(int, int)> {
        match self.anchor {
            Some(a) => Some(a@),
            None => None,
        }
    }
}

impl CallbackState {
    /// Fresh callback state: no anchor yet.
    pub fn new() -> (s: CallbackState)
        ensures
            s@ is None,
    {
        CallbackState { anchor: None }
    }

    /// Whether the anchor has been established.
    pub fn has_anchor(&self) -> (r: bool)
        ensures
            r == (self@ is Some),
    {
        self.anchor.is_some()
    }

    /// The established anchor, if any.
    pub fn anchor(&self) -> (r: Option<TranslationAnchor>)
        ensures
            match r {
                Some(a) => self@ == Some(a@),
                None => self@ is None,
            },
    {
        self.anchor
    }

    /// One refresh firing, as [`fire_outcome`] states: convert the reported
    /// timestamp and frame duration, establish the anchor on the first
    /// firing only, and translate `reported + frame_duration` through the
    /// anchor into the monotonic instant owed to the user callback.
    ///
    /// `native_now_bits` and `monotonic_now` are the two clocks' current
    /// values; they are read only while the anchor is absent. An established
    /// anchor is never changed, whatever later firings report. An `Err` is a
    /// fatal condition: the embedding program aborts rather than letting it
    /// cross the foreign-callback boundary.
    pub fn handle_fire(
        &mut self,
        reported_bits: u64,
        frame_duration_bits: u64,
        native_now_bits: u64,
        monotonic_now: MonotonicInstant,
    ) -> (r: Result<MonotonicInstant, TimeError>)
        ensures
            final(self)@ == fire_outcome(
                old(self)@,
                reported_bits,
                frame_duration_bits,
                native_now_bits,
                monotonic_now@,
            ).0,
            (match (r, fire_outcome(
                old(self)@,
                reported_bits,
                frame_duration_bits,
                native_now_bits,
                monotonic_now@,
            ).1) {
                (Ok(inst), Ok(nanos)) => inst@ == nanos,
                (Err(actual), Err(expected)) => actual == expected,
                _ => false,
            }),
            old(self)@ is Some ==> final(self)@ == old(self)@,
            r is Ok ==> final(self)@ is Some,
    {
        let reported = match from_secs_bits(reported_bits) {
            Ok(d) => d,
            Err(e) => {
                return Err(e);
            },
        };
        let frame_duration = match from_secs_bits(frame_duration_bits) {
            Ok(d) => d,
            Err(e) => {
                return Err(e);
            },
        };
        let a: TranslationAnchor = if let Some(existing) = self.anchor {
            existing
        } else {
            let native_now = match from_secs_bits(native_now_bits) {
                Ok(d) => d,
                Err(e) => {
                    return Err(e);
                },
            };
            let established = match TranslationAnchor::establish(
                reported.total_nanos(),
                native_now.total_nanos(),
                monotonic_now,
            ) {
                Ok(a) => a,
                Err(e) => {
                    return Err(e);
                },
            };
            self.anchor = Some(established);
            established
        };
        a.translate(reported.total_nanos(), frame_duration.total_nanos())
    }
}

/// The anchor left after a whole sequence of firings, each given as
/// `(reported_bits, frame_duration_bits, native_now_bits, monotonic_now)`.
pub open spec fn anchor_after_fires(
    anchor0: Option<(int, int)>,
    fires: Seq<(u64, u64, u64, int)>,
) -> Option<(int, int)>
    decreases fires.len(),
{
    if fires.len() == 0 {
        anchor0
    } else {
        anchor_after_fires(
            fire_outcome(anchor0, fires[0].0, fires[0].1, fires[0].2, fires[0].3).0,
            fires.drop_first(),
        )
    }
}

/// Law: the anchor is established at most once per callback lifetime. Once
/// it is set, any number of further firings — whatever timestamps they
/// report — leave it unchanged, so all of them translate through the same
/// anchor.
pub proof fn lemma_anchor_established_once(
    anchor0: Option<(int, int)>,
    fires: Seq<(u64, u64, u64, int)>,
)
    requires
        anchor0 is Some,
    ensures
        anchor_after_fires(anchor0, fires) == anchor0,
    decreases fires.len(),
{
    if fires.len() > 0 {
        assert(fire_outcome(anchor0, fires[0].0, fires[0].1, fires[0].2, fires[0].3).0
            == anchor0);
        lemma_anchor_established_once(anchor0, fires.drop_first());
    }
}

/// Law: translation is exact relative to the anchor. Whenever a firing with
/// anchor `(nr, mr)` in place succeeds, the instant it delivers differs from
/// `mr` by exactly the converted nanosecond count of the reported timestamp,
/// plus that of the frame duration, less `nr`.
pub proof fn lemma_translation_exact(
    nr: int,
    mr: int,
    reported_bits: u64,
    frame_duration_bits: u64,
    native_now_bits: u64,
    monotonic_now: int,
)
    requires
        fire_outcome(
            Some((nr, mr)),
            reported_bits,
            frame_duration_bits,
            native_now_bits,
            monotonic_now,
        ).1 is Ok,
    ensures
        ({
            let out = fire_outcome(
                Some((nr, mr)),
                reported_bits,
                frame_duration_bits,
                native_now_bits,
                monotonic_now,
            ).1;
            let rep = secs_bits_to_nanos(reported_bits);
            let dur = secs_bits_to_nanos(frame_duration_bits);
            &&& rep is Ok
            &&& dur is Ok
            &&& out->Ok_0 - mr == rep->Ok_0 + dur->Ok_0 - nr
        }),
{
}

} // verus!
