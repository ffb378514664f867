use vstd::arithmetic::div_mod::lemma_mod_multiples_vanish;
use vstd::prelude::*;

use crate::control::{bounded_step, run_bounded, step_spec, ControlEvent};
use crate::hue::{hue_spec, FULL_TURN};
use crate::orientation::{in_range, pitch_delta, roll_delta, yaw_delta};

verus! {

/// The scaled axes of every sample among `events`, summed; events of other
/// kinds add nothing.
pub open spec fn sample_sum(events: Seq<ControlEvent>) -> (int, int, int)
    decreases events.len(),
{
    if events.len() == 0 {
        (0, 0, 0)
    } else {
        let rest = sample_sum(events.drop_last());
        match events.last() {
            ControlEvent::Gyro(s) => (
                rest.0 + yaw_delta(s),
                rest.1 + pitch_delta(s),
                rest.2 + roll_delta(s),
            ),
            _ => rest,
        }
    }
}

/// Axis-wise sum of two estimates.
pub open spec fn plus(a: (int, int, int), b: (int, int, int)) -> (int, int, int) {
    (a.0 + b.0, a.1 + b.1, a.2 + b.2)
}

/// Without a reset among them, a sequence of events leaves the estimate at its
/// start plus the sum of the scaled samples, whatever other events stand
/// between them, as long as every running total fits in `i128`.
pub proof fn lemma_accumulation_is_sum(v: (int, int, int), events: Seq<ControlEvent>)
    requires
        forall|i: int| 0 <= i < events.len() ==> !(#[trigger] events[i] is ResetButton),
        forall|i: int|
            0 <= i <= events.len() ==> in_range(plus(v, #[trigger] sample_sum(events.take(i)))),
    ensures
        run_bounded(v, events) == plus(v, sample_sum(events)),
    decreases events.len(),
{
    if events.len() > 0 {
        let p = events.drop_last();
        assert forall|i: int| 0 <= i <= p.len() implies in_range(
            plus(v, #[trigger] sample_sum(p.take(i))),
        ) by {
            assert(p.take(i) =~= events.take(i));
        }
        assert forall|i: int| 0 <= i < p.len() implies !(#[trigger] p[i] is ResetButton) by {
            assert(p[i] == events[i]);
        }
        lemma_accumulation_is_sum(v, p);
        assert(events.take(events.len() as int) =~= events);
        assert(events[events.len() - 1] == events.last());
        assert(step_spec(plus(v, sample_sum(p)), events.last()) == plus(v, sample_sum(events)));
    }
}

/// A reset always leaves the zero estimate, and a second reset right after it
/// changes nothing.
pub proof fn lemma_double_reset(v: (int, int, int))
    ensures
        bounded_step(v, ControlEvent::ResetButton) == (0int, 0int, 0int),
        bounded_step(bounded_step(v, ControlEvent::ResetButton), ControlEvent::ResetButton)
            == bounded_step(v, ControlEvent::ResetButton),
{
}

/// After a reset, the estimate depends only on the events that follow it:
/// neither the starting estimate nor any event before the reset matters.
pub proof fn lemma_reset_forgets_earlier(
    v: (int, int, int),
    before: Seq<ControlEvent>,
    after: Seq<ControlEvent>,
)
    ensures
        run_bounded(v, before.push(ControlEvent::ResetButton) + after) == run_bounded(
            (0, 0, 0),
            after,
        ),
    decreases after.len(),
{
    let s = before.push(ControlEvent::ResetButton) + after;
    if after.len() == 0 {
        assert(s =~= before.push(ControlEvent::ResetButton));
        assert(s.drop_last() =~= before);
    } else {
        assert(s.drop_last() =~= before.push(ControlEvent::ResetButton) + after.drop_last());
        lemma_reset_forgets_earlier(v, before, after.drop_last());
    }
}

/// Adding any whole number of turns to the yaw leaves its hue unchanged.
pub proof fn lemma_hue_periodic(yaw: int, k: int)
    ensures
        hue_spec(yaw + k * FULL_TURN) == hue_spec(yaw),
{
    lemma_mod_multiples_vanish(k, yaw, FULL_TURN as int);
    assert(FULL_TURN * k + yaw == yaw + k * FULL_TURN) by (nonlinear_arith);
}

} // verus!
