use vstd::prelude::*;

use crate::orientation::{in_range, pitch_delta, roll_delta, yaw_delta, GyroSample, TrackedGyroInfo};

verus! {

/// An input event, already decoded from the platform's event stream.
#[derive(Clone, Copy, Debug, PartialEq, Eq, Structural)]
pub enum ControlEvent {
    /// The window was closed.
    Quit,
    /// The cancel key was pressed.
    CancelKey,
    /// The reset button of the controller was pressed.
    ResetButton,
    /// One reading of the controller's gyroscope.
    Gyro(GyroSample),
}

/// What the event loop does after an event.
#[derive(Clone, Copy, Debug, PartialEq, Eq, Structural)]
pub enum LoopAction {
    Continue,
    Stop,
}

/// Whether an event ends the event loop.
pub open spec fn is_stop(e: ControlEvent) -> bool {
    e is Quit || e is CancelKey
}

/// The estimate after an event, in unbounded arithmetic: a sample adds its
/// scaled axes, a reset zeroes every axis, and the other events change nothing.
pub open spec fn step_spec(v: (int, int, int), e: ControlEvent) -> (int, int, int) {
    match e {
        ControlEvent::Gyro(s) => (v.0 + yaw_delta(s), v.1 + pitch_delta(s), v.2 + roll_delta(s)),
        ControlEvent::ResetButton => (0, 0, 0),
        _ => v,
    }
}

/// The estimate after an event, where a sample that would take an axis out of
/// `i128` is dropped.
pub open spec fn bounded_step(v: (int, int, int), e: ControlEvent) -> (int, int, int) {
    if in_range(step_spec(v, e)) {
        step_spec(v, e)
    } else {
        v
    }
}

/// The estimate after a sequence of events, each applied by `bounded_step`.
pub open spec fn run_bounded(v: (int, int, int), events: Seq<ControlEvent>) -> (int, int, int)
    decreases events.len(),
{
    if events.len() == 0 {
        v
    } else {
        bounded_step(run_bounded(v, events.drop_last()), events.last())
    }
}

impl TrackedGyroInfo {
    /// Applies one event to the estimate and says whether the loop goes on.
    pub fn handle(&mut self, e: &ControlEvent) -> (r: LoopAction)
        ensures
            final(self)@ == bounded_step(old(self)@, *e),
            r == (if is_stop(*e) {
                LoopAction::Stop
            } else {
                LoopAction::Continue
            }),
    {
        match e {
            ControlEvent::Quit | ControlEvent::CancelKey => LoopAction::Stop,
            ControlEvent::ResetButton => {
                self.clear();
                LoopAction::Continue
            },
            ControlEvent::Gyro(s) => {
                self.update(*s);
                LoopAction::Continue
            },
        }
    }

    /// Applies the events of one tick in order, up to and including the first
    /// that ends the loop.
    pub fn handle_all(&mut self, events: &Vec<ControlEvent>) -> (r: LoopAction)
        ensures
            r == LoopAction::Stop ==> exists|k: int|
                0 <= k < events@.len() && is_stop(events@[k]) && (forall|j: int|
                    0 <= j < k ==> !is_stop(#[trigger] events@[j])) && final(self)@
                    == run_bounded(old(self)@, events@.take(k)),
            r == LoopAction::Continue ==> (forall|j: int|
                0 <= j < events@.len() ==> !is_stop(#[trigger] events@[j])) && final(self)@
                == run_bounded(old(self)@, events@),
    {
        let n = events.len();
        let mut i: usize = 0;
        while i < n
            invariant
                n == events@.len(),
                i <= n,
                self@ == run_bounded(old(self)@, events@.take(i as int)),
                forall|j: int| 0 <= j < i ==> !is_stop(#[trigger] events@[j]),
            decreases n - i,
        {
            if self.handle(&events[i]) == LoopAction::Stop {
                return LoopAction::Stop;
            }
            proof {
                assert(events@.take(i as int + 1).drop_last() =~= events@.take(i as int));
            }
            i = i + 1;
        }
        proof {
            assert(events@.take(n as int) =~= events@);
        }
        LoopAction::Continue
    }
}

} // verus!
