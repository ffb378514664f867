//! Orientation tracking from gyroscope samples, and the hue that the
//! tracked yaw selects.
//!
//! Angular values are fixed-point integers so that accumulation is exact:
//! a raw reading is held in millionths, and the running estimate in units of
//! `1 / ESTIMATE_SCALE`, a common multiple of the per-axis divisors.

mod control;
mod hue;
mod laws;
mod orientation;

pub use control::{bounded_step, is_stop, run_bounded, step_spec, ControlEvent, LoopAction};
pub use hue::{hue, hue_spec, FULL_TURN};
pub use laws::{
    lemma_accumulation_is_sum, lemma_double_reset, lemma_hue_periodic,
    lemma_reset_forgets_earlier, plus, sample_sum,
};
pub use orientation::{
    in_range, pitch_delta, roll_delta, yaw_delta, GyroSample, TrackedGyroInfo, ESTIMATE_SCALE,
    PITCH_DIVISOR, PITCH_WEIGHT, ROLL_DIVISOR, ROLL_WEIGHT, SAMPLE_SCALE, YAW_DIVISOR, YAW_WEIGHT,
};
