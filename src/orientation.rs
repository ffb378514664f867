use vstd::prelude::*;

verus! {

/// Fixed-point units per unit of a raw gyroscope reading.
pub const SAMPLE_SCALE: i128 = 1_000_000;

/// Estimate units per unit of angle.
pub const ESTIMATE_SCALE: i128 = 300_000_000;

/// A raw yaw reading is divided by this before it joins the estimate.
pub const YAW_DIVISOR: i128 = 10;

/// A raw pitch reading is divided by this before it joins the estimate.
pub const PITCH_DIVISOR: i128 = 300;

/// A raw roll reading is divided by this before it joins the estimate.
pub const ROLL_DIVISOR: i128 = 100;

/// Estimate units added per fixed-point unit of raw yaw:
/// `ESTIMATE_SCALE / (SAMPLE_SCALE * YAW_DIVISOR)`.
pub const YAW_WEIGHT: i128 = 30;

/// Estimate units added per fixed-point unit of raw pitch:
/// `ESTIMATE_SCALE / (SAMPLE_SCALE * PITCH_DIVISOR)`.
pub const PITCH_WEIGHT: i128 = 1;

/// Estimate units added per fixed-point unit of raw roll:
/// `ESTIMATE_SCALE / (SAMPLE_SCALE * ROLL_DIVISOR)`.
pub const ROLL_WEIGHT: i128 = 3;

/// One angular-rate reading of the gyroscope, each axis in units of
/// `1 / SAMPLE_SCALE`.
#[derive(Clone, Copy, Debug, PartialEq, Eq, Structural)]
pub struct GyroSample {
    pub pitch: i32,
    pub yaw: i32,
    pub roll: i32,
}

/// What a sample adds to the yaw total, in estimate units.
pub open spec fn yaw_delta(s: GyroSample) -> int {
    s.yaw * YAW_WEIGHT
}

/// What a sample adds to the pitch total, in estimate units.
pub open spec fn pitch_delta(s: GyroSample) -> int {
    s.pitch * PITCH_WEIGHT
}

/// What a sample adds to the roll total, in estimate units.
pub open spec fn roll_delta(s: GyroSample) -> int {
    s.roll * ROLL_WEIGHT
}

/// Whether an estimate, as `(yaw, pitch, roll)`, can be held in `i128`s.
pub open spec fn in_range(v: (int, int, int)) -> bool {
    i128::MIN <= v.0 <= i128::MAX && i128::MIN <= v.1 <= i128::MAX && i128::MIN <= v.2
        <= i128::MAX
}

/// The running orientation estimate: the sum of the scaled samples since the
/// last reset, each axis in units of `1 / ESTIMATE_SCALE`. No axis is wrapped.
#[derive(Clone, Copy, Debug, PartialEq, Eq, Structural)]
pub struct TrackedGyroInfo {
    pub yaw: i128,
    pub pitch: i128,
    pub roll: i128,
}

impl View for TrackedGyroInfo {
    type V = (int, int, int);

    /// The estimate as `(yaw, pitch, roll)`.
    open spec fn view(&self) -> (int, int, int) {
        (self.yaw as int, self.pitch as int, self.roll as int)
    }
}

impl TrackedGyroInfo {
    pub fn new(yaw: i128, pitch: i128, roll: i128) -> (r: TrackedGyroInfo)
        ensures
            r@ == (yaw as int, pitch as int, roll as int),
    {
        TrackedGyroInfo { yaw, pitch, roll }
    }

    /// The contribution of one sample: each raw axis divided by its divisor,
    /// expressed in estimate units.
    pub fn from_sample(s: GyroSample) -> (r: TrackedGyroInfo)
        ensures
            r@ == (yaw_delta(s), pitch_delta(s), roll_delta(s)),
            r.yaw * SAMPLE_SCALE * YAW_DIVISOR == s.yaw * ESTIMATE_SCALE,
            r.pitch * SAMPLE_SCALE * PITCH_DIVISOR == s.pitch * ESTIMATE_SCALE,
            r.roll * SAMPLE_SCALE * ROLL_DIVISOR == s.roll * ESTIMATE_SCALE,
    {
        TrackedGyroInfo {
            yaw: s.yaw as i128 * YAW_WEIGHT,
            pitch: s.pitch as i128 * PITCH_WEIGHT,
            roll: s.roll as i128 * ROLL_WEIGHT,
        }
    }

    /// Sets every axis to zero.
    pub fn clear(&mut self)
        ensures
            final(self)@ == (0int, 0int, 0int),
    {
        self.pitch = 0;
        self.roll = 0;
        self.yaw = 0;
    }

    /// The axis-wise sum, or `None` where an axis would leave `i128`.
    pub fn checked_add(&self, rhs: &TrackedGyroInfo) -> (r: Option<TrackedGyroInfo>)
        ensures
            r is Some <==> in_range(
                (self.yaw + rhs.yaw, self.pitch + rhs.pitch, self.roll + rhs.roll),
            ),
            r matches Some(t) ==> t@ == (
                self.yaw + rhs.yaw,
                self.pitch + rhs.pitch,
                self.roll + rhs.roll,
            ),
    {
        match (
            self.yaw.checked_add(rhs.yaw),
            self.pitch.checked_add(rhs.pitch),
            self.roll.checked_add(rhs.roll),
        ) {
            (Some(yaw), Some(pitch), Some(roll)) => Some(TrackedGyroInfo { yaw, pitch, roll }),
            _ => None,
        }
    }

    /// Adds the scaled sample to the totals and returns `true`; where a total
    /// would leave `i128`, leaves the estimate as it was and returns `false`.
    pub fn update(&mut self, s: GyroSample) -> (r: bool)
        ensures
            r == in_range(
                (
                    old(self).yaw + yaw_delta(s),
                    old(self).pitch + pitch_delta(s),
                    old(self).roll + roll_delta(s),
                ),
            ),
            r ==> final(self)@ == (
                old(self).yaw + yaw_delta(s),
                old(self).pitch + pitch_delta(s),
                old(self).roll + roll_delta(s),
            ),
            !r ==> *final(self) == *old(self),
    {
        let delta = TrackedGyroInfo::from_sample(s);
        match self.checked_add(&delta) {
            Some(sum) => {
                *self = sum;
                true
            },
            None => false,
        }
    }
}

} // verus!
