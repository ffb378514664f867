use vstd::prelude::*;

use crate::orientation::{TrackedGyroInfo, ESTIMATE_SCALE};

verus! {

/// One full turn of hue (360 degrees) in estimate units.
pub const FULL_TURN: i128 = 360 * ESTIMATE_SCALE;

/// The hue that a yaw selects: the yaw taken modulo a full turn, always in
/// `[0, FULL_TURN)` (Euclidean remainder, so a negative yaw wraps upward).
pub open spec fn hue_spec(yaw: int) -> int {
    yaw % (FULL_TURN as int)
}

/// The hue of `yaw`, in estimate units of degrees.
pub fn hue(yaw: i128) -> (r: i128)
    ensures
        r == hue_spec(yaw as int),
        0 <= r < FULL_TURN,
{
    match yaw.checked_rem_euclid(FULL_TURN) {
        Some(h) => h,
        None => {
            // A positive divisor always has a remainder within range.
            proof {
                assert(i128::MIN <= yaw % FULL_TURN <= i128::MAX);
            }
            0
        },
    }
}

impl TrackedGyroInfo {
    /// The hue that the tracked yaw selects.
    pub fn hue(&self) -> (r: i128)
        ensures
            r == hue_spec(self.yaw as int),
            0 <= r < FULL_TURN,
    {
        hue(self.yaw)
    }
}

} // verus!
