//! The reward paid at harvest time.
use vstd::prelude::*;

verus! {

/// Base reward of every harvest.
pub const BASE_REWARD: i128 = 1000;

/// Bonus per unit of claimed work quality.
pub const ZEROS_BONUS: i128 = 100;

/// Seconds that earn one unit of time bonus.
pub const SECONDS_PER_UNIT: u64 = 60;

/// `1000 + 100 * zeros + floor((now - planted_at) / 60)`.
pub open spec fn reward_of(zeros: u32, planted_at: u64, now: u64) -> int {
    1000 + 100 * zeros + (now - planted_at) / 60
}

/// Computes the reward for work of quality `zeros` on a field planted at
/// `planted_at` and harvested at `now`.
pub fn compute_reward(zeros: u32, planted_at: u64, now: u64) -> (r: i128)
    requires
        planted_at <= now,
    ensures
        r as int == reward_of(zeros, planted_at, now),
        r > 0,
{
    let time_bonus: u64 = (now - planted_at) / SECONDS_PER_UNIT;
    BASE_REWARD + (zeros as i128) * ZEROS_BONUS + (time_bonus as i128)
}

} // verus!
