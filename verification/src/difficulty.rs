//! How hard each level is: how many enemies it takes, how fast they come
//! and how many come at once.
//!
//! Levels below [`MAX_WAVE_CALIBRATION`] read their own row of the tables in
//! [`crate::constants`]. Every level from there on reads the last row and
//! scales it by `level + 2 - MAX_WAVE_CALIBRATION`, so that the first scaled
//! level already doubles the last row and each further level adds the row
//! once more. Counts that would leave `u32` stay at `u32::MAX`.

use crate::constants::{
    ENEMY_BY_LVL, MAX_WAVE_CALIBRATION, SPAWN_TICK_BY_LVL, SPEED_SPAWN_BY_LVL,
};
use vstd::prelude::*;

verus! {

/// The parameters of one level.
#[derive(Clone, Copy, Debug, PartialEq, Eq, Structural)]
pub struct DifficultyLevel {
    /// Enemies to defeat before the wave is over.
    pub enemy_quota: u32,
    /// Seconds between two spawn batches, in thousandths.
    pub spawn_interval: u64,
    /// Enemies that one spawn batch brings at most.
    pub batch_size: u32,
}

/// The row of the tables that `level_index` reads.
pub open spec fn table_row(level_index: u32) -> int {
    if level_index < MAX_WAVE_CALIBRATION {
        level_index as int
    } else {
        MAX_WAVE_CALIBRATION as int
    }
}

/// The factor by which `level_index` scales its row.
pub open spec fn multiplier(level_index: u32) -> int {
    if level_index < MAX_WAVE_CALIBRATION {
        1
    } else {
        level_index + 2 - MAX_WAVE_CALIBRATION
    }
}

/// `x`, or `u32::MAX` where `x` is larger.
pub open spec fn cap_u32(x: int) -> u32 {
    if x > u32::MAX {
        u32::MAX
    } else {
        x as u32
    }
}

/// The parameters of level `level_index`.
pub open spec fn level_parameters(level_index: u32) -> DifficultyLevel {
    let row = table_row(level_index);
    let factor = multiplier(level_index);
    DifficultyLevel {
        enemy_quota: cap_u32(ENEMY_BY_LVL[row] * factor),
        spawn_interval: (SPEED_SPAWN_BY_LVL[row] * factor) as u64,
        batch_size: cap_u32(SPAWN_TICK_BY_LVL[row] * factor),
    }
}

/// The last row of the tables scaled by `factor`, with the row written out:
/// every step of the factor adds 1600 enemies to the wave, 460 thousandths
/// of a second to the spawn interval and 4 enemies to the batch.
pub open spec fn last_row_scaled(factor: int) -> DifficultyLevel {
    DifficultyLevel {
        enemy_quota: cap_u32(1600 * factor),
        spawn_interval: (460 * factor) as u64,
        batch_size: cap_u32(4 * factor),
    }
}

/// From the calibration bound on, the parameters of a level are the last
/// row scaled by the level's factor.
pub proof fn lemma_scaled_levels_follow_last_row(level_index: u32)
    requires
        level_index >= MAX_WAVE_CALIBRATION,
    ensures
        level_parameters(level_index) == last_row_scaled(multiplier(level_index)),
{
    assert(table_row(level_index) == 9);
    assert(ENEMY_BY_LVL[9] == 1600);
    assert(SPEED_SPAWN_BY_LVL[9] == 460);
    assert(SPAWN_TICK_BY_LVL[9] == 4);
}

/// The product of `a` and `b`, or `u32::MAX` where it is larger.
fn scale(a: u32, b: u32) -> (r: u32)
    ensures
        r == cap_u32(a * b),
{
    assert(a * b <= u32::MAX * u32::MAX) by (nonlinear_arith)
        requires
            0 <= a <= u32::MAX,
            0 <= b <= u32::MAX,
    ;
    let wide: u64 = (a as u64) * (b as u64);
    if wide > u32::MAX as u64 {
        u32::MAX
    } else {
        wide as u32
    }
}

/// The tables of the calibrated levels and the rule that extends them.
pub struct DifficultyTable;

impl DifficultyTable {
    /// The parameters of level `level_index`, for every `level_index`.
    pub fn lookup(level_index: u32) -> (level: DifficultyLevel)
        ensures
            level == level_parameters(level_index),
            level_index >= MAX_WAVE_CALIBRATION ==> level == last_row_scaled(multiplier(level_index)),
    {
        proof {
            if level_index >= MAX_WAVE_CALIBRATION {
                lemma_scaled_levels_follow_last_row(level_index);
            }
        }
        let (i, multiple): (usize, u32) = if level_index < MAX_WAVE_CALIBRATION {
            (level_index as usize, 1)
        } else {
            (MAX_WAVE_CALIBRATION as usize, level_index - MAX_WAVE_CALIBRATION + 2)
        };
        assert(SPEED_SPAWN_BY_LVL[i as int] * multiple <= 460 * u32::MAX) by (nonlinear_arith)
            requires
                0 <= SPEED_SPAWN_BY_LVL[i as int] <= 460,
                0 <= multiple <= u32::MAX,
        ;
        DifficultyLevel {
            enemy_quota: scale(ENEMY_BY_LVL[i], multiple),
            spawn_interval: (SPEED_SPAWN_BY_LVL[i] as u64) * (multiple as u64),
            batch_size: scale(SPAWN_TICK_BY_LVL[i], multiple),
        }
    }
}

/// The factor is never below one, stays at one below the calibration bound
/// and grows by one with every level from the bound on.
pub proof fn lemma_multiplier_grows(a: u32, b: u32)
    requires
        a < b,
    ensures
        1 <= multiplier(a) <= multiplier(b),
        b >= MAX_WAVE_CALIBRATION ==> multiplier(a) < multiplier(b),
        b > MAX_WAVE_CALIBRATION ==> multiplier(b) == multiplier((b - 1) as u32) + 1,
{
}

/// From level one on, a later level never asks for fewer enemies than an
/// earlier one. Level zero is the long opening wave and asks for more than
/// the six levels after it, which is why it is compared with itself and with
/// level seven onwards only.
pub proof fn lemma_enemy_quota_never_falls(a: u32, b: u32)
    requires
        a <= b,
        a >= 1 || b == 0 || b >= 7,
    ensures
        level_parameters(a).enemy_quota <= level_parameters(b).enemy_quota,
{
    let ra = table_row(a);
    let rb = table_row(b);
    let ma = multiplier(a);
    let mb = multiplier(b);
    assert(ENEMY_BY_LVL[ra] <= ENEMY_BY_LVL[rb]);
    assert(ENEMY_BY_LVL[ra] * ma <= ENEMY_BY_LVL[rb] * mb) by (nonlinear_arith)
        requires
            0 <= ENEMY_BY_LVL[ra] <= ENEMY_BY_LVL[rb],
            1 <= ma <= mb,
    ;
}

} // verus!
