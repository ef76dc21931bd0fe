//! Tuning constants of the game.
//!
//! Quantities that are fractional by nature (speeds, damage, durations) are
//! kept as whole numbers of thousandths, so that every rule of the game is
//! exact integer arithmetic: a speed of `400_000` is 400 units per second, a
//! duration of `250` is a quarter of a second.

use vstd::prelude::*;

verus! {

/// How many thousandths make one unit.
pub const THOUSANDTHS: u32 = 1000;

// Player starting stats
pub const PLAYER_SPEED: u32 = 400_000;

pub const PLAYER_DAMAGE: u32 = 500;

pub const PLAYER_HEALTH: u32 = 1000;

/// Seconds between two shots, in thousandths.
pub const PLAYER_FIRE_RATE: u32 = 250;

pub const PLAYER_BULLETS_SPEED: u32 = 1_250_000;

pub const PLAYER_BULLETS_TTL: i32 = 1;

pub const PLAYER_BULLETS: u32 = 31;

/// Red, green and blue of the player's starting colour, in thousandths.
pub const PLAYER_COLOR_RED: u16 = 300;

pub const PLAYER_COLOR_GREEN: u16 = 300;

pub const PLAYER_COLOR_BLUE: u16 = 700;

/// Frames in the player's animation before the ones that show the player
/// from behind.
pub const PLAYER_FRAMES_FACING: usize = 6;

// Penalties: what is left of a stat after one penalty, in thousandths.
pub const SPEED_PENALTY: u32 = 800;

pub const DAMAGE_PENALTY: u32 = 700;

/// Applies to the speed of the bullets and to their decay alike.
pub const BULLETS_SPEED_PENALTY: u32 = 600;

/// Above one whole: the time between two shots grows.
pub const FIRE_RATE_PENALTY: u32 = 1300;

// Bullets
/// Enemies a bullet can hit before it is spent.
pub const BULLET_TTL: i32 = 4;

pub const BULLET_HEALTH: u32 = 1000;

/// Health a bullet loses per tick.
pub const BULLETS_DECAYS: u32 = 10;

// Mob starting stats
pub const MOB_HEALTH: u32 = 1000;

/// One mob in this many is a robot, which has twice the health.
pub const MOB_ROBOT_ODDS: u32 = 4;

/// Directions a batch of mobs can arrive from: tenths of a degree in a full turn.
pub const MOB_SPAWN_DIRECTIONS: u32 = 3600;

// Spawning
/// First level whose parameters are the last calibrated row scaled up.
pub const MAX_WAVE_CALIBRATION: u32 = 9;

/// Enemies to defeat in each calibrated level.
pub const ENEMY_BY_LVL: [u32; 10] = [500, 50, 75, 100, 150, 200, 400, 800, 1200, 1600];

/// Seconds between two spawn batches in each calibrated level, in thousandths.
pub const SPEED_SPAWN_BY_LVL: [u32; 10] = [330, 460, 460, 460, 460, 460, 460, 460, 460, 460];

/// Enemies per spawn batch in each calibrated level.
pub const SPAWN_TICK_BY_LVL: [u32; 10] = [10, 1, 2, 2, 2, 3, 3, 3, 3, 4];

// Score
/// The year in which the game begins.
pub const BEGIN_DATE: i32 = 2100;

/// Years the story goes back with every level.
pub const DECREMENT_DATE_PER_LEVEL: i32 = 35;

/// The highest level a score can reach: one more and the year would leave `i32`.
pub const MAX_LEVEL: u32 = 61_356_735;

} // verus!
