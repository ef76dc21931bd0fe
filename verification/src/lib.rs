//! Wave, difficulty and state progression for a top-down survival shooter.
//!
//! The library decides; it draws nothing and plays nothing. A host runs the
//! game loop, tells the library what happened (a timer fired, an enemy died,
//! a button was pressed) and carries out what the library answers (spawn so
//! many enemies, show this menu, set the spawn timer to this period).

use crate::components::{DebufChoices, Debuff, PlayerColor};
use crate::constants::{
    BULLETS_DECAYS, BULLETS_SPEED_PENALTY, DAMAGE_PENALTY, FIRE_RATE_PENALTY, PLAYER_BULLETS,
    PLAYER_BULLETS_SPEED, PLAYER_BULLETS_TTL, PLAYER_COLOR_BLUE, PLAYER_COLOR_GREEN,
    PLAYER_COLOR_RED, PLAYER_DAMAGE, PLAYER_FIRE_RATE, PLAYER_HEALTH, PLAYER_SPEED,
    SPEED_PENALTY,
};
use crate::difficulty::cap_u32;
use vstd::prelude::*;

pub mod components;
pub mod constants;
pub mod difficulty;
pub mod progression;
mod random;
pub mod resource;
pub mod spawn_budget;
pub mod systems;
pub mod text;

verus! {

/// The screen the game is on.
#[derive(Debug, Clone, Copy, Eq, PartialEq, Hash, Structural)]
pub enum AppState {
    MainMenu,
    InGame,
    Paused,
    RetryMenu,
    LevelMenu,
    PreStartMenu,
}

/// What can move the game from one screen to another.
#[derive(Debug, Clone, Copy, Eq, PartialEq, Hash, Structural)]
pub enum GameEvent {
    /// The player pressed start on the main menu.
    StartConfirmed,
    /// The player pressed play after the introduction.
    PlayConfirmed,
    /// The last enemy of the wave was killed.
    WaveDone,
    /// The player's character died.
    PlayerDied,
    /// The player picked a parent on the level-up menu.
    DebuffChosen,
    /// The player pressed retry on the game-over menu.
    RetryConfirmed,
}

impl Default for AppState {
    /// The game opens on the main menu.
    fn default() -> (state: AppState)
        ensures
            state == AppState::MainMenu,
    {
        AppState::MainMenu
    }
}

impl AppState {
    /// The screen that follows `self` on `event`. An event that means
    /// nothing on a screen leaves the game on it.
    pub open spec fn next(self, event: GameEvent) -> AppState {
        match (self, event) {
            (AppState::MainMenu, GameEvent::StartConfirmed) => AppState::PreStartMenu,
            (AppState::PreStartMenu, GameEvent::PlayConfirmed) => AppState::InGame,
            (AppState::InGame, GameEvent::WaveDone) => AppState::LevelMenu,
            (AppState::InGame, GameEvent::PlayerDied) => AppState::RetryMenu,
            (AppState::LevelMenu, GameEvent::DebuffChosen) => AppState::InGame,
            (AppState::RetryMenu, GameEvent::RetryConfirmed) => AppState::InGame,
            _ => self,
        }
    }

    /// The screen the game is on after all of `events`, first to last.
    pub open spec fn after(self, events: Seq<GameEvent>) -> AppState
        decreases events.len(),
    {
        if events.len() == 0 {
            self
        } else {
            self.after(events.drop_last()).next(events.last())
        }
    }

    /// Whether a game that opens on the main menu can come to this screen.
    pub open spec fn in_play(self) -> bool {
        self != AppState::Paused
    }

    /// Moves on from this screen on `event`.
    pub fn transition(self, event: GameEvent) -> (next: AppState)
        ensures
            next == self.next(event),
    {
        match (self, event) {
            (AppState::MainMenu, GameEvent::StartConfirmed) => AppState::PreStartMenu,
            (AppState::PreStartMenu, GameEvent::PlayConfirmed) => AppState::InGame,
            (AppState::InGame, GameEvent::WaveDone) => AppState::LevelMenu,
            (AppState::InGame, GameEvent::PlayerDied) => AppState::RetryMenu,
            (AppState::LevelMenu, GameEvent::DebuffChosen) => AppState::InGame,
            (AppState::RetryMenu, GameEvent::RetryConfirmed) => AppState::InGame,
            (state, _) => state,
        }
    }
}

/// No event leads to the pause screen, so a game that is not on it never
/// comes to it.
pub proof fn lemma_pause_is_never_entered(state: AppState, events: Seq<GameEvent>)
    requires
        state.in_play(),
    ensures
        state.after(events).in_play(),
    decreases events.len(),
{
    if events.len() > 0 {
        lemma_pause_is_never_entered(state, events.drop_last());
    }
}

/// No screen in play is a dead end: some event leads on from it, and two
/// events are enough to lead from it into a running wave.
pub proof fn lemma_no_screen_is_final(state: AppState)
    requires
        state.in_play(),
    ensures
        exists|event: GameEvent| #[trigger] state.next(event) != state,
        exists|a: GameEvent, b: GameEvent| #[trigger] state.next(a).next(b) == AppState::InGame,
{
    match state {
        AppState::MainMenu => {
            assert(state.next(GameEvent::StartConfirmed) != state);
            assert(state.next(GameEvent::StartConfirmed).next(GameEvent::PlayConfirmed)
                == AppState::InGame);
        },
        AppState::PreStartMenu => {
            assert(state.next(GameEvent::PlayConfirmed) != state);
            assert(state.next(GameEvent::PlayConfirmed).next(GameEvent::PlayConfirmed)
                == AppState::InGame);
        },
        AppState::InGame => {
            assert(state.next(GameEvent::WaveDone) != state);
            assert(state.next(GameEvent::WaveDone).next(GameEvent::DebuffChosen)
                == AppState::InGame);
        },
        AppState::LevelMenu => {
            assert(state.next(GameEvent::DebuffChosen) != state);
            assert(state.next(GameEvent::DebuffChosen).next(GameEvent::DebuffChosen)
                == AppState::InGame);
        },
        AppState::RetryMenu => {
            assert(state.next(GameEvent::RetryConfirmed) != state);
            assert(state.next(GameEvent::RetryConfirmed).next(GameEvent::RetryConfirmed)
                == AppState::InGame);
        },
        AppState::Paused => {},
    }
}

/// What is left of `value` thousandths after a penalty that leaves
/// `penalty` thousandths of it, rounded down and kept within `u32`.
pub open spec fn penalized(value: u32, penalty: u32) -> u32 {
    cap_u32(value * penalty / 1000)
}

/// Half of `value`, rounded down, but never less than one.
pub open spec fn halved(value: int) -> int {
    if value >= 2 {
        value / 2
    } else {
        1
    }
}

/// The player's stats. They last for a playthrough and only get worse.
#[derive(Clone, Copy, Debug, PartialEq, Eq, Structural)]
pub struct StatsRes {
    /// Units per second, in thousandths.
    pub player_speed: u32,
    /// Health taken per hit, in thousandths.
    pub player_damage: u32,
    /// In thousandths.
    pub player_health: u32,
    /// Seconds between two shots, in thousandths.
    pub player_fire_rate: u32,
    /// Bullets per shot.
    pub player_bullets: u32,
    /// Enemies one bullet can hit.
    pub player_bullets_ttl: i32,
    /// Units per second, in thousandths.
    pub player_bullets_speed: u32,
    /// Health a bullet loses per tick, in thousandths.
    pub player_decay: u32,
    pub player_color: PlayerColor,
}

impl StatsRes {
    /// The stats at the start of a playthrough.
    pub open spec fn initial() -> StatsRes {
        StatsRes {
            player_speed: PLAYER_SPEED,
            player_damage: PLAYER_DAMAGE,
            player_health: PLAYER_HEALTH,
            player_fire_rate: PLAYER_FIRE_RATE,
            player_bullets: PLAYER_BULLETS,
            player_bullets_ttl: PLAYER_BULLETS_TTL,
            player_bullets_speed: PLAYER_BULLETS_SPEED,
            player_decay: BULLETS_DECAYS,
            player_color: PlayerColor {
                red: PLAYER_COLOR_RED,
                green: PLAYER_COLOR_GREEN,
                blue: PLAYER_COLOR_BLUE,
            },
        }
    }

    /// The stats after the penalty `choice`.
    pub open spec fn after(self, choice: DebufChoices) -> StatsRes {
        match choice {
            DebufChoices::Speed => StatsRes {
                player_speed: penalized(self.player_speed, SPEED_PENALTY),
                ..self
            },
            DebufChoices::Bullets => StatsRes {
                player_bullets: halved(self.player_bullets as int) as u32,
                ..self
            },
            DebufChoices::BulletsTtl => StatsRes {
                player_bullets_ttl: halved(self.player_bullets_ttl as int) as i32,
                ..self
            },
            DebufChoices::Damage => StatsRes {
                player_damage: penalized(self.player_damage, DAMAGE_PENALTY),
                ..self
            },
            DebufChoices::BulletsSpeed => StatsRes {
                player_bullets_speed: penalized(self.player_bullets_speed, BULLETS_SPEED_PENALTY),
                player_decay: penalized(self.player_decay, BULLETS_SPEED_PENALTY),
                ..self
            },
            DebufChoices::FireRate => StatsRes {
                player_fire_rate: penalized(self.player_fire_rate, FIRE_RATE_PENALTY),
                ..self
            },
        }
    }

    /// The stats after the three penalties of a parent, in their order.
    pub open spec fn after_all(self, choices: Seq<DebufChoices>) -> StatsRes {
        self.after(choices[0]).after(choices[1]).after(choices[2])
    }

    /// Makes one stat worse for good.
    pub fn apply(&mut self, choice: DebufChoices)
        ensures
            *final(self) == old(self).after(choice),
            choice == DebufChoices::Bullets ==> final(self).player_bullets >= 1,
            choice == DebufChoices::BulletsTtl ==> final(self).player_bullets_ttl >= 1,
            old(self).player_bullets >= 1 ==> final(self).player_bullets >= 1,
            old(self).player_bullets_ttl >= 1 ==> final(self).player_bullets_ttl >= 1,
    {
        match choice {
            DebufChoices::Speed => {
                self.player_speed = scale_down(self.player_speed, SPEED_PENALTY);
            },
            DebufChoices::Bullets => {
                self.player_bullets = if self.player_bullets >= 2 {
                    self.player_bullets / 2
                } else {
                    1
                };
            },
            DebufChoices::BulletsTtl => {
                self.player_bullets_ttl = if self.player_bullets_ttl >= 2 {
                    self.player_bullets_ttl / 2
                } else {
                    1
                };
            },
            DebufChoices::Damage => {
                self.player_damage = scale_down(self.player_damage, DAMAGE_PENALTY);
            },
            DebufChoices::BulletsSpeed => {
                self.player_bullets_speed = scale_down(
                    self.player_bullets_speed,
                    BULLETS_SPEED_PENALTY,
                );
                self.player_decay = scale_down(self.player_decay, BULLETS_SPEED_PENALTY);
            },
            DebufChoices::FireRate => {
                self.player_fire_rate = scale_down(self.player_fire_rate, FIRE_RATE_PENALTY);
            },
        }
    }

    /// Makes the stats worse by all three penalties of a parent.
    pub fn apply_all(&mut self, debuff: &Debuff)
        ensures
            *final(self) == old(self).after_all(debuff@),
    {
        let choices = debuff.get_defaults();
        self.apply(choices[0]);
        self.apply(choices[1]);
        self.apply(choices[2]);
    }
}

impl Default for StatsRes {
    fn default() -> (stats: StatsRes)
        ensures
            stats == StatsRes::initial(),
    {
        StatsRes {
            player_speed: PLAYER_SPEED,
            player_damage: PLAYER_DAMAGE,
            player_health: PLAYER_HEALTH,
            player_fire_rate: PLAYER_FIRE_RATE,
            player_bullets: PLAYER_BULLETS,
            player_bullets_ttl: PLAYER_BULLETS_TTL,
            player_bullets_speed: PLAYER_BULLETS_SPEED,
            player_decay: BULLETS_DECAYS,
            player_color: PlayerColor {
                red: PLAYER_COLOR_RED,
                green: PLAYER_COLOR_GREEN,
                blue: PLAYER_COLOR_BLUE,
            },
        }
    }
}

fn scale_down(value: u32, penalty: u32) -> (r: u32)
    ensures
        r == penalized(value, penalty),
{
    assert(value * penalty <= u32::MAX * u32::MAX) by (nonlinear_arith)
        requires
            0 <= value <= u32::MAX,
            0 <= penalty <= u32::MAX,
    ;
    let wide: u64 = (value as u64) * (penalty as u64) / 1000;
    if wide > u32::MAX as u64 {
        u32::MAX
    } else {
        wide as u32
    }
}

/// Halving a count of bullets, or of hits per bullet, never takes it below
/// one: one stays one, two becomes one, and a larger count gets smaller but
/// stays at one or above.
pub proof fn lemma_halving_stops_at_one(stats: StatsRes)
    ensures
        stats.after(DebufChoices::Bullets).player_bullets >= 1,
        stats.after(DebufChoices::BulletsTtl).player_bullets_ttl >= 1,
        stats.player_bullets == 1 || stats.player_bullets == 2 ==> stats.after(
            DebufChoices::Bullets,
        ).player_bullets == 1,
        stats.player_bullets_ttl == 1 || stats.player_bullets_ttl == 2 ==> stats.after(
            DebufChoices::BulletsTtl,
        ).player_bullets_ttl == 1,
        stats.player_bullets >= 2 ==> stats.after(DebufChoices::Bullets).player_bullets
            < stats.player_bullets,
        stats.player_bullets_ttl >= 2 ==> stats.after(DebufChoices::BulletsTtl).player_bullets_ttl
            < stats.player_bullets_ttl,
{
}

} // verus!
