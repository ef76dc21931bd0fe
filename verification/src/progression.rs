//! One playthrough as a whole: the screen, the score, the budget of the
//! wave and the player's stats, and the steps that move them on together.

use crate::components::{Debuff, PlayerColor};
use crate::constants::{
    BEGIN_DATE, DECREMENT_DATE_PER_LEVEL, MAX_LEVEL, MOB_ROBOT_ODDS, MOB_SPAWN_DIRECTIONS,
};
use crate::difficulty::level_parameters;
use crate::resource::Score;
use crate::spawn_budget::{SpawnBudget, SpawnBudgetTracker};
use crate::systems::in_game::{
    batch_count, bodies, change_level, dead_enemies, despawn_health, game_over, kills_added,
    mob_spawner, planned_batch, player_died, wave_is_done_emit, Casualties, MobBatch,
    MobSpawnEvent, Mortal,
};
use crate::systems::level_menu::{heredity_button, picks_parent};
use crate::systems::main_menu::start_button;
use crate::systems::prestart_menu::ingame_button;
use crate::systems::retry_menu::{clean_retry_menu, retry_button, setup_retry_menu};
use crate::systems::{ButtonShade, Interaction};
use crate::{AppState, GameEvent, StatsRes};
use vstd::prelude::*;

verus! {

/// Everything that lasts from one tick to the next.
#[derive(Clone, Copy, Debug)]
pub struct Session {
    pub app_state: AppState,
    pub score: Score,
    pub budget: SpawnBudgetTracker,
    pub stats: StatsRes,
}

/// What one tick of a running wave asks of the host.
#[derive(Debug)]
pub struct TickOutcome {
    /// The enemies to put into the world.
    pub batch: Option<MobBatch>,
    /// The dead to take out of it, and whether the player is among them.
    pub casualties: Casualties,
    /// The period the spawn timer has to take from now on, in thousandths of
    /// a second, where the level has changed.
    pub timer_period: Option<u64>,
}

impl Session {
    /// A playthrough before its first wave: on the main menu, at level
    /// zero, with the starting stats and the budget of the opening wave.
    pub fn new() -> (session: Session)
        ensures
            session.app_state == AppState::MainMenu,
            session.score.level() == 0,
            session.score.date() == BEGIN_DATE,
            session.score.shown() == BEGIN_DATE * 1000,
            session.budget.to_spawn.level() == level_parameters(0),
            session.budget@ == SpawnBudget::fresh(session.budget.to_spawn.amount as nat),
            session.stats == StatsRes::initial(),
    {
        Session {
            app_state: AppState::default(),
            score: Score::default(),
            budget: SpawnBudgetTracker::default(),
            stats: StatsRes::default(),
        }
    }

    /// The kill count of the wave once the dead of `mortals` are counted.
    pub open spec fn kills_after(self, mortals: Seq<Mortal>) -> u32 {
        kills_added(self.budget.killed.amount, dead_enemies(mortals))
    }

    /// Whether the dead of `mortals` finish the wave.
    pub open spec fn wave_ends_with(self, mortals: Seq<Mortal>) -> bool {
        self.kills_after(mortals) >= self.budget.to_spawn.amount
    }

    /// One tick of a running wave, in the order that keeps a wave whole: the
    /// spawn timer is answered first, then the dead are counted, then a dead
    /// player ends the game, and only then does a finished wave move on to
    /// the next level. So no enemy is spawned or counted against a wave
    /// that is already over, and a player who dies on the tick of the last
    /// kill has lost. Off the running game a tick does nothing.
    pub fn tick(&mut self, mob_spawn_event: Option<MobSpawnEvent>, mortals: &Vec<Mortal>) -> (outcome:
        TickOutcome)
        requires
            old(self).app_state == AppState::InGame ==> old(self).score.level() < MAX_LEVEL,
        ensures
            final(self).stats == old(self).stats,
            old(self).budget@.within_quota() ==> final(self).budget@.within_quota(),
            old(self).app_state != AppState::InGame ==> {
                &&& *final(self) == *old(self)
                &&& outcome.batch.is_none()
                &&& outcome.casualties.despawn@.len() == 0
                &&& outcome.casualties.game_over.is_none()
                &&& outcome.timer_period.is_none()
            },
            old(self).app_state == AppState::InGame ==> {
                &&& outcome.batch.is_some() == (mob_spawn_event.is_some() && old(
                    self,
                ).budget@.has_room())
                &&& exists|robot_draw: u32, angle_draw: u32|
                    robot_draw < MOB_ROBOT_ODDS && angle_draw < MOB_SPAWN_DIRECTIONS
                        && outcome.batch == #[trigger] planned_batch(
                        mob_spawn_event,
                        old(self).budget.to_spawn,
                        old(self).budget.spawned,
                        robot_draw,
                        angle_draw,
                    )
                &&& outcome.casualties.despawn@ == bodies(mortals@)
                &&& outcome.casualties.game_over.is_some() == player_died(mortals@)
            },
            old(self).app_state == AppState::InGame && player_died(mortals@) ==> {
                &&& final(self).app_state == AppState::RetryMenu
                &&& final(self).score == old(self).score
                &&& final(self).budget.to_spawn == old(self).budget.to_spawn
                &&& final(self).budget.spawned.amount == old(self).budget.spawned.amount
                    + batch_count(outcome.batch)
                &&& final(self).budget.killed.amount == old(self).kills_after(mortals@)
                &&& outcome.timer_period.is_none()
            },
            old(self).app_state == AppState::InGame && !player_died(mortals@) && old(
                self,
            ).wave_ends_with(mortals@) ==> {
                &&& final(self).app_state == AppState::LevelMenu
                &&& final(self).score.level() == old(self).score.level() + 1
                &&& final(self).score.date() == old(self).score.date() - DECREMENT_DATE_PER_LEVEL
                &&& final(self).score.shown() == old(self).score.shown()
                &&& final(self).budget.to_spawn.level() == level_parameters(
                    final(self).score.level(),
                )
                &&& final(self).budget@ == SpawnBudget::fresh(
                    final(self).budget.to_spawn.amount as nat,
                )
                &&& outcome.timer_period == Some(
                    level_parameters(final(self).score.level()).spawn_interval,
                )
            },
            old(self).app_state == AppState::InGame && !player_died(mortals@) && !old(
                self,
            ).wave_ends_with(mortals@) ==> {
                &&& final(self).app_state == AppState::InGame
                &&& final(self).score == old(self).score
                &&& final(self).budget.to_spawn == old(self).budget.to_spawn
                &&& final(self).budget.spawned.amount == old(self).budget.spawned.amount
                    + batch_count(outcome.batch)
                &&& final(self).budget.killed.amount == old(self).kills_after(mortals@)
                &&& outcome.timer_period.is_none()
            },
    {
        match self.app_state {
            AppState::InGame => {},
            _ => {
                return TickOutcome {
                    batch: None,
                    casualties: Casualties { despawn: Vec::new(), game_over: None },
                    timer_period: None,
                };
            },
        }
        let batch = mob_spawner(mob_spawn_event, &self.budget.to_spawn, &mut self.budget.spawned);
        let casualties = despawn_health(mortals, &mut self.budget.killed);
        game_over(&mut self.app_state, casualties.game_over);
        let wave_done_event = wave_is_done_emit(&self.budget.killed, &self.budget.to_spawn);
        let timer_period = change_level(
            &mut self.app_state,
            &mut self.score,
            wave_done_event,
            &mut self.budget.spawned,
            &mut self.budget.to_spawn,
            &mut self.budget.killed,
        );
        TickOutcome { batch, casualties, timer_period }
    }

    /// Passes on what the pointer does to the start button of the main menu.
    pub fn start(&mut self, interaction: Interaction)
        ensures
            *final(self) == (Session {
                app_state: if interaction == Interaction::Clicked {
                    old(self).app_state.next(GameEvent::StartConfirmed)
                } else {
                    old(self).app_state
                },
                ..*old(self)
            }),
    {
        start_button(&mut self.app_state, interaction);
    }

    /// Passes on what the pointer does to the play button of the introduction.
    pub fn play(&mut self, interaction: Interaction)
        ensures
            *final(self) == (Session {
                app_state: if interaction == Interaction::Clicked {
                    old(self).app_state.next(GameEvent::PlayConfirmed)
                } else {
                    old(self).app_state
                },
                ..*old(self)
            }),
    {
        ingame_button(&mut self.app_state, interaction);
    }

    /// Passes on what the pointer does to the button of one parent on the
    /// level-up menu. A click there takes on that parent's flaws and colour
    /// and starts the next wave; score and budget stay as they are.
    pub fn choose_parent(&mut self, interaction: Interaction, debuf: &Debuff, color: &PlayerColor) -> (shade:
        ButtonShade)
        ensures
            shade == if interaction == Interaction::Hovered {
                ButtonShade::Hover
            } else {
                ButtonShade::Normal
            },
            final(self).score == old(self).score,
            final(self).budget == old(self).budget,
            picks_parent(old(self).app_state, interaction) ==> {
                &&& final(self).app_state == AppState::InGame
                &&& final(self).stats == (StatsRes {
                    player_color: *color,
                    ..old(self).stats.after_all(debuf@)
                })
            },
            !picks_parent(old(self).app_state, interaction) ==> *final(self) == *old(self),
    {
        heredity_button(&mut self.app_state, &mut self.stats, interaction, debuf, color)
    }

    /// Whether a playthrough begins anew: by a click, while the game-over
    /// menu is up.
    pub open spec fn retries(self, interaction: Interaction) -> bool {
        interaction == Interaction::Clicked && self.app_state == AppState::RetryMenu
    }

    /// Passes on what the pointer does to the retry button of the game-over
    /// menu. A click there begins the next playthrough: level zero, the
    /// opening wave with nothing spawned or killed, the starting stats, and
    /// on into the running game. Anything else changes nothing.
    pub fn retry(&mut self, interaction: Interaction)
        ensures
            old(self).retries(interaction) ==> {
                &&& final(self).app_state == AppState::InGame
                &&& final(self).score.level() == 0
                &&& final(self).score.date() == BEGIN_DATE
                &&& final(self).score.shown() == BEGIN_DATE * 1000
                &&& final(self).budget.to_spawn.level() == level_parameters(0)
                &&& final(self).budget@ == SpawnBudget::fresh(
                    final(self).budget.to_spawn.amount as nat,
                )
                &&& final(self).stats == StatsRes::initial()
            },
            !old(self).retries(interaction) ==> *final(self) == *old(self),
    {
        match (self.app_state, interaction) {
            (AppState::RetryMenu, Interaction::Clicked) => {
                setup_retry_menu(
                    &mut self.budget.to_spawn,
                    &mut self.budget.killed,
                    &mut self.budget.spawned,
                );
                clean_retry_menu(&mut self.stats, &mut self.score);
                retry_button(&mut self.app_state, interaction);
            },
            _ => {},
        }
    }
}

} // verus!
