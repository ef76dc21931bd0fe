//! The game-over menu, where a playthrough ends and the next one begins.

use crate::difficulty::level_parameters;
use crate::resource::{Score, TotalKilled, TotalSpawned, TotalToSpawn};
use crate::systems::Interaction;
use crate::{AppState, GameEvent, StatsRes};
use vstd::prelude::*;

verus! {

/// Prepares the next playthrough when the menu comes up: the wave is the
/// opening wave again, with nothing spawned or killed.
pub fn setup_retry_menu(
    total_to_spawn: &mut TotalToSpawn,
    total_killed: &mut TotalKilled,
    total_spawned: &mut TotalSpawned,
)
    ensures
        final(total_to_spawn).level() == level_parameters(0),
        final(total_killed).amount == 0,
        final(total_spawned).amount == 0,
{
    total_to_spawn.update_paramter_for_level_id(0);
    total_killed.amount = 0;
    total_spawned.amount = 0;
}

/// Forgets the playthrough that ended when the menu goes away: the player
/// has the starting stats again and the score is back at level zero.
pub fn clean_retry_menu(stats: &mut StatsRes, score: &mut Score)
    ensures
        *final(stats) == StatsRes::initial(),
        final(score).level() == 0,
        final(score).date() == crate::constants::BEGIN_DATE,
        final(score).shown() == crate::constants::BEGIN_DATE * 1000,
{
    *stats = StatsRes::default();
    *score = Score::default();
}

/// Answers the retry button: a click on the game-over menu starts a wave.
/// Anything else changes nothing.
pub fn retry_button(app_state: &mut AppState, interaction: Interaction)
    ensures
        *final(app_state) == if interaction == Interaction::Clicked {
            old(app_state).next(GameEvent::RetryConfirmed)
        } else {
            *old(app_state)
        },
{
    match interaction {
        Interaction::Clicked => {
            *app_state = app_state.transition(GameEvent::RetryConfirmed);
        },
        _ => {},
    }
}

} // verus!
