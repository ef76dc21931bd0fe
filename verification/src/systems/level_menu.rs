//! The level-up menu, where the player picks the parent to lose and takes
//! on the flaws of the other.

use crate::components::{Debuff, PlayerColor};
use crate::constants::THOUSANDTHS;
use crate::random::random_below;
use crate::resource::{rounded, Score};
use crate::systems::{ButtonShade, Interaction};
use crate::text::signed_decimal_text;
use crate::{AppState, GameEvent, StatsRes};
use vstd::prelude::*;

verus! {

/// Years per second at which the date panel runs down.
pub const DATE_SPEED: u32 = 30;

/// Whether a parent is picked: by a click, while the level-up menu is up.
pub open spec fn picks_parent(app_state: AppState, interaction: Interaction) -> bool {
    interaction == Interaction::Clicked && app_state == AppState::LevelMenu
}

/// Draws the colour of a parent: each of red, green and blue at random, in
/// thousandths below one whole.
pub fn draw_parent_color() -> (color: PlayerColor)
    ensures
        color.red < THOUSANDTHS,
        color.green < THOUSANDTHS,
        color.blue < THOUSANDTHS,
{
    let red = random_below(THOUSANDTHS);
    let green = random_below(THOUSANDTHS);
    let blue = random_below(THOUSANDTHS);
    PlayerColor { red: red as u16, green: green as u16, blue: blue as u16 }
}

/// Answers the button of one parent. A click while the menu is up makes the
/// player's stats worse by that parent's three flaws, in their order, gives
/// the player that parent's colour and starts the next wave. Anything else
/// leaves stats and screen alone. Returns how to draw the button.
pub fn heredity_button(
    app_state: &mut AppState,
    stats: &mut StatsRes,
    interaction: Interaction,
    debuf: &Debuff,
    color: &PlayerColor,
) -> (shade: ButtonShade)
    ensures
        shade == if interaction == Interaction::Hovered {
            ButtonShade::Hover
        } else {
            ButtonShade::Normal
        },
        picks_parent(*old(app_state), interaction) ==> {
            &&& *final(app_state) == AppState::InGame
            &&& *final(stats) == (StatsRes {
                player_color: *color,
                ..old(stats).after_all(debuf@)
            })
        },
        !picks_parent(*old(app_state), interaction) ==> {
            &&& *final(app_state) == *old(app_state)
            &&& *final(stats) == *old(stats)
        },
{
    match interaction {
        Interaction::Clicked => {
            match *app_state {
                AppState::LevelMenu => {
                    stats.apply_all(debuf);
                    stats.player_color = *color;
                    *app_state = app_state.transition(GameEvent::DebuffChosen);
                },
                _ => {},
            }
            ButtonShade::Normal
        },
        Interaction::Hovered => ButtonShade::Hover,
        Interaction::Idle => ButtonShade::Normal,
    }
}

/// Runs the date panel down for `delta` thousandths of a second and returns
/// the year it shows then.
pub fn decrement_date(score: &mut Score, delta: u32) -> (text: String)
    ensures
        final(score).level() == old(score).level(),
        final(score).date() == old(score).date(),
        final(score).shown() == if old(score).shown() - DATE_SPEED * delta >= old(score).date()
            * 1000 {
            old(score).shown() - DATE_SPEED * delta
        } else {
            old(score).date() * 1000
        },
        text@ == signed_decimal_text(rounded(final(score).shown() as int)),
{
    assert(DATE_SPEED * delta <= 30 * u32::MAX);
    score.decrease((DATE_SPEED as u64) * (delta as u64));
    score.to_text()
}

} // verus!
