//! The introduction shown before the first wave.

use crate::systems::Interaction;
use crate::{AppState, GameEvent};
use vstd::prelude::*;

verus! {

/// Answers the play button: a click on the introduction starts the first
/// wave. Anything else changes nothing.
pub fn ingame_button(app_state: &mut AppState, interaction: Interaction)
    ensures
        *final(app_state) == if interaction == Interaction::Clicked {
            old(app_state).next(GameEvent::PlayConfirmed)
        } else {
            *old(app_state)
        },
{
    match interaction {
        Interaction::Clicked => {
            *app_state = app_state.transition(GameEvent::PlayConfirmed);
        },
        _ => {},
    }
}

} // verus!
