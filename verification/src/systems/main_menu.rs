//! The main menu.

use crate::systems::Interaction;
use crate::{AppState, GameEvent};
use vstd::prelude::*;

verus! {

/// Answers the start button: a click on the main menu leads to the
/// introduction. Anything else changes nothing.
pub fn start_button(app_state: &mut AppState, interaction: Interaction)
    ensures
        *final(app_state) == if interaction == Interaction::Clicked {
            old(app_state).next(GameEvent::StartConfirmed)
        } else {
            *old(app_state)
        },
{
    match interaction {
        Interaction::Clicked => {
            *app_state = app_state.transition(GameEvent::StartConfirmed);
        },
        _ => {},
    }
}

} // verus!
