//! What the game decides on each screen, one function per step of the
//! host's loop. The functions take the state they read or change and return
//! what the host has to do; they never touch the world themselves.

use vstd::prelude::*;

pub mod in_game;
pub mod level_menu;
pub mod main_menu;
pub mod prestart_menu;
pub mod retry_menu;

verus! {

/// What the pointer does to a button.
#[derive(Debug, Clone, Copy, Eq, PartialEq, Hash, Structural)]
pub enum Interaction {
    Clicked,
    Hovered,
    /// The pointer is elsewhere.
    Idle,
}

/// How a button is to be drawn.
#[derive(Debug, Clone, Copy, Eq, PartialEq, Hash, Structural)]
pub enum ButtonShade {
    Normal,
    Hover,
}

} // verus!
