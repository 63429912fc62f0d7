//! The session state machine's state value.
//!
//! Transitions are requested by other components (a start click, a lethal
//! contact) but committed exclusively by [`crate::world::GameWorld::tick`],
//! which applies at most one transition per tick and runs the exit and enter
//! effects of the states involved.

use vstd::prelude::*;

verus! {

/// The lifecycle state of the game session.
///
/// `Menu` is the initial state; a start click moves to `Playing`; a lethal
/// contact moves to `End`; a restart click moves back to `Playing`.
#[derive(Clone, Copy, Debug, PartialEq, Eq, Structural)]
pub enum AppState {
    Menu,
    Playing,
    End,
}

impl AppState {
    /// The state a fresh application starts in.
    pub fn new() -> (s: Self)
        ensures
            s is Menu,
    {
        AppState::Menu
    }

    /// The state entered when a session starts or restarts.
    pub fn restart() -> (s: Self)
        ensures
            s is Playing,
    {
        AppState::Playing
    }

    /// The state entered when the player dies.
    pub fn game_over() -> (s: Self)
        ensures
            s is End,
    {
        AppState::End
    }
}

} // verus!
