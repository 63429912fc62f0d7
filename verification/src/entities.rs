//! The typed entities of the game world.
//!
//! The engine's entity-component store is reframed as plain typed records:
//! queries over component tags become fields of [`crate::world::GameWorld`]
//! and explicit iteration over `Vec<Obstacle>`. Coordinates are fixed-point
//! milli-units (see [`crate::consts`]).

use vstd::prelude::*;

verus! {

/// What a menu button does when clicked.
#[derive(Clone, Copy, Debug, PartialEq, Eq, Structural)]
pub enum Actions {
    Start,
    Exit,
}

/// A clickable widget bound to an action.
#[derive(Clone, Copy, Debug, PartialEq, Eq, Structural)]
pub struct ActionButton(pub Actions);

/// A widget belonging to the start/restart menu.
#[derive(Clone, Copy, Debug, PartialEq, Eq, Structural)]
pub struct MenuItem {
    /// The button this menu entry presents.
    pub action: ActionButton,
}

/// The "Game Over" overlay widget, shown while the session has ended.
#[derive(Clone, Copy, Debug, PartialEq, Eq, Structural)]
pub struct GameOver;

/// The score label widget; `shown` is the number it displays.
#[derive(Clone, Copy, Debug, PartialEq, Eq, Structural)]
pub struct ScoreText {
    pub shown: u32,
}

/// The scene camera, reduced to the point it is anchored at.
#[derive(Clone, Copy, Debug, PartialEq, Eq, Structural)]
pub struct Camera {
    pub x: i64,
    pub y: i64,
    pub z: i64,
}

/// A commanded velocity in milli-units per second.
#[derive(Clone, Copy, Debug, PartialEq, Eq, Structural)]
pub struct Velocity {
    pub x: i64,
    pub y: i64,
}

/// Tag for entities owned by one session, destroyed together at teardown.
/// The session's static floor/ceiling geometry is modelled by one such tag.
#[derive(Clone, Copy, Debug, PartialEq, Eq)]
pub struct GameComponent;

/// Tag carried by a body whose touch kills the player.
#[derive(Clone, Copy, Debug, PartialEq, Eq)]
pub struct CanKillPlayer;

/// A contact-start event reported by the physics collaborator for one tick.
///
/// Each side carries the killable tag of the body involved, if it has one.
#[derive(Clone, Copy, Debug, PartialEq, Eq)]
pub struct ContactEvent {
    pub first: Option<CanKillPlayer>,
    pub second: Option<CanKillPlayer>,
}

/// The session's score counter.
#[derive(Clone, Copy, Debug, PartialEq, Eq, Structural)]
pub struct Score(pub u32);

/// A one-shot scoring flag on a gate's trigger piece; `true` until that
/// gate has been scored, then cleared forever.
#[derive(Clone, Copy, Debug, PartialEq, Eq, Structural)]
pub struct ScoreTrigger(pub bool);

/// An exact fraction `num / den`; the unclamped inverse-lerp returns one.
#[derive(Clone, Copy, Debug, PartialEq, Eq, Structural)]
pub struct Ratio {
    pub num: i64,
    pub den: i64,
}

/// The single controllable body, alive from session start until menu
/// teardown.
#[derive(Clone, Copy, Debug, PartialEq, Eq)]
pub struct Player {
    /// Horizontal position; the model never commands a horizontal velocity.
    pub x: i64,
    /// Altitude, integrated from `velocity.y` each tick.
    pub y: i64,
    /// Commanded velocity, written only by the player controller.
    pub velocity: Velocity,
    /// Cosmetic body tilt derived from the vertical speed each tick.
    pub tilt: Ratio,
    /// True until death: on a lethal contact the rotational constraints are
    /// removed so the body free-tumbles afterwards.
    pub rotation_locked: bool,
}

/// One piece of an obstacle gate (an upper or a lower slab).
#[derive(Clone, Copy, Debug, PartialEq, Eq)]
pub struct Obstacle {
    pub x: i64,
    pub y: i64,
    /// Horizontal velocity: the constant scroll speed, or zero once frozen.
    pub vx: i64,
    pub half_height: i64,
    /// Both pieces of a gate are killable.
    pub can_kill: bool,
    /// `Some` on the designated trigger piece of the pair, `None` on the
    /// other piece.
    pub score_trigger: Option<ScoreTrigger>,
}

/// Whether this contact involves a killable body, making it lethal.
pub open spec fn lethal(e: ContactEvent) -> bool {
    e.first is Some || e.second is Some
}

/// Whether any contact delivered this tick is lethal.
pub open spec fn any_lethal(s: Seq<ContactEvent>) -> bool {
    exists|i: int| 0 <= i < s.len() && lethal(s[i])
}

/// Whether this piece carries the scoring slot of its gate (armed or not).
pub open spec fn trigger_bearing(o: Obstacle) -> bool {
    o.score_trigger is Some
}

/// Whether this piece's scoring flag is still armed.
pub open spec fn trigger_armed(o: Obstacle) -> bool {
    o.score_trigger matches Some(t) && t.0
}

} // verus!
