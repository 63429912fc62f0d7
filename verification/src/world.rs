//! The game world and its per-tick loop.
//!
//! One tick advances the world in a fixed order: input and menu clicks,
//! player lift control, position integration from commanded velocities (the
//! stand-in for the physics collaborator), the soft ceiling and cosmetic
//! tilt, death detection over this tick's contact events, then — unless a
//! death was just requested — scoring, cleanup, spawning and the score
//! label. Last, the state machine commits at most one requested transition,
//! running the exit and enter effects of the states involved. Because a
//! death request is checked before the obstacle manager and score tracker
//! run, a dead player produces no further spawns or score increments in
//! that tick.

use vstd::prelude::*;

use crate::consts::{
    GATE_OFFSET_RANGE, GRAVITY, LOWER_PIECE_BASE_Y, MAX_FLY_SPEED, MAX_SCROLL_PER_TICK,
    MAX_TICK_MS, OBSTACLE_CLEANUP_X, OBSTACLE_MOVEMENT_SPEED, OBSTACLE_SPAWN_X, PLAYER_SPAWN_X,
    POSITION_LIMIT, TERMINAL_FALL_VY, TILT_RANGE_MAX, TILT_RANGE_MIN, UNIT, UPPER_PIECE_BASE_Y,
    VELOCITY_LIMIT,
};
use crate::entities::{
    any_lethal, ActionButton, Camera, ContactEvent, GameComponent, GameOver, MenuItem, Obstacle,
    Player, Score, ScoreText, Velocity,
};
use crate::obstacles::{
    clean, lemma_cleanup_exact, new_lower_piece, new_upper_piece, retained, should_spawn, spawn,
    stop, stopped,
};
use crate::player::{
    after_scoring, clamp_player_y, clamped_player, count_score, crossing_count, fly, flown_player,
    player_death, rotate_player_body, rotated_player, sat_add_u32, setup_game, spawned_player,
    unlocked_player,
};
use crate::state::AppState;
use crate::ui::{
    close_menu, display_game_over, exit_clicked, is_start_exit_menu, menu, setup_menu,
    start_clicked, update_score,
};

verus! {

/// How far a body with velocity `v` (milli-units per second) travels in
/// `dt` milliseconds, rounded toward zero.
pub open spec fn scaled_delta(v: int, dt: int) -> int {
    if v >= 0 {
        (v * dt) / (UNIT as int)
    } else {
        -(((-v) * dt) / (UNIT as int))
    }
}

/// One integration step of the displacement for one velocity component.
fn scale_velocity(v: i64, dt_ms: u64) -> (r: i64)
    requires
        -VELOCITY_LIMIT <= v <= VELOCITY_LIMIT,
        dt_ms <= MAX_TICK_MS,
    ensures
        r == scaled_delta(v as int, dt_ms as int),
        v >= 0 ==> 0 <= r <= v,
        v < 0 ==> v <= r <= 0,
{
    if v >= 0 {
        proof {
            assert((v as int) * (dt_ms as int) <= 2_000_000_000int) by (nonlinear_arith)
                requires
                    0 <= v as int <= 2_000_000int,
                    0 <= dt_ms as int <= 1000int,
            ;
            assert((v as int) * (dt_ms as int) <= (v as int) * 1000) by (nonlinear_arith)
                requires
                    0 <= v as int,
                    0 <= dt_ms as int <= 1000int,
            ;
            assert((v as int) * (dt_ms as int) >= 0) by (nonlinear_arith)
                requires
                    0 <= v as int,
                    0 <= dt_ms as int,
            ;
        }
        let prod: u64 = (v as u64) * dt_ms;
        let q: u64 = prod / 1000;
        proof {
            assert(q <= v);
        }
        q as i64
    } else {
        let m: i64 = -v;
        proof {
            assert((m as int) * (dt_ms as int) <= 2_000_000_000int) by (nonlinear_arith)
                requires
                    0 <= m as int <= 2_000_000int,
                    0 <= dt_ms as int <= 1000int,
            ;
            assert((m as int) * (dt_ms as int) <= (m as int) * 1000) by (nonlinear_arith)
                requires
                    0 <= m as int,
                    0 <= dt_ms as int <= 1000int,
            ;
            assert((m as int) * (dt_ms as int) >= 0) by (nonlinear_arith)
                requires
                    0 <= m as int,
                    0 <= dt_ms as int,
            ;
        }
        let prod: u64 = (m as u64) * dt_ms;
        let q: u64 = prod / 1000;
        proof {
            assert(q <= m);
        }
        -(q as i64)
    }
}

/// An obstacle piece after one integration step: it scrolls by its commanded
/// horizontal velocity; nothing else about it changes (no gravity).
pub open spec fn moved_obstacle(o: Obstacle, dt: int) -> Obstacle {
    Obstacle { x: (o.x + scaled_delta(o.vx as int, dt)) as i64, ..o }
}

/// All obstacles after one integration step.
pub open spec fn moved_seq(s: Seq<Obstacle>, dt: int) -> Seq<Obstacle> {
    s.map_values(|o: Obstacle| moved_obstacle(o, dt))
}

fn integrate_obstacles(obstacles: &mut Vec<Obstacle>, dt_ms: u64)
    requires
        dt_ms <= MAX_TICK_MS,
        forall|k: int|
            0 <= k < old(obstacles)@.len() ==> {
                let o = #[trigger] old(obstacles)@[k];
                -VELOCITY_LIMIT <= o.vx <= VELOCITY_LIMIT && -POSITION_LIMIT <= o.x
                    <= POSITION_LIMIT
            },
    ensures
        final(obstacles)@ == moved_seq(old(obstacles)@, dt_ms as int),
{
    let ghost s0 = obstacles@;
    let mut i: usize = 0;
    while i < obstacles.len()
        invariant
            i <= s0.len(),
            obstacles@.len() == s0.len(),
            dt_ms <= MAX_TICK_MS,
            forall|k: int|
                0 <= k < s0.len() ==> {
                    let o = #[trigger] s0[k];
                    -VELOCITY_LIMIT <= o.vx <= VELOCITY_LIMIT && -POSITION_LIMIT <= o.x
                        <= POSITION_LIMIT
                },
            forall|j: int| 0 <= j < i ==> obstacles@[j] == moved_obstacle(s0[j], dt_ms as int),
            forall|j: int| i <= j < s0.len() ==> obstacles@[j] == s0[j],
        decreases s0.len() - i,
    {
        let mut o = obstacles[i];
        let d: i64 = scale_velocity(o.vx, dt_ms);
        o.x = o.x + d;
        obstacles.set(i, o);
        i = i + 1;
    }
    proof {
        assert(obstacles@ =~= moved_seq(s0, dt_ms as int));
    }
}

/// The player's vertical velocity after gravity has acted for `dt`
/// milliseconds, saturated at the model's terminal fall speed.
pub open spec fn grav_vy(vy: int, dt: int) -> int {
    let v2 = vy - (GRAVITY * dt) / (UNIT as int);
    if v2 < TERMINAL_FALL_VY {
        TERMINAL_FALL_VY as int
    } else {
        v2
    }
}

/// A position component saturated to the model's coordinate range.
pub open spec fn clamp_position(p: int) -> int {
    if p > POSITION_LIMIT {
        POSITION_LIMIT as int
    } else if p < -POSITION_LIMIT {
        -POSITION_LIMIT as int
    } else {
        p
    }
}

/// The player after one integration step: gravity acts on the vertical
/// velocity (down to the terminal fall speed), then the position advances by
/// the updated velocity, saturated to the coordinate range.
pub open spec fn integrated_player(p: Player, dt: int) -> Player {
    let vy2 = grav_vy(p.velocity.y as int, dt);
    Player {
        velocity: Velocity { x: p.velocity.x, y: vy2 as i64 },
        x: clamp_position(p.x + scaled_delta(p.velocity.x as int, dt)) as i64,
        y: clamp_position(p.y + scaled_delta(vy2, dt)) as i64,
        ..p
    }
}

fn integrate_player(player: &mut Option<Player>, dt_ms: u64)
    requires
        dt_ms <= MAX_TICK_MS,
        *old(player) matches Some(p) ==> {
            &&& -VELOCITY_LIMIT <= p.velocity.x <= VELOCITY_LIMIT
            &&& -VELOCITY_LIMIT <= p.velocity.y <= VELOCITY_LIMIT
            &&& -POSITION_LIMIT <= p.x <= POSITION_LIMIT
            &&& -POSITION_LIMIT <= p.y <= POSITION_LIMIT
        },
    ensures
        *old(player) is None ==> *final(player) is None,
        *old(player) matches Some(p) ==> *final(player) == Some(
            integrated_player(p, dt_ms as int),
        ),
{
    if let Some(p) = player {
        let prod: u64 = (GRAVITY as u64) * dt_ms;
        let gd: i64 = (prod / 1000) as i64;
        proof {
            assert(gd == (GRAVITY * (dt_ms as int)) / (UNIT as int));
            assert(0 <= gd <= GRAVITY);
        }
        let mut vy2: i64 = p.velocity.y - gd;
        if vy2 < TERMINAL_FALL_VY {
            vy2 = TERMINAL_FALL_VY;
        }
        p.velocity.y = vy2;
        let dx: i64 = scale_velocity(p.velocity.x, dt_ms);
        let x2: i64 = p.x + dx;
        p.x = if x2 > POSITION_LIMIT {
            POSITION_LIMIT
        } else if x2 < -POSITION_LIMIT {
            -POSITION_LIMIT
        } else {
            x2
        };
        let dy: i64 = scale_velocity(vy2, dt_ms);
        let y2: i64 = p.y + dy;
        p.y = if y2 > POSITION_LIMIT {
            POSITION_LIMIT
        } else if y2 < -POSITION_LIMIT {
            -POSITION_LIMIT
        } else {
            y2
        };
    }
}

/// A well-formed obstacle piece: scrolling or frozen, never right of the
/// spawn boundary, within the altitude band gates are built in, killable.
pub open spec fn obstacle_ok(o: Obstacle) -> bool {
    &&& o.vx == OBSTACLE_MOVEMENT_SPEED || o.vx == 0
    &&& o.x <= OBSTACLE_SPAWN_X
    &&& LOWER_PIECE_BASE_Y <= o.y <= UPPER_PIECE_BASE_Y + GATE_OFFSET_RANGE
    &&& o.can_kill
}

/// A well-formed player: vertical speed between the terminal fall speed and
/// the lift cap, no horizontal motion, standing at the spawn column, within
/// the coordinate range, with the tilt ratio over the tilt range's width.
pub open spec fn player_ok(p: Player) -> bool {
    &&& TERMINAL_FALL_VY <= p.velocity.y <= MAX_FLY_SPEED
    &&& p.velocity.x == 0
    &&& p.x == PLAYER_SPAWN_X
    &&& -POSITION_LIMIT <= p.y <= POSITION_LIMIT
    &&& p.tilt.den == TILT_RANGE_MAX - TILT_RANGE_MIN
}

/// The edge-triggered inputs and engine events drained for exactly one tick.
pub struct TickInput {
    /// How many milliseconds this tick advances the world.
    pub dt_ms: u64,
    /// True on exactly one tick per physical press of the lift action.
    pub lift_just_pressed: bool,
    /// The button clicked this tick, if the UI collaborator reports one.
    pub clicked: Option<ActionButton>,
    /// The contact-start events the physics collaborator reports this tick.
    pub contacts: Vec<ContactEvent>,
}

/// The whole game: the session state value, the per-session entities, the
/// widgets, and the transition-request slot. Each field has exactly one
/// writer system; the state value is written only when a tick commits a
/// requested transition.
pub struct GameWorld {
    /// The session lifecycle state, committed only at the end of a tick.
    pub state: AppState,
    /// The advisory transition request of the current tick, if any; consumed
    /// when the tick commits it, so it is empty between ticks.
    pub pending: Option<AppState>,
    /// The score counter, reset to zero on entering play.
    pub score: Score,
    /// The controllable body; absent while in the menu.
    pub player: Option<Player>,
    /// Every live obstacle piece, in spawn order.
    pub obstacles: Vec<Obstacle>,
    /// The session's static floor/ceiling geometry, reduced to its presence.
    pub floor: Option<GameComponent>,
    /// The scene camera, placed once at startup.
    pub camera: Option<Camera>,
    /// The menu widgets; Start and Exit while the menu is shown, else none.
    pub menu_items: Vec<MenuItem>,
    /// The "Game Over" overlay, shown exactly while the session has ended.
    pub game_over: Option<GameOver>,
    /// The score label; shows the score counter while a session exists.
    pub score_text: Option<ScoreText>,
    /// Set when Exit is clicked; the driving loop halts after the tick.
    pub exit_requested: bool,
}

impl GameWorld {
    /// The world invariant, established by [`GameWorld::new`] and preserved
    /// by every tick.
    pub open spec fn wf(&self) -> bool {
        &&& self.pending is None
        &&& forall|i: int|
            0 <= i < self.obstacles@.len() ==> obstacle_ok(#[trigger] self.obstacles@[i])
        &&& match self.state {
            AppState::Menu => {
                &&& self.player is None
                &&& self.obstacles@.len() == 0
                &&& self.floor is None
                &&& self.score_text is None
                &&& self.game_over is None
                &&& is_start_exit_menu(self.menu_items@)
            },
            AppState::Playing => {
                &&& self.player is Some
                &&& self.floor is Some
                &&& self.score_text is Some
                &&& self.game_over is None
                &&& self.menu_items@.len() == 0
                &&& forall|i: int|
                    0 <= i < self.obstacles@.len() ==> {
                        let o = #[trigger] self.obstacles@[i];
                        o.vx == OBSTACLE_MOVEMENT_SPEED && o.x >= OBSTACLE_CLEANUP_X
                    }
            },
            AppState::End => {
                &&& self.player is Some
                &&& self.floor is Some
                &&& self.score_text is Some
                &&& self.game_over is Some
                &&& is_start_exit_menu(self.menu_items@)
                &&& forall|i: int|
                    0 <= i < self.obstacles@.len() ==> {
                        let o = #[trigger] self.obstacles@[i];
                        o.vx == 0 && o.x >= OBSTACLE_CLEANUP_X - MAX_SCROLL_PER_TICK
                    }
            },
        }
        &&& self.player matches Some(p) ==> player_ok(p)
        &&& self.score_text matches Some(t) ==> t.shown == self.score.0
    }

    /// A fresh application: in the menu, with the Start/Exit controls shown,
    /// nothing spawned, and the score at zero.
    pub fn new() -> (w: GameWorld)
        ensures
            w.wf(),
            w.state is Menu,
            w.score.0 == 0,
            !w.exit_requested,
            w.camera is None,
            w.player is None,
            w.obstacles@.len() == 0,
            is_start_exit_menu(w.menu_items@),
    {
        let mut menu_items: Vec<MenuItem> = Vec::new();
        setup_menu(&mut menu_items);
        GameWorld {
            state: AppState::new(),
            pending: None,
            score: Score(0),
            player: None,
            obstacles: Vec::new(),
            floor: None,
            camera: None,
            menu_items,
            game_over: None,
            score_text: None,
            exit_requested: false,
        }
    }

    /// Commit the tick's requested transition, if any: run the exit effects
    /// of the state being left, then the enter effects of the state being
    /// entered, and clear the request slot. At most one transition is
    /// committed per tick, and only the transitions of the lifecycle are
    /// ever requested.
    fn apply_pending(&mut self)
        requires
            match old(self).pending {
                None => true,
                Some(AppState::Playing) => old(self).state is Menu || old(self).state is End,
                Some(AppState::End) => old(self).state is Playing,
                Some(AppState::Menu) => false,
            },
        ensures
            final(self).pending is None,
            final(self).camera == old(self).camera,
            final(self).exit_requested == old(self).exit_requested,
            old(self).pending is None ==> *final(self) == *old(self),
            old(self).pending == Some(AppState::Playing) ==> {
                &&& final(self).state is Playing
                &&& final(self).score.0 == 0
                &&& final(self).player == Some(spawned_player())
                &&& final(self).obstacles@.len() == 0
                &&& final(self).floor is Some
                &&& final(self).score_text == Some(ScoreText { shown: 0 })
                &&& final(self).menu_items@.len() == 0
                &&& final(self).game_over is None
            },
            old(self).pending == Some(AppState::End) ==> {
                &&& final(self).state is End
                &&& final(self).score == old(self).score
                &&& final(self).score_text == old(self).score_text
                &&& final(self).player == old(self).player
                &&& final(self).floor == old(self).floor
                &&& final(self).obstacles@.len() == old(self).obstacles@.len()
                &&& forall|i: int|
                    0 <= i < old(self).obstacles@.len() ==> final(self).obstacles@[i] == stopped(
                        old(self).obstacles@[i],
                    )
                &&& old(self).menu_items@.len() == 0 ==> is_start_exit_menu(
                    final(self).menu_items@,
                )
                &&& final(self).game_over == Some(GameOver)
            },
    {
        let target = self.pending;
        self.pending = None;
        match target {
            None => {},
            Some(AppState::Playing) => {
                crate::player::clean_up_previous_game(
                    &mut self.player,
                    &mut self.obstacles,
                    &mut self.floor,
                    &mut self.score_text,
                );
                setup_game(
                    &mut self.score,
                    &mut self.score_text,
                    &mut self.player,
                    &mut self.floor,
                );
                close_menu(&mut self.menu_items, &mut self.game_over);
                self.state = AppState::restart();
            },
            Some(AppState::End) => {
                setup_menu(&mut self.menu_items);
                stop(&mut self.obstacles);
                display_game_over(&mut self.game_over);
                self.state = AppState::game_over();
            },
            Some(AppState::Menu) => {},
        }
    }
}

/// All obstacles after one scoring pass.
pub open spec fn scored_seq(s: Seq<Obstacle>) -> Seq<Obstacle> {
    s.map_values(|o: Obstacle| after_scoring(o))
}

/// The obstacles surviving one playing tick before any spawn: integrated,
/// scored, then culled.
pub open spec fn surviving_obstacles(s: Seq<Obstacle>, dt: int) -> Seq<Obstacle> {
    retained(scored_seq(moved_seq(s, dt)))
}

/// The obstacles after one full playing tick whose random draw was `off`:
/// the survivors, plus one new gate exactly when the distance gate allows.
pub open spec fn playing_obstacles(s: Seq<Obstacle>, dt: int, off: int) -> Seq<Obstacle> {
    let survivors = surviving_obstacles(s, dt);
    if should_spawn(survivors) {
        survivors.push(new_upper_piece(off)).push(new_lower_piece(off))
    } else {
        survivors
    }
}

/// The player after one full playing tick: lift input, integration, the soft
/// ceiling, then the cosmetic tilt.
pub open spec fn played_player(p: Player, lift: bool, dt: int) -> Player {
    rotated_player(clamped_player(integrated_player(flown_player(p, lift), dt)))
}

/// Whether this tick's contacts kill the player: only lethal contacts
/// delivered while playing count.
pub open spec fn dies(w: GameWorld, input: TickInput) -> bool {
    w.state is Playing && any_lethal(input.contacts@)
}

/// The state the world is in after one tick: a start click enters play, a
/// lethal contact while playing ends the session, anything else stays put.
pub open spec fn next_state(w: GameWorld, input: TickInput) -> AppState {
    if start_clicked(w.state, input.clicked) {
        AppState::Playing
    } else if dies(w, input) {
        AppState::End
    } else {
        w.state
    }
}

/// While the session has ended, every obstacle's horizontal velocity is
/// exactly zero — the frame holds still. Together with the tick contract's
/// end-state clause (the obstacles of an ended, unrestarted world do not
/// change at all), the freeze persists for any number of ticks.
pub proof fn lemma_end_frozen(w: GameWorld)
    requires
        w.wf(),
        w.state is End,
    ensures
        forall|i: int| 0 <= i < w.obstacles@.len() ==> (#[trigger] w.obstacles@[i]).vx == 0,
{
}

/// The spawn invariant at world level: in a well-formed world, no spawn
/// happens while some trigger-bearing gate is within one gate spacing of the
/// spawn boundary. (That a fresh gate stands exactly at the boundary is the
/// spawn contract itself: both new pieces have `x == OBSTACLE_SPAWN_X`.)
pub proof fn lemma_spawn_spacing(w: GameWorld, j: int)
    requires
        w.wf(),
        0 <= j < w.obstacles@.len(),
        crate::entities::trigger_bearing(w.obstacles@[j]),
        OBSTACLE_SPAWN_X - w.obstacles@[j].x <= crate::consts::OBSTACLE_DISTANCE,
    ensures
        !should_spawn(w.obstacles@),
{
    assert forall|k: int| 0 <= k < w.obstacles@.len() implies (#[trigger] w.obstacles@[k]).x
        <= OBSTACLE_SPAWN_X by {
        assert(obstacle_ok(w.obstacles@[k]));
    }
    crate::obstacles::lemma_no_spawn_near_gate(w.obstacles@, j);
}

impl GameWorld {
    /// Advance the world by one tick, in the fixed order documented on this
    /// module, committing at most one state transition at the end.
    #[verifier::rlimit(100)]
    pub fn tick(&mut self, input: &TickInput)
        requires
            old(self).wf(),
            input.dt_ms <= MAX_TICK_MS,
        ensures
            final(self).wf(),
            final(self).state == next_state(*old(self), *input),
            final(self).exit_requested == (old(self).exit_requested || exit_clicked(
                old(self).state,
                input.clicked,
            )),
            final(self).camera == old(self).camera,
            // a start or restart click begins a fresh session this very tick
            start_clicked(old(self).state, input.clicked) ==> {
                &&& final(self).score.0 == 0
                &&& final(self).player == Some(spawned_player())
                &&& final(self).obstacles@.len() == 0
                &&& final(self).menu_items@.len() == 0
                &&& final(self).game_over is None
                &&& final(self).score_text == Some(ScoreText { shown: 0 })
                &&& final(self).floor is Some
            },
            // a lethal contact while playing ends the session within the same
            // tick: the frame freezes, the overlay and menu appear, and no
            // scoring or spawning happens any more in that tick
            dies(*old(self), *input) ==> {
                &&& final(self).score == old(self).score
                &&& final(self).game_over is Some
                &&& is_start_exit_menu(final(self).menu_items@)
                &&& old(self).player matches Some(p) && final(self).player == Some(
                    unlocked_player(played_player(p, input.lift_just_pressed, input.dt_ms as int)),
                )
                &&& final(self).obstacles@.len() == old(self).obstacles@.len()
                &&& forall|i: int|
                    0 <= i < old(self).obstacles@.len() ==> final(self).obstacles@[i] == stopped(
                        moved_obstacle(old(self).obstacles@[i], input.dt_ms as int),
                    )
            },
            // while ended and not restarted, the obstacles hold perfectly
            // still, however much time passes
            old(self).state is End && !start_clicked(old(self).state, input.clicked) ==> {
                &&& final(self).obstacles@ == old(self).obstacles@
                &&& final(self).score == old(self).score
                &&& final(self).game_over == old(self).game_over
                &&& final(self).menu_items@ == old(self).menu_items@
                &&& old(self).player matches Some(p) && final(self).player == Some(
                    integrated_player(p, input.dt_ms as int),
                )
            },
            // in the menu, nothing exists to move or score
            old(self).state is Menu && !start_clicked(old(self).state, input.clicked) ==> {
                &&& final(self).score == old(self).score
                &&& final(self).obstacles@.len() == 0
                &&& final(self).player is None
                &&& final(self).menu_items@ == old(self).menu_items@
            },
            // an ordinary playing tick runs the whole pipeline
            old(self).state is Playing && !any_lethal(input.contacts@) ==> {
                &&& old(self).player matches Some(p) && final(self).player == Some(
                    played_player(p, input.lift_just_pressed, input.dt_ms as int),
                )
                &&& exists|off: int|
                    0 <= off < GATE_OFFSET_RANGE && final(self).obstacles@ == playing_obstacles(
                        old(self).obstacles@,
                        input.dt_ms as int,
                        off,
                    )
                &&& final(self).score.0 == sat_add_u32(
                    old(self).score.0 as int,
                    crossing_count(moved_seq(old(self).obstacles@, input.dt_ms as int)),
                )
                &&& final(self).score_text == Some(ScoreText { shown: final(self).score.0 })
            },
    {
        let ghost state0 = self.state;
        let ghost obs0 = self.obstacles@;
        let ghost score0 = self.score;
        let ghost player0 = self.player;
        let ghost menu0 = self.menu_items@;
        let ghost dt = input.dt_ms as int;

        menu(&self.state, input.clicked, &mut self.pending, &mut self.exit_requested);
        let in_play: bool = match self.state {
            AppState::Playing => true,
            _ => false,
        };
        if in_play {
            fly(&mut self.player, input.lift_just_pressed);
        }
        integrate_obstacles(&mut self.obstacles, input.dt_ms);
        integrate_player(&mut self.player, input.dt_ms);
        proof {
            if state0 !is Playing {
                assert(self.obstacles@ =~= obs0) by {
                    assert forall|i: int| 0 <= i < obs0.len() implies moved_seq(obs0, dt)[i]
                        == obs0[i] by {
                        assert(obstacle_ok(obs0[i]));
                        assert(obs0[i].vx == 0);
                        assert(scaled_delta(0int, dt) == 0);
                    }
                }
            }
        }
        if in_play {
            clamp_player_y(&mut self.player);
            rotate_player_body(&mut self.player);
            player_death(&input.contacts, &mut self.player, &mut self.pending);
            let death_pending: bool = match self.pending {
                Some(AppState::End) => true,
                _ => false,
            };
            if !death_pending {
                count_score(&mut self.obstacles, &mut self.score);
                proof {
                    assert(self.obstacles@ =~= scored_seq(moved_seq(obs0, dt)));
                }
                clean(&mut self.obstacles);
                proof {
                    let ghost sm = scored_seq(moved_seq(obs0, dt));
                    lemma_cleanup_exact(sm);
                    assert(self.obstacles@ == retained(sm));
                    assert forall|k: int| 0 <= k < self.obstacles@.len() implies {
                        let o = #[trigger] self.obstacles@[k];
                        o.vx == OBSTACLE_MOVEMENT_SPEED && OBSTACLE_CLEANUP_X <= o.x
                            <= OBSTACLE_SPAWN_X && obstacle_ok(o)
                    } by {
                        let o = self.obstacles@[k];
                        assert(retained(sm).contains(o));
                        assert(sm.contains(o));
                        let j = choose|j: int| 0 <= j < sm.len() && sm[j] == o;
                        assert(sm[j] == after_scoring(moved_obstacle(obs0[j], dt)));
                        assert(obstacle_ok(obs0[j]));
                        assert(obs0[j].vx == OBSTACLE_MOVEMENT_SPEED);
                        assert((4000int * dt) / 1000 <= 4000);
                        assert((4000int * dt) / 1000 >= 0);
                    }
                }
                let ghost pre_spawn = self.obstacles@;
                spawn(&mut self.obstacles);
                proof {
                    assert(pre_spawn == surviving_obstacles(obs0, dt));
                    if should_spawn(pre_spawn) {
                        let off = choose|off: int|
                            0 <= off < GATE_OFFSET_RANGE && self.obstacles@ == pre_spawn.push(
                                #[trigger] new_upper_piece(off),
                            ).push(new_lower_piece(off));
                        assert(self.obstacles@ == playing_obstacles(obs0, dt, off));
                        assert forall|k: int| 0 <= k < self.obstacles@.len() implies {
                            let o = #[trigger] self.obstacles@[k];
                            obstacle_ok(o) && o.vx == OBSTACLE_MOVEMENT_SPEED && o.x
                                >= OBSTACLE_CLEANUP_X
                        } by {
                            if k < pre_spawn.len() {
                                assert(self.obstacles@[k] == pre_spawn[k]);
                            } else if k == pre_spawn.len() {
                                assert(self.obstacles@[k] == new_upper_piece(off));
                            } else {
                                assert(self.obstacles@[k] == new_lower_piece(off));
                            }
                        }
                    } else {
                        assert(self.obstacles@ == playing_obstacles(obs0, dt, 0));
                    }
                }
                update_score(&mut self.score_text, &self.score);
            }
        }
        proof {
            if state0 is Playing && !any_lethal(input.contacts@) {
                assert(self.pending is None);
            }
        }
        self.apply_pending();
        proof {
            if state0 is Playing && any_lethal(input.contacts@) {
                assert forall|i: int| 0 <= i < obs0.len() implies {
                    let o = #[trigger] self.obstacles@[i];
                    o == stopped(moved_obstacle(obs0[i], dt)) && obstacle_ok(o) && o.vx == 0
                        && o.x >= OBSTACLE_CLEANUP_X - MAX_SCROLL_PER_TICK
                } by {
                    assert(obstacle_ok(obs0[i]));
                    assert(obs0[i].vx == OBSTACLE_MOVEMENT_SPEED);
                    assert((4000int * dt) / 1000 <= 4000);
                    assert((4000int * dt) / 1000 >= 0);
                }
            }
        }
    }
}

} // verus!

