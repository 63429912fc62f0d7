//! Player control, scoring, death detection, and session setup/teardown.
//!
//! Every function tolerates an absent player (`None`): between teardown and
//! setup a query for the single player matches nothing, and that must be a
//! no-op, not a crash.

use vstd::prelude::*;

use crate::consts::{
    CEILING_PUSHBACK_VY, CEILING_Y, FLY_SPEED, MAX_FLY_SPEED, PLAYER_SPAWN_X, PLAYER_SPAWN_Y,
    POSITION_LIMIT, SCORE_TRIGGER_X, TILT_RANGE_MAX, TILT_RANGE_MIN, VELOCITY_LIMIT,
};
use crate::entities::{
    any_lethal, trigger_armed, Camera, ContactEvent, GameComponent, Obstacle, Player, Ratio,
    Score, ScoreText, ScoreTrigger, Velocity,
};
use crate::state::AppState;

verus! {

/// Numerator of the unclamped inverse-lerp `(value - min) / (max - min)`.
pub open spec fn lerp_num(min: int, max: int, value: int) -> int {
    value - min
}

/// Denominator of the unclamped inverse-lerp `(value - min) / (max - min)`.
pub open spec fn lerp_den(min: int, max: int) -> int {
    max - min
}

/// The fraction of the way `value` lies between `min` and `max`, as an exact
/// ratio. This is the unclamped inverse-lerp: values outside `[min, max]`
/// give fractions outside `[0, 1]`. `min == max` would divide by zero and is
/// a programmer error, ruled out up front.
pub fn lerp(min: i64, max: i64, value: i64) -> (r: Ratio)
    requires
        min != max,
        -POSITION_LIMIT <= min <= POSITION_LIMIT,
        -POSITION_LIMIT <= max <= POSITION_LIMIT,
        -POSITION_LIMIT <= value <= POSITION_LIMIT,
    ensures
        r.num == lerp_num(min as int, max as int, value as int),
        r.den == lerp_den(min as int, max as int),
        r.den != 0,
{
    Ratio { num: value - min, den: max - min }
}

/// The inverse-lerp is 0 at `min`, 1 at `max` (numerator equals denominator
/// there), and linear in between: moving the queried value by `d` moves the
/// numerator by exactly `d` while the denominator stays fixed.
pub proof fn lemma_lerp_linear(min: int, max: int, v1: int, v2: int)
    requires
        min != max,
    ensures
        lerp_num(min, max, min) == 0,
        lerp_num(min, max, max) == lerp_den(min, max),
        lerp_den(min, max) != 0,
        lerp_num(min, max, v2) - lerp_num(min, max, v1) == v2 - v1,
{
}

/// The vertical speed produced by one fresh lift press: downward momentum is
/// first clamped to zero, the lift impulse is added, and the result is capped.
pub open spec fn fly_vy(vy: int) -> int {
    let boosted = if vy > 0 {
        vy + FLY_SPEED
    } else {
        FLY_SPEED as int
    };
    if boosted > MAX_FLY_SPEED {
        MAX_FLY_SPEED as int
    } else {
        boosted
    }
}

/// The player after one lift-input tick.
pub open spec fn flown_player(p: Player, just_pressed: bool) -> Player {
    if just_pressed {
        Player { velocity: Velocity { x: p.velocity.x, y: fly_vy(p.velocity.y as int) as i64 }, ..p }
    } else {
        p
    }
}

/// On a fresh press of the lift action, set the player's vertical velocity to
/// `min(MAX_FLY_SPEED, max(vy, 0) + FLY_SPEED)`: a fall does not subtract
/// from the impulse, and the resulting speed is capped.
pub fn fly(player: &mut Option<Player>, just_pressed: bool)
    requires
        *old(player) matches Some(p) ==> -VELOCITY_LIMIT <= p.velocity.y <= VELOCITY_LIMIT,
    ensures
        *old(player) is None ==> *final(player) is None,
        *old(player) matches Some(p) ==> *final(player) == Some(flown_player(p, just_pressed)),
{
    if just_pressed {
        if let Some(p) = player {
            let vy: i64 = p.velocity.y;
            let base: i64 = if vy > 0 {
                vy
            } else {
                0
            };
            let boosted: i64 = base + FLY_SPEED;
            p.velocity.y = if boosted > MAX_FLY_SPEED {
                MAX_FLY_SPEED
            } else {
                boosted
            };
        }
    }
}

/// The player after the soft ceiling: above `CEILING_Y` the vertical velocity
/// is forced to a small negative value, nudging the body back down.
pub open spec fn clamped_player(p: Player) -> Player {
    if p.y > CEILING_Y {
        Player { velocity: Velocity { x: p.velocity.x, y: CEILING_PUSHBACK_VY }, ..p }
    } else {
        p
    }
}

/// If the player's altitude exceeds the ceiling threshold, force its vertical
/// velocity to a small negative value instead of halting it outright.
pub fn clamp_player_y(player: &mut Option<Player>)
    ensures
        *old(player) is None ==> *final(player) is None,
        *old(player) matches Some(p) ==> *final(player) == Some(clamped_player(p)),
{
    if let Some(p) = player {
        if p.y > CEILING_Y {
            p.velocity.y = CEILING_PUSHBACK_VY;
        }
    }
}

/// The player after the cosmetic tilt update: the tilt is the rotation
/// fraction `lerp(TILT_RANGE_MIN, TILT_RANGE_MAX, vy) * 2 - 1`, an exact
/// ratio that simplifies to `2 * vy` over the tilt range's width.
pub open spec fn rotated_player(p: Player) -> Player {
    Player {
        tilt: Ratio {
            num: (2 * p.velocity.y) as i64,
            den: (TILT_RANGE_MAX - TILT_RANGE_MIN) as i64,
        },
        ..p
    }
}

/// Derive the purely cosmetic body tilt from the vertical speed: nose up on
/// ascent, nose down on descent.
pub fn rotate_player_body(player: &mut Option<Player>)
    requires
        *old(player) matches Some(p) ==> -VELOCITY_LIMIT <= p.velocity.y <= VELOCITY_LIMIT,
    ensures
        *old(player) is None ==> *final(player) is None,
        *old(player) matches Some(p) ==> *final(player) == Some(rotated_player(p)),
{
    if let Some(p) = player {
        let frac = lerp(TILT_RANGE_MIN, TILT_RANGE_MAX, p.velocity.y);
        let num: i64 = 2 * frac.num - frac.den;
        p.tilt = Ratio { num, den: frac.den };
    }
}

/// Whether this piece's armed trigger has crossed the scoring threshold.
pub open spec fn crossing(o: Obstacle) -> bool {
    trigger_armed(o) && o.x < SCORE_TRIGGER_X
}

/// The piece after one scoring pass: a crossing trigger is consumed (cleared),
/// anything else is untouched.
pub open spec fn after_scoring(o: Obstacle) -> Obstacle {
    if crossing(o) {
        Obstacle { score_trigger: Some(ScoreTrigger(false)), ..o }
    } else {
        o
    }
}

/// How many pieces of `s` score this tick.
pub open spec fn crossing_count(s: Seq<Obstacle>) -> int
    decreases s.len(),
{
    if s.len() == 0 {
        0
    } else {
        crossing_count(s.drop_last()) + if crossing(s.last()) {
            1int
        } else {
            0int
        }
    }
}

/// Addition on the score counter, saturating at the counter's capacity.
pub open spec fn sat_add_u32(a: int, n: int) -> int {
    if a + n <= u32::MAX {
        a + n
    } else {
        u32::MAX as int
    }
}

proof fn lemma_crossing_count_take_step(s: Seq<Obstacle>, i: int)
    requires
        0 <= i < s.len(),
    ensures
        crossing_count(s.take(i + 1)) == crossing_count(s.take(i)) + if crossing(s[i]) {
            1int
        } else {
            0int
        },
{
    let t = s.take(i + 1);
    assert(t.drop_last() =~= s.take(i));
    assert(t.last() == s[i]);
}

/// A gate is scored exactly once: on the tick its armed trigger has crossed
/// the threshold the trigger is consumed, and however the piece moves
/// afterwards (only its x changes as it scrolls), it never scores again. A
/// piece that is not crossing is left untouched by a scoring pass.
pub proof fn lemma_score_once_per_gate(o: Obstacle, x_later: i64)
    ensures
        crossing(o) ==> after_scoring(o).score_trigger == Some(ScoreTrigger(false)),
        crossing(o) ==> !crossing(Obstacle { x: x_later, ..after_scoring(o) }),
        !crossing(o) ==> after_scoring(o) == o,
{
}

/// Once a scoring pass has run, no piece of the result is still crossing, so
/// an immediate second pass would add zero points.
pub proof fn lemma_scoring_pass_settles(s: Seq<Obstacle>)
    ensures
        forall|i: int| 0 <= i < s.len() ==> !crossing(#[trigger] after_scoring(s[i])),
{
}

/// For every piece still carrying an armed score trigger whose x has crossed
/// the player's threshold, increment the score once and clear that trigger.
/// The counter saturates at its capacity instead of overflowing.
pub fn count_score(obstacles: &mut Vec<Obstacle>, score: &mut Score)
    ensures
        final(obstacles)@.len() == old(obstacles)@.len(),
        forall|i: int|
            0 <= i < old(obstacles)@.len() ==> final(obstacles)@[i] == after_scoring(
                old(obstacles)@[i],
            ),
        final(score).0 == sat_add_u32(old(score).0 as int, crossing_count(old(obstacles)@)),
{
    let ghost s0 = obstacles@;
    let ghost sc0 = score.0;
    let mut i: usize = 0;
    while i < obstacles.len()
        invariant
            i <= s0.len(),
            obstacles@.len() == s0.len(),
            forall|j: int| 0 <= j < i ==> obstacles@[j] == after_scoring(s0[j]),
            forall|j: int| i <= j < s0.len() ==> obstacles@[j] == s0[j],
            score.0 == sat_add_u32(sc0 as int, crossing_count(s0.take(i as int))),
        decreases s0.len() - i,
    {
        proof {
            lemma_crossing_count_take_step(s0, i as int);
        }
        let o = obstacles[i];
        let armed: bool = match o.score_trigger {
            Some(t) => t.0,
            None => false,
        };
        if armed && o.x < SCORE_TRIGGER_X {
            let mut scored = o;
            scored.score_trigger = Some(ScoreTrigger(false));
            obstacles.set(i, scored);
            if score.0 < u32::MAX {
                score.0 = score.0 + 1;
            }
        }
        i = i + 1;
    }
    proof {
        assert(s0.take(s0.len() as int) =~= s0);
    }
}

/// The player after death: rotational constraints removed so the body
/// free-tumbles ("ragdoll").
pub open spec fn unlocked_player(p: Player) -> Player {
    Player { rotation_locked: false, ..p }
}

/// Consume this tick's contact-start events. If any involves a killable
/// body, unlock the player's rotation and request the transition to the end
/// state. Requesting it for several simultaneous contacts is idempotent: the
/// request slot is simply set.
pub fn player_death(
    contacts: &Vec<ContactEvent>,
    player: &mut Option<Player>,
    pending: &mut Option<AppState>,
)
    ensures
        *final(pending) == if any_lethal(contacts@) {
            Some(AppState::End)
        } else {
            *old(pending)
        },
        *final(player) == if any_lethal(contacts@) {
            match *old(player) {
                Some(p) => Some(unlocked_player(p)),
                None => None::<Player>,
            }
        } else {
            *old(player)
        },
{
    let mut found: bool = false;
    let mut i: usize = 0;
    while i < contacts.len()
        invariant
            i <= contacts@.len(),
            found == exists|k: int| 0 <= k < i && crate::entities::lethal(contacts@[k]),
        decreases contacts@.len() - i,
    {
        let e = contacts[i];
        if e.first.is_some() || e.second.is_some() {
            found = true;
            assert(crate::entities::lethal(contacts@[i as int]));
        }
        i = i + 1;
    }
    if found {
        if let Some(p) = player {
            p.rotation_locked = false;
        }
        *pending = Some(AppState::game_over());
    }
}

/// The player as (re)created on entering a session: at the spawn position,
/// at rest, level, with its rotation constrained.
pub open spec fn spawned_player() -> Player {
    Player {
        x: PLAYER_SPAWN_X,
        y: PLAYER_SPAWN_Y,
        velocity: Velocity { x: 0, y: 0 },
        tilt: Ratio { num: 0, den: (TILT_RANGE_MAX - TILT_RANGE_MIN) as i64 },
        rotation_locked: true,
    }
}

/// Enter-session setup: reset the score to zero, show a score label reading
/// zero, (re)create the player at its spawn position, and (re)create the
/// static floor/ceiling geometry.
pub fn setup_game(
    score: &mut Score,
    score_text: &mut Option<ScoreText>,
    player: &mut Option<Player>,
    floor: &mut Option<GameComponent>,
)
    ensures
        final(score).0 == 0,
        *final(score_text) == Some(ScoreText { shown: 0 }),
        *final(player) == Some(spawned_player()),
        *final(floor) is Some,
{
    score.0 = 0;
    *score_text = Some(ScoreText { shown: 0 });
    *player = Some(
        Player {
            x: PLAYER_SPAWN_X,
            y: PLAYER_SPAWN_Y,
            velocity: Velocity { x: 0, y: 0 },
            tilt: Ratio { num: 0, den: TILT_RANGE_MAX - TILT_RANGE_MIN },
            rotation_locked: true,
        },
    );
    *floor = Some(GameComponent);
}

/// The fixed pose the scene camera is anchored at.
pub open spec fn camera_anchor() -> Camera {
    Camera { x: -3000i64, y: 5000i64, z: 10000i64 }
}

/// One-time startup: place the scene camera at its fixed anchor.
pub fn setup_camera(camera: &mut Option<Camera>)
    ensures
        *final(camera) == Some(camera_anchor()),
{
    *camera = Some(Camera { x: -3000, y: 5000, z: 10000 });
}

/// Exit-session teardown: destroy every session-owned entity — the player,
/// all obstacles, the static geometry, and the score label.
pub fn clean_up_previous_game(
    player: &mut Option<Player>,
    obstacles: &mut Vec<Obstacle>,
    floor: &mut Option<GameComponent>,
    score_text: &mut Option<ScoreText>,
)
    ensures
        *final(player) is None,
        final(obstacles)@.len() == 0,
        *final(floor) is None,
        *final(score_text) is None,
{
    *player = None;
    obstacles.clear();
    *floor = None;
    *score_text = None;
}

} // verus!
