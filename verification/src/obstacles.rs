//! The obstacle manager: distance-gated gate spawning, off-screen cleanup,
//! and the end-of-session freeze.
//!
//! Spawning is gated on spatial distance, not on a timer: a new gate appears
//! only once the closest trigger-bearing gate has drifted further than
//! [`OBSTACLE_DISTANCE`] from the spawn boundary, which guarantees a constant
//! minimum gap between consecutive gates regardless of frame-rate variance.

use vstd::prelude::*;

use rand::Rng;

use crate::consts::{
    GATE_OFFSET_RANGE, LOWER_PIECE_BASE_Y, LOWER_PIECE_HALF_HEIGHT, OBSTACLE_CLEANUP_X,
    OBSTACLE_DISTANCE, OBSTACLE_MOVEMENT_SPEED, OBSTACLE_SPAWN_X, POSITION_LIMIT,
    UPPER_PIECE_BASE_Y, UPPER_PIECE_HALF_HEIGHT,
};
use crate::entities::{trigger_bearing, Obstacle, ScoreTrigger};

verus! {

/// The obstacles surviving a cleanup pass: exactly those whose x has not
/// fallen below the cleanup threshold, in their original order.
pub open spec fn retained(s: Seq<Obstacle>) -> Seq<Obstacle>
    decreases s.len(),
{
    if s.len() == 0 {
        Seq::empty()
    } else {
        let rest = retained(s.drop_last());
        if s.last().x < OBSTACLE_CLEANUP_X {
            rest
        } else {
            rest.push(s.last())
        }
    }
}

proof fn lemma_retained_take_step(s: Seq<Obstacle>, i: int)
    requires
        0 <= i < s.len(),
    ensures
        retained(s.take(i + 1)) == if s[i].x < OBSTACLE_CLEANUP_X {
            retained(s.take(i))
        } else {
            retained(s.take(i)).push(s[i])
        },
{
    assert(s.take(i + 1).drop_last() =~= s.take(i));
    assert(s.take(i + 1).last() == s[i]);
}

/// Cleanup destroys a gate exactly when its x has fallen below the cleanup
/// threshold: every survivor is at or above the threshold and was present
/// before, every piece at or above the threshold survives, and a destroyed
/// piece is gone — so it can never be scored afterwards.
pub proof fn lemma_cleanup_exact(s: Seq<Obstacle>)
    ensures
        forall|o: Obstacle|
            #[trigger] retained(s).contains(o) ==> o.x >= OBSTACLE_CLEANUP_X && s.contains(o),
        forall|o: Obstacle|
            #[trigger] s.contains(o) && o.x >= OBSTACLE_CLEANUP_X ==> retained(s).contains(o),
    decreases s.len(),
{
    if s.len() == 0 {
    } else {
        let butlast = s.drop_last();
        lemma_cleanup_exact(butlast);
        assert forall|o: Obstacle| #[trigger] s.contains(o) && o.x >= OBSTACLE_CLEANUP_X
            implies retained(s).contains(o) by {
            let j = choose|j: int| 0 <= j < s.len() && s[j] == o;
            if j < butlast.len() {
                assert(butlast[j] == o);
                assert(butlast.contains(o));
                let k = choose|k: int| 0 <= k < retained(butlast).len() && retained(butlast)[k] == o;
                if s.last().x < OBSTACLE_CLEANUP_X {
                    assert(retained(s)[k] == o);
                } else {
                    assert(retained(s)[k] == o);
                }
            } else {
                assert(o == s.last());
                assert(retained(s).last() == o);
            }
        }
        assert forall|o: Obstacle| #[trigger] retained(s).contains(o)
            implies o.x >= OBSTACLE_CLEANUP_X && s.contains(o) by {
            let k = choose|k: int| 0 <= k < retained(s).len() && retained(s)[k] == o;
            if s.last().x < OBSTACLE_CLEANUP_X {
                assert(retained(butlast)[k] == o);
                assert(retained(butlast).contains(o));
                let j = choose|j: int| 0 <= j < butlast.len() && butlast[j] == o;
                assert(s[j] == o);
            } else {
                if k < retained(butlast).len() {
                    assert(retained(butlast)[k] == o);
                    assert(retained(butlast).contains(o));
                    let j = choose|j: int| 0 <= j < butlast.len() && butlast[j] == o;
                    assert(s[j] == o);
                } else {
                    assert(o == s.last());
                    assert(s[s.len() - 1] == o);
                }
            }
        }
    }
}

/// Destroy every obstacle whose x has fallen below the cleanup threshold — a
/// bounded-memory guarantee: the live count stays bounded by the on-screen
/// span over one gate spacing.
pub fn clean(obstacles: &mut Vec<Obstacle>)
    ensures
        final(obstacles)@ == retained(old(obstacles)@),
{
    let ghost s0 = obstacles@;
    let mut out: Vec<Obstacle> = Vec::new();
    let mut i: usize = 0;
    while i < obstacles.len()
        invariant
            i <= s0.len(),
            obstacles@ == s0,
            out@ == retained(s0.take(i as int)),
        decreases s0.len() - i,
    {
        proof {
            lemma_retained_take_step(s0, i as int);
        }
        let o = obstacles[i];
        if o.x >= OBSTACLE_CLEANUP_X {
            out.push(o);
        }
        i = i + 1;
    }
    proof {
        assert(s0.take(s0.len() as int) =~= s0);
    }
    *obstacles = out;
}

/// The x of the closest (largest-x) trigger-bearing gate, or `None` when no
/// gate carries a scoring slot.
pub open spec fn closest_trigger_x(s: Seq<Obstacle>) -> Option<int>
    decreases s.len(),
{
    if s.len() == 0 {
        None
    } else {
        let rest = closest_trigger_x(s.drop_last());
        if !trigger_bearing(s.last()) {
            rest
        } else {
            match rest {
                None => Some(s.last().x as int),
                Some(m) => Some(
                    if m >= s.last().x {
                        m
                    } else {
                        s.last().x as int
                    },
                ),
            }
        }
    }
}

/// `closest_trigger_x` really is the maximum: it is `None` exactly when no
/// gate bears a trigger, and otherwise it is the x of some trigger-bearing
/// gate and at least the x of every one.
pub proof fn lemma_closest_is_max(s: Seq<Obstacle>)
    ensures
        closest_trigger_x(s) is None ==> forall|j: int|
            0 <= j < s.len() ==> !trigger_bearing(#[trigger] s[j]),
        closest_trigger_x(s) matches Some(m) ==> (exists|j: int|
            0 <= j < s.len() && trigger_bearing(#[trigger] s[j]) && s[j].x == m) && (forall|j: int|
            0 <= j < s.len() && trigger_bearing(#[trigger] s[j]) ==> s[j].x <= m),
    decreases s.len(),
{
    if s.len() == 0 {
    } else {
        lemma_closest_is_max(s.drop_last());
        assert(forall|j: int| 0 <= j < s.len() - 1 ==> s.drop_last()[j] == #[trigger] s[j]);
        match closest_trigger_x(s) {
            None => {},
            Some(m) => {
                if trigger_bearing(s.last()) && s.last().x == m {
                    assert(trigger_bearing(s[s.len() - 1]) && s[s.len() - 1].x == m);
                } else {
                    let j = choose|j: int|
                        0 <= j < s.drop_last().len() && trigger_bearing(
                            #[trigger] s.drop_last()[j],
                        ) && s.drop_last()[j].x == m;
                    assert(trigger_bearing(s[j]) && s[j].x == m);
                }
            },
        }
    }
}

/// Whether a new gate may spawn: only once the closest trigger-bearing gate
/// has drifted further than one gate spacing from the spawn boundary (or no
/// such gate exists at all).
pub open spec fn should_spawn(s: Seq<Obstacle>) -> bool {
    match closest_trigger_x(s) {
        None => true,
        Some(m) => (if m >= OBSTACLE_SPAWN_X {
            m - OBSTACLE_SPAWN_X
        } else {
            OBSTACLE_SPAWN_X - m
        }) > OBSTACLE_DISTANCE,
    }
}

/// The spawn invariant: while some trigger-bearing gate is within one gate
/// spacing of the spawn boundary (and no gate ever stands right of it), no
/// spawn happens.
pub proof fn lemma_no_spawn_near_gate(s: Seq<Obstacle>, j: int)
    requires
        forall|k: int| 0 <= k < s.len() ==> #[trigger] s[k].x <= OBSTACLE_SPAWN_X,
        0 <= j < s.len(),
        trigger_bearing(s[j]),
        OBSTACLE_SPAWN_X - s[j].x <= OBSTACLE_DISTANCE,
    ensures
        !should_spawn(s),
{
    lemma_closest_is_max(s);
}

/// A freshly spawned upper piece: at the spawn boundary, raised by the
/// gate's shared offset, scrolling left, killable, and carrying that gate's
/// armed score trigger.
pub open spec fn new_upper_piece(off: int) -> Obstacle {
    Obstacle {
        x: OBSTACLE_SPAWN_X,
        y: (UPPER_PIECE_BASE_Y + off) as i64,
        vx: OBSTACLE_MOVEMENT_SPEED,
        half_height: UPPER_PIECE_HALF_HEIGHT,
        can_kill: true,
        score_trigger: Some(ScoreTrigger(true)),
    }
}

/// A freshly spawned lower piece: at the spawn boundary, raised by the same
/// shared offset so the gap stays contiguous, scrolling left, killable,
/// without a scoring slot.
pub open spec fn new_lower_piece(off: int) -> Obstacle {
    Obstacle {
        x: OBSTACLE_SPAWN_X,
        y: (LOWER_PIECE_BASE_Y + off) as i64,
        vx: OBSTACLE_MOVEMENT_SPEED,
        half_height: LOWER_PIECE_HALF_HEIGHT,
        can_kill: true,
        score_trigger: None,
    }
}

/// Relies on rand::Rng::gen_range (with rand::thread_rng): a sample from the
/// non-empty range `0..GATE_OFFSET_RANGE` lies in `[0, GATE_OFFSET_RANGE)`,
/// and only an empty range would make the call panic.
#[verifier::external_body]
fn random_gate_offset() -> (r: i64)
    ensures
        0 <= r < GATE_OFFSET_RANGE,
{
    rand::thread_rng().gen_range(0..GATE_OFFSET_RANGE)
}

fn closest_trigger(obstacles: &Vec<Obstacle>) -> (r: Option<i64>)
    ensures
        r is None <==> closest_trigger_x(obstacles@) is None,
        r matches Some(v) ==> closest_trigger_x(obstacles@) == Some(v as int),
{
    let ghost s0 = obstacles@;
    let mut r: Option<i64> = None;
    let mut i: usize = 0;
    while i < obstacles.len()
        invariant
            i <= s0.len(),
            obstacles@ == s0,
            r is None <==> closest_trigger_x(s0.take(i as int)) is None,
            r matches Some(v) ==> closest_trigger_x(s0.take(i as int)) == Some(v as int),
        decreases s0.len() - i,
    {
        proof {
            assert(s0.take(i + 1).drop_last() =~= s0.take(i as int));
            assert(s0.take(i + 1).last() == s0[i as int]);
        }
        let o = obstacles[i];
        if o.score_trigger.is_some() {
            r = match r {
                None => Some(o.x),
                Some(m) => Some(
                    if m >= o.x {
                        m
                    } else {
                        o.x
                    },
                ),
            };
        }
        i = i + 1;
    }
    proof {
        assert(s0.take(s0.len() as int) =~= s0);
    }
    r
}

/// Spawn one gate (an upper and a lower piece sharing `offset`) exactly when
/// the distance gate allows it. The deterministic core of [`spawn`]: it takes
/// a gate's vertical offset as an argument, so each outcome of the random
/// draw is covered.
pub fn spawn_with_offset(obstacles: &mut Vec<Obstacle>, offset: i64)
    requires
        0 <= offset < GATE_OFFSET_RANGE,
        forall|k: int|
            0 <= k < old(obstacles)@.len() ==> -POSITION_LIMIT <= (#[trigger] old(
                obstacles,
            )@[k]).x <= POSITION_LIMIT,
    ensures
        !should_spawn(old(obstacles)@) ==> final(obstacles)@ == old(obstacles)@,
        should_spawn(old(obstacles)@) ==> final(obstacles)@ == old(obstacles)@.push(
            new_upper_piece(offset as int),
        ).push(new_lower_piece(offset as int)),
{
    proof {
        lemma_closest_is_max(obstacles@);
    }
    let close = closest_trigger(obstacles);
    let spawn_now: bool = match close {
        None => true,
        Some(m) => {
            let d: i64 = if m >= OBSTACLE_SPAWN_X {
                m - OBSTACLE_SPAWN_X
            } else {
                OBSTACLE_SPAWN_X - m
            };
            d > OBSTACLE_DISTANCE
        },
    };
    if spawn_now {
        obstacles.push(
            Obstacle {
                x: OBSTACLE_SPAWN_X,
                y: UPPER_PIECE_BASE_Y + offset,
                vx: OBSTACLE_MOVEMENT_SPEED,
                half_height: UPPER_PIECE_HALF_HEIGHT,
                can_kill: true,
                score_trigger: Some(ScoreTrigger(true)),
            },
        );
        obstacles.push(
            Obstacle {
                x: OBSTACLE_SPAWN_X,
                y: LOWER_PIECE_BASE_Y + offset,
                vx: OBSTACLE_MOVEMENT_SPEED,
                half_height: LOWER_PIECE_HALF_HEIGHT,
                can_kill: true,
                score_trigger: None,
            },
        );
    }
}

/// Spawn a gate with a fresh uniformly drawn vertical offset when the
/// distance gate allows it; otherwise leave the gates untouched. Both new
/// pieces stand exactly at the spawn boundary and share one offset drawn
/// from `[0, GATE_OFFSET_RANGE)`.
pub fn spawn(obstacles: &mut Vec<Obstacle>)
    requires
        forall|k: int|
            0 <= k < old(obstacles)@.len() ==> -POSITION_LIMIT <= (#[trigger] old(
                obstacles,
            )@[k]).x <= POSITION_LIMIT,
    ensures
        !should_spawn(old(obstacles)@) ==> final(obstacles)@ == old(obstacles)@,
        should_spawn(old(obstacles)@) ==> exists|off: int|
            0 <= off < GATE_OFFSET_RANGE && final(obstacles)@ == old(obstacles)@.push(
                #[trigger] new_upper_piece(off),
            ).push(new_lower_piece(off)),
{
    let offset = random_gate_offset();
    spawn_with_offset(obstacles, offset);
    proof {
        if should_spawn(old(obstacles)@) {
            assert(obstacles@ == old(obstacles)@.push(new_upper_piece(offset as int)).push(
                new_lower_piece(offset as int),
            ));
        }
    }
}

/// An obstacle piece with its scroll frozen.
pub open spec fn stopped(o: Obstacle) -> Obstacle {
    Obstacle { vx: 0i64, ..o }
}

/// On entering the end state, freeze every live obstacle's horizontal
/// velocity to zero: the frame holds still instead of despawning.
pub fn stop(obstacles: &mut Vec<Obstacle>)
    ensures
        final(obstacles)@.len() == old(obstacles)@.len(),
        forall|i: int|
            0 <= i < old(obstacles)@.len() ==> final(obstacles)@[i] == stopped(old(obstacles)@[i]),
{
    let ghost s0 = obstacles@;
    let mut i: usize = 0;
    while i < obstacles.len()
        invariant
            i <= s0.len(),
            obstacles@.len() == s0.len(),
            forall|j: int| 0 <= j < i ==> obstacles@[j] == stopped(s0[j]),
            forall|j: int| i <= j < s0.len() ==> obstacles@[j] == s0[j],
        decreases s0.len() - i,
    {
        let mut o = obstacles[i];
        o.vx = 0;
        obstacles.set(i, o);
        i = i + 1;
    }
}

} // verus!
