use flappy::consts::{CEILING_PUSHBACK_VY, MAX_FLY_SPEED, PLAYER_SPAWN_X, PLAYER_SPAWN_Y};
use flappy::entities::{
    CanKillPlayer, ContactEvent, Obstacle, Player, Ratio, Score, ScoreTrigger, Velocity,
};
use flappy::player::{
    clamp_player_y, clean_up_previous_game, count_score, fly, lerp, player_death, rotate_player_body,
    setup_camera, setup_game,
};
use flappy::state::AppState;

fn some_player(vy: i64) -> Player {
    Player {
        x: PLAYER_SPAWN_X,
        y: PLAYER_SPAWN_Y,
        velocity: Velocity { x: 0, y: vy },
        tilt: Ratio { num: 0, den: 6000 },
        rotation_locked: true,
    }
}

fn gate_piece(x: i64, trigger: Option<ScoreTrigger>) -> Obstacle {
    Obstacle { x, y: 0, vx: -4000, half_height: 4000, can_kill: true, score_trigger: trigger }
}

#[test]
fn test_lerp() {
    let a = lerp(-3, 3, 0);
    assert!(a.num as f32 / a.den as f32 - 0.5 < f32::EPSILON);
    let b = lerp(0, 30, 6);
    assert!(b.num as f32 / b.den as f32 - 0.2 < f32::EPSILON);
}

#[test]
fn test_lerp_exact_fractions() {
    // lerp(min, max, min) == 0 and lerp(min, max, max) == 1
    let at_min = lerp(-3, 3, -3);
    assert_eq!(at_min.num, 0);
    let at_max = lerp(-3, 3, 3);
    assert_eq!(at_max.num, at_max.den);
    // lerp(-3, 3, 0) == 1/2 and lerp(0, 30, 6) == 1/5, exactly
    let half = lerp(-3, 3, 0);
    assert_eq!(2 * half.num, half.den);
    let fifth = lerp(0, 30, 6);
    assert_eq!(5 * fifth.num, fifth.den);
    // linear in between: equal steps of the value move the numerator equally
    let q1 = lerp(0, 30, 6);
    let q2 = lerp(0, 30, 12);
    let q3 = lerp(0, 30, 18);
    assert_eq!(q2.num - q1.num, q3.num - q2.num);
    // unclamped: values outside [min, max] give fractions outside [0, 1]
    let over = lerp(0, 30, 45);
    assert!(over.num > over.den);
    let under = lerp(0, 30, -3);
    assert!(under.num < 0);
}

#[test]
fn test_fly_clamps_impulse() {
    // from vy = -5: min(3.8, max(-5, 0) + 8) = 3.8 (clamped), not 3
    let mut player = Some(some_player(-5000));
    fly(&mut player, true);
    assert_eq!(player.unwrap().velocity.y, MAX_FLY_SPEED);
}

#[test]
fn test_fly_needs_fresh_press() {
    let mut player = Some(some_player(-5000));
    fly(&mut player, false);
    assert_eq!(player.unwrap().velocity.y, -5000);
}

#[test]
fn test_fly_without_player_is_noop() {
    let mut player: Option<Player> = None;
    fly(&mut player, true);
    assert!(player.is_none());
}

#[test]
fn test_clamp_player_y_above_ceiling() {
    let mut player = Some(Player { y: 7001, ..some_player(2000) });
    clamp_player_y(&mut player);
    assert_eq!(player.unwrap().velocity.y, CEILING_PUSHBACK_VY);
}

#[test]
fn test_clamp_player_y_below_ceiling() {
    let mut player = Some(Player { y: 7000, ..some_player(2000) });
    clamp_player_y(&mut player);
    assert_eq!(player.unwrap().velocity.y, 2000);
}

#[test]
fn test_rotate_player_body_tilt() {
    // level at vy = 0; at vy = 1.5 the tilt fraction is exactly 1/2
    let mut level = Some(some_player(0));
    rotate_player_body(&mut level);
    assert_eq!(level.unwrap().tilt.num, 0);
    let mut rising = Some(some_player(1500));
    rotate_player_body(&mut rising);
    let tilt = rising.unwrap().tilt;
    assert_eq!(2 * tilt.num, tilt.den);
    let mut falling = Some(some_player(-1500));
    rotate_player_body(&mut falling);
    assert_eq!(2 * falling.unwrap().tilt.num, -tilt.den);
}

#[test]
fn test_count_score_increments_once() {
    let mut obstacles = vec![
        gate_piece(-2501, Some(ScoreTrigger(true))), // armed and crossed: scores
        gate_piece(-2500, Some(ScoreTrigger(true))), // exactly at threshold: not yet
        gate_piece(-3000, Some(ScoreTrigger(false))), // already consumed: never again
        gate_piece(-3000, None),                     // no scoring slot
    ];
    let mut score = Score(0);
    count_score(&mut obstacles, &mut score);
    assert_eq!(score.0, 1);
    assert_eq!(obstacles[0].score_trigger, Some(ScoreTrigger(false)));
    assert_eq!(obstacles[1].score_trigger, Some(ScoreTrigger(true)));
    // a second pass over the same positions adds nothing
    count_score(&mut obstacles, &mut score);
    assert_eq!(score.0, 1);
}

#[test]
fn test_player_death_on_lethal_contact() {
    let contacts = vec![ContactEvent { first: Some(CanKillPlayer), second: None }];
    let mut player = Some(some_player(0));
    let mut pending: Option<AppState> = None;
    player_death(&contacts, &mut player, &mut pending);
    assert_eq!(pending, Some(AppState::End));
    assert!(!player.unwrap().rotation_locked);
}

#[test]
fn test_player_death_ignores_harmless_contact() {
    let contacts = vec![ContactEvent { first: None, second: None }];
    let mut player = Some(some_player(0));
    let mut pending: Option<AppState> = None;
    player_death(&contacts, &mut player, &mut pending);
    assert_eq!(pending, None);
    assert!(player.unwrap().rotation_locked);
}

#[test]
fn test_player_death_idempotent_requests() {
    let contacts = vec![
        ContactEvent { first: Some(CanKillPlayer), second: None },
        ContactEvent { first: None, second: Some(CanKillPlayer) },
    ];
    let mut player = Some(some_player(0));
    let mut pending: Option<AppState> = None;
    player_death(&contacts, &mut player, &mut pending);
    assert_eq!(pending, Some(AppState::End));
}

#[test]
fn test_player_death_without_player_is_noop() {
    let contacts = vec![ContactEvent { first: Some(CanKillPlayer), second: None }];
    let mut player: Option<Player> = None;
    let mut pending: Option<AppState> = None;
    player_death(&contacts, &mut player, &mut pending);
    assert_eq!(pending, Some(AppState::End));
    assert!(player.is_none());
}

#[test]
fn test_setup_game_resets_session() {
    let mut score = Score(42);
    let mut score_text = None;
    let mut player = None;
    let mut floor = None;
    setup_game(&mut score, &mut score_text, &mut player, &mut floor);
    assert_eq!(score.0, 0);
    assert_eq!(score_text.unwrap().shown, 0);
    let p = player.unwrap();
    assert_eq!((p.x, p.y), (PLAYER_SPAWN_X, PLAYER_SPAWN_Y));
    assert_eq!((p.velocity.x, p.velocity.y), (0, 0));
    assert!(p.rotation_locked);
    assert!(floor.is_some());
}

#[test]
fn test_clean_up_previous_game() {
    let mut score = Score(3);
    let mut score_text = None;
    let mut player = None;
    let mut floor = None;
    setup_game(&mut score, &mut score_text, &mut player, &mut floor);
    let mut obstacles = vec![gate_piece(0, None)];
    clean_up_previous_game(&mut player, &mut obstacles, &mut floor, &mut score_text);
    assert!(player.is_none());
    assert!(obstacles.is_empty());
    assert!(floor.is_none());
    assert!(score_text.is_none());
}

#[test]
fn test_setup_camera() {
    let mut camera = None;
    setup_camera(&mut camera);
    let c = camera.unwrap();
    assert_eq!((c.x, c.y, c.z), (-3000, 5000, 10000));
}
