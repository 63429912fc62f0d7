use flappy::consts::{
    GATE_OFFSET_RANGE, LOWER_PIECE_BASE_Y, OBSTACLE_MOVEMENT_SPEED, OBSTACLE_SPAWN_X,
    UPPER_PIECE_BASE_Y,
};
use flappy::entities::{Obstacle, ScoreTrigger};
use flappy::obstacles::{clean, spawn, spawn_with_offset, stop};

fn piece(x: i64, trigger: Option<ScoreTrigger>) -> Obstacle {
    Obstacle { x, y: 0, vx: -4000, half_height: 4000, can_kill: true, score_trigger: trigger }
}

#[test]
fn test_spawn_on_empty_world() {
    let mut obstacles: Vec<Obstacle> = Vec::new();
    spawn(&mut obstacles);
    assert_eq!(obstacles.len(), 2);
    let upper = obstacles[0];
    let lower = obstacles[1];
    // both pieces stand exactly at the spawn boundary, scrolling left
    assert_eq!(upper.x, OBSTACLE_SPAWN_X);
    assert_eq!(lower.x, OBSTACLE_SPAWN_X);
    assert_eq!(upper.vx, OBSTACLE_MOVEMENT_SPEED);
    assert_eq!(lower.vx, OBSTACLE_MOVEMENT_SPEED);
    // the upper piece alone carries the armed score trigger
    assert_eq!(upper.score_trigger, Some(ScoreTrigger(true)));
    assert_eq!(lower.score_trigger, None);
    // both are killable
    assert!(upper.can_kill && lower.can_kill);
    // the random offset was really drawn from [0, 4): both pieces share it
    let offset = upper.y - UPPER_PIECE_BASE_Y;
    assert!((0..GATE_OFFSET_RANGE).contains(&offset));
    assert_eq!(lower.y - LOWER_PIECE_BASE_Y, offset);
}

#[test]
fn test_spawn_with_offset_places_gate() {
    let mut obstacles: Vec<Obstacle> = Vec::new();
    spawn_with_offset(&mut obstacles, 1234);
    assert_eq!(obstacles.len(), 2);
    assert_eq!(obstacles[0].y, UPPER_PIECE_BASE_Y + 1234);
    assert_eq!(obstacles[1].y, LOWER_PIECE_BASE_Y + 1234);
}

#[test]
fn test_no_spawn_while_gate_near_boundary() {
    // a trigger-bearing gate 4 units from the boundary blocks the spawn
    let mut obstacles = vec![piece(4000, Some(ScoreTrigger(true)))];
    spawn_with_offset(&mut obstacles, 0);
    assert_eq!(obstacles.len(), 1);
    // a consumed trigger still marks its gate as the pair's trigger bearer
    let mut scored = vec![piece(6000, Some(ScoreTrigger(false)))];
    spawn_with_offset(&mut scored, 0);
    assert_eq!(scored.len(), 1);
}

#[test]
fn test_spawn_once_gate_drifts_past_spacing() {
    let mut obstacles = vec![piece(3999, Some(ScoreTrigger(true)))];
    spawn_with_offset(&mut obstacles, 500);
    assert_eq!(obstacles.len(), 3);
    assert_eq!(obstacles[1].x, OBSTACLE_SPAWN_X);
    // a piece without a scoring slot does not count as the closest gate
    let mut only_lower = vec![piece(6000, None)];
    spawn_with_offset(&mut only_lower, 500);
    assert_eq!(only_lower.len(), 3);
}

#[test]
fn test_clean_destroys_only_past_threshold() {
    let mut obstacles = vec![
        piece(-8000, None), // exactly at the threshold: kept
        piece(-8001, None), // past it: destroyed
        piece(0, Some(ScoreTrigger(true))),
    ];
    clean(&mut obstacles);
    assert_eq!(obstacles.len(), 2);
    assert_eq!(obstacles[0].x, -8000);
    assert_eq!(obstacles[1].x, 0);
}

#[test]
fn test_stop_freezes_all_pieces() {
    let mut obstacles = vec![piece(2000, Some(ScoreTrigger(true))), piece(-500, None)];
    stop(&mut obstacles);
    assert!(obstacles.iter().all(|o| o.vx == 0));
    // everything else is untouched
    assert_eq!(obstacles[0].x, 2000);
    assert_eq!(obstacles[0].score_trigger, Some(ScoreTrigger(true)));
    assert_eq!(obstacles[1].x, -500);
}
