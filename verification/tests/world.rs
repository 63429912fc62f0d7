use flappy::consts::{MAX_FLY_SPEED, OBSTACLE_SPAWN_X, PLAYER_SPAWN_X, PLAYER_SPAWN_Y};
use flappy::entities::{ActionButton, Actions, CanKillPlayer, ContactEvent};
use flappy::player::setup_camera;
use flappy::state::AppState;
use flappy::world::{GameWorld, TickInput};

fn quiet(dt_ms: u64) -> TickInput {
    TickInput { dt_ms, lift_just_pressed: false, clicked: None, contacts: Vec::new() }
}

fn click(action: Actions) -> TickInput {
    TickInput {
        dt_ms: 16,
        lift_just_pressed: false,
        clicked: Some(ActionButton(action)),
        contacts: Vec::new(),
    }
}

fn lethal_contact(dt_ms: u64) -> TickInput {
    TickInput {
        dt_ms,
        lift_just_pressed: false,
        clicked: None,
        contacts: vec![ContactEvent { first: Some(CanKillPlayer), second: None }],
    }
}

#[test]
fn test_full_session() {
    // start in the menu
    let mut w = GameWorld::new();
    setup_camera(&mut w.camera);
    assert_eq!(w.state, AppState::Menu);
    assert_eq!(w.menu_items.len(), 2);
    assert!(w.player.is_none());

    // click Start: playing, score 0, player at its spawn position
    w.tick(&click(Actions::Start));
    assert_eq!(w.state, AppState::Playing);
    assert_eq!(w.score.0, 0);
    let p = w.player.unwrap();
    assert_eq!((p.x, p.y), (PLAYER_SPAWN_X, PLAYER_SPAWN_Y));
    assert!(w.menu_items.is_empty());
    assert!(w.game_over.is_none());

    // play a little; a flap caps the vertical speed before gravity acts
    let flap = TickInput {
        dt_ms: 100,
        lift_just_pressed: true,
        clicked: None,
        contacts: Vec::new(),
    };
    w.tick(&flap);
    assert_eq!(w.state, AppState::Playing);
    assert!(w.player.unwrap().velocity.y <= MAX_FLY_SPEED);
    assert!(!w.obstacles.is_empty());

    // a lethal contact ends the session within the same tick
    w.tick(&lethal_contact(16));
    assert_eq!(w.state, AppState::End);
    assert!(w.game_over.is_some());
    assert_eq!(w.menu_items.len(), 2);
    assert!(w.obstacles.iter().all(|o| o.vx == 0));
    assert!(!w.player.unwrap().rotation_locked);

    // while ended, the frame holds perfectly still, however long we wait
    let frozen: Vec<(i64, i64)> = w.obstacles.iter().map(|o| (o.x, o.y)).collect();
    let score_at_death = w.score.0;
    for _ in 0..5 {
        w.tick(&quiet(1000));
        assert_eq!(w.state, AppState::End);
        let now: Vec<(i64, i64)> = w.obstacles.iter().map(|o| (o.x, o.y)).collect();
        assert_eq!(now, frozen);
        assert_eq!(w.score.0, score_at_death);
    }

    // click Start again: a fresh session, prior obstacles gone
    w.tick(&click(Actions::Start));
    assert_eq!(w.state, AppState::Playing);
    assert_eq!(w.score.0, 0);
    assert!(w.obstacles.is_empty());
    assert!(w.game_over.is_none());
    let reborn = w.player.unwrap();
    assert_eq!((reborn.x, reborn.y), (PLAYER_SPAWN_X, PLAYER_SPAWN_Y));
    assert!(reborn.rotation_locked);
}

#[test]
fn test_score_counts_each_gate_once() {
    let mut w = GameWorld::new();
    w.tick(&click(Actions::Start));

    // with one-second ticks a gate scrolls 4 units per tick; the first gate
    // crosses the scoring threshold on the fourth tick and is culled on the
    // sixth, while later gates spawn as the spacing opens up
    let expected_scores = [0u32, 0, 0, 1, 1, 2];
    let expected_counts = [2usize, 2, 4, 4, 6, 4];
    for (tick_number, (&score, &count)) in
        expected_scores.iter().zip(expected_counts.iter()).enumerate()
    {
        w.tick(&quiet(1000));
        assert_eq!(w.score.0, score, "score after tick {}", tick_number + 1);
        assert_eq!(w.obstacles.len(), count, "gate pieces after tick {}", tick_number + 1);
        assert_eq!(w.score_text.unwrap().shown, score);
        assert!(w.obstacles.iter().all(|o| o.x <= OBSTACLE_SPAWN_X));
    }
}

#[test]
fn test_death_stops_scoring_that_tick() {
    let mut w = GameWorld::new();
    w.tick(&click(Actions::Start));
    for _ in 0..3 {
        w.tick(&quiet(1000));
    }
    assert_eq!(w.score.0, 0);
    // the first gate would score on this tick, but the player dies first:
    // a dead player earns no further points in that tick
    w.tick(&lethal_contact(1000));
    assert_eq!(w.state, AppState::End);
    assert_eq!(w.score.0, 0);
}

#[test]
fn test_exit_click_requests_halt() {
    let mut w = GameWorld::new();
    w.tick(&click(Actions::Exit));
    assert!(w.exit_requested);
    assert_eq!(w.state, AppState::Menu);
    // the flag also rises on the game-over menu
    let mut over = GameWorld::new();
    over.tick(&click(Actions::Start));
    over.tick(&lethal_contact(16));
    assert!(!over.exit_requested);
    over.tick(&click(Actions::Exit));
    assert!(over.exit_requested);
    assert_eq!(over.state, AppState::End);
}

#[test]
fn test_menu_tick_is_quiet() {
    let mut w = GameWorld::new();
    w.tick(&quiet(1000));
    assert_eq!(w.state, AppState::Menu);
    assert!(w.player.is_none());
    assert!(w.obstacles.is_empty());
    assert_eq!(w.score.0, 0);
    assert_eq!(w.menu_items.len(), 2);
}

#[test]
fn test_gravity_pulls_player_down() {
    let mut w = GameWorld::new();
    w.tick(&click(Actions::Start));
    let y0 = w.player.unwrap().y;
    w.tick(&quiet(250));
    let p = w.player.unwrap();
    assert!(p.y < y0);
    assert!(p.velocity.y < 0);
    // the nose points down while falling
    assert!(p.tilt.num < 0);
}
