//! The menu and overlay widgets, and click handling.
//!
//! Widget hit-testing and rendering belong to the excluded UI collaborator:
//! it reports which button was clicked this tick, and this module turns the
//! click into a transition request or an exit request.

use vstd::prelude::*;

use crate::entities::{ActionButton, Actions, GameOver, MenuItem, Score, ScoreText};
use crate::state::AppState;

verus! {

/// The menu as it stands while shown: a Start ("Play") button followed by an
/// Exit button.
pub open spec fn is_start_exit_menu(s: Seq<MenuItem>) -> bool {
    s.len() == 2 && s[0].action.0 is Start && s[1].action.0 is Exit
}

/// Destroy every menu widget and any game-over overlay; runs on entering
/// play.
pub fn close_menu(menu_items: &mut Vec<MenuItem>, game_over: &mut Option<GameOver>)
    ensures
        final(menu_items)@.len() == 0,
        *final(game_over) is None,
{
    menu_items.clear();
    *game_over = None;
}

/// Whether this tick's click is a Start click on a shown menu: buttons exist
/// only outside play.
pub open spec fn start_clicked(state: AppState, clicked: Option<ActionButton>) -> bool {
    &&& state !is Playing
    &&& clicked matches Some(b)
    &&& b.0 is Start
}

/// Whether this tick's click is an Exit click on a shown menu.
pub open spec fn exit_clicked(state: AppState, clicked: Option<ActionButton>) -> bool {
    &&& state !is Playing
    &&& clicked matches Some(b)
    &&& b.0 is Exit
}

/// Handle this tick's button click, if any. Buttons exist only while the
/// menu is shown (outside play): Start requests the transition into play,
/// Exit requests that the process stop after this tick.
pub fn menu(
    state: &AppState,
    clicked: Option<ActionButton>,
    pending: &mut Option<AppState>,
    exit_requested: &mut bool,
)
    ensures
        *final(pending) == if start_clicked(*state, clicked) {
            Some(AppState::Playing)
        } else {
            *old(pending)
        },
        *final(exit_requested) == (*old(exit_requested) || exit_clicked(*state, clicked)),
{
    let in_play: bool = match state {
        AppState::Playing => true,
        _ => false,
    };
    if !in_play {
        match clicked {
            Some(b) => match b.0 {
                Actions::Start => {
                    *pending = Some(AppState::restart());
                },
                Actions::Exit => {
                    *exit_requested = true;
                },
            },
            None => {},
        }
    }
}

/// Show the "Game Over" overlay; runs on entering the end state.
pub fn display_game_over(game_over: &mut Option<GameOver>)
    ensures
        *final(game_over) == Some(GameOver),
{
    *game_over = Some(GameOver);
}

/// Show the start/restart menu: a Start ("Play") button and an Exit button,
/// appended in that order.
pub fn setup_menu(menu_items: &mut Vec<MenuItem>)
    ensures
        final(menu_items)@ == old(menu_items)@.push(
            MenuItem { action: ActionButton(Actions::Start) },
        ).push(MenuItem { action: ActionButton(Actions::Exit) }),
        old(menu_items)@.len() == 0 ==> is_start_exit_menu(final(menu_items)@),
{
    menu_items.push(MenuItem { action: ActionButton(Actions::Start) });
    menu_items.push(MenuItem { action: ActionButton(Actions::Exit) });
}

/// Copy the score counter onto the score label, when one exists; between
/// teardown and setup there is none, and nothing happens.
pub fn update_score(score_text: &mut Option<ScoreText>, score: &Score)
    ensures
        *old(score_text) is None ==> *final(score_text) is None,
        *old(score_text) is Some ==> *final(score_text) == Some(ScoreText { shown: score.0 }),
{
    if let Some(t) = score_text {
        t.shown = score.0;
    }
}

} // verus!
