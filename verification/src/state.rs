//! The game lifecycle machine and the decoration entities tied to single
//! states. `Paused` is part of the state space but no documented transition
//! produces it: it is reserved, and a tick in it changes nothing.

use vstd::prelude::*;

verus! {

/// The four lifecycle states. Transitions follow the documented edges only:
/// Start to Playing on a click, Playing to GameOver on a collision, and
/// GameOver back to Start on a click (with a full reset on the way out).
#[derive(Debug, Clone, Copy, Eq, PartialEq, Hash, Structural)]
pub enum GameState {
    Start,
    Playing,
    Paused,
    GameOver,
}

/// A decoration entity that lives only while one state is active: the
/// get-ready banner and tap hints of the Start screen, and the game-over
/// banner. Presentation draws them; the simulation only tracks which exist.
#[derive(Debug, Clone, Copy, Eq, PartialEq, Structural)]
pub enum Banner {
    GetReady,
    TapLeft,
    TapRight,
    GameOverText,
}

/// Requesting a transition outside the documented edge set is a logic
/// error, surfaced to the caller rather than silently applied.
#[derive(Debug, Clone, Copy, Eq, PartialEq, Structural)]
pub enum StateError {
    InvalidTransition,
}

/// The documented transition edges.
pub open spec fn edge_allowed(from: GameState, to: GameState) -> bool {
    ||| (from == GameState::Start && to == GameState::Playing)
    ||| (from == GameState::Playing && to == GameState::GameOver)
    ||| (from == GameState::GameOver && to == GameState::Start)
}

/// Validates a requested transition: the new state exactly when the edge is
/// documented, and an error otherwise.
pub fn transition(from: GameState, to: GameState) -> (r: Result<GameState, StateError>)
    ensures
        edge_allowed(from, to) ==> r == Result::<GameState, StateError>::Ok(to),
        !edge_allowed(from, to) ==> r == Result::<GameState, StateError>::Err(
            StateError::InvalidTransition,
        ),
{
    match (from, to) {
        (GameState::Start, GameState::Playing) => Ok(to),
        (GameState::Playing, GameState::GameOver) => Ok(to),
        (GameState::GameOver, GameState::Start) => Ok(to),
        _ => Err(StateError::InvalidTransition),
    }
}

/// Where a primary click drives the machine from a waiting state: from
/// GameOver back to Start, from Start into Playing.
pub open spec fn click_target_spec(s: GameState) -> GameState {
    match s {
        GameState::GameOver => GameState::Start,
        _ => GameState::Playing,
    }
}

/// Edge-triggered click handling for the waiting states: on a click the
/// machine moves to the click target and reports that it moved, so the
/// caller runs the state's exit work; the transition consumes the click.
pub fn wait_for_click(state: &mut GameState, clicked: bool) -> (moved: bool)
    ensures
        clicked ==> moved && *final(state) == click_target_spec(*old(state)),
        !clicked ==> !moved && *final(state) == *old(state),
{
    if clicked {
        *state = match *state {
            GameState::GameOver => GameState::Start,
            _ => GameState::Playing,
        };
        true
    } else {
        false
    }
}

/// The decorations spawned on entering Start: the get-ready banner and the
/// two tap hints.
pub fn setup_start(banners: &mut Vec<Banner>)
    ensures
        final(banners)@ == old(banners)@ + seq![
            Banner::GetReady,
            Banner::TapLeft,
            Banner::TapRight,
        ],
{
    banners.push(Banner::GetReady);
    banners.push(Banner::TapLeft);
    banners.push(Banner::TapRight);
    proof {
        assert(banners@ =~= old(banners)@ + seq![
            Banner::GetReady,
            Banner::TapLeft,
            Banner::TapRight,
        ]);
    }
}

/// The decoration spawned on entering GameOver.
pub fn setup_game_over(banners: &mut Vec<Banner>)
    ensures
        final(banners)@ == old(banners)@.push(Banner::GameOverText),
{
    banners.push(Banner::GameOverText);
}

/// On leaving a state, every decoration tied to it is despawned. The
/// simulation keeps no decoration across a transition, so this clears the
/// whole list.
pub fn state_cleanup_system(banners: &mut Vec<Banner>)
    ensures
        final(banners)@ == Seq::<Banner>::empty(),
{
    banners.clear();
    proof {
        assert(banners@ =~= Seq::<Banner>::empty());
    }
}

} // verus!
