//! The coarse state a game scene can be in, and the pure decisions that move
//! between states.

use vstd::prelude::*;

verus! {

/// Scene-level game state. `Future` is the transient state while a
/// resolution is being shown; `End` is reached when no level is left.
#[derive(Debug, Clone, Copy, PartialEq, Eq, Hash, Structural)]
pub enum GameState {
    Running,
    Win,
    Lost,
    Future,
    End,
}

/// The state a scene moves to after trying to advance past a won level:
/// back to `Running` when another level was available, `End` otherwise.
pub fn state_after_advance(advanced: bool) -> (s: GameState)
    ensures
        s == (if advanced { GameState::Running } else { GameState::End }),
{
    if advanced {
        GameState::Running
    } else {
        GameState::End
    }
}

} // verus!
