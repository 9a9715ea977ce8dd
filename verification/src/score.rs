//! The score keeper: a time-survived counter on its own cadence.

use vstd::prelude::*;

verus! {

/// The score singleton: frames survived on the score cadence, never
/// decreasing while alive, frozen from the moment of death.
#[derive(Clone, Copy, PartialEq, Eq, Structural, Debug)]
pub struct Scoreboard {
    pub score: u64,
}

/// What the score keeper asks the display to show after one of its ticks.
#[derive(Clone, Copy, PartialEq, Eq, Structural, Debug)]
pub enum ScoreDisplay {
    /// The run is still going: show "Score: N".
    Running(u64),
    /// The player is dead: show "Final Score: N", frozen.
    Frozen(u64),
}

/// One score-cadence tick as a transition: a no-op before the player has
/// spawned; frozen, with a final display, once dead; otherwise one more
/// point and a running display.
pub open spec fn spec_scoreboard_system(b: Scoreboard, has_spawned: bool, dead: bool) -> (
    Scoreboard,
    Option<ScoreDisplay>,
) {
    if !has_spawned {
        (b, None)
    } else if dead {
        (b, Some(ScoreDisplay::Frozen(b.score)))
    } else {
        let nb = Scoreboard { score: (b.score + 1) as u64 };
        (nb, Some(ScoreDisplay::Running(nb.score)))
    }
}

/// Score system, run once per score-cadence tick. Increments the score by
/// exactly one while the player is alive, leaves it untouched before spawn
/// and after death, and says what the display should show.
pub fn scoreboard_system(board: &mut Scoreboard, has_spawned: bool, dead: bool) -> (d: Option<
    ScoreDisplay,
>)
    requires
        old(board).score < u64::MAX,
    ensures
        (*final(board), d) == spec_scoreboard_system(*old(board), has_spawned, dead),
        !has_spawned ==> *final(board) == *old(board) && d is None,
        has_spawned && dead ==> *final(board) == *old(board) && d == Some(
            ScoreDisplay::Frozen(old(board).score),
        ),
        has_spawned && !dead ==> final(board).score == old(board).score + 1 && d == Some(
            ScoreDisplay::Running(final(board).score),
        ),
        final(board).score >= old(board).score,
{
    if !has_spawned {
        None
    } else if dead {
        Some(ScoreDisplay::Frozen(board.score))
    } else {
        board.score = board.score + 1;
        Some(ScoreDisplay::Running(board.score))
    }
}

} // verus!
