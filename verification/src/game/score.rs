//! The score, and the facts a frame reports to whoever draws and plays sound.

use vstd::prelude::*;
use vstd::string::StringExecFns;

use crate::address::{decimal, push_decimal};

verus! {

/// The number of stars collected in the current game.
#[derive(Debug, Clone, Copy, PartialEq, Eq, Structural)]
pub struct Score {
    pub value: u64,
}

impl Default for Score {
    fn default() -> (score: Score)
        ensures
            score.value == 0,
    {
        Score { value: 0 }
    }
}

impl Score {
    /// Counts one more star.
    pub fn increment(&mut self)
        requires
            old(self).value < u64::MAX,
        ensures
            final(self).value == old(self).value + 1,
    {
        self.value = self.value + 1;
    }

    /// Starts counting afresh.
    pub fn reset(&mut self)
        ensures
            final(self).value == 0,
    {
        self.value = 0;
    }
}

/// The record of a lost game.
#[derive(Debug, Clone, Copy, PartialEq, Eq, Structural)]
pub struct GameOver {
    pub final_score: u64,
}

/// The line that shows a score: `Score: ` and the value in decimal.
pub open spec fn score_line_spec(value: u64) -> Seq<char> {
    "Score: "@ + decimal(value as nat)
}

/// The line that announces the end of a run and its final score.
pub open spec fn game_over_line_spec(final_score: u64) -> Seq<char> {
    "Game Over. Final score is "@ + decimal(final_score as nat)
}

/// The line to show when the score has changed.
pub fn update_score(score: &Score) -> (line: String)
    ensures
        line@ == score_line_spec(score.value),
{
    let mut line = String::from_str("Score: ");
    push_decimal(&mut line, score.value);
    line
}

/// The line to show when a run has ended.
pub fn handle_game_over(fact: &GameOver) -> (line: String)
    ensures
        line@ == game_over_line_spec(fact.final_score),
{
    let mut line = String::from_str("Game Over. Final score is ");
    push_decimal(&mut line, fact.final_score);
    line
}

/// Something that happened in a frame and may be shown or heard once.
#[derive(Debug, Clone, Copy, PartialEq, Eq, Structural)]
pub enum Event {
    /// The enemy with this index bounced off an edge.
    Bounce { enemy: usize },
    /// The star with this index was collected.
    Collected { star: usize },
    /// The player was destroyed.
    GameOver(GameOver),
}

} // verus!
