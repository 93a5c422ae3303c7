//! The texts Breakout shows over the game.
use vstd::prelude::*;

verus! {

/// How the last game ended.
#[derive(Clone, Copy, Debug, PartialEq, Eq, Structural)]
pub enum GameResult {
    Won,
    Lost,
}

/// The message shown when the game is over.
pub open spec fn spec_game_over_text(result: Option<GameResult>) -> Seq<char> {
    match result {
        Some(GameResult::Won) => "You won!"@,
        Some(GameResult::Lost) => "You lost!"@,
        None => "You managed to end the game without a result... what?"@,
    }
}

/// The message shown when the game is over, for the last result.
pub fn game_over_text(result: Option<GameResult>) -> (text: String)
    ensures
        text@ == spec_game_over_text(result),
{
    match result {
        Some(GameResult::Won) => String::from_str("You won!"),
        Some(GameResult::Lost) => String::from_str("You lost!"),
        None => String::from_str("You managed to end the game without a result... what?"),
    }
}

} // verus!
