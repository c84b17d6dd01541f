//! What is happening in the current match.

use vstd::prelude::*;

verus! {

/// The phase of a match in progress.
#[derive(Debug, Clone, Copy, PartialEq, Eq, Structural)]
pub enum MatchState {
    Game,
    Replay,
    Overtime,
}

/// The description shown for a match phase.
pub open spec fn match_state_text(s: MatchState) -> Seq<char> {
    match s {
        MatchState::Game => "In game"@,
        MatchState::Replay => "Watching replay"@,
        MatchState::Overtime => "In overtime"@,
    }
}

impl MatchState {
    pub fn as_str(&self) -> (r: &'static str)
        ensures
            r@ == match_state_text(*self),
    {
        match self {
            MatchState::Game => "In game",
            MatchState::Replay => "Watching replay",
            MatchState::Overtime => "In overtime",
        }
    }
}

} // verus!
