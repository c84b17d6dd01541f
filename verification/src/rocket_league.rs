//! Teams and scores of a match.

use vstd::prelude::*;

pub use crate::game::playlist::Playlist;
pub use crate::game::rank::{Division, Rank};
pub use crate::rl_stats_api::Platform;

verus! {

/// One of the two teams of a match.
#[derive(Debug, Clone, Copy, PartialEq, Eq, Hash, Structural)]
pub enum Team {
    Blue,
    Orange,
}

/// The goals each team has scored.
#[derive(Debug, Clone, Copy, PartialEq, Eq, Structural)]
pub struct TeamScores {
    pub blue: u8,
    pub orange: u8,
}

/// The team ahead on goals, if one is.
pub open spec fn leader(s: TeamScores) -> Option<Team> {
    if s.blue > s.orange {
        Some(Team::Blue)
    } else if s.blue < s.orange {
        Some(Team::Orange)
    } else {
        None
    }
}

impl TeamScores {
    /// The team ahead on goals; `None` on a tie.
    pub fn guess_winner(&self) -> (r: Option<Team>)
        ensures
            r == leader(*self),
    {
        if self.blue > self.orange {
            Some(Team::Blue)
        } else if self.blue < self.orange {
            Some(Team::Orange)
        } else {
            None
        }
    }
}

impl Default for TeamScores {
    fn default() -> (r: TeamScores)
        ensures
            r.blue == 0 && r.orange == 0,
    {
        TeamScores { blue: 0, orange: 0 }
    }
}

/// The team ahead on goals is the team that scored more: blue when blue has more goals,
/// orange when orange has more, and no team on a tie.
pub proof fn lemma_leader_scored_more(s: TeamScores)
    ensures
        s.blue > s.orange <==> leader(s) == Some(Team::Blue),
        s.orange > s.blue <==> leader(s) == Some(Team::Orange),
        s.blue == s.orange <==> leader(s) is None,
{
}

/// Swapping the two teams' goals swaps the team ahead.
pub proof fn lemma_leader_swaps(s: TeamScores)
    ensures
        leader(TeamScores { blue: s.orange, orange: s.blue }) == match leader(s) {
            Some(Team::Blue) => Some(Team::Orange),
            Some(Team::Orange) => Some(Team::Blue),
            None => None,
        },
{
}

} // verus!
