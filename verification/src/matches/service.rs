//! The match tracker: how each stats feed event changes the current match and the history.

use std::time::SystemTime;
use vstd::prelude::*;

use crate::common::clock::now;
use crate::matches::match_info::{
    fresh_players, is_stripped_of, local_view, match_player_views, reported_team, updated_players, updated_team,
    MatchInfo, MatchOverInfo, MatchPlayer, StrippedMatchInfo,
};
use crate::rocket_league::{leader, Playlist, Team};
use crate::stats_api::{player_views, PlayerView, RLEvent, TeamScores};

verus! {

/// A match of the history: one played while the app was open, or one kept from an
/// earlier run.
#[derive(Debug, Clone)]
pub enum MatchType {
    Session(MatchInfo),
    Old(StrippedMatchInfo),
}

impl MatchType {
    pub fn playlist(&self) -> (r: Playlist)
        ensures
            r == match self {
                MatchType::Old(o) => o.playlist,
                MatchType::Session(s) => s.playlist,
            },
    {
        match self {
            Self::Old(o) => o.playlist,
            Self::Session(s) => s.playlist,
        }
    }

    pub fn started_at(&self) -> (r: SystemTime)
        ensures
            r == match self {
                MatchType::Old(o) => o.start_time,
                MatchType::Session(s) => s.started_at,
            },
    {
        match self {
            Self::Old(o) => o.start_time,
            Self::Session(s) => s.started_at,
        }
    }

    pub fn score(&self) -> (r: &TeamScores)
        ensures
            *r == match self {
                MatchType::Old(o) => o.score,
                MatchType::Session(s) => s.score,
            },
    {
        match self {
            Self::Old(o) => &o.score,
            Self::Session(s) => &s.score,
        }
    }

    pub fn our_team(&self) -> (r: Team)
        ensures
            r == match_our_team(*self),
    {
        match self {
            Self::Old(o) => o.our_team(),
            Self::Session(s) => s.our_team,
        }
    }

    pub fn is_over(&self) -> (r: bool)
        ensures
            r == match self {
                MatchType::Old(_) => true,
                MatchType::Session(s) => s.finish is Some,
            },
    {
        match self {
            Self::Old(_) => true,
            Self::Session(s) => s.finish.is_some(),
        }
    }

    pub fn player_qty(&self) -> (r: usize)
        ensures
            r == match self {
                MatchType::Old(o) => o.players@.len(),
                MatchType::Session(s) => s.players@.len(),
            },
    {
        match self {
            Self::Old(o) => o.players.len(),
            Self::Session(s) => s.players.len(),
        }
    }
}

/// The local player's team in a match of the history.
pub open spec fn match_our_team(m: MatchType) -> Team {
    match m {
        MatchType::Old(o) => crate::matches::match_info::stripped_local_team(o.players@),
        MatchType::Session(s) => s.our_team,
    }
}

/// The current match and the history.
#[derive(Debug, Clone)]
pub struct MatchesServiceState {
    pub current_match: Option<MatchInfo>,
    pub prev_matches: Vec<MatchType>,
}

/// What the app has to do after an event was taken in.
#[derive(Debug)]
pub struct MatchEventOutcome {
    /// Whether further queued events may be taken in now (some events end the batch).
    pub keep_going: bool,
    /// Whether the views should be redrawn.
    pub repaint: bool,
    /// The player ids whose cached ranks are stale.
    pub invalidate_ranks_for: Vec<String>,
    /// Whether the current match's players need their lookups refreshed.
    pub refresh_lookups: bool,
}

/// The texts of a list of strings.
pub open spec fn string_views(s: Seq<String>) -> Seq<Seq<char>> {
    s.map_values(|x: String| x@)
}

/// The ids of a match's players.
pub open spec fn ids_of(players: Seq<MatchPlayer>) -> Seq<Seq<char>> {
    players.map_values(|p: MatchPlayer| p.data.platform_id@)
}

fn outcome(keep_going: bool, repaint: bool, refresh_lookups: bool) -> (r: MatchEventOutcome)
    ensures
        r.keep_going == keep_going,
        r.repaint == repaint,
        r.refresh_lookups == refresh_lookups,
        r.invalidate_ranks_for@.len() == 0,
{
    MatchEventOutcome { keep_going, repaint, invalidate_ranks_for: Vec::new(), refresh_lookups }
}

/// The ids of a match's players, in order.
fn player_ids(players: &Vec<MatchPlayer>) -> (r: Vec<String>)
    ensures
        string_views(r@) == ids_of(players@),
{
    let mut out: Vec<String> = Vec::new();
    let mut i: usize = 0;
    while i < players.len()
        invariant
            i <= players@.len(),
            string_views(out@) == ids_of(players@.take(i as int)),
        decreases players@.len() - i,
    {
        let ghost before = out@;
        let id = players[i].data.platform_id.clone();
        assert(id@ == players@[i as int].data.platform_id@);
        out.push(id);
        assert(out@ =~= before.push(id));
        assert(players@.take((i + 1) as int) =~= players@.take(i as int).push(players@[i as int]));
        assert(string_views(out@) =~= string_views(before).push(id@));
        assert(ids_of(players@.take((i + 1) as int)) =~= ids_of(players@.take(i as int)).push(
            players@[i as int].data.platform_id@,
        ));
        assert(string_views(out@) =~= ids_of(players@.take((i + 1) as int)));
        i = i + 1;
    }
    assert(players@.take(players@.len() as int) =~= players@);
    out
}

impl MatchesServiceState {
    /// The state at start-up: no current match, and the kept history.
    pub fn from_history(prev_matches: Vec<StrippedMatchInfo>) -> (r: Self)
        ensures
            r.current_match is None,
            r.prev_matches@.len() == prev_matches@.len(),
            forall|i: int|
                0 <= i < prev_matches@.len() ==> r.prev_matches@[i] == MatchType::Old(
                    prev_matches@[i],
                ),
    {
        let ghost all = prev_matches@;
        let mut rest = prev_matches;
        let mut out: Vec<MatchType> = Vec::new();
        let n: usize = rest.len();
        let mut k: usize = 0;
        while rest.len() > 0
            invariant
                n == all.len(),
                rest@.len() + k == n,
                rest@ == all.skip(k as int),
                out@.len() == k,
                forall|i: int| 0 <= i < k ==> out@[i] == MatchType::Old(all[i]),
            decreases rest@.len(),
        {
            let m = rest.remove(0);
            assert(m == all[k as int]);
            out.push(MatchType::Old(m));
            k = k + 1;
            assert(rest@ =~= all.skip(k as int));
        }
        MatchesServiceState { current_match: None, prev_matches: out }
    }

    /// Takes in one stats feed event.
    ///
    /// - A match's end records its winner, unless the match has at most one player, which
    ///   also ends the batch.
    /// - Leaving a match moves it to the history (its ranks become stale), with the score
    ///   leader as winner when no end was seen; leaving when no match is on ends the batch.
    /// - An update refreshes the current match, or starts one.
    /// - The local player's id is remembered.
    pub fn handle_event(&mut self, event: RLEvent, local_player_id: &mut Option<String>) -> (r:
        MatchEventOutcome)
        ensures
            match event {
                RLEvent::MatchOver(winner) => match old(self).current_match {
                    Some(m) => if m.players@.len() <= 1 {
                        !r.keep_going && *final(self) == *old(self)
                    } else {
                        &&& r.keep_going && r.repaint && !r.refresh_lookups
                        &&& final(self).prev_matches == old(self).prev_matches
                        &&& final(self).current_match matches Some(n) && n == (MatchInfo {
                            finish: Some(
                                MatchOverInfo { timestamp: n.finish->0.timestamp, winner: Some(winner) },
                            ),
                            ..m
                        })
                    },
                    None => r.keep_going && r.repaint && *final(self) == *old(self),
                },
                RLEvent::MatchLeft => match old(self).current_match {
                    None => !r.keep_going && *final(self) == *old(self),
                    Some(m) => {
                        &&& string_views(r.invalidate_ranks_for@) == ids_of(
                            m.players@,
                        )
                        &&& final(self).current_match is None
                        &&& r.keep_going && r.repaint
                        &&& final(self).prev_matches@.len() == old(self).prev_matches@.len() + 1
                        &&& final(self).prev_matches@.drop_last() == old(self).prev_matches@
                        &&& final(self).prev_matches@.last() matches MatchType::Session(done) && done
                            == (MatchInfo {
                            finish: match m.finish {
                                Some(f) => Some(f),
                                None => Some(
                                    MatchOverInfo {
                                        timestamp: done.finish->0.timestamp,
                                        winner: leader(m.score),
                                    },
                                ),
                            },
                            ..m
                        })
                    },
                },
                RLEvent::Update(u) => {
                    &&& r.keep_going && r.repaint
                    &&& final(self).prev_matches == old(self).prev_matches
                    &&& *final(local_player_id) == *old(local_player_id)
                    &&& final(self).current_match matches Some(n) && match old(
                        self,
                    ).current_match {
                        Some(m) => {
                            &&& r.refresh_lookups
                            &&& match_player_views(n.players@) == updated_players(
                                match_player_views(m.players@),
                                player_views(u.players@),
                                local_view(*old(local_player_id)),
                            )
                            &&& n.our_team == updated_team(
                                match_player_views(m.players@),
                                player_views(u.players@),
                                local_view(*old(local_player_id)),
                            )
                            &&& n.score == u.score && n.state == u.state
                            &&& n.finish == m.finish && n.started_at == m.started_at
                            &&& n.arena == m.arena && n.playlist == m.playlist
                            &&& n.max_active_players as int == if m.max_active_players < u.players@.len() {
                                u.players@.len() as int
                            } else {
                                m.max_active_players as int
                            }
                        },
                        None => {
                            &&& !r.refresh_lookups
                            &&& match_player_views(n.players@) == fresh_players(
                                player_views(u.players@),
                                local_view(*old(local_player_id)),
                            )
                            &&& n.our_team == reported_team(
                                player_views(u.players@).map_values(
                                    |p: PlayerView| crate::matches::match_info::normalized(p),
                                ),
                                local_view(*old(local_player_id)),
                            )
                            &&& n.score == u.score && n.state == u.state && n.finish is None
                            &&& n.arena == u.arena && n.playlist == u.playlist
                            &&& n.max_active_players == u.players@.len()
                        },
                    }
                },
                RLEvent::OurPlayerId(id) => {
                    &&& r.keep_going && !r.repaint && !r.refresh_lookups
                    &&& *final(self) == *old(self)
                    &&& *final(local_player_id) == Some(id)
                },
                _ => r.keep_going && !r.repaint && !r.refresh_lookups && *final(self) == *old(
                    self,
                ) && *final(local_player_id) == *old(local_player_id),
            },
            !(event is OurPlayerId) ==> *final(local_player_id) == *old(local_player_id),
    {
        match event {
            RLEvent::MatchOver(winner) => {
                if let Some(current_match) = &mut self.current_match {
                    if current_match.players.len() <= 1 {
                        return outcome(false, false, false);
                    }
                    current_match.finish = Some(
                        MatchOverInfo { timestamp: now(), winner: Some(winner) },
                    );
                }
                outcome(true, true, false)
            },
            RLEvent::MatchLeft => {
                let mut current_match = match self.current_match.take() {
                    Some(m) => m,
                    None => {
                        return outcome(false, false, false);
                    },
                };
                let ids = player_ids(&current_match.players);
                if current_match.playlist.is_singleplayer() {
                    return MatchEventOutcome {
                        keep_going: false,
                        repaint: false,
                        invalidate_ranks_for: ids,
                        refresh_lookups: false,
                    };
                }
                if current_match.finish.is_none() {
                    current_match.finish = Some(
                        MatchOverInfo {
                            timestamp: now(),
                            winner: current_match.score.guess_winner(),
                        },
                    );
                }
                self.prev_matches.push(MatchType::Session(current_match));
                MatchEventOutcome {
                    keep_going: true,
                    repaint: true,
                    invalidate_ranks_for: ids,
                    refresh_lookups: false,
                }
            },
            RLEvent::Update(update) => {
                let refresh = match &mut self.current_match {
                    Some(current_match) => {
                        current_match.update(update, local_player_id);
                        true
                    },
                    None => {
                        self.current_match = Some(MatchInfo::new(update, local_player_id));
                        false
                    },
                };
                outcome(true, true, refresh)
            },
            RLEvent::OurPlayerId(id) => {
                *local_player_id = Some(id);
                outcome(true, false, false)
            },
            _ => outcome(true, false, false),
        }
    }

    /// The history as it is kept between runs.
    pub fn stripped_history(self) -> (r: Vec<StrippedMatchInfo>)
        ensures
            r@.len() == self.prev_matches@.len(),
            forall|i: int|
                #![trigger self.prev_matches@[i]]
                0 <= i < self.prev_matches@.len() ==> match self.prev_matches@[i] {
                    MatchType::Old(o) => r@[i] == o,
                    MatchType::Session(s) => is_stripped_of(r@[i], s),
                },
    {
        let ghost all = self.prev_matches@;
        let mut rest = self.prev_matches;
        let mut out: Vec<StrippedMatchInfo> = Vec::new();
        let n: usize = rest.len();
        let mut k: usize = 0;
        while rest.len() > 0
            invariant
                n == all.len(),
                rest@.len() + k == n,
                rest@ == all.skip(k as int),
                out@.len() == k,
                forall|i: int|
                    #![trigger all[i]]
                    0 <= i < k ==> match all[i] {
                        MatchType::Old(o) => out@[i] == o,
                        MatchType::Session(s) => is_stripped_of(out@[i], s),
                    },
            decreases rest@.len(),
        {
            let m = rest.remove(0);
            assert(m == all[k as int]);
            let kept = match m {
                MatchType::Session(s) => StrippedMatchInfo::from_match(s),
                MatchType::Old(o) => o,
            };
            out.push(kept);
            k = k + 1;
            assert(rest@ =~= all.skip(k as int));
        }
        out
    }
}

} // verus!
