//! What the stats feed reports about a match in progress.

use vstd::prelude::*;

pub use crate::rl::match_state::MatchState;
pub use crate::rocket_league::TeamScores;
use crate::game::playlist::playlist_for_count;
use crate::rl_stats_api::players_view;
use crate::rocket_league::{Platform, Playlist, Team};
use crate::seqs::{first_where, lemma_first_where_char, lemma_first_where_none};
use crate::text::str_eq;

verus! {

/// A player's counters in the current match.
#[derive(Debug, Clone, Copy, PartialEq, Eq, Default)]
pub struct PlayerStats {
    pub score: u16,
    pub goals: u16,
    pub assists: u16,
    pub saves: u16,
    pub shots: u16,
    pub touches: u16,
}

/// A player as the stats feed reports them during a match.
#[derive(Debug, Clone)]
pub struct PlayerData {
    pub name: String,
    pub platform: Platform,
    pub platform_id: String,
    pub team: Team,
    pub stats: PlayerStats,
}

/// The model of a reported player: its text fields as character sequences.
pub struct PlayerView {
    pub name: Seq<char>,
    pub platform: Platform,
    pub platform_id: Seq<char>,
    pub team: Team,
    pub stats: PlayerStats,
}

impl View for PlayerData {
    type V = PlayerView;

    open spec fn view(&self) -> PlayerView {
        PlayerView {
            name: self.name@,
            platform: self.platform,
            platform_id: self.platform_id@,
            team: self.team,
            stats: self.stats,
        }
    }
}

/// The models of a list of reported players.
pub open spec fn player_views(s: Seq<PlayerData>) -> Seq<PlayerView> {
    s.map_values(|p: PlayerData| p@)
}

/// One state update of the current match.
#[derive(Debug, Clone)]
pub struct MatchUpdate {
    pub players: Vec<PlayerData>,
    pub score: TeamScores,
    pub arena: &'static str,
    pub playlist: Playlist,
    pub state: MatchState,
}

/// What the stats feed tells the services.
#[derive(Debug, Clone)]
pub enum RLEvent {
    Connected,
    Disconnected,
    MatchStart,
    MatchOver(Team),
    MatchLeft,
    ReplayStart,
    ReplayDone,
    Update(MatchUpdate),
    OurPlayerId(String),
}

/// One player's line of a feed update: name, id, team number and counters.
#[derive(Debug, Clone)]
pub struct FeedPlayerLine {
    pub name: String,
    pub id_data: String,
    pub team_num: u8,
    pub stats: PlayerStats,
}

/// The team a feed team number stands for: 1 is orange, any other blue.
pub open spec fn team_of_number(n: u8) -> Team {
    if n == 1 {
        Team::Orange
    } else {
        Team::Blue
    }
}

/// The match phase from the feed's flags: a replay, else overtime, else the game.
pub open spec fn phase_of(replay: bool, overtime: bool) -> MatchState {
    if replay {
        MatchState::Replay
    } else if overtime {
        MatchState::Overtime
    } else {
        MatchState::Game
    }
}

/// The scores from the feed's team list: the first team is blue, the second orange, and a
/// missing team has scored nothing.
pub open spec fn scores_of(teams: Seq<u8>) -> TeamScores {
    TeamScores {
        blue: if teams.len() > 0 {
            teams[0]
        } else {
            0
        },
        orange: if teams.len() > 1 {
            teams[1]
        } else {
            0
        },
    }
}

/// The lines of a player with this name and id.
pub open spec fn belongs_to(name: Seq<char>, id: Seq<char>) -> spec_fn(FeedPlayerLine) -> bool {
    |l: FeedPlayerLine| l.id_data@ == id && l.name@ == name
}

/// The lines that belong to a lobby player: same id and same name.
pub open spec fn line_of(known: (Seq<char>, Platform, Seq<char>)) -> spec_fn(FeedPlayerLine) -> bool {
    belongs_to(known.0, known.2)
}

/// The players of an update: each lobby player, in order, with the team and counters of the
/// first line that belongs to them; lobby players without a line are left out.
pub open spec fn reported_player_views(known: Seq<(Seq<char>, Platform, Seq<char>)>, lines: Seq<FeedPlayerLine>) -> Seq<
    PlayerView,
>
    decreases known.len(),
{
    if known.len() == 0 {
        seq![]
    } else {
        let rest = reported_player_views(known.drop_last(), lines);
        let k = known.last();
        match first_where(lines, line_of(k)) {
            Some(i) => rest.push(
                PlayerView {
                    name: k.0,
                    platform: k.1,
                    platform_id: k.2,
                    team: team_of_number(lines[i].team_num),
                    stats: lines[i].stats,
                },
            ),
            None => rest,
        }
    }
}

/// The first line that belongs to a lobby player, if any.
fn find_line(lines: &Vec<FeedPlayerLine>, name: &str, id: &str) -> (r: Option<usize>)
    ensures
        match r {
            Some(i) => i < lines@.len() && first_where(lines@, belongs_to(name@, id@)) == Some(i as int),
            None => first_where(lines@, belongs_to(name@, id@)) is None,
        },
{
    let ghost p = belongs_to(name@, id@);
    let mut j: usize = 0;
    while j < lines.len()
        invariant
            j <= lines@.len(),
            p == belongs_to(name@, id@),
            forall|k: int| 0 <= k < j ==> !p(lines@[k]),
        decreases lines@.len() - j,
    {
        if str_eq(lines[j].id_data.as_str(), id) && str_eq(lines[j].name.as_str(), name) {
            proof {
                lemma_first_where_char(lines@, p, j as int);
            }
            return Some(j);
        }
        j = j + 1;
    }
    proof {
        lemma_first_where_none(lines@, p);
    }
    None
}

/// The match update a feed message makes: the lobby players with their lines (see
/// `reported_player_views`), the scores, the phase, the arena, and the playlist the number of
/// players makes (or `last_playlist` when it makes none).
pub fn update_from_feed(
    known: &Vec<crate::rl_stats_api::PlayerData>,
    lines: &Vec<FeedPlayerLine>,
    team_scores: &Vec<u8>,
    replay: bool,
    overtime: bool,
    arena: &'static str,
    last_playlist: Playlist,
) -> (r: MatchUpdate)
    ensures
        player_views(r.players@) == reported_player_views(players_view(known@), lines@),
        r.score == scores_of(team_scores@),
        r.state == phase_of(replay, overtime),
        r.arena == arena,
        r.playlist == match playlist_for_count(r.players@.len() as int) {
            Some(p) => p,
            None => last_playlist,
        },
{
    let mut players: Vec<PlayerData> = Vec::new();
    let mut i: usize = 0;
    while i < known.len()
        invariant
            i <= known@.len(),
            player_views(players@) == reported_player_views(players_view(known@.take(i as int)), lines@),
        decreases known@.len() - i,
    {
        let k = &known[i];
        let ghost kv = (k.name@, k.platform, k.platform_id@);
        proof {
            assert(players_view(known@.take(i + 1)).drop_last() =~= players_view(known@.take(i as int)));
            assert(players_view(known@.take(i + 1)).last() == kv);
        }
        match find_line(lines, k.name.as_str(), k.platform_id.as_str()) {
            Some(j) => {
                let line = &lines[j];
                let team = if line.team_num == 1 {
                    Team::Orange
                } else {
                    Team::Blue
                };
                let ghost before = players@;
                players.push(
                    PlayerData {
                        name: k.name.clone(),
                        platform: k.platform,
                        platform_id: k.platform_id.clone(),
                        team,
                        stats: line.stats,
                    },
                );
                proof {
                    assert(players@.drop_last() =~= before);
                    assert(player_views(players@) =~= player_views(before).push(players@.last()@));
                }
            },
            None => {},
        }
        i = i + 1;
    }
    assert(known@.take(i as int) =~= known@);
    let blue: u8 = if team_scores.len() > 0 {
        team_scores[0]
    } else {
        0
    };
    let orange: u8 = if team_scores.len() > 1 {
        team_scores[1]
    } else {
        0
    };
    let state = if replay {
        MatchState::Replay
    } else if overtime {
        MatchState::Overtime
    } else {
        MatchState::Game
    };
    let playlist = match Playlist::from_player_count(players.len()) {
        Some(p) => p,
        None => last_playlist,
    };
    MatchUpdate { players, score: TeamScores { blue, orange }, arena, playlist, state }
}

} // verus!
