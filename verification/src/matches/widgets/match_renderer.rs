//! What the match view shows: the outcome in the header, which players are listed, the
//! colours of their names, the rank hover texts and the lobby's rating summary.

use vstd::prelude::*;

use crate::game::playlist::playlist_label;
use crate::game::rank::{division_text, rank_name};
use crate::matches::apis::rank_api::PlaylistSkillInformation;
use crate::matches::match_info::{
    has_separator, is_local_stripped, second_field, second_field_of, standing_in, MatchInfo, MatchPlayer, StrippedMatchInfo, StrippedPlayer,
};
use crate::matches::service::{match_our_team, MatchType, MatchesServiceState};
use crate::matches::widgets::buddy_badges::{all_badges, badge_view, get_badges, BuddyBadge};
use crate::rocket_league::{leader, Platform, Playlist, Team, TeamScores};
use crate::stats_api::PlayerStats;
use crate::seqs::{first_where, lemma_first_where_char, lemma_first_where_none};
use crate::text::{decimal, push_char, push_decimal, push_i16, push_str, signed_decimal};

verus! {

/// Whether the view also shows badges from the match history.
pub enum BuddyStatsOption<'a> {
    Yes(&'a MatchesServiceState),
    No,
}

/// The outcome shown in a match header.
#[derive(Debug, Clone, Copy, PartialEq, Eq, Structural)]
pub enum MatchStatus {
    Win,
    Loss,
    InProgress,
}

/// How the local player's rating compares with the lobby average.
#[derive(Debug, Clone, Copy, PartialEq, Eq, Structural)]
pub enum DiffTone {
    Above,
    Below,
    Even,
}

/// The colour of a player's name.
#[derive(Debug, Clone, Copy, PartialEq, Eq, Structural)]
pub enum NameColor {
    /// A player who left the match.
    Muted,
    /// The local player.
    Strong,
    /// A player of the blue team.
    Blue,
    /// A player of the orange team.
    Orange,
}

/// The texts of the lobby rating summary.
#[derive(Debug)]
pub struct MmrInfoLabels {
    pub average: String,
    pub yours: Option<String>,
    pub diff: Option<(String, DiffTone)>,
}

/// The winner shown for a match: the recorded one of a kept match; for a finished match of
/// this session the reported winner, or else the team ahead on goals.
pub open spec fn header_winner(m: MatchType) -> Option<Team> {
    match m {
        MatchType::Old(o) => Some(o.winner),
        MatchType::Session(s) => match s.finish {
            Some(f) => match f.winner {
                Some(w) => Some(w),
                None => leader(s.score),
            },
            None => None,
        },
    }
}

/// The outcome shown in the header of match `m`.
pub open spec fn header_status(m: MatchType) -> MatchStatus {
    match header_winner(m) {
        Some(w) => if w == match_our_team(m) {
            MatchStatus::Win
        } else {
            MatchStatus::Loss
        },
        None => MatchStatus::InProgress,
    }
}

/// The playlist whose ranks are shown for match `m`.
pub open spec fn shown_playlist(m: MatchType) -> Playlist {
    match m {
        MatchType::Old(o) => o.playlist,
        MatchType::Session(s) => s.playlist,
    }
}

/// Each player's standing in the shown playlist, in player order.
pub open spec fn lobby_standings(m: MatchType) -> Seq<Option<PlaylistSkillInformation>> {
    match m {
        MatchType::Old(o) => Seq::new(o.players@.len(), |i: int| o.players@[i].rank_in_mode),
        MatchType::Session(s) => Seq::new(
            s.players@.len(),
            |i: int| standing_in(s.players@[i]@.skill, s.playlist),
        ),
    }
}

/// The ratings of the standings that are known, in order.
pub open spec fn known_mmrs(s: Seq<Option<PlaylistSkillInformation>>) -> Seq<i16>
    decreases s.len(),
{
    if s.len() == 0 {
        seq![]
    } else {
        let rest = known_mmrs(s.drop_last());
        match s.last() {
            Some(st) => rest.push(st.mmr),
            None => rest,
        }
    }
}

/// The sum of a sequence of ratings.
pub open spec fn mmr_sum(s: Seq<i16>) -> int
    decreases s.len(),
{
    if s.len() == 0 {
        0
    } else {
        mmr_sum(s.drop_last()) + s.last()
    }
}

/// Every running total of the ratings fits in an `i16`.
pub open spec fn sums_fit(s: Seq<i16>) -> bool {
    forall|k: int| 0 <= k <= s.len() ==> i16::MIN <= #[trigger] mmr_sum(s.take(k)) <= i16::MAX
}

/// Division rounding toward zero.
pub open spec fn trunc_div(a: int, b: int) -> int {
    if a >= 0 {
        a / b
    } else {
        -((-a) / b)
    }
}

/// The divisor of the average: the number of known ratings, or 1 when there are none or
/// too many to count in an `i16`.
pub open spec fn average_divisor(n: nat) -> int {
    if n == 0 || n > i16::MAX {
        1
    } else {
        n as int
    }
}

/// The lobby average rating of match `m`.
pub open spec fn lobby_average(m: MatchType) -> int {
    let ks = known_mmrs(lobby_standings(m));
    trunc_div(mmr_sum(ks), average_divisor(ks.len()))
}

/// The local player's standing: the first local player's, if known.
pub open spec fn local_standing(m: MatchType) -> Option<PlaylistSkillInformation> {
    match m {
        MatchType::Old(o) => match first_where(o.players@, is_local_stripped()) {
            Some(k) => o.players@[k].rank_in_mode,
            None => None,
        },
        MatchType::Session(s) => match first_where(s.players@, is_local_session()) {
            Some(k) => standing_in(s.players@[k]@.skill, s.playlist),
            None => None,
        },
    }
}

/// The players with the given id.
pub open spec fn has_id(id: Seq<char>) -> spec_fn(MatchPlayer) -> bool {
    |p: MatchPlayer| p.data.platform_id@ == id
}

/// The local player's entries among the players of a match of this session.
pub open spec fn is_local_session() -> spec_fn(MatchPlayer) -> bool {
    |p: MatchPlayer| p.is_local_player
}

/// The local player's rating, if known.
pub open spec fn local_mmr(m: MatchType) -> Option<i16> {
    match local_standing(m) {
        Some(st) => Some(st.mmr),
        None => None,
    }
}

/// The text comparing the local rating with the average: `+` and the difference when above,
/// the (negative) difference when below, `+0` when equal.
pub open spec fn mmr_diff_text(local: int, avg: int) -> Seq<char> {
    if local > avg {
        seq!['+'] + decimal((local - avg) as nat)
    } else if local < avg {
        signed_decimal(local - avg)
    } else {
        seq!['+', '0']
    }
}

/// The tone of the comparison of the local rating with the average.
pub open spec fn mmr_diff_tone(local: int, avg: int) -> DiffTone {
    if local > avg {
        DiffTone::Above
    } else if local < avg {
        DiffTone::Below
    } else {
        DiffTone::Even
    }
}

/// Whether a player of this session's match is listed: bots only once they have scored.
pub open spec fn listed_player(p: MatchPlayer) -> bool {
    p.data.platform != Platform::Bot || p.data.stats.score != 0
}

/// The positions of the listed players, in order.
pub open spec fn listed_positions(s: Seq<MatchPlayer>) -> Seq<int>
    decreases s.len(),
{
    if s.len() == 0 {
        seq![]
    } else {
        let rest = listed_positions(s.drop_last());
        if listed_player(s.last()) {
            rest.push(s.len() - 1)
        } else {
            rest
        }
    }
}

/// The colour of the name of a player of this session's match.
pub open spec fn name_color_of(p: MatchPlayer) -> NameColor {
    if p.left {
        NameColor::Muted
    } else if p.is_local_player {
        NameColor::Strong
    } else {
        team_color(p.data.team)
    }
}

/// The colour of a team's players.
pub open spec fn team_color(t: Team) -> NameColor {
    match t {
        Team::Blue => NameColor::Blue,
        Team::Orange => NameColor::Orange,
    }
}

/// The hover text of a rank cell: `Unranked in` and the playlist for an estimated rank,
/// else the playlist, ` rank: `, the rank and its division.
pub open spec fn rank_cell_text(r: PlaylistSkillInformation) -> Seq<char> {
    if r.rank_is_estimate {
        "Unranked in "@ + playlist_label(r.playlist)
    } else {
        playlist_label(r.playlist) + " rank: "@ + rank_name(r.rank) + division_text(r.div)
    }
}

/// The hover text of a rank icon in a player's rank list.
pub open spec fn rank_icon_text(r: PlaylistSkillInformation) -> Seq<char> {
    if r.rank_is_estimate {
        "Estimated rank"@
    } else {
        rank_name(r.rank) + division_text(r.div)
    }
}

/// What clicking a kept player's name opens: the platform and the name to look up (the
/// account part of a Steam id, the name otherwise); nothing for a bot.
pub open spec fn lookup_target(p: StrippedPlayer) -> Option<(Platform, Seq<char>)> {
    match p.platform {
        Platform::Bot => None,
        Platform::Steam => Some((Platform::Steam, second_field(p.player_id@))),
        _ => Some((p.platform, p.name@)),
    }
}

/// The running total of the first `k` ratings extends by one rating.
proof fn lemma_sum_step(s: Seq<i16>, k: int)
    requires
        0 <= k < s.len(),
    ensures
        mmr_sum(s.take(k + 1)) == mmr_sum(s.take(k)) + s[k],
{
    assert(s.take(k + 1).drop_last() =~= s.take(k));
}

/// The known ratings of a prefix grow by the next standing's rating, if it is known.
proof fn lemma_known_step(s: Seq<Option<PlaylistSkillInformation>>, k: int)
    requires
        0 <= k < s.len(),
    ensures
        known_mmrs(s.take(k + 1)) == match s[k] {
            Some(st) => known_mmrs(s.take(k)).push(st.mmr),
            None => known_mmrs(s.take(k)),
        },
{
    assert(s.take(k + 1).drop_last() =~= s.take(k));
}

/// The known ratings of a prefix are a prefix of all known ratings.
proof fn lemma_known_prefix(s: Seq<Option<PlaylistSkillInformation>>, k: int)
    requires
        0 <= k <= s.len(),
    ensures
        known_mmrs(s.take(k)).len() <= known_mmrs(s).len(),
        known_mmrs(s.take(k)) == known_mmrs(s).take(known_mmrs(s.take(k)).len() as int),
    decreases s.len() - k,
{
    if k == s.len() {
        assert(s.take(k) =~= s);
    } else {
        lemma_known_prefix(s, k + 1);
        lemma_known_step(s, k);
        let a = known_mmrs(s.take(k));
        let b = known_mmrs(s.take(k + 1));
        let all = known_mmrs(s);
        assert(b == all.take(b.len() as int));
        assert(a =~= all.take(a.len() as int));
    }
}

/// Rounds toward zero a division of a running total by a positive divisor.
fn divide_toward_zero(sum: i16, d: i16) -> (r: i16)
    requires
        d > 0,
    ensures
        r == trunc_div(sum as int, d as int),
{
    let s: i32 = sum as i32;
    let dd: i32 = d as i32;
    if s >= 0 {
        (s / dd) as i16
    } else {
        let m: i32 = 0 - s;
        let q: i32 = m / dd;
        assert(0 <= q <= m) by (nonlinear_arith)
            requires
                q as int == m as int / dd as int,
                dd > 0,
                m >= 0,
        ;
        (0 - q) as i16
    }
}

impl MatchStatus {
    /// The header label (`Win`, `Loss`, `In progress`).
    pub fn label(&self) -> (r: &'static str)
        ensures
            r@ == match self {
                MatchStatus::Win => "Win"@,
                MatchStatus::Loss => "Loss"@,
                MatchStatus::InProgress => "In progress"@,
            },
    {
        match self {
            MatchStatus::Win => "Win",
            MatchStatus::Loss => "Loss",
            MatchStatus::InProgress => "In progress",
        }
    }
}

/// The decisions behind the view of one match.
pub struct MatchRenderer<'a> {
    match_info: &'a MatchType,
    buddy_stats: BuddyStatsOption<'a>,
}

impl<'a> MatchRenderer<'a> {
    pub fn new(match_info: &'a MatchType, buddy_stats: BuddyStatsOption<'a>) -> (r: MatchRenderer<'a>)
        ensures
            *r.match_info() == *match_info,
    {
        MatchRenderer { match_info, buddy_stats }
    }

    /// The match shown.
    pub closed spec fn match_info(&self) -> &'a MatchType {
        self.match_info
    }

    /// The history the badges come from, if they are shown.
    pub closed spec fn history(&self) -> Option<Seq<MatchType>> {
        match self.buddy_stats {
            BuddyStatsOption::Yes(s) => Some(s.prev_matches@),
            BuddyStatsOption::No => None,
        }
    }

    /// The playlist whose ranks are shown.
    pub fn ranked_playlist(&self) -> (r: Playlist)
        ensures
            r == shown_playlist(*self.match_info()),
    {
        self.match_info.playlist()
    }

    /// The outcome shown in the header; nothing for a playlist played alone.
    pub fn header_status(&self) -> (r: Option<MatchStatus>)
        ensures
            r == Some(header_status(*self.match_info())),
    {
        let playlist = self.match_info.playlist();
        if playlist.is_singleplayer() {
            return None;
        }
        let winner = match self.match_info {
            MatchType::Old(o) => Some(o.winner),
            MatchType::Session(s) => match &s.finish {
                Some(f) => match f.winner {
                    Some(w) => Some(w),
                    None => s.score.guess_winner(),
                },
                None => None,
            },
        };
        match winner {
            Some(w) => if w == self.match_info.our_team() {
                Some(MatchStatus::Win)
            } else {
                Some(MatchStatus::Loss)
            },
            None => Some(MatchStatus::InProgress),
        }
    }

    /// The lobby average rating and the local player's rating. The average is the sum of
    /// the known ratings, rounded toward zero over their number.
    pub fn lobby_mmr(&self) -> (r: (i16, Option<i16>))
        requires
            sums_fit(known_mmrs(lobby_standings(*self.match_info()))),
        ensures
            r.0 == lobby_average(*self.match_info()),
            r.1 == local_mmr(*self.match_info()),
    {
        let ghost st = lobby_standings(*self.match_info);
        let ghost all = known_mmrs(st);
        let playlist = self.match_info.playlist();
        let n: usize = self.match_info.player_qty();
        let mut sum: i16 = 0;
        let mut count: usize = 0;
        let mut local: Option<i16> = None;
        let mut found_local = false;
        let mut i: usize = 0;
        proof {
            assert(st.take(0) =~= Seq::<Option<PlaylistSkillInformation>>::empty());
            assert(all.take(0) =~= Seq::<i16>::empty());
        }
        while i < n
            invariant
                n == st.len(),
                i <= n,
                st == lobby_standings(*self.match_info),
                all == known_mmrs(st),
                sums_fit(all),
                playlist == shown_playlist(*self.match_info),
                count == known_mmrs(st.take(i as int)).len(),
                count <= i,
                sum == mmr_sum(known_mmrs(st.take(i as int))),
                found_local ==> local == local_mmr(*self.match_info),
                !found_local ==> local is None && match *self.match_info {
                    MatchType::Old(o) => forall|j: int|
                        0 <= j < i ==> !is_local_stripped()(#[trigger] o.players@[j]),
                    MatchType::Session(s) => forall|j: int|
                        0 <= j < i ==> !is_local_session()(#[trigger] s.players@[j]),
                },
            decreases n - i,
        {
            let (standing, is_local): (Option<PlaylistSkillInformation>, bool) = match self.match_info {
                MatchType::Old(o) => (o.players[i].rank_in_mode, o.players[i].is_local_player),
                MatchType::Session(s) => {
                    let p = &s.players[i];
                    let standing = match &p.skill {
                        Some(sk) => match sk.get_playlist(playlist) {
                            Some(info) => Some(*info),
                            None => None,
                        },
                        None => None,
                    };
                    (standing, p.is_local_player)
                },
            };
            assert(standing == st[i as int]);
            proof {
                lemma_known_step(st, i as int);
                lemma_known_prefix(st, i + 1);
            }
            if let Some(info) = standing {
                proof {
                    let pre = known_mmrs(st.take(i + 1));
                    lemma_sum_step(all, count as int);
                    assert(all.take(count + 1) == pre);
                    assert(all.take(count as int) == known_mmrs(st.take(i as int)));
                    assert(i16::MIN <= mmr_sum(all.take(count + 1)) <= i16::MAX);
                }
                sum = sum + info.mmr;
                count = count + 1;
            }
            if !found_local && is_local {
                found_local = true;
                local = match standing {
                    Some(info) => Some(info.mmr),
                    None => None,
                };
                proof {
                    match self.match_info {
                        MatchType::Old(o) => {
                            lemma_first_where_char(o.players@, is_local_stripped(), i as int);
                        },
                        MatchType::Session(s) => {
                            lemma_first_where_char(s.players@, is_local_session(), i as int);
                        },
                    }
                }
            }
            i = i + 1;
        }
        proof {
            assert(st.take(n as int) =~= st);
            if !found_local {
                match self.match_info {
                    MatchType::Old(o) => {
                        lemma_first_where_none(o.players@, is_local_stripped());
                    },
                    MatchType::Session(s) => {
                        lemma_first_where_none(s.players@, is_local_session());
                    },
                }
            }
        }
        let d: i16 = if count == 0 || count > 32767 {
            1
        } else {
            count as i16
        };
        (divide_toward_zero(sum, d), local)
    }

    /// The statistics shown in a player's window: those of the first player of this
    /// session's match with the id; kept matches have none.
    pub fn stats_for(&self, player_id: &String) -> (r: Option<PlayerStats>)
        ensures
            r == match *self.match_info() {
                MatchType::Session(s) => match first_where(s.players@, has_id(player_id@)) {
                    Some(k) => Some(s.players@[k].data.stats),
                    None => None,
                },
                MatchType::Old(_) => None,
            },
    {
        match self.match_info {
            MatchType::Session(s) => {
                let ghost p = has_id(player_id@);
                let mut i: usize = 0;
                while i < s.players.len()
                    invariant
                        i <= s.players@.len(),
                        p == has_id(player_id@),
                        *self.match_info == MatchType::Session(*s),
                        forall|j: int| 0 <= j < i ==> !p(s.players@[j]),
                    decreases s.players@.len() - i,
                {
                    if s.players[i].data.platform_id == *player_id {
                        assert(p(s.players@[i as int]));
                        proof {
                            lemma_first_where_char(s.players@, p, i as int);
                        }
                        return Some(s.players[i].data.stats);
                    }
                    assert(!p(s.players@[i as int]));
                    i = i + 1;
                }
                proof {
                    lemma_first_where_none(s.players@, p);
                }
                None
            },
            MatchType::Old(_) => None,
        }
    }

    /// The badges shown beside a player: none for the local player or when the history is
    /// not shown.
    pub fn badges_for(&self, other_player: &MatchPlayer) -> (r: Vec<BuddyBadge>)
        ensures
            r@.map_values(|b: BuddyBadge| badge_view(b)) == match self.history() {
                Some(h) => if other_player.is_local_player {
                    seq![]
                } else {
                    all_badges(h, other_player.data.platform_id@)
                },
                None => seq![],
            },
    {
        if other_player.is_local_player {
            let r: Vec<BuddyBadge> = Vec::new();
            assert(r@.map_values(|b: BuddyBadge| badge_view(b)) =~= seq![]);
            return r;
        }
        match self.buddy_stats {
            BuddyStatsOption::Yes(state) => get_badges(other_player, &state.prev_matches),
            BuddyStatsOption::No => {
                let r: Vec<BuddyBadge> = Vec::new();
                assert(r@.map_values(|b: BuddyBadge| badge_view(b)) =~= seq![]);
                r
            },
        }
    }
}

/// Whether every running total of the lobby's known ratings fits in an `i16`, which the
/// lobby average needs.
pub fn lobby_sums_fit(m: &MatchType) -> (r: bool)
    ensures
        r == sums_fit(known_mmrs(lobby_standings(*m))),
{
    let ghost st = lobby_standings(*m);
    let ghost all = known_mmrs(st);
    let playlist = m.playlist();
    let n: usize = m.player_qty();
    let mut sum: i16 = 0;
    let mut count: usize = 0;
    let mut i: usize = 0;
    proof {
        assert(st.take(0) =~= Seq::<Option<PlaylistSkillInformation>>::empty());
        assert(all.take(0) =~= Seq::<i16>::empty());
    }
    while i < n
        invariant
            n == st.len(),
            i <= n,
            st == lobby_standings(*m),
            all == known_mmrs(st),
            playlist == shown_playlist(*m),
            count == known_mmrs(st.take(i as int)).len(),
            count <= i,
            sum == mmr_sum(known_mmrs(st.take(i as int))),
            forall|k: int| 0 <= k <= count ==> i16::MIN <= #[trigger] mmr_sum(all.take(k)) <= i16::MAX,
        decreases n - i,
    {
        let standing: Option<PlaylistSkillInformation> = match m {
            MatchType::Old(o) => o.players[i].rank_in_mode,
            MatchType::Session(s) => match &s.players[i].skill {
                Some(sk) => match sk.get_playlist(playlist) {
                    Some(info) => Some(*info),
                    None => None,
                },
                None => None,
            },
        };
        assert(standing == st[i as int]);
        proof {
            lemma_known_step(st, i as int);
            lemma_known_prefix(st, i + 1);
            lemma_known_prefix(st, i as int);
        }
        if let Some(info) = standing {
            let next: i32 = sum as i32 + info.mmr as i32;
            proof {
                lemma_sum_step(all, count as int);
                assert(all.take(count as int) == known_mmrs(st.take(i as int)));
                assert(all.take(count + 1) == known_mmrs(st.take(i + 1)));
            }
            if next < -32768 || next > 32767 {
                proof {
                    assert(mmr_sum(all.take(count + 1)) == next);
                    assert(!(i16::MIN <= mmr_sum(all.take(count + 1)) <= i16::MAX));
                }
                return false;
            }
            sum = next as i16;
            count = count + 1;
        }
        i = i + 1;
    }
    proof {
        assert(st.take(n as int) =~= st);
        assert(count == all.len());
    }
    true
}

/// The texts of the rating summary: the lobby average and, when the local rating is known,
/// it and how it compares with the average.
pub fn mmr_info_labels(avg: i16, local: Option<i16>) -> (r: MmrInfoLabels)
    requires
        local matches Some(l) ==> i16::MIN <= l - avg <= i16::MAX,
    ensures
        r.average@ == "Lobby average: "@ + signed_decimal(avg as int),
        r.yours is Some <==> local is Some,
        r.diff is Some <==> local is Some,
        local matches Some(l) ==> r.yours->0@ == "Yours: "@ + signed_decimal(l as int),
        local matches Some(l) ==> (r.diff matches Some((text, tone)) && text@ == mmr_diff_text(
            l as int,
            avg as int,
        ) && tone == mmr_diff_tone(l as int, avg as int)),
{
    let mut average = String::new();
    push_str(&mut average, "Lobby average: ");
    push_i16(&mut average, avg);
    match local {
        Some(l) => {
            let mut yours = String::new();
            push_str(&mut yours, "Yours: ");
            push_i16(&mut yours, l);
            let diff: i16 = l - avg;
            let mut text = String::new();
            let tone = if l > avg {
                push_char(&mut text, '+');
                push_decimal(&mut text, diff as u64);
                DiffTone::Above
            } else if l < avg {
                push_i16(&mut text, diff);
                DiffTone::Below
            } else {
                push_char(&mut text, '+');
                push_char(&mut text, '0');
                DiffTone::Even
            };
            assert(text@ =~= mmr_diff_text(l as int, avg as int));
            MmrInfoLabels { average, yours: Some(yours), diff: Some((text, tone)) }
        },
        None => MmrInfoLabels { average, yours: None, diff: None },
    }
}

/// The positions of the players of this session's match that are listed: bots that have
/// not scored are left out.
pub fn listed_players(players: &Vec<MatchPlayer>) -> (r: Vec<usize>)
    ensures
        r@.map_values(|k: usize| k as int) == listed_positions(players@),
{
    let mut out: Vec<usize> = Vec::new();
    let mut i: usize = 0;
    while i < players.len()
        invariant
            i <= players@.len(),
            out@.map_values(|k: usize| k as int) == listed_positions(players@.take(i as int)),
        decreases players@.len() - i,
    {
        let ghost pre = players@.take(i + 1);
        assert(pre.drop_last() =~= players@.take(i as int));
        assert(pre.last() == players@[i as int]);
        let p = &players[i];
        if !matches!(p.data.platform, Platform::Bot) || p.data.stats.score != 0 {
            let ghost before = out@.map_values(|k: usize| k as int);
            out.push(i);
            assert(out@.map_values(|k: usize| k as int) =~= before.push(i as int));
        }
        i = i + 1;
    }
    assert(players@.take(i as int) =~= players@);
    out
}

/// The colour of a player's name: muted once they left, strong for the local player, the
/// team's colour otherwise.
pub fn name_color(p: &MatchPlayer) -> (r: NameColor)
    ensures
        r == name_color_of(*p),
{
    if p.left {
        NameColor::Muted
    } else if p.is_local_player {
        NameColor::Strong
    } else {
        match p.data.team {
            Team::Blue => NameColor::Blue,
            Team::Orange => NameColor::Orange,
        }
    }
}

/// The colour of a kept player's name: strong for the local player, the team's colour
/// otherwise.
pub fn stripped_name_color(p: &StrippedPlayer) -> (r: NameColor)
    ensures
        r == if p.is_local_player {
            NameColor::Strong
        } else {
            team_color(p.team)
        },
{
    if p.is_local_player {
        NameColor::Strong
    } else {
        match p.team {
            Team::Blue => NameColor::Blue,
            Team::Orange => NameColor::Orange,
        }
    }
}

/// The two scores in the order shown: the team `priority` first.
pub fn score_order(scores: &TeamScores, priority: Team) -> (r: (u8, u8))
    ensures
        r == if priority == Team::Blue {
            (scores.blue, scores.orange)
        } else {
            (scores.orange, scores.blue)
        },
{
    if priority == Team::Blue {
        (scores.blue, scores.orange)
    } else {
        (scores.orange, scores.blue)
    }
}

/// The hover text of a rank cell.
pub fn rank_cell_hover(rank: &PlaylistSkillInformation) -> (r: String)
    ensures
        r@ == rank_cell_text(*rank),
{
    let mut s = String::new();
    if rank.rank_is_estimate {
        push_str(&mut s, "Unranked in ");
        let p = rank.playlist.to_string();
        push_str(&mut s, p.as_str());
    } else {
        let p = rank.playlist.to_string();
        push_str(&mut s, p.as_str());
        push_str(&mut s, " rank: ");
        push_str(&mut s, rank.rank.as_str());
        let d = rank.div.to_string();
        push_str(&mut s, d.as_str());
    }
    s
}

/// The hover text of a rank icon in a player's rank list.
pub fn rank_icon_hover(rank: &PlaylistSkillInformation) -> (r: String)
    ensures
        r@ == rank_icon_text(*rank),
{
    let mut s = String::new();
    if rank.rank_is_estimate {
        push_str(&mut s, "Estimated rank");
    } else {
        push_str(&mut s, rank.rank.as_str());
        let d = rank.div.to_string();
        push_str(&mut s, d.as_str());
    }
    s
}

/// What clicking a kept player's name looks up. A Steam player's id must hold a `|`.
pub fn stripped_lookup(p: &StrippedPlayer) -> (r: Option<(Platform, String)>)
    requires
        p.platform == Platform::Steam ==> has_separator(p.player_id@),
    ensures
        match (r, lookup_target(*p)) {
            (Some((pl, s)), Some((pl2, s2))) => pl == pl2 && s@ == s2,
            (None, None) => true,
            _ => false,
        },
{
    match p.platform {
        Platform::Bot => None,
        Platform::Steam => Some((Platform::Steam, second_field_of(&p.player_id))),
        _ => Some((p.platform, p.name.clone())),
    }
}

/// A match kept from an earlier run is over: its header is a win when its recorded winner is
/// the local player's team and a loss otherwise, never in progress.
pub proof fn lemma_kept_match_header(o: StrippedMatchInfo)
    ensures
        header_status(MatchType::Old(o)) != MatchStatus::InProgress,
        header_status(MatchType::Old(o)) == MatchStatus::Win <==> o.winner == match_our_team(MatchType::Old(o)),
        header_status(MatchType::Old(o)) == MatchStatus::Loss <==> o.winner != match_our_team(MatchType::Old(o)),
{
}

/// The header and the badges agree on kept matches and on finished session matches with a
/// recorded winner: the header shows a win exactly when the match counts as won.
pub proof fn lemma_header_agrees_with_won(m: MatchType)
    requires
        m matches MatchType::Session(s) ==> s.finish is Some && s.finish->0.winner is Some,
    ensures
        header_status(m) == MatchStatus::Win <==> crate::matches::widgets::buddy_badges::we_won(m),
        header_status(m) != MatchStatus::InProgress,
{
}

/// A session match that is still on shows as in progress; one that ended without a recorded
/// winner shows the team ahead on goals.
pub proof fn lemma_session_header(s: MatchInfo)
    ensures
        s.finish is None ==> header_status(MatchType::Session(s)) == MatchStatus::InProgress,
        s.finish is Some && s.finish->0.winner is None && s.score.blue > s.score.orange ==> header_status(
            MatchType::Session(s),
        ) == if s.our_team == Team::Blue {
            MatchStatus::Win
        } else {
            MatchStatus::Loss
        },
        s.finish is Some && s.finish->0.winner is None && s.score.orange > s.score.blue ==> header_status(
            MatchType::Session(s),
        ) == if s.our_team == Team::Orange {
            MatchStatus::Win
        } else {
            MatchStatus::Loss
        },
{
}

} // verus!
