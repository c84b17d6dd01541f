//! The player's own statistics over this session's matches: record, streak, totals and the
//! rating history of a playlist.

use std::time::SystemTime;
use vstd::prelude::*;

use crate::matches::match_info::{standing_in, MatchInfo};
use crate::matches::service::MatchType;
use crate::matches::widgets::match_renderer::is_local_session;
use crate::rocket_league::Playlist;
use crate::seqs::{first_where, lemma_first_where_char, lemma_first_where_none};
use crate::stats_api::PlayerStats;
use crate::text::{decimal, push_char, push_decimal, push_str};

verus! {

/// Totals of the local player's statistics.
#[derive(Debug, Clone, Copy)]
pub struct PlayerLongtimeStats {
    pub goals: u64,
    pub assists: u64,
    pub saves: u64,
    pub shots: u64,
}

impl Default for PlayerLongtimeStats {
    fn default() -> (r: Self)
        ensures
            r.goals == 0 && r.assists == 0 && r.saves == 0 && r.shots == 0,
    {
        PlayerLongtimeStats { goals: 0, assists: 0, saves: 0, shots: 0 }
    }
}

/// The settings of the statistics view: the playlist whose rating is graphed.
#[derive(Debug, Clone, Copy)]
pub struct MyStatsWidgetSettings {
    pub selected_playlist: Option<Playlist>,
}

impl Default for MyStatsWidgetSettings {
    fn default() -> (r: Self)
        ensures
            r.selected_playlist is None,
    {
        MyStatsWidgetSettings { selected_playlist: None }
    }
}

/// The statistics view.
pub struct MyStatsWidget {
    settings: MyStatsWidgetSettings,
}

impl MyStatsWidget {
    pub closed spec fn settings(&self) -> MyStatsWidgetSettings {
        self.settings
    }

    pub fn new(settings: MyStatsWidgetSettings) -> (r: Self)
        ensures
            r.settings() == settings,
    {
        MyStatsWidget { settings }
    }

    pub fn clone_settings(&self) -> (r: MyStatsWidgetSettings)
        ensures
            r == self.settings(),
    {
        self.settings
    }

    /// Chooses the playlist to graph.
    pub fn select_playlist(&mut self, playlist: Option<Playlist>)
        ensures
            final(self).settings().selected_playlist == playlist,
    {
        self.settings.selected_playlist = playlist;
    }
}

/// The matches of this session, in order.
pub open spec fn sessions(ms: Seq<MatchType>) -> Seq<MatchInfo>
    decreases ms.len(),
{
    if ms.len() == 0 {
        seq![]
    } else {
        let rest = sessions(ms.drop_last());
        match ms.last() {
            MatchType::Session(s) => rest.push(s),
            MatchType::Old(_) => rest,
        }
    }
}

/// Whether the local player's team won a match of this session.
pub open spec fn is_win(m: MatchInfo) -> bool {
    m.finish matches Some(f) && f.winner == Some(m.our_team)
}

/// The number of wins among matches.
pub open spec fn win_count(ss: Seq<MatchInfo>) -> nat
    decreases ss.len(),
{
    if ss.len() == 0 {
        0
    } else {
        win_count(ss.drop_last()) + if is_win(ss.last()) {
            1nat
        } else {
            0nat
        }
    }
}

/// The length of the run of matches at the end with outcome `won`.
pub open spec fn trailing_run(ss: Seq<MatchInfo>, won: bool) -> nat
    decreases ss.len(),
{
    if ss.len() == 0 {
        0
    } else if is_win(ss.last()) == won {
        trailing_run(ss.drop_last(), won) + 1
    } else {
        0
    }
}

/// One step of walking the history: the sessions of a longer prefix.
proof fn lemma_sessions_step(ms: Seq<MatchType>, i: int)
    requires
        0 <= i < ms.len(),
    ensures
        sessions(ms.take(i + 1)) == match ms[i] {
            MatchType::Session(s) => sessions(ms.take(i)).push(s),
            MatchType::Old(_) => sessions(ms.take(i)),
        },
{
    assert(ms.take(i + 1).drop_last() =~= ms.take(i));
}

/// The matches of this session from a history.
pub fn session_matches(ms: &Vec<MatchType>) -> (r: Vec<&MatchInfo>)
    ensures
        r@.map_values(|m: &MatchInfo| *m) == sessions(ms@),
{
    let mut out: Vec<&MatchInfo> = Vec::new();
    let mut i: usize = 0;
    while i < ms.len()
        invariant
            i <= ms@.len(),
            out@.map_values(|m: &MatchInfo| *m) == sessions(ms@.take(i as int)),
        decreases ms@.len() - i,
    {
        proof {
            lemma_sessions_step(ms@, i as int);
        }
        if let MatchType::Session(s) = &ms[i] {
            let ghost before = out@.map_values(|m: &MatchInfo| *m);
            out.push(s);
            assert(out@.map_values(|m: &MatchInfo| *m) =~= before.push(*s));
        }
        i = i + 1;
    }
    assert(ms@.take(i as int) =~= ms@);
    out
}

/// Whether a match of this session was won.
fn won(m: &MatchInfo) -> (r: bool)
    ensures
        r == is_win(*m),
{
    match &m.finish {
        Some(f) => f.winner == Some(m.our_team),
        None => false,
    }
}

/// A streak is never longer than the session.
pub proof fn lemma_streak_bounded(ss: Seq<MatchInfo>, won: bool)
    ensures
        trailing_run(ss, won) <= ss.len(),
    decreases ss.len(),
{
    if ss.len() > 0 {
        lemma_streak_bounded(ss.drop_last(), won);
    }
}

/// The labels of the streak header: the number of matches; when there is one, the outcome
/// of the last match (a flame for a win, a snowflake for a loss) with the length of its
/// run; after more than four losses in a row, a suggestion to take a break.
pub open spec fn streak_labels(ss: Seq<MatchInfo>) -> Seq<Seq<char>> {
    let count = decimal(ss.len()) + " matches"@;
    if ss.len() == 0 {
        seq![count]
    } else {
        let w = is_win(ss.last());
        let n = trailing_run(ss, w);
        let icon = if w {
            seq!['\u{1F525}']
        } else {
            seq!['\u{2744}', '\u{FE0F}']
        };
        let streak = icon + seq![' '] + decimal(n);
        if !w && n > 4 {
            seq![count, streak, "<!> Consider taking a break"@]
        } else {
            seq![count, streak]
        }
    }
}

/// The labels of the streak header.
pub fn streak_header(ms: &Vec<MatchType>) -> (r: Vec<String>)
    ensures
        r@.map_values(|s: String| s@) == streak_labels(sessions(ms@)),
{
    let ss = session_matches(ms);
    let ghost sv = ss@.map_values(|m: &MatchInfo| *m);
    let count = ss.len();
    let mut first = String::new();
    push_decimal(&mut first, count as u64);
    push_str(&mut first, " matches");
    let mut out: Vec<String> = Vec::new();
    out.push(first);
    if count < 1 {
        assert(out@.map_values(|s: String| s@) =~= streak_labels(sv));
        return out;
    }
    let won_last = won(ss[count - 1]);
    assert(sv.last() == *ss@[count - 1]);
    let mut streak: usize = 0;
    let mut k: usize = count;
    assert(sv.take(count as int) =~= sv);
    while k > 0 && won(ss[k - 1]) == won_last
        invariant
            k <= count,
            count == sv.len(),
            sv == ss@.map_values(|m: &MatchInfo| *m),
            streak + k == count,
            trailing_run(sv, won_last) == streak + trailing_run(sv.take(k as int), won_last),
        decreases k,
    {
        let ghost pre = sv.take(k as int);
        assert(pre.drop_last() =~= sv.take(k - 1));
        assert(pre.last() == *ss@[k - 1]);
        streak = streak + 1;
        k = k - 1;
    }
    proof {
        if k == 0 {
            assert(sv.take(0) =~= Seq::<MatchInfo>::empty());
        } else {
            let pre = sv.take(k as int);
            assert(pre.last() == *ss@[k - 1]);
        }
    }
    let mut label = String::new();
    if won_last {
        push_char(&mut label, '\u{1F525}');
    } else {
        push_char(&mut label, '\u{2744}');
        push_char(&mut label, '\u{FE0F}');
    }
    push_char(&mut label, ' ');
    push_decimal(&mut label, streak as u64);
    assert(trailing_run(sv, won_last) == streak);
    assert(won_last == is_win(sv.last()));
    assert(label@ =~= (if won_last {
        seq!['\u{1F525}']
    } else {
        seq!['\u{2744}', '\u{FE0F}']
    }) + seq![' '] + decimal(streak as nat));
    out.push(label);
    if !won_last && streak > 4 {
        out.push("<!> Consider taking a break".to_owned());
    }
    assert(out@.map_values(|s: String| s@) =~= streak_labels(sv));
    out
}

/// The win/loss label: `-` without matches, else wins, losses and the share of wins in
/// whole percent (rounded down).
pub open spec fn win_loss_label(ss: Seq<MatchInfo>) -> Seq<char> {
    let total = ss.len();
    let wins = win_count(ss);
    if total == 0 {
        seq!['-']
    } else {
        decimal(wins) + seq!['/'] + decimal((total - wins) as nat) + seq![' ', '('] + decimal(
            wins * 100 / total,
        ) + seq!['%', ')']
    }
}

/// Wins never outnumber the matches.
pub proof fn lemma_wins_bounded(ss: Seq<MatchInfo>)
    ensures
        win_count(ss) <= ss.len(),
    decreases ss.len(),
{
    if ss.len() > 0 {
        lemma_wins_bounded(ss.drop_last());
    }
}

/// The win/loss label of this session's matches.
pub fn win_loss_text(ms: &Vec<MatchType>) -> (r: String)
    requires
        ms@.len() <= 0x1_0000_0000_0000,
    ensures
        r@ == win_loss_label(sessions(ms@)),
{
    let ss = session_matches(ms);
    let ghost sv = ss@.map_values(|m: &MatchInfo| *m);
    let total = ss.len();
    let mut wins: usize = 0;
    let mut i: usize = 0;
    while i < total
        invariant
            i <= total,
            total == sv.len(),
            sv == ss@.map_values(|m: &MatchInfo| *m),
            wins == win_count(sv.take(i as int)),
            wins <= i,
        decreases total - i,
    {
        assert(sv.take(i + 1).drop_last() =~= sv.take(i as int));
        assert(sv.take(i + 1).last() == *ss@[i as int]);
        if won(ss[i]) {
            wins = wins + 1;
        }
        i = i + 1;
    }
    assert(sv.take(total as int) =~= sv);
    let mut s = String::new();
    if total == 0 {
        push_char(&mut s, '-');
        return s;
    }
    proof {
        lemma_sessions_len(ms@);
    }
    push_decimal(&mut s, wins as u64);
    push_char(&mut s, '/');
    push_decimal(&mut s, (total - wins) as u64);
    push_char(&mut s, ' ');
    push_char(&mut s, '(');
    push_decimal(&mut s, (wins as u64) * 100 / (total as u64));
    push_char(&mut s, '%');
    push_char(&mut s, ')');
    s
}

/// A history holds at least as many matches as this session.
pub proof fn lemma_sessions_len(ms: Seq<MatchType>)
    ensures
        sessions(ms).len() <= ms.len(),
    decreases ms.len(),
{
    if ms.len() > 0 {
        lemma_sessions_len(ms.drop_last());
    }
}

/// The statistics of the local player of a match of this session: the first local
/// player's.
pub open spec fn local_stats(m: MatchInfo) -> Option<PlayerStats> {
    match first_where(m.players@, is_local_session()) {
        Some(k) => Some(m.players@[k].data.stats),
        None => None,
    }
}

/// The sum of one statistic over the matches of this session where the local player
/// played.
pub open spec fn stat_total(ss: Seq<MatchInfo>, pick: spec_fn(PlayerStats) -> u16) -> nat
    decreases ss.len(),
{
    if ss.len() == 0 {
        0
    } else {
        stat_total(ss.drop_last(), pick) + match local_stats(ss.last()) {
            Some(st) => pick(st) as nat,
            None => 0nat,
        }
    }
}

/// The local player's statistics in a match of this session, if they played.
fn local_stats_of(m: &MatchInfo) -> (r: Option<PlayerStats>)
    ensures
        r == local_stats(*m),
{
    let ghost p = is_local_session();
    let mut i: usize = 0;
    while i < m.players.len()
        invariant
            i <= m.players@.len(),
            p == is_local_session(),
            forall|j: int| 0 <= j < i ==> !p(m.players@[j]),
        decreases m.players@.len() - i,
    {
        if m.players[i].is_local_player {
            proof {
                lemma_first_where_char(m.players@, p, i as int);
            }
            return Some(m.players[i].data.stats);
        }
        i = i + 1;
    }
    proof {
        lemma_first_where_none(m.players@, p);
    }
    None
}

/// One step of a total.
proof fn lemma_total_step(ss: Seq<MatchInfo>, i: int, pick: spec_fn(PlayerStats) -> u16)
    requires
        0 <= i < ss.len(),
    ensures
        stat_total(ss.take(i + 1), pick) == stat_total(ss.take(i), pick) + match local_stats(ss[i]) {
            Some(st) => pick(st) as nat,
            None => 0nat,
        },
        stat_total(ss.take(i + 1), pick) <= stat_total(ss.take(i), pick) + 65535,
{
    assert(ss.take(i + 1).drop_last() =~= ss.take(i));
}

/// The local player's totals over this session's matches.
pub fn totals(ms: &Vec<MatchType>) -> (r: PlayerLongtimeStats)
    requires
        ms@.len() <= 0x1_0000_0000_0000,
    ensures
        r.goals == stat_total(sessions(ms@), |s: PlayerStats| s.goals),
        r.assists == stat_total(sessions(ms@), |s: PlayerStats| s.assists),
        r.saves == stat_total(sessions(ms@), |s: PlayerStats| s.saves),
        r.shots == stat_total(sessions(ms@), |s: PlayerStats| s.shots),
{
    let ss = session_matches(ms);
    let ghost sv = ss@.map_values(|m: &MatchInfo| *m);
    proof {
        lemma_sessions_len(ms@);
    }
    let mut total = PlayerLongtimeStats::default();
    let mut i: usize = 0;
    while i < ss.len()
        invariant
            i <= ss@.len(),
            ss@.len() <= 0x1_0000_0000_0000,
            sv == ss@.map_values(|m: &MatchInfo| *m),
            total.goals == stat_total(sv.take(i as int), |s: PlayerStats| s.goals),
            total.assists == stat_total(sv.take(i as int), |s: PlayerStats| s.assists),
            total.saves == stat_total(sv.take(i as int), |s: PlayerStats| s.saves),
            total.shots == stat_total(sv.take(i as int), |s: PlayerStats| s.shots),
            total.goals <= 65535 * i,
            total.assists <= 65535 * i,
            total.saves <= 65535 * i,
            total.shots <= 65535 * i,
        decreases ss@.len() - i,
    {
        proof {
            lemma_total_step(sv, i as int, |s: PlayerStats| s.goals);
            lemma_total_step(sv, i as int, |s: PlayerStats| s.assists);
            lemma_total_step(sv, i as int, |s: PlayerStats| s.saves);
            lemma_total_step(sv, i as int, |s: PlayerStats| s.shots);
            assert(sv[i as int] == *ss@[i as int]);
            assert(65535 * i + 65535 <= 65535 * 0x1_0000_0000_0000);
        }
        if let Some(st) = local_stats_of(ss[i]) {
            total.goals = total.goals + st.goals as u64;
            total.shots = total.shots + st.shots as u64;
            total.assists = total.assists + st.assists as u64;
            total.saves = total.saves + st.saves as u64;
        }
        i = i + 1;
    }
    assert(sv.take(i as int) =~= sv);
    total
}

/// Whether some match of the history was played in `p`.
pub open spec fn played_playlist(ms: Seq<MatchType>, p: Playlist) -> bool {
    exists|i: int| 0 <= i < ms.len() && #[trigger] crate::matches::widgets::match_renderer::shown_playlist(ms[i]) == p
}

/// The playlists of the history, each once, in the playlists' order.
pub open spec fn choosable(ms: Seq<MatchType>) -> Seq<Playlist> {
    seq![Playlist::Ones, Playlist::Twos, Playlist::Threes].filter(|p: Playlist| played_playlist(ms, p))
}

/// Whether some match of the history was played in `p`.
fn has_playlist(ms: &Vec<MatchType>, p: Playlist) -> (r: bool)
    ensures
        r == played_playlist(ms@, p),
{
    let mut i: usize = 0;
    while i < ms.len()
        invariant
            i <= ms@.len(),
            forall|j: int| 0 <= j < i ==> crate::matches::widgets::match_renderer::shown_playlist(#[trigger] ms@[j]) != p,
        decreases ms@.len() - i,
    {
        if ms[i].playlist() == p {
            return true;
        }
        i = i + 1;
    }
    false
}

/// The playlists the rating graph can show: those of the history, each once, in order.
pub fn choosable_playlists(ms: &Vec<MatchType>) -> (r: Vec<Playlist>)
    ensures
        r@ == choosable(ms@),
{
    let mut out: Vec<Playlist> = Vec::new();
    let a = has_playlist(ms, Playlist::Ones);
    let b = has_playlist(ms, Playlist::Twos);
    let c = has_playlist(ms, Playlist::Threes);
    if a {
        out.push(Playlist::Ones);
    }
    if b {
        out.push(Playlist::Twos);
    }
    if c {
        out.push(Playlist::Threes);
    }
    proof {
        let all = seq![Playlist::Ones, Playlist::Twos, Playlist::Threes];
        let f = |p: Playlist| played_playlist(ms@, p);
        reveal_with_fuel(Seq::<Playlist>::filter, 4);
        assert(all.drop_last().drop_last().drop_last() =~= Seq::<Playlist>::empty());
        assert(all.drop_last().drop_last() =~= seq![Playlist::Ones]);
        assert(all.drop_last() =~= seq![Playlist::Ones, Playlist::Twos]);
        assert(out@ =~= all.filter(f));
    }
    out
}

/// The rating points of a playlist: for each match of this session in it where the local
/// player's standing is known, when it started and the rating.
pub open spec fn mmr_points_of(ms: Seq<MatchType>, p: Playlist) -> Seq<(SystemTime, i16)>
    decreases ms.len(),
{
    if ms.len() == 0 {
        seq![]
    } else {
        let rest = mmr_points_of(ms.drop_last(), p);
        match ms.last() {
            MatchType::Session(s) => if s.playlist != p {
                rest
            } else {
                match first_where(s.players@, is_local_session()) {
                    Some(k) => match standing_in(s.players@[k]@.skill, s.playlist) {
                        Some(st) => rest.push((s.started_at, st.mmr)),
                        None => rest,
                    },
                    None => rest,
                }
            },
            MatchType::Old(_) => rest,
        }
    }
}

/// The local player's rating in a match of this session, if known.
fn local_rating(s: &MatchInfo) -> (r: Option<i16>)
    ensures
        r == match first_where(s.players@, is_local_session()) {
            Some(k) => match standing_in(s.players@[k]@.skill, s.playlist) {
                Some(st) => Some(st.mmr),
                None => None,
            },
            None => None,
        },
{
    let ghost p = is_local_session();
    let mut i: usize = 0;
    while i < s.players.len()
        invariant
            i <= s.players@.len(),
            p == is_local_session(),
            forall|j: int| 0 <= j < i ==> !p(s.players@[j]),
        decreases s.players@.len() - i,
    {
        if s.players[i].is_local_player {
            proof {
                lemma_first_where_char(s.players@, p, i as int);
            }
            return match &s.players[i].skill {
                Some(sk) => match sk.get_playlist(s.playlist) {
                    Some(info) => Some(info.mmr),
                    None => None,
                },
                None => None,
            };
        }
        i = i + 1;
    }
    proof {
        lemma_first_where_none(s.players@, p);
    }
    None
}

/// The rating points of a playlist, in history order.
pub fn mmr_points(ms: &Vec<MatchType>, playlist: Playlist) -> (r: Vec<(SystemTime, i16)>)
    ensures
        r@ == mmr_points_of(ms@, playlist),
{
    let mut out: Vec<(SystemTime, i16)> = Vec::new();
    let mut i: usize = 0;
    while i < ms.len()
        invariant
            i <= ms@.len(),
            out@ == mmr_points_of(ms@.take(i as int), playlist),
        decreases ms@.len() - i,
    {
        assert(ms@.take(i + 1).drop_last() =~= ms@.take(i as int));
        assert(ms@.take(i + 1).last() == ms@[i as int]);
        if let MatchType::Session(s) = &ms[i] {
            if s.playlist == playlist {
                if let Some(mmr) = local_rating(s) {
                    out.push((s.started_at, mmr));
                }
            }
        }
        i = i + 1;
    }
    assert(ms@.take(i as int) =~= ms@);
    out
}

/// Whether `m` is a session match of playlist `p` that started at `t`.
pub open spec fn session_of_playlist_at(m: MatchType, p: Playlist, t: SystemTime) -> bool {
    m matches MatchType::Session(s) && s.playlist == p && s.started_at == t
}

/// Whether some session match of playlist `p` in `ms` started at `t`.
pub open spec fn started_in_history(ms: Seq<MatchType>, p: Playlist, t: SystemTime) -> bool {
    exists|i: int| 0 <= i < ms.len() && #[trigger] session_of_playlist_at(ms[i], p, t)
}

/// Every point of a playlist's rating graph comes from a session match of that playlist:
/// its time is the start of such a match.
pub proof fn lemma_graph_points_from_playlist(ms: Seq<MatchType>, p: Playlist)
    ensures
        mmr_points_of(ms, p).len() <= ms.len(),
        forall|j: int|
            0 <= j < mmr_points_of(ms, p).len() ==> started_in_history(ms, p, #[trigger] mmr_points_of(ms, p)[j].0),
    decreases ms.len(),
{
    if ms.len() > 0 {
        let d = ms.drop_last();
        lemma_graph_points_from_playlist(d, p);
        let rest = mmr_points_of(d, p);
        assert forall|j: int| 0 <= j < mmr_points_of(ms, p).len() implies started_in_history(
            ms,
            p,
            #[trigger] mmr_points_of(ms, p)[j].0,
        ) by {
            if j < rest.len() {
                assert(mmr_points_of(ms, p)[j] == rest[j]);
                assert(started_in_history(d, p, rest[j].0));
                let i = choose|i: int| 0 <= i < d.len() && #[trigger] session_of_playlist_at(d[i], p, rest[j].0);
                assert(ms[i] == d[i]);
                assert(session_of_playlist_at(ms[i], p, mmr_points_of(ms, p)[j].0));
            } else {
                assert(session_of_playlist_at(ms[ms.len() - 1], p, mmr_points_of(ms, p)[j].0));
            }
        }
    }
}

/// Matches of other playlists, and kept matches, add no point to a playlist's graph.
pub proof fn lemma_graph_ignores_other_matches(ms: Seq<MatchType>, m: MatchType, p: Playlist)
    requires
        !(m matches MatchType::Session(s) && s.playlist == p),
    ensures
        mmr_points_of(ms.push(m), p) == mmr_points_of(ms, p),
{
    assert(ms.push(m).drop_last() =~= ms);
}

/// The graph of a history with no session match of the playlist is empty.
pub proof fn lemma_graph_empty_without_playlist(ms: Seq<MatchType>, p: Playlist)
    requires
        forall|i: int| 0 <= i < ms.len() ==> !(#[trigger] ms[i] matches MatchType::Session(s) && s.playlist == p),
    ensures
        mmr_points_of(ms, p).len() == 0,
    decreases ms.len(),
{
    if ms.len() > 0 {
        let d = ms.drop_last();
        assert forall|i: int| 0 <= i < d.len() implies !(#[trigger] d[i] matches MatchType::Session(s) && s.playlist
            == p) by {
            assert(d[i] == ms[i]);
        }
        lemma_graph_empty_without_playlist(d, p);
        assert(!(ms[ms.len() - 1] matches MatchType::Session(s) && s.playlist == p));
    }
}

/// A session match of the playlist where the local player's standing in it is known adds one
/// point at the end of the graph: the match's start and that standing's rating.
pub proof fn lemma_graph_adds_known_standing(ms: Seq<MatchType>, s: MatchInfo, p: Playlist)
    requires
        s.playlist == p,
        first_where(s.players@, is_local_session()) is Some,
        standing_in(s.players@[first_where(s.players@, is_local_session())->0]@.skill, p) is Some,
    ensures
        mmr_points_of(ms.push(MatchType::Session(s)), p) == mmr_points_of(ms, p).push(
            (
                s.started_at,
                standing_in(s.players@[first_where(s.players@, is_local_session())->0]@.skill, p)->0.mmr,
            ),
        ),
{
    assert(ms.push(MatchType::Session(s)).drop_last() =~= ms);
}

} // verus!
