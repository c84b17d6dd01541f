//! The current match: who plays, who left, and the record kept of it afterwards.

use std::sync::Arc;
use std::time::SystemTime;
use vstd::prelude::*;

use crate::common::clock::now;
use crate::matches::apis::rank_api::{for_playlist, PlayerSkillInformation, PlaylistSkillInformation};
use crate::rocket_league::{Platform, Playlist, Team};
use crate::seqs::{first_where, lemma_first_where_char, lemma_first_where_from, lemma_first_where_none};
use crate::stats_api::{player_views, MatchState, MatchUpdate, PlayerData, PlayerView, TeamScores};
use crate::text::{after_first, chars_of, first_field, push_str, split_at_char, string_of};

verus! {

/// A player of the current match, with what the lookup services found out about them.
#[derive(Debug, Clone)]
pub struct MatchPlayer {
    pub left: bool,
    pub uncensored_name: Option<Arc<String>>,
    pub epic_name: Option<Arc<String>>,
    pub data: PlayerData,
    pub skill: Option<Arc<PlayerSkillInformation>>,
    pub is_local_player: bool,
}

/// The name shown for a player: the uncensored name once known, else the reported one.
pub open spec fn display_name_of(p: MatchPlayer) -> Seq<char> {
    match p.uncensored_name {
        Some(n) => n@,
        None => p.data.name@,
    }
}

/// The platform id field after the platform tag (`Steam|<id>|0` gives `<id>`).
pub open spec fn second_field(s: Seq<char>) -> Seq<char> {
    first_field(after_first(s, '|'), '|')
}

/// The tracker profile path a player is shown under: the Epic name once known, else
/// the platform's own handle (for Steam the numeric id); bots have none.
pub open spec fn trn_profile(p: MatchPlayer) -> Option<(Seq<char>, Seq<char>)> {
    if p.data.platform == Platform::Bot {
        None
    } else {
        match p.epic_name {
            Some(n) => Some(("epic"@, n@)),
            None => Some(
                match p.data.platform {
                    Platform::Epic => ("epic"@, display_name_of(p)),
                    Platform::Switch => ("switch"@, display_name_of(p)),
                    Platform::PlayStation => ("psn"@, display_name_of(p)),
                    Platform::Xbox => ("xbl"@, display_name_of(p)),
                    _ => ("steam"@, second_field(p.data.platform_id@)),
                },
            ),
        }
    }
}

/// The tracker profile link of a player.
pub open spec fn trn_link_text(p: MatchPlayer) -> Option<Seq<char>> {
    match trn_profile(p) {
        Some((prefix, id)) => Some(
            "https://rocketleague.tracker.network/rocket-league/profile/"@ + prefix + seq!['/'] + id
                + "/overview"@,
        ),
        None => None,
    }
}

/// The id has a `|` separator after the platform tag.
pub open spec fn has_separator(s: Seq<char>) -> bool {
    exists|i: int| 0 <= i < s.len() && s[i] == '|'
}

/// The second `|`-separated field of an id.
pub(crate) fn second_field_of(id: &String) -> (r: String)
    requires
        has_separator(id@),
    ensures
        r@ == second_field(id@),
{
    let v = chars_of(id.as_str());
    let (end, found) = split_at_char(&v, 0, '|');
    assert(v@.skip(0) =~= v@);
    proof {
        crate::text::lemma_find_from_sound(v@, seq!['|'], 0);
        let i = choose|i: int| 0 <= i < v@.len() && v@[i] == '|';
        assert(crate::text::occurs_at(v@, seq!['|'], i)) by {
            assert(v@.subrange(i, i + 1) =~= seq!['|']);
        }
    }
    assert(found);
    let n = v.len();
    let (end2, _) = split_at_char(&v, end + 1, '|');
    string_of(&v, end + 1, end2)
}

impl MatchPlayer {
    pub fn display_name(&self) -> (r: &str)
        ensures
            r@ == display_name_of(*self),
    {
        match &self.uncensored_name {
            Some(name) => name.as_str(),
            None => self.data.name.as_str(),
        }
    }

    /// Whether the name shown is one the profanity filter hid.
    pub fn display_name_is_censored(&self) -> (r: bool)
        ensures
            r == censored(display_name_of(*self)),
    {
        is_censored(self.display_name())
    }

    /// The tracker profile link; bots have none.
    pub fn trn_link(&self) -> (r: Option<String>)
        requires
            self.data.platform == Platform::Steam ==> has_separator(self.data.platform_id@),
        ensures
            r matches Some(s) ==> trn_link_text(*self) == Some(s@),
            r is None ==> trn_link_text(*self) is None,
    {
        let fallback: (&str, String) = match self.data.platform {
            Platform::Bot => return None,
            Platform::Epic => ("epic", self.display_name().to_owned()),
            Platform::Switch => ("switch", self.display_name().to_owned()),
            Platform::PlayStation => ("psn", self.display_name().to_owned()),
            Platform::Xbox => ("xbl", self.display_name().to_owned()),
            Platform::Steam => ("steam", second_field_of(&self.data.platform_id)),
        };
        let (prefix, id): (&str, String) = match &self.epic_name {
            Some(n) => ("epic", n.as_str().to_owned()),
            None => fallback,
        };
        let mut link = "https://rocketleague.tracker.network/rocket-league/profile/".to_owned();
        push_str(&mut link, prefix);
        crate::text::push_char(&mut link, '/');
        push_str(&mut link, id.as_str());
        push_str(&mut link, "/overview");
        Some(link)
    }
}

/// The model of a match player.
pub struct MatchPlayerView {
    pub left: bool,
    pub uncensored_name: Option<Seq<char>>,
    pub epic_name: Option<Seq<char>>,
    pub data: PlayerView,
    pub skill: Option<Seq<PlaylistSkillInformation>>,
    pub is_local_player: bool,
}

impl View for MatchPlayer {
    type V = MatchPlayerView;

    open spec fn view(&self) -> MatchPlayerView {
        MatchPlayerView {
            left: self.left,
            uncensored_name: match self.uncensored_name {
                Some(n) => Some(n@),
                None => None,
            },
            epic_name: match self.epic_name {
                Some(n) => Some(n@),
                None => None,
            },
            data: self.data@,
            skill: match self.skill {
                Some(s) => Some(s.playlists@),
                None => None,
            },
            is_local_player: self.is_local_player,
        }
    }
}

/// The models of a list of match players.
pub open spec fn match_player_views(s: Seq<MatchPlayer>) -> Seq<MatchPlayerView> {
    s.map_values(|p: MatchPlayer| p@)
}

/// A name hidden by the game's profanity filter: non-empty and all asterisks.
pub open spec fn censored(name: Seq<char>) -> bool {
    name.len() > 0 && forall|i: int| 0 <= i < name.len() ==> name[i] == '*'
}

/// Whether a name is hidden by the game's profanity filter.
pub fn is_censored(name: &str) -> (r: bool)
    ensures
        r == censored(name@),
{
    let v = chars_of(name);
    if v.len() == 0 {
        return false;
    }
    let mut i: usize = 0;
    while i < v.len()
        invariant
            v@ == name@,
            i <= v@.len(),
            forall|j: int| 0 <= j < i ==> v@[j] == '*',
        decreases v@.len() - i,
    {
        if v[i] != '*' {
            return false;
        }
        i = i + 1;
    }
    true
}

/// The id a player is matched by across updates: bots all share one id, so a bot is
/// matched by its name instead.
pub open spec fn normalized(p: PlayerView) -> PlayerView {
    PlayerView {
        platform_id: if p.platform == Platform::Bot {
            p.name
        } else {
            p.platform_id
        },
        ..p
    }
}

/// Gives every bot its name as its id, so that bots can be told apart.
pub fn normalize_bot_player_ids(players: &mut Vec<PlayerData>)
    ensures
        player_views(final(players)@) == player_views(old(players)@).map_values(
            |p: PlayerView| normalized(p),
        ),
{
    let ghost before = player_views(players@);
    let mut i: usize = 0;
    while i < players.len()
        invariant
            i <= players@.len(),
            before.len() == players@.len(),
            forall|j: int| 0 <= j < i ==> #[trigger] players@[j]@ == normalized(before[j]),
            forall|j: int| i <= j < players@.len() ==> #[trigger] players@[j]@ == before[j],
        decreases players@.len() - i,
    {
        let ghost prev = players@;
        if players[i].platform == Platform::Bot {
            let mut p = players.remove(i);
            p.platform_id = p.name.clone();
            players.insert(i, p);
            assert(players@ =~= prev.update(i as int, p));
            assert(p@ == normalized(before[i as int]));
        } else {
            assert(players@[i as int]@ == normalized(before[i as int]));
        }
        i = i + 1;
    }
    assert(player_views(players@) =~= before.map_values(|p: PlayerView| normalized(p)));
}

/// How a match ended.
#[derive(Debug, Clone)]
pub struct MatchOverInfo {
    pub timestamp: SystemTime,
    pub winner: Option<Team>,
}

/// The current (or a finished) match.
#[derive(Debug, Clone)]
pub struct MatchInfo {
    pub players: Vec<MatchPlayer>,
    pub score: TeamScores,
    pub our_team: Team,
    pub finish: Option<MatchOverInfo>,
    pub started_at: SystemTime,
    pub max_active_players: usize,
    pub arena: &'static str,
    pub playlist: Playlist,
    pub state: MatchState,
}

/// The players with the given id.
pub open spec fn id_is(id: Seq<char>) -> spec_fn(PlayerView) -> bool {
    |p: PlayerView| p.platform_id == id
}

/// `s` after `Vec::swap_remove(k)`: the last element takes the place of the `k`-th.
pub open spec fn swap_removed<T>(s: Seq<T>, k: int) -> Seq<T> {
    s.update(k, s.last()).drop_last()
}

/// A player who joined with this update.
pub open spec fn arrived(d: PlayerView, local: Option<Seq<char>>) -> MatchPlayerView {
    MatchPlayerView {
        left: false,
        uncensored_name: None,
        epic_name: None,
        data: d,
        skill: None,
        is_local_player: local == Some(d.platform_id),
    }
}

/// A known player who is still in the match, with their latest report.
pub open spec fn refreshed(p: MatchPlayerView, d: PlayerView) -> MatchPlayerView {
    MatchPlayerView { left: false, data: d, ..p }
}

/// A known player who is no longer reported.
pub open spec fn departed(p: MatchPlayerView) -> MatchPlayerView {
    MatchPlayerView { left: true, ..p }
}

/// The player list after an update: each known player, in order, takes the first reported
/// player with their id (which is then removed from the reports as `swap_remove` removes
/// it) or is marked as left; the reports nobody took join at the end, in their remaining order.
pub open spec fn merge_players(
    cur: Seq<MatchPlayerView>,
    news: Seq<PlayerView>,
    local: Option<Seq<char>>,
) -> Seq<MatchPlayerView>
    decreases cur.len(),
{
    if cur.len() == 0 {
        news.map_values(|d: PlayerView| arrived(d, local))
    } else {
        match first_where(news, id_is(cur[0].data.platform_id)) {
            Some(k) => seq![refreshed(cur[0], news[k])] + merge_players(
                cur.drop_first(),
                swap_removed(news, k),
                local,
            ),
            None => seq![departed(cur[0])] + merge_players(cur.drop_first(), news, local),
        }
    }
}

/// The local player's entries.
pub open spec fn is_local() -> spec_fn(MatchPlayerView) -> bool {
    |p: MatchPlayerView| p.is_local_player
}

/// The local player's team, or blue when the local player is not among the players.
pub open spec fn local_team(players: Seq<MatchPlayerView>) -> Team {
    match first_where(players, is_local()) {
        Some(k) => players[k].data.team,
        None => Team::Blue,
    }
}

/// The players of team `t`.
pub open spec fn on_team(t: Team) -> spec_fn(MatchPlayerView) -> bool {
    |p: MatchPlayerView| p.data.team == t
}

/// The players of team `t`'s opponents.
pub open spec fn off_team(t: Team) -> spec_fn(MatchPlayerView) -> bool {
    |p: MatchPlayerView| p.data.team != t
}

/// The players of team `t` first, then the others, each group in its previous order
/// (a stable sort with `t`'s players first).
pub open spec fn team_first(s: Seq<MatchPlayerView>, t: Team) -> Seq<MatchPlayerView> {
    s.filter(on_team(t)) + s.filter(off_team(t))
}

/// No two players share an id.
pub open spec fn distinct_ids(cur: Seq<MatchPlayerView>) -> bool {
    forall|i: int, j: int|
        0 <= i < j < cur.len() ==> #[trigger] cur[i].data.platform_id != #[trigger] cur[j].data.platform_id
}

/// Some report has the id.
pub open spec fn reported(news: Seq<PlayerView>, id: Seq<char>) -> bool {
    exists|k: int| 0 <= k < news.len() && #[trigger] news[k].platform_id == id
}

/// Taking one report out leaves every other report.
proof fn lemma_swap_removed_reports(s: Seq<PlayerView>, k: int)
    requires
        0 <= k < s.len(),
    ensures
        forall|id: Seq<char>| reported(swap_removed(s, k), id) ==> reported(s, id),
        forall|id: Seq<char>| id != s[k].platform_id && reported(s, id) ==> reported(swap_removed(s, k), id),
        forall|y: PlayerView| swap_removed(s, k).contains(y) ==> s.contains(y),
{
    let sr = swap_removed(s, k);
    let last = s.len() - 1;
    assert(sr.len() == last);
    assert forall|j: int| 0 <= j < sr.len() implies sr[j] == (if j == k {
        s[last]
    } else {
        s[j]
    }) by {}
    assert forall|id: Seq<char>| reported(sr, id) implies reported(s, id) by {
        let j = choose|j: int| 0 <= j < sr.len() && #[trigger] sr[j].platform_id == id;
        if j == k {
            assert(s[last].platform_id == id);
        } else {
            assert(s[j].platform_id == id);
        }
    }
    assert forall|id: Seq<char>| id != s[k].platform_id && reported(s, id) implies reported(sr, id) by {
        let j = choose|j: int| 0 <= j < s.len() && #[trigger] s[j].platform_id == id;
        assert(j != k);
        if j == last {
            assert(sr[k].platform_id == id);
        } else {
            assert(sr[j].platform_id == id);
        }
    }
    assert forall|y: PlayerView| sr.contains(y) implies s.contains(y) by {
        let j = choose|j: int| 0 <= j < sr.len() && sr[j] == y;
        if j == k {
            assert(s[last] == y);
        } else {
            assert(s[j] == y);
        }
    }
}

/// An update keeps every known player in their place: a player still reported takes a
/// report with their id and is no longer marked as left; a player no longer reported stays
/// in the list, marked as left. New players only come after the known ones.
pub proof fn lemma_merge_keeps_players(cur: Seq<MatchPlayerView>, news: Seq<PlayerView>, local: Option<Seq<char>>)
    requires
        distinct_ids(cur),
    ensures
        merge_players(cur, news, local).len() >= cur.len(),
        forall|i: int|
            0 <= i < cur.len() ==> {
                let m = #[trigger] merge_players(cur, news, local)[i];
                &&& m.data.platform_id == cur[i].data.platform_id
                &&& (m.left <==> !reported(news, cur[i].data.platform_id))
                &&& (!m.left ==> news.contains(m.data))
            },
    decreases cur.len(),
{
    if cur.len() > 0 {
        let id0 = cur[0].data.platform_id;
        let tail = cur.drop_first();
        assert(distinct_ids(tail)) by {
            assert forall|i: int, j: int| 0 <= i < j < tail.len() implies #[trigger] tail[i].data.platform_id
                != #[trigger] tail[j].data.platform_id by {
                assert(tail[i] == cur[i + 1] && tail[j] == cur[j + 1]);
            }
        }
        crate::seqs::lemma_first_where_from(news, id_is(id0), 0);
        let merged = merge_players(cur, news, local);
        match first_where(news, id_is(id0)) {
            Some(k) => {
                let nr = swap_removed(news, k);
                lemma_merge_keeps_players(tail, nr, local);
                lemma_swap_removed_reports(news, k);
                let rest = merge_players(tail, nr, local);
                assert(merged == seq![refreshed(cur[0], news[k])] + rest);
                assert(reported(news, id0)) by {
                    assert(news[k].platform_id == id0);
                }
                assert(news.contains(news[k]));
                assert forall|i: int| 0 <= i < cur.len() implies {
                    let m = #[trigger] merged[i];
                    &&& m.data.platform_id == cur[i].data.platform_id
                    &&& (m.left <==> !reported(news, cur[i].data.platform_id))
                    &&& (!m.left ==> news.contains(m.data))
                } by {
                    if i > 0 {
                        assert(merged[i] == rest[i - 1]);
                        assert(tail[i - 1] == cur[i]);
                        assert(cur[0].data.platform_id != cur[i].data.platform_id);
                    }
                }
            },
            None => {
                lemma_merge_keeps_players(tail, news, local);
                let rest = merge_players(tail, news, local);
                assert(merged == seq![departed(cur[0])] + rest);
                assert(!reported(news, id0));
                assert forall|i: int| 0 <= i < cur.len() implies {
                    let m = #[trigger] merged[i];
                    &&& m.data.platform_id == cur[i].data.platform_id
                    &&& (m.left <==> !reported(news, cur[i].data.platform_id))
                    &&& (!m.left ==> news.contains(m.data))
                } by {
                    if i > 0 {
                        assert(merged[i] == rest[i - 1]);
                        assert(tail[i - 1] == cur[i]);
                    }
                }
            },
        }
    }
}

/// Putting a team first only reorders the players: the result holds the same players, each
/// as many times, and is as long.
pub proof fn lemma_team_first_permutes(s: Seq<MatchPlayerView>, t: Team)
    ensures
        team_first(s, t).len() == s.len(),
        team_first(s, t).to_multiset() == s.to_multiset(),
    decreases s.len(),
{
    broadcast use vstd::seq_lib::lemma_multiset_commutative;
    broadcast use vstd::seq_lib::group_seq_properties;
    broadcast use vstd::multiset::group_multiset_axioms;
    reveal_with_fuel(Seq::<MatchPlayerView>::filter, 1);
    if s.len() == 0 {
        assert(s.filter(on_team(t)) =~= Seq::<MatchPlayerView>::empty());
        assert(s.filter(off_team(t)) =~= Seq::<MatchPlayerView>::empty());
        assert(team_first(s, t) =~= s);
    } else {
        let init = s.drop_last();
        let x = s.last();
        lemma_team_first_permutes(init, t);
        let a = init.filter(on_team(t));
        let b = init.filter(off_team(t));
        assert(s =~= init.push(x));
        init.to_multiset_ensures();
        a.to_multiset_ensures();
        b.to_multiset_ensures();
        if x.data.team == t {
            assert(team_first(s, t) =~= a.push(x) + b);
            assert((a.push(x) + b).to_multiset() =~= a.to_multiset().insert(x).add(b.to_multiset()));
            assert((a + b).to_multiset() =~= a.to_multiset().add(b.to_multiset()));
        } else {
            assert(team_first(s, t) =~= (a + b).push(x));
            (a + b).to_multiset_ensures();
        }
    }
}

/// The local player id as a character sequence.
pub open spec fn local_view(local: Option<String>) -> Option<Seq<char>> {
    match local {
        Some(s) => Some(s@),
        None => None,
    }
}

/// The first reported player with the given id.
fn position_of(news: &Vec<PlayerData>, id: &String) -> (r: Option<usize>)
    ensures
        r is Some <==> first_where(player_views(news@), id_is(id@)) is Some,
        r matches Some(k) ==> first_where(player_views(news@), id_is(id@)) == Some(k as int),
{
    let ghost vs = player_views(news@);
    let ghost p = id_is(id@);
    let mut i: usize = 0;
    while i < news.len()
        invariant
            i <= news@.len(),
            vs == player_views(news@),
            p == id_is(id@),
            forall|j: int| 0 <= j < i ==> !p(vs[j]),
        decreases news@.len() - i,
    {
        if news[i].platform_id == *id {
            assert(p(vs[i as int]));
            proof {
                lemma_first_where_char(vs, p, i as int);
            }
            return Some(i);
        }
        assert(!p(vs[i as int]));
        i = i + 1;
    }
    proof {
        lemma_first_where_none(vs, p);
    }
    None
}

/// Whether an id is the local player's.
fn is_local_id(local_player_id: &Option<String>, id: &String) -> (r: bool)
    ensures
        r == (local_view(*local_player_id) == Some(id@)),
{
    match local_player_id {
        Some(local) => *local == *id,
        None => false,
    }
}

/// The entry for a player who joined with an update.
fn arrival(d: PlayerData, local_player_id: &Option<String>) -> (r: MatchPlayer)
    ensures
        r@ == arrived(d@, local_view(*local_player_id)),
{
    let is_local = is_local_id(local_player_id, &d.platform_id);
    MatchPlayer {
        is_local_player: is_local,
        left: false,
        uncensored_name: None,
        epic_name: None,
        skill: None,
        data: d,
    }
}

/// Merges reported players into the player list (see `merge_players`).
fn merge_into(
    players: Vec<MatchPlayer>,
    news: Vec<PlayerData>,
    local_player_id: &Option<String>,
) -> (r: Vec<MatchPlayer>)
    ensures
        match_player_views(r@) == merge_players(
            match_player_views(players@),
            player_views(news@),
            local_view(*local_player_id),
        ),
{
    let ghost local = local_view(*local_player_id);
    let ghost all = match_player_views(players@);
    let ghost total = merge_players(all, player_views(news@), local);
    let mut rest = players;
    let mut news = news;
    let mut out: Vec<MatchPlayer> = Vec::new();
    let mut k: usize = 0;
    let n: usize = rest.len();
    assert(all.skip(0) =~= all);
    assert(match_player_views(out@) + total =~= total);
    while rest.len() > 0
        invariant
            n == all.len(),
            rest@.len() + k == n,
            match_player_views(rest@) == all.skip(k as int),
            total == match_player_views(out@) + merge_players(
                all.skip(k as int),
                player_views(news@),
                local,
            ),
            local == local_view(*local_player_id),
        decreases rest@.len(),
    {
        let ghost cur = all.skip(k as int);
        let ghost news_before = player_views(news@);
        let mut p = rest.remove(0);
        assert(p@ == cur[0]);
        assert(cur.drop_first() =~= all.skip(k + 1));
        match position_of(&news, &p.data.platform_id) {
            Some(pos) => {
                proof {
                    lemma_first_where_from(news_before, id_is(cur[0].data.platform_id), 0);
                }
                let d = news.swap_remove(pos);
                assert(player_views(news@) =~= swap_removed(news_before, pos as int));
                p.data = d;
                p.left = false;
                assert(p@ == refreshed(cur[0], news_before[pos as int]));
            },
            None => {
                p.left = true;
                assert(p@ == departed(cur[0]));
            },
        }
        let ghost before_push = match_player_views(out@);
        out.push(p);
        assert(match_player_views(out@) =~= before_push.push(p@));
        k = k + 1;
        assert(match_player_views(rest@) =~= all.skip(k as int));
        assert(total =~= match_player_views(out@) + merge_players(all.skip(k as int), player_views(news@), local));
    }
    assert(all.skip(n as int) =~= Seq::<MatchPlayerView>::empty());
    let ghost remaining = player_views(news@);
    let ghost head = match_player_views(out@);
    assert(total == head + remaining.map_values(|d: PlayerView| arrived(d, local)));
    let m: usize = news.len();
    let mut j: usize = 0;
    while news.len() > 0
        invariant
            m == remaining.len(),
            news@.len() + j == m,
            player_views(news@) == remaining.skip(j as int),
            match_player_views(out@) == head + remaining.take(j as int).map_values(
                |d: PlayerView| arrived(d, local),
            ),
            local == local_view(*local_player_id),
        decreases news@.len(),
    {
        let ghost nb = news@;
        let d = news.remove(0);
        assert(player_views(nb)[0] == nb[0]@);
        assert(remaining.skip(j as int)[0] == remaining[j as int]);
        assert(d@ == remaining[j as int]);
        assert(player_views(news@) =~= player_views(nb).drop_first());
        let fresh = arrival(d, local_player_id);
        let ghost before_push = match_player_views(out@);
        out.push(fresh);
        assert(match_player_views(out@) =~= before_push.push(fresh@));
        assert(remaining.take((j + 1) as int).map_values(|d: PlayerView| arrived(d, local))
            =~= remaining.take(j as int).map_values(|d: PlayerView| arrived(d, local)).push(
            arrived(remaining[j as int], local),
        ));
        j = j + 1;
        assert(player_views(news@) =~= remaining.skip(j as int));
    }
    assert(remaining.take(m as int) =~= remaining);
    out
}

/// Reorders players so that team `t` comes first, keeping the order within each group.
fn sort_team_first(players: Vec<MatchPlayer>, t: Team) -> (r: Vec<MatchPlayer>)
    ensures
        match_player_views(r@) == team_first(match_player_views(players@), t),
{
    let ghost all = match_player_views(players@);
    let mut rest = players;
    let mut ours: Vec<MatchPlayer> = Vec::new();
    let mut theirs: Vec<MatchPlayer> = Vec::new();
    let n: usize = rest.len();
    let mut k: usize = 0;
    proof {
        reveal_with_fuel(Seq::<MatchPlayerView>::filter, 1);
        assert(all.take(0) =~= Seq::<MatchPlayerView>::empty());
        assert(all.skip(0) =~= all);
    }
    while rest.len() > 0
        invariant
            n == all.len(),
            rest@.len() + k == n,
            match_player_views(rest@) == all.skip(k as int),
            match_player_views(ours@) == all.take(k as int).filter(on_team(t)),
            match_player_views(theirs@) == all.take(k as int).filter(off_team(t)),
        decreases rest@.len(),
    {
        let ghost rb = rest@;
        let p = rest.remove(0);
        assert(match_player_views(rb)[0] == p@);
        assert(all.skip(k as int)[0] == all[k as int]);
        assert(match_player_views(rest@) =~= match_player_views(rb).drop_first());
        assert(all.skip(k as int).drop_first() =~= all.skip(k + 1));
        proof {
            reveal_with_fuel(Seq::<MatchPlayerView>::filter, 1);
            let pre = all.take((k + 1) as int);
            assert(pre.drop_last() =~= all.take(k as int));
            assert(pre.last() == p@);
        }
        if p.data.team == t {
            let ghost ob = match_player_views(ours@);
            ours.push(p);
            assert(match_player_views(ours@) =~= ob.push(p@));
        } else {
            let ghost tb = match_player_views(theirs@);
            theirs.push(p);
            assert(match_player_views(theirs@) =~= tb.push(p@));
        }
        k = k + 1;
        assert(match_player_views(rest@) =~= all.skip(k as int));
    }
    assert(all.take(n as int) =~= all);
    let ghost ov = match_player_views(ours@);
    let ghost tv = match_player_views(theirs@);
    ours.append(&mut theirs);
    assert(match_player_views(ours@) =~= ov + tv);
    ours
}

/// The team of the first local player in the list, or blue.
fn team_of_local(players: &Vec<MatchPlayer>) -> (r: Team)
    ensures
        r == local_team(match_player_views(players@)),
{
    let ghost vs = match_player_views(players@);
    let ghost p = is_local();
    let mut i: usize = 0;
    while i < players.len()
        invariant
            i <= players@.len(),
            vs == match_player_views(players@),
            p == is_local(),
            forall|j: int| 0 <= j < i ==> !p(vs[j]),
        decreases players@.len() - i,
    {
        if players[i].is_local_player {
            assert(p(vs[i as int]));
            proof {
                lemma_first_where_char(vs, p, i as int);
            }
            return players[i].data.team;
        }
        assert(!p(vs[i as int]));
        i = i + 1;
    }
    proof {
        lemma_first_where_none(vs, p);
    }
    Team::Blue
}

/// The team of the reported player with the local player's id, or blue.
pub open spec fn reported_team(players: Seq<PlayerView>, local: Option<Seq<char>>) -> Team {
    match local {
        Some(id) => match first_where(players, id_is(id)) {
            Some(k) => players[k].team,
            None => Team::Blue,
        },
        None => Team::Blue,
    }
}

/// The local player's team among reported players; blue when they are not reported.
pub fn our_team(players: &Vec<PlayerData>, local_player_id: Option<&String>) -> (r: Team)
    ensures
        r == reported_team(
            player_views(players@),
            match local_player_id {
                Some(s) => Some(s@),
                None => None,
            },
        ),
{
    match local_player_id {
        Some(id) => match position_of(players, id) {
            Some(k) => {
                proof {
                    lemma_first_where_from(player_views(players@), id_is(id@), 0);
                }
                players[k].team
            },
            None => Team::Blue,
        },
        None => Team::Blue,
    }
}

/// The players of a new match: the reports, with bots given their names as ids.
pub open spec fn fresh_players(update: Seq<PlayerView>, local: Option<Seq<char>>) -> Seq<MatchPlayerView> {
    update.map_values(|p: PlayerView| normalized(p)).map_values(|d: PlayerView| arrived(d, local))
}

impl MatchInfo {
    /// The record of a match that has just been reported for the first time.
    pub fn new(update: MatchUpdate, local_player_id: &Option<String>) -> (r: Self)
        ensures
            match_player_views(r.players@) == fresh_players(
                player_views(update.players@),
                local_view(*local_player_id),
            ),
            r.our_team == reported_team(
                player_views(update.players@).map_values(|p: PlayerView| normalized(p)),
                local_view(*local_player_id),
            ),
            r.score == update.score,
            r.finish is None,
            r.max_active_players == update.players@.len(),
            r.arena == update.arena,
            r.playlist == update.playlist,
            r.state == update.state,
    {
        let mut update = update;
        normalize_bot_player_ids(&mut update.players);
        let team = our_team(&update.players, local_player_id.as_ref());
        let count = update.players.len();
        let ghost reported = player_views(update.players@);
        let none: Vec<MatchPlayer> = Vec::new();
        assert(match_player_views(none@) =~= Seq::<MatchPlayerView>::empty());
        let players = merge_into(none, update.players, local_player_id);
        Self {
            score: update.score,
            our_team: team,
            finish: None,
            started_at: now(),
            max_active_players: count,
            arena: update.arena,
            playlist: update.playlist,
            state: update.state,
            players,
        }
    }
}

/// The player list after an update: the merge of the known players with the reports
/// (bots given their names as ids), the local player's team first.
pub open spec fn updated_players(
    cur: Seq<MatchPlayerView>,
    update: Seq<PlayerView>,
    local: Option<Seq<char>>,
) -> Seq<MatchPlayerView> {
    let merged = merge_players(cur, update.map_values(|p: PlayerView| normalized(p)), local);
    team_first(merged, local_team(merged))
}

/// The team the local player is on after an update (blue when they are not playing).
pub open spec fn updated_team(
    cur: Seq<MatchPlayerView>,
    update: Seq<PlayerView>,
    local: Option<Seq<char>>,
) -> Team {
    local_team(merge_players(cur, update.map_values(|p: PlayerView| normalized(p)), local))
}

impl MatchInfo {
    /// Takes in a state update of the match: the score and phase, the largest number of
    /// players seen, and the merged player list with the local player's team first.
    pub fn update(&mut self, updated: MatchUpdate, local_player_id: &Option<String>)
        ensures
            final(self).state == updated.state,
            final(self).score == updated.score,
            final(self).max_active_players as int == if old(self).max_active_players
                >= updated.players@.len() {
                old(self).max_active_players as int
            } else {
                updated.players@.len() as int
            },
            match_player_views(final(self).players@) == updated_players(
                match_player_views(old(self).players@),
                player_views(updated.players@),
                local_view(*local_player_id),
            ),
            final(self).our_team == updated_team(
                match_player_views(old(self).players@),
                player_views(updated.players@),
                local_view(*local_player_id),
            ),
            final(self).finish == old(self).finish,
            final(self).started_at == old(self).started_at,
            final(self).arena == old(self).arena,
            final(self).playlist == old(self).playlist,
    {
        let mut updated = updated;
        self.state = updated.state;
        if updated.players.len() > self.max_active_players {
            self.max_active_players = updated.players.len();
        }
        self.score = updated.score;

        normalize_bot_player_ids(&mut updated.players);
        let mut players: Vec<MatchPlayer> = Vec::new();
        std::mem::swap(&mut players, &mut self.players);
        let merged = merge_into(players, updated.players, local_player_id);
        let team = team_of_local(&merged);
        self.our_team = team;
        self.players = sort_team_first(merged, team);
    }
}

/// The model of an optional shared name.
pub open spec fn name_view(n: Option<Arc<String>>) -> Option<Seq<char>> {
    match n {
        Some(s) => Some(s@),
        None => None,
    }
}

/// The model of an optional shared standing.
pub open spec fn skill_view(s: Option<Arc<PlayerSkillInformation>>) -> Option<Seq<PlaylistSkillInformation>> {
    match s {
        Some(x) => Some(x.playlists@),
        None => None,
    }
}

impl MatchPlayer {
    /// Looks up the player's uncensored name.
    pub fn uncensor_with<F: Fn(&String) -> Option<Arc<String>>>(&mut self, lookup: F)
        requires
            forall|id: &String| call_requires(lookup, (id,)),
        ensures
            call_ensures(lookup, (&old(self).data.platform_id,), final(self).uncensored_name),
            final(self)@ == (MatchPlayerView {
                uncensored_name: name_view(final(self).uncensored_name),
                ..old(self)@
            }),
    {
        self.uncensored_name = lookup(&self.data.platform_id);
    }
}

impl MatchInfo {
    /// Looks up the rank standing of every player who is not a bot.
    pub fn update_ranks<F: Fn(&String) -> Option<Arc<PlayerSkillInformation>>>(&mut self, lookup: F)
        requires
            forall|id: &String| call_requires(lookup, (id,)),
        ensures
            final(self).players@.len() == old(self).players@.len(),
            forall|i: int|
                0 <= i < old(self).players@.len() ==> if old(self).players@[i].data.platform
                    != Platform::Bot {
                    call_ensures(lookup, (&old(self).players@[i].data.platform_id,), final(self).players@[i].skill)
                        && final(self).players@[i]@ == (MatchPlayerView {
                        skill: skill_view(final(self).players@[i].skill),
                        ..old(self).players@[i]@
                    })
                } else {
                    final(self).players@[i] == old(self).players@[i]
                },
            final(self).score == old(self).score,
            final(self).our_team == old(self).our_team,
            final(self).state == old(self).state,
            final(self).finish == old(self).finish,
    {
        let ghost before = self.players@;
        let mut i: usize = 0;
        while i < self.players.len()
            invariant
                forall|id: &String| call_requires(lookup, (id,)),
                i <= self.players@.len(),
                self.players@.len() == before.len(),
                self.score == old(self).score,
                self.our_team == old(self).our_team,
                self.state == old(self).state,
                self.finish == old(self).finish,
                before == old(self).players@,
                forall|j: int| i <= j < before.len() ==> self.players@[j] == before[j],
                forall|j: int|
                    0 <= j < i ==> if before[j].data.platform != Platform::Bot {
                        call_ensures(lookup, (&before[j].data.platform_id,), self.players@[j].skill)
                            && self.players@[j]@ == (MatchPlayerView {
                            skill: skill_view(self.players@[j].skill),
                            ..before[j]@
                        })
                    } else {
                        self.players@[j] == before[j]
                    },
            decreases before.len() - i,
        {
            if self.players[i].data.platform != Platform::Bot {
                let skill = lookup(&self.players[i].data.platform_id);
                let mut p = self.players.remove(i);
                p.skill = skill;
                self.players.insert(i, p);
            }
            i = i + 1;
        }
    }

    /// Looks up the Epic account name of every Switch player.
    pub fn update_epic_ids<F: Fn(&String) -> Option<Arc<String>>>(&mut self, lookup: F)
        requires
            forall|id: &String| call_requires(lookup, (id,)),
        ensures
            final(self).players@.len() == old(self).players@.len(),
            forall|i: int|
                0 <= i < old(self).players@.len() ==> if old(self).players@[i].data.platform
                    == Platform::Switch {
                    call_ensures(lookup, (&old(self).players@[i].data.platform_id,), final(self).players@[i].epic_name)
                        && final(self).players@[i]@ == (MatchPlayerView {
                        epic_name: name_view(final(self).players@[i].epic_name),
                        ..old(self).players@[i]@
                    })
                } else {
                    final(self).players@[i] == old(self).players@[i]
                },
            final(self).score == old(self).score,
            final(self).our_team == old(self).our_team,
            final(self).state == old(self).state,
            final(self).finish == old(self).finish,
    {
        let ghost before = self.players@;
        let mut i: usize = 0;
        while i < self.players.len()
            invariant
                forall|id: &String| call_requires(lookup, (id,)),
                i <= self.players@.len(),
                self.players@.len() == before.len(),
                self.score == old(self).score,
                self.our_team == old(self).our_team,
                self.state == old(self).state,
                self.finish == old(self).finish,
                before == old(self).players@,
                forall|j: int| i <= j < before.len() ==> self.players@[j] == before[j],
                forall|j: int|
                    0 <= j < i ==> if before[j].data.platform == Platform::Switch {
                        call_ensures(lookup, (&before[j].data.platform_id,), self.players@[j].epic_name)
                            && self.players@[j]@ == (MatchPlayerView {
                            epic_name: name_view(self.players@[j].epic_name),
                            ..before[j]@
                        })
                    } else {
                        self.players@[j] == before[j]
                    },
            decreases before.len() - i,
        {
            if self.players[i].data.platform == Platform::Switch {
                let name = lookup(&self.players[i].data.platform_id);
                let mut p = self.players.remove(i);
                p.epic_name = name;
                self.players.insert(i, p);
            }
            i = i + 1;
        }
    }

    /// Looks up the uncensored name of every player whose shown name is censored.
    pub fn uncensor_names<F: Fn(&String) -> Option<Arc<String>>>(&mut self, lookup: F)
        requires
            forall|id: &String| call_requires(lookup, (id,)),
        ensures
            final(self).players@.len() == old(self).players@.len(),
            forall|i: int|
                0 <= i < old(self).players@.len() ==> if censored(
                    display_name_of(old(self).players@[i]),
                ) {
                    call_ensures(lookup, (&old(self).players@[i].data.platform_id,), final(self).players@[i].uncensored_name)
                        && final(self).players@[i]@ == (MatchPlayerView {
                        uncensored_name: name_view(final(self).players@[i].uncensored_name),
                        ..old(self).players@[i]@
                    })
                } else {
                    final(self).players@[i] == old(self).players@[i]
                },
            final(self).score == old(self).score,
            final(self).our_team == old(self).our_team,
            final(self).state == old(self).state,
            final(self).finish == old(self).finish,
    {
        let ghost before = self.players@;
        let mut i: usize = 0;
        while i < self.players.len()
            invariant
                forall|id: &String| call_requires(lookup, (id,)),
                i <= self.players@.len(),
                self.players@.len() == before.len(),
                self.score == old(self).score,
                self.our_team == old(self).our_team,
                self.state == old(self).state,
                self.finish == old(self).finish,
                before == old(self).players@,
                forall|j: int| i <= j < before.len() ==> self.players@[j] == before[j],
                forall|j: int|
                    0 <= j < i ==> if censored(display_name_of(before[j])) {
                        call_ensures(lookup, (&before[j].data.platform_id,), self.players@[j].uncensored_name)
                            && self.players@[j]@ == (MatchPlayerView {
                            uncensored_name: name_view(self.players@[j].uncensored_name),
                            ..before[j]@
                        })
                    } else {
                        self.players@[j] == before[j]
                    },
            decreases before.len() - i,
        {
            if is_censored(self.players[i].display_name()) {
                let mut p = self.players.remove(i);
                p.uncensor_with(&lookup);
                self.players.insert(i, p);
            }
            i = i + 1;
        }
    }
}

/// What is kept of a player once the match is over.
#[derive(Debug, Clone)]
pub struct StrippedPlayer {
    pub name: String,
    pub player_id: String,
    pub rank_in_mode: Option<PlaylistSkillInformation>,
    pub is_local_player: bool,
    pub team: Team,
    pub platform: Platform,
}

/// The standing a player had in a playlist, if known.
pub open spec fn standing_in(skill: Option<Seq<PlaylistSkillInformation>>, p: Playlist) -> Option<PlaylistSkillInformation> {
    match skill {
        Some(s) => match first_where(s, for_playlist(p)) {
            Some(k) => Some(s[k]),
            None => None,
        },
        None => None,
    }
}

impl StrippedPlayer {
    /// The record kept of a player of a match in `playlist`.
    pub fn from_player(value: MatchPlayer, playlist: Playlist) -> (r: Self)
        ensures
            r.name@ == value.data.name@,
            r.player_id@ == value.data.platform_id@,
            r.is_local_player == value.is_local_player,
            r.rank_in_mode == standing_in(value@.skill, playlist),
            r.team == value.data.team,
            r.platform == value.data.platform,
    {
        let rank_in_mode = match &value.skill {
            Some(s) => match s.get_playlist(playlist) {
                Some(info) => Some(*info),
                None => None,
            },
            None => None,
        };
        Self {
            name: value.data.name,
            player_id: value.data.platform_id,
            is_local_player: value.is_local_player,
            rank_in_mode,
            team: value.data.team,
            platform: value.data.platform,
        }
    }
}

/// What is kept of a match once it is over.
#[derive(Debug, Clone)]
pub struct StrippedMatchInfo {
    pub start_time: SystemTime,
    pub end_time: SystemTime,
    pub winner: Team,
    pub score: TeamScores,
    pub playlist: Playlist,
    pub players: Vec<StrippedPlayer>,
}

/// The local player's entries among kept players.
pub open spec fn is_local_stripped() -> spec_fn(StrippedPlayer) -> bool {
    |p: StrippedPlayer| p.is_local_player
}

/// The local player's team in a kept match, or blue.
pub open spec fn stripped_local_team(players: Seq<StrippedPlayer>) -> Team {
    match first_where(players, is_local_stripped()) {
        Some(k) => players[k].team,
        None => Team::Blue,
    }
}

/// `r` is the record kept of the match `value`: its end time is when the match finished
/// (any time, if it never did), its winner the recorded one (blue when none was recorded),
/// and each player is kept with their standing in the match's playlist.
pub open spec fn is_stripped_of(r: StrippedMatchInfo, value: MatchInfo) -> bool {

    &&& r.start_time == value.started_at
    &&& (value.finish matches Some(f) ==> r.end_time == f.timestamp)
    &&& r.winner == match value.finish {
        Some(f) => match f.winner {
            Some(w) => w,
            None => Team::Blue,
        },
        None => Team::Blue,
    }
    &&& r.score == value.score
    &&& r.playlist == value.playlist
    &&& r.players@.len() == value.players@.len()
    &&& forall|i: int|
        0 <= i < value.players@.len() ==> {
            let p = #[trigger] value.players@[i];
            let q = r.players@[i];
            &&& q.name@ == p.data.name@
            &&& q.player_id@ == p.data.platform_id@
            &&& q.is_local_player == p.is_local_player
            &&& q.rank_in_mode == standing_in(p@.skill, value.playlist)
            &&& q.team == p.data.team
            &&& q.platform == p.data.platform
        }
}

impl StrippedMatchInfo {
    /// The local player's team, or blue when they are not among the players.
    pub fn our_team(&self) -> (r: Team)
        ensures
            r == stripped_local_team(self.players@),
    {
        let ghost p = is_local_stripped();
        let mut i: usize = 0;
        while i < self.players.len()
            invariant
                i <= self.players@.len(),
                p == is_local_stripped(),
                forall|j: int| 0 <= j < i ==> !p(self.players@[j]),
            decreases self.players@.len() - i,
        {
            if self.players[i].is_local_player {
                assert(p(self.players@[i as int]));
                proof {
                    lemma_first_where_char(self.players@, p, i as int);
                }
                return self.players[i].team;
            }
            assert(!p(self.players@[i as int]));
            i = i + 1;
        }
        proof {
            lemma_first_where_none(self.players@, p);
        }
        Team::Blue
    }

    /// The record kept of a match: its end time is when it finished (or now, if it never
    /// did), and its winner the recorded one (blue when none was recorded).
    pub fn from_match(value: MatchInfo) -> (r: Self)
        ensures
            is_stripped_of(r, value),
    {
        let end_time = match &value.finish {
            Some(f) => f.timestamp,
            None => now(),
        };
        let winner = match &value.finish {
            Some(f) => match f.winner {
                Some(w) => w,
                None => Team::Blue,
            },
            None => Team::Blue,
        };
        let playlist = value.playlist;
        let ghost all = value.players@;
        let mut rest = value.players;
        let mut players: Vec<StrippedPlayer> = Vec::new();
        let n: usize = rest.len();
        let mut k: usize = 0;
        while rest.len() > 0
            invariant
                n == all.len(),
                rest@.len() + k == n,
                rest@ == all.skip(k as int),
                players@.len() == k,
                forall|i: int|
                    0 <= i < k ==> {
                        let p = #[trigger] all[i];
                        let q = players@[i];
                        &&& q.name@ == p.data.name@
                        &&& q.player_id@ == p.data.platform_id@
                        &&& q.is_local_player == p.is_local_player
                        &&& q.rank_in_mode == standing_in(p@.skill, playlist)
                        &&& q.team == p.data.team
                        &&& q.platform == p.data.platform
                    },
            decreases rest@.len(),
        {
            let p = rest.remove(0);
            assert(p == all[k as int]);
            players.push(StrippedPlayer::from_player(p, playlist));
            k = k + 1;
            assert(rest@ =~= all.skip(k as int));
        }
        Self {
            start_time: value.started_at,
            end_time,
            winner,
            score: value.score,
            playlist,
            players,
        }
    }
}

} // verus!
