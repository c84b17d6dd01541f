//! Badges shown next to a player of the current lobby, from the matches played with
//! or against them before.

use vstd::prelude::*;

use crate::matches::match_info::{MatchInfo, MatchPlayer, StrippedMatchInfo, StrippedPlayer};
use crate::matches::service::{match_our_team, MatchType};
use crate::rocket_league::Team;
use crate::text::{decimal, push_char, push_decimal, push_str};

verus! {

/// A badge and the text shown when hovering it.
#[derive(Debug)]
pub struct BuddyBadge {
    pub badge: String,
    pub detail_text: String,
}

/// Whether the player with id `id` is in the match, on a team for which `on_side` holds.
pub open spec fn present_on(m: MatchType, id: Seq<char>, on_side: spec_fn(Team) -> bool) -> bool {
    match m {
        MatchType::Old(o) => exists|i: int|
            0 <= i < o.players@.len() && #[trigger] o.players@[i].player_id@ == id && on_side(
                o.players@[i].team,
            ),
        MatchType::Session(s) => exists|i: int|
            0 <= i < s.players@.len() && #[trigger] s.players@[i].data.platform_id@ == id
                && on_side(s.players@[i].data.team),
    }
}

/// Any team.
pub open spec fn any_team() -> spec_fn(Team) -> bool {
    |t: Team| true
}

/// The local player's team in match `m`.
pub open spec fn ally_of(m: MatchType) -> spec_fn(Team) -> bool {
    |t: Team| t == match_our_team(m)
}

/// The opponents of the local player in match `m`.
pub open spec fn rival_of(m: MatchType) -> spec_fn(Team) -> bool {
    |t: Team| t != match_our_team(m)
}

/// Whether the local player's team won match `m`.
pub open spec fn we_won(m: MatchType) -> bool {
    match m {
        MatchType::Old(o) => o.winner == match_our_team(m),
        MatchType::Session(s) => s.finish matches Some(f) && f.winner == Some(match_our_team(m)),
    }
}

/// Whether `m` was won together with the player with id `id`.
pub open spec fn won_together(m: MatchType, id: Seq<char>) -> bool {
    we_won(m) && present_on(m, id, ally_of(m))
}

/// Whether `m` counts as a game against the player with id `id` (a session match only
/// once it is over).
pub open spec fn played_against(m: MatchType, id: Seq<char>) -> bool {
    present_on(m, id, rival_of(m)) && match m {
        MatchType::Old(_) => true,
        MatchType::Session(s) => s.finish is Some,
    }
}

/// The number of matches won together with the player with id `id`.
pub open spec fn count_won_together(ms: Seq<MatchType>, id: Seq<char>) -> nat
    decreases ms.len(),
{
    if ms.len() == 0 {
        0
    } else {
        count_won_together(ms.drop_last(), id) + if won_together(ms.last(), id) {
            1nat
        } else {
            0nat
        }
    }
}

/// The number of games against the player with id `id` that the local player won
/// (`won == true`) or lost (`won == false`).
pub open spec fn count_against(ms: Seq<MatchType>, id: Seq<char>, won: bool) -> nat
    decreases ms.len(),
{
    if ms.len() == 0 {
        0
    } else {
        count_against(ms.drop_last(), id, won) + if played_against(ms.last(), id) && we_won(
            ms.last(),
        ) == won {
            1nat
        } else {
            0nat
        }
    }
}

/// The badge icon for a number of games won together.
pub open spec fn bff_icon(n: nat) -> char {
    if n < 3 {
        '\u{1F60E}'
    } else if n < 6 {
        '\u{2728}'
    } else if n < 10 {
        '\u{1FAC2}'
    } else {
        '\u{1F970}'
    }
}

/// The badge icon for a number of games against each other.
pub open spec fn rival_icon(n: nat) -> char {
    if n < 4 {
        '\u{2694}'
    } else {
        '\u{1FA78}'
    }
}

/// Whether the player with id `id` is in match `m` at all.
pub open spec fn played_in(m: MatchType, id: Seq<char>) -> bool {
    present_on(m, id, any_team())
}

/// Whether a player was seen in none of the matches.
pub open spec fn never_seen(ms: Seq<MatchType>, id: Seq<char>) -> bool {
    forall|i: int| 0 <= i < ms.len() ==> !played_in(#[trigger] ms[i], id)
}

/// Whether some player has the id `id`.
fn has_stripped(players: &Vec<StrippedPlayer>, id: &String, side: Option<(Team, bool)>) -> (r: bool)
    ensures
        r == exists|i: int|
            0 <= i < players@.len() && #[trigger] players@[i].player_id@ == id@ && match side {
                Some((t, same)) => (players@[i].team == t) == same,
                None => true,
            },
{
    let mut i: usize = 0;
    while i < players.len()
        invariant
            i <= players@.len(),
            forall|j: int|
                0 <= j < i ==> !(#[trigger] players@[j].player_id@ == id@ && match side {
                    Some((t, same)) => (players@[j].team == t) == same,
                    None => true,
                }),
        decreases players@.len() - i,
    {
        let side_ok = match side {
            Some((t, same)) => (players[i].team == t) == same,
            None => true,
        };
        if players[i].player_id == *id && side_ok {
            return true;
        }
        i = i + 1;
    }
    false
}

/// Whether some session player has the id `id`.
fn has_session(players: &Vec<MatchPlayer>, id: &String, side: Option<(Team, bool)>) -> (r: bool)
    ensures
        r == exists|i: int|
            0 <= i < players@.len() && #[trigger] players@[i].data.platform_id@ == id@ && match side {
                Some((t, same)) => (players@[i].data.team == t) == same,
                None => true,
            },
{
    let mut i: usize = 0;
    while i < players.len()
        invariant
            i <= players@.len(),
            forall|j: int|
                0 <= j < i ==> !(#[trigger] players@[j].data.platform_id@ == id@ && match side {
                    Some((t, same)) => (players@[j].data.team == t) == same,
                    None => true,
                }),
        decreases players@.len() - i,
    {
        let side_ok = match side {
            Some((t, same)) => (players[i].data.team == t) == same,
            None => true,
        };
        if players[i].data.platform_id == *id && side_ok {
            return true;
        }
        i = i + 1;
    }
    false
}

/// Whether the player with id `id` is in the match, on the local player's side
/// (`Some(true)`), on the other side (`Some(false)`), or anywhere (`None`).
fn present(m: &MatchType, id: &String, allied: Option<bool>) -> (r: bool)
    ensures
        r == match allied {
            Some(true) => present_on(*m, id@, ally_of(*m)),
            Some(false) => present_on(*m, id@, rival_of(*m)),
            None => present_on(*m, id@, any_team()),
        },
{
    let ours = m.our_team();
    let side = match allied {
        Some(same) => Some((ours, same)),
        None => None,
    };
    match m {
        MatchType::Old(o) => {
            let r = has_stripped(&o.players, id, side);
            proof {
                if r {
                    let i = choose|i: int|
                        0 <= i < o.players@.len() && #[trigger] o.players@[i].player_id@ == id@
                            && match side {
                            Some((t, same)) => (o.players@[i].team == t) == same,
                            None => true,
                        };
                    assert(match allied {
                        Some(true) => ally_of(*m)(o.players@[i].team),
                        Some(false) => rival_of(*m)(o.players@[i].team),
                        None => any_team()(o.players@[i].team),
                    });
                } else {
                    assert forall|i: int|
                        0 <= i < o.players@.len() && #[trigger] o.players@[i].player_id@ == id@
                            implies !match allied {
                        Some(true) => ally_of(*m)(o.players@[i].team),
                        Some(false) => rival_of(*m)(o.players@[i].team),
                        None => any_team()(o.players@[i].team),
                    } by {
                        assert(!(o.players@[i].player_id@ == id@ && match side {
                            Some((t, same)) => (o.players@[i].team == t) == same,
                            None => true,
                        }));
                    }
                }
            }
            r
        },
        MatchType::Session(s) => {
            let r = has_session(&s.players, id, side);
            proof {
                if r {
                    let i = choose|i: int|
                        0 <= i < s.players@.len() && #[trigger] s.players@[i].data.platform_id@
                            == id@ && match side {
                            Some((t, same)) => (s.players@[i].data.team == t) == same,
                            None => true,
                        };
                    assert(match allied {
                        Some(true) => ally_of(*m)(s.players@[i].data.team),
                        Some(false) => rival_of(*m)(s.players@[i].data.team),
                        None => any_team()(s.players@[i].data.team),
                    });
                } else {
                    assert forall|i: int|
                        0 <= i < s.players@.len() && #[trigger] s.players@[i].data.platform_id@
                            == id@ implies !match allied {
                        Some(true) => ally_of(*m)(s.players@[i].data.team),
                        Some(false) => rival_of(*m)(s.players@[i].data.team),
                        None => any_team()(s.players@[i].data.team),
                    } by {
                        assert(!(s.players@[i].data.platform_id@ == id@ && match side {
                            Some((t, same)) => (s.players@[i].data.team == t) == same,
                            None => true,
                        }));
                    }
                }
            }
            r
        },
    }
}

/// Whether the local player's team won the match.
fn won(m: &MatchType) -> (r: bool)
    ensures
        r == we_won(*m),
{
    let ours = m.our_team();
    match m {
        MatchType::Old(o) => o.winner == ours,
        MatchType::Session(s) => match &s.finish {
            Some(f) => f.winner == Some(ours),
            None => false,
        },
    }
}


/// A badge as plain text: what is shown, and the hover text.
pub open spec fn badge_view(b: BuddyBadge) -> (Seq<char>, Seq<char>) {
    (b.badge@, b.detail_text@)
}

/// The text of the badge for a first game together.
pub open spec fn sprout_badge(ms: Seq<MatchType>, id: Seq<char>) -> Option<(Seq<char>, Seq<char>)> {
    if never_seen(ms, id) {
        Some((seq!['\u{1F331}'], "This is your first game together!"@))
    } else {
        None
    }
}

/// The text of the badge counting the games won together.
pub open spec fn bff_badge(ms: Seq<MatchType>, id: Seq<char>) -> Option<(Seq<char>, Seq<char>)> {
    let n = count_won_together(ms, id);
    if n == 0 {
        None
    } else {
        Some((seq![bff_icon(n), ' '] + decimal(n), decimal(n) + " game(s) won together!"@))
    }
}

/// The text of the badge counting the games against each other, with their outcome.
pub open spec fn rival_badge(ms: Seq<MatchType>, id: Seq<char>) -> Option<(Seq<char>, Seq<char>)> {
    let w = count_against(ms, id, true);
    let l = count_against(ms, id, false);
    if w + l == 0 {
        None
    } else {
        Some(
            (
                seq![rival_icon(w + l), ' '] + decimal(w) + seq!['-'] + decimal(l),
                decimal(w + l) + " game(s) against eachother. (W/L: "@ + decimal(w) + seq!['/']
                    + decimal(l) + seq![')'],
            ),
        )
    }
}

/// The list of what an `Option` holds.
pub open spec fn listed<T>(o: Option<T>) -> Seq<T> {
    match o {
        Some(x) => seq![x],
        None => seq![],
    }
}

/// All badges of a player, in the order they are shown.
pub open spec fn all_badges(ms: Seq<MatchType>, id: Seq<char>) -> Seq<(Seq<char>, Seq<char>)> {
    listed(sprout_badge(ms, id)) + listed(bff_badge(ms, id)) + listed(rival_badge(ms, id))
}

/// A player never met before was never won with nor played against.
proof fn lemma_unseen_counts(ms: Seq<MatchType>, id: Seq<char>)
    requires
        never_seen(ms, id),
    ensures
        count_won_together(ms, id) == 0,
        count_against(ms, id, true) == 0,
        count_against(ms, id, false) == 0,
    decreases ms.len(),
{
    if ms.len() > 0 {
        let init = ms.drop_last();
        assert(never_seen(init, id)) by {
            assert forall|i: int| 0 <= i < init.len() implies !played_in(#[trigger] init[i], id) by {
                assert(init[i] == ms[i]);
            }
        }
        lemma_unseen_counts(init, id);
        let m = ms.last();
        assert(!played_in(ms[ms.len() - 1], id));
        assert(!present_on(m, id, ally_of(m)));
        assert(!present_on(m, id, rival_of(m)));
    }
}

/// The first game with a player shows only the sprout: a player met in no match of the
/// history gets neither the games-won badge nor the rivalry badge.
pub proof fn lemma_first_meeting_only_sprout(ms: Seq<MatchType>, id: Seq<char>)
    requires
        never_seen(ms, id),
    ensures
        all_badges(ms, id) == seq![(seq!['\u{1F331}'], "This is your first game together!"@)],
{
    lemma_unseen_counts(ms, id);
    assert(all_badges(ms, id) =~= seq![(seq!['\u{1F331}'], "This is your first game together!"@)]);
}

/// A player who was won with, or played against, in a finished match does not get the
/// sprout.
pub proof fn lemma_met_player_no_sprout(ms: Seq<MatchType>, id: Seq<char>)
    requires
        bff_badge(ms, id) is Some || rival_badge(ms, id) is Some,
    ensures
        sprout_badge(ms, id) is None,
{
    if never_seen(ms, id) {
        lemma_unseen_counts(ms, id);
    }
}

/// The badge of a player never met before.
fn bb_sprout(other_player: &MatchPlayer, matches: &Vec<MatchType>) -> (r: Option<BuddyBadge>)
    ensures
        r matches Some(b) ==> sprout_badge(matches@, other_player.data.platform_id@) == Some(badge_view(b)),
        r is None ==> sprout_badge(matches@, other_player.data.platform_id@) is None,
{
    let id = &other_player.data.platform_id;
    let mut i: usize = 0;
    while i < matches.len()
        invariant
            i <= matches@.len(),
            id == &other_player.data.platform_id,
            forall|j: int| 0 <= j < i ==> !played_in(#[trigger] matches@[j], id@),
        decreases matches@.len() - i,
    {
        if present(&matches[i], id, None) {
            return None;
        }
        i = i + 1;
    }
    let mut detail = String::new();
    push_str(&mut detail, "This is your first game together!");
    let mut badge = String::new();
    push_char(&mut badge, '\u{1F331}');
    assert(badge@ =~= seq!['\u{1F331}']);
    assert(detail@ =~= "This is your first game together!"@);
    Some(BuddyBadge { badge, detail_text: detail })
}

/// The badge counting the games won together with a player.
fn bb_bffs(other_player: &MatchPlayer, matches: &Vec<MatchType>) -> (r: Option<BuddyBadge>)
    ensures
        r matches Some(b) ==> bff_badge(matches@, other_player.data.platform_id@) == Some(badge_view(b)),
        r is None ==> bff_badge(matches@, other_player.data.platform_id@) is None,
{
    let id = &other_player.data.platform_id;
    let mut n: usize = 0;
    let mut i: usize = 0;
    while i < matches.len()
        invariant
            i <= matches@.len(),
            n <= i,
            id == &other_player.data.platform_id,
            n == count_won_together(matches@.take(i as int), id@),
        decreases matches@.len() - i,
    {
        assert(matches@.take(i + 1).drop_last() =~= matches@.take(i as int));
        if won(&matches[i]) && present(&matches[i], id, Some(true)) {
            n = n + 1;
        }
        i = i + 1;
    }
    assert(matches@.take(i as int) =~= matches@);
    if n == 0 {
        return None;
    }
    let icon = if n < 3 {
        '\u{1F60E}'
    } else if n < 6 {
        '\u{2728}'
    } else if n < 10 {
        '\u{1FAC2}'
    } else {
        '\u{1F970}'
    };
    let mut badge = String::new();
    push_char(&mut badge, icon);
    push_char(&mut badge, ' ');
    push_decimal(&mut badge, n as u64);
    let mut detail = String::new();
    push_decimal(&mut detail, n as u64);
    push_str(&mut detail, " game(s) won together!");
    assert(badge@ =~= seq![bff_icon(n as nat), ' '] + decimal(n as nat));
    Some(BuddyBadge { badge, detail_text: detail })
}

/// The badge counting the games against a player, with their outcome.
fn bb_rivals(other_player: &MatchPlayer, matches: &Vec<MatchType>) -> (r: Option<BuddyBadge>)
    ensures
        r matches Some(b) ==> rival_badge(matches@, other_player.data.platform_id@) == Some(badge_view(b)),
        r is None ==> rival_badge(matches@, other_player.data.platform_id@) is None,
{
    let id = &other_player.data.platform_id;
    let mut wins: usize = 0;
    let mut losses: usize = 0;
    let mut i: usize = 0;
    while i < matches.len()
        invariant
            i <= matches@.len(),
            wins + losses <= i,
            id == &other_player.data.platform_id,
            wins == count_against(matches@.take(i as int), id@, true),
            losses == count_against(matches@.take(i as int), id@, false),
        decreases matches@.len() - i,
    {
        assert(matches@.take(i + 1).drop_last() =~= matches@.take(i as int));
        let m = &matches[i];
        if present(m, id, Some(false)) && m.is_over() {
            if won(m) {
                wins = wins + 1;
            } else {
                losses = losses + 1;
            }
        }
        i = i + 1;
    }
    assert(matches@.take(i as int) =~= matches@);
    let total = wins + losses;
    if total == 0 {
        return None;
    }
    let icon = if total < 4 {
        '\u{2694}'
    } else {
        '\u{1FA78}'
    };
    let mut badge = String::new();
    push_char(&mut badge, icon);
    push_char(&mut badge, ' ');
    push_decimal(&mut badge, wins as u64);
    push_char(&mut badge, '-');
    push_decimal(&mut badge, losses as u64);
    let mut detail = String::new();
    push_decimal(&mut detail, total as u64);
    push_str(&mut detail, " game(s) against eachother. (W/L: ");
    push_decimal(&mut detail, wins as u64);
    push_char(&mut detail, '/');
    push_decimal(&mut detail, losses as u64);
    push_char(&mut detail, ')');
    assert(badge@ =~= seq![rival_icon(total as nat), ' '] + decimal(wins as nat) + seq!['-']
        + decimal(losses as nat));
    assert(detail@ =~= decimal(total as nat) + " game(s) against eachother. (W/L: "@ + decimal(
        wins as nat,
    ) + seq!['/'] + decimal(losses as nat) + seq![')']);
    Some(BuddyBadge { badge, detail_text: detail })
}

/// The badges of a player of the current lobby, from the matches of the history: a
/// sprout when the player is in none of them, the number of matches won together, and
/// the record of the finished matches played against each other.
pub fn get_badges(other_player: &MatchPlayer, matches: &Vec<MatchType>) -> (r: Vec<BuddyBadge>)
    ensures
        r@.map_values(|b: BuddyBadge| badge_view(b)) == all_badges(matches@, other_player.data.platform_id@),
{
    let ghost id = other_player.data.platform_id@;
    let mut out: Vec<BuddyBadge> = Vec::new();
    let sprout = bb_sprout(other_player, matches);
    let bffs = bb_bffs(other_player, matches);
    let rivals = bb_rivals(other_player, matches);
    let ghost s0 = sprout_badge(matches@, id);
    let ghost s1 = bff_badge(matches@, id);
    let ghost s2 = rival_badge(matches@, id);
    if let Some(b) = sprout {
        out.push(b);
    }
    assert(out@.map_values(|b: BuddyBadge| badge_view(b)) =~= listed(s0));
    if let Some(b) = bffs {
        out.push(b);
    }
    assert(out@.map_values(|b: BuddyBadge| badge_view(b)) =~= listed(s0) + listed(s1));
    if let Some(b) = rivals {
        out.push(b);
    }
    assert(out@.map_values(|b: BuddyBadge| badge_view(b)) =~= listed(s0) + listed(s1) + listed(s2));
    out
}

/// A match kept from an earlier run counts as won exactly when its recorded winner is the
/// local player's team in it, and as lost otherwise.
pub proof fn lemma_kept_match_won(o: StrippedMatchInfo)
    ensures
        we_won(MatchType::Old(o)) <==> o.winner == match_our_team(MatchType::Old(o)),
        o.winner != match_our_team(MatchType::Old(o)) ==> !we_won(MatchType::Old(o)),
{
}

/// A session match counts as won exactly when it is over and its recorded winner is the local
/// player's team; a match still on is never won.
pub proof fn lemma_session_match_won(s: MatchInfo)
    ensures
        we_won(MatchType::Session(s)) <==> (s.finish is Some && s.finish->0.winner == Some(s.our_team)),
        s.finish is None ==> !we_won(MatchType::Session(s)),
{
}

/// A kept match and a finished session match with the same winner and the same local team
/// count the same way.
pub proof fn lemma_kept_and_session_agree(o: StrippedMatchInfo, s: MatchInfo)
    requires
        s.finish is Some,
        s.finish->0.winner == Some(o.winner),
        s.our_team == match_our_team(MatchType::Old(o)),
    ensures
        we_won(MatchType::Old(o)) == we_won(MatchType::Session(s)),
{
}

} // verus!
