//! Ranks per playlist for the lobby table, including the fixed standing of bots.

use vstd::prelude::*;

use crate::game::playlist::{playlist_id, Playlist};
use crate::game::rank::{rank_for_mmr, rank_of_tier, Rank};
use crate::seqs::{first_where, lemma_first_where_char, lemma_first_where_none};

verus! {

/// One playlist of the rank service's reply.
#[derive(Debug)]
pub struct GetPlayerSkillsPlaylistData {
    pub id: u8,
    pub mmr: i16,
    pub tier: u8,
}

/// The rank service's reply.
#[derive(Debug)]
pub struct GetPlayerSkillsResponse {
    pub playlists: Vec<GetPlayerSkillsPlaylistData>,
}

/// Where the entry for playlist number `id` stands among the entries.
pub open spec fn entry_for(s: Seq<GetPlayerSkillsPlaylistData>, id: u8) -> Option<int> {
    first_where(s, has_id(id))
}

/// The entries for playlist number `id`.
pub open spec fn has_id(id: u8) -> spec_fn(GetPlayerSkillsPlaylistData) -> bool {
    |e: GetPlayerSkillsPlaylistData| e.id == id
}

impl GetPlayerSkillsResponse {
    /// The first entry for the playlist.
    pub fn get_playlist(&self, playlist: Playlist) -> (r: Option<&GetPlayerSkillsPlaylistData>)
        ensures
            r is Some <==> entry_for(self.playlists@, playlist_id(playlist)) is Some,
            r matches Some(e) ==> *e == self.playlists@[entry_for(
                self.playlists@,
                playlist_id(playlist),
            )->0],
    {
        let pid: u8 = playlist.id();
        let ghost p = has_id(pid);
        let mut i: usize = 0;
        while i < self.playlists.len()
            invariant
                i <= self.playlists@.len(),
                pid == playlist_id(playlist),
                p == has_id(pid),
                forall|j: int| 0 <= j < i ==> !p(self.playlists@[j]),
            decreases self.playlists@.len() - i,
        {
            if self.playlists[i].id == pid {
                assert(p(self.playlists@[i as int]));
                proof {
                    lemma_first_where_char(self.playlists@, p, i as int);
                }
                return Some(&self.playlists[i]);
            }
            assert(!p(self.playlists@[i as int]));
            i = i + 1;
        }
        proof {
            lemma_first_where_none(self.playlists@, p);
        }
        None
    }
}

/// A player's standing in one playlist.
#[derive(Debug)]
pub struct PlayerSkillInformation {
    pub rank: Rank,
    pub mmr: i16,
    pub rank_is_estimate: bool,
}

/// The rank shown for an entry: the reported rank, or the estimate from the rating
/// when the reported rank is `Unranked`.
pub open spec fn shown_rank(tier: u8, mmr: i16) -> Rank {
    if tier == 0 {
        rank_for_mmr(mmr as int)
    } else {
        rank_of_tier(tier as int)->0
    }
}

impl PlayerSkillInformation {
    /// The standing shown for a bot: unranked, rating 0, not an estimate.
    pub fn for_bot() -> (r: PlayerSkillInformation)
        ensures
            r.rank == Rank::Unranked,
            r.mmr == 0,
            !r.rank_is_estimate,
    {
        PlayerSkillInformation { rank: Rank::Unranked, mmr: 0, rank_is_estimate: false }
    }

    pub fn from_playlist(playlist: &GetPlayerSkillsPlaylistData) -> (r: PlayerSkillInformation)
        requires
            playlist.tier <= 22,
        ensures
            r.rank == shown_rank(playlist.tier, playlist.mmr),
            r.mmr == playlist.mmr,
            r.rank_is_estimate == (playlist.tier == 0),
    {
        let actual_rank = Rank::from_tier(playlist.tier);
        let use_estimate = actual_rank == Rank::Unranked;

        PlayerSkillInformation {
            rank: if use_estimate {
                Rank::estimate_from_mmr(playlist.mmr)
            } else {
                actual_rank
            },
            mmr: playlist.mmr,
            rank_is_estimate: use_estimate,
        }
    }
}

/// A player's standing in the three ranked playlists.
#[derive(Debug)]
pub struct EventRanks {
    pub ranked_1s: Option<PlayerSkillInformation>,
    pub ranked_2s: Option<PlayerSkillInformation>,
    pub ranked_3s: Option<PlayerSkillInformation>,
}

/// Every entry of the reply reports a known tier.
pub open spec fn tiers_known(s: Seq<GetPlayerSkillsPlaylistData>) -> bool {
    forall|i: int| 0 <= i < s.len() ==> s[i].tier <= 22
}

/// The standing read from the entry for a playlist, if the reply has one.
pub open spec fn standing_matches(
    r: Option<PlayerSkillInformation>,
    s: Seq<GetPlayerSkillsPlaylistData>,
    p: Playlist,
) -> bool {
    match entry_for(s, playlist_id(p)) {
        Some(k) => r matches Some(info) && info.rank == shown_rank(s[k].tier, s[k].mmr) && info.mmr
            == s[k].mmr && info.rank_is_estimate == (s[k].tier == 0),
        None => r is None,
    }
}

fn standing_for(skill: &GetPlayerSkillsResponse, playlist: Playlist) -> (r: Option<PlayerSkillInformation>)
    requires
        tiers_known(skill.playlists@),
    ensures
        standing_matches(r, skill.playlists@, playlist),
{
    proof {
        crate::seqs::lemma_first_where_from(skill.playlists@, has_id(playlist_id(playlist)), 0);
    }
    match skill.get_playlist(playlist) {
        Some(e) => Some(PlayerSkillInformation::from_playlist(e)),
        None => None,
    }
}

impl EventRanks {
    pub fn from_skills(skill: GetPlayerSkillsResponse) -> (r: EventRanks)
        requires
            tiers_known(skill.playlists@),
        ensures
            standing_matches(r.ranked_1s, skill.playlists@, Playlist::Ones),
            standing_matches(r.ranked_2s, skill.playlists@, Playlist::Twos),
            standing_matches(r.ranked_3s, skill.playlists@, Playlist::Threes),
    {
        EventRanks {
            ranked_1s: standing_for(&skill, Playlist::Ones),
            ranked_2s: standing_for(&skill, Playlist::Twos),
            ranked_3s: standing_for(&skill, Playlist::Threes),
        }
    }
}

} // verus!
