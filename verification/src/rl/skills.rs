//! Ranks per playlist, read from the rank service's reply.

use vstd::prelude::*;

use crate::game::playlist::{playlist_id, Playlist};
use crate::game::rank::{division_of, rank_for_mmr, rank_of_tier, Division, Rank};
use crate::seqs::{first_where, lemma_first_where_char, lemma_first_where_none};

verus! {

/// One playlist of the rank service's reply.
#[derive(Debug)]
pub struct GetPlayerSkillsPlaylistData {
    pub id: u8,
    pub mmr: i16,
    pub tier: u8,
    pub division: u8,
}

/// The rank service's reply: one entry per playlist the player has played.
#[derive(Debug)]
pub struct GetPlayerSkillsResponse {
    pub playlists: Vec<GetPlayerSkillsPlaylistData>,
}

/// Where the entry for playlist number `id` stands among the entries.
pub open spec fn entry_for(s: Seq<GetPlayerSkillsPlaylistData>, id: u8) -> Option<int> {
    first_where(s, has_id(id))
}

/// The entries for playlist number `id`.
pub open spec fn has_id(id: u8) -> spec_fn(GetPlayerSkillsPlaylistData) -> bool {
    |e: GetPlayerSkillsPlaylistData| e.id == id
}

impl GetPlayerSkillsResponse {
    /// The first entry for the playlist.
    pub fn get_playlist(&self, playlist: Playlist) -> (r: Option<&GetPlayerSkillsPlaylistData>)
        ensures
            r is Some <==> entry_for(self.playlists@, playlist_id(playlist)) is Some,
            r matches Some(e) ==> *e == self.playlists@[entry_for(
                self.playlists@,
                playlist_id(playlist),
            )->0],
    {
        let pid: u8 = playlist.id();
        let ghost p = has_id(pid);
        let mut i: usize = 0;
        while i < self.playlists.len()
            invariant
                i <= self.playlists@.len(),
                pid == playlist_id(playlist),
                p == has_id(pid),
                forall|j: int| 0 <= j < i ==> !p(self.playlists@[j]),
            decreases self.playlists@.len() - i,
        {
            if self.playlists[i].id == pid {
                assert(p(self.playlists@[i as int]));
                proof {
                    lemma_first_where_char(self.playlists@, p, i as int);
                }
                return Some(&self.playlists[i]);
            }
            assert(!p(self.playlists@[i as int]));
            i = i + 1;
        }
        proof {
            lemma_first_where_none(self.playlists@, p);
        }
        None
    }
}

/// A player's standing in one playlist.
#[derive(Debug)]
pub struct PlayerSkillInformation {
    pub rank: Rank,
    pub div: Division,
    pub mmr: i16,
    pub rank_is_estimate: bool,
}

/// The rank shown for an entry: the reported rank, or the estimate from the rating
/// when the reported rank is `Unranked`.
pub open spec fn shown_rank(tier: u8, mmr: i16) -> Rank {
    if rank_of_tier(tier as int) == Some(Rank::Unranked) {
        rank_for_mmr(mmr as int)
    } else {
        rank_of_tier(tier as int)->0
    }
}

impl PlayerSkillInformation {
    pub fn from_playlist(playlist: &GetPlayerSkillsPlaylistData) -> (r: PlayerSkillInformation)
        requires
            playlist.tier <= 22,
        ensures
            r.rank == shown_rank(playlist.tier, playlist.mmr),
            r.div == division_of(playlist.division as int),
            r.mmr == playlist.mmr,
            r.rank_is_estimate == (playlist.tier == 0),
    {
        let actual_rank = Rank::from_tier(playlist.tier);
        let use_estimate = actual_rank == Rank::Unranked;

        PlayerSkillInformation {
            rank: if use_estimate {
                Rank::estimate_from_mmr(playlist.mmr)
            } else {
                actual_rank
            },
            div: Division::from_number(playlist.division),
            mmr: playlist.mmr,
            rank_is_estimate: use_estimate,
        }
    }
}

/// A player's standing in the three ranked playlists.
#[derive(Debug)]
pub struct EventRanks {
    pub duels: Option<PlayerSkillInformation>,
    pub doubles: Option<PlayerSkillInformation>,
    pub standard: Option<PlayerSkillInformation>,
}

/// Every entry of the reply reports a known tier.
pub open spec fn tiers_known(s: Seq<GetPlayerSkillsPlaylistData>) -> bool {
    forall|i: int| 0 <= i < s.len() ==> s[i].tier <= 22
}

/// The standing read from the entry for a playlist, if the reply has one.
pub open spec fn standing_matches(
    r: Option<PlayerSkillInformation>,
    s: Seq<GetPlayerSkillsPlaylistData>,
    p: Playlist,
) -> bool {
    match entry_for(s, playlist_id(p)) {
        Some(k) => r matches Some(info) && info.rank == shown_rank(s[k].tier, s[k].mmr) && info.div
            == division_of(s[k].division as int) && info.mmr == s[k].mmr && info.rank_is_estimate
            == (s[k].tier == 0),
        None => r is None,
    }
}

/// The standing for one playlist, if the reply has an entry for it.
fn standing_for(skill: &GetPlayerSkillsResponse, playlist: Playlist) -> (r: Option<PlayerSkillInformation>)
    requires
        tiers_known(skill.playlists@),
    ensures
        standing_matches(r, skill.playlists@, playlist),
{
    proof {
        crate::seqs::lemma_first_where_from(skill.playlists@, has_id(playlist_id(playlist)), 0);
    }
    match skill.get_playlist(playlist) {
        Some(e) => Some(PlayerSkillInformation::from_playlist(e)),
        None => None,
    }
}

impl EventRanks {
    pub fn from_skills(skill: &GetPlayerSkillsResponse) -> (r: EventRanks)
        requires
            tiers_known(skill.playlists@),
        ensures
            standing_matches(r.duels, skill.playlists@, Playlist::Ones),
            standing_matches(r.doubles, skill.playlists@, Playlist::Twos),
            standing_matches(r.standard, skill.playlists@, Playlist::Threes),
    {
        EventRanks {
            duels: standing_for(skill, Playlist::Ones),
            doubles: standing_for(skill, Playlist::Twos),
            standard: standing_for(skill, Playlist::Threes),
        }
    }
}

} // verus!
