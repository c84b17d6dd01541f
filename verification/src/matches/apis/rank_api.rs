//! Ranks per playlist from the rank service.

use vstd::prelude::*;

use crate::common::url::{percent_encode, url_encode};
use crate::game::playlist::Playlist;
use crate::game::rank::{division_of, rank_for_mmr, rank_of_tier, Division, Rank};
use crate::seqs::{first_where, lemma_first_where_char, lemma_first_where_none};
use crate::text::push_str;
use vstd::utf8::encode_utf8;

verus! {

/// One playlist of the rank service's reply.
#[derive(Debug, Clone)]
pub struct GetPlayerSkillsPlaylistData {
    pub id: u8,
    pub mmr: i16,
    pub tier: u8,
    pub division: u8,
}

/// The rank service's reply.
#[derive(Debug, Clone)]
pub struct GetPlayerSkillsResponse {
    pub playlists: Vec<GetPlayerSkillsPlaylistData>,
}

/// A player's standing in one playlist.
#[derive(Debug, Clone, Copy, PartialEq, Eq)]
pub struct PlaylistSkillInformation {
    pub playlist: Playlist,
    pub rank: Rank,
    pub div: Division,
    pub mmr: i16,
    pub rank_is_estimate: bool,
}

/// The playlist with the given number, among the ranked playlists.
pub open spec fn playlist_of_id(id: u8) -> Option<Playlist> {
    if id == 10 {
        Some(Playlist::Ones)
    } else if id == 11 {
        Some(Playlist::Twos)
    } else if id == 13 {
        Some(Playlist::Threes)
    } else {
        None
    }
}

/// The standing read from one entry of the reply: the reported rank, or the estimate
/// from the rating when the reported rank is `Unranked`.
pub open spec fn standing_of(e: GetPlayerSkillsPlaylistData, p: Playlist) -> PlaylistSkillInformation {
    PlaylistSkillInformation {
        playlist: p,
        rank: if e.tier == 0 {
            rank_for_mmr(e.mmr as int)
        } else {
            rank_of_tier(e.tier as int)->0
        },
        div: division_of(e.division as int),
        mmr: e.mmr,
        rank_is_estimate: e.tier == 0,
    }
}

impl PlaylistSkillInformation {
    /// The standing an entry reports, for entries of a ranked playlist.
    pub fn from_data(value: &GetPlayerSkillsPlaylistData) -> (r: Option<PlaylistSkillInformation>)
        requires
            value.tier <= 22,
        ensures
            r is Some <==> playlist_of_id(value.id) is Some,
            r matches Some(s) ==> s == standing_of(*value, playlist_of_id(value.id)->0),
    {
        let playlist = if value.id == 10 {
            Playlist::Ones
        } else if value.id == 11 {
            Playlist::Twos
        } else if value.id == 13 {
            Playlist::Threes
        } else {
            return None;
        };
        let actual_rank = Rank::from_tier(value.tier);
        let use_estimate = actual_rank == Rank::Unranked;
        Some(
            PlaylistSkillInformation {
                playlist,
                rank: if use_estimate {
                    Rank::estimate_from_mmr(value.mmr)
                } else {
                    actual_rank
                },
                div: Division::from_number(value.division),
                mmr: value.mmr,
                rank_is_estimate: use_estimate,
            },
        )
    }
}

/// A player's standing in every ranked playlist the rank service reported.
#[derive(Debug, Clone)]
pub struct PlayerSkillInformation {
    pub playlists: Vec<PlaylistSkillInformation>,
}

/// The standings for playlist `p`.
pub open spec fn for_playlist(p: Playlist) -> spec_fn(PlaylistSkillInformation) -> bool {
    |s: PlaylistSkillInformation| s.playlist == p
}

/// The standings of the ranked entries of a reply, in reply order.
pub open spec fn standings_of(s: Seq<GetPlayerSkillsPlaylistData>) -> Seq<PlaylistSkillInformation>
    decreases s.len(),
{
    if s.len() == 0 {
        seq![]
    } else {
        let rest = standings_of(s.drop_last());
        match playlist_of_id(s.last().id) {
            Some(p) => rest.push(standing_of(s.last(), p)),
            None => rest,
        }
    }
}

/// Every entry of the reply reports a known tier.
pub open spec fn tiers_known(s: Seq<GetPlayerSkillsPlaylistData>) -> bool {
    forall|i: int| 0 <= i < s.len() ==> s[i].tier <= 22
}

impl PlayerSkillInformation {
    /// The first standing for the playlist.
    pub fn get_playlist(&self, playlist: Playlist) -> (r: Option<&PlaylistSkillInformation>)
        ensures
            r is Some <==> first_where(self.playlists@, for_playlist(playlist)) is Some,
            r matches Some(s) ==> *s == self.playlists@[first_where(
                self.playlists@,
                for_playlist(playlist),
            )->0],
    {
        let ghost p = for_playlist(playlist);
        let mut i: usize = 0;
        while i < self.playlists.len()
            invariant
                i <= self.playlists@.len(),
                p == for_playlist(playlist),
                forall|j: int| 0 <= j < i ==> !p(self.playlists@[j]),
            decreases self.playlists@.len() - i,
        {
            if self.playlists[i].playlist == playlist {
                assert(p(self.playlists@[i as int]));
                proof {
                    lemma_first_where_char(self.playlists@, p, i as int);
                }
                return Some(&self.playlists[i]);
            }
            assert(!p(self.playlists@[i as int]));
            i = i + 1;
        }
        proof {
            lemma_first_where_none(self.playlists@, p);
        }
        None
    }

    /// The standings of a reply; entries of playlists other than the ranked ones are left out.
    pub fn from_response(value: GetPlayerSkillsResponse) -> (r: PlayerSkillInformation)
        requires
            tiers_known(value.playlists@),
        ensures
            r.playlists@ == standings_of(value.playlists@),
    {
        let mut out: Vec<PlaylistSkillInformation> = Vec::new();
        let mut i: usize = 0;
        while i < value.playlists.len()
            invariant
                i <= value.playlists@.len(),
                tiers_known(value.playlists@),
                out@ == standings_of(value.playlists@.take(i as int)),
            decreases value.playlists@.len() - i,
        {
            let entry = PlaylistSkillInformation::from_data(&value.playlists[i]);
            proof {
                let pre = value.playlists@.take((i + 1) as int);
                assert(pre.drop_last() =~= value.playlists@.take(i as int));
                assert(pre.last() == value.playlists@[i as int]);
            }
            if let Some(s) = entry {
                out.push(s);
            }
            i = i + 1;
        }
        assert(value.playlists@.take(value.playlists@.len() as int) =~= value.playlists@);
        PlayerSkillInformation { playlists: out }
    }
}

/// The rank service's address for a player id.
pub open spec fn rank_api_url_text(player_id: Seq<char>) -> Seq<char> {
    "https://mmr.kmdw.dev/get-skills?playerId="@ + percent_encode(encode_utf8(player_id))
}

/// The address the rank service is asked at for a player.
pub fn rank_api_url(player_id: &str) -> (r: String)
    ensures
        r@ == rank_api_url_text(player_id@),
{
    let mut url = "https://mmr.kmdw.dev/get-skills?playerId=".to_owned();
    let encoded = url_encode(player_id);
    push_str(&mut url, encoded.as_str());
    url
}

} // verus!
