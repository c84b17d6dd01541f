//! The ranked playlists, identified by the numbers the rank service uses.

use vstd::prelude::*;

verus! {

/// A ranked playlist.
#[derive(Debug, Clone, Copy, PartialEq, Eq, Structural)]
pub enum Playlist {
    Ones,
    Twos,
    Threes,
}

/// The number that identifies a playlist in rank service replies.
pub open spec fn playlist_id(p: Playlist) -> u8 {
    match p {
        Playlist::Ones => 10,
        Playlist::Twos => 11,
        Playlist::Threes => 13,
    }
}

/// The short label of a playlist.
pub open spec fn playlist_label(p: Playlist) -> Seq<char> {
    match p {
        Playlist::Ones => "1s"@,
        Playlist::Twos => "2s"@,
        Playlist::Threes => "3s"@,
    }
}

/// The playlist a lobby of `count` players is in, if any.
pub open spec fn playlist_for_count(count: int) -> Option<Playlist> {
    if count == 2 {
        Some(Playlist::Ones)
    } else if count == 4 {
        Some(Playlist::Twos)
    } else if count == 6 {
        Some(Playlist::Threes)
    } else {
        None
    }
}

impl Playlist {
    pub fn from_player_count(player_count: usize) -> (r: Option<Playlist>)
        ensures
            r == playlist_for_count(player_count as int),
    {
        match player_count {
            2 => Some(Playlist::Ones),
            4 => Some(Playlist::Twos),
            6 => Some(Playlist::Threes),
            _ => None,
        }
    }

    /// The playlist's identifying number.
    pub fn id(&self) -> (r: u8)
        ensures
            r == playlist_id(*self),
    {
        match self {
            Playlist::Ones => 10,
            Playlist::Twos => 11,
            Playlist::Threes => 13,
        }
    }

    /// The label shown for the playlist (`"1s"`, `"2s"`, `"3s"`).
    pub fn to_string(&self) -> (r: String)
        ensures
            r@ == playlist_label(*self),
    {
        let s = match self {
            Playlist::Ones => "1s",
            Playlist::Twos => "2s",
            Playlist::Threes => "3s",
        };
        s.to_owned()
    }

    /// Whether the playlist is played alone; every ranked playlist has opponents.
    pub fn is_singleplayer(&self) -> (r: bool)
        ensures
            r == false,
    {
        false
    }
}

impl From<Playlist> for u8 {
    fn from(p: Playlist) -> (r: u8) {
        p.id()
    }
}

impl vstd::std_specs::convert::FromSpecImpl<Playlist> for u8 {
    open spec fn obeys_from_spec() -> bool {
        true
    }

    open spec fn from_spec(p: Playlist) -> u8 {
        playlist_id(p)
    }
}

} // verus!
