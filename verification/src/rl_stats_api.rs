//! The game's stats feed: platforms, player records and the decisions taken on each message.

use vstd::prelude::*;

use crate::text::{chars_of, first_field, split_at_char, str_eq, string_of};

verus! {

/// The platform a player plays on.
#[derive(Debug, PartialEq, Eq, Clone, Copy, Hash, Structural)]
pub enum Platform {
    Epic,
    Steam,
    Xbox,
    PlayStation,
    Switch,
    Bot,
}

/// A platform name that the stats feed does not use.
#[derive(Debug)]
pub struct UnknownPlatform;

/// The platform that a platform tag of the stats feed names.
pub open spec fn platform_of_tag(s: Seq<char>) -> Option<Platform> {
    if s == "Epic"@ {
        Some(Platform::Epic)
    } else if s == "Steam"@ {
        Some(Platform::Steam)
    } else if s == "XboxOne"@ {
        Some(Platform::Xbox)
    } else if s == "PS4"@ {
        Some(Platform::PlayStation)
    } else if s == "Switch"@ {
        Some(Platform::Switch)
    } else if s == "Unknown"@ {
        Some(Platform::Bot)
    } else {
        None
    }
}

/// The name shown for a platform.
pub open spec fn platform_name(p: Platform) -> Seq<char> {
    match p {
        Platform::Epic => "Epic"@,
        Platform::Steam => "Steam"@,
        Platform::PlayStation => "PlayStation"@,
        Platform::Xbox => "Xbox"@,
        Platform::Switch => "Switch"@,
        Platform::Bot => "Bot"@,
    }
}

impl Platform {
    /// Reads a platform tag of the stats feed (`"Epic"`, `"Steam"`, `"XboxOne"`, `"PS4"`,
    /// `"Switch"`, and `"Unknown"` for bots).
    pub fn from_str(s: &str) -> (r: Result<Platform, UnknownPlatform>)
        ensures
            r matches Ok(p) ==> platform_of_tag(s@) == Some(p),
            r is Err ==> platform_of_tag(s@) is None,
    {
        if str_eq(s, "Epic") {
            Ok(Platform::Epic)
        } else if str_eq(s, "Steam") {
            Ok(Platform::Steam)
        } else if str_eq(s, "XboxOne") {
            Ok(Platform::Xbox)
        } else if str_eq(s, "PS4") {
            Ok(Platform::PlayStation)
        } else if str_eq(s, "Switch") {
            Ok(Platform::Switch)
        } else if str_eq(s, "Unknown") {
            Ok(Platform::Bot)
        } else {
            Err(UnknownPlatform)
        }
    }

    /// The name shown for the platform.
    pub fn to_string(&self) -> (r: String)
        ensures
            r@ == platform_name(*self),
    {
        let s = match self {
            Platform::Epic => "Epic",
            Platform::Steam => "Steam",
            Platform::PlayStation => "PlayStation",
            Platform::Xbox => "Xbox",
            Platform::Switch => "Switch",
            Platform::Bot => "Bot",
        };
        s.to_owned()
    }
}

/// A player entry as the stats feed sends it.
#[derive(Debug)]
pub struct StatsApiPlayerData {
    pub name: String,
    /// `Platform|Uid|Splitscreen`, e.g. `Steam|123|0`.
    pub id_data: String,
}

/// A player of the current lobby.
#[derive(Debug)]
pub struct PlayerData {
    pub name: String,
    pub platform: Platform,
    pub platform_id: String,
}

/// The player record made from a feed entry: its platform is read from the first
/// `|`-separated field of the id, and the whole id is kept.
pub open spec fn parsed_player(name: Seq<char>, id_data: Seq<char>) -> Option<(Seq<char>, Platform, Seq<char>)> {
    match platform_of_tag(first_field(id_data, '|')) {
        Some(p) => Some((name, p, id_data)),
        None => None,
    }
}

/// Turns a feed entry into a player record; entries with an unknown platform give `None`.
pub fn parse_stats_api_player(value: StatsApiPlayerData) -> (r: Option<PlayerData>)
    ensures
        r matches Some(p) ==> parsed_player(value.name@, value.id_data@) == Some(
            (p.name@, p.platform, p.platform_id@),
        ),
        r is None ==> parsed_player(value.name@, value.id_data@) is None,
{
    let id_chars = chars_of(value.id_data.as_str());
    let (end, _) = split_at_char(&id_chars, 0, '|');
    let tag = string_of(&id_chars, 0, end);
    assert(id_chars@.skip(0) =~= id_chars@);
    if let Ok(platform) = Platform::from_str(tag.as_str()) {
        Some(PlayerData { name: value.name, platform: platform, platform_id: value.id_data })
    } else {
        None
    }
}

/// A failure of the stats feed connection.
pub enum StatsApiError {
    CouldNotConnect,
    InvalidStatsApiMessage(String),
}

/// The message shown for a stats feed failure.
pub open spec fn stats_api_error_text(e: StatsApiError) -> Seq<char> {
    match e {
        StatsApiError::CouldNotConnect => "couldnt connect to statsapi (make sure you have it enabled)"@,
        StatsApiError::InvalidStatsApiMessage(s) => "got an invalid stats api message: "@ + s@,
    }
}

impl StatsApiError {
    /// The message shown for this failure.
    pub fn to_string(&self) -> (r: String)
        ensures
            r@ == stats_api_error_text(*self),
    {
        match self {
            StatsApiError::CouldNotConnect => "couldnt connect to statsapi (make sure you have it enabled)".to_owned(),
            StatsApiError::InvalidStatsApiMessage(s) => {
                let mut out = "got an invalid stats api message: ".to_owned();
                crate::text::push_str(&mut out, s.as_str());
                out
            },
        }
    }
}

/// What the stats feed tells the rest of the app.
pub enum RLEvent {
    SetPlayerList(Vec<PlayerData>),
    MatchStart,
}

/// Replaces the error of a result by `e`.
pub fn or_error<R, OldE, NewE>(r: Result<R, OldE>, e: NewE) -> (out: Result<R, NewE>)
    ensures
        r matches Ok(v) ==> out == Ok::<R, NewE>(v),
        r is Err ==> out == Err::<R, NewE>(e),
{
    match r {
        Ok(v) => Ok(v),
        Err(_) => Err(e),
    }
}

/// The feed entries that name a known platform, turned into player records, in feed order.
pub open spec fn parsed_players(entries: Seq<(Seq<char>, Seq<char>)>) -> Seq<(Seq<char>, Platform, Seq<char>)>
    decreases entries.len(),
{
    if entries.len() == 0 {
        seq![]
    } else {
        let rest = parsed_players(entries.drop_last());
        match parsed_player(entries.last().0, entries.last().1) {
            Some(p) => rest.push(p),
            None => rest,
        }
    }
}

/// The (name, id) pairs of feed entries.
pub open spec fn entries_view(v: Seq<StatsApiPlayerData>) -> Seq<(Seq<char>, Seq<char>)> {
    v.map_values(|e: StatsApiPlayerData| (e.name@, e.id_data@))
}

/// The (name, platform, id) triples of player records.
pub open spec fn players_view(v: Seq<PlayerData>) -> Seq<(Seq<char>, Platform, Seq<char>)> {
    v.map_values(|p: PlayerData| (p.name@, p.platform, p.platform_id@))
}

/// The player records for a player-list update: entries with an unknown platform are dropped.
pub fn parse_player_list(entries: Vec<StatsApiPlayerData>) -> (r: Vec<PlayerData>)
    ensures
        players_view(r@) == parsed_players(entries_view(entries@)),
{
    let mut out: Vec<PlayerData> = Vec::new();
    let mut rest = entries;
    let ghost initial = rest@;
    let n: usize = rest.len();
    let mut k: usize = 0;
    while rest.len() > 0
        invariant
            n == initial.len(),
            rest@.len() + k == n,
            rest@ == initial.skip(k as int),
            players_view(out@) == parsed_players(entries_view(initial.take(k as int))),
        decreases rest@.len(),
    {
        let e = rest.remove(0);
        assert(e == initial[k as int]);
        let ghost ev = (e.name@, e.id_data@);
        let parsed = parse_stats_api_player(e);
        proof {
            let pre = entries_view(initial.take((k + 1) as int));
            assert(pre.drop_last() =~= entries_view(initial.take(k as int)));
            assert(pre.last() == ev);
        }
        match parsed {
            Some(p) => {
                out.push(p);
                assert(players_view(out@) =~= parsed_players(entries_view(initial.take((k + 1) as int))));
            },
            None => {
                assert(players_view(out@) =~= parsed_players(entries_view(initial.take((k + 1) as int))));
            },
        }
        k = k + 1;
        assert(rest@ =~= initial.skip(k as int));
    }
    assert(initial.take(n as int) =~= initial);
    out
}

/// The kinds of stats feed messages that matter here.
#[derive(Debug, Clone, Copy, PartialEq, Eq, Structural)]
pub enum StatsApiEventKind {
    UpdateState,
    MatchCreated,
    CountdownBegin,
    Other,
}

/// The kind of a message with the given event name.
pub open spec fn event_kind_of(name: Seq<char>) -> StatsApiEventKind {
    if name == "UpdateState"@ {
        StatsApiEventKind::UpdateState
    } else if name == "MatchCreated"@ {
        StatsApiEventKind::MatchCreated
    } else if name == "CountdownBegin"@ {
        StatsApiEventKind::CountdownBegin
    } else {
        StatsApiEventKind::Other
    }
}

/// Sorts a message by its event name.
pub fn classify_event(name: &str) -> (r: StatsApiEventKind)
    ensures
        r == event_kind_of(name@),
{
    if str_eq(name, "UpdateState") {
        StatsApiEventKind::UpdateState
    } else if str_eq(name, "MatchCreated") {
        StatsApiEventKind::MatchCreated
    } else if str_eq(name, "CountdownBegin") {
        StatsApiEventKind::CountdownBegin
    } else {
        StatsApiEventKind::Other
    }
}

/// What the feed listener remembers between messages. A match's start is the first
/// countdown after a match was created (private matches never announce their start).
pub struct StatsApiSession {
    pub match_created_event_happened: bool,
}

impl StatsApiSession {
    /// A fresh session, with the empty player list that is announced on connecting.
    pub fn start() -> (r: (StatsApiSession, RLEvent))
        ensures
            !r.0.match_created_event_happened,
            r.1 matches RLEvent::SetPlayerList(v) && v@.len() == 0,
    {
        (StatsApiSession { match_created_event_happened: false }, RLEvent::SetPlayerList(Vec::new()))
    }

    /// A player-list update: the new list, with entries of unknown platforms dropped.
    pub fn on_update_state(&mut self, players: Vec<StatsApiPlayerData>) -> (r: RLEvent)
        ensures
            final(self).match_created_event_happened == old(self).match_created_event_happened,
            r matches RLEvent::SetPlayerList(v) && players_view(v@) == parsed_players(
                entries_view(players@),
            ),
    {
        RLEvent::SetPlayerList(parse_player_list(players))
    }

    /// A match was created: the next countdown starts it.
    pub fn on_match_created(&mut self)
        ensures
            final(self).match_created_event_happened,
    {
        self.match_created_event_happened = true;
    }

    /// A countdown began: it starts the match if one was created since the last start.
    pub fn on_countdown_begin(&mut self) -> (r: Option<RLEvent>)
        ensures
            !final(self).match_created_event_happened,
            old(self).match_created_event_happened ==> r matches Some(RLEvent::MatchStart),
            !old(self).match_created_event_happened ==> r is None,
    {
        if self.match_created_event_happened {
            self.match_created_event_happened = false;
            Some(RLEvent::MatchStart)
        } else {
            None
        }
    }
}

} // verus!
