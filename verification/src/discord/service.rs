//! The rich presence service: which presence the current match gives, and when to connect.

use std::rc::Rc;
use vstd::prelude::*;

use crate::common::eventsource::EventReceiver;
use crate::discord::rpc::{presence_view, PresenceData, RichPresenceController, RpcCommand};
use crate::game::playlist::playlist_label;
use crate::matches::match_info::MatchInfo;
use crate::rl::match_state::match_state_text;
use crate::rocket_league::{Playlist, Team};
use crate::stats_api::{MatchState, RLEvent};
use crate::text::{decimal, push_char, push_decimal, push_str};

verus! {

/// What the presence shows of a match.
#[derive(Debug, Clone, Copy, PartialEq, Eq)]
pub struct MatchData {
    pub team_score: u8,
    pub opp_score: u8,
    pub playlist: Playlist,
    pub arena: &'static str,
    pub state: MatchState,
}

/// The presence of a match: the playlist and the arena, then, when the score is shown, the
/// local team's score and the opponents' and, as second line, the match phase.
pub open spec fn match_presence(m: MatchData, include_score: bool) -> (Seq<char>, Option<Seq<char>>) {
    let base = playlist_label(m.playlist) + " in "@ + m.arena@;
    if include_score {
        (
            base + " | "@ + decimal(m.team_score as nat) + seq!['-'] + decimal(m.opp_score as nat),
            Some(match_state_text(m.state)),
        )
    } else {
        (base, None)
    }
}

impl MatchData {
    pub fn generate_presence(&self, include_score: bool) -> (r: PresenceData)
        ensures
            presence_view(r) == match_presence(*self, include_score),
    {
        let mut details = self.playlist.to_string();
        push_str(&mut details, " in ");
        push_str(&mut details, self.arena);
        let mut state: Option<String> = None;
        if !self.playlist.is_singleplayer() && include_score {
            push_str(&mut details, " | ");
            push_decimal(&mut details, self.team_score as u64);
            push_char(&mut details, '-');
            push_decimal(&mut details, self.opp_score as u64);
            state = Some(self.state.as_str().to_owned());
        }
        PresenceData { details, state }
    }
}

/// Where the player is.
#[derive(Debug, Clone, Copy, PartialEq, Eq)]
pub enum GameState {
    Lobby,
    InGame(MatchData),
}

/// The presence of a game state: `Main menu` in the lobby.
pub open spec fn state_presence(g: GameState, show_score: bool) -> (Seq<char>, Option<Seq<char>>) {
    match g {
        GameState::Lobby => ("Main menu"@, None),
        GameState::InGame(m) => match_presence(m, show_score),
    }
}

impl GameState {
    pub fn to_presence(&self, show_score: bool) -> (r: PresenceData)
        ensures
            presence_view(r) == state_presence(*self, show_score),
    {
        match self {
            GameState::Lobby => PresenceData { details: "Main menu".to_owned(), state: None },
            GameState::InGame(game) => game.generate_presence(show_score),
        }
    }
}

/// The game state of the current match, if any: the scores as seen from the local team.
pub open spec fn game_state_of(m: Option<MatchInfo>) -> GameState {
    match m {
        Some(c) => GameState::InGame(
            MatchData {
                team_score: if c.our_team == Team::Blue {
                    c.score.blue
                } else {
                    c.score.orange
                },
                opp_score: if c.our_team == Team::Blue {
                    c.score.orange
                } else {
                    c.score.blue
                },
                playlist: c.playlist,
                arena: c.arena,
                state: c.state,
            },
        ),
        None => GameState::Lobby,
    }
}

/// The game state of the current match.
pub fn game_state(current_match: Option<&MatchInfo>) -> (r: GameState)
    ensures
        r == game_state_of(
            match current_match {
                Some(m) => Some(*m),
                None => None,
            },
        ),
{
    match current_match {
        Some(m) => {
            let (our_score, their_score) = match m.our_team {
                Team::Blue => (m.score.blue, m.score.orange),
                Team::Orange => (m.score.orange, m.score.blue),
            };
            GameState::InGame(
                MatchData {
                    team_score: our_score,
                    opp_score: their_score,
                    playlist: m.playlist,
                    arena: m.arena,
                    state: m.state,
                },
            )
        },
        None => GameState::Lobby,
    }
}

/// The user's presence settings.
#[derive(Debug, Clone, Copy)]
pub struct DiscordSettings {
    pub disable: bool,
    pub hide_score: bool,
}

impl Default for DiscordSettings {
    /// Enabled, with the score shown.
    fn default() -> (r: Self)
        ensures
            !r.disable && !r.hide_score,
    {
        DiscordSettings { disable: false, hide_score: false }
    }
}

/// What the presence thread last reported.
#[derive(Debug, Clone, Copy)]
pub struct DiscordServiceState {
    pub connected: bool,
    pub busy: bool,
}

impl Default for DiscordServiceState {
    /// Neither connected nor busy.
    fn default() -> (r: Self)
        ensures
            !r.connected && !r.busy,
    {
        DiscordServiceState { connected: false, busy: false }
    }
}

/// What to do about the presence: `None` to disconnect, else connect and show the presence.
/// It is shown only when enabled and while the game is open, with the score unless hidden.
pub open spec fn presence_plan(settings: DiscordSettings, is_rl_open: bool, current: GameState) -> Option<
    (Seq<char>, Option<Seq<char>>),
> {
    if settings.disable || !is_rl_open {
        None
    } else {
        Some(state_presence(current, !settings.hide_score))
    }
}

/// With the presence disabled, or the game closed, the presence is taken down.
pub proof fn lemma_disabled_disconnects(settings: DiscordSettings, is_rl_open: bool, current: GameState)
    requires
        settings.disable || !is_rl_open,
    ensures
        presence_plan(settings, is_rl_open, current) is None,
{
}

/// With the score hidden, a match's presence names only the playlist and the arena, with no
/// second line.
pub proof fn lemma_hidden_score(settings: DiscordSettings, m: MatchData)
    requires
        !settings.disable,
        settings.hide_score,
    ensures
        presence_plan(settings, true, GameState::InGame(m)) == Some(
            (playlist_label(m.playlist) + " in "@ + m.arena@, None::<Seq<char>>),
        ),
{
}

/// The presence to show, or `None` to disconnect.
pub fn plan_presence(settings: &DiscordSettings, is_rl_open: bool, current: &GameState) -> (r: Option<PresenceData>)
    ensures
        match r {
            Some(p) => presence_plan(*settings, is_rl_open, *current) == Some(presence_view(p)),
            None => presence_plan(*settings, is_rl_open, *current) is None,
        },
{
    if settings.disable || !is_rl_open {
        None
    } else {
        Some(current.to_presence(!settings.hide_score))
    }
}

/// Whether the game is open after an event of the stats feed: it opens on connection and
/// closes on disconnection; other events leave it as it was.
pub open spec fn open_after(open: bool, e: RLEvent) -> bool {
    match e {
        RLEvent::Connected => true,
        RLEvent::Disconnected => false,
        _ => open,
    }
}

/// The rich presence service.
pub struct DiscordService {
    settings: DiscordSettings,
    state: DiscordServiceState,
    controller: RichPresenceController,
    current: GameState,
    stats_api: EventReceiver<RLEvent>,
    is_rl_open: bool,
}

impl DiscordService {
    pub closed spec fn current(&self) -> GameState {
        self.current
    }

    pub closed spec fn rl_open(&self) -> bool {
        self.is_rl_open
    }

    pub closed spec fn current_settings(&self) -> DiscordSettings {
        self.settings
    }

    /// The user's presence settings.
    pub fn settings(&self) -> (r: DiscordSettings)
        ensures
            r == self.current_settings(),
    {
        self.settings
    }

    /// Replaces the user's presence settings; they apply from the next update.
    pub fn set_settings(&mut self, settings: DiscordSettings)
        ensures
            final(self).current_settings() == settings,
            final(self).current() == old(self).current(),
            final(self).rl_open() == old(self).rl_open(),
    {
        self.settings = settings;
    }

    pub closed spec fn reported(&self) -> DiscordServiceState {
        self.state
    }

    /// What the presence thread reported at the last update.
    pub fn status(&self) -> (r: DiscordServiceState)
        ensures
            r == self.reported(),
    {
        self.state
    }

    /// A service in the lobby, with the game closed.
    pub fn new(settings: DiscordSettings, controller: RichPresenceController, stats_api: EventReceiver<RLEvent>) -> (r: Self)
        ensures
            r.current() == GameState::Lobby,
            !r.rl_open(),
            r.current_settings() == settings,
    {
        DiscordService {
            settings,
            state: DiscordServiceState::default(),
            controller,
            current: GameState::Lobby,
            stats_api,
            is_rl_open: false,
        }
    }

    /// The commands handed to the presence thread so far, oldest first.
    pub closed spec fn sent(&self) -> Seq<RpcCommand> {
        self.controller.sent()
    }

    /// Takes the stats feed's events, follows the current match, commands the presence
    /// thread and records what it reports. The commands sent follow the plan for the new state
    /// (see `commands_for`); whether the game is open after the feed's events depends on what
    /// was queued.
    pub fn update(&mut self, current_match: Option<&MatchInfo>)
        ensures
            final(self).current() == game_state_of(
                match current_match {
                    Some(m) => Some(*m),
                    None => None,
                },
            ),
            final(self).current_settings() == old(self).current_settings(),
            old(self).sent().len() <= final(self).sent().len(),
            final(self).sent().take(old(self).sent().len() as int) == old(self).sent(),
            commands_for(
                presence_plan(final(self).current_settings(), final(self).rl_open(), final(self).current()),
                final(self).sent().skip(old(self).sent().len() as int),
            ),
    {
        let events = self.stats_api.take_all();
        self.is_rl_open = rl_open_after(self.is_rl_open, &events);
        self.current = game_state(current_match);
        self.send_current();
        self.update_state();
    }

    /// Commands the presence thread from the plan.
    fn send_current(&mut self)
        ensures
            final(self).settings == old(self).settings,
            final(self).current == old(self).current,
            final(self).is_rl_open == old(self).is_rl_open,
            old(self).controller.sent().len() <= final(self).controller.sent().len(),
            final(self).controller.sent().take(old(self).controller.sent().len() as int) == old(self).controller.sent(),
            commands_for(
                presence_plan(old(self).settings, old(self).is_rl_open, old(self).current),
                final(self).controller.sent().skip(old(self).controller.sent().len() as int),
            ),
    {
        let ghost before = self.controller.sent();
        match plan_presence(&self.settings, self.is_rl_open, &self.current) {
            None => {
                self.controller.ensure_disconnected();
                proof {
                    assert(self.controller.sent().skip(before.len() as int) =~= seq![RpcCommand::Disconnect]);
                    assert(self.controller.sent().take(before.len() as int) =~= before);
                }
            },
            Some(presence) => {
                self.controller.ensure_connected();
                let ghost shown = presence;
                self.controller.set_presence(presence);
                proof {
                    let added = self.controller.sent().skip(before.len() as int);
                    assert(added =~= seq![RpcCommand::Connect, RpcCommand::Show(shown)]);
                    assert(self.controller.sent().take(before.len() as int) =~= before);
                }
            },
        }
    }

    /// Records what the presence thread reports; those flags are set by the other thread, so
    /// only what stays unchanged is promised.
    fn update_state(&mut self)
        ensures
            final(self).settings == old(self).settings,
            final(self).current == old(self).current,
            final(self).is_rl_open == old(self).is_rl_open,
            final(self).controller == old(self).controller,
    {
        self.state.connected = self.controller.is_connected();
        self.state.busy = self.controller.is_busy();
    }
}

/// The commands an update hands to the presence thread for its plan: with no presence to show,
/// a disconnection alone; otherwise a connection, then the presence.
pub open spec fn commands_for(plan: Option<(Seq<char>, Option<Seq<char>>)>, cmds: Seq<RpcCommand>) -> bool {
    match plan {
        None => cmds == seq![RpcCommand::Disconnect],
        Some(v) => cmds.len() == 2 && cmds[0] == RpcCommand::Connect && (cmds[1] matches RpcCommand::Show(p)
            && presence_view(p) == v),
    }
}

/// Whether the game is open after a run of events, in order.
pub open spec fn open_after_all(open: bool, events: Seq<RLEvent>) -> bool
    decreases events.len(),
{
    if events.len() == 0 {
        open
    } else {
        open_after(open_after_all(open, events.drop_last()), events.last())
    }
}

/// Whether the game is open after a run of feed events.
pub fn rl_open_after(open: bool, events: &Vec<Rc<RLEvent>>) -> (r: bool)
    ensures
        r == open_after_all(open, events@.map_values(|e: Rc<RLEvent>| *e)),
{
    let ghost ev = events@.map_values(|e: Rc<RLEvent>| *e);
    let mut cur = open;
    let mut i: usize = 0;
    while i < events.len()
        invariant
            i <= events@.len(),
            ev == events@.map_values(|e: Rc<RLEvent>| *e),
            cur == open_after_all(open, ev.take(i as int)),
        decreases events@.len() - i,
    {
        assert(ev.take(i + 1).drop_last() =~= ev.take(i as int));
        assert(ev.take(i + 1).last() == *events@[i as int]);
        cur = open_after_event(cur, &events[i]);
        i = i + 1;
    }
    assert(ev.take(i as int) =~= ev);
    cur
}

/// Whether the game is open after an event.
fn open_after_event(open: bool, event: &Rc<RLEvent>) -> (r: bool)
    ensures
        r == open_after(open, **event),
{
    match &**event {
        RLEvent::Connected => true,
        RLEvent::Disconnected => false,
        _ => open,
    }
}

/// The presence's scores are the local team's goals, then the other team's, whichever colour
/// the local team plays: the two add up to all goals, and the local team's goals are blue's
/// for a blue player and orange's for an orange one. Playlist, arena and phase are the match's.
pub proof fn lemma_presence_scores_from_local_team(c: MatchInfo)
    ensures
        game_state_of(Some(c)) matches GameState::InGame(d) && {
            &&& d.team_score + d.opp_score == c.score.blue + c.score.orange
            &&& d.playlist == c.playlist && d.arena == c.arena && d.state == c.state
            &&& c.our_team == Team::Blue ==> d.team_score == c.score.blue && d.opp_score == c.score.orange
            &&& c.our_team == Team::Orange ==> d.team_score == c.score.orange && d.opp_score == c.score.blue
        },
{
}

/// Seen from the other team, the same match shows the scores the other way round.
pub proof fn lemma_presence_scores_swap(c: MatchInfo)
    ensures
        ({
            let other = MatchInfo {
                our_team: if c.our_team == Team::Blue {
                    Team::Orange
                } else {
                    Team::Blue
                },
                ..c
            };
            game_state_of(Some(c)) matches GameState::InGame(d) && game_state_of(Some(other)) matches GameState::InGame(
                e,
            ) && d.team_score == e.opp_score && d.opp_score == e.team_score
        }),
{
}

} // verus!
