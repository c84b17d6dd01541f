//! Music control: the commands sent to the system's media session, when the anthems pause
//! the music, and what the music view shows.

use std::rc::Rc;
use std::time::Duration;
use vstd::prelude::*;

use crate::common::channel::{Receiver, Sender};
use crate::common::eventsource::EventReceiver;
use crate::stats_api::RLEvent;
use crate::text::{chars_of, push_char, push_str, string_of};

verus! {

/// A command to the media session.
#[derive(Debug, Clone, Copy, PartialEq, Eq, Structural)]
pub enum MusicControlCommand {
    Next,
    Previous,
    Pause,
    Play,
}

/// The user's music settings.
#[derive(Debug, Clone, Copy)]
pub struct MusicControlSettings {
    pub pause_for_anthems: bool,
}

impl Default for MusicControlSettings {
    fn default() -> (r: Self)
        ensures
            !r.pause_for_anthems,
    {
        MusicControlSettings { pause_for_anthems: false }
    }
}

/// The state of the media session, as the system numbers it.
#[derive(Debug, Clone, Copy, PartialEq, Eq, Structural)]
pub enum PlaybackStatus {
    Closed,
    Opened,
    Changing,
    Stopped,
    Playing,
    Paused,
}

/// The status the system's number stands for.
pub open spec fn status_of(n: i32) -> Option<PlaybackStatus> {
    if n == 0 {
        Some(PlaybackStatus::Closed)
    } else if n == 1 {
        Some(PlaybackStatus::Opened)
    } else if n == 2 {
        Some(PlaybackStatus::Changing)
    } else if n == 3 {
        Some(PlaybackStatus::Stopped)
    } else if n == 4 {
        Some(PlaybackStatus::Playing)
    } else if n == 5 {
        Some(PlaybackStatus::Paused)
    } else {
        None
    }
}

impl PlaybackStatus {
    /// The status a number of the system stands for; unknown numbers give `None`.
    pub fn try_from_primitive(n: i32) -> (r: Option<PlaybackStatus>)
        ensures
            r == status_of(n),
    {
        match n {
            0 => Some(PlaybackStatus::Closed),
            1 => Some(PlaybackStatus::Opened),
            2 => Some(PlaybackStatus::Changing),
            3 => Some(PlaybackStatus::Stopped),
            4 => Some(PlaybackStatus::Playing),
            5 => Some(PlaybackStatus::Paused),
            _ => None,
        }
    }
}

/// A track's cover picture.
#[derive(Debug)]
pub struct ThumbnailInfo {
    pub extension: String,
    pub bytes: Vec<u8>,
}

/// The text after the last `/` (all of it when there is none).
pub open spec fn after_last_slash(s: Seq<char>) -> Seq<char>
    decreases s.len(),
{
    if s.len() == 0 {
        s
    } else if s.last() == '/' {
        seq![]
    } else {
        after_last_slash(s.drop_last()).push(s.last())
    }
}

/// The file extension of a picture's media type: the part after the last `/`.
pub fn extension_from_content_type(content_type: &str) -> (r: String)
    ensures
        r@ == after_last_slash(content_type@),
{
    let v = chars_of(content_type);
    let mut start: usize = 0;
    let mut i: usize = 0;
    while i < v.len()
        invariant
            v@ == content_type@,
            start <= i <= v@.len(),
            after_last_slash(v@.take(i as int)) == v@.subrange(start as int, i as int),
        decreases v@.len() - i,
    {
        let ghost pre = v@.take(i + 1);
        assert(pre.drop_last() =~= v@.take(i as int));
        assert(pre.last() == v@[i as int]);
        if v[i] == '/' {
            start = i + 1;
            assert(v@.subrange(start as int, (i + 1) as int) =~= Seq::<char>::empty());
        } else {
            assert(v@.subrange(start as int, (i + 1) as int) =~= v@.subrange(start as int, i as int).push(
                v@[i as int],
            ));
        }
        i = i + 1;
    }
    assert(v@.take(i as int) =~= v@);
    string_of(&v, start, v.len())
}

/// What is playing.
#[derive(Debug)]
pub struct PlaybackInfo {
    pub track_name: Option<String>,
    pub artist: Option<String>,
    pub progress: Option<Duration>,
    pub song_length: Option<Duration>,
    pub status: Option<PlaybackStatus>,
    pub thumbnail: Option<ThumbnailInfo>,
}

/// What the music view shows.
#[derive(Debug)]
pub struct MusicControlServiceState {
    pub playback_info: Option<PlaybackInfo>,
}

impl Default for MusicControlServiceState {
    fn default() -> (r: Self)
        ensures
            r.playback_info is None,
    {
        MusicControlServiceState { playback_info: None }
    }
}

/// A time span of the media session (in 100 ns ticks) as microseconds; negative spans have
/// none.
pub open spec fn span_micros(ticks: i64) -> Option<u64> {
    if ticks < 0 {
        None
    } else {
        Some((ticks / 10) as u64)
    }
}

/// A time span of the media session (in 100 ns ticks) as microseconds.
pub fn timespan_micros(ticks: i64) -> (r: Option<u64>)
    ensures
        r == span_micros(ticks),
{
    if ticks < 0 {
        None
    } else {
        Some((ticks as u64) / 10)
    }
}

/// The command an event of the stats feed gives while the anthems pause the music: a replay
/// or the end of a match pauses, the end of the replay or leaving the match plays.
pub open spec fn anthem_command_of(e: RLEvent) -> Option<MusicControlCommand> {
    match e {
        RLEvent::ReplayStart => Some(MusicControlCommand::Pause),
        RLEvent::MatchOver(_) => Some(MusicControlCommand::Pause),
        RLEvent::ReplayDone => Some(MusicControlCommand::Play),
        RLEvent::MatchLeft => Some(MusicControlCommand::Play),
        _ => None,
    }
}

/// The commands the anthems give, in event order.
pub open spec fn anthem_commands(events: Seq<RLEvent>) -> Seq<MusicControlCommand>
    decreases events.len(),
{
    if events.len() == 0 {
        seq![]
    } else {
        let rest = anthem_commands(events.drop_last());
        match anthem_command_of(events.last()) {
            Some(c) => rest.push(c),
            None => rest,
        }
    }
}

/// The commands of one update: the ones asked for, in order, then, when the anthems pause
/// the music, those the feed's events give.
pub open spec fn planned_commands(cmds: Seq<MusicControlCommand>, events: Seq<RLEvent>, pause_for_anthems: bool) -> Seq<
    MusicControlCommand,
> {
    if pause_for_anthems {
        cmds + anthem_commands(events)
    } else {
        cmds
    }
}

/// The model of shared events.
pub open spec fn events_view(events: Seq<Rc<RLEvent>>) -> Seq<RLEvent> {
    events.map_values(|e: Rc<RLEvent>| *e)
}

/// The commands of one update.
pub fn plan_music(cmds: Vec<MusicControlCommand>, events: &Vec<Rc<RLEvent>>, pause_for_anthems: bool) -> (r: Vec<
    MusicControlCommand,
>)
    ensures
        r@ == planned_commands(cmds@, events_view(events@), pause_for_anthems),
{
    let mut out = cmds;
    if !pause_for_anthems {
        return out;
    }
    let ghost base = out@;
    let mut i: usize = 0;
    while i < events.len()
        invariant
            i <= events@.len(),
            out@ == base + anthem_commands(events_view(events@).take(i as int)),
        decreases events@.len() - i,
    {
        let ghost ev = events_view(events@);
        assert(ev.take(i + 1).drop_last() =~= ev.take(i as int));
        assert(ev.take(i + 1).last() == *events@[i as int]);
        let c = match &*events[i] {
            RLEvent::ReplayStart => Some(MusicControlCommand::Pause),
            RLEvent::MatchOver(_) => Some(MusicControlCommand::Pause),
            RLEvent::ReplayDone => Some(MusicControlCommand::Play),
            RLEvent::MatchLeft => Some(MusicControlCommand::Play),
            _ => None,
        };
        if let Some(cmd) = c {
            let ghost before = out@;
            out.push(cmd);
            assert(out@ =~= before.push(cmd));
            assert(base + anthem_commands(ev.take(i + 1)) =~= (base + anthem_commands(ev.take(i as int))).push(cmd));
        }
        i = i + 1;
    }
    assert(events_view(events@).take(i as int) =~= events_view(events@));
    out
}

/// The music service: commands from the view, the anthems of the stats feed, and what the
/// system's media session last reported.
pub struct MusicControlService {
    settings: MusicControlSettings,
    state: MusicControlServiceState,
    command_receiver: Receiver<MusicControlCommand>,
    stats_api: EventReceiver<RLEvent>,
}

impl MusicControlService {
    pub closed spec fn current_settings(&self) -> MusicControlSettings {
        self.settings
    }

    /// What the media session last reported, if anything.
    pub closed spec fn playback(&self) -> Option<PlaybackInfo> {
        self.state.playback_info
    }

    pub fn new(settings: MusicControlSettings, stats_api: EventReceiver<RLEvent>) -> (r: Self)
        ensures
            r.current_settings() == settings,
            r.playback() is None,
    {
        MusicControlService {
            settings,
            state: MusicControlServiceState::default(),
            command_receiver: Receiver::new(),
            stats_api,
        }
    }

    /// Takes the queued commands, the media session's reports since the last update
    /// (`playback_updates`, oldest first; `None` when the session went away) and the feed's
    /// events. The last report becomes the playback state; the result is the commands to carry
    /// out, in order. Without the anthem setting the events are thrown away.
    pub fn update(&mut self, playback_updates: Vec<Option<PlaybackInfo>>) -> (r: Vec<MusicControlCommand>)
        ensures
            final(self).current_settings() == old(self).current_settings(),
            final(self).playback() == if playback_updates@.len() > 0 {
                playback_updates@.last()
            } else {
                old(self).playback()
            },
            exists|cmds: Seq<MusicControlCommand>, events: Seq<RLEvent>|
                r@ == #[trigger] planned_commands(cmds, events, old(self).current_settings().pause_for_anthems),
    {
        let cmds = self.command_receiver.take_all();
        let mut updates = playback_updates;
        match updates.pop() {
            Some(last) => {
                self.state.playback_info = last;
            },
            None => {},
        }
        let events = self.stats_api.take_all();
        let ghost c = cmds@;
        let ghost e = events_view(events@);
        let r = plan_music(cmds, &events, self.settings.pause_for_anthems);
        assert(r@ == planned_commands(c, e, old(self).current_settings().pause_for_anthems));
        r
    }

    /// What the media session last reported, if anything.
    pub fn playback_info(&self) -> (r: &Option<PlaybackInfo>)
        ensures
            *r == self.playback(),
    {
        &self.state.playback_info
    }

    /// The queue commands arrive on.
    pub closed spec fn queue(&self) -> crate::common::channel::Queue<MusicControlCommand> {
        self.command_receiver.queue()
    }

    /// A sender into this service's command queue.
    pub fn sender(&self) -> (r: Sender<MusicControlCommand>)
        ensures
            r.queue() == self.queue(),
    {
        self.command_receiver.send()
    }

    pub fn settings(&self) -> (r: MusicControlSettings)
        ensures
            r == self.current_settings(),
    {
        self.settings
    }

    pub fn set_settings(&mut self, settings: MusicControlSettings)
        ensures
            final(self).current_settings() == settings,
            final(self).playback() == old(self).playback(),
    {
        self.settings = settings;
    }
}

/// The text shown for an optional track field: `-` when there is none.
pub fn handle_null_string(s: Option<&String>) -> (r: &str)
    ensures
        r@ == match s {
            Some(t) => t@,
            None => "-"@,
        },
{
    match s {
        Some(t) => t.as_str(),
        None => "-",
    }
}

/// The play/pause button: while paused, `Play` sends play; while playing, `Pause` sends
/// pause; in any other state there is no button.
pub open spec fn play_pause_of(status: PlaybackStatus) -> Option<(Seq<char>, MusicControlCommand)> {
    match status {
        PlaybackStatus::Paused => Some(("Play"@, MusicControlCommand::Play)),
        PlaybackStatus::Playing => Some(("Pause"@, MusicControlCommand::Pause)),
        _ => None,
    }
}

/// The music view's handle for sending commands.
pub struct MusicControlWidget {
    commander: Sender<MusicControlCommand>,
}

impl MusicControlWidget {
    pub fn new(service: &MusicControlService) -> (r: MusicControlWidget)
        ensures
            r.queue() == service.queue(),
    {
        MusicControlWidget { commander: service.sender() }
    }

    /// The queue this widget's commands go to.
    pub closed spec fn queue(&self) -> crate::common::channel::Queue<MusicControlCommand> {
        self.commander.queue()
    }

    /// Sends a command to the service.
    pub fn command(&self, cmd: MusicControlCommand) {
        self.commander.send(cmd);
    }
}

/// The play/pause button for a status.
pub fn play_pause_button(status: PlaybackStatus) -> (r: Option<(&'static str, MusicControlCommand)>)
    ensures
        match (r, play_pause_of(status)) {
            (Some((t, c)), Some((t2, c2))) => t@ == t2 && c == c2,
            (None, None) => true,
            _ => false,
        },
{
    match status {
        PlaybackStatus::Paused => Some(("Play", MusicControlCommand::Play)),
        PlaybackStatus::Playing => Some(("Pause", MusicControlCommand::Pause)),
        _ => None,
    }
}

/// The progress bar's position, in microseconds, and whether the reading becomes the new
/// anchor. While the track plays and the session still reports the anchored reading, the time
/// since that reading is added to it; any other reading is shown as it is and anchored.
pub open spec fn shown_progress_of(status: Option<PlaybackStatus>, progress: u64, anchored: u64, elapsed: u64) -> (
    int,
    bool,
) {
    if status == Some(PlaybackStatus::Playing) && progress == anchored {
        (anchored + elapsed, false)
    } else {
        (progress as int, true)
    }
}

/// Where the progress bar stands, from the session's reading (`progress`), the anchored reading
/// and the microseconds elapsed since it was anchored; the flag says to anchor the reading now.
pub fn extrapolated_progress(status: Option<PlaybackStatus>, progress: u64, anchored: u64, elapsed: u64) -> (r: (
    u64,
    bool,
))
    requires
        status == Some(PlaybackStatus::Playing) && progress == anchored ==> anchored + elapsed <= u64::MAX,
    ensures
        (r.0 as int, r.1) == shown_progress_of(status, progress, anchored, elapsed),
{
    let playing = match status {
        Some(PlaybackStatus::Playing) => true,
        _ => false,
    };
    if playing && progress == anchored {
        (anchored + elapsed, false)
    } else {
        (progress, true)
    }
}

/// The address of a cover picture: `bytes://`, the track name (or `-`), `.` and the
/// picture's extension.
pub fn thumbnail_uri(info: &PlaybackInfo, thumbnail: &ThumbnailInfo) -> (r: String)
    ensures
        r@ == "bytes://"@ + match info.track_name {
            Some(t) => t@,
            None => "-"@,
        } + seq!['.'] + thumbnail.extension@,
{
    let mut uri = "bytes://".to_owned();
    push_str(&mut uri, handle_null_string(info.track_name.as_ref()));
    push_char(&mut uri, '.');
    push_str(&mut uri, thumbnail.extension.as_str());
    uri
}

/// The panel shown where the system has no media session to control.
pub struct MusicControlBackupPanel {}

impl MusicControlBackupPanel {
    pub fn name(&self) -> (r: &'static str)
        ensures
            r@ == "Music"@,
    {
        "Music"
    }

    pub fn message(&self) -> (r: &'static str)
        ensures
            r@ == "Unfortunately, the music widget isn't supported on Linux :(\nIf you have any experience with Rust development, a PR would be highly appreciated! <3"@,
    {
        "Unfortunately, the music widget isn't supported on Linux :(\nIf you have any experience with Rust development, a PR would be highly appreciated! <3"
    }
}

} // verus!
