//! The rich presence connection: the decisions of the thread that talks to the chat
//! client, and the handle the rest of the app uses to command it.

use std::sync::atomic::AtomicBool;
use std::sync::mpsc;
use std::sync::Arc;
use vstd::prelude::*;

use crate::text::str_eq;

verus! {

/// The sending half of a std channel.
#[verifier::external_type_specification]
#[verifier::external_body]
#[verifier::reject_recursive_types(T)]
pub struct ExMpscSender<T>(std::sync::mpsc::Sender<T>);

/// Hands an item to the other end of a std channel (`mpsc::Sender::send`). It fails when the
/// receiving end is gone; whether it did is not promised here.
#[verifier::external_body]
pub(crate) fn post<T>(tx: &mpsc::Sender<T>, item: T) {
    let _ = tx.send(item);
}

/// The text of a presence: the first line, and an optional second line.
#[derive(Debug, Clone)]
pub struct PresenceData {
    pub details: String,
    pub state: Option<String>,
}

/// The model of a presence.
pub open spec fn presence_view(p: PresenceData) -> (Seq<char>, Option<Seq<char>>) {
    (
        p.details@,
        match p.state {
            Some(s) => Some(s@),
            None => None,
        },
    )
}

/// Whether two presences hold the same text.
pub fn same_presence(a: &PresenceData, b: &PresenceData) -> (r: bool)
    ensures
        r == (presence_view(*a) == presence_view(*b)),
{
    if !str_eq(a.details.as_str(), b.details.as_str()) {
        return false;
    }
    match (&a.state, &b.state) {
        (Some(x), Some(y)) => str_eq(x.as_str(), y.as_str()),
        (None, None) => true,
        _ => false,
    }
}

/// The shortest time between two connection attempts, in nanoseconds.
pub const MIN_CONNECTION_INTERVAL_NANOS: u128 = 5_000_000_000;

/// An activity to show: since when, and the two lines of text.
#[derive(Debug)]
pub struct ActivityData {
    pub start: i64,
    pub details: String,
    pub state: Option<String>,
}

/// The connection state kept by the presence thread: whether it is connected, when the
/// session started (seconds since the Unix epoch), and the last presence it sent.
pub struct RichPresence {
    previous_send: Option<PresenceData>,
    is_connected: bool,
    start_time: i64,
}

impl RichPresence {
    pub closed spec fn connected(&self) -> bool {
        self.is_connected
    }

    pub closed spec fn previous(&self) -> Option<(Seq<char>, Option<Seq<char>>)> {
        match self.previous_send {
            Some(p) => Some(presence_view(p)),
            None => None,
        }
    }

    pub closed spec fn started_at(&self) -> i64 {
        self.start_time
    }

    /// A disconnected state for a session that started at `start_time`.
    pub fn new(start_time: i64) -> (r: RichPresence)
        ensures
            !r.connected(),
            r.previous() is None,
            r.started_at() == start_time,
    {
        RichPresence { previous_send: None, is_connected: false, start_time }
    }

    pub fn is_connected(&self) -> (r: bool)
        ensures
            r == self.connected(),
    {
        self.is_connected
    }

    /// Asked to connect, `since_last_attempt` nanoseconds after the last attempt: whether to
    /// attempt a connection now. No attempt is made within the minimum interval of the last
    /// one, nor while connected; an attempt counts as connected until it fails.
    pub fn begin_connect(&mut self, since_last_attempt: u128) -> (attempt: bool)
        ensures
            attempt == (since_last_attempt >= MIN_CONNECTION_INTERVAL_NANOS && !old(self).connected()),
            final(self).connected() == (old(self).connected() || attempt),
            final(self).previous() == old(self).previous(),
            final(self).started_at() == old(self).started_at(),
    {
        if since_last_attempt < MIN_CONNECTION_INTERVAL_NANOS {
            return false;
        }
        if self.is_connected {
            return false;
        }
        self.is_connected = true;
        true
    }

    /// The outcome of a connection attempt.
    pub fn finish_connect(&mut self, succeeded: bool)
        ensures
            final(self).connected() == (old(self).connected() && succeeded),
            final(self).previous() == old(self).previous(),
            final(self).started_at() == old(self).started_at(),
    {
        if !succeeded {
            self.is_connected = false;
        }
    }

    /// Asked to disconnect: whether the activity must be cleared and the connection closed
    /// (only when connected). Afterwards nothing is connected and nothing counts as sent.
    pub fn disconnect(&mut self) -> (close: bool)
        ensures
            close == old(self).connected(),
            !final(self).connected(),
            close ==> final(self).previous() is None,
            !close ==> final(self).previous() == old(self).previous(),
            final(self).started_at() == old(self).started_at(),
    {
        if !self.is_connected {
            return false;
        }
        self.previous_send = None;
        self.is_connected = false;
        true
    }

    /// Asked to show a presence: the activity to send, if any. Nothing is sent while
    /// disconnected, nor when the presence is the one sent last.
    pub fn send(&mut self, presence: PresenceData) -> (r: Option<ActivityData>)
        ensures
            r is Some <==> (old(self).connected() && old(self).previous() != Some(presence_view(presence))),
            r matches Some(a) ==> a.start == old(self).started_at() && presence_view(PresenceData {
                details: a.details,
                state: a.state,
            }) == presence_view(presence),
            r is Some ==> final(self).previous() == Some(presence_view(presence)),
            r is None ==> final(self).previous() == old(self).previous(),
            final(self).connected() == old(self).connected(),
            final(self).started_at() == old(self).started_at(),
    {
        if !self.is_connected {
            return None;
        }
        let same = match &self.previous_send {
            Some(prev) => same_presence(&presence, prev),
            None => false,
        };
        if same {
            return None;
        }
        let activity = ActivityData {
            start: self.start_time,
            details: presence.details.clone(),
            state: presence.state.clone(),
        };
        self.previous_send = Some(presence);
        Some(activity)
    }
}

/// A command to the presence thread.
#[derive(Debug)]
pub enum RpcCommand {
    Connect,
    Disconnect,
    Show(PresenceData),
}

/// The app's handle on the presence thread: a channel of commands, and the flags the thread
/// keeps up to date. `sent` records, in order, every command handed to the channel.
pub struct RichPresenceController {
    tx: mpsc::Sender<RpcCommand>,
    connected: Arc<AtomicBool>,
    busy: Arc<AtomicBool>,
    sent: Ghost<Seq<RpcCommand>>,
}

impl RichPresenceController {
    /// A handle over the command channel of a presence thread and its two flags.
    pub fn new(tx: mpsc::Sender<RpcCommand>, connected: Arc<AtomicBool>, busy: Arc<AtomicBool>) -> (r: Self)
        ensures
            r.commands() == tx,
            r.connected_flag() == connected,
            r.busy_flag() == busy,
            r.sent() == Seq::<RpcCommand>::empty(),
    {
        RichPresenceController { tx, connected, busy, sent: Ghost(Seq::empty()) }
    }

    /// The channel that commands go out on.
    pub closed spec fn commands(&self) -> mpsc::Sender<RpcCommand> {
        self.tx
    }

    /// The flag the thread sets while it holds a connection.
    pub closed spec fn connected_flag(&self) -> Arc<AtomicBool> {
        self.connected
    }

    /// The flag the thread sets while it is connecting or disconnecting.
    pub closed spec fn busy_flag(&self) -> Arc<AtomicBool> {
        self.busy
    }

    /// The commands handed to the channel so far, oldest first. Whether the thread received
    /// them (it may have stopped) is not recorded.
    pub closed spec fn sent(&self) -> Seq<RpcCommand> {
        self.sent@
    }

    /// The same handle, with one more command sent.
    pub open spec fn sent_one_more(old: Self, new: Self, c: RpcCommand) -> bool {
        &&& new.sent() == old.sent().push(c)
        &&& new.commands() == old.commands()
        &&& new.connected_flag() == old.connected_flag()
        &&& new.busy_flag() == old.busy_flag()
    }

    /// Asks the thread to connect.
    pub fn ensure_connected(&mut self)
        ensures
            Self::sent_one_more(*old(self), *final(self), RpcCommand::Connect),
    {
        post(&self.tx, RpcCommand::Connect);
        self.sent = Ghost(self.sent@.push(RpcCommand::Connect));
    }

    /// Asks the thread to disconnect.
    pub fn ensure_disconnected(&mut self)
        ensures
            Self::sent_one_more(*old(self), *final(self), RpcCommand::Disconnect),
    {
        post(&self.tx, RpcCommand::Disconnect);
        self.sent = Ghost(self.sent@.push(RpcCommand::Disconnect));
    }

    /// Asks the thread to show a presence.
    pub fn set_presence(&mut self, data: PresenceData)
        ensures
            Self::sent_one_more(*old(self), *final(self), RpcCommand::Show(data)),
    {
        let ghost command = RpcCommand::Show(data);
        post(&self.tx, RpcCommand::Show(data));
        self.sent = Ghost(self.sent@.push(command));
    }

    /// Whether the thread reports a connection: the connected flag as the thread last set it.
    /// The value depends on the other thread, so nothing is promised of it.
    pub fn is_connected(&self) -> bool {
        self.connected.load(std::sync::atomic::Ordering::Relaxed)
    }

    /// Whether the thread reports that it is connecting or disconnecting: the busy flag as the
    /// thread last set it. The value depends on the other thread, so nothing is promised of it.
    pub fn is_busy(&self) -> bool {
        self.busy.load(std::sync::atomic::Ordering::Relaxed)
    }
}

} // verus!
