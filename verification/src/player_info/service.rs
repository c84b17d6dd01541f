//! Opening player profiles on the tracker site.

use vstd::prelude::*;
use vstd::utf8::encode_utf8;

use crate::common::channel::{Receiver, Sender};
use crate::common::url::{percent_encode, url_encode};
use crate::player_info::trn::{tracker_platform, tracker_platform_name};
use crate::rocket_league::Platform;
use crate::text::push_str;

verus! {

/// A request to the profile service.
#[derive(Debug)]
pub enum PlayerInfoServiceCommand {
    /// Open the profile of the player with this name (or Steam id) on this platform.
    Open(Platform, String),
}

/// The tracker page of a player.
pub open spec fn profile_page_text(platform: Seq<char>, id: Seq<char>) -> Seq<char> {
    "https://tracker.gg/rocket-league/profile/"@ + platform + seq!['/'] + percent_encode(
        encode_utf8(id),
    ) + "/overview"@
}

/// The tracker page of a player on a platform other than a bot's.
pub fn profile_page_url(platform: Platform, platform_id: &str) -> (r: String)
    requires
        platform != Platform::Bot,
    ensures
        r@ == profile_page_text(tracker_platform(platform)->0, platform_id@),
{
    let mut url = "https://tracker.gg/rocket-league/profile/".to_owned();
    push_str(&mut url, tracker_platform_name(platform));
    push_str(&mut url, "/");
    let encoded = url_encode(platform_id);
    push_str(&mut url, encoded.as_str());
    push_str(&mut url, "/overview");
    proof {
        reveal_strlit("/");
    }
    url
}

/// The pages the queued commands open, in order: they are opened up to the first command
/// about a bot, which ends the run; the commands after it stay queued.
pub open spec fn pages_until_bot(cmds: Seq<PlayerInfoServiceCommand>) -> Seq<Seq<char>>
    decreases cmds.len(),
{
    if cmds.len() == 0 {
        seq![]
    } else {
        match cmds[0] {
            PlayerInfoServiceCommand::Open(p, id) => if p == Platform::Bot {
                seq![]
            } else {
                seq![profile_page_text(tracker_platform(p)->0, id@)] + pages_until_bot(cmds.drop_first())
            },
        }
    }
}

/// The requests left after the run: those after the first request about a bot.
pub open spec fn left_after_bot(cmds: Seq<PlayerInfoServiceCommand>) -> Seq<PlayerInfoServiceCommand>
    decreases cmds.len(),
{
    if cmds.len() == 0 {
        seq![]
    } else {
        match cmds[0] {
            PlayerInfoServiceCommand::Open(p, _) => if p == Platform::Bot {
                cmds.drop_first()
            } else {
                left_after_bot(cmds.drop_first())
            },
        }
    }
}

/// The model of a list of pages.
pub open spec fn pages_view(pages: Seq<String>) -> Seq<Seq<char>> {
    pages.map_values(|p: String| p@)
}

/// One run over requests: the pages they open, in order, up to the first request about a
/// bot, which ends the run; and the requests after it.
pub fn plan_pages(cmds: Vec<PlayerInfoServiceCommand>) -> (r: (Vec<String>, Vec<PlayerInfoServiceCommand>))
    ensures
        pages_view(r.0@) == pages_until_bot(cmds@),
        r.1@ == left_after_bot(cmds@),
{
    let ghost all = cmds@;
    let mut rest = cmds;
    let mut pages: Vec<String> = Vec::new();
    let mut k: usize = 0;
    let n = rest.len();
    assert(all.skip(0) =~= all);
    while rest.len() > 0
        invariant
            all == cmds@,
            n == all.len(),
            rest@.len() + k == n,
            rest@ == all.skip(k as int),
            pages_until_bot(all) == pages_view(pages@) + pages_until_bot(rest@),
            left_after_bot(all) == left_after_bot(rest@),
        decreases rest@.len(),
    {
        let ghost before = rest@;
        let cmd = rest.remove(0);
        assert(cmd == before[0]);
        assert(rest@ =~= before.drop_first());
        match cmd {
            PlayerInfoServiceCommand::Open(platform, platform_id) => {
                assert(before[0] == PlayerInfoServiceCommand::Open(platform, platform_id));
                if platform == Platform::Bot {
                    assert(pages_until_bot(before) =~= Seq::<Seq<char>>::empty());
                    assert(left_after_bot(before) == rest@);
                    assert(pages_view(pages@) + Seq::<Seq<char>>::empty() =~= pages_view(pages@));
                    return (pages, rest);
                }
                let url = profile_page_url(platform, platform_id.as_str());
                let ghost pv = pages_view(pages@);
                pages.push(url);
                assert(pages_view(pages@) =~= pv.push(url@));
                assert(pv + pages_until_bot(before) =~= pages_view(pages@) + pages_until_bot(rest@));
            },
        }
        k = k + 1;
        assert(rest@ =~= all.skip(k as int));
    }
    assert(pages_until_bot(rest@) =~= Seq::<Seq<char>>::empty());
    assert(pages_view(pages@) + Seq::<Seq<char>>::empty() =~= pages_view(pages@));
    (pages, rest)
}

/// The profile service: takes open requests from the rest of the app.
pub struct PlayerInfoService {
    command_receiver: Receiver<PlayerInfoServiceCommand>,
}

impl Default for PlayerInfoService {
    fn default() -> (r: Self) {
        PlayerInfoService { command_receiver: Receiver::new() }
    }
}

impl PlayerInfoService {
    /// The queue requests arrive on.
    pub closed spec fn queue(&self) -> crate::common::channel::Queue<PlayerInfoServiceCommand> {
        self.command_receiver.queue()
    }

    /// Takes the queued requests and gives the pages to open, in order (see `plan_pages`);
    /// the requests after one about a bot go back in the queue for the next run.
    pub fn update(&mut self) -> (r: Vec<String>)
        ensures
            final(self).queue() == old(self).queue(),
            exists|cmds: Seq<PlayerInfoServiceCommand>| pages_view(r@) == pages_until_bot(cmds),
    {
        let cmds = self.command_receiver.take_all();
        let ghost c = cmds@;
        let (pages, rest) = plan_pages(cmds);
        assert(pages_view(pages@) == pages_until_bot(c));
        let sender = self.command_receiver.send();
        let mut rest = rest;
        let n = rest.len();
        let mut k: usize = 0;
        while k < n
            invariant
                rest@.len() == n - k,
                k <= n,
            decreases n - k,
        {
            let cmd = rest.remove(0);
            sender.send(cmd);
            k = k + 1;
        }
        pages
    }

    /// A sender of requests to this service.
    pub fn sender(&self) -> (r: Sender<PlayerInfoServiceCommand>)
        ensures
            r.queue() == self.queue(),
    {
        self.command_receiver.send()
    }
}

/// The player search box: the platform chosen and the name typed.
pub struct PlayerSearchWidget {
    pub selected_platform: Platform,
    pub player_name: String,
    pub sender: Sender<PlayerInfoServiceCommand>,
}

impl PlayerSearchWidget {
    /// An empty search on Epic.
    pub fn new(sender: Sender<PlayerInfoServiceCommand>) -> (r: Self)
        ensures
            r.selected_platform == Platform::Epic,
            r.player_name@.len() == 0,
            r.sender.queue() == sender.queue(),
    {
        PlayerSearchWidget { selected_platform: Platform::Epic, player_name: String::new(), sender }
    }

    /// Asks for the profile of the name typed on the platform chosen.
    pub fn search(&self) {
        self.sender.send(PlayerInfoServiceCommand::Open(self.selected_platform, self.player_name.clone()));
    }
}

} // verus!
