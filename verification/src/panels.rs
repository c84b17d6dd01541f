//! The app's panels: which are open, in which order, and the window's settings.

use vstd::prelude::*;

use crate::stats_api::RLEvent;
use crate::text::push_str;

verus! {

/// A panel of the main window.
#[derive(Debug, Clone, Copy, PartialEq, Eq, Hash, Structural)]
pub enum LegacyPanel {
    CurrentMatch,
    PastMatches,
    MyStats,
    Discord,
    MapLoader,
    AutoSetup,
    GamepadOverlay,
    Settings,
}

/// The title of a panel.
pub open spec fn panel_title(p: LegacyPanel) -> Seq<char> {
    match p {
        LegacyPanel::CurrentMatch => "Lobby"@,
        LegacyPanel::PastMatches => "History"@,
        LegacyPanel::MyStats => "Session"@,
        LegacyPanel::Discord => "Discord"@,
        LegacyPanel::MapLoader => "Custom Maps"@,
        LegacyPanel::AutoSetup => "Stats API Setup"@,
        LegacyPanel::GamepadOverlay => "Gamepad Overlay"@,
        LegacyPanel::Settings => "Settings"@,
    }
}

impl LegacyPanel {
    /// The panel's title.
    pub fn to_string(&self) -> (r: String)
        ensures
            r@ == panel_title(*self),
    {
        let mut s = String::new();
        push_str(
            &mut s,
            match self {
                LegacyPanel::CurrentMatch => "Lobby",
                LegacyPanel::PastMatches => "History",
                LegacyPanel::MyStats => "Session",
                LegacyPanel::Discord => "Discord",
                LegacyPanel::MapLoader => "Custom Maps",
                LegacyPanel::AutoSetup => "Stats API Setup",
                LegacyPanel::GamepadOverlay => "Gamepad Overlay",
                LegacyPanel::Settings => "Settings",
            },
        );
        s
    }
}

/// The panels offered in the panel menu, in menu order.
pub open spec fn openable_panels() -> Seq<LegacyPanel> {
    seq![
        LegacyPanel::CurrentMatch,
        LegacyPanel::Discord,
        LegacyPanel::MyStats,
        LegacyPanel::PastMatches,
        LegacyPanel::MapLoader,
        LegacyPanel::AutoSetup,
        LegacyPanel::GamepadOverlay,
        LegacyPanel::Settings,
    ]
}

/// The panels offered in the panel menu.
pub fn openable_legacy_panels() -> (r: Vec<LegacyPanel>)
    ensures
        r@ == openable_panels(),
{
    let r = vec![
        LegacyPanel::CurrentMatch,
        LegacyPanel::Discord,
        LegacyPanel::MyStats,
        LegacyPanel::PastMatches,
        LegacyPanel::MapLoader,
        LegacyPanel::AutoSetup,
        LegacyPanel::GamepadOverlay,
        LegacyPanel::Settings,
    ];
    assert(r@ =~= openable_panels());
    r
}

/// The open panels, in the order they are shown.
#[derive(Debug, Clone)]
pub struct OpenLegacyPanelList(pub Vec<LegacyPanel>);

impl Default for OpenLegacyPanelList {
    /// The lobby and the setup panel.
    fn default() -> (r: Self)
        ensures
            r.0@ == seq![LegacyPanel::CurrentMatch, LegacyPanel::AutoSetup],
    {
        let r = OpenLegacyPanelList(vec![LegacyPanel::CurrentMatch, LegacyPanel::AutoSetup]);
        assert(r.0@ =~= seq![LegacyPanel::CurrentMatch, LegacyPanel::AutoSetup]);
        r
    }
}

/// Every panel other than `p`.
pub open spec fn not_panel(p: LegacyPanel) -> spec_fn(LegacyPanel) -> bool {
    |q: LegacyPanel| q != p
}

impl OpenLegacyPanelList {
    /// Whether a panel is open.
    pub fn contains(&self, panel: LegacyPanel) -> (r: bool)
        ensures
            r == self.0@.contains(panel),
    {
        let mut i: usize = 0;
        while i < self.0.len()
            invariant
                i <= self.0@.len(),
                forall|j: int| 0 <= j < i ==> self.0@[j] != panel,
            decreases self.0@.len() - i,
        {
            if self.0[i] == panel {
                return true;
            }
            i = i + 1;
        }
        false
    }

    /// Closes a panel: every entry of it goes, the others keep their order.
    pub fn close(&mut self, panel: LegacyPanel)
        ensures
            final(self).0@ == old(self).0@.filter(not_panel(panel)),
    {
        let ghost all = self.0@;
        let mut kept: Vec<LegacyPanel> = Vec::new();
        let mut i: usize = 0;
        while i < self.0.len()
            invariant
                all == self.0@,
                i <= all.len(),
                kept@ == all.take(i as int).filter(not_panel(panel)),
            decreases all.len() - i,
        {
            proof {
                reveal_with_fuel(Seq::<LegacyPanel>::filter, 1);
                assert(all.take(i + 1).drop_last() =~= all.take(i as int));
            }
            if self.0[i] != panel {
                kept.push(self.0[i]);
            }
            i = i + 1;
        }
        assert(all.take(i as int) =~= all);
        self.0 = kept;
    }

    /// Opens a closed panel at the end, or closes an open one: what a click in the panel
    /// menu does.
    pub fn toggle(&mut self, panel: LegacyPanel)
        ensures
            old(self).0@.contains(panel) ==> final(self).0@ == old(self).0@.filter(not_panel(panel)),
            !old(self).0@.contains(panel) ==> final(self).0@ == old(self).0@.push(panel),
    {
        if self.contains(panel) {
            self.close(panel);
        } else {
            self.0.push(panel);
        }
    }

    /// Exchanges the panels at two positions: what moving a panel up or down does.
    pub fn swap(&mut self, a: usize, b: usize)
        requires
            a < old(self).0@.len(),
            b < old(self).0@.len(),
        ensures
            final(self).0@ == old(self).0@.update(a as int, old(self).0@[b as int]).update(
                b as int,
                old(self).0@[a as int],
            ),
    {
        let pa = self.0[a];
        let pb = self.0[b];
        self.0.set(a, pb);
        self.0.set(b, pa);
    }
}

/// Opening a closed panel and closing it again leaves the list as it was.
pub proof fn lemma_toggle_twice(s: Seq<LegacyPanel>, p: LegacyPanel)
    requires
        !s.contains(p),
    ensures
        s.push(p).contains(p),
        s.push(p).filter(not_panel(p)) == s,
    decreases s.len(),
{
    reveal_with_fuel(Seq::<LegacyPanel>::filter, 1);
    assert(s.push(p)[s.len() as int] == p);
    assert(s.push(p).drop_last() =~= s);
    lemma_filter_keeps_all(s, p);
}

/// Closing a panel that is not open changes nothing.
pub proof fn lemma_filter_keeps_all(s: Seq<LegacyPanel>, p: LegacyPanel)
    requires
        !s.contains(p),
    ensures
        s.filter(not_panel(p)) == s,
    decreases s.len(),
{
    reveal_with_fuel(Seq::<LegacyPanel>::filter, 1);
    if s.len() > 0 {
        let init = s.drop_last();
        assert(!init.contains(p)) by {
            if init.contains(p) {
                let i = choose|i: int| 0 <= i < init.len() && init[i] == p;
                assert(s[i] == p);
            }
        }
        lemma_filter_keeps_all(init, p);
        assert(s[s.len() - 1] != p);
        assert(init.push(s.last()) =~= s);
    } else {
        assert(s.filter(not_panel(p)) =~= s);
    }
}

/// The window's settings.
#[derive(Debug, Clone, Copy)]
pub struct AppSettings {
    pub transparency: u8,
}

impl Default for AppSettings {
    fn default() -> (r: Self)
        ensures
            r.transparency == 0,
    {
        AppSettings { transparency: 0 }
    }
}

/// The opacity of the panel background for a transparency setting.
pub fn panel_alpha(transparency: u8) -> (r: u8)
    ensures
        r == 255 - transparency,
{
    255 - transparency
}

/// What the main window does on an event of the stats feed.
#[derive(Debug, Clone, Copy, PartialEq, Eq, Structural)]
pub enum WindowAction {
    /// Show that the game is connected in the title.
    TitleConnected,
    /// Show that the game is not connected in the title.
    TitleDisconnected,
    /// Pop the window up for a few seconds.
    PopUp,
}

/// The window's reaction to an event: the title follows the connection, and the window
/// pops up when a match starts; other events leave it alone.
pub open spec fn window_action_of(e: RLEvent) -> Option<WindowAction> {
    match e {
        RLEvent::Connected => Some(WindowAction::TitleConnected),
        RLEvent::Disconnected => Some(WindowAction::TitleDisconnected),
        RLEvent::MatchStart => Some(WindowAction::PopUp),
        _ => None,
    }
}

/// The window's reaction to an event.
pub fn window_action(event: &RLEvent) -> (r: Option<WindowAction>)
    ensures
        r == window_action_of(*event),
{
    match event {
        RLEvent::Connected => Some(WindowAction::TitleConnected),
        RLEvent::Disconnected => Some(WindowAction::TitleDisconnected),
        RLEvent::MatchStart => Some(WindowAction::PopUp),
        _ => None,
    }
}

impl WindowAction {
    /// The window title an action sets, if it sets one.
    pub fn title(&self) -> (r: Option<&'static str>)
        ensures
            match self {
                WindowAction::TitleConnected => r matches Some(t) && t@ == "rlbuddy (connected)"@,
                WindowAction::TitleDisconnected => r matches Some(t) && t@ == "rlbuddy (not connected)"@,
                WindowAction::PopUp => r is None,
            },
    {
        match self {
            WindowAction::TitleConnected => Some("rlbuddy (connected)"),
            WindowAction::TitleDisconnected => Some("rlbuddy (not connected)"),
            WindowAction::PopUp => None,
        }
    }
}

/// What the overlay signals of one frame decide: the last one wins; none leaves the window
/// as it is.
pub fn overlay_decision(signals: &Vec<bool>) -> (r: Option<bool>)
    ensures
        signals@.len() == 0 ==> r is None,
        signals@.len() > 0 ==> r == Some(signals@.last()),
{
    if signals.len() == 0 {
        None
    } else {
        Some(signals[signals.len() - 1])
    }
}

} // verus!
