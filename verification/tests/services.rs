use std::rc::Rc;
use std::sync::atomic::AtomicBool;
use std::sync::mpsc;
use std::sync::Arc;

use rlbuddy::auto_setup::{replace_all, rewrite_ini_contents, AutoSetupWidget};
use rlbuddy::common::channel::Receiver;
use rlbuddy::common::eventsource::EventSource;
use rlbuddy::common::http_api::CachedHttpApi;
use rlbuddy::common::savedata::{feature_json_config_path, feature_json_data_path, join_path, rlbuddy_config_dir, rlbuddy_data_dir, rlbuddy_dir};
use rlbuddy::discord::rpc::{PresenceData, RichPresence, RichPresenceController, RpcCommand};
use rlbuddy::discord::service::{plan_presence, DiscordService, DiscordSettings, GameState, MatchData};
use rlbuddy::game::playlist::Playlist;
use rlbuddy::hotkey::{
    handle_gamepad_events, overlay_signal, GamepadButton, GamepadEvent, HotkeySettings, SelectableHotkey,
    SelectedButtonState,
};
use rlbuddy::rl::match_state::MatchState;
use rlbuddy::stats_api::RLEvent;
use rlbuddy::rocket_league::Team;
use rlbuddy::music_control::{
    MusicControlService, MusicControlSettings, PlaybackInfo,
    extension_from_content_type, extrapolated_progress, handle_null_string, plan_music, play_pause_button,
    timespan_micros, MusicControlCommand, PlaybackStatus,
};
use rlbuddy::panels::{
    openable_legacy_panels, overlay_decision, panel_alpha, window_action, LegacyPanel,
    OpenLegacyPanelList, WindowAction,
};

fn presence(details: &str, state: Option<&str>) -> PresenceData {
    PresenceData { details: details.to_string(), state: state.map(|s| s.to_string()) }
}

fn a_match() -> MatchData {
    MatchData {
        team_score: 2,
        opp_score: 1,
        playlist: Playlist::Threes,
        arena: "Mannfield",
        state: MatchState::Overtime,
    }
}

#[test]
fn match_presence_with_and_without_score() {
    let p = a_match().generate_presence(true);
    assert_eq!(p.details, "3s in Mannfield | 2-1");
    assert_eq!(p.state.as_deref(), Some("In overtime"));
    let p = a_match().generate_presence(false);
    assert_eq!(p.details, "3s in Mannfield");
    assert!(p.state.is_none());
    let lobby = GameState::Lobby.to_presence(true);
    assert_eq!(lobby.details, "Main menu");
}

#[test]
fn presence_plan_follows_settings() {
    let on = DiscordSettings { disable: false, hide_score: false };
    let hidden = DiscordSettings { disable: false, hide_score: true };
    let off = DiscordSettings { disable: true, hide_score: false };
    let game = GameState::InGame(a_match());
    assert!(plan_presence(&off, true, &game).is_none());
    assert!(plan_presence(&on, false, &game).is_none());
    assert_eq!(plan_presence(&on, true, &game).unwrap().details, "3s in Mannfield | 2-1");
    let p = plan_presence(&hidden, true, &game).unwrap();
    assert_eq!(p.details, "3s in Mannfield");
    assert!(p.state.is_none());
}

#[test]
fn rich_presence_connection_rules() {
    let mut rpc = RichPresence::new(1_700_000_000);
    assert!(!rpc.is_connected());
    assert!(rpc.send(presence("a", None)).is_none());
    assert!(!rpc.begin_connect(1_000_000_000));
    assert!(rpc.begin_connect(6_000_000_000));
    rpc.finish_connect(false);
    assert!(!rpc.is_connected());
    assert!(rpc.begin_connect(5_000_000_000));
    rpc.finish_connect(true);
    assert!(rpc.is_connected());
    assert!(!rpc.begin_connect(9_000_000_000));
    let a = rpc.send(presence("a", Some("b"))).unwrap();
    assert_eq!(a.start, 1_700_000_000);
    assert_eq!(a.details, "a");
    assert_eq!(a.state.as_deref(), Some("b"));
    assert!(rpc.send(presence("a", Some("b"))).is_none());
    assert!(rpc.send(presence("a", None)).is_some());
    assert!(rpc.disconnect());
    assert!(!rpc.disconnect());
    assert!(!rpc.is_connected());
}

#[test]
fn controller_sends_commands_in_order() {
    let (tx, rx) = mpsc::channel();
    let mut c = RichPresenceController::new(tx, Arc::new(AtomicBool::new(false)), Arc::new(AtomicBool::new(true)));
    c.ensure_connected();
    c.set_presence(presence("x", None));
    c.ensure_disconnected();
    assert!(matches!(rx.recv().unwrap(), RpcCommand::Connect));
    assert!(matches!(rx.recv().unwrap(), RpcCommand::Show(_)));
    assert!(matches!(rx.recv().unwrap(), RpcCommand::Disconnect));
    assert!(!c.is_connected());
    assert!(c.is_busy());
}

#[test]
fn anthems_pause_and_resume_music() {
    let events = vec![
        Rc::new(RLEvent::ReplayStart),
        Rc::new(RLEvent::Connected),
        Rc::new(RLEvent::ReplayDone),
        Rc::new(RLEvent::MatchOver(Team::Blue)),
        Rc::new(RLEvent::MatchLeft),
    ];
    let planned = plan_music(vec![MusicControlCommand::Next], &events, true);
    assert_eq!(
        planned,
        vec![
            MusicControlCommand::Next,
            MusicControlCommand::Pause,
            MusicControlCommand::Play,
            MusicControlCommand::Pause,
            MusicControlCommand::Play,
        ]
    );
    assert_eq!(plan_music(vec![MusicControlCommand::Previous], &events, false), vec![MusicControlCommand::Previous]);
}

#[test]
fn music_helpers() {
    assert_eq!(PlaybackStatus::try_from_primitive(4), Some(PlaybackStatus::Playing));
    assert_eq!(PlaybackStatus::try_from_primitive(6), None);
    assert_eq!(timespan_micros(1234567), Some(123456));
    assert_eq!(timespan_micros(-1), None);
    assert_eq!(extrapolated_progress(Some(PlaybackStatus::Playing), 5_000_000, 5_000_000, 1_500_000), (6_500_000, false));
    assert_eq!(extrapolated_progress(Some(PlaybackStatus::Playing), 7_000_000, 5_000_000, 1_500_000), (7_000_000, true));
    assert_eq!(extrapolated_progress(Some(PlaybackStatus::Paused), 5_000_000, 5_000_000, 1_500_000), (5_000_000, true));
    assert_eq!(extrapolated_progress(None, 5, 5, 9), (5, true));
    assert_eq!(extension_from_content_type("image/png"), "png");
    assert_eq!(extension_from_content_type("jpeg"), "jpeg");
    assert_eq!(extension_from_content_type("a/b/c"), "c");
    assert_eq!(handle_null_string(None), "-");
    assert_eq!(play_pause_button(PlaybackStatus::Paused), Some(("Play", MusicControlCommand::Play)));
    assert_eq!(play_pause_button(PlaybackStatus::Playing), Some(("Pause", MusicControlCommand::Pause)));
    assert_eq!(play_pause_button(PlaybackStatus::Stopped), None);
}

#[test]
fn channel_is_first_in_first_out() {
    let rx: Receiver<u32> = Receiver::new();
    let tx = rx.send();
    tx.send(1);
    tx.send(2);
    let tx2 = tx.clone();
    tx2.send(3);
    assert_eq!(rx.try_recv(), Some(1));
    assert_eq!(rx.take_all(), vec![2, 3]);
    assert_eq!(rx.try_recv(), None);
    tx.send(4);
    rx.drain();
    assert_eq!(rx.try_recv(), None);
}

#[test]
fn event_source_reaches_live_subscribers_only() {
    let mut source: EventSource<u8> = EventSource::new();
    let a = source.subscribe();
    let b = source.subscribe();
    source.publish(7);
    assert_eq!(*a.try_recv().unwrap(), 7);
    assert_eq!(*b.try_recv().unwrap(), 7);
    drop(b);
    source.publish(8);
    assert_eq!(*a.try_recv().unwrap(), 8);
}

#[test]
fn panel_list_toggle_close_swap() {
    let mut list = OpenLegacyPanelList::default();
    assert_eq!(list.0, vec![LegacyPanel::CurrentMatch, LegacyPanel::AutoSetup]);
    let before = list.0.clone();
    list.toggle(LegacyPanel::Discord);
    assert_eq!(list.0.last(), Some(&LegacyPanel::Discord));
    list.toggle(LegacyPanel::Discord);
    assert_eq!(list.0, before);
    list.swap(0, 1);
    assert_eq!(list.0, vec![LegacyPanel::AutoSetup, LegacyPanel::CurrentMatch]);
    list.close(LegacyPanel::AutoSetup);
    assert_eq!(list.0, vec![LegacyPanel::CurrentMatch]);
    assert!(list.contains(LegacyPanel::CurrentMatch));
    assert_eq!(openable_legacy_panels().len(), 8);
    assert_eq!(LegacyPanel::MapLoader.to_string(), "Custom Maps");
    assert_eq!(panel_alpha(55), 200);
}

#[test]
fn window_reacts_to_feed() {
    assert_eq!(window_action(&RLEvent::MatchStart), Some(WindowAction::PopUp));
    assert_eq!(window_action(&RLEvent::Connected).unwrap().title(), Some("rlbuddy (connected)"));
    assert_eq!(window_action(&RLEvent::Disconnected).unwrap().title(), Some("rlbuddy (not connected)"));
    assert_eq!(window_action(&RLEvent::ReplayDone), None);
    assert_eq!(overlay_decision(&vec![true, false, true]), Some(true));
    assert_eq!(overlay_decision(&vec![]), None);
}

#[test]
fn hotkeys() {
    assert_eq!(SelectableHotkey::default(), SelectableHotkey::Alt);
    assert_eq!(SelectableHotkey::Super.as_str(), "Windows");
    assert_eq!(SelectableHotkey::LShift.as_str(), "Left Shift");
    assert_eq!(overlay_signal(SelectableHotkey::Alt, true, true), Some(true));
    assert_eq!(overlay_signal(SelectableHotkey::Alt, true, false), Some(false));
    assert_eq!(overlay_signal(SelectableHotkey::Alt, false, true), None);
    assert_eq!(overlay_signal(SelectableHotkey::Disabled, true, true), None);
}

#[test]
fn ini_rewrite() {
    let ini = "[TAGame.MatchStatsExporter_TA]\nPacketSendRate=0\nPort=49123\n";
    assert_eq!(
        rewrite_ini_contents(ini),
        "[TAGame.MatchStatsExporter_TA]\nPacketSendRate=1\nPort=49123\n"
    );
    assert_eq!(replace_all("aaaa", "aa", "b"), "bb");
    assert_eq!(replace_all("abc", "x", "y"), "abc");
    assert_eq!(rewrite_ini_contents("PacketSendRate=60"), "PacketSendRate=60");
    let tricky = "PacketSendRate=0PacketSendRate=00xPacketSendRate=0";
    assert!(!rewrite_ini_contents(tricky).contains("PacketSendRate=0"));
}

#[test]
fn setup_panel_outcomes() {
    let mut w = AutoSetupWidget::new();
    assert!(w.success.is_none());
    w.succeed(true);
    assert_eq!(w.success, Some(Ok(Some("You will need to restart Rocket League."))));
    w.succeed(false);
    assert_eq!(w.success, Some(Ok(None)));
    w.fail("invalid path".to_string());
    assert_eq!(w.success, Some(Err("invalid path".to_string())));
    assert_eq!(AutoSetupWidget::button_text(true), "Set up automatically");
    assert_eq!(AutoSetupWidget::button_text(false), "Select file");
}

#[test]
fn data_paths() {
    assert_eq!(join_path("/home/u/.config", "rlbuddy/"), "/home/u/.config/rlbuddy/");
    assert_eq!(join_path("/x/", "y"), "/x/y");
    assert_eq!(join_path("", "y"), "y");
    assert_eq!(rlbuddy_dir(Some("/cfg"), Some("/home/u"), ".config").unwrap(), "/cfg/rlbuddy/");
    assert_eq!(rlbuddy_dir(None, Some("/home/u"), ".local/share").unwrap(), "/home/u/.local/share/rlbuddy/");
    assert!(rlbuddy_dir(None, None, ".config").is_none());
    assert_eq!(rlbuddy_config_dir(None, Some("/home/u")).unwrap(), "/home/u/.config/rlbuddy/");
    assert_eq!(rlbuddy_config_dir(Some("/x/"), Some("/home/u")).unwrap(), "/x/rlbuddy/");
    assert_eq!(rlbuddy_data_dir(None, Some("/home/u/")).unwrap(), "/home/u/.local/share/rlbuddy/");
    assert!(rlbuddy_data_dir(None, None).is_none());
    assert_eq!(
        feature_json_config_path(Some("/cfg/rlbuddy/"), "hotkey_settings").unwrap(),
        "/cfg/rlbuddy/hotkey_settings.json"
    );
    assert!(feature_json_data_path(None, "x").is_none());
    assert_eq!(join_path("a/", "/b"), "/b");
    assert_eq!(join_path("a", ""), "a/");
    assert_eq!(feature_json_config_path(Some("a/"), "/b").unwrap(), "/b.json");
}

#[test]
fn gamepad_button_choice_and_signals() {
    let mut settings = HotkeySettings { key: SelectableHotkey::Tab, button: SelectedButtonState::Choosing };
    let events = vec![
        GamepadEvent::ButtonReleased(GamepadButton::South),
        GamepadEvent::ButtonPressed(GamepadButton::Start),
        GamepadEvent::ButtonPressed(GamepadButton::Start),
    ];
    let (signals, taken) = handle_gamepad_events(&mut settings, &events);
    assert!(signals.is_empty());
    assert_eq!(taken, 2);
    assert_eq!(settings.button, SelectedButtonState::Selected(GamepadButton::Start));
    assert_eq!(settings.key, SelectableHotkey::Tab);
    let events = vec![
        GamepadEvent::ButtonPressed(GamepadButton::Start),
        GamepadEvent::ButtonReleased(GamepadButton::South),
        GamepadEvent::ButtonReleased(GamepadButton::Start),
    ];
    let (signals, taken) = handle_gamepad_events(&mut settings, &events);
    assert_eq!(signals, vec![true, false]);
    assert_eq!(taken, 3);
    assert_eq!(HotkeySettings::default().button, SelectedButtonState::Selected(GamepadButton::Start));
}

#[test]
fn http_cache_decisions() {
    let mut cache: CachedHttpApi<u32> = CachedHttpApi::new();
    assert_eq!(cache.get("a"), (None, true));
    assert_eq!(cache.get("a"), (None, false));
    cache.answered("a", 200, Some(5));
    let (got, ask) = cache.get("a");
    assert_eq!(got.as_deref(), Some(&5));
    assert!(!ask);
    cache.answered("b", 404, Some(1));
    assert_eq!(cache.get("b"), (None, false));
    cache.request_failed("a");
    assert_eq!(cache.get("a"), (None, true));
    cache.answered("a", 200, Some(7));
    cache.invalidate(&vec!["a".to_string(), "c".to_string()]);
    assert_eq!(cache.get("a"), (None, true));
    assert_eq!(cache.get("b"), (None, false));
}

#[test]
fn discord_update_commands_follow_the_game() {
    let (tx, rx) = mpsc::channel();
    let controller = RichPresenceController::new(tx, Arc::new(AtomicBool::new(false)), Arc::new(AtomicBool::new(false)));
    let mut feed: EventSource<RLEvent> = EventSource::new();
    let mut service = DiscordService::new(DiscordSettings::default(), controller, feed.subscribe());
    service.update(None);
    assert!(matches!(rx.try_recv().unwrap(), RpcCommand::Disconnect));
    assert!(rx.try_recv().is_err());
    feed.publish(RLEvent::Connected);
    service.update(None);
    assert!(matches!(rx.try_recv().unwrap(), RpcCommand::Connect));
    match rx.try_recv().unwrap() {
        RpcCommand::Show(p) => {
            assert_eq!(p.details, "Main menu");
            assert!(p.state.is_none());
        }
        _ => panic!("expected a presence"),
    }
    service.set_settings(DiscordSettings { disable: true, hide_score: false });
    service.update(None);
    assert!(matches!(rx.try_recv().unwrap(), RpcCommand::Disconnect));
    assert!(rx.try_recv().is_err());
}

fn playing(track: &str) -> PlaybackInfo {
    PlaybackInfo {
        track_name: Some(track.to_string()),
        artist: None,
        progress: None,
        song_length: None,
        status: Some(PlaybackStatus::Playing),
        thumbnail: None,
    }
}

#[test]
fn music_service_keeps_the_last_report() {
    let mut feed: EventSource<RLEvent> = EventSource::new();
    let mut service = MusicControlService::new(MusicControlSettings { pause_for_anthems: true }, feed.subscribe());
    assert!(service.playback_info().is_none());
    service.sender().send(MusicControlCommand::Next);
    feed.publish(RLEvent::ReplayStart);
    let planned = service.update(vec![Some(playing("one")), Some(playing("two"))]);
    assert_eq!(planned, vec![MusicControlCommand::Next, MusicControlCommand::Pause]);
    assert_eq!(service.playback_info().as_ref().unwrap().track_name.as_deref(), Some("two"));
    assert!(service.update(vec![]).is_empty());
    assert_eq!(service.playback_info().as_ref().unwrap().track_name.as_deref(), Some("two"));
    service.update(vec![None]);
    assert!(service.playback_info().is_none());
}
