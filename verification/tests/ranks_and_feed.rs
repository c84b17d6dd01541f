use rlbuddy::game::playlist::Playlist;
use rlbuddy::game::rank::{Division, Rank, RankColor};
use rlbuddy::rl::match_state::MatchState;
use rlbuddy::rl_stats_api::{
    classify_event, parse_player_list, parse_stats_api_player, Platform, RLEvent, StatsApiEventKind,
    StatsApiPlayerData, StatsApiSession,
};
use rlbuddy::rocket_league::{Team, TeamScores};
use rlbuddy::stats_api::{update_from_feed, FeedPlayerLine, PlayerStats};

#[test]
fn estimate_rank_thresholds() {
    assert_eq!(Rank::estimate_from_mmr(-100), Rank::Bronze1);
    assert_eq!(Rank::estimate_from_mmr(156), Rank::Bronze1);
    assert_eq!(Rank::estimate_from_mmr(157), Rank::Bronze2);
    assert_eq!(Rank::estimate_from_mmr(700), Rank::Plat2);
    assert_eq!(Rank::estimate_from_mmr(1000), Rank::Champ1);
    assert_eq!(Rank::estimate_from_mmr(1351), Rank::GC3);
    assert_eq!(Rank::estimate_from_mmr(1352), Rank::Ssl);
}

#[test]
fn estimate_is_monotone_on_samples() {
    let mut prev = Rank::estimate_from_mmr(i16::MIN).tier();
    for mmr in (-200i16..2000).step_by(7) {
        let t = Rank::estimate_from_mmr(mmr).tier();
        assert!(t >= prev);
        assert!(t >= 1);
        prev = t;
    }
}

#[test]
fn tiers_round_trip() {
    for t in 0u8..=22 {
        assert_eq!(Rank::from_tier(t).tier(), t);
        assert_eq!(Rank::try_from_tier(t), Some(Rank::from_tier(t)));
    }
    assert_eq!(Rank::try_from_tier(23), None);
    assert_eq!(Rank::from_tier(0), Rank::Unranked);
    assert_eq!(Rank::from_tier(22).as_str(), "Supersonic Legend");
    assert_eq!(Rank::GC2.as_str(), "Grand Champion II");
}

#[test]
fn rank_colors_by_group() {
    assert_eq!(Rank::Unranked.to_color(), RankColor::DarkGray);
    assert_eq!(Rank::Bronze3.to_color(), RankColor::Brown);
    assert_eq!(Rank::Silver1.to_color(), RankColor::Gray);
    assert_eq!(Rank::Gold2.to_color(), RankColor::Yellow);
    assert_eq!(Rank::Plat1.to_color(), RankColor::LightBlue);
    assert_eq!(Rank::Diamond3.to_color(), RankColor::Blue);
    assert_eq!(Rank::Champ2.to_color(), RankColor::Purple);
    assert_eq!(Rank::GC1.to_color(), RankColor::Red);
    assert_eq!(Rank::Ssl.to_color(), RankColor::White);
}

#[test]
fn divisions() {
    assert_eq!(Division::from_number(0), Division::NoDivision);
    assert_eq!(Division::from_number(3), Division::Three);
    assert_eq!(Division::from_number(9), Division::NoDivision);
    assert_eq!(Division::Four.to_string(), " Div IV");
    assert_eq!(Division::NoDivision.to_string(), "");
}

#[test]
fn playlists() {
    assert_eq!(Playlist::from_player_count(2), Some(Playlist::Ones));
    assert_eq!(Playlist::from_player_count(4), Some(Playlist::Twos));
    assert_eq!(Playlist::from_player_count(6), Some(Playlist::Threes));
    assert_eq!(Playlist::from_player_count(3), None);
    assert_eq!(Playlist::Threes.id(), 13);
    assert_eq!(u8::from(Playlist::Twos), 11);
    assert_eq!(Playlist::Ones.to_string(), "1s");
    assert!(!Playlist::Twos.is_singleplayer());
}

#[test]
fn match_states() {
    assert_eq!(MatchState::Game.as_str(), "In game");
    assert_eq!(MatchState::Replay.as_str(), "Watching replay");
    assert_eq!(MatchState::Overtime.as_str(), "In overtime");
}

#[test]
fn platform_tags() {
    assert!(matches!(Platform::from_str("Steam"), Ok(Platform::Steam)));
    assert!(matches!(Platform::from_str("XboxOne"), Ok(Platform::Xbox)));
    assert!(matches!(Platform::from_str("PS4"), Ok(Platform::PlayStation)));
    assert!(matches!(Platform::from_str("Unknown"), Ok(Platform::Bot)));
    assert!(Platform::from_str("Stadia").is_err());
    assert_eq!(Platform::PlayStation.to_string(), "PlayStation");
}

#[test]
fn feed_player_parsing() {
    let p = parse_stats_api_player(StatsApiPlayerData {
        name: "kali".to_string(),
        id_data: "Steam|76561198000000000|0".to_string(),
    })
    .unwrap();
    assert_eq!(p.name, "kali");
    assert_eq!(p.platform, Platform::Steam);
    assert_eq!(p.platform_id, "Steam|76561198000000000|0");
    assert!(parse_stats_api_player(StatsApiPlayerData {
        name: "x".to_string(),
        id_data: "Nope|1|0".to_string(),
    })
    .is_none());
}

#[test]
fn feed_player_list_drops_unknown_platforms() {
    let list = parse_player_list(vec![
        StatsApiPlayerData { name: "a".to_string(), id_data: "Epic|1|0".to_string() },
        StatsApiPlayerData { name: "b".to_string(), id_data: "Zune|2|0".to_string() },
        StatsApiPlayerData { name: "c".to_string(), id_data: "Unknown|0|0".to_string() },
    ]);
    assert_eq!(list.len(), 2);
    assert_eq!(list[0].name, "a");
    assert_eq!(list[1].platform, Platform::Bot);
}

#[test]
fn feed_event_kinds() {
    assert_eq!(classify_event("UpdateState"), StatsApiEventKind::UpdateState);
    assert_eq!(classify_event("MatchCreated"), StatsApiEventKind::MatchCreated);
    assert_eq!(classify_event("CountdownBegin"), StatsApiEventKind::CountdownBegin);
    assert_eq!(classify_event("GoalScored"), StatsApiEventKind::Other);
}

#[test]
fn feed_session_start_announces_empty_list() {
    let (session, event) = StatsApiSession::start();
    assert!(!session.match_created_event_happened);
    match event {
        RLEvent::SetPlayerList(v) => assert!(v.is_empty()),
        _ => panic!("expected a player list"),
    }
}

#[test]
fn countdown_starts_a_match_only_after_creation() {
    let (mut session, _) = StatsApiSession::start();
    assert!(session.on_countdown_begin().is_none());
    session.on_match_created();
    assert!(matches!(session.on_countdown_begin(), Some(RLEvent::MatchStart)));
    assert!(session.on_countdown_begin().is_none());
}

#[test]
fn rank_names_are_distinct() {
    let names: Vec<&str> = (0u8..=22).map(|t| Rank::from_tier(t).as_str()).collect();
    for (i, a) in names.iter().enumerate() {
        assert!(!a.is_empty());
        for b in names.iter().skip(i + 1) {
            assert_ne!(a, b);
        }
    }
    assert_eq!(Rank::Unranked.as_str(), "Unranked");
    assert_eq!(Rank::Plat2.as_str(), "Platinum II");
    assert_eq!(Rank::GC3.as_str(), "Grand Champion III");
}

fn line(name: &str, id: &str, team_num: u8, goals: u16) -> FeedPlayerLine {
    FeedPlayerLine {
        name: name.to_string(),
        id_data: id.to_string(),
        team_num,
        stats: PlayerStats { score: 0, goals, assists: 0, saves: 0, shots: 0, touches: 0 },
    }
}

#[test]
fn feed_update_builds_the_match() {
    let known = vec![
        rlbuddy::rl_stats_api::PlayerData { name: "Ann".to_string(), platform: Platform::Steam, platform_id: "Steam|1|0".to_string() },
        rlbuddy::rl_stats_api::PlayerData { name: "Bob".to_string(), platform: Platform::Epic, platform_id: "Epic|2|0".to_string() },
        rlbuddy::rl_stats_api::PlayerData { name: "Cy".to_string(), platform: Platform::Epic, platform_id: "Epic|3|0".to_string() },
    ];
    let lines = vec![line("Bob", "Epic|2|0", 1, 2), line("Ann", "Steam|1|0", 0, 1), line("Ann", "Steam|1|0", 1, 9)];
    let u = update_from_feed(&known, &lines, &vec![3], false, true, "Stadium", Playlist::Twos);
    assert_eq!(u.players.len(), 2);
    assert_eq!(u.players[0].name, "Ann");
    assert_eq!(u.players[0].team, Team::Blue);
    assert_eq!(u.players[0].stats.goals, 1);
    assert_eq!(u.players[1].name, "Bob");
    assert_eq!(u.players[1].team, Team::Orange);
    assert_eq!(u.score, TeamScores { blue: 3, orange: 0 });
    assert_eq!(u.state, MatchState::Overtime);
    assert_eq!(u.arena, "Stadium");
    assert_eq!(u.playlist, Playlist::Ones);
    let u = update_from_feed(&known, &vec![], &vec![1, 2], true, true, "Stadium", Playlist::Twos);
    assert!(u.players.is_empty());
    assert_eq!(u.score, TeamScores { blue: 1, orange: 2 });
    assert_eq!(u.state, MatchState::Replay);
    assert_eq!(u.playlist, Playlist::Twos);
}
