use std::sync::Arc;
use std::time::SystemTime;

use rlbuddy::game::playlist::Playlist;
use rlbuddy::game::rank::{Division, Rank};
use rlbuddy::matches::apis::avatar_api::{avatar_api_url, AvatarKey, AvatarPlatform};
use rlbuddy::matches::apis::epic_id_api::epic_id_api_url;
use rlbuddy::matches::apis::name_api::name_api_url;
use rlbuddy::matches::apis::rank_api::{
    rank_api_url, GetPlayerSkillsPlaylistData, GetPlayerSkillsResponse, PlayerSkillInformation,
    PlaylistSkillInformation,
};
use rlbuddy::matches::match_info::{
    is_censored, normalize_bot_player_ids, MatchInfo, MatchOverInfo, MatchPlayer, StrippedMatchInfo,
};
use rlbuddy::matches::service::{MatchType, MatchesServiceState};
use rlbuddy::matches::widgets::buddy_badges::get_badges;
use rlbuddy::matches::widgets::match_renderer::{
    listed_players, mmr_info_labels, name_color, rank_cell_hover, rank_icon_hover, score_order,
    BuddyStatsOption, DiffTone, MatchRenderer, MatchStatus, NameColor,
};
use rlbuddy::rl::match_state::MatchState;
use rlbuddy::rl_stats_api::Platform;
use rlbuddy::rocket_league::{Team, TeamScores};
use rlbuddy::stats_api::{MatchUpdate, PlayerData, PlayerStats, RLEvent};

fn stats(score: u16) -> PlayerStats {
    PlayerStats { score, goals: 1, assists: 2, saves: 3, shots: 4, touches: 5 }
}

fn player(name: &str, id: &str, platform: Platform, team: Team) -> PlayerData {
    PlayerData {
        name: name.to_string(),
        platform,
        platform_id: id.to_string(),
        team,
        stats: stats(100),
    }
}

fn update(players: Vec<PlayerData>, blue: u8, orange: u8) -> MatchUpdate {
    MatchUpdate {
        players,
        score: TeamScores { blue, orange },
        arena: "DFH Stadium",
        playlist: Playlist::Twos,
        state: MatchState::Game,
    }
}

fn four_players() -> Vec<PlayerData> {
    vec![
        player("me", "Steam|1|0", Platform::Steam, Team::Orange),
        player("mate", "Epic|2|0", Platform::Epic, Team::Orange),
        player("foe1", "Epic|3|0", Platform::Epic, Team::Blue),
        player("foe2", "PS4|4|0", Platform::PlayStation, Team::Blue),
    ]
}

fn skill(playlist: Playlist, mmr: i16) -> Arc<PlayerSkillInformation> {
    Arc::new(PlayerSkillInformation {
        playlists: vec![PlaylistSkillInformation {
            playlist,
            rank: Rank::estimate_from_mmr(mmr),
            div: Division::One,
            mmr,
            rank_is_estimate: false,
        }],
    })
}

#[test]
fn new_match_puts_local_team_first() {
    let local = Some("Steam|1|0".to_string());
    let m = MatchInfo::new(update(four_players(), 0, 0), &local);
    assert_eq!(m.our_team, Team::Orange);
    assert_eq!(m.players.len(), 4);
    assert!(m.players[0].is_local_player);
    assert!(m.players.iter().all(|p| !p.left));
    assert!(m.finish.is_none());
    assert_eq!(m.max_active_players, 4);
}

#[test]
fn update_marks_departed_players_and_keeps_them() {
    let local = Some("Steam|1|0".to_string());
    let mut m = MatchInfo::new(update(four_players(), 0, 0), &local);
    let mut next = four_players();
    next.remove(3);
    m.update(update(next, 1, 0), &local);
    assert_eq!(m.players.len(), 4);
    let foe2 = m.players.iter().find(|p| p.data.platform_id == "PS4|4|0").unwrap();
    assert!(foe2.left);
    assert!(m.players.iter().filter(|p| p.data.platform_id != "PS4|4|0").all(|p| !p.left));
    assert_eq!(m.score.blue, 1);
    assert_eq!(m.max_active_players, 4);
}

#[test]
fn update_adds_new_players_at_the_end_of_their_team() {
    let local = Some("Steam|1|0".to_string());
    let mut m = MatchInfo::new(update(four_players(), 0, 0), &local);
    let mut next = four_players();
    next.push(player("late", "Epic|9|0", Platform::Epic, Team::Blue));
    m.update(update(next, 0, 0), &local);
    assert_eq!(m.players.len(), 5);
    assert_eq!(m.players[4].data.name, "late");
    assert_eq!(m.max_active_players, 5);
}

#[test]
fn bots_are_told_apart_by_name() {
    let mut ps = vec![
        player("Armstrong", "Unknown|0|0", Platform::Bot, Team::Blue),
        player("Bandit", "Unknown|0|0", Platform::Bot, Team::Orange),
        player("human", "Epic|5|0", Platform::Epic, Team::Blue),
    ];
    normalize_bot_player_ids(&mut ps);
    assert_eq!(ps[0].platform_id, "Armstrong");
    assert_eq!(ps[1].platform_id, "Bandit");
    assert_eq!(ps[2].platform_id, "Epic|5|0");
}

#[test]
fn censored_names() {
    assert!(is_censored("****"));
    assert!(!is_censored(""));
    assert!(!is_censored("**a*"));
}

#[test]
fn trn_links() {
    let local = Some("Steam|1|0".to_string());
    let m = MatchInfo::new(update(four_players(), 0, 0), &local);
    let me = m.players.iter().find(|p| p.is_local_player).unwrap();
    assert_eq!(
        me.trn_link().unwrap(),
        "https://rocketleague.tracker.network/rocket-league/profile/steam/1/overview"
    );
    let mut foe = m.players.iter().find(|p| p.data.name == "foe2").unwrap().clone();
    assert_eq!(
        foe.trn_link().unwrap(),
        "https://rocketleague.tracker.network/rocket-league/profile/psn/foe2/overview"
    );
    foe.epic_name = Some(Arc::new("EpicFoe".to_string()));
    assert_eq!(
        foe.trn_link().unwrap(),
        "https://rocketleague.tracker.network/rocket-league/profile/epic/EpicFoe/overview"
    );
}

#[test]
fn service_addresses_are_percent_encoded() {
    assert_eq!(
        rank_api_url("Steam|1|0"),
        "https://mmr.kmdw.dev/get-skills?playerId=Steam%7C1%7C0"
    );
    assert_eq!(
        epic_id_api_url("a b"),
        "https://mmr.kmdw.dev/player-id-to-epic-name?playerId=a%20b"
    );
    assert!(name_api_url("é").ends_with("%C3%A9"));
}

#[test]
fn standings_from_rank_service() {
    let reply = GetPlayerSkillsResponse {
        playlists: vec![
            GetPlayerSkillsPlaylistData { id: 10, mmr: 900, tier: 14, division: 2 },
            GetPlayerSkillsPlaylistData { id: 27, mmr: 500, tier: 5, division: 1 },
            GetPlayerSkillsPlaylistData { id: 13, mmr: 1000, tier: 0, division: 0 },
        ],
    };
    let info = PlayerSkillInformation::from_response(reply);
    assert_eq!(info.playlists.len(), 2);
    let ones = info.get_playlist(Playlist::Ones).unwrap();
    assert_eq!(ones.rank, Rank::Diamond2);
    assert_eq!(ones.div, Division::Two);
    assert!(!ones.rank_is_estimate);
    let threes = info.get_playlist(Playlist::Threes).unwrap();
    assert_eq!(threes.rank, Rank::Champ1);
    assert!(threes.rank_is_estimate);
    assert!(info.get_playlist(Playlist::Twos).is_none());
}

#[test]
fn match_over_then_left_moves_match_to_history() {
    let mut state = MatchesServiceState::from_history(Vec::new());
    let mut local = Some("Steam|1|0".to_string());
    state.handle_event(RLEvent::Update(update(four_players(), 2, 1)), &mut local);
    assert!(state.current_match.is_some());
    let out = state.handle_event(RLEvent::MatchOver(Team::Blue), &mut local);
    assert!(out.keep_going);
    assert_eq!(state.current_match.as_ref().unwrap().finish.as_ref().unwrap().winner, Some(Team::Blue));
    let out = state.handle_event(RLEvent::MatchLeft, &mut local);
    assert!(state.current_match.is_none());
    assert_eq!(state.prev_matches.len(), 1);
    assert_eq!(out.invalidate_ranks_for.len(), 4);
    assert!(state.prev_matches[0].is_over());
    assert_eq!(state.prev_matches[0].our_team(), Team::Orange);
}

#[test]
fn leaving_without_end_takes_score_leader() {
    let mut state = MatchesServiceState::from_history(Vec::new());
    let mut local = Some("Steam|1|0".to_string());
    state.handle_event(RLEvent::Update(update(four_players(), 0, 3)), &mut local);
    state.handle_event(RLEvent::MatchLeft, &mut local);
    match &state.prev_matches[0] {
        MatchType::Session(s) => assert_eq!(s.finish.as_ref().unwrap().winner, Some(Team::Orange)),
        _ => panic!("expected a session match"),
    }
    let out = state.handle_event(RLEvent::MatchLeft, &mut local);
    assert!(!out.keep_going);
}

#[test]
fn stripped_match_keeps_players_and_winner() {
    let local = Some("Steam|1|0".to_string());
    let mut m = MatchInfo::new(update(four_players(), 1, 2), &local);
    m.finish = Some(MatchOverInfo { timestamp: SystemTime::now(), winner: Some(Team::Orange) });
    let stripped = StrippedMatchInfo::from_match(m);
    assert_eq!(stripped.winner, Team::Orange);
    assert_eq!(stripped.players.len(), 4);
    assert_eq!(stripped.our_team(), Team::Orange);
}

fn finished(local_team: Team, winner: Option<Team>, players: Vec<PlayerData>) -> MatchType {
    let local = Some("Steam|1|0".to_string());
    let mut m = MatchInfo::new(update(players, 0, 0), &local);
    m.our_team = local_team;
    m.finish = Some(MatchOverInfo { timestamp: SystemTime::now(), winner });
    MatchType::Session(m)
}

fn other(name: &str, id: &str) -> MatchPlayer {
    MatchPlayer {
        left: false,
        uncensored_name: None,
        epic_name: None,
        data: player(name, id, Platform::Epic, Team::Orange),
        skill: None,
        is_local_player: false,
    }
}

#[test]
fn first_meeting_gets_only_the_sprout() {
    let history = vec![finished(Team::Orange, Some(Team::Orange), four_players())];
    let badges = get_badges(&other("stranger", "Epic|77|0"), &history);
    assert_eq!(badges.len(), 1);
    assert_eq!(badges[0].badge, "🌱");
    assert_eq!(badges[0].detail_text, "This is your first game together!");
}

#[test]
fn teammate_and_rival_badges() {
    let history = vec![
        finished(Team::Orange, Some(Team::Orange), four_players()),
        finished(Team::Orange, Some(Team::Blue), four_players()),
        finished(Team::Orange, Some(Team::Orange), four_players()),
    ];
    let mate = get_badges(&other("mate", "Epic|2|0"), &history);
    assert_eq!(mate.len(), 1);
    assert_eq!(mate[0].badge, "😎 2");
    assert_eq!(mate[0].detail_text, "2 game(s) won together!");

    let foe = get_badges(&other("foe1", "Epic|3|0"), &history);
    assert_eq!(foe.len(), 1);
    assert_eq!(foe[0].badge, "⚔ 2-1");
    assert_eq!(foe[0].detail_text, "3 game(s) against eachother. (W/L: 2/1)");
}

#[test]
fn many_wins_change_the_icon() {
    let history: Vec<MatchType> =
        (0..10).map(|_| finished(Team::Orange, Some(Team::Orange), four_players())).collect();
    let mate = get_badges(&other("mate", "Epic|2|0"), &history);
    assert_eq!(mate[0].badge, "🥰 10");
    let foe = get_badges(&other("foe1", "Epic|3|0"), &history);
    assert_eq!(foe[0].badge, "🩸 10-0");
}

#[test]
fn header_and_lobby_ratings() {
    let local = Some("Steam|1|0".to_string());
    let mut m = MatchInfo::new(update(four_players(), 3, 1), &local);
    m.players[0].skill = Some(skill(Playlist::Twos, 1000));
    m.players[1].skill = Some(skill(Playlist::Twos, 900));
    m.players[2].skill = Some(skill(Playlist::Ones, 5000));
    m.players[3].skill = Some(skill(Playlist::Twos, 801));
    let mt = MatchType::Session(m);
    let r = MatchRenderer::new(&mt, BuddyStatsOption::No);
    assert_eq!(r.header_status(), Some(MatchStatus::InProgress));
    let (avg, mine) = r.lobby_mmr();
    assert_eq!(avg, 900);
    assert_eq!(mine, Some(1000));
    let labels = mmr_info_labels(avg, mine);
    assert_eq!(labels.average, "Lobby average: 900");
    assert_eq!(labels.yours.unwrap(), "Yours: 1000");
    let (diff, tone) = labels.diff.unwrap();
    assert_eq!(diff, "+100");
    assert_eq!(tone, DiffTone::Above);
    assert_eq!(MatchStatus::InProgress.label(), "In progress");
}

#[test]
fn lobby_average_rounds_toward_zero() {
    let local = Some("Steam|1|0".to_string());
    let mut m = MatchInfo::new(update(four_players(), 0, 0), &local);
    m.players[0].skill = Some(skill(Playlist::Twos, -5));
    m.players[1].skill = Some(skill(Playlist::Twos, 0));
    let mt = MatchType::Session(m);
    let r = MatchRenderer::new(&mt, BuddyStatsOption::No);
    assert_eq!(r.lobby_mmr(), (-2, Some(-5)));
    let labels = mmr_info_labels(-2, Some(-5));
    assert_eq!(labels.average, "Lobby average: -2");
    assert_eq!(labels.diff.unwrap(), ("-3".to_string(), DiffTone::Below));
    assert_eq!(mmr_info_labels(7, Some(7)).diff.unwrap(), ("+0".to_string(), DiffTone::Even));
    assert!(mmr_info_labels(7, None).yours.is_none());
}

#[test]
fn header_outcome_of_finished_matches() {
    let win = finished(Team::Orange, Some(Team::Orange), four_players());
    assert_eq!(MatchRenderer::new(&win, BuddyStatsOption::No).header_status(), Some(MatchStatus::Win));
    let loss = finished(Team::Orange, Some(Team::Blue), four_players());
    assert_eq!(MatchRenderer::new(&loss, BuddyStatsOption::No).header_status(), Some(MatchStatus::Loss));
}

#[test]
fn listed_players_skip_idle_bots() {
    let local = Some("Steam|1|0".to_string());
    let mut ps = four_players();
    let mut bot = player("Armstrong", "Unknown|0|0", Platform::Bot, Team::Blue);
    bot.stats.score = 0;
    ps.push(bot);
    let mut scoring_bot = player("Bandit", "Unknown|0|0", Platform::Bot, Team::Blue);
    scoring_bot.stats.score = 50;
    ps.push(scoring_bot);
    let m = MatchInfo::new(update(ps, 0, 0), &local);
    let shown = listed_players(&m.players);
    assert_eq!(shown.len(), 5);
    assert!(shown.iter().all(|&i| m.players[i].data.name != "Armstrong"));
}

#[test]
fn name_colors_and_score_order() {
    let mut p = other("x", "Epic|1|0");
    assert_eq!(name_color(&p), NameColor::Orange);
    p.is_local_player = true;
    assert_eq!(name_color(&p), NameColor::Strong);
    p.left = true;
    assert_eq!(name_color(&p), NameColor::Muted);
    let s = TeamScores { blue: 4, orange: 2 };
    assert_eq!(score_order(&s, Team::Blue), (4, 2));
    assert_eq!(score_order(&s, Team::Orange), (2, 4));
}

#[test]
fn rank_hover_texts() {
    let r = PlaylistSkillInformation {
        playlist: Playlist::Threes,
        rank: Rank::Champ2,
        div: Division::Three,
        mmr: 1100,
        rank_is_estimate: false,
    };
    assert_eq!(rank_cell_hover(&r), "3s rank: Champion II Div III");
    assert_eq!(rank_icon_hover(&r), "Champion II Div III");
    let e = PlaylistSkillInformation { rank_is_estimate: true, ..r };
    assert_eq!(rank_cell_hover(&e), "Unranked in 3s");
    assert_eq!(rank_icon_hover(&e), "Estimated rank");
}

#[test]
fn avatar_keys_and_addresses() {
    assert!(AvatarPlatform::try_from(Platform::Epic).is_err());
    let mut steam = other("s", "Steam|765|0");
    steam.data.platform = Platform::Steam;
    let key = AvatarKey::try_from(&steam).unwrap();
    assert_eq!(key.platform, AvatarPlatform::Steam);
    assert_eq!(key.id, "765");
    assert_eq!(avatar_api_url(&key), "https://rl-avatars-api.kmdw.dev/avatar?service=steam&steamid=765");
    let mut xbox = other("Gamer Tag", "XboxOne|1|0");
    xbox.data.platform = Platform::Xbox;
    let key = AvatarKey::try_from(&xbox).unwrap();
    assert_eq!(avatar_api_url(&key), "https://rl-avatars-api.kmdw.dev/avatar?service=xbox&gamertag=Gamer Tag");
    xbox.data.name = "****".to_string();
    assert!(AvatarKey::try_from(&xbox).is_err());
}
