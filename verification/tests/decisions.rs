use std::rc::Rc;
use std::sync::Arc;

use rlbuddy::discord::service::rl_open_after;
use rlbuddy::game::playlist::Playlist;
use rlbuddy::game::rank::{Division, Rank};
use rlbuddy::map_loader::service::{archive_entry_role, eq_ignore_ascii_case, EntryRole};
use rlbuddy::matches::apis::rank_api::{PlayerSkillInformation, PlaylistSkillInformation};
use rlbuddy::matches::match_info::MatchInfo;
use rlbuddy::matches::service::MatchType;
use rlbuddy::matches::widgets::match_renderer::{lobby_sums_fit, BuddyStatsOption, MatchRenderer};
use rlbuddy::player_info::service::{plan_pages, PlayerInfoServiceCommand};
use rlbuddy::player_info::trn::{
    DefaultMetadata, OverviewSegment, PeakRatingMetadata, PeakRatingSegment, PeakRatingStat, PeakRatingStats,
    SegmentAttributes, OverviewSegmentStats, OverviewSegmentStatsStatWithMetadata,
    PlatformInfo, PlaylistSegment, PlaylistSegmentStats, PlaylistSegmentStatsStatWithMetadata,
    PlayerKey, ProfileData, RankIconMetadata, Segment, SegmentStat, TrackerWidget,
};
use rlbuddy::rl::match_state::MatchState;
use rlbuddy::rl_stats_api::Platform;
use rlbuddy::rocket_league::{Team, TeamScores};
use rlbuddy::stats_api::{MatchUpdate, PlayerData, PlayerStats, RLEvent};

fn stat(name: &str, value: Option<&str>) -> SegmentStat {
    SegmentStat { display_name: name.to_string(), display_value: value.map(|v| v.to_string()) }
}

fn playlist_segment(id: i8, name: &str, tier: &str, peak: Option<&str>) -> Segment {
    Segment::Playlist(PlaylistSegment {
        attributes: SegmentAttributes { playlist_id: id },
        metadata: DefaultMetadata { name: name.to_string() },
        stats: PlaylistSegmentStats {
            tier: PlaylistSegmentStatsStatWithMetadata { metadata: DefaultMetadata { name: tier.to_string() } },
            win_streak: stat("Streak", Some("3")),
            rating: stat("Rating", Some("1,100")),
            peak_rating: stat("Peak", peak),
        },
    })
}

fn peak_segment(id: i8, rank: &str, rating: i16) -> Segment {
    Segment::PeakRating(PeakRatingSegment {
        attributes: SegmentAttributes { playlist_id: id },
        stats: PeakRatingStats {
            peak_rating: PeakRatingStat {
                metadata: PeakRatingMetadata { name: rank.to_string(), season: format!("Season {id}") },
                rating,
            },
        },
    })
}

#[test]
fn tracker_view_rows() {
    let profile = ProfileData {
        platform_info: PlatformInfo { platform_user_handle: "kali".to_string() },
        segments: vec![
            playlist_segment(10, "Ranked Duel 1v1", "Champion I", Some("1200")),
            Segment::Overview(OverviewSegment {
                stats: OverviewSegmentStats {
                    wins: stat("Wins", Some("500")),
                    goals: stat("Goals", None),
                    season_reward_level: OverviewSegmentStatsStatWithMetadata {
                        display_name: "Reward".to_string(),
                        metadata: RankIconMetadata { rank_name: "Gold".to_string() },
                    },
                },
            }),
            peak_segment(12, "Platinum III", 880),
            peak_segment(11, "Unranked", 950),
            peak_segment(11, "Diamond I", 1000),
            playlist_segment(11, "Ranked Doubles 2v2", "Unknown", None),
            playlist_segment(12, "Ranked Standard 3v3", "Gold I", Some("n/a")),
            playlist_segment(13, "Hoops", "Gold I", None),
            peak_segment(13, "Not a rank", 500),
        ],
    };
    let key = PlayerKey { platform: Platform::Epic, platform_id: "kali".to_string() };
    let w = TrackerWidget::new(&profile, &key);
    let overview = w.overview().unwrap();
    assert_eq!(overview.stats.wins.value(), "500");
    assert_eq!(overview.stats.goals.value(), "-");
    let rows = w.playlist_rows();
    assert_eq!(rows.len(), 4);
    assert_eq!(rows[0].name, "Ranked Duel 1v1");
    assert_eq!(rows[0].rank, Some(Rank::Champ1));
    assert_eq!(rows[0].streak, "3");
    assert_eq!(rows[0].rating, "1,100");
    assert_eq!(rows[0].peak, Some((1200, Rank::GC1)));
    assert_eq!(rows[0].peak_season, None);
    assert_eq!(rows[1].rank, None);
    assert_eq!(rows[1].peak, Some((950, Rank::estimate_from_mmr(950))));
    assert_eq!(rows[1].peak_season.as_deref(), Some("Season 11"));
    assert_eq!(rows[2].peak, Some((880, Rank::Plat3)));
    assert_eq!(rows[2].peak_season.as_deref(), Some("Season 12"));
    assert_eq!(rows[3].peak, None);
    assert_eq!(rows[3].peak_season, None);
}

#[test]
fn profile_requests_stop_at_a_bot() {
    let (pages, rest) = plan_pages(vec![
        PlayerInfoServiceCommand::Open(Platform::Xbox, "x".to_string()),
        PlayerInfoServiceCommand::Open(Platform::Bot, "b".to_string()),
        PlayerInfoServiceCommand::Open(Platform::Epic, "e".to_string()),
    ]);
    assert_eq!(pages, vec!["https://tracker.gg/rocket-league/profile/xbl/x/overview".to_string()]);
    assert_eq!(rest.len(), 1);
    let (pages, rest) = plan_pages(vec![]);
    assert!(pages.is_empty() && rest.is_empty());
}

#[test]
fn game_open_follows_connection_events() {
    let ev = |e: RLEvent| Rc::new(e);
    assert!(rl_open_after(false, &vec![ev(RLEvent::Connected), ev(RLEvent::MatchStart)]));
    assert!(!rl_open_after(true, &vec![ev(RLEvent::Connected), ev(RLEvent::Disconnected)]));
    assert!(rl_open_after(true, &vec![]));
}

#[test]
fn archive_entries() {
    assert_eq!(archive_entry_role("info.json", Some("json")), EntryRole::Info);
    assert_eq!(archive_entry_role("Map.UPK", Some("UPK")), EntryRole::Package);
    assert_eq!(archive_entry_role("map.udk", Some("udk")), EntryRole::Package);
    assert_eq!(archive_entry_role("preview.jpg", Some("jpg")), EntryRole::Preview);
    assert_eq!(archive_entry_role("readme.txt", Some("txt")), EntryRole::Other);
    assert_eq!(archive_entry_role("LICENSE", None), EntryRole::Other);
    assert!(eq_ignore_ascii_case("UdK", "udk"));
    assert!(!eq_ignore_ascii_case("udk", "upk"));
    assert!(!eq_ignore_ascii_case("É", "é"));
}

fn player(name: &str, id: &str, team: Team) -> PlayerData {
    PlayerData {
        name: name.to_string(),
        platform: Platform::Epic,
        platform_id: id.to_string(),
        team,
        stats: PlayerStats { score: 10, goals: 1, assists: 0, saves: 2, shots: 3, touches: 4 },
    }
}

fn skill(mmr: i16) -> Arc<PlayerSkillInformation> {
    Arc::new(PlayerSkillInformation {
        playlists: vec![PlaylistSkillInformation {
            playlist: Playlist::Ones,
            rank: Rank::Ssl,
            div: Division::NoDivision,
            mmr,
            rank_is_estimate: false,
        }],
    })
}

#[test]
fn lobby_sums_that_overflow_are_caught() {
    let local = Some("Epic|1|0".to_string());
    let mut m = MatchInfo::new(
        MatchUpdate {
            players: vec![player("a", "Epic|1|0", Team::Blue), player("b", "Epic|2|0", Team::Orange)],
            score: TeamScores { blue: 0, orange: 0 },
            arena: "Utopia",
            playlist: Playlist::Ones,
            state: MatchState::Game,
        },
        &local,
    );
    m.players[0].skill = Some(skill(20000));
    m.players[1].skill = Some(skill(20000));
    let mt = MatchType::Session(m.clone());
    assert!(!lobby_sums_fit(&mt));
    m.players[1].skill = Some(skill(-5000));
    let mt = MatchType::Session(m);
    assert!(lobby_sums_fit(&mt));
    let r = MatchRenderer::new(&mt, BuddyStatsOption::No);
    assert_eq!(r.lobby_mmr(), (7500, Some(20000)));
    assert_eq!(r.stats_for(&"Epic|2|0".to_string()).unwrap().saves, 2);
    assert!(r.stats_for(&"Epic|9|0".to_string()).is_none());
}
