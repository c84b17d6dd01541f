use std::io::Write;
use rlbuddy::map_loader::downloader::{
    parse_bakkesplugins_response, parse_u16, search_parse, MapDownloaderWidget,
};
use rlbuddy::map_loader::archive::{import_archive_bytes, take_archive_entry, ArchiveEntry, ImportError, ImportedMap};
use rlbuddy::map_loader::service::{
    archive_map_name, CustomMapId, CustomMapInfo, MapLoaderCommand, MapLoaderServiceSavedata, MapLoaderServiceState, MapLoaderTask,
};
use rlbuddy::my_stats::{choosable_playlists, streak_header, totals, win_loss_text};
use rlbuddy::player_info::service::{profile_page_url, PlayerInfoService, PlayerInfoServiceCommand};
use rlbuddy::player_info::trn::{
    parse_i16, profile_result, rank_from_name, ErrorResponseData, PlatformInfo, PlayerKey, ProfileData,
    ProfileResponse, SegmentStat, TRNError,
};
use rlbuddy::game::playlist::Playlist;
use rlbuddy::game::rank::Rank;
use rlbuddy::matches::match_info::{MatchInfo, MatchOverInfo};
use rlbuddy::matches::service::MatchType;
use rlbuddy::rl::match_state::MatchState;
use rlbuddy::rocket_league::{Team, TeamScores};
use rlbuddy::stats_api::{MatchUpdate, PlayerStats};
use std::time::SystemTime;
use rlbuddy::rl_stats_api::Platform;
use rlbuddy::stats_api::PlayerData;

#[test]
fn u16_reading() {
    assert_eq!(parse_u16("123"), Some(123));
    assert_eq!(parse_u16("+7"), Some(7));
    assert_eq!(parse_u16("65535"), Some(65535));
    assert_eq!(parse_u16("65536"), None);
    assert_eq!(parse_u16(""), None);
    assert_eq!(parse_u16("+"), None);
    assert_eq!(parse_u16("-1"), None);
    assert_eq!(parse_u16("12a"), None);
    assert_eq!(parse_u16("0042"), Some(42));
    for n in [0u16, 9, 10, 4321, 65535] {
        assert_eq!(parse_u16(&n.to_string()), Some(n));
    }
}

#[test]
fn i16_reading() {
    assert_eq!(parse_i16("-32768"), Some(i16::MIN));
    assert_eq!(parse_i16("32767"), Some(32767));
    assert_eq!(parse_i16("32768"), None);
    assert_eq!(parse_i16("-"), None);
    assert_eq!(parse_i16("1,234"), None);
}

#[test]
fn records_cut_between_markers() {
    let rules = vec![("<a>", "</a>"), ("<b>", "</b>")];
    let r = search_parse("x<a>1</a><b>one</b> <a>2</a><b>two</b><a>3</a>", &rules);
    assert_eq!(r, vec![vec!["1", "one"], vec!["2", "two"]]);
    assert!(search_parse("nothing here", &rules).is_empty());
}

fn card(id: &str, title: &str, author: &str, desc: &str) -> String {
    format!(
        "<a href=\"/maps/{id}\"><img style=\"position:absolute;height:100%;width:100%;left:0;top:0;right:0;bottom:0;color:transparent\" src=\"https://img/{id}.jpg\"><h2 class=\"mb-3 line-clamp-2 text-lg font-semibold text-gray-900 transition group-hover:text-blue-600\">{title}</h2><span class=\"truncate text-sm font-medium\" title=\"{author}\">{author}</span><p class=\"mb-3 line-clamp-3 text-sm leading-relaxed text-gray-600\">{desc}</p></a>"
    )
}

#[test]
fn search_page_results() {
    let page = format!(
        "<html>{}{}{}</html>",
        card("12", "Rings", "alice", "Fly through rings\nsecond line"),
        card("abc", "Broken", "bob", "no id"),
        card("300", "Dribble", "carol", "Practice")
    );
    let maps = parse_bakkesplugins_response(&page);
    assert_eq!(maps.len(), 2);
    assert_eq!(maps[0].id, 12);
    assert_eq!(maps[0].title, "Rings");
    assert_eq!(maps[0].author, "alice");
    assert_eq!(maps[0].description, "Fly through rings");
    assert_eq!(maps[0].image_url, "https://img/12.jpg");
    assert_eq!(maps[1].id, 300);
}

#[test]
fn downloader_search_flow() {
    let mut w = MapDownloaderWidget::new();
    assert_eq!(w.results.as_ref().map(|r| r.len()), Some(0));
    w.search_text = "speed flip".to_string();
    assert_eq!(w.search(), "https://bakkesplugins.com/maps?search=speed%20flip");
    assert!(w.results.is_none());
    w.finish_search(&card("5", "T", "A", "D"));
    assert_eq!(w.results.as_ref().unwrap().len(), 1);
    w.hide_results();
    assert!(w.results.as_ref().unwrap().is_empty());
    assert!(w.can_download());
}

fn map(name: &str) -> CustomMapInfo {
    CustomMapInfo::new(name.to_string(), Some("me".to_string()), None)
}

#[test]
fn archive_paths_give_map_names() {
    assert_eq!(archive_map_name("/maps/Speed.Jump.zip").as_deref(), Some("Speed"));
    assert_eq!(archive_map_name("dl/Obstacle.zip/").as_deref(), Some("Obstacle"));
    assert_eq!(archive_map_name("dl/Obstacle.zip/.").as_deref(), Some("Obstacle"));
    assert_eq!(archive_map_name(".hidden.zip").as_deref(), Some(".hidden"));
    assert_eq!(archive_map_name("a.ZIP"), None);
    assert_eq!(archive_map_name("dl/.zip"), None);
    assert_eq!(archive_map_name("map.tar"), None);
    assert_eq!(archive_map_name("x/.."), None);
    assert_eq!(archive_map_name("/"), None);
    let mut state = MapLoaderServiceState::from_savedata(MapLoaderServiceSavedata::default(), false);
    match state.plan(MapLoaderCommand::Import("/tmp/Rings.v2.zip".to_string())) {
        MapLoaderTask::ImportFile { path, name } => {
            assert_eq!(path, "/tmp/Rings.v2.zip");
            assert_eq!(name, "Rings");
        }
        _ => panic!("expected an import"),
    }
    assert!(matches!(state.plan(MapLoaderCommand::Import("/tmp/Rings.rar".to_string())), MapLoaderTask::Nothing));
}

#[test]
fn map_loader_commands() {
    let mut saved = MapLoaderServiceSavedata::default();
    saved.maps.push(map("a"));
    saved.maps.push(map("b"));
    saved.maps.push(map("a"));
    saved.underpass_path = Some("C:/RL/Labs_Underpass_P.upk".to_string());
    let mut state = MapLoaderServiceState::from_savedata(saved, false);
    assert!(state.underpass_path.is_none());

    assert!(matches!(state.plan(MapLoaderCommand::Load(CustomMapId("a".to_string()))), MapLoaderTask::Nothing));
    assert_eq!(state.current_error.as_deref(), Some("no valid underpass path"));
    assert!(matches!(state.plan(MapLoaderCommand::Unload), MapLoaderTask::Nothing));
    assert_eq!(state.current_error.as_deref(), Some("no underpass path"));
    state.plan(MapLoaderCommand::ClearError);
    assert!(state.current_error.is_none());

    state.plan(MapLoaderCommand::UpdateUnderpassPath("U.upk".to_string()));
    match state.plan(MapLoaderCommand::Load(CustomMapId("b".to_string()))) {
        MapLoaderTask::Load { id, underpass_path } => {
            assert_eq!(id.as_str(), "b");
            assert_eq!(underpass_path, "U.upk");
            state.loaded(id);
        }
        _ => panic!("expected a load"),
    }
    assert_eq!(state.loaded_map.as_ref().unwrap().as_str(), "b");
    state.unloaded();
    assert!(state.loaded_map.is_none());

    state.deleted(&CustomMapId("a".to_string()));
    assert_eq!(state.maps.len(), 1);
    assert_eq!(state.maps[0].id.as_str(), "b");
    state.imported(map("c"));
    let saved = state.save();
    assert_eq!(saved.maps.len(), 2);
    assert_eq!(saved.underpass_path.as_deref(), Some("U.upk"));
    state.fail("disk full".to_string());
    assert_eq!(state.current_error.as_deref(), Some("disk full"));
}

#[test]
fn tracker_keys_and_errors() {
    let steam = PlayerData {
        name: "kali".to_string(),
        platform: Platform::Steam,
        platform_id: "765".to_string(),
        team: Team::Blue,
        stats: PlayerStats { score: 0, goals: 0, assists: 0, saves: 0, shots: 0, touches: 0 },
    };
    let key = PlayerKey::from(steam.clone());
    assert_eq!(key.platform_id, "765");
    assert_eq!(key.to_api_url(), "https://api.tracker.gg/api/v2/rocket-league/standard/profile/steam/765");
    let mut epic = steam;
    epic.platform = Platform::Epic;
    let key = PlayerKey::from(epic);
    assert_eq!(key.platform_id, "kali");
    assert_eq!(
        PlayerKey { platform: Platform::Xbox, platform_id: "a b".to_string() }.to_api_url(),
        "https://api.tracker.gg/api/v2/rocket-league/standard/profile/xbl/a%20b"
    );
    assert!(matches!(
        TRNError::from(ErrorResponseData { code: "CollectorResultStatus::NotFound".to_string() }),
        TRNError::NotFound
    ));
    match TRNError::from(ErrorResponseData { code: "RateLimited".to_string() }) {
        TRNError::Other(c) => assert_eq!(c, "RateLimited"),
        _ => panic!("expected another error"),
    }
    let r = profile_result(ProfileResponse::Errors(vec![
        ErrorResponseData { code: "CollectorResultStatus::NotFound".to_string() },
        ErrorResponseData { code: "x".to_string() },
    ]));
    assert!(matches!(r, Err(TRNError::NotFound)));
    let r = profile_result(ProfileResponse::Data(ProfileData {
        platform_info: PlatformInfo { platform_user_handle: "h".to_string() },
        segments: vec![],
    }));
    assert!(r.is_ok());
    assert_eq!(SegmentStat { display_name: "Wins".to_string(), display_value: None }.value(), "-");
    assert_eq!(rank_from_name("Diamond III"), Some(Rank::Diamond3));
    assert_eq!(rank_from_name("Diamond IV"), None);
}

#[test]
fn profile_pages() {
    assert_eq!(
        profile_page_url(Platform::Switch, "Name #1"),
        "https://tracker.gg/rocket-league/profile/switch/Name%20%231/overview"
    );
    let mut service = PlayerInfoService::default();
    let tx = service.sender();
    tx.send(PlayerInfoServiceCommand::Open(Platform::Epic, "a".to_string()));
    tx.send(PlayerInfoServiceCommand::Open(Platform::Bot, "bot".to_string()));
    tx.send(PlayerInfoServiceCommand::Open(Platform::Steam, "7".to_string()));
    let pages = service.update();
    assert_eq!(pages, vec!["https://tracker.gg/rocket-league/profile/epic/a/overview".to_string()]);
    let pages = service.update();
    assert_eq!(pages, vec!["https://tracker.gg/rocket-league/profile/steam/7/overview".to_string()]);
}

#[test]
fn session_statistics() {
    let me = PlayerData {
        name: "me".to_string(),
        platform: Platform::Epic,
        platform_id: "Epic|1|0".to_string(),
        team: Team::Blue,
        stats: PlayerStats { score: 300, goals: 2, assists: 1, saves: 3, shots: 5, touches: 20 },
    };
    let make = |winner: Team| {
        let mut m = MatchInfo::new(
            MatchUpdate {
                players: vec![me.clone()],
                score: TeamScores { blue: 1, orange: 0 },
                arena: "Wasteland",
                playlist: Playlist::Ones,
                state: MatchState::Game,
            },
            &Some("Epic|1|0".to_string()),
        );
        m.finish = Some(MatchOverInfo { timestamp: SystemTime::now(), winner: Some(winner) });
        MatchType::Session(m)
    };
    let history = vec![
        make(Team::Blue),
        make(Team::Orange),
        make(Team::Orange),
        make(Team::Orange),
        make(Team::Orange),
        make(Team::Orange),
    ];
    assert_eq!(
        streak_header(&history),
        vec!["6 matches".to_string(), "❄️ 5".to_string(), "<!> Consider taking a break".to_string()]
    );
    assert_eq!(win_loss_text(&history), "1/5 (16%)");
    let t = totals(&history);
    assert_eq!((t.goals, t.assists, t.saves, t.shots), (12, 6, 18, 30));
    assert_eq!(choosable_playlists(&history), vec![Playlist::Ones]);
    assert_eq!(streak_header(&history[..1].to_vec()), vec!["1 matches".to_string(), "🔥 1".to_string()]);
    assert_eq!(win_loss_text(&vec![]), "-");
    assert_eq!(streak_header(&vec![]), vec!["0 matches".to_string()]);
}

fn zip_of(files: &[(&str, &[u8])]) -> Vec<u8> {
    let mut w = zip::ZipWriter::new(std::io::Cursor::new(Vec::new()));
    let options = zip::write::SimpleFileOptions::default().compression_method(zip::CompressionMethod::Stored);
    for (name, data) in files {
        w.start_file(*name, options).unwrap();
        w.write_all(data).unwrap();
    }
    w.finish().unwrap().into_inner()
}

#[test]
fn archive_import_gathers_the_map() {
    let bytes = zip_of(&[
        ("Track/old.upk", &b"first"[..]),
        ("Track/info.json", &br#"{"author":"Ann","desc":"Loops"}"#[..]),
        ("Track/preview.jpg", &b"JPG"[..]),
        ("Track/readme.txt", &b"hello"[..]),
        ("Track/Track.UDK", &b"second"[..]),
    ]);
    let map = import_archive_bytes(CustomMapInfo::new("Track".to_string(), None, None), bytes, b"DEF".to_vec()).unwrap();
    assert_eq!(map.info.id.as_str(), "Track");
    assert_eq!(map.info.author.as_deref(), Some("Ann"));
    assert_eq!(map.info.description.as_deref(), Some("Loops"));
    assert_eq!(map.package, b"second".to_vec());
    assert_eq!(map.preview, b"DEFJPG".to_vec());
}

#[test]
fn archive_import_failures() {
    let no_package = zip_of(&[("preview.jpg", &b"JPG"[..])]);
    let e = import_archive_bytes(CustomMapInfo::new("x".to_string(), None, None), no_package, Vec::new()).unwrap_err();
    assert!(matches!(e, ImportError::NoPackage));
    assert_eq!(e.message(), "failed to load package data");
    let bad_info = zip_of(&[("info.json", b"{\"author\": 3}"), ("m.upk", &b"pkg"[..])]);
    let e = import_archive_bytes(CustomMapInfo::new("x".to_string(), None, None), bad_info, Vec::new()).unwrap_err();
    assert!(matches!(e, ImportError::InfoJson(_)));
    let e = import_archive_bytes(CustomMapInfo::new("x".to_string(), None, None), b"not a zip".to_vec(), Vec::new())
        .unwrap_err();
    assert!(matches!(e, ImportError::Archive(_)));
}

#[test]
fn archive_entries_step_by_step() {
    let mut map = ImportedMap { info: CustomMapInfo::new("m".to_string(), None, None), package: Vec::new(), preview: b"A".to_vec() };
    let entry = |name: &str, ext: Option<&str>, data: &[u8]| ArchiveEntry {
        file_name: name.to_string(),
        extension: ext.map(str::to_string),
        data: data.to_vec(),
    };
    assert!(take_archive_entry(&mut map, None).is_ok());
    assert!(take_archive_entry(&mut map, Some(entry("preview.jpg", Some("jpg"), b"B"))).is_ok());
    assert!(take_archive_entry(&mut map, Some(entry("x.upk", Some("upk"), b"P"))).is_ok());
    assert!(take_archive_entry(&mut map, Some(entry("notes", None, b"N"))).is_ok());
    assert_eq!(map.preview, b"AB".to_vec());
    assert_eq!(map.package, b"P".to_vec());
    assert!(take_archive_entry(&mut map, Some(entry("info.json", Some("json"), b"[]"))).is_err());
}
