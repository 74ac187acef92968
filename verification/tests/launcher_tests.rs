use dayz_launcher::launcher::{plan_direct_launch, prepare_direct_launch, steam_launch_url, LaunchError, LaunchResult};
use dayz_launcher::profile::PlayerProfile;
use dayz_launcher::server::{DayZServer, ServerType};
use dayz_launcher::updater::{compare_versions, installed_version, published_version, VersionCheck};

fn server() -> DayZServer {
    DayZServer {
        name: "Cherno".to_string(),
        ip: "1.2.3.4:2302".to_string(),
        port: 2302,
        players: 1,
        max_players: 60,
        ping_ms: Some(40),
        server_type: ServerType::Official,
        country: "PL".to_string(),
        is_hardcore: false,
        has_battleye: true,
        mods: vec![],
        mods_installed: false,
    }
}

#[test]
fn steam_url_joins_server() {
    assert_eq!(
        steam_launch_url(&server()),
        "steam://run/221100//-connect=1.2.3.4:2302 -port=2302/"
    );
}

#[test]
fn direct_launch_needs_executable() {
    let p = PlayerProfile::with_game_path("/nowhere/DayZ".to_string());
    match plan_direct_launch(&server(), &p, "/nowhere/DayZ/DayZ_x64.exe".to_string(), false) {
        Err(e) => {
            assert_eq!(
                e.message(),
                "Nie znaleziono DayZ_x64.exe w: /nowhere/DayZ\nSprawdź ścieżkę w ustawieniach."
            );
        }
        Ok(_) => panic!("expected an error"),
    }
    match prepare_direct_launch(&server(), &p) {
        Err(LaunchError::GameNotFound { game_path }) => assert_eq!(game_path, "/nowhere/DayZ"),
        Ok(_) => panic!("expected an error"),
    }
}

#[test]
fn direct_launch_plan() {
    let p = PlayerProfile::with_game_path("/games/DayZ".to_string());
    let plan = plan_direct_launch(&server(), &p, "/games/DayZ/DayZ_x64.exe".to_string(), true).unwrap();
    assert_eq!(plan.exe, "/games/DayZ/DayZ_x64.exe");
    assert_eq!(plan.working_dir, "/games/DayZ");
    assert_eq!(plan.args, vec!["-connect=1.2.3.4:2302", "-port=2302", "-language=Polish"]);
}

#[test]
fn launch_result_variants() {
    let r = LaunchResult::Error("x".to_string());
    assert!(matches!(r, LaunchResult::Error(ref m) if m == "x"));
    assert!(matches!(LaunchResult::Success, LaunchResult::Success));
    assert!(matches!(LaunchResult::SuccessAndClose, LaunchResult::SuccessAndClose));
}

#[test]
fn versions() {
    assert_eq!(installed_version(), "1.25.157800");
    assert_eq!(published_version(), "1.25.157849");
    assert_eq!(compare_versions("1.25.157800", "1.25.157849"), VersionCheck::UpdateAvailable);
    assert_eq!(compare_versions("1.25.157849", "1.25.157849"), VersionCheck::UpToDate);
}
