use dayz_launcher::theme::DayZTheme;
use egui::Color32;
use dayz_launcher::profile::{
    GameLanguage, GameSettings, LauncherSettings, PlayerProfile, ThemeChoice,
};

fn profile() -> PlayerProfile {
    PlayerProfile::with_game_path("/games/DayZ".to_string())
}

#[test]
fn languages_in_order_with_labels_and_codes() {
    assert_eq!(
        GameLanguage::all(),
        &[GameLanguage::Polish, GameLanguage::English, GameLanguage::German, GameLanguage::Czech]
    );
    let labels: Vec<&str> = GameLanguage::all().iter().map(|l| l.label()).collect();
    assert_eq!(labels, vec!["Polski", "English", "Deutsch", "Čeština"]);
    let codes: Vec<&str> = GameLanguage::all().iter().map(|l| l.launch_code()).collect();
    assert_eq!(codes, vec!["Polish", "English", "German", "Czech"]);
}

#[test]
fn default_settings() {
    let g = GameSettings::default();
    assert_eq!(g.cpu_count, 0);
    assert!(!g.file_patching && !g.show_script_errors);
    assert!(g.extra_launch_params.is_empty());
    assert_eq!(g.language, GameLanguage::Polish);
    let l = LauncherSettings::default();
    assert!(!l.close_on_launch && l.auto_check_updates && !l.minimize_to_tray);
    assert_eq!(l.theme, ThemeChoice::Dark);
}

#[test]
fn default_profile() {
    let p = PlayerProfile::default();
    assert_eq!(p.display_name, "Ocalały");
    assert!(p.game_path.ends_with("DayZ"));
    assert_eq!(p.last_server, None);
    assert!(p.favorite_servers.is_empty());
    assert_eq!(p.total_launches, 0);
    assert!(p.launcher_settings.auto_check_updates);
    let q = profile();
    assert_eq!(q.game_path, "/games/DayZ");
    assert_eq!(q.display_name, "Ocalały");
}

#[test]
fn default_game_path_under_home() {
    assert_eq!(
        dayz_launcher::profile::default_game_path_from(Some("/home/ann".to_string())),
        "/home/ann/.steam/steam/steamapps/common/DayZ"
    );
    assert_eq!(
        dayz_launcher::profile::default_game_path_from(Some("/home/ann/".to_string())),
        "/home/ann/.steam/steam/steamapps/common/DayZ"
    );
    assert_eq!(dayz_launcher::profile::default_game_path_from(None), "./DayZ");
}

#[test]
fn config_path_names_the_profile_file() {
    let p = PlayerProfile::config_path();
    assert!(p.ends_with("dayz-launcher/profile.json"));
}

#[test]
fn game_executable_path() {
    assert_eq!(profile().game_exe_path(), "/games/DayZ/DayZ_x64.exe");
    assert!(!profile().is_game_path_valid());
}

#[test]
fn toggle_favorite_adds_then_removes() {
    let mut p = profile();
    assert!(!p.is_favorite("1.2.3.4:2302"));
    p.toggle_favorite("1.2.3.4:2302");
    assert!(p.is_favorite("1.2.3.4:2302"));
    p.toggle_favorite("5.6.7.8:2302");
    assert_eq!(p.favorite_servers, vec!["1.2.3.4:2302".to_string(), "5.6.7.8:2302".to_string()]);
    p.toggle_favorite("1.2.3.4:2302");
    assert!(!p.is_favorite("1.2.3.4:2302"));
    assert_eq!(p.favorite_servers, vec!["5.6.7.8:2302".to_string()]);
}

#[test]
fn toggle_twice_restores_favorites() {
    let mut p = profile();
    p.favorite_servers = vec!["a".to_string(), "b".to_string()];
    p.toggle_favorite("c");
    p.toggle_favorite("c");
    assert_eq!(p.favorite_servers, vec!["a".to_string(), "b".to_string()]);
    p.toggle_favorite("a");
    p.toggle_favorite("a");
    assert_eq!(p.favorite_servers, vec!["b".to_string(), "a".to_string()]);
}

#[test]
fn toggle_removes_only_first_duplicate() {
    let mut p = profile();
    p.favorite_servers = vec!["a".to_string(), "b".to_string(), "a".to_string()];
    p.toggle_favorite("a");
    assert_eq!(p.favorite_servers, vec!["b".to_string(), "a".to_string()]);
    assert!(p.is_favorite("a"));
}

#[test]
fn launch_args_minimal() {
    let p = profile();
    assert_eq!(
        p.build_launch_args("1.2.3.4:2302", 2302),
        vec!["-connect=1.2.3.4:2302", "-port=2302", "-language=Polish"]
    );
}

#[test]
fn launch_args_full() {
    let mut p = profile();
    p.game_settings.file_patching = true;
    p.game_settings.show_script_errors = true;
    p.game_settings.cpu_count = 8;
    p.game_settings.language = GameLanguage::Czech;
    p.game_settings.extra_launch_params = "  -noBenchmark\t-skipIntro \n -world=empty ".to_string();
    assert_eq!(
        p.build_launch_args("5.6.7.8:2402", 0),
        vec![
            "-connect=5.6.7.8:2402",
            "-port=0",
            "-language=Czech",
            "-filePatching",
            "-showScriptErrors",
            "-cpuCount=8",
            "-noBenchmark",
            "-skipIntro",
            "-world=empty",
        ]
    );
}

#[test]
fn launch_args_whitespace_only_extras_add_nothing() {
    let mut p = profile();
    p.game_settings.cpu_count = 255;
    p.game_settings.extra_launch_params = " \u{3000}\u{a0} ".to_string();
    assert_eq!(
        p.build_launch_args("h:1", 65535),
        vec!["-connect=h:1", "-port=65535", "-language=Polish", "-cpuCount=255"]
    );
}

#[test]
fn theme_palette() {
    assert_eq!(DayZTheme::bg_primary(), Color32::from_rgb(18, 18, 16));
    assert_eq!(DayZTheme::accent(), Color32::from_rgb(192, 58, 0));
    assert_eq!(DayZTheme::red(), DayZTheme::accent());
    assert_eq!(DayZTheme::border(), Color32::from_rgb(60, 40, 20));
    assert_eq!(DayZTheme::text_white(), Color32::from_rgb(240, 235, 225));
}

#[test]
fn config_path_under_a_directory() {
    assert_eq!(
        PlayerProfile::config_path_in(Some("/home/ann/.config".to_string())),
        "/home/ann/.config/dayz-launcher/profile.json"
    );
    assert_eq!(PlayerProfile::config_path_in(None), "./dayz-launcher/profile.json");
    assert!(dayz_launcher::profile::default_game_path().ends_with("DayZ"));
    assert_eq!(PlayerProfile::config_path_in(Some("".to_string())), "dayz-launcher/profile.json");
}

#[test]
fn windows_game_path_candidates() {
    assert_eq!(
        dayz_launcher::profile::windows_game_path_from(&vec![false, true, true]),
        r"C:\Program Files\Steam\steamapps\common\DayZ"
    );
    assert_eq!(
        dayz_launcher::profile::windows_game_path_from(&vec![false, false, true]),
        r"D:\Steam\steamapps\common\DayZ"
    );
    assert_eq!(
        dayz_launcher::profile::windows_game_path_from(&vec![true, true, true]),
        r"C:\Program Files (x86)\Steam\steamapps\common\DayZ"
    );
    assert_eq!(
        dayz_launcher::profile::windows_game_path_from(&vec![false, false, false]),
        r"C:\Program Files (x86)\Steam\steamapps\common\DayZ"
    );
    let w = dayz_launcher::profile::windows_default_game_path();
    assert!(w.ends_with(r"\steamapps\common\DayZ"));
}

#[test]
fn steam_dir_under_home() {
    assert_eq!(
        dayz_launcher::profile::steam_game_dir("/root"),
        "/root/.steam/steam/steamapps/common/DayZ"
    );
    assert_eq!(dayz_launcher::profile::steam_game_dir(""), ".steam/steam/steamapps/common/DayZ");
}
