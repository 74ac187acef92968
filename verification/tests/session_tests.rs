use dayz_launcher::profile::PlayerProfile;
use dayz_launcher::server::{DayZServer, ServerType};
use dayz_launcher::session::{
    mods_label, ping_label, players_label, search_due, shown_count_label, LauncherState, SearchAction, Tab,
};

fn server(name: &str, ip: &str) -> DayZServer {
    DayZServer {
        name: name.to_string(),
        ip: ip.to_string(),
        port: 2302,
        players: 12,
        max_players: 60,
        ping_ms: None,
        server_type: ServerType::Community,
        country: "PL".to_string(),
        is_hardcore: false,
        has_battleye: false,
        mods: vec![],
        mods_installed: false,
    }
}

fn state() -> LauncherState {
    LauncherState::new(PlayerProfile::with_game_path("/games/DayZ".to_string()))
}

#[test]
fn initial_state() {
    let s = state();
    assert_eq!(s.status_message, "Pobieranie listy serwerów...");
    assert_eq!(s.active_tab, Tab::Servers);
    assert!(s.servers.is_empty());
    assert_eq!(s.selected_server, None);
    assert!(!s.servers_loading && !s.pinging);
    assert!(s.filters.search_query.is_empty() && s.filters.map_filter.is_empty());
    assert!(!s.filters.hide_full && !s.filters.only_compatible_mods);
    assert_eq!(s.filters.max_ping, None);
    assert_eq!(s.filters.server_type, None);
    assert!(s.last_fetched_query.is_empty());
}

#[test]
fn search_rests_half_a_second() {
    assert!(!search_due(0));
    assert!(!search_due(499));
    assert!(search_due(500));
    assert!(search_due(10_000));
}

#[test]
fn fetch_messages() {
    let mut s = state();
    assert_eq!(s.begin_fetch(), "");
    assert_eq!(s.status_message, "⟳ Pobieranie listy serwerów z BattleMetrics...");
    assert!(s.servers_loading);
    s.filters.search_query = "cherno".to_string();
    assert_eq!(s.begin_fetch(), "cherno");
    assert_eq!(s.last_fetched_query, "cherno");
    assert_eq!(s.status_message, "⟳ Szukanie serwerów: \"cherno\"...");
}

#[test]
fn fetched_list_replaces_servers_and_starts_pings() {
    let mut s = state();
    s.begin_fetch();
    let start = s.servers_received(Ok(vec![server("A", "1:1"), server("B", "2:2")]));
    assert!(start);
    assert!(!s.servers_loading);
    assert!(s.pinging);
    assert_eq!(s.servers.len(), 2);
    assert_eq!(s.status_message, "✓ Załadowano 2 serwerów. Pomiar pingu...");
    s.pings_received(vec![Some(33), None]);
    assert!(!s.pinging);
    assert_eq!(s.servers[0].ping_ms, Some(33));
    assert_eq!(s.status_message, "✓ Załadowano 2 serwerów — 1 odpowiedziało na ping.");
}

#[test]
fn failed_fetch_keeps_list() {
    let mut s = state();
    s.begin_fetch();
    s.servers_received(Ok(vec![server("A", "1:1")]));
    s.begin_fetch();
    let start = s.servers_received(Err("timeout".to_string()));
    assert!(!start);
    assert_eq!(s.servers.len(), 1);
    assert_eq!(s.status_message, "✗ Błąd pobierania serwerów: timeout");
}

#[test]
fn search_edit_actions() {
    let mut s = state();
    assert_eq!(s.search_edited(), SearchAction::FetchNow);
    s.filters.search_query = "x".to_string();
    assert_eq!(s.search_edited(), SearchAction::Debounce);
}

#[test]
fn launch_requires_a_choice() {
    let mut s = state();
    assert_eq!(s.begin_launch(), None);
    assert_eq!(s.status_message, "⚠ Wybierz serwer przed uruchomieniem!");
    assert_eq!(s.profile.total_launches, 0);
}

#[test]
fn launch_records_server_and_count() {
    let mut s = state();
    s.begin_fetch();
    s.servers_received(Ok(vec![server("A", "1:1"), server("B", "2:2")]));
    s.select_server(1);
    assert_eq!(s.status_message, "Wybrano: B | 2:2");
    assert_eq!(s.begin_launch(), Some(1));
    assert_eq!(s.profile.last_server, Some("2:2".to_string()));
    assert_eq!(s.profile.total_launches, 1);
    assert!(!s.launch_finished("B", Ok(())));
    assert_eq!(s.status_message, "✓ Uruchamianie: B");
    s.profile.launcher_settings.close_on_launch = true;
    assert!(s.launch_finished("B", Ok(())));
    assert!(!s.launch_finished("B", Err("no steam".to_string())));
    assert_eq!(s.status_message, "✗ Błąd: no steam");
}

#[test]
fn fetch_clears_choice() {
    let mut s = state();
    s.begin_fetch();
    s.servers_received(Ok(vec![server("A", "1:1")]));
    s.select_server(0);
    s.begin_fetch();
    assert_eq!(s.selected_server, None);
}

#[test]
fn profile_messages() {
    let mut s = state();
    s.profile_saved(Ok(()));
    assert_eq!(s.status_message, "✓ Profil zapisany.");
    s.profile_saved(Err("disk full".to_string()));
    assert_eq!(s.status_message, "✗ Błąd: disk full");
    s.settings_saved(Ok(()));
    assert_eq!(s.status_message, "✓ Ustawienia zapisane.");
    s.settings_saved(Err("disk full".to_string()));
    assert_eq!(s.status_message, "✗ disk full");
    s.folder_open_failed("no explorer");
    assert_eq!(s.status_message, "Błąd: no explorer");
    s.profile.display_name = "Bob".to_string();
    s.reset_profile("/other/DayZ".to_string());
    assert_eq!(s.profile.game_path, "/other/DayZ");
    assert_eq!(s.profile.display_name, "Ocalały");
    assert_eq!(s.status_message, "Profil przywrócony do domyślnych.");
}

#[test]
fn row_labels() {
    assert_eq!(ping_label(Some(42)), "42 ms");
    assert_eq!(ping_label(None), "—");
    let mut s = server("A", "1:1");
    assert_eq!(mods_label(&s), "Brak");
    s.mods = vec!["CF".to_string(), "VPP".to_string()];
    assert_eq!(mods_label(&s), "2");
    assert_eq!(players_label(&s), "12/60");
    assert_eq!(shown_count_label(3, 100), "Wyświetlono 3 z 100 serwerów");
}

#[test]
fn visible_rows_follow_filters() {
    let mut s = state();
    s.begin_fetch();
    s.servers_received(Ok(vec![server("Alpha", "1:1"), server("Beta", "2:2")]));
    assert_eq!(s.visible_servers(), vec![0, 1]);
    s.filters.search_query = "bet".to_string();
    assert_eq!(s.visible_servers(), vec![1]);
}
