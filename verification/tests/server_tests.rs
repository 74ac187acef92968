use dayz_launcher::json::JsonValue;
use dayz_launcher::server::{body_excerpt, servers_url_with_flags, servers_from_body, FetchError, 
    apply_pings, filtered_indices, host_of, servers_from_response, servers_url_for, DayZServer,
    ResponseError, ServerFilters, ServerType,
};

fn server(name: &str, ip: &str, country: &str) -> DayZServer {
    DayZServer {
        name: name.to_string(),
        ip: ip.to_string(),
        port: 2302,
        players: 10,
        max_players: 60,
        ping_ms: None,
        server_type: ServerType::Community,
        country: country.to_string(),
        is_hardcore: false,
        has_battleye: true,
        mods: vec![],
        mods_installed: false,
    }
}

fn text(s: &str) -> JsonValue {
    JsonValue::Text(s.to_string())
}

fn obj(members: Vec<(&str, JsonValue)>) -> JsonValue {
    JsonValue::Object(members.into_iter().map(|(k, v)| (k.to_string(), v)).collect())
}

#[test]
fn server_type_labels() {
    assert_eq!(ServerType::Official.label(), "Oficjalny");
    assert_eq!(ServerType::Community.label(), "Community");
    assert_eq!(ServerType::Modded.label(), "Modded");
}

#[test]
fn default_filters_show_every_server() {
    let f = ServerFilters::default();
    assert!(server("A", "1.2.3.4:2302", "PL").matches_filters(&f));
    let mut full = server("B", "1.2.3.4:2302", "DE");
    full.players = 60;
    full.ping_ms = Some(900);
    assert!(full.matches_filters(&f));
}

#[test]
fn search_ignores_case_of_name_and_country() {
    let mut f = ServerFilters::default();
    f.search_query = "CHERNO".to_string();
    assert!(server("Chernarus Cherno PvP", "1.2.3.4:2302", "Germany").matches_filters(&f));
    assert!(!server("Livonia", "1.2.3.4:2302", "Germany").matches_filters(&f));
    f.search_query = "germ".to_string();
    assert!(server("Livonia", "1.2.3.4:2302", "Germany").matches_filters(&f));
    f.search_query = "5.6.7".to_string();
    assert!(server("Livonia", "5.6.7.8:2302", "Poland").matches_filters(&f));
}

#[test]
fn full_servers_hidden_on_request() {
    let mut f = ServerFilters::default();
    f.hide_full = true;
    let mut s = server("A", "1.2.3.4:2302", "PL");
    assert!(s.matches_filters(&f));
    s.players = 60;
    assert!(!s.matches_filters(&f));
    s.players = 61;
    assert!(!s.matches_filters(&f));
}

#[test]
fn incompatible_mods_hidden_on_request() {
    let mut f = ServerFilters::default();
    f.only_compatible_mods = true;
    let mut s = server("A", "1.2.3.4:2302", "PL");
    assert!(!s.matches_filters(&f));
    s.mods_installed = true;
    assert!(s.matches_filters(&f));
}

#[test]
fn ping_limit_applies_to_known_pings_only() {
    let mut f = ServerFilters::default();
    f.max_ping = Some(60);
    let mut s = server("A", "1.2.3.4:2302", "PL");
    assert!(s.matches_filters(&f));
    s.ping_ms = Some(60);
    assert!(s.matches_filters(&f));
    s.ping_ms = Some(61);
    assert!(!s.matches_filters(&f));
}

#[test]
fn server_kind_and_map_filters() {
    let mut f = ServerFilters::default();
    f.server_type = Some(ServerType::Official);
    let mut s = server("A", "1.2.3.4:2302", "Poland");
    assert!(!s.matches_filters(&f));
    s.server_type = ServerType::Official;
    assert!(s.matches_filters(&f));
    f.server_type = None;
    f.map_filter = "POL".to_string();
    assert!(s.matches_filters(&f));
    f.map_filter = "ger".to_string();
    assert!(!s.matches_filters(&f));
}

#[test]
fn ping_colors() {
    let mut s = server("A", "1.2.3.4:2302", "PL");
    assert_eq!(s.ping_color(), egui::Color32::GRAY);
    s.ping_ms = Some(59);
    assert_eq!(s.ping_color(), egui::Color32::from_rgb(80, 200, 90));
    s.ping_ms = Some(60);
    assert_eq!(s.ping_color(), egui::Color32::from_rgb(220, 180, 50));
    s.ping_ms = Some(119);
    assert_eq!(s.ping_color(), egui::Color32::from_rgb(220, 180, 50));
    s.ping_ms = Some(120);
    assert_eq!(s.ping_color(), egui::Color32::from_rgb(220, 60, 40));
}

const BASE: &str = "https://api.battlemetrics.com/servers?filter[game]=dayz&filter[status]=online&sort=-players&page[size]=100";

#[test]
fn url_without_search() {
    assert_eq!(servers_url_for(""), BASE);
}

#[test]
fn url_with_search_drops_symbols_and_encodes_spaces() {
    assert_eq!(
        servers_url_for("Cherno PvP #1!"),
        format!("{}&filter[search]=Cherno%20PvP%201", BASE)
    );
    assert_eq!(servers_url_for("a_b-c.d"), format!("{}&filter[search]=a_b-c.d", BASE));
    assert_eq!(servers_url_for("żółw"), format!("{}&filter[search]=żółw", BASE));
    assert_eq!(servers_url_for("&?="), format!("{}&filter[search]=", BASE));
}

#[test]
fn host_of_address() {
    assert_eq!(host_of("1.2.3.4:2302"), "1.2.3.4");
    assert_eq!(host_of("example.org"), "example.org");
    assert_eq!(host_of(":2302"), "");
    assert_eq!(host_of("a:b:c"), "a");
}

fn sample_response() -> JsonValue {
    obj(vec![(
        "data",
        JsonValue::Array(vec![
            obj(vec![(
                "attributes",
                obj(vec![
                    ("name", text("Cherno PvP")),
                    ("ip", text("1.2.3.4")),
                    ("port", JsonValue::Number(Some(2302))),
                    ("players", JsonValue::Number(Some(45))),
                    ("maxPlayers", JsonValue::Number(Some(60))),
                    ("country", text("DE")),
                    (
                        "details",
                        obj(vec![
                            ("official", JsonValue::Bool(false)),
                            ("modded", JsonValue::Bool(true)),
                            ("hardcore", JsonValue::Bool(true)),
                            (
                                "mods",
                                JsonValue::Array(vec![
                                    obj(vec![("name", text("CF")), ("id", text("1559212036"))]),
                                    obj(vec![("id", text("1564026768"))]),
                                    obj(vec![("other", JsonValue::Null)]),
                                ]),
                            ),
                        ]),
                    ),
                ]),
            )]),
            obj(vec![("attributes", obj(vec![("ip", text("9.9.9.9"))]))]),
            obj(vec![("id", text("no attributes"))]),
            obj(vec![(
                "attributes",
                obj(vec![
                    ("ip", text("5.6.7.8")),
                    ("port", JsonValue::Number(Some(70000))),
                    ("players", JsonValue::Number(Some(4294967297))),
                    ("battleye", JsonValue::Bool(true)),
                    ("details", obj(vec![("official", JsonValue::Bool(true)), ("modded", JsonValue::Bool(true))])),
                ]),
            )]),
            obj(vec![(
                "attributes",
                obj(vec![
                    ("ip", text("7.7.7.7")),
                    ("port", JsonValue::Number(None)),
                ]),
            )]),
        ]),
    )])
}

#[test]
fn response_entries_become_servers() {
    let servers = servers_from_response(&sample_response()).unwrap();
    assert_eq!(servers.len(), 2);
    let a = &servers[0];
    assert_eq!(a.name, "Cherno PvP");
    assert_eq!(a.ip, "1.2.3.4:2302");
    assert_eq!(a.port, 2302);
    assert_eq!(a.players, 45);
    assert_eq!(a.max_players, 60);
    assert_eq!(a.ping_ms, None);
    assert_eq!(a.server_type, ServerType::Modded);
    assert_eq!(a.country, "DE");
    assert!(a.is_hardcore);
    assert!(!a.has_battleye);
    assert_eq!(a.mods, vec!["CF".to_string(), "1564026768".to_string()]);
    assert!(!a.mods_installed);
    let b = &servers[1];
    assert_eq!(b.name, "Unknown");
    assert_eq!(b.country, "Unknown");
    assert_eq!(b.port, 70000u64 as u16);
    assert_eq!(b.ip, "5.6.7.8:4464");
    assert_eq!(b.players, 1);
    assert_eq!(b.max_players, 0);
    assert_eq!(b.server_type, ServerType::Official);
    assert!(b.has_battleye);
    assert!(!b.is_hardcore);
    assert!(b.mods.is_empty());
}

#[test]
fn response_without_data_is_refused() {
    let r = servers_from_response(&obj(vec![("errors", JsonValue::Array(vec![]))]));
    assert_eq!(r.unwrap_err(), ResponseError::MissingData);
    let r = servers_from_response(&obj(vec![("data", text("x"))]));
    assert_eq!(r.unwrap_err(), ResponseError::MissingData);
    let r = servers_from_response(&JsonValue::Array(vec![]));
    assert_eq!(r.unwrap_err(), ResponseError::MissingData);
    assert_eq!(ResponseError::MissingData.message(), "Missing 'data' array in response");
}

#[test]
fn pings_go_to_servers_in_order() {
    let mut servers = vec![
        server("A", "1:1", "PL"),
        server("B", "2:2", "PL"),
        server("C", "3:3", "PL"),
    ];
    servers[2].ping_ms = Some(7);
    apply_pings(&mut servers, &vec![Some(30), None]);
    assert_eq!(servers[0].ping_ms, Some(30));
    assert_eq!(servers[1].ping_ms, None);
    assert_eq!(servers[2].ping_ms, Some(7));
    assert_eq!(servers[0].name, "A");
}

#[test]
fn filtered_rows_in_order() {
    let mut servers = vec![
        server("Alpha", "1:1", "PL"),
        server("Beta", "2:2", "DE"),
        server("alphabet", "3:3", "CZ"),
    ];
    servers[1].players = 60;
    let mut f = ServerFilters::default();
    assert_eq!(filtered_indices(&servers, &f), vec![0, 1, 2]);
    f.search_query = "ALPHA".to_string();
    assert_eq!(filtered_indices(&servers, &f), vec![0, 2]);
    f.search_query.clear();
    f.hide_full = true;
    assert_eq!(filtered_indices(&servers, &f), vec![0, 2]);
}

#[test]
fn url_given_alphanumeric_flags() {
    assert_eq!(
        servers_url_with_flags("a-b c", &vec![false, false, false, false, false]),
        format!("{}&filter[search]=-%20", BASE)
    );
    assert_eq!(
        servers_url_with_flags("a#", &vec![true, true]),
        format!("{}&filter[search]=a#", BASE)
    );
    assert_eq!(servers_url_with_flags("", &vec![]), BASE);
}

#[test]
fn listed_address_gives_host_back() {
    let servers = servers_from_response(&sample_response()).unwrap();
    assert_eq!(host_of(&servers[0].ip), "1.2.3.4");
    assert_eq!(host_of(&servers[1].ip), "5.6.7.8");
}

#[test]
fn body_text_becomes_servers() {
    let body = r#"{"data":[{"attributes":{"name":"Cherno PvP","ip":"1.2.3.4","port":2302,"players":45,"maxPlayers":60,"country":"DE","details":{"modded":true,"mods":[{"name":"CF"},{"id":"42"}]}}},{"attributes":{"ip":"9.9.9.9","port":-1}},{"attributes":{"ip":"5.6.7.8","port":2402.5}}],"meta":{}}"#;
    let servers = servers_from_body(body).unwrap();
    assert_eq!(servers.len(), 1);
    assert_eq!(servers[0].name, "Cherno PvP");
    assert_eq!(servers[0].ip, "1.2.3.4:2302");
    assert_eq!(servers[0].server_type, ServerType::Modded);
    assert_eq!(servers[0].mods, vec!["CF".to_string(), "42".to_string()]);
}

#[test]
fn body_errors() {
    match servers_from_body("not json") {
        Err(e @ FetchError::InvalidJson { .. }) => {
            let expected = serde_json::from_str::<serde_json::Value>("not json").unwrap_err().to_string();
            assert_eq!(e.message(), format!("JSON parse error: {}\nBody: not json", expected));
        }
        other => panic!("unexpected {:?}", other),
    }
    match servers_from_body(r#"{"errors":[]}"#) {
        Err(e @ FetchError::MissingData) => {
            assert_eq!(e.message(), "Missing 'data' array in response")
        }
        other => panic!("unexpected {:?}", other),
    }
}

#[test]
fn body_excerpt_keeps_whole_characters() {
    assert_eq!(body_excerpt(""), "");
    assert_eq!(body_excerpt("short"), "short");
    let ascii = "a".repeat(600);
    assert_eq!(body_excerpt(&ascii), &ascii[..500]);
    let mixed = format!("{}{}", "a".repeat(499), "ż".repeat(10));
    assert_eq!(body_excerpt(&mixed), "a".repeat(499));
    let two = format!("{}{}", "a".repeat(498), "żż");
    assert_eq!(body_excerpt(&two), format!("{}ż", "a".repeat(498)));
}
