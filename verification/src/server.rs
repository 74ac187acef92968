//! DayZ servers: the list entries, the filters the list is shown through,
//! the BattleMetrics query and the reading of its answer.
use vstd::prelude::*;
use crate::color::{color_from_rgb, rgb};
use crate::json::{JsonValue, json_of_text, parse_json, json_get, as_array, text_member, u64_member, flag_member, json_str, json_u64, json_bool};
use crate::text::{lowercase, has_substring, alphanumeric, decimal, to_lowercase, is_alphanumeric, contains_str, push_decimal, chars_of};

verus! {

/// Kind of a DayZ server.
#[derive(Clone, Copy, Debug, PartialEq, Eq, Structural)]
pub enum ServerType {
    Official,
    Community,
    Modded,
}

/// The label shown for a server kind.
pub open spec fn server_type_label(t: ServerType) -> Seq<char> {
    match t {
        ServerType::Official => "Oficjalny"@,
        ServerType::Community => "Community"@,
        ServerType::Modded => "Modded"@,
    }
}

impl ServerType {
    /// The label shown for this kind of server.
    pub fn label(&self) -> (r: &str)
        ensures
            r@ == server_type_label(*self),
    {
        match self {
            ServerType::Official => "Oficjalny",
            ServerType::Community => "Community",
            ServerType::Modded => "Modded",
        }
    }
}

/// One server of the list.
#[derive(Clone, Debug)]
pub struct DayZServer {
    pub name: String,
    /// Address as "host:port".
    pub ip: String,
    pub port: u16,
    pub players: u32,
    pub max_players: u32,
    /// Measured round trip in milliseconds, `None` while unknown.
    pub ping_ms: Option<u32>,
    pub server_type: ServerType,
    pub country: String,
    pub is_hardcore: bool,
    pub has_battleye: bool,
    pub mods: Vec<String>,
    pub mods_installed: bool,
}

/// A server as plain values.
pub struct ServerView {
    pub name: Seq<char>,
    pub ip: Seq<char>,
    pub port: u16,
    pub players: u32,
    pub max_players: u32,
    pub ping_ms: Option<u32>,
    pub server_type: ServerType,
    pub country: Seq<char>,
    pub is_hardcore: bool,
    pub has_battleye: bool,
    pub mods: Seq<Seq<char>>,
    pub mods_installed: bool,
}

impl View for DayZServer {
    type V = ServerView;

    open spec fn view(&self) -> ServerView {
        ServerView {
            name: self.name@,
            ip: self.ip@,
            port: self.port,
            players: self.players,
            max_players: self.max_players,
            ping_ms: self.ping_ms,
            server_type: self.server_type,
            country: self.country@,
            is_hardcore: self.is_hardcore,
            has_battleye: self.has_battleye,
            mods: self.mods.deep_view(),
            mods_installed: self.mods_installed,
        }
    }
}

/// What the server list is shown through.
#[derive(Clone, Debug)]
pub struct ServerFilters {
    /// Text looked for in the name, country and address (case-insensitive
    /// for name and country).
    pub search_query: String,
    pub hide_full: bool,
    pub only_compatible_mods: bool,
    pub max_ping: Option<u32>,
    pub server_type: Option<ServerType>,
    /// Text looked for in the country, case-insensitively.
    pub map_filter: String,
}

impl Default for ServerFilters {
    fn default() -> (r: Self)
        ensures
            r.search_query@.len() == 0,
            !r.hide_full,
            !r.only_compatible_mods,
            r.max_ping is None,
            r.server_type is None,
            r.map_filter@.len() == 0,
    {
        ServerFilters {
            search_query: String::new(),
            hide_full: false,
            only_compatible_mods: false,
            max_ping: None,
            server_type: None,
            map_filter: String::new(),
        }
    }
}

/// Whether a server passes the filters, given the lowercase forms of its
/// name and country and of the filters' two texts.
pub open spec fn passes_filters(
    s: ServerView,
    f: ServerFilters,
    name_lc: Seq<char>,
    country_lc: Seq<char>,
    query_lc: Seq<char>,
    map_lc: Seq<char>,
) -> bool {
    &&& f.search_query@.len() > 0 ==> (has_substring(name_lc, query_lc) || has_substring(
        country_lc,
        query_lc,
    ) || has_substring(s.ip, query_lc))
    &&& !(f.hide_full && s.players >= s.max_players)
    &&& !(f.only_compatible_mods && !s.mods_installed)
    &&& match (f.max_ping, s.ping_ms) {
        (Some(max), Some(ping)) => ping <= max,
        _ => true,
    }
    &&& match f.server_type {
        Some(t) => s.server_type == t,
        None => true,
    }
    &&& f.map_filter@.len() > 0 ==> has_substring(country_lc, map_lc)
}

/// Whether a server passes the filters.
pub open spec fn matches(s: ServerView, f: ServerFilters) -> bool {
    passes_filters(
        s,
        f,
        lowercase(s.name),
        lowercase(s.country),
        lowercase(f.search_query@),
        lowercase(f.map_filter@),
    )
}

/// Which color a ping is shown in.
pub open spec fn ping_color_of(ping: Option<u32>) -> egui::Color32 {
    match ping {
        Some(p) => if p < 60 {
            color_from_rgb(80, 200, 90)
        } else if p < 120 {
            color_from_rgb(220, 180, 50)
        } else {
            color_from_rgb(220, 60, 40)
        },
        None => color_from_rgb(160, 160, 160),
    }
}

impl DayZServer {
    /// Whether this server passes `filters`, given the lowercase forms of
    /// its name and country and of the filters' search and map texts.
    pub fn matches_lowercased(
        &self,
        filters: &ServerFilters,
        name_lc: &str,
        country_lc: &str,
        query_lc: &str,
        map_lc: &str,
    ) -> (r: bool)
        ensures
            r == passes_filters(self@, *filters, name_lc@, country_lc@, query_lc@, map_lc@),
    {
        if filters.search_query.unicode_len() > 0 {
            if !contains_str(name_lc, query_lc) && !contains_str(country_lc, query_lc)
                && !contains_str(self.ip.as_str(), query_lc) {
                return false;
            }
        }
        if filters.hide_full && self.players >= self.max_players {
            return false;
        }
        if filters.only_compatible_mods && !self.mods_installed {
            return false;
        }
        if let Some(max_ping) = filters.max_ping {
            if let Some(ping) = self.ping_ms {
                if ping > max_ping {
                    return false;
                }
            }
        }
        if let Some(st) = filters.server_type {
            if self.server_type != st {
                return false;
            }
        }
        if filters.map_filter.unicode_len() > 0 {
            if !contains_str(country_lc, map_lc) {
                return false;
            }
        }
        true
    }

    /// Whether this server passes `filters`: the search text (lowercased)
    /// occurs in the lowercased name or country or in the address; full
    /// servers are hidden on request; so are servers whose mods are not
    /// installed; a known ping must not exceed the limit; the kind must be
    /// the one asked for; the map text occurs in the country (both
    /// lowercased).
    pub fn matches_filters(&self, filters: &ServerFilters) -> (r: bool)
        ensures
            r == matches(self@, *filters),
    {
        let name_lc = to_lowercase(self.name.as_str());
        let country_lc = to_lowercase(self.country.as_str());
        let query_lc = to_lowercase(filters.search_query.as_str());
        let map_lc = to_lowercase(filters.map_filter.as_str());
        self.matches_lowercased(
            filters,
            name_lc.as_str(),
            country_lc.as_str(),
            query_lc.as_str(),
            map_lc.as_str(),
        )
    }

    /// The color the ping is shown in: green under 60 ms, yellow under
    /// 120 ms, red from there on, gray (egui's `Color32::GRAY`) when unknown.
    pub fn ping_color(&self) -> (c: egui::Color32)
        ensures
            c == ping_color_of(self.ping_ms),
    {
        match self.ping_ms {
            Some(p) => if p < 60 {
                rgb(80, 200, 90)
            } else if p < 120 {
                rgb(220, 180, 50)
            } else {
                rgb(220, 60, 40)
            },
            None => rgb(160, 160, 160),
        }
    }
}

/// The list request: online DayZ servers, most players first, a page of 100.
pub open spec fn servers_base_url() -> Seq<char> {
    "https://api.battlemetrics.com/servers?filter[game]=dayz&filter[status]=online&sort=-players&page[size]=100"@
}

/// Whether a character of the search text is sent to the server list
/// service, given whether it is alphanumeric: letters and digits, `-`, `_`,
/// `.` and space are.
pub open spec fn kept_in_search(c: char, alnum: bool) -> bool {
    alnum || c == '-' || c == '_' || c == '.' || c == ' '
}

/// How one character of the search text is sent: dropped unless kept,
/// a space as "%20", any other kept character as itself.
pub open spec fn encode_search_char(c: char, alnum: bool) -> Seq<char> {
    if !kept_in_search(c, alnum) {
        Seq::empty()
    } else if c == ' ' {
        seq!['%', '2', '0']
    } else {
        seq![c]
    }
}

/// The search text as it is sent, given for each of its characters whether
/// it is alphanumeric.
pub open spec fn encode_search(s: Seq<char>, alnum: Seq<bool>) -> Seq<char>
    decreases s.len(),
{
    if s.len() == 0 {
        Seq::empty()
    } else {
        encode_search(s.drop_last(), alnum.drop_last()) + encode_search_char(s.last(), alnum.last())
    }
}

/// Whether each character of `s` is alphanumeric.
pub open spec fn alphanumeric_flags(s: Seq<char>) -> Seq<bool> {
    s.map_values(|c: char| alphanumeric(c))
}

/// The address of the list request for a search text, given for each of
/// its characters whether it is alphanumeric (no search filter for an
/// empty text).
pub open spec fn servers_url_given(search: Seq<char>, alnum: Seq<bool>) -> Seq<char> {
    if search.len() == 0 {
        servers_base_url()
    } else {
        servers_base_url() + "&filter[search]="@ + encode_search(search, alnum)
    }
}

/// The address of the list request for a search text.
pub open spec fn servers_url(search: Seq<char>) -> Seq<char> {
    servers_url_given(search, alphanumeric_flags(search))
}

/// The address of the BattleMetrics request that lists the servers
/// matching `search`, given for each character of `search` whether it is
/// alphanumeric: the characters other than letters, digits, `-`, `_`, `.`
/// and space are dropped, and spaces are sent as `%20`.
pub fn servers_url_with_flags(search: &str, alnum: &Vec<bool>) -> (url: String)
    requires
        alnum@.len() == search@.len(),
    ensures
        url@ == servers_url_given(search@, alnum@),
{
    let mut url = String::from_str(
        "https://api.battlemetrics.com/servers?filter[game]=dayz&filter[status]=online&sort=-players&page[size]=100",
    );
    let cs = chars_of(search);
    if cs.len() == 0 {
        return url;
    }
    url.append("&filter[search]=");
    let ghost start = url@;
    let mut i: usize = 0;
    while i < cs.len()
        invariant
            cs@ == search@,
            alnum@.len() == search@.len(),
            i <= cs@.len(),
            url@ == start + encode_search(search@.subrange(0, i as int), alnum@.subrange(0, i as int)),
        decreases cs.len() - i,
    {
        let c = cs[i];
        assert(search@.subrange(0, i + 1).drop_last() =~= search@.subrange(0, i as int));
        assert(alnum@.subrange(0, i + 1).drop_last() =~= alnum@.subrange(0, i as int));
        if alnum[i] || c == '-' || c == '_' || c == '.' || c == ' ' {
            if c == ' ' {
                url.append("%20");
                proof {
                    reveal_strlit("%20");
                }
            } else {
                url.push(c);
            }
        }
        i = i + 1;
        assert(url@ =~= start + encode_search(search@.subrange(0, i as int), alnum@.subrange(0, i as int)));
    }
    assert(search@.subrange(0, cs@.len() as int) =~= search@);
    assert(alnum@.subrange(0, cs@.len() as int) =~= alnum@);
    url
}

/// The address of the BattleMetrics request that lists the servers
/// matching `search`: online DayZ servers, most players first, a page of
/// 100; the characters of the search other than letters, digits, `-`, `_`,
/// `.` and space are dropped, and spaces are sent as `%20`.
pub fn servers_url_for(search: &str) -> (url: String)
    ensures
        url@ == servers_url(search@),
{
    let cs = chars_of(search);
    let mut alnum: Vec<bool> = Vec::new();
    let mut i: usize = 0;
    while i < cs.len()
        invariant
            cs@ == search@,
            i <= cs@.len(),
            alnum@ == alphanumeric_flags(search@).subrange(0, i as int),
        decreases cs.len() - i,
    {
        alnum.push(is_alphanumeric(cs[i]));
        i = i + 1;
        assert(alnum@ =~= alphanumeric_flags(search@).subrange(0, i as int));
    }
    assert(alnum@ =~= alphanumeric_flags(search@));
    servers_url_with_flags(search, &alnum)
}

/// Why the answer of the server list service could not be read.
#[derive(Clone, Copy, Debug, PartialEq, Eq, Structural)]
pub enum ResponseError {
    /// The answer has no `data` array.
    MissingData,
}

impl ResponseError {
    /// The message shown for this error.
    pub fn message(&self) -> (m: String)
        ensures
            m@ == "Missing 'data' array in response"@,
    {
        String::from_str("Missing 'data' array in response")
    }
}

/// How many bytes a character takes in UTF-8.
pub open spec fn utf8_len(c: char) -> nat {
    let u = c as u32;
    if u < 0x80 {
        1
    } else if u < 0x800 {
        2
    } else if u < 0x10000 {
        3
    } else {
        4
    }
}

/// How many of the first characters of `s` fit, in UTF-8, in `budget` bytes.
pub open spec fn fitting_chars(s: Seq<char>, budget: nat) -> nat
    decreases s.len(),
{
    if s.len() == 0 {
        0
    } else if utf8_len(s[0]) > budget {
        0
    } else {
        1 + fitting_chars(s.drop_first(), (budget - utf8_len(s[0])) as nat)
    }
}

/// The start of an answer shown with a parse error: its longest prefix of
/// whole characters that takes at most 500 bytes in UTF-8.
pub open spec fn body_excerpt_of(text: Seq<char>) -> Seq<char> {
    text.take(fitting_chars(text, 500) as int)
}

/// The start of an answer shown with a parse error: the first 500 bytes,
/// shortened to the last whole character.
pub fn body_excerpt(text: &str) -> (r: String)
    ensures
        r@ == body_excerpt_of(text@),
{
    let cs = chars_of(text);
    let mut r = String::new();
    let mut budget: u32 = 500;
    let mut i: usize = 0;
    assert(text@.skip(0) =~= text@);
    assert(r@ =~= text@.take(0));
    while i < cs.len()
        invariant
            cs@ == text@,
            i <= cs@.len(),
            budget <= 500,
            r@ == text@.take(i as int),
            fitting_chars(text@, 500) == i + fitting_chars(text@.skip(i as int), budget as nat),
        decreases cs.len() - i,
    {
        let c = cs[i];
        let u = c as u32;
        let n: u32 = if u < 0x80 {
            1
        } else if u < 0x800 {
            2
        } else if u < 0x10000 {
            3
        } else {
            4
        };
        assert(text@.skip(i as int)[0] == c);
        assert(text@.skip(i as int).drop_first() =~= text@.skip(i + 1));
        if n > budget {
            return r;
        }
        r.push(c);
        budget = budget - n;
        i = i + 1;
        assert(r@ =~= text@.take(i as int));
    }
    assert(text@.skip(cs@.len() as int).len() == 0);
    assert(text@.take(cs@.len() as int) =~= text@);
    r
}

/// Why the server list could not be read from the service's answer.
#[derive(Debug)]
pub enum FetchError {
    /// The answer is not JSON: `detail` is the parser's message, `body`
    /// the start of the answer.
    InvalidJson { detail: String, body: String },
    /// The answer has no `data` array.
    MissingData,
}

impl FetchError {
    /// The message shown for this error.
    pub fn message(&self) -> (m: String)
        ensures
            match self {
                FetchError::InvalidJson { detail, body } => m@ == "JSON parse error: "@ + detail@
                    + "\nBody: "@ + body@,
                FetchError::MissingData => m@ == "Missing 'data' array in response"@,
            },
    {
        match self {
            FetchError::InvalidJson { detail, body } => {
                let mut m = String::from_str("JSON parse error: ");
                m.append(detail.as_str());
                m.append("\nBody: ");
                m.append(body.as_str());
                m
            },
            FetchError::MissingData => String::from_str("Missing 'data' array in response"),
        }
    }
}

/// The name of a mod entry: its `name`, else its `id`.
pub open spec fn mod_name(m: JsonValue) -> Option<Seq<char>> {
    match text_member(m, "name"@) {
        Some(n) => Some(n),
        None => text_member(m, "id"@),
    }
}

/// The names of the mods listed under `details.mods`, skipping entries
/// without a name or id.
pub open spec fn mod_names(details: Option<JsonValue>) -> Seq<Seq<char>> {
    match details {
        Some(d) => match json_get(d, "mods"@) {
            Some(m) => match as_array(m) {
                Some(items) => items.filter_map(|x: JsonValue| mod_name(x)),
                None => Seq::empty(),
            },
            None => Seq::empty(),
        },
        None => Seq::empty(),
    }
}

/// A boolean member of `details`, `false` when absent.
pub open spec fn detail_flag(details: Option<JsonValue>, key: Seq<char>) -> bool {
    match details {
        Some(d) => flag_member(d, key),
        None => false,
    }
}

/// The kind of a server from its `official` and `modded` flags.
pub open spec fn server_kind(official: bool, modded: bool) -> ServerType {
    if official {
        ServerType::Official
    } else if modded {
        ServerType::Modded
    } else {
        ServerType::Community
    }
}

/// The server described by the attributes of a list entry that has an `ip`
/// string and a `port` number.
pub open spec fn server_of(attrs: JsonValue, ip: Seq<char>, port: u64) -> ServerView {
    let details = json_get(attrs, "details"@);
    ServerView {
        name: match text_member(attrs, "name"@) {
            Some(n) => n,
            None => "Unknown"@,
        },
        ip: ip + ":"@ + decimal((port as u16) as nat),
        port: port as u16,
        players: match u64_member(attrs, "players"@) {
            Some(n) => n as u32,
            None => 0,
        },
        max_players: match u64_member(attrs, "maxPlayers"@) {
            Some(n) => n as u32,
            None => 0,
        },
        ping_ms: None,
        server_type: server_kind(detail_flag(details, "official"@), detail_flag(details, "modded"@)),
        country: match text_member(attrs, "country"@) {
            Some(c) => c,
            None => "Unknown"@,
        },
        is_hardcore: detail_flag(details, "hardcore"@),
        has_battleye: detail_flag(details, "battleye"@) || flag_member(attrs, "battleye"@),
        mods: mod_names(details),
        mods_installed: false,
    }
}

/// The server a list entry describes; `None` for entries without
/// `attributes`, or whose attributes lack an `ip` string or a `port` number.
pub open spec fn entry_server(entry: JsonValue) -> Option<ServerView> {
    match json_get(entry, "attributes"@) {
        None => None,
        Some(attrs) => match text_member(attrs, "ip"@) {
            None => None,
            Some(ip) => match u64_member(attrs, "port"@) {
                None => None,
                Some(port) => Some(server_of(attrs, ip, port)),
            },
        },
    }
}

/// The servers the entries of a list answer describe, in order.
pub open spec fn listed_servers(entries: Seq<JsonValue>) -> Seq<ServerView> {
    entries.filter_map(|e: JsonValue| entry_server(e))
}

/// The servers of a list answer, in the order of its `data` array.
pub open spec fn response_servers(root: JsonValue) -> Result<Seq<ServerView>, ResponseError> {
    match json_get(root, "data"@) {
        Some(d) => match as_array(d) {
            Some(entries) => Ok(listed_servers(entries)),
            None => Err(ResponseError::MissingData),
        },
        None => Err(ResponseError::MissingData),
    }
}

/// The views of a list of servers.
pub open spec fn server_views(v: Seq<DayZServer>) -> Seq<ServerView> {
    v.map_values(|s: DayZServer| s@)
}

fn mod_list(items: &Vec<JsonValue>) -> (names: Vec<String>)
    ensures
        names.deep_view() == items@.filter_map(|x: JsonValue| mod_name(x)),
{
    let mut names: Vec<String> = Vec::new();
    let mut i: usize = 0;
    while i < items.len()
        invariant
            i <= items@.len(),
            names.deep_view() == items@.take(i as int).filter_map(|x: JsonValue| mod_name(x)),
        decreases items.len() - i,
    {
        proof {
            items@.lemma_filter_map_take_succ(|x: JsonValue| mod_name(x), i as int);
        }
        let m = &items[i];
        let found = match json_str(m, "name") {
            Some(n) => Some(n),
            None => json_str(m, "id"),
        };
        match found {
            Some(n) => {
                names.push(String::from_str(n));
            },
            None => {},
        }
        i = i + 1;
        assert(names.deep_view() =~= items@.take(i as int).filter_map(|x: JsonValue| mod_name(x)));
    }
    assert(items@.take(items@.len() as int) =~= items@);
    names
}

/// The server a list entry describes, if it is complete enough.
pub fn server_from_entry(entry: &JsonValue) -> (r: Option<DayZServer>)
    ensures
        match r {
            Some(s) => entry_server(*entry) == Some(s@),
            None => entry_server(*entry) is None,
        },
{
    let attrs = match entry.get("attributes") {
        Some(a) => a,
        None => return None,
    };
    let ip = match json_str(attrs, "ip") {
        Some(s) => s,
        None => return None,
    };
    let port_number = match json_u64(attrs, "port") {
        Some(p) => p,
        None => return None,
    };
    let port = #[verifier::truncate] (port_number as u16);
    let name = match json_str(attrs, "name") {
        Some(n) => String::from_str(n),
        None => String::from_str("Unknown"),
    };
    let players = match json_u64(attrs, "players") {
        Some(n) => #[verifier::truncate] (n as u32),
        None => 0,
    };
    let max_players = match json_u64(attrs, "maxPlayers") {
        Some(n) => #[verifier::truncate] (n as u32),
        None => 0,
    };
    let empty = JsonValue::Object(Vec::new());
    let ghost details_opt = json_get(*attrs, "details"@);
    let details = match attrs.get("details") {
        Some(d) => d,
        None => &empty,
    };
    let country = match json_str(attrs, "country") {
        Some(c) => String::from_str(c),
        None => String::from_str("Unknown"),
    };
    let is_official = json_bool(details, "official");
    let is_modded = json_bool(details, "modded");
    let server_type = if is_official {
        ServerType::Official
    } else if is_modded {
        ServerType::Modded
    } else {
        ServerType::Community
    };
    let is_hardcore = json_bool(details, "hardcore");
    let has_battleye = json_bool(details, "battleye") || json_bool(attrs, "battleye");
    let mods = match details.get("mods") {
        Some(m) => match m.as_array() {
            Some(items) => mod_list(items),
            None => Vec::new(),
        },
        None => Vec::new(),
    };
    let mut address = String::from_str(ip);
    address.append(":");
    push_decimal(&mut address, port as u64);
    let server = DayZServer {
        name,
        ip: address,
        port,
        players,
        max_players,
        ping_ms: None,
        server_type,
        country,
        is_hardcore,
        has_battleye,
        mods,
        mods_installed: false,
    };
    proof {
        if details_opt is None {
            assert(mod_names(details_opt) =~= server.mods.deep_view());
        }
    }
    assert(server@.mods == server_of(*attrs, ip@, port_number).mods);
    assert(server@ == server_of(*attrs, ip@, port_number));
    Some(server)
}

/// The servers listed in an answer of the server list service: one for
/// each entry of its `data` array that has attributes with an `ip` string
/// and a `port` number, in order; `MissingData` when there is no such array.
pub fn servers_from_response(root: &JsonValue) -> (r: Result<Vec<DayZServer>, ResponseError>)
    ensures
        match r {
            Ok(v) => response_servers(*root) == Ok::<Seq<ServerView>, ResponseError>(server_views(v@)),
            Err(e) => response_servers(*root) == Err::<Seq<ServerView>, ResponseError>(e),
        },
{
    let data = match root.get("data") {
        Some(d) => match d.as_array() {
            Some(a) => a,
            None => return Err(ResponseError::MissingData),
        },
        None => return Err(ResponseError::MissingData),
    };
    let mut servers: Vec<DayZServer> = Vec::new();
    let mut i: usize = 0;
    while i < data.len()
        invariant
            i <= data@.len(),
            server_views(servers@) == data@.take(i as int).filter_map(|e: JsonValue| entry_server(e)),
        decreases data.len() - i,
    {
        proof {
            data@.lemma_filter_map_take_succ(|e: JsonValue| entry_server(e), i as int);
        }
        match server_from_entry(&data[i]) {
            Some(s) => {
                servers.push(s);
            },
            None => {},
        }
        i = i + 1;
        assert(server_views(servers@) =~= data@.take(i as int).filter_map(|e: JsonValue| entry_server(e)));
    }
    assert(data@.take(data@.len() as int) =~= data@);
    Ok(servers)
}

/// `h` is the host part of the address `a`: the characters before the
/// first ':' (all of `a` when it has none).
pub open spec fn is_host_of(a: Seq<char>, h: Seq<char>) -> bool {
    &&& h.len() <= a.len()
    &&& h == a.take(h.len() as int)
    &&& forall|j: int| 0 <= j < h.len() ==> h[j] != ':'
    &&& h.len() == a.len() || a[h.len() as int] == ':'
}

/// The host of an address "host:port", the part before the first ':'.
pub fn host_of(address: &str) -> (host: String)
    ensures
        is_host_of(address@, host@),
{
    let cs = chars_of(address);
    let mut host = String::new();
    let mut i: usize = 0;
    while i < cs.len()
        invariant
            cs@ == address@,
            i <= cs@.len(),
            host@ == address@.take(i as int),
            forall|j: int| 0 <= j < i ==> address@[j] != ':',
        decreases cs.len() - i,
    {
        if cs[i] == ':' {
            return host;
        }
        host.push(cs[i]);
        i = i + 1;
        assert(host@ =~= address@.take(i as int));
    }
    host
}

/// The server `s` with its ping replaced.
pub open spec fn with_ping(s: ServerView, ping: Option<u32>) -> ServerView {
    ServerView { ping_ms: ping, ..s }
}

/// Records measured pings: the i-th ping goes to the i-th server, as far
/// as both lists reach; servers beyond the pings keep theirs.
pub fn apply_pings(servers: &mut Vec<DayZServer>, pings: &Vec<Option<u32>>)
    ensures
        final(servers)@.len() == old(servers)@.len(),
        forall|i: int|
            0 <= i < old(servers)@.len() ==> (#[trigger] final(servers)@[i])@ == (if i < pings@.len() {
                with_ping(old(servers)@[i]@, pings@[i])
            } else {
                old(servers)@[i]@
            }),
{
    let mut i: usize = 0;
    while i < servers.len() && i < pings.len()
        invariant
            servers@.len() == old(servers)@.len(),
            i <= servers@.len(),
            forall|j: int|
                0 <= j < servers@.len() ==> (#[trigger] servers@[j])@ == (if j < i && j < pings@.len() {
                    with_ping(old(servers)@[j]@, pings@[j])
                } else {
                    old(servers)@[j]@
                }),
        decreases servers.len() - i,
    {
        servers[i].ping_ms = pings[i];
        i = i + 1;
    }
}

/// The positions of the servers among the first `n` that pass the filters,
/// in order.
pub open spec fn matching_positions(servers: Seq<ServerView>, f: ServerFilters, n: int) -> Seq<usize>
    decreases n,
{
    if n <= 0 {
        Seq::empty()
    } else if matches(servers[n - 1], f) {
        matching_positions(servers, f, n - 1).push((n - 1) as usize)
    } else {
        matching_positions(servers, f, n - 1)
    }
}

/// The positions, in order, of the servers that pass the filters (the rows
/// the server list shows).
pub fn filtered_indices(servers: &Vec<DayZServer>, filters: &ServerFilters) -> (r: Vec<usize>)
    ensures
        r@ == matching_positions(server_views(servers@), *filters, servers@.len() as int),
{
    let mut r: Vec<usize> = Vec::new();
    let mut i: usize = 0;
    while i < servers.len()
        invariant
            i <= servers@.len(),
            r@ == matching_positions(server_views(servers@), *filters, i as int),
        decreases servers.len() - i,
    {
        if servers[i].matches_filters(filters) {
            r.push(i);
        }
        i = i + 1;
    }
    r
}

/// Law: filters at their defaults (no search text, no map text, nothing
/// hidden, no ping limit, any kind) show every server.
pub proof fn lemma_default_filters_show_all(s: ServerView, f: ServerFilters)
    requires
        f.search_query@.len() == 0,
        f.map_filter@.len() == 0,
        !f.hide_full,
        !f.only_compatible_mods,
        f.max_ping is None,
        f.server_type is None,
    ensures
        matches(s, f),
{
}

/// Law: each filter rejects a server on its own. A server is not shown when
/// there is a search text that occurs neither in its lowercased name, nor in
/// its lowercased country, nor in its address; when full servers are hidden
/// and it is full; when only installed mods are asked for and its mods are
/// not installed; when its known ping exceeds the limit; when it is not of
/// the kind asked for; or when there is a map text that its lowercased
/// country does not contain, whatever its name.
pub proof fn lemma_each_filter_rejects(
    s: ServerView,
    f: ServerFilters,
    name_lc: Seq<char>,
    country_lc: Seq<char>,
    query_lc: Seq<char>,
    map_lc: Seq<char>,
)
    ensures
        f.search_query@.len() > 0 && !has_substring(name_lc, query_lc) && !has_substring(
            country_lc,
            query_lc,
        ) && !has_substring(s.ip, query_lc) ==> !passes_filters(s, f, name_lc, country_lc, query_lc, map_lc),
        f.hide_full && s.players >= s.max_players ==> !passes_filters(s, f, name_lc, country_lc, query_lc, map_lc),
        f.only_compatible_mods && !s.mods_installed ==> !passes_filters(s, f, name_lc, country_lc, query_lc, map_lc),
        f.max_ping is Some && s.ping_ms is Some && s.ping_ms->0 > f.max_ping->0 ==> !passes_filters(s, f, name_lc, country_lc, query_lc, map_lc),
        f.server_type is Some && s.server_type != f.server_type->0 ==> !passes_filters(s, f, name_lc, country_lc, query_lc, map_lc),
        f.map_filter@.len() > 0 && !has_substring(country_lc, map_lc) ==> !passes_filters(s, f, name_lc, country_lc, query_lc, map_lc),
{
}

/// Law: a server is shown when no filter rejects it: any search text occurs
/// in its lowercased name, its lowercased country or its address; it is not
/// full if full servers are hidden; its mods are installed if that is asked
/// for; its ping is within the limit or unknown; it is of the kind asked
/// for; its lowercased country contains any map text.
pub proof fn lemma_unrejected_server_passes(
    s: ServerView,
    f: ServerFilters,
    name_lc: Seq<char>,
    country_lc: Seq<char>,
    query_lc: Seq<char>,
    map_lc: Seq<char>,
)
    requires
        f.search_query@.len() > 0 ==> has_substring(name_lc, query_lc) || has_substring(
            country_lc,
            query_lc,
        ) || has_substring(s.ip, query_lc),
        f.hide_full ==> s.players < s.max_players,
        f.only_compatible_mods ==> s.mods_installed,
        f.max_ping is Some && s.ping_ms is Some ==> s.ping_ms->0 <= f.max_ping->0,
        f.server_type is Some ==> s.server_type == f.server_type->0,
        f.map_filter@.len() > 0 ==> has_substring(country_lc, map_lc),
    ensures
        passes_filters(s, f, name_lc, country_lc, query_lc, map_lc),
{
}

/// Law: the name of a server counts only through the search text: with no
/// search text, a server fares the same under any other name.
pub proof fn lemma_name_only_searched(
    s: ServerView,
    f: ServerFilters,
    name_lc: Seq<char>,
    other_name: Seq<char>,
    other_name_lc: Seq<char>,
    country_lc: Seq<char>,
    query_lc: Seq<char>,
    map_lc: Seq<char>,
)
    requires
        f.search_query@.len() == 0,
    ensures
        passes_filters(s, f, name_lc, country_lc, query_lc, map_lc) == passes_filters(
            ServerView { name: other_name, ..s },
            f,
            other_name_lc,
            country_lc,
            query_lc,
            map_lc,
        ),
{
}

/// Law: a non-empty map text is looked for in the country only: a server
/// whose lowercased country does not contain the lowercased map text is
/// not shown, even when its name contains it.
pub proof fn lemma_map_text_in_country_only(s: ServerView, f: ServerFilters)
    requires
        f.map_filter@.len() > 0,
        !has_substring(lowercase(s.country), lowercase(f.map_filter@)),
    ensures
        !matches(s, f),
{
}

/// Law: how a complete list entry is read. An entry whose `attributes`
/// object has an `ip` string and a `port` number gives a server whose
/// address is the ip, ':' and the port; whose name and country are the
/// `name` and `country` strings ("Unknown" when missing); whose player
/// counts are the `players` and `maxPlayers` numbers (0 when missing); which
/// is official when `details.official` is true, else modded when
/// `details.modded` is true, else a community server; which is hardcore
/// exactly when `details.hardcore` is true; which has BattlEye exactly when
/// `details.battleye` or `attributes.battleye` is true; which lists no mods
/// when `details.mods` is not an array; and which has no ping yet and its
/// mods not installed.
pub proof fn lemma_entry_server_fields(entry: JsonValue, attrs: JsonValue, ip: String, port: u64)
    requires
        json_get(entry, "attributes"@) == Some(attrs),
        json_get(attrs, "ip"@) == Some(JsonValue::Text(ip)),
        json_get(attrs, "port"@) == Some(JsonValue::Number(Some(port))),
    ensures
        entry_server(entry) is Some,
        entry_server(entry)->0.ip == ip@ + ":"@ + decimal((port as u16) as nat),
        entry_server(entry)->0.port == port as u16,
        entry_server(entry)->0.name == match json_get(attrs, "name"@) {
            Some(JsonValue::Text(n)) => n@,
            _ => "Unknown"@,
        },
        entry_server(entry)->0.country == match json_get(attrs, "country"@) {
            Some(JsonValue::Text(c)) => c@,
            _ => "Unknown"@,
        },
        entry_server(entry)->0.players == match json_get(attrs, "players"@) {
            Some(JsonValue::Number(Some(n))) => n as u32,
            _ => 0u32,
        },
        entry_server(entry)->0.max_players == match json_get(attrs, "maxPlayers"@) {
            Some(JsonValue::Number(Some(n))) => n as u32,
            _ => 0u32,
        },
        entry_server(entry)->0.server_type == (if json_get(attrs, "details"@) matches Some(d)
            && json_get(d, "official"@) == Some(JsonValue::Bool(true)) {
            ServerType::Official
        } else if json_get(attrs, "details"@) matches Some(d) && json_get(d, "modded"@) == Some(
            JsonValue::Bool(true),
        ) {
            ServerType::Modded
        } else {
            ServerType::Community
        }),
        entry_server(entry)->0.is_hardcore <==> (json_get(attrs, "details"@) matches Some(d) && json_get(
            d,
            "hardcore"@,
        ) == Some(JsonValue::Bool(true))),
        entry_server(entry)->0.has_battleye <==> (json_get(attrs, "details"@) matches Some(d) && json_get(
            d,
            "battleye"@,
        ) == Some(JsonValue::Bool(true))) || json_get(attrs, "battleye"@) == Some(JsonValue::Bool(true)),
        !(json_get(attrs, "details"@) matches Some(d) && json_get(d, "mods"@) matches Some(
            JsonValue::Array(_),
        )) ==> entry_server(entry)->0.mods.len() == 0,
        entry_server(entry)->0.ping_ms is None,
        !entry_server(entry)->0.mods_installed,
{
}

/// Law: the mods of a server are read from the `details.mods` array in
/// order. An empty array lists no mods; appending an item to the array
/// appends its `name` string, or else its `id` string, or nothing when it
/// has neither.
pub proof fn lemma_mods_read_in_order(d1: JsonValue, d2: JsonValue, v1: Vec<JsonValue>, v2: Vec<JsonValue>, x: JsonValue)
    requires
        json_get(d1, "mods"@) == Some(JsonValue::Array(v1)),
        json_get(d2, "mods"@) == Some(JsonValue::Array(v2)),
    ensures
        v1@.len() == 0 ==> mod_names(Some(d1)).len() == 0,
        v2@ == v1@.push(x) ==> mod_names(Some(d2)) == mod_names(Some(d1)) + match json_get(x, "name"@) {
            Some(JsonValue::Text(n)) => seq![n@],
            _ => match json_get(x, "id"@) {
                Some(JsonValue::Text(i)) => seq![i@],
                _ => Seq::<Seq<char>>::empty(),
            },
        },
{
    if v2@ == v1@.push(x) {
        assert(v2@.drop_last() == v1@);
        assert(v2@.last() == x);
    }
}

/// Law: entries that lack an `attributes` object, an `ip` string or a
/// `port` number are skipped.
pub proof fn lemma_incomplete_entry_skipped(entry: JsonValue)
    ensures
        !(json_get(entry, "attributes"@) matches Some(a) && json_get(a, "ip"@) matches Some(
            JsonValue::Text(_),
        ) && json_get(a, "port"@) matches Some(JsonValue::Number(Some(_)))) ==> entry_server(entry) is None,
{
}

/// Law: the list shows exactly the servers that pass the filters, each
/// once, in list order.
pub proof fn lemma_matching_positions(servers: Seq<ServerView>, f: ServerFilters, n: int)
    requires
        0 <= n <= servers.len(),
        n <= usize::MAX,
    ensures
        forall|k: int|
            0 <= k < matching_positions(servers, f, n).len() ==> {
                let p = #[trigger] matching_positions(servers, f, n)[k];
                p < n && matches(servers[p as int], f)
            },
        forall|a: int, b: int|
            0 <= a < b < matching_positions(servers, f, n).len() ==> #[trigger] matching_positions(servers, f, n)[a]
                < #[trigger] matching_positions(servers, f, n)[b],
        forall|j: int|
            0 <= j < n && matches(servers[j], f) ==> #[trigger] matching_positions(servers, f, n).contains(
                j as usize,
            ),
    decreases n,
{
    if n > 0 {
        lemma_matching_positions(servers, f, n - 1);
        let prev = matching_positions(servers, f, n - 1);
        if matches(servers[n - 1], f) {
            let cur = prev.push((n - 1) as usize);
            assert(cur[prev.len() as int] == (n - 1) as usize);
            assert forall|j: int| 0 <= j < n && matches(servers[j], f) implies #[trigger] cur.contains(j as usize) by {
                if j < n - 1 {
                    assert(prev.contains(j as usize));
                    let k = choose|k: int| 0 <= k < prev.len() && prev[k] == j as usize;
                    assert(cur[k] == j as usize);
                } else {
                    assert(cur[prev.len() as int] == j as usize);
                }
            }
        }
    }
}

/// Law: the address of a listed server, "host:port", gives its host back
/// when the host holds no ':'.
pub proof fn lemma_host_of_address(host: Seq<char>, port: u16)
    requires
        forall|j: int| 0 <= j < host.len() ==> host[j] != ':',
    ensures
        is_host_of(host + ":"@ + decimal(port as nat), host),
{
    reveal_strlit(":");
    let a = host + ":"@ + decimal(port as nat);
    assert(a.take(host.len() as int) =~= host);
    assert(a[host.len() as int] == ':');
}

/// Law: the search text is sent without spaces.
pub proof fn lemma_encoded_search_has_no_space(s: Seq<char>, alnum: Seq<bool>)
    requires
        alnum.len() == s.len(),
    ensures
        !encode_search(s, alnum).contains(' '),
    decreases s.len(),
{
    if s.len() > 0 {
        lemma_encoded_search_has_no_space(s.drop_last(), alnum.drop_last());
        let prev = encode_search(s.drop_last(), alnum.drop_last());
        let e = encode_search_char(s.last(), alnum.last());
        assert forall|k: int| 0 <= k < (prev + e).len() implies (prev + e)[k] != ' ' by {
            if k < prev.len() {
                assert((prev + e)[k] == prev[k]);
            } else {
                assert((prev + e)[k] == e[k - prev.len()]);
            }
        }
    }
}

/// Every server read from a list answer has no ping yet, its mods are not
/// installed, and its address is some host followed by ':' and its port.
pub open spec fn fresh_server(s: ServerView) -> bool {
    &&& s.ping_ms is None
    &&& !s.mods_installed
    &&& exists|h: Seq<char>| s.ip == h + ":"@ + decimal(s.port as nat)
}

proof fn lemma_filter_map_fresh(entries: Seq<JsonValue>)
    ensures
        listed_servers(entries).len() <= entries.len(),
        forall|k: int|
            0 <= k < listed_servers(entries).len() ==> fresh_server(
                #[trigger] listed_servers(entries)[k],
            ),
    decreases entries.len(),
{
    if entries.len() > 0 {
        let rest = entries.drop_last();
        lemma_filter_map_fresh(rest);
        match entry_server(entries.last()) {
            Some(v) => {
                match json_get(entries.last(), "attributes"@) {
                    Some(attrs) => {
                        let ip = text_member(attrs, "ip"@)->0;
                        let port = u64_member(attrs, "port"@)->0;
                        assert(v.ip == ip + ":"@ + decimal(v.port as nat));
                    },
                    None => {},
                }
                let all = listed_servers(entries);
                let prev = listed_servers(rest);
                assert(entries.drop_last() == rest);
                assert(all == prev + seq![v]);
                assert forall|k: int| 0 <= k < all.len() implies fresh_server(#[trigger] all[k]) by {
                    if k < prev.len() {
                        assert(all[k] == prev[k]);
                    } else {
                        assert(all[k] == v);
                    }
                }
            },
            None => {},
        }
    }
}

/// Law: reading a list answer yields at most one server per entry, each
/// without a ping, with its mods not installed, and with an address that
/// ends in ':' and its port.
pub proof fn lemma_response_servers_fresh(root: JsonValue)
    ensures
        match response_servers(root) {
            Ok(v) => (forall|k: int| 0 <= k < v.len() ==> fresh_server(#[trigger] v[k])) && match json_get(root, "data"@) {
                Some(d) => match as_array(d) {
                    Some(entries) => v.len() <= entries.len(),
                    None => true,
                },
                None => true,
            },
            Err(_) => true,
        },
{
    match json_get(root, "data"@) {
        Some(d) => match as_array(d) {
            Some(entries) => {
                lemma_filter_map_fresh(entries);
            },
            None => {},
        },
        None => {},
    }
}

/// The servers listed in the body of an answer of the server list service:
/// `InvalidJson` with the parser's message and the start of the body when
/// the body is not JSON,
/// `MissingData` when the document has no `data` array, otherwise exactly
/// the servers `servers_from_response` reads from the document.
pub fn servers_from_body(text: &str) -> (r: Result<Vec<DayZServer>, FetchError>)
    ensures
        match json_of_text(text@) {
            Err(d) => match r {
                Err(FetchError::InvalidJson { detail, body }) => detail@ == d && body@ == body_excerpt_of(text@),
                _ => false,
            },
            Ok(root) => match response_servers(root) {
                Ok(v) => match r {
                    Ok(w) => server_views(w@) == v,
                    _ => false,
                },
                Err(_) => r matches Err(FetchError::MissingData),
            },
        },
{
    match parse_json(text) {
        Err(detail) => Err(FetchError::InvalidJson { detail, body: body_excerpt(text) }),
        Ok(root) => match servers_from_response(&root) {
            Ok(v) => Ok(v),
            Err(_) => Err(FetchError::MissingData),
        },
    }
}

} // verus!
