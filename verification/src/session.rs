//! The decisions of the launcher's window: what fetching, receiving the
//! server list and pings, choosing a server and starting the game do to the
//! window's state and status line. The window performs the work (network,
//! disk, processes) and reports back through these transitions.
use vstd::prelude::*;
use crate::profile::{PlayerProfile, is_default_profile};
use crate::server::{DayZServer, ServerFilters, ServerView, server_views, with_ping, apply_pings, filtered_indices, matching_positions};
use crate::text::{decimal, push_decimal, concat_str};

verus! {

/// The tabs of the window.
#[derive(Clone, Copy, Debug, PartialEq, Eq, Structural)]
pub enum Tab {
    Servers,
    Profile,
    Settings,
    Updates,
}

/// What an edit of the search text asks for.
#[derive(Clone, Copy, Debug, PartialEq, Eq, Structural)]
pub enum SearchAction {
    /// Fetch the list at once (the search text was cleared).
    FetchNow,
    /// Fetch once the text has rested for a moment.
    Debounce,
}

/// The state of the launcher's window.
pub struct LauncherState {
    pub profile: PlayerProfile,
    pub filters: ServerFilters,
    pub active_tab: Tab,
    pub servers: Vec<DayZServer>,
    /// Position in `servers` of the chosen server.
    pub selected_server: Option<usize>,
    pub status_message: String,
    /// Whether the list is being fetched.
    pub servers_loading: bool,
    /// Whether pings are being measured.
    pub pinging: bool,
    /// The search text of the last fetch.
    pub last_fetched_query: String,
}

/// How many of the servers have a known ping.
pub open spec fn pinged_count(servers: Seq<ServerView>) -> nat
    decreases servers.len(),
{
    if servers.len() == 0 {
        0
    } else {
        pinged_count(servers.drop_last()) + if servers.last().ping_ms is Some {
            1nat
        } else {
            0nat
        }
    }
}

/// Status line while the list is fetched for `query`.
pub open spec fn fetching_message(query: Seq<char>) -> Seq<char> {
    if query.len() == 0 {
        "⟳ Pobieranie listy serwerów z BattleMetrics..."@
    } else {
        "⟳ Szukanie serwerów: \""@ + query + "\"..."@
    }
}

/// Status line once `n` servers arrived and are being pinged.
pub open spec fn loaded_message(n: nat) -> Seq<char> {
    "✓ Załadowano "@ + decimal(n) + " serwerów. Pomiar pingu..."@
}

/// Status line when fetching the list failed with `e`.
pub open spec fn fetch_failed_message(e: Seq<char>) -> Seq<char> {
    "✗ Błąd pobierania serwerów: "@ + e
}

/// Status line once the pings of `n` servers arrived, `k` of which answered.
pub open spec fn pinged_message(n: nat, k: nat) -> Seq<char> {
    "✓ Załadowano "@ + decimal(n) + " serwerów — "@ + decimal(k) + " odpowiedziało na ping."@
}

/// Status line once a server is chosen.
pub open spec fn selected_message(name: Seq<char>, ip: Seq<char>) -> Seq<char> {
    "Wybrano: "@ + name + " | "@ + ip
}

/// Status line after an attempt to start the game on the server `name`.
pub open spec fn launch_message(name: Seq<char>, result: Result<(), Seq<char>>) -> Seq<char> {
    match result {
        Ok(_) => "✓ Uruchamianie: "@ + name,
        Err(e) => "✗ Błąd: "@ + e,
    }
}

/// The view of a `Result<(), String>`.
pub open spec fn result_view(r: Result<(), String>) -> Result<(), Seq<char>> {
    match r {
        Ok(_) => Ok(()),
        Err(e) => Err(e@),
    }
}

impl LauncherState {
    /// A chosen server is one of the list, and none is chosen while the
    /// list is being fetched.
    pub open spec fn wf(&self) -> bool {
        &&& (self.selected_server matches Some(i) ==> i < self.servers@.len())
        &&& (self.servers_loading ==> self.selected_server is None)
    }

    /// The window at start: the given profile, no servers, default filters,
    /// the servers tab.
    pub fn new(profile: PlayerProfile) -> (s: Self)
        ensures
            s.wf(),
            s.profile == profile,
            s.servers@.len() == 0,
            s.selected_server is None,
            !s.servers_loading,
            !s.pinging,
            s.active_tab == Tab::Servers,
            s.status_message@ == "Pobieranie listy serwerów..."@,
            s.filters.search_query@.len() == 0,
            !s.filters.hide_full,
            !s.filters.only_compatible_mods,
            s.filters.max_ping is None,
            s.filters.server_type is None,
            s.filters.map_filter@.len() == 0,
            s.last_fetched_query@.len() == 0,
    {
        LauncherState {
            profile,
            filters: ServerFilters::default(),
            active_tab: Tab::Servers,
            servers: Vec::new(),
            selected_server: None,
            status_message: String::from_str("Pobieranie listy serwerów..."),
            servers_loading: false,
            pinging: false,
            last_fetched_query: String::new(),
        }
    }

    /// Starts fetching the list: returns the search text to fetch with,
    /// clears the choice and shows what is fetched.
    pub fn begin_fetch(&mut self) -> (query: String)
        ensures
            final(self).wf(),
            query@ == old(self).filters.search_query@,
            final(self).last_fetched_query@ == query@,
            final(self).servers_loading,
            final(self).selected_server is None,
            final(self).status_message@ == fetching_message(query@),
            final(self).servers@ == old(self).servers@,
            final(self).pinging == old(self).pinging,
            final(self).profile == old(self).profile,
            final(self).filters == old(self).filters,
            final(self).active_tab == old(self).active_tab,
    {
        let query = self.filters.search_query.clone();
        self.last_fetched_query = query.clone();
        self.servers_loading = true;
        self.selected_server = None;
        if query.unicode_len() == 0 {
            self.status_message = String::from_str("⟳ Pobieranie listy serwerów z BattleMetrics...");
        } else {
            let mut m = String::from_str("⟳ Szukanie serwerów: \"");
            m.append(query.as_str());
            m.append("\"...");
            self.status_message = m;
        }
        query
    }

    /// The fetched list arrived: on success it becomes the list and its
    /// pings are to be measured (the answer is `true`); on failure the
    /// error is shown and the list stays.
    pub fn servers_received(&mut self, result: Result<Vec<DayZServer>, String>) -> (start_ping: bool)
        requires
            old(self).wf(),
            old(self).servers_loading,
        ensures
            final(self).wf(),
            !final(self).servers_loading,
            final(self).selected_server is None,
            final(self).profile == old(self).profile,
            final(self).filters == old(self).filters,
            final(self).active_tab == old(self).active_tab,
            final(self).last_fetched_query@ == old(self).last_fetched_query@,
            match result {
                Ok(v) => start_ping && final(self).servers@ == v@ && final(self).pinging
                    && final(self).status_message@ == loaded_message(v@.len()),
                Err(e) => !start_ping && final(self).servers@ == old(self).servers@
                    && final(self).pinging == old(self).pinging
                    && final(self).status_message@ == fetch_failed_message(e@),
            },
    {
        self.servers_loading = false;
        match result {
            Ok(servers) => {
                let n = servers.len();
                self.servers = servers;
                let mut m = String::from_str("✓ Załadowano ");
                push_decimal(&mut m, n as u64);
                m.append(" serwerów. Pomiar pingu...");
                self.status_message = m;
                self.pinging = true;
                true
            },
            Err(e) => {
                self.status_message = concat_str("✗ Błąd pobierania serwerów: ", e.as_str());
                false
            },
        }
    }

    /// The measured pings arrived: the i-th goes to the i-th server, and
    /// the status line counts the servers that answered.
    pub fn pings_received(&mut self, pings: Vec<Option<u32>>)
        requires
            old(self).wf(),
        ensures
            final(self).wf(),
            !final(self).pinging,
            final(self).servers@.len() == old(self).servers@.len(),
            forall|i: int|
                0 <= i < old(self).servers@.len() ==> (#[trigger] final(self).servers@[i])@ == (
                if i < pings@.len() {
                    with_ping(old(self).servers@[i]@, pings@[i])
                } else {
                    old(self).servers@[i]@
                }),
            final(self).status_message@ == pinged_message(
                final(self).servers@.len(),
                pinged_count(server_views(final(self).servers@)),
            ),
            final(self).selected_server == old(self).selected_server,
            final(self).servers_loading == old(self).servers_loading,
            final(self).profile == old(self).profile,
            final(self).filters == old(self).filters,
            final(self).active_tab == old(self).active_tab,
            final(self).last_fetched_query@ == old(self).last_fetched_query@,
    {
        apply_pings(&mut self.servers, &pings);
        self.pinging = false;
        let mut responded: usize = 0;
        let mut i: usize = 0;
        while i < self.servers.len()
            invariant
                i <= self.servers@.len(),
                responded <= i,
                responded == pinged_count(server_views(self.servers@.take(i as int))),
            decreases self.servers.len() - i,
        {
            assert(server_views(self.servers@.take(i + 1)).drop_last() =~= server_views(self.servers@.take(i as int)));
            if self.servers[i].ping_ms.is_some() {
                responded = responded + 1;
            }
            i = i + 1;
        }
        assert(self.servers@.take(self.servers@.len() as int) =~= self.servers@);
        let mut m = String::from_str("✓ Załadowano ");
        push_decimal(&mut m, self.servers.len() as u64);
        m.append(" serwerów — ");
        push_decimal(&mut m, responded as u64);
        m.append(" odpowiedziało na ping.");
        self.status_message = m;
    }

    /// What an edit of the search text asks for: an immediate fetch when
    /// the text is now empty, a delayed one otherwise.
    pub fn search_edited(&self) -> (a: SearchAction)
        ensures
            (a == SearchAction::FetchNow) == (self.filters.search_query@.len() == 0),
    {
        if self.filters.search_query.unicode_len() == 0 {
            SearchAction::FetchNow
        } else {
            SearchAction::Debounce
        }
    }

    /// The positions of the servers the list shows, in order.
    pub fn visible_servers(&self) -> (r: Vec<usize>)
        ensures
            r@ == matching_positions(server_views(self.servers@), self.filters, self.servers@.len() as int),
    {
        filtered_indices(&self.servers, &self.filters)
    }

    /// Chooses the server at `idx` of the list and names it in the status line.
    pub fn select_server(&mut self, idx: usize)
        requires
            old(self).wf(),
            !old(self).servers_loading,
            idx < old(self).servers@.len(),
        ensures
            final(self).wf(),
            final(self).selected_server == Some(idx),
            final(self).status_message@ == selected_message(
                old(self).servers@[idx as int].name@,
                old(self).servers@[idx as int].ip@,
            ),
            final(self).servers@ == old(self).servers@,
            final(self).servers_loading == old(self).servers_loading,
            final(self).pinging == old(self).pinging,
            final(self).profile == old(self).profile,
            final(self).filters == old(self).filters,
            final(self).active_tab == old(self).active_tab,
            final(self).last_fetched_query@ == old(self).last_fetched_query@,
    {
        self.selected_server = Some(idx);
        let mut m = String::from_str("Wybrano: ");
        m.append(self.servers[idx].name.as_str());
        m.append(" | ");
        m.append(self.servers[idx].ip.as_str());
        self.status_message = m;
    }

    /// Starts a game launch: without a chosen server, asks for one and
    /// answers `None`; otherwise records the server as the last one, counts
    /// the launch and answers its position.
    pub fn begin_launch(&mut self) -> (r: Option<usize>)
        requires
            old(self).wf(),
            old(self).selected_server is Some ==> old(self).profile.total_launches < u32::MAX,
        ensures
            final(self).wf(),
            r == old(self).selected_server,
            final(self).servers@ == old(self).servers@,
            final(self).selected_server == old(self).selected_server,
            final(self).servers_loading == old(self).servers_loading,
            final(self).pinging == old(self).pinging,
            final(self).filters == old(self).filters,
            final(self).active_tab == old(self).active_tab,
            final(self).last_fetched_query@ == old(self).last_fetched_query@,
            match r {
                None => final(self).profile == old(self).profile
                    && final(self).status_message@ == "⚠ Wybierz serwer przed uruchomieniem!"@,
                Some(i) => {
                    &&& final(self).profile == (PlayerProfile {
                        last_server: final(self).profile.last_server,
                        total_launches: final(self).profile.total_launches,
                        ..old(self).profile
                    })
                    &&& final(self).profile.last_server.deep_view() == Some(
                        old(self).servers@[i as int].ip@,
                    )
                    &&& final(self).profile.total_launches == old(self).profile.total_launches + 1
                    &&& final(self).status_message@ == old(self).status_message@
                },
            },
    {
        match self.selected_server {
            None => {
                self.status_message = String::from_str("⚠ Wybierz serwer przed uruchomieniem!");
                None
            },
            Some(idx) => {
                self.profile.last_server = Some(self.servers[idx].ip.clone());
                self.profile.total_launches = self.profile.total_launches + 1;
                Some(idx)
            },
        }
    }

    /// The attempt to start the game on the server `server_name` ended:
    /// shows the outcome and answers whether the launcher closes now (only
    /// after a start, when the settings ask for it).
    pub fn launch_finished(&mut self, server_name: &str, result: Result<(), String>) -> (close: bool)
        requires
            old(self).wf(),
        ensures
            final(self).wf(),
            final(self).status_message@ == launch_message(server_name@, result_view(result)),
            close == (result is Ok && old(self).profile.launcher_settings.close_on_launch),
            final(self).servers@ == old(self).servers@,
            final(self).selected_server == old(self).selected_server,
            final(self).servers_loading == old(self).servers_loading,
            final(self).pinging == old(self).pinging,
            final(self).profile == old(self).profile,
            final(self).filters == old(self).filters,
            final(self).active_tab == old(self).active_tab,
            final(self).last_fetched_query@ == old(self).last_fetched_query@,
    {
        match result {
            Ok(_) => {
                self.status_message = concat_str("✓ Uruchamianie: ", server_name);
                self.profile.launcher_settings.close_on_launch
            },
            Err(e) => {
                self.status_message = concat_str("✗ Błąd: ", e.as_str());
                false
            },
        }
    }
}

/// Status line after saving the profile from the profile tab.
pub open spec fn profile_saved_message(result: Result<(), Seq<char>>) -> Seq<char> {
    match result {
        Ok(_) => "✓ Profil zapisany."@,
        Err(e) => "✗ Błąd: "@ + e,
    }
}

/// Status line after saving the profile from the settings tab.
pub open spec fn settings_saved_message(result: Result<(), Seq<char>>) -> Seq<char> {
    match result {
        Ok(_) => "✓ Ustawienia zapisane."@,
        Err(e) => "✗ "@ + e,
    }
}

impl LauncherState {
    /// Shows the outcome of saving the profile from the profile tab.
    pub fn profile_saved(&mut self, result: Result<(), String>)
        ensures
            final(self).status_message@ == profile_saved_message(result_view(result)),
            final(self).servers == old(self).servers,
            final(self).selected_server == old(self).selected_server,
            final(self).servers_loading == old(self).servers_loading,
            final(self).pinging == old(self).pinging,
            final(self).profile == old(self).profile,
            final(self).filters == old(self).filters,
            final(self).active_tab == old(self).active_tab,
            final(self).last_fetched_query == old(self).last_fetched_query,
    {
        match result {
            Ok(_) => {
                self.status_message = String::from_str("✓ Profil zapisany.");
            },
            Err(e) => {
                self.status_message = concat_str("✗ Błąd: ", e.as_str());
            },
        }
    }

    /// Shows the outcome of saving the profile from the settings tab.
    pub fn settings_saved(&mut self, result: Result<(), String>)
        ensures
            final(self).status_message@ == settings_saved_message(result_view(result)),
            final(self).servers == old(self).servers,
            final(self).selected_server == old(self).selected_server,
            final(self).servers_loading == old(self).servers_loading,
            final(self).pinging == old(self).pinging,
            final(self).profile == old(self).profile,
            final(self).filters == old(self).filters,
            final(self).active_tab == old(self).active_tab,
            final(self).last_fetched_query == old(self).last_fetched_query,
    {
        match result {
            Ok(_) => {
                self.status_message = String::from_str("✓ Ustawienia zapisane.");
            },
            Err(e) => {
                self.status_message = concat_str("✗ ", e.as_str());
            },
        }
    }

    /// Opening the game folder failed with `error`.
    pub fn folder_open_failed(&mut self, error: &str)
        ensures
            final(self).status_message@ == "Błąd: "@ + error@,
            final(self).servers == old(self).servers,
            final(self).selected_server == old(self).selected_server,
            final(self).servers_loading == old(self).servers_loading,
            final(self).pinging == old(self).pinging,
            final(self).profile == old(self).profile,
            final(self).filters == old(self).filters,
            final(self).active_tab == old(self).active_tab,
            final(self).last_fetched_query == old(self).last_fetched_query,
    {
        self.status_message = concat_str("Błąd: ", error);
    }

    /// Puts the profile back to the defaults, with the game looked for in
    /// `game_path`.
    pub fn reset_profile(&mut self, game_path: String)
        ensures
            is_default_profile(final(self).profile, game_path@),
            final(self).status_message@ == "Profil przywrócony do domyślnych."@,
            final(self).servers == old(self).servers,
            final(self).selected_server == old(self).selected_server,
            final(self).servers_loading == old(self).servers_loading,
            final(self).pinging == old(self).pinging,
            final(self).filters == old(self).filters,
            final(self).active_tab == old(self).active_tab,
            final(self).last_fetched_query == old(self).last_fetched_query,
    {
        self.profile = PlayerProfile::with_game_path(game_path);
        self.status_message = String::from_str("Profil przywrócony do domyślnych.");
    }
}

/// How long, in milliseconds, the search text must rest before it is
/// fetched.
pub open spec fn search_rest_ms() -> u128 {
    500
}

/// Whether a search text that has rested for `elapsed_ms` milliseconds is
/// fetched now (after half a second).
pub fn search_due(elapsed_ms: u128) -> (r: bool)
    ensures
        r == (elapsed_ms >= search_rest_ms()),
{
    elapsed_ms >= 500
}

/// The ping column of a row: "<n> ms", or "—" when unknown.
pub open spec fn ping_text(ping: Option<u32>) -> Seq<char> {
    match ping {
        Some(p) => decimal(p as nat) + " ms"@,
        None => "—"@,
    }
}

/// The ping column of a row.
pub fn ping_label(ping: Option<u32>) -> (r: String)
    ensures
        r@ == ping_text(ping),
{
    match ping {
        Some(p) => {
            let mut r = String::new();
            push_decimal(&mut r, p as u64);
            r.append(" ms");
            r
        },
        None => String::from_str("—"),
    }
}

/// The mods column of a row: "Brak" without mods, else their number.
pub fn mods_label(server: &DayZServer) -> (r: String)
    ensures
        r@ == if server.mods@.len() == 0 {
            "Brak"@
        } else {
            decimal(server.mods@.len())
        },
{
    if server.mods.len() == 0 {
        String::from_str("Brak")
    } else {
        let mut r = String::new();
        push_decimal(&mut r, server.mods.len() as u64);
        r
    }
}

/// The players column of a row: "<players>/<max>".
pub fn players_label(server: &DayZServer) -> (r: String)
    ensures
        r@ == decimal(server.players as nat) + "/"@ + decimal(server.max_players as nat),
{
    let mut r = String::new();
    push_decimal(&mut r, server.players as u64);
    r.append("/");
    push_decimal(&mut r, server.max_players as u64);
    r
}

/// The line under the list: how many servers are shown out of how many.
pub fn shown_count_label(shown: usize, total: usize) -> (r: String)
    ensures
        r@ == "Wyświetlono "@ + decimal(shown as nat) + " z "@ + decimal(total as nat) + " serwerów"@,
{
    let mut r = String::from_str("Wyświetlono ");
    push_decimal(&mut r, shown as u64);
    r.append(" z ");
    push_decimal(&mut r, total as u64);
    r.append(" serwerów");
    r
}

} // verus!
