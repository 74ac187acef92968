//! The player's profile: display name, game location, favorite servers,
//! game and launcher settings, and the command line the game is started with.
use vstd::prelude::*;
use crate::paths::{path_join, path_exists, home_dir, config_dir, free_of_drive_markers, free_of_separators, is_relative_text, is_last_component, ends_with, looks_verbatim, joined, lemma_joined_not_verbatim};
use crate::text::{concat_str, concat_decimal, decimal, split_whitespace, split_ws, str_eq, well_formed_words, lemma_split_ws_words};

verus! {

/// Language the game is started in.
#[derive(Clone, Copy, Debug, PartialEq, Eq, Structural)]
pub enum GameLanguage {
    Polish,
    English,
    German,
    Czech,
}

/// The languages in the order the settings offer them.
pub open spec fn all_languages() -> Seq<GameLanguage> {
    seq![GameLanguage::Polish, GameLanguage::English, GameLanguage::German, GameLanguage::Czech]
}

/// The name of a language as the settings show it.
pub open spec fn language_label(l: GameLanguage) -> Seq<char> {
    match l {
        GameLanguage::Polish => "Polski"@,
        GameLanguage::English => "English"@,
        GameLanguage::German => "Deutsch"@,
        GameLanguage::Czech => "Čeština"@,
    }
}

/// The value of the game's `-language=` parameter for a language.
pub open spec fn language_code(l: GameLanguage) -> Seq<char> {
    match l {
        GameLanguage::Polish => "Polish"@,
        GameLanguage::English => "English"@,
        GameLanguage::German => "German"@,
        GameLanguage::Czech => "Czech"@,
    }
}

impl GameLanguage {
    /// Every language, in the order the settings offer them.
    pub fn all() -> (r: &'static [GameLanguage])
        ensures
            r@ == all_languages(),
    {
        let r: &'static [GameLanguage] = &[
            GameLanguage::Polish,
            GameLanguage::English,
            GameLanguage::German,
            GameLanguage::Czech,
        ];
        assert(r@ =~= all_languages());
        r
    }

    /// The name of this language as the settings show it.
    pub fn label(&self) -> (r: &str)
        ensures
            r@ == language_label(*self),
    {
        match self {
            GameLanguage::Polish => "Polski",
            GameLanguage::English => "English",
            GameLanguage::German => "Deutsch",
            GameLanguage::Czech => "Čeština",
        }
    }

    /// The value given to the game's `-language=` parameter.
    pub fn launch_code(&self) -> (r: &str)
        ensures
            r@ == language_code(*self),
    {
        match self {
            GameLanguage::Polish => "Polish",
            GameLanguage::English => "English",
            GameLanguage::German => "German",
            GameLanguage::Czech => "Czech",
        }
    }
}

/// Color scheme of the launcher.
#[derive(Clone, Copy, Debug, PartialEq, Eq, Structural)]
pub enum ThemeChoice {
    Dark,
    Light,
}

/// Settings of the game itself (its command-line parameters).
#[derive(Clone, Debug)]
pub struct GameSettings {
    /// Threads the game may use (0 = chosen by the game).
    pub cpu_count: u8,
    pub file_patching: bool,
    pub show_script_errors: bool,
    /// Further parameters, separated by whitespace.
    pub extra_launch_params: String,
    pub language: GameLanguage,
}

impl Default for GameSettings {
    fn default() -> (r: Self)
        ensures
            r.cpu_count == 0,
            !r.file_patching,
            !r.show_script_errors,
            r.extra_launch_params@.len() == 0,
            r.language == GameLanguage::Polish,
    {
        GameSettings {
            cpu_count: 0,
            file_patching: false,
            show_script_errors: false,
            extra_launch_params: String::new(),
            language: GameLanguage::Polish,
        }
    }
}

/// Settings of the launcher.
#[derive(Clone, Copy, Debug, PartialEq, Eq, Structural)]
pub struct LauncherSettings {
    pub close_on_launch: bool,
    pub auto_check_updates: bool,
    pub minimize_to_tray: bool,
    pub theme: ThemeChoice,
}

impl Default for LauncherSettings {
    fn default() -> (r: Self)
        ensures
            r == (LauncherSettings {
                close_on_launch: false,
                auto_check_updates: true,
                minimize_to_tray: false,
                theme: ThemeChoice::Dark,
            }),
    {
        LauncherSettings {
            close_on_launch: false,
            auto_check_updates: true,
            minimize_to_tray: false,
            theme: ThemeChoice::Dark,
        }
    }
}

/// The player's profile.
#[derive(Clone, Debug)]
pub struct PlayerProfile {
    /// Name shown in the launcher.
    pub display_name: String,
    /// Directory the game is installed in.
    pub game_path: String,
    /// Address of the server last launched.
    pub last_server: Option<String>,
    /// Addresses of the favorite servers.
    pub favorite_servers: Vec<String>,
    pub game_settings: GameSettings,
    pub launcher_settings: LauncherSettings,
    /// How many times the game was started from the launcher.
    pub total_launches: u32,
}

/// The profile a new player starts with, given the game directory.
pub open spec fn is_default_profile(p: PlayerProfile, game_path: Seq<char>) -> bool {
    &&& p.display_name@ == "Ocalały"@
    &&& p.game_path@ == game_path
    &&& p.last_server is None
    &&& p.favorite_servers@.len() == 0
    &&& p.game_settings.cpu_count == 0
    &&& !p.game_settings.file_patching
    &&& !p.game_settings.show_script_errors
    &&& p.game_settings.extra_launch_params@.len() == 0
    &&& p.game_settings.language == GameLanguage::Polish
    &&& p.launcher_settings == LauncherSettings {
        close_on_launch: false,
        auto_check_updates: true,
        minimize_to_tray: false,
        theme: ThemeChoice::Dark,
    }
    &&& p.total_launches == 0
}

/// Where Steam keeps DayZ under a home directory.
pub open spec fn steam_game_subpath() -> Seq<char> {
    ".steam/steam/steamapps/common/DayZ"@
}

/// The relative paths the profile's paths are built from, and their last
/// components.
proof fn lemma_relative_paths()
    ensures
        is_relative_text(steam_game_subpath()),
        is_relative_text("dayz-launcher"@),
        is_relative_text("profile.json"@),
        is_relative_text("DayZ_x64.exe"@),
        is_last_component(steam_game_subpath(), "DayZ"@),
        is_last_component("dayz-launcher"@, "dayz-launcher"@),
        is_last_component("profile.json"@, "profile.json"@),
        is_last_component("DayZ_x64.exe"@, "DayZ_x64.exe"@),
{
    reveal_with_fuel(free_of_drive_markers, 40);
    reveal_with_fuel(free_of_separators, 16);
    assert(is_last_component(steam_game_subpath(), "DayZ"@)) by {
        reveal_strlit(".steam/steam/steamapps/common/DayZ");
        reveal_strlit("DayZ");
        assert(steam_game_subpath().subrange(30, 34) =~= "DayZ"@);
    }
    assert(is_last_component("dayz-launcher"@, "dayz-launcher"@)) by {
        reveal_strlit("dayz-launcher");
        assert("dayz-launcher"@.subrange(0, 13) =~= "dayz-launcher"@);
        assert(free_of_separators("dayz-launcher"@, 0));
    }
    assert(is_last_component("profile.json"@, "profile.json"@)) by {
        reveal_strlit("profile.json");
        assert("profile.json"@.subrange(0, 12) =~= "profile.json"@);
        assert(free_of_separators("profile.json"@, 0));
    }
    assert(is_last_component("DayZ_x64.exe"@, "DayZ_x64.exe"@)) by {
        reveal_strlit("DayZ_x64.exe");
        assert("DayZ_x64.exe"@.subrange(0, 12) =~= "DayZ_x64.exe"@);
        assert(free_of_separators("DayZ_x64.exe"@, 0));
    }
    assert(is_relative_text(steam_game_subpath())) by {
        reveal_strlit(".steam/steam/steamapps/common/DayZ");
    }
    assert(is_relative_text("dayz-launcher"@)) by {
        reveal_strlit("dayz-launcher");
    }
    assert(is_relative_text("profile.json"@)) by {
        reveal_strlit("profile.json");
    }
    assert(is_relative_text("DayZ_x64.exe"@)) by {
        reveal_strlit("DayZ_x64.exe");
    }
}

/// The game directory Steam uses under a home directory:
/// `.steam/steam/steamapps/common/DayZ` joined to it.
pub fn steam_game_dir(home: &str) -> (r: String)
    ensures
        !looks_verbatim(home@) ==> joined(home@, steam_game_subpath(), r@),
        ends_with(r@, "DayZ"@),
{
    proof {
        lemma_relative_paths();
    }
    path_join(home, ".steam/steam/steamapps/common/DayZ")
}

/// Where the game is looked for by default: Steam's library under the
/// home directory, or `./DayZ` when no home directory is known.
pub fn default_game_path_from(home: Option<String>) -> (r: String)
    ensures
        match home {
            Some(h) => (!looks_verbatim(h@) ==> joined(h@, steam_game_subpath(), r@)) && ends_with(
                r@,
                "DayZ"@,
            ),
            None => r@ == "./DayZ"@,
        },
{
    match home {
        Some(h) => steam_game_dir(h.as_str()),
        None => String::from_str("./DayZ"),
    }
}

/// The default game directory for the current user outside Windows: the
/// Steam library under the home directory the environment gives (`./DayZ`
/// without one). The environment decides the directory, so of the result
/// it is stated that it is the `DayZ` folder; `default_game_path_from`
/// states the rule.
pub fn default_game_path() -> (r: String)
    ensures
        ends_with(r@, "DayZ"@),
{
    proof {
        reveal_strlit("./DayZ");
        reveal_strlit("DayZ");
        assert("./DayZ"@.subrange(2, 6) =~= "DayZ"@);
    }
    default_game_path_from(home_dir())
}

/// Where Steam installs DayZ on Windows, in the order they are probed.
pub open spec fn windows_game_paths() -> Seq<Seq<char>> {
    seq![
        "C:\\Program Files (x86)\\Steam\\steamapps\\common\\DayZ"@,
        "C:\\Program Files\\Steam\\steamapps\\common\\DayZ"@,
        "D:\\Steam\\steamapps\\common\\DayZ"@,
    ]
}

/// The Windows game directory given which of the candidates exist: the
/// first that exists, else the first candidate.
pub open spec fn windows_game_path_given(exists: Seq<bool>) -> Seq<char> {
    if exists[0] {
        windows_game_paths()[0]
    } else if exists[1] {
        windows_game_paths()[1]
    } else if exists[2] {
        windows_game_paths()[2]
    } else {
        windows_game_paths()[0]
    }
}

/// The Windows game directory, given for each of the three usual Steam
/// libraries whether it exists.
pub fn windows_game_path_from(exists: &Vec<bool>) -> (r: String)
    requires
        exists@.len() == 3,
    ensures
        r@ == windows_game_path_given(exists@),
{
    if exists[0] {
        String::from_str("C:\\Program Files (x86)\\Steam\\steamapps\\common\\DayZ")
    } else if exists[1] {
        String::from_str("C:\\Program Files\\Steam\\steamapps\\common\\DayZ")
    } else if exists[2] {
        String::from_str("D:\\Steam\\steamapps\\common\\DayZ")
    } else {
        String::from_str("C:\\Program Files (x86)\\Steam\\steamapps\\common\\DayZ")
    }
}

/// The default game directory on Windows: the first of the usual Steam
/// libraries that exists on disk, else the first of them. The disk decides
/// which; the result is always one of the three.
pub fn windows_default_game_path() -> (r: String)
    ensures
        exists|i: int| 0 <= i < 3 && r@ == #[trigger] windows_game_paths()[i],
{
    let mut exists: Vec<bool> = Vec::new();
    exists.push(path_exists("C:\\Program Files (x86)\\Steam\\steamapps\\common\\DayZ"));
    exists.push(path_exists("C:\\Program Files\\Steam\\steamapps\\common\\DayZ"));
    exists.push(path_exists("D:\\Steam\\steamapps\\common\\DayZ"));
    let r = windows_game_path_from(&exists);
    assert(r@ == windows_game_paths()[0] || r@ == windows_game_paths()[1] || r@ == windows_game_paths()[2]);
    r
}

/// `r` is the profile file under the configuration directory `base`:
/// `base`, then `dayz-launcher`, then `profile.json`, each joined.
pub open spec fn config_file_at(base: Seq<char>, r: Seq<char>) -> bool {
    exists|dir: Seq<char>| #[trigger] joined(base, "dayz-launcher"@, dir) && joined(dir, "profile.json"@, r)
}

/// The configuration directory a profile path is built from: the one
/// given, else `.`.
pub open spec fn config_base(base: Option<Seq<char>>) -> Seq<char> {
    match base {
        Some(d) => d,
        None => "."@,
    }
}

/// The view of an optional string.
pub open spec fn opt_view(s: Option<String>) -> Option<Seq<char>> {
    match s {
        Some(x) => Some(x@),
        None => None,
    }
}

/// `r` is where the profile is stored when the configuration directory is
/// `base` (`None` when there is none); nothing is stated for a directory
/// that looks like a verbatim Windows path.
pub open spec fn config_path_for(base: Option<Seq<char>>, r: Seq<char>) -> bool {
    looks_verbatim(config_base(base)) || config_file_at(config_base(base), r)
}

impl Default for PlayerProfile {
    fn default() -> (r: Self)
        ensures
            is_default_profile(r, r.game_path@),
            ends_with(r.game_path@, "DayZ"@),
    {
        PlayerProfile::with_game_path(default_game_path())
    }
}

/// The favorites after toggling `ip`: its first occurrence removed if it is
/// there, otherwise `ip` added at the end.
pub open spec fn toggled(favorites: Seq<Seq<char>>, ip: Seq<char>) -> Seq<Seq<char>> {
    match favorites.index_of_first(ip) {
        Some(i) => favorites.remove(i),
        None => favorites.push(ip),
    }
}

/// The optional flags of the game's command line.
pub open spec fn optional_args(s: GameSettings) -> Seq<Seq<char>> {
    (if s.file_patching { seq!["-filePatching"@] } else { Seq::empty() }) + (if s.show_script_errors {
        seq!["-showScriptErrors"@]
    } else {
        Seq::empty()
    }) + (if s.cpu_count > 0 {
        seq!["-cpuCount="@ + decimal(s.cpu_count as nat)]
    } else {
        Seq::empty()
    })
}

/// The command line the game is started with to join `ip` on `port`.
pub open spec fn launch_args(s: GameSettings, ip: Seq<char>, port: u16) -> Seq<Seq<char>> {
    seq![
        "-connect="@ + ip,
        "-port="@ + decimal(port as nat),
        "-language="@ + language_code(s.language),
    ] + optional_args(s) + split_ws(s.extra_launch_params@)
}

impl PlayerProfile {
    /// The default profile with the game in `game_path`.
    pub fn with_game_path(game_path: String) -> (r: Self)
        ensures
            is_default_profile(r, game_path@),
    {
        PlayerProfile {
            display_name: String::from_str("Ocalały"),
            game_path,
            last_server: None,
            favorite_servers: Vec::new(),
            game_settings: GameSettings::default(),
            launcher_settings: LauncherSettings::default(),
            total_launches: 0,
        }
    }

    /// Where the profile is stored when the configuration directory is
    /// `base`: `dayz-launcher/profile.json` under it, or under `.` when
    /// there is none.
    pub fn config_path_in(base: Option<String>) -> (r: String)
        ensures
            config_path_for(opt_view(base), r@),
            ends_with(r@, "profile.json"@),
    {
        proof {
            lemma_relative_paths();
            reveal_strlit(".");
        }
        let b = match base {
            Some(d) => d,
            None => String::from_str("."),
        };
        let dir = path_join(b.as_str(), "dayz-launcher");
        let r = path_join(dir.as_str(), "profile.json");
        proof {
            if !looks_verbatim(b@) {
                lemma_joined_not_verbatim(b@, "dayz-launcher"@, dir@);
                assert(joined(b@, "dayz-launcher"@, dir@) && joined(dir@, "profile.json"@, r@));
            }
        }
        r
    }

    /// Where the profile is stored: `dayz-launcher/profile.json` under the
    /// user's configuration directory (`%APPDATA%` on Windows, `~/.config`
    /// on Linux), or under `.` when there is none. The environment decides
    /// the directory; `config_path_in` states the rule for each.
    pub fn config_path() -> (r: String)
        ensures
            ends_with(r@, "profile.json"@),
    {
        PlayerProfile::config_path_in(config_dir())
    }

    /// The game's executable inside the game directory.
    pub fn game_exe_path(&self) -> (r: String)
        ensures
            !looks_verbatim(self.game_path@) ==> joined(self.game_path@, "DayZ_x64.exe"@, r@),
            ends_with(r@, "DayZ_x64.exe"@),
    {
        proof {
            lemma_relative_paths();
        }
        path_join(self.game_path.as_str(), "DayZ_x64.exe")
    }

    /// Whether `DayZ_x64.exe` is found in the game directory. What is on
    /// disk decides; only the path asked about is fixed.
    pub fn is_game_path_valid(&self) -> bool {
        let exe = self.game_exe_path();
        path_exists(exe.as_str())
    }

    /// Adds `server_ip` to the favorites, or removes it when it is one
    /// already; nothing else in the profile changes.
    pub fn toggle_favorite(&mut self, server_ip: &str)
        ensures
            final(self).favorite_servers.deep_view() == toggled(
                old(self).favorite_servers.deep_view(),
                server_ip@,
            ),
            final(self).display_name == old(self).display_name,
            final(self).game_path == old(self).game_path,
            final(self).last_server == old(self).last_server,
            final(self).game_settings == old(self).game_settings,
            final(self).launcher_settings == old(self).launcher_settings,
            final(self).total_launches == old(self).total_launches,
    {
        let ghost favs = self.favorite_servers.deep_view();
        let mut i: usize = 0;
        while i < self.favorite_servers.len()
            invariant
                *self == *old(self),
                self.favorite_servers.deep_view() == favs,
                i <= favs.len(),
                forall|j: int| 0 <= j < i ==> favs[j] != server_ip@,
            decreases self.favorite_servers.len() - i,
        {
            if str_eq(self.favorite_servers[i].as_str(), server_ip) {
                assert(favs[i as int] == server_ip@);
                proof {
                    favs.index_of_first_ensures(server_ip@);
                }
                assert(favs.index_of_first(server_ip@) == Some(i as int));
                self.favorite_servers.remove(i);
                assert(self.favorite_servers.deep_view() =~= favs.remove(i as int));
                return;
            }
            i = i + 1;
        }
        proof {
            favs.index_of_first_ensures(server_ip@);
        }
        self.favorite_servers.push(String::from_str(server_ip));
        assert(self.favorite_servers.deep_view() =~= favs.push(server_ip@));
    }

    /// Whether `server_ip` is one of the favorites.
    pub fn is_favorite(&self, server_ip: &str) -> (r: bool)
        ensures
            r == self.favorite_servers.deep_view().contains(server_ip@),
    {
        let mut i: usize = 0;
        while i < self.favorite_servers.len()
            invariant
                i <= self.favorite_servers@.len(),
                forall|j: int| 0 <= j < i ==> self.favorite_servers.deep_view()[j] != server_ip@,
            decreases self.favorite_servers.len() - i,
        {
            if str_eq(self.favorite_servers[i].as_str(), server_ip) {
                assert(self.favorite_servers.deep_view()[i as int] == server_ip@);
                return true;
            }
            i = i + 1;
        }
        false
    }

    /// The command line the game is started with to join `server_ip` on
    /// `server_port`: `-connect=`, `-port=` and `-language=`, then
    /// `-filePatching`, `-showScriptErrors` and `-cpuCount=` when set, then
    /// each whitespace-separated word of the extra parameters.
    pub fn build_launch_args(&self, server_ip: &str, server_port: u16) -> (args: Vec<String>)
        ensures
            args.deep_view() == launch_args(self.game_settings, server_ip@, server_port),
    {
        let mut args: Vec<String> = Vec::new();
        args.push(concat_str("-connect=", server_ip));
        args.push(concat_decimal("-port=", server_port as u64));
        args.push(concat_str("-language=", self.game_settings.language.launch_code()));
        let ghost head = args.deep_view();
        if self.game_settings.file_patching {
            args.push(String::from_str("-filePatching"));
        }
        if self.game_settings.show_script_errors {
            args.push(String::from_str("-showScriptErrors"));
        }
        if self.game_settings.cpu_count > 0 {
            args.push(concat_decimal("-cpuCount=", self.game_settings.cpu_count as u64));
        }
        assert(args.deep_view() =~= head + optional_args(self.game_settings));
        let ghost before = args.deep_view();
        let words = split_whitespace(self.game_settings.extra_launch_params.as_str());
        let mut i: usize = 0;
        while i < words.len()
            invariant
                i <= words@.len(),
                args.deep_view() == before + words.deep_view().take(i as int),
            decreases words.len() - i,
        {
            let w = words[i].clone();
            assert(w@ == words.deep_view()[i as int]);
            let ghost prev = args.deep_view();
            args.push(w);
            assert(args.deep_view() =~= prev.push(w@));
            assert(words.deep_view().take(i + 1) =~= words.deep_view().take(i as int).push(w@));
            i = i + 1;
        }
        assert(words.deep_view().take(words@.len() as int) =~= words.deep_view());
        assert(args.deep_view() =~= launch_args(self.game_settings, server_ip@, server_port));
        args
    }
}

/// Law: toggling a favorite keeps the favorites free of duplicates and
/// flips whether the address is among them.
pub proof fn lemma_toggle_flips(favorites: Seq<Seq<char>>, ip: Seq<char>)
    requires
        favorites.no_duplicates(),
    ensures
        toggled(favorites, ip).no_duplicates(),
        toggled(favorites, ip).contains(ip) == !favorites.contains(ip),
{
    favorites.index_of_first_ensures(ip);
    match favorites.index_of_first(ip) {
        Some(i) => {
            let t = favorites.remove(i);
            assert forall|a: int, b: int| 0 <= a < t.len() && 0 <= b < t.len() && a != b implies t[a] != t[b] by {
                let a0 = if a < i { a } else { a + 1 };
                let b0 = if b < i { b } else { b + 1 };
                assert(t[a] == favorites[a0]);
                assert(t[b] == favorites[b0]);
            }
            assert forall|k: int| 0 <= k < t.len() implies t[k] != ip by {
                let k0 = if k < i { k } else { k + 1 };
                assert(t[k] == favorites[k0]);
            }
        },
        None => {
            let t = favorites.push(ip);
            assert(t[favorites.len() as int] == ip);
        },
    }
}

/// Law: toggling an address that is not a favorite twice gives back the
/// very same list.
pub proof fn lemma_toggle_absent_twice(favorites: Seq<Seq<char>>, ip: Seq<char>)
    requires
        !favorites.contains(ip),
    ensures
        toggled(toggled(favorites, ip), ip) == favorites,
{
    favorites.index_of_first_ensures(ip);
    let t1 = toggled(favorites, ip);
    assert(t1 == favorites.push(ip));
    assert(t1[favorites.len() as int] == ip);
    t1.index_of_first_ensures(ip);
    assert(t1.index_of_first(ip) == Some(favorites.len() as int));
    assert(toggled(t1, ip) =~= favorites);
}

/// Law: toggling the same address twice gives back the same favorites as
/// a set.
pub proof fn lemma_toggle_twice(favorites: Seq<Seq<char>>, ip: Seq<char>)
    requires
        favorites.no_duplicates(),
    ensures
        toggled(toggled(favorites, ip), ip).to_set() == favorites.to_set(),
{
    lemma_toggle_flips(favorites, ip);
    let t1 = toggled(favorites, ip);
    let t2 = toggled(t1, ip);
    favorites.index_of_first_ensures(ip);
    t1.index_of_first_ensures(ip);
    if favorites.contains(ip) {
        let i = favorites.index_of_first(ip)->0;
        assert(t2 == t1.push(ip));
        assert forall|x: Seq<char>| t2.to_set().contains(x) == favorites.to_set().contains(x) by {
            if favorites.contains(x) {
                let k = choose|k: int| 0 <= k < favorites.len() && favorites[k] == x;
                if k < i {
                    assert(t2[k] == x);
                } else if k > i {
                    assert(t2[k - 1] == x);
                } else {
                    assert(t2[t2.len() - 1] == x);
                }
            }
            if t2.contains(x) {
                let k = choose|k: int| 0 <= k < t2.len() && t2[k] == x;
                if k < i {
                    assert(favorites[k] == x);
                } else if k < t2.len() - 1 {
                    assert(favorites[k + 1] == x);
                } else {
                    assert(favorites[i] == x);
                }
            }
        }
        assert(t2.to_set() =~= favorites.to_set());
    } else {
        lemma_toggle_absent_twice(favorites, ip);
    }
}

/// Law: the game's command line starts with the server's address, its
/// port and the language, then the optional flags, then the words of the
/// extra parameters, each non-empty and free of whitespace.
pub proof fn lemma_launch_args_shape(s: GameSettings, ip: Seq<char>, port: u16)
    ensures
        launch_args(s, ip, port).len() == 3 + optional_args(s).len() + split_ws(s.extra_launch_params@).len(),
        launch_args(s, ip, port)[0] == "-connect="@ + ip,
        launch_args(s, ip, port)[1] == "-port="@ + decimal(port as nat),
        launch_args(s, ip, port)[2] == "-language="@ + language_code(s.language),
        well_formed_words(launch_args(s, ip, port).skip(3 + optional_args(s).len() as int)),
{
    lemma_split_ws_words(s.extra_launch_params@);
    let a = launch_args(s, ip, port);
    assert(a.skip(3 + optional_args(s).len() as int) =~= split_ws(s.extra_launch_params@));
}

} // verus!
