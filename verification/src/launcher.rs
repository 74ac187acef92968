//! Starting the game: through Steam's `steam://run` address, or by running
//! the game's executable directly with the profile's command line.
use vstd::prelude::*;
use crate::paths::{path_exists, looks_verbatim, joined, ends_with};
use crate::profile::{PlayerProfile, launch_args};
use crate::server::DayZServer;
use crate::text::{decimal, push_decimal};

verus! {

/// Outcome of an attempt to start the game.
#[derive(Debug)]
pub enum LaunchResult {
    /// The game was started.
    Success,
    /// The game was started and the launcher may close.
    SuccessAndClose,
    /// The game could not be started.
    Error(String),
}

/// Steam's address that starts DayZ (app 221100) with the given parameters.
pub open spec fn steam_url(ip: Seq<char>, port: u16) -> Seq<char> {
    "steam://run/221100//-connect="@ + ip + " -port="@ + decimal(port as nat) + "/"@
}

/// The `steam://run` address that starts DayZ and joins `server`.
pub fn steam_launch_url(server: &DayZServer) -> (url: String)
    ensures
        url@ == steam_url(server.ip@, server.port),
{
    let mut url = String::from_str("steam://run/221100//-connect=");
    url.append(server.ip.as_str());
    url.append(" -port=");
    push_decimal(&mut url, server.port as u64);
    url.append("/");
    url
}

/// What starting the game directly runs: the executable, its arguments and
/// the directory it runs in.
#[derive(Debug)]
pub struct DirectLaunch {
    pub exe: String,
    pub args: Vec<String>,
    pub working_dir: String,
}

/// Why the game could not be started directly.
#[derive(Debug)]
pub enum LaunchError {
    /// `DayZ_x64.exe` is not in the game directory.
    GameNotFound { game_path: String },
}

/// The message shown when the game is not found in `game_path`.
pub open spec fn game_not_found_message(game_path: Seq<char>) -> Seq<char> {
    "Nie znaleziono DayZ_x64.exe w: "@ + game_path + "\nSprawdź ścieżkę w ustawieniach."@
}

impl LaunchError {
    /// The message shown for this error.
    pub fn message(&self) -> (m: String)
        ensures
            match self {
                LaunchError::GameNotFound { game_path } => m@ == game_not_found_message(game_path@),
            },
    {
        match self {
            LaunchError::GameNotFound { game_path } => {
                let mut m = String::from_str("Nie znaleziono DayZ_x64.exe w: ");
                m.append(game_path.as_str());
                m.append("\nSprawdź ścieżkę w ustawieniach.");
                m
            },
        }
    }
}

/// The direct start of the game for `server`, given the executable's path
/// and whether it exists: an error naming the game directory when it does
/// not; otherwise the executable, the profile's command line for the server
/// and the game directory to run in.
pub fn plan_direct_launch(server: &DayZServer, profile: &PlayerProfile, exe: String, exe_exists: bool) -> (r: Result<DirectLaunch, LaunchError>)
    ensures
        match r {
            Ok(plan) => exe_exists && plan.exe@ == exe@ && plan.args.deep_view() == launch_args(
                profile.game_settings,
                server.ip@,
                server.port,
            ) && plan.working_dir@ == profile.game_path@,
            Err(LaunchError::GameNotFound { game_path }) => !exe_exists && game_path@ == profile.game_path@,
        },
{
    if !exe_exists {
        return Err(LaunchError::GameNotFound { game_path: profile.game_path.clone() });
    }
    let args = profile.build_launch_args(server.ip.as_str(), server.port);
    Ok(DirectLaunch { exe, args, working_dir: profile.game_path.clone() })
}

/// Prepares starting the game directly: `DayZ_x64.exe` in the game
/// directory, which must exist (the disk decides), run there with the
/// profile's command line for `server`.
pub fn prepare_direct_launch(server: &DayZServer, profile: &PlayerProfile) -> (r: Result<DirectLaunch, LaunchError>)
    ensures
        match r {
            Ok(plan) => (!looks_verbatim(profile.game_path@) ==> joined(profile.game_path@, "DayZ_x64.exe"@, plan.exe@))
                && ends_with(plan.exe@, "DayZ_x64.exe"@)
                && plan.args.deep_view() == launch_args(profile.game_settings, server.ip@, server.port)
                && plan.working_dir@ == profile.game_path@,
            Err(LaunchError::GameNotFound { game_path }) => game_path@ == profile.game_path@,
        },
{
    let exe = profile.game_exe_path();
    let exists = path_exists(exe.as_str());
    plan_direct_launch(server, profile, exe, exists)
}

} // verus!
