//! A DayZ server browser and game launcher: the server list and its
//! filters, the player's profile and the game's command line, the game
//! start through Steam or directly, and the decisions of the launcher's
//! window.
pub mod color;
pub mod json;
pub mod launcher;
pub mod paths;
pub mod profile;
pub mod server;
pub mod session;
pub mod text;
pub mod theme;
pub mod updater;
