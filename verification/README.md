# DayZ launcher

A server browser and game launcher for DayZ. The verified library (`src/`)
holds the launcher's rules, each function with a contract proved by Verus:

- `server`: the server list, its filters, the BattleMetrics request address
  and the reading of its JSON answer, ping bookkeeping;
- `profile`: the player's profile, favorites and the game's command line;
- `launcher`: starting the game through Steam or directly;
- `session`: the decisions of the launcher's window (fetching, receiving
  servers and pings, choosing a server, launching, status line);
- `updater`, `theme`, `color`: version checks and the window's palette;
- `text`, `json`, `paths`: lowercase folding, substring search, decimal
  rendering, whitespace splitting, JSON lookups and path joining.

`app/` is the program around it: the egui window, HTTP and UDP, reading
and writing the profile file, and starting processes.

The window is built on `eframe`, which is not listed among the
dependencies; `app/` needs it added to build.
