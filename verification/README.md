# mcc

A terminal launcher for Minecraft profiles. The library under `src/` holds its logic,
verified with Verus:

- `text`: substring search and left-to-right, non-overlapping replacement on strings.
- `utils`: resolving `[key]` placeholders in settings values, in table order; the
  launcher's own table (`[env.dir]`, `[appdata.roaming]`).
- `launch`: the paths a game version is installed to, with `[var.version.id]` filled in,
  and the stages and progress of an install.
- `profiles`: profiles and the table of profiles by key (add, replace, remove).
- `logic`: the lines and entries the screens list for profiles.
- `console_log`: classification of the game's console lines and their colours.
- `components`: panels, their focus, shortcut hints and their colours, key handlers, and
  lists whose selection wraps around.
- `screens`: what each key does on the main screen, the profile editor and the settings.
- `cache`: where a cached value is stored.

`app/` is the program around it: the terminal, the files (`.ini`, the profiles JSON, the
launcher TOML, cache files), downloads and starting the game.
