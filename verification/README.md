# tuigreet

The decision logic of tuigreet, a console greeter for greetd, written in Verus
with its behaviour stated as contracts and proved.

Layout:

- `src/` — the verified library.
  - `cli` — the command-line option table and parsing (through getopts).
  - `config/` — the configuration schema, layering of defaults, files,
    environment and command line, validation, and the laws of layering.
  - `greeter` — the greeter state: reading the command line and the
    configuration into it, session preparation, menus, exit handling.
  - `info`, `issue` — remembered users and sessions, UID bounds, desktop
    entries, `/etc/issue` escapes.
  - `output` — DRM connector listing and terminal sizing.
  - `ui/` — menus, sessions, users, layout and status-bar decisions, the
    answer row of the prompt (secret display and cursor), background
    animation settings and colours.
- `tests/` — tests of the library on concrete values.
- `app/` — the program around the library: file, terminal and system access,
  TOML loading, and `main`.
