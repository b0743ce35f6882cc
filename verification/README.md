# syscfg

A tool that saves and loads the configuration of a Linux system and its
applications, kept in a git repository called the snapshot.

- `syscfg mksnap [-o path]` creates a snapshot with a default configuration.
- `syscfg save [-o path]` copies the listed application configurations and the
  fonts into the snapshot and commits if anything changed.
- `syscfg load [-i path]` copies them back onto the system.

Without a path the snapshot is `~/.config/syscfg`. Its configuration is
`SnapshotConfig.json`:

```json
{
  "AppConfig": [],
  "Font": "*",
  "Package": []
}
```

Layout: `src/` is the verified library (paths, the command-line grammar, the
configuration, the git commands and their runner, and the plans of the three
operations); `app/` is the program that carries those plans out on disk and in
git; `tests/` exercises the library.
