# cpm

A package manager for C/C++ projects (`cpm create`, `cpm install`, `cpm uninstall`,
`cpm build`, `cpm run`), written in Verus: the library in `src/` holds the project's
logic with its contracts proved, and `app/` holds the command-line program that
reads and writes files and runs Git, CMake, Make and the compiler.

- `src/cpm_core/toml` — the `cpm.toml` project file: its tables, the dependency
  tables as maps from name to source, and the edits that `install`/`uninstall` make.
  A dependency table is held as a `Vec` of (name, source) pairs in which no name
  stands twice; its view is the map from name to source. `app/manifest.rs` turns it
  into a `HashMap` for reading and writing the file with `toml`.
- `src/builder` — the compiler interface, the G++ commands, and the build's steps
  (object file names, output names, libraries found, object files without `main`).
- `src/cli` — what each command decides: the files of a new project, where an
  install puts things, which package an uninstall means.
- `src/utils` — repository and object names, base paths, home expansion, and the
  character-sequence tools the rest is built on.
