# dungeon_rs

The verified core of DungeonRS, a map editor: the asset library (a device-wide registry of
asset packs), asset pack bookkeeping and the decisions taken while a pack is indexed, the
project hierarchy and the documents projects are saved as, and the small pieces of
configuration, localisation and crash reporting that the editor and the command line share.

## Layout

- `src/` is the library. Every function in it is verified by Verus against its contract;
  the few calls into other crates (BLAKE3 hashing, Rhai scripts, `std::path`, channels,
  `tracing` level parsing, language tags) go through small trusted items whose doc comments
  say what is assumed of them.
- `tests/` runs the library on concrete values.
- `app/` is `drs-cli`, the command line program: argument parsing, logging, reading and
  writing the library and manifest files, walking pack folders and the Tantivy search index.
  It hands what it reads to the library and carries out what the library decides.
