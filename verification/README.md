# swiss-army-knife-core

The engine behind a small macOS app for quick media chores (convert, compress,
extract audio, make a GIF, image and spreadsheet conversions), written in Verus.

- `src/` is the verified library: the operation registry and the tool
  invocations each operation runs (`ops/`), the interpretation of `ffprobe`'s
  listing and the extension pre-checks (`probe`), collision-free output naming
  (`output`), `-progress` line parsing and the stage runner's decisions
  (`engine`), the job table (`jobs`), and the values the Swift bridge passes
  (`ffi`). `paths` holds the few `std::path` calls the library trusts.
- `app/` is the unverified edge: spawning `ffprobe`/`ffmpeg`/`sips`/`python3`,
  decoding JSON with serde, touching the filesystem, the job registry's lock and
  threads, and the swift-bridge module.
- `tests/` exercises the library on concrete values.
