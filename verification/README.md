# wow_launcher

The logic of a game launcher, verified with Verus: it checks the shape of the
manifest `resources/hashmap.json`, downloads missing resources, repairs the
game's core files by their SHA-512 digests, retries failed downloads, and
chooses how to start the game on each operating system.

- `src/json.rs` — the JSON values that the launcher reads.
- `src/resources.rs` — the start-up check of the manifest and of its resources.
- `src/file_integrity.rs` — the window object: its texts, the repair of all
  core files, the start of the game.
- `src/cxxqt_object.rs` — the first form of the window object, which checks
  the first core file only.
- `src/integrity.rs` — what both repairs share: entries, targets, messages,
  the outside work they ask for.
- `src/download.rs` — retries and progress of a download.
- `src/digest.rs` — SHA-512 (`sha2`) and hexadecimal text (`hex`).
- `src/text.rs` — decimal text and string building.
- `app/` — the program: file, network and process work, driven by the
  library's steps.

Each check is a state machine: a step takes what came of the last piece of
outside work and returns the messages to show and the next piece of work.
