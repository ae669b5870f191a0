# Parish

The rules of *Parish*, an Irish living-world text adventure set in a rural
parish in 1820, as a library verified with Verus, and a small launcher
around it.

## Layout

- `src/` — the verified library. Every public function has a contract
  stated over mathematical models (sequences, maps, integers) and proved.
  - `config`, `categories` — provider configuration layered from the TOML
    file, the environment and the command line, per inference category,
    and the per-category settings changed during play.
  - `setup`, `gpu` — model selection by available VRAM, and reading the
    output of `nvidia-smi` and `rocm-smi`.
  - `npc`, `memory`, `schedule`, `gossip`, `tier`, `relationship`,
    `roster` — NPC reply parsing, short-term memory, daily schedules with
    seasonal overrides, gossip spread and distortion, cognitive tiers and
    batching, and two-way relationships across the loaded roster.
  - `catalog` — the ambient sound catalog and its filters.
  - `session` — the session's answer to every system command: the state
    change, the lines shown, the client to rebuild and the work left to
    the caller (saves, the clock, debug inspections).
  - `play` — the play loop's decisions: idle ticks, autosaves, how much
    of a streaming reply is shown, idle lines, pronunciation hints.
  - `journal` — world events and their replay after a snapshot.
  - `loading`, `app`, `input`, `theme`, `screenshot`, `debug`,
    `debug_panel`, `commands` — interface state: loading animation,
    scrolling, the debug log, `/debug` commands and inspections, replies
    to system commands (with API-key masking), palettes, screenshot
    capture.
  - `osm`, `cache`, `inference`, `action` — map feature types, cache file
    naming, inference responses and structured action results.
  - `text`, `fmt` — string helpers with exact specifications.
  - Public `law_*` proof functions state properties that span calls
    (configuration layering, memory eviction, batching, distortion, ...).
- `tests/` — tests of the library on concrete values.
- `app/` — the launcher: command-line flags, reading `parish.toml`, the
  environment and the GPU tools, and the parts that work with floating
  point (relationship strength, sound volume).
