# kbot

The decision logic of a multi-client automation panel for a game, written
in Verus: every function under `src/` carries a contract over mathematical
models and is proved.

- `src/` — the library: key names and combinations (`vk_codes`), private
  message parsing and the throttled reply engine (`pm_parse`, `pm_ai`), the
  per-client bot cycle and its timers (`runner`, `schedule`, `random`), the
  screen regions and pixel work on captured frames (`regions`, `pixels`),
  the command protocols and crash recovery (`manager`, `start_command`,
  `remote`), settings defaults (`config`, `client_params`), interface texts
  (`lang`), sign-in, presets, statistics and the learner's bookkeeping
  (`login`, `presets`, `stats`, `learner`), and the input modes (`hw`).
  Public `law_*` proof functions state what holds across calls.
- `tests/` — tests of the library on concrete values.
- `app/` — the host program: settings file, remote broker, reply services,
  window capture and template matching, input to the game window, the
  client manager and the runner loop that performs what the library
  decides.

The panel's egui interface is not part of this build: the host takes its
commands on standard input and from the remote broker instead.
