# project_autopilot

An autopilot for personal projects. Each managed project moves around a
loop of stages (plan → execute → verify → doc sync → cooldown → plan, a
bug loop bug scan → bug fix → commit/push → cooldown, and a blocked state
that returns to plan). The autopilot proposes suggestions from the
project's planning documents, carries out the top two, backs off after
failures and blocks after three in a row, asks a person to confirm at the
project's confirmation points, and reports every N rounds or when a
confirmation is pending.

Layout:

- `src/` — the library, verified with Verus. Each module states its
  behaviour over mathematical models (`StateModel`, `SuggestionModel`, …)
  and proves it:
  - `types` — the data and its models;
  - `text` — substring search, decimal rendering, line splitting, joining;
  - `suggest` — the fixed and document-driven suggestions;
  - `actions` — how each suggestion is carried out (by the project's
    command mapping: by title, then by kind, then the kind's own route)
    and recorded,
    the execution log and status document texts, the dispatch of the top
    suggestions;
  - `confirm` — confirmation points and the confirmation queue;
  - `control` — pause, resume, hold and unhold;
  - `failure` — back-off, cooldown, blocking, error categories and
    recovery hints, and whether a tick runs;
  - `cycle` — one step of the stage loop, given what its outside work
    produced;
  - `report` — when a project reports and how the report reads;
  - `daemon` — the daemon's options, its stop rule, project discovery;
  - `setup` — the configuration and state a new installation starts with.
- `app/` — the command line (`init`, `show`, `tick`, `daemon`, `pause`,
  `resume`, `hold`, `unhold`, `status`): files,
  git, cargo, the clock, JSON, and the loop that hands the library what
  the outside work produced.
- `tests/` — tests of the library on concrete values.
