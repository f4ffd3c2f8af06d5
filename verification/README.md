# ai_orchestrator

An orchestrator that drives two AI agents through a plan: a Dev agent writes
a patch for a task, an Auditor agent reviews it, and a human decides at
gates in between. Plans are drafted by planning agents, stored in SQLite and
exported to Markdown; a terminal UI shows the work as it runs.

## Layout

- `src/` is the library, verified with Verus. It holds the rules of the
  program as functions with contracts:
  - `kernel/`: text primitives, diff validation and the list of changed
    files, the secret scan, hand-offs and the shared-memory summary, the
    todo list of a plan (`TaskBoard`), the numbering of a run's event trail,
    the recipes for agent CLIs and the worker messages.
  - `schemas/`: the records exchanged between agents and their validation.
  - `agents/`, `providers/`: the prompts of each agent and the choice of a
    model provider.
  - `commands/`: the state machines of the dev mode (`DevLoop`, `CliLoop`, and `CycleLoop` for one
    Dev → Audit → Human cycle)
    and of planning (`PlanningLoop`), the checks before a patch is applied,
    gate texts and status reports.
  - `tui/`: the state of every screen and what each key does.
  Properties that span several calls stand as public proof functions named
  `law_…`.
- `app/` is the program around the library: command-line parsing, files,
  git, the SQLite store, HTTP providers, child processes and the terminal
  drawing. It hands the library plain values and acts on what it returns.
- `tests/` runs the library on concrete values.

## Checking

`verus` verifies `src/lib.rs` as a library crate; the tests and the program
build with the outside crates named in `Cargo.toml`.
