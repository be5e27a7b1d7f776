# maestro

The logic of a small orchestrator that hands coding tasks to workers, checks
what they bring back, and merges what passed. It is written in Verus: each
function states in its contract what it returns, and the laws that tie several
functions together are public proof functions whose names begin with `law_`.

- `src/` is the verified library. It decides; it does no I/O. Work that
  alternates with the outside world is a machine: a `start` that gives the first
  step, and methods that take an answer and give the next step.
  - Admission and running: `delegate`, `pipeline`, `attempt`, `attempt_laws`,
    `budget`, `containment`, `roles`, `prompt`, `gate`, `verify_checkout`.
  - Git: `git`, `cut`, `merge`, `worktree`.
  - The daemon: `server`, `startup`, `credentials`, `model_auth`, `resolve`,
    `config`, `shim`.
  - The command line: `cli`, `client`, `daemon`, `init`, `locate`, `progress`,
    `advise`.
  - Shared: `domain`, `task`, `payload`, `fault`, `table`, `text`, `json`,
    `clock`, `digest`, `glob`.
- `app/` is the program around it: sockets, processes, files, threads. It
  performs the steps that the library asks for.
- `tests/` runs the library.

What the library takes on trust from other crates stands in `text`, `json`,
`clock`, `digest` and `glob`, each item with the claim it makes.
