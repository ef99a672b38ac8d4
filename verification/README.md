# lizzieyzy_next

The decision logic of the LizzieYzy Next desktop workspace, written in Verus
with its behaviour stated in `requires` / `ensures` contracts.

## Layout

- `src/` — the verified library.
  - `model`, `analysis_job`, `analysis_task`: the shared data the app and
    the engine manager exchange, with their views.
  - `save_as`: how a Save As dialog session ends.
  - `preferences`: normalisation of the app preferences.
  - `catalog`: the engine-profile catalog and its normalisation.
  - `recovery`: the current-game recovery coordinator and startup decisions.
  - `katago`: KataGo analysis queries and the normalisation of responses.
  - `move_rank`: move ranks from the loss levels a move reached.
  - `engine` and its submodules: the foreground engine manager's decisions —
    its lifecycle, job registration, response routing, job ends, the
    analysis-task state machine, deadlines and continuous analysis.
  - `text`: string helpers the contracts rely on.
- `tests/` — tests run against the compiled library.
- `app/` — the parts that touch files, JSON serialisation and floating
  point, and a single-threaded driver that applies the engine-manager
  decisions and writes the engine's input lines.

The restore check of a recovery checkpoint (`validate_envelope`) needs the
`sgf` crate's document model and is not part of this library.

Laws that span several operations are public proof functions next to the
operations they speak of.
