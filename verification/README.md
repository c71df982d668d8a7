# shogi_engine

Evaluation components of a shogi engine, written in Verus: the functions
under `src/` state their behaviour in contracts that the verifier proves.

- `src/` — the library: board model and attack rules, NNUE accumulator and
  incremental updates, piece-square tables and their loader, king safety,
  pawn structure, opening principles, positional patterns, pattern caches,
  profiling counters and evaluation statistics.
- `tests/` — unit tests run against the compiled library.
- `app/` — what stays outside the verifier: file and JSON input/output,
  random weight initialisation, the floating-point trainer, weighted
  positional scores, averages and printed reports.
