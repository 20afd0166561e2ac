# fuzzor

The verified core of a continuous fuzzing infrastructure: project
configuration and harness locations, build environments, the choice of fuzz
instances for a machine, the ensembler's instance planning, AFL++ settings,
log and stats parsing, corpus sync planning, crash deduplication by stack
trace, solution reproduction decisions and the campaign state machine.

- `src/` is the library, verified with Verus. Each module states its
  functions' behaviour in `requires`/`ensures` over views (`Seq`, `Map`);
  properties that span several calls are public proof functions (`lemma_*`).
- `tests/` runs the library on concrete inputs.
- `app/` is the command-line program around the library (`builder`,
  `fuzzer`, `ensemble-fuzz` and `reproducer` subcommands): argument parsing,
  YAML, processes, files, timers and the floating-point statistics.
