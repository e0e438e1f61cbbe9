# phoenix_corridor_checker

A hardware corridor checker for WindHydro and windnet nodes near Phoenix. It
evaluates a CAD-exported geometry/material spec against species gap corridors,
a rat-bite/fatigue/corrosion material corridor and a structural residual band,
and writes a JSON shard only when every corridor holds ("no corridor, no build").

## Layout

- `src/` — the library, verified with Verus:
  - `format.rs`: a document is read as YAML when its path ends in `.yaml` or
    `.yml`, as JSON otherwise.
  - `material.rs`: the capped survival-cycle ratio of the rat-bite and fatigue
    tests, held exactly as a fraction, with its envelope `[0, 2]` and its
    monotonicity proved.
  - `identity.rs`: the shard identifier (`WindHydroPhoenix2026v1-` plus a
    version-4 UUID) and the `0x` + sixteen-hex-digit proof string, with a proof
    that the proof string reads back to the drawn value.
  - `check_flow.rs`: the order of a check (load bands, load spec, evaluate,
    write) as a step function, its exit statuses, and the proof that a shard is
    only written after an accepted evaluation.
- `app/` — the command-line program: argument parsing, file reading and
  writing, serde (de)serialisation, and the floating-point corridor
  coordinates, residuals and scores, which the verified library does not hold.
- `tests/` — tests of the library on concrete values.
