# transient ladder: the verified discrete layer

A two-spool engine transient is modelled as a ladder of rungs, each a machine that inherits
its parent's bodies and re-aims a few of them. The floats of the plant (the march, the
solvers, the spectra) sit on top of a layer of discrete decisions: which knobs a sibling
machine carries, which body a cell dispatches to, which guard refuses an arming, which scope
restores what, and which counters record what ran. That layer is what `src/` holds, in Verus,
each function with a contract that pins its result.

- `src/knobs.rs`: the declared knobs and the sibling constructors' carry chain.
- `src/reference_split.rs`: the reference carrier and its scope, the arming guard sequence, the
  split rung's counters, reduce arms and rig.
- `src/shared_actuator.rs`: the composition-law scope, the authority labels and their readers,
  the parent-rung table, the ledger keys, the six-state entry test and initial-condition sweep.
- `src/zero_counts.rs`: distinct zero counts and the cell ledger.
- `src/sensed_cap.rs`, `src/residual_gauge.rs`, `src/state_coordinate.rs`, `src/split_wall.rs`:
  each rung's scopes, dispatch, refusals, counters and sibling constructor.
- `src/fuel_cap.rs`: fuel caps as ordered bit patterns and their min-select.
- `src/spool.rs`, `src/stage.rs`: the spool and stage-stack censuses, the stack's shape, its
  capacity cache and the verdicts of its speed-line inversion.

`app/` is ordinary Rust: first-of-equals float folds, the complex arithmetic and root finders,
and the adapters from the plant's floats to the library's plain values. `tests/` exercise the
library on concrete values.

The float plant itself is carried nowhere: the NOx chemistry, the spool, stage-stack and
six-state marches, the gain, spectrum and bill readers, and the limiter constructors all stand
on the gas model, the component maps and the lower rungs' transients, and none of those is part
of this project. What of them is discrete (which body runs, what is counted, what is refused)
is in `src/`; what is self-contained floating point is in `app/`.
