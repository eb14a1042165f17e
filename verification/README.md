# rustyqlib

The contract logic of an equity-derivatives pricing library, verified with
Verus: keyword grammars for contract fields, dates and schedules, the rules
that decide which engine, model, payoff and exercise style can be priced
together, the routing of prices and Greeks, the event logic of autocallable
notes and the integer grid arithmetic of the numerical engines.

- `src/` is the verified library. Each public function states in its
  `ensures` what it returns for every input; the `lemma_*` proof functions
  state the properties that span several functions.
- `tests/` runs the library on concrete contracts.
- `app/` holds what Verus does not reason about: floating-point pricing
  formulas (Black-76), path cash flows, JSON glue and serde forms of
  library types.
