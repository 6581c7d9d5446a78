# vle-thermo

The verified core of a vapor-liquid equilibrium engine, written in Verus.

* `src/` — the verified library: model enumerations and their integer codes
  (`eos`, `activity`, `mixing`, `liquid_volume`, `saturation`), admission of
  mixture models (`mixture`), the decisions of the flash drivers (`flash`),
  solver schedules (`iteration`), and the pure-component catalog with its
  case- and whitespace-insensitive lookup (`db`, `text`).
* `app/` — plain Rust around it: the floating-point correlations
  (equations of state, activity models, liquid volumes), root finders and
  nonlinear solvers, and reading the catalog from JSON.
* `tests/` — tests of the library.
