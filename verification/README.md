# kurobako

The core of a benchmarking tool for black-box optimizers, verified with Verus.

- `src/` is the verified library: trial identifiers and their generator, solver
  capabilities, attribute maps, solver and problem specifications (with the checks of
  their domains and evaluable steps), the framing and handling of the messages exchanged
  with external problems and solvers, and the integer and string logic of the built-in
  problems and solvers (command lines, dataset keys, fidelity choice, edge selection).
  Laws that relate several operations stand there as public proof functions.
- `tests/` runs the library on concrete values.
- `app/` is ordinary Rust around the library: processes, pipes and files, JSON
  (de)serialization, and the floating-point evaluations of the problems.
