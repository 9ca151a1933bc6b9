# cuke_runner_glue

Glue support for a cucumber test runner, verified with Verus.

- `src/` is the verified library: hook types and step keywords, the tag
  expression parser and its laws, the line, name and tag filters, step
  arguments (expressions, doc strings, data tables and their rows), panic
  reports, the parse of a glue crate's sources with syn and their search for
  step and hook functions,
  and the checks and names of the code generation.
- `app/` holds what surrounds it: the scenario data store, the static glue
  definitions, the panic hook, reading source files and emitting the
  generated tokens.
- `tests/` runs the library on concrete values.
