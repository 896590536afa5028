# codopsy

A code-quality analyzer over tree-sitter syntax trees: cyclomatic and
cognitive complexity per function, lint rules for many languages, threshold
rules, a 0–100 quality score with grades A–F, baselines to compare runs, and
hotspots from git history.

## Layout

- `src/` is the library, written and proved with Verus.
  - `grammar.rs` parses source text with the tree-sitter grammars and copies
    the result into the plain tree of `syntax.rs`, which every analysis reads.
  - `complexity.rs`, `names.rs` and `classify.rs` measure functions.
  - `lint.rs` runs rules over a tree; the rules themselves are in `rules/`,
    one module of node checks per language family and one module of entry
    points per rule file. `lint_laws.rs` proves what the configuration does to
    the issues reported.
  - `threshold.rs`, `version.rs`: file length, nesting depth, parameter
    counts, and the Go version gate.
  - `scoring.rs`, `analysis.rs`: file and project scores and the result of a
    run; `baseline.rs`, `hotspot.rs`, `history.rs`, `files.rs`, `report.rs`:
    baselines, hotspots, git output, file selection and the lines printed.
- `app/` is the command line: arguments, the file system, git, JSON, and the
  parts of the score computed in floating point.
- `tests/` runs the library on concrete inputs.
