# kryonix_home

Kryonix Home Brain: a deterministic scanner and safe organizer of a user's
home folder, written in Verus.

- `src/` is the verified library: path rules (ignored, hidden, protected and
  secret paths), the taxonomy parser and keyword classifier, ABNT-like file
  naming, project detection, the organization plan and its safety assessment,
  the autopilot policy, manifests and their policy gate, the checks of apply
  and rollback, the review queue, report figures, memory-export events, and
  content/context profiles. Scores are integers: basis points (1.0 = 10000)
  or hundredths.
- `app/` is the command-line tool around it: argument parsing, walking the
  file system, reading and writing JSON/TOML state, moving files, HTTP calls
  to the local LLM advisor, and printing.
- `tests/` exercises the library on concrete values.
