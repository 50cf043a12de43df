# Glomeris

Evidence-first, policy-constrained developer storage cleanup for macOS:
discover reclaimable tool-owned storage, explain why each resource is or is
not safe to remove, and re-check a policy-approved resource right before
acting on it. The revalidation gate and the per-step checks a cleanup runs
(identity unchanged, no symlink swapped in, reclaim accounting) are here;
concrete cleanup actions are not part of this crate, so the program reports
approved resources without removing them.

The library in `src/` is verified with Verus: every public function carries
a contract, and the safety rules are stated and proved as lemmas (for
example, a protected resource always classifies `Protected` and is never
authorized; evidence fresh from discovery is never `AutoSafe`; a fingerprint
token decodes back to the fingerprint it encodes, and decoding accepts
only what the encoder writes; a pressure transition is confirmed exactly
after `confirm_after` consecutive observations of the new state; the
interval read back from a generated plist is the one it was generated
with; a walk never counts more entries than its file budget).

- `src/policy` — classification (`AutoSafe`/`Ask`/`Protected`), protected
  paths, approval.
- `src/evidence` — the evidence model, fingerprint tokens, and the
  correlation parsers for `lsof`, `git` and `pgrep` output.
- `src/detectors` — what each detector concludes from its probes.
- `src/executor` — the revalidation gate and reclaim accounting.
- `src/scanner` — the bounded top-k directory walk.
- `src/monitor` — the pressure state machine and persistence rules.
- `src/reporting` — report records, byte formatting, impact tiers, ranking.
- `src/emergency` — the degraded recovery path's bookkeeping.
- `src/platform` — the `launchd` plist and notification script.

`app/` is the command-line program around the library: argument handling,
filesystem and process I/O, floating-point thresholds and JSON output.
`tests/` exercises the library on concrete values.
