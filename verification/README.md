# cherino

Verified core of a container operations toolkit.

- `src/getters.rs` — planning of the `Getters` derive: which accessors a
  struct gets, under which names and in which return shape.
- `src/apparmor.rs` — the FUSE AppArmor profile choice, the dev-only
  escape hatch and the security options handed to the container engine.
- `src/runtime.rs` — the runtime backend on hosts without the Linux OCI
  backend.
- `src/text.rs` — character-level string comparisons.
- `app/lib.rs` — token parsing and rendering for the derive, host file
  probes, environment reads and boxed-error entry points.
