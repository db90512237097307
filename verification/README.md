# growbe_mainboard

The module-state logic of a growbe mainboard: what happens when modules are plugged into
its boards, how their readings are read and published, how relay outlets take their
configurations (ownership, jobs, frames), how soil probes are calibrated, how virtual
relays group relays across modules, how environment controllers react to alarms, and
how messages from the cloud are routed and answered.

- `src/` is the library, written in Verus: every function carries a contract and is
  proved against it, with one exception: `module_id_pattern_matches` calls the `regex`
  crate to test a module id against its pattern, and its contract (somewhere in the id stand three
  characters of `[A-Z]` followed by nine of `[A-Z0-9]`) is taken on trust.
  Laws that span several functions are public proof functions (`lemma_*`).
- `tests/` runs the library on concrete values.
- `app/` is the runtime around it: floating-point readings and alarms, host queries,
  SQLite storage, serialisable copies of the settings, the Tokio jobs that drive
  relays, and the module state task that carries out what the library decides.
