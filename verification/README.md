# orbok

The runtime-profile and decision logic of the orbok desktop search app,
verified with Verus.

- `src/` is the verified library. Every function carries a `requires` /
  `ensures` contract over mathematical views (`Seq`, `Set`, spec functions),
  and the public `law_*` proof functions state properties that span several
  functions.
  - `paths`: profile paths as component lists; lexical normalization and
    whole-component containment.
  - `runtime_context`, `runtime_storage`, `physical_identity`: choosing the
    one profile a process uses, deriving its paths, authorizing access to
    them, and checking that a portable profile is apart from the standard one.
  - `cli`: command-line parsing and the refusals decided before any profile
    is touched.
  - `settings`: what a settings file means field by field, old field names
    included.
  - `model_flow`: the embedding-model setup wizard as a state machine.
  - `launch`, `search_scope`, `sources`, `diagnostics`, `battery`,
    `storage_measurement`, `scheduling`: smaller decisions of the app.
  - `text`: string helpers, and the few calls into `std` that Verus is told
    about without proof.
- `app/` is the command-line program around the library: arguments, the
  environment, the filesystem and the settings file's JSON.
- `tests/` runs the library on concrete values.
