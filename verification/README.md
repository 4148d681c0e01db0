# saga_stdlib

The Saga mod standard library, split in two.

- `src/` — the verified core. It holds everything the library
  decides: what each host answer means (`assets`, `storage`, `thread`), the
  growing buffer that storage payloads are fetched into, the bounded buffer
  a log message is built in (`log`), the bump allocator's placement policy
  (`bump`), and the error messages (`text` renders their numbers). Every
  public function states its result exactly; the laws of the library are
  proof functions beside the code they speak of.
- `app/` — the host-facing layer: the raw `saga:*` bindings (`sys`), the
  wrappers with the familiar API (`fetch_buffer`, `list`, `spawn_thread`,
  `emit`, …) that make each host call and hand the answer to the core, the
  `GlobalAlloc` implementation, and the `arena-physics` example mod, whose
  floating-point game logic stays unverified.
- `tests/` — tests of the core on concrete values.
