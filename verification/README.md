# page

The verified core of the Yral web pages: daily missions and their modals,
the hot-or-not betting rules, the pump-and-dump game model, the feed and
moderation queues, and the form, link and status rules behind the pages.

- `src/` is the library, verified with Verus. Each public function states
  its result in its contract; the laws the pages rely on (a reward is
  credited once, a checked URL stays checked, a written number reads back,
  and others) are public proof functions beside the code they speak of.
- Calls into chrono and candid stand behind small trusted wrappers in
  `src/clock.rs` and `src/principal.rs`.
- `app/` holds what stays outside the verifier: serde forms of the
  library's records, the candid `Nat` conversion, and the computations
  the pages make in floating point.
- `tests/` runs the library on concrete values.
