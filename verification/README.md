# clash_verge

The part of a proxy client that decides who runs the proxy core and what the
core runs on, written in Verus.

- `src/` is the library. Each operation is a state machine: a function begins
  it, a step function takes one event and gives the next action, and an open
  spec function beside it says where every state goes on every event. The files
  whose names end in `laws`, and `manager/invariants.rs`, state what holds of
  the operations as a whole.
- `src/yaml.rs`, `src/win32.rs` and the first part of `src/text.rs` hold what is
  taken from outside crates and from std without proof.
- `tests/` runs the library on concrete values.
- `app/` performs the actions: it waits, talks to the service, spawns processes
  and hands back what came of it.
