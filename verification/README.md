# world_cell

Access to several resources of a world at a time, with Rust's mutability rules checked at run time
and the checks verified with Verus.

- `src/` is the verified library. `access.rs` keeps the record of who is accessing what, in the map
  of `sparse_set.rs`; `borrow.rs` holds the borrows and their witnesses; `world_cell.rs` looks
  resources up in the world of `world.rs` and `component.rs` and answers requests for them;
  `event.rs` and `change_detection.rs` hold the queues of events and the references that record
  changes; `error.rs` says why a request is refused. `laws.rs` proves what holds of accesses as a
  whole, above all that nothing is ever written by one while another reads or writes it.
- `app/` stores the values of resources by their Rust type, gives access back when a borrow goes out
  of scope, and panics where a request is refused.
- `tests/` runs the library.

The library does not hold the values of resources. A request comes with a function that fetches the
value, which is called only after access is granted. Borrows and cells are ended with their `drop`.
