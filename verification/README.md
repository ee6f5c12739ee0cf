# Diplomatic bag

Hide values that cannot leave their thread inside a `DiplomaticBag` that can be
sent between threads freely.

All operations on the values in the bags are sent to one worker thread, so a value
is only ever touched on that thread.

- `src/` is the library, verified with Verus: the bag and its operations, the
  errands that carry closures to the worker and values back, and the laws that
  hold between the functions (`src/laws.rs`). What is relied on without proof of
  the channels of `crossbeam-channel` stands in `src/channel.rs`, and in
  `src/rendezvous.rs` for the channel on which a value comes back; the few functions
  of the standard library that are relied on in this way stand where they are used.
- `app/` is the crate that users see: it starts the worker thread, keeps it in a
  static, vouches to the compiler that a bag may cross threads, and gives the bags
  the traits of the standard library.
- `tests/` runs the library, on one thread and on two.

The library starts no thread and does not know which thread it is on. It is told
both, and it returns an error where the worker does not answer; `app/` turns that
into a panic.
