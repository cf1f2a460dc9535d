# tokiobeam_channel

Async channels on top of crossbeam's channels: a bounded and an unbounded channel whose
receivers can be cloned, and an `AtomicSerialWaker` that wakes waiting tasks in the order
they registered. A bounded channel of capacity zero pairs each send with a receive; a
send or receive that finds no partner blocks its thread until one comes.

- `src/` is the verified library (Verus). Each handle does the work of one poll: it takes
  the task's `Waker` and answers with a `Polled` value. The calls into crossbeam and into
  std's atomics and wakers sit in `src/outside.rs`, each behind a trusted item whose
  contract states what the called code guarantees whatever other threads do. crossbeam's
  answers come back as values (`Observed`, `Offered`, `Fullness`) that only those trusted
  items make, and registrations and wake-ups as reports (`RegisterReport`, `WakeReport`)
  that only `AtomicSerialWaker` makes, naming the waker they were made on and the task's
  waker. Each handle keeps a ghost record of those values from its last call; its contract
  states the answer, the registration and the wake-ups as functions of that record,
  through verified decision functions in `src/outcome.rs`.
- Handles give up their place on a channel with `release`: waking a task runs the task's
  waker, which may panic, so it is not done in a destructor. The handles in `app/` release
  when dropped.
- `app/` lays `futures`' `Stream`, `Sink` and `FusedStream`, the async `recv` and `send`,
  and `Display` for the errors over those poll steps.
- `tests/` drives both channels with `futures`' executor.
