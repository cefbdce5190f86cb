# crossfire_oneshot

A channel for one item, for threads and tasks alike, verified with Verus.

- `src/` is the library: the flags through which the two sides of a channel agree, what each
  side does step by step, the handles, and the backoff that waits use. `src/laws.rs` states what
  holds of every channel, in whatever order its two sides take their steps.
- `tests/` runs it.
- `app/` is the channel as programs use it: handles that close themselves when they are dropped,
  receives that block a thread, and futures.

What is taken on trust:

- The declarations in `src/calls.rs` of the standard library's `Waker`, `Mutex` and `RwLock`, and
  the contracts there of `new` and `fetch_update` of `AtomicU8`, `AtomicU32` and `AtomicBool`, of
  `Mutex::new` and `lock`, of `RwLock::new`, `read` and `write`, of `Waker::wake_by_ref`,
  `will_wake` and `clone`, and of `spin_loop`: that their records tell what they were handed and
  what came back.
- That a function makes no calls beside those that its contract shows records of.
- That the shared memory answers as `src/model.rs` has it: each operation on it happens at once,
  and wakers are told apart by the task that they wake. Which orders the operations ask for is
  recorded; what the orders mean is not modelled.
