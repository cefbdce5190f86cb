//! A channel for one item, for threads and tasks alike, and the backoff that its waits use.
//!
//! [`handle::oneshot`] makes a channel. Its [`handle::TxOneshot`] sends one item or leaves
//! without; its [`handle::RxOneshot`] receives the item, or learns that none will come. Either
//! side can ask to be woken when the other is done.
//!
//! - [`word`] is the word of flags through which the two sides agree.
//! - [`program`] says what each side does, one operation on the shared memory after the other.
//! - [`calls`] are the calls into the standard library that this takes, each with a record of
//!   itself; [`wakers`] and [`memory`] put them together to operations on the shared memory.
//! - [`journal`] is where a handle enters what it did, in exchange for those records, and
//!   [`account`] says which calls each entry stands for, in all.
//! - [`handle`] holds the handles, which follow their programs.
//! - [`oneshot`] and [`waiting`] are what the handles do: sending, receiving and waiting.
//! - [`model`] is a channel as a whole, [`laws`] what holds of every channel, and [`world`] what
//!   holds of many.
//! - [`backoff`] and [`adaptive`] decide how long to spin before a wait parks; [`cell`] holds
//!   the numbers that threads share for it.
pub mod account;
pub mod adaptive;
pub mod backoff;
pub mod calls;
pub mod cell;
pub mod error;
pub mod handle;
pub mod journal;
pub mod laws;
pub mod memory;
pub mod model;
pub mod oneshot;
pub mod program;
pub mod waiting;
pub mod wakers;
pub mod word;
pub mod world;
