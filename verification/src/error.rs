//! The errors of receiving.
use vstd::prelude::*;

verus! {

/// The sender left without an item, or the item was received before.
#[derive(Debug, Clone, Copy, PartialEq, Eq, Structural)]
pub struct RecvError;

/// Why an attempt to receive failed.
#[derive(Debug, Clone, Copy, PartialEq, Eq, Structural)]
pub enum TryRecvError {
    /// The sender is not finished yet.
    Empty,
    /// The sender left without an item, or the item was received before.
    Disconnected,
}

/// Why a wait for the item failed.
#[derive(Debug, Clone, Copy, PartialEq, Eq, Structural)]
pub enum RecvTimeoutError {
    /// The time was up, and the sender not finished.
    Timeout,
    /// The sender left without an item, or the item was received before.
    Disconnected,
}

} // verus!
