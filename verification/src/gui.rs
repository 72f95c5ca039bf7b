//! What the event loop tells the charts.
use vstd::prelude::*;

verus! {

/// A message of the event loop.
#[derive(Debug, Clone, Copy, PartialEq, Eq)]
pub enum Message {
    /// The periodic tick, on which the charts take in new samples if a round is due.
    Tick,
}

} // verus!
