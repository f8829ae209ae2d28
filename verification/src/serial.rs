//! Serial numbers: drawn from a counter that every request shares, and
//! written down most significant octet first.

use std::sync::atomic::AtomicUsize;
use std::sync::atomic::Ordering;
use vstd::prelude::*;

verus! {

/// A counter that starts at `first`.
pub fn counter(first: usize) -> AtomicUsize {
    AtomicUsize::new(first)
}

/// Draws the next number from a counter. The counter moves on by one
/// with every draw, whoever draws, so nothing is known of the number
/// here but that no other draw gets it before the counter wraps around.
pub fn draw(counter: &AtomicUsize) -> usize {
    counter.fetch_add(1, Ordering::SeqCst)
}

} // verus!
