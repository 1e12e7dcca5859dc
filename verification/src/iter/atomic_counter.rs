use vstd::prelude::*;
use core::sync::atomic::{AtomicUsize, Ordering};

verus! {

/// An atomic counter, a wrapper around `AtomicUsize` with the operations that atomic iterators need.
///
/// The value of the counter is shared among threads; what a call reads from it depends on the
/// calls that other threads made before, so no contract below fixes the values that come back.
pub struct AtomicCounter {
    current: AtomicUsize,
}

impl AtomicCounter {
    /// Creates a new atomic counter with its value initiated at zero.
    pub fn new() -> (r: Self) {
        AtomicCounter { current: AtomicUsize::new(0) }
    }

    /// Creates a new atomic counter with its value initiated at `value`.
    pub fn with_value(value: usize) -> (r: Self) {
        AtomicCounter { current: AtomicUsize::new(value) }
    }

    /// Fetches and returns the current value of the counter, and adds `len` to it.
    pub fn fetch_and_add(&self, len: usize) -> (r: usize) {
        self.current.fetch_add(len, Ordering::AcqRel)
    }

    /// Fetches and returns the current value of the counter, and adds `1` to it.
    pub fn fetch_and_increment(&self) -> (r: usize) {
        self.current.fetch_add(1, Ordering::AcqRel)
    }

    /// Fetches and returns the current value of the counter.
    pub fn current(&self) -> (r: usize) {
        self.current.load(Ordering::Relaxed)
    }

    /// Sets the value of the counter to `value`.
    pub fn store(&self, value: usize) {
        self.current.store(value, Ordering::SeqCst)
    }

    /// Raises the counter to at least `value` and returns the value it had before.
    pub fn get_current_max_value(&self, value: usize) -> (r: usize) {
        self.current.fetch_max(value, Ordering::AcqRel)
    }
}

impl Default for AtomicCounter {
    /// Creates a new atomic counter with its value initiated at zero.
    fn default() -> (r: Self) {
        Self::new()
    }
}

impl Clone for AtomicCounter {
    /// Clones the atomic counter with its current value.
    fn clone(&self) -> (r: Self) {
        AtomicCounter { current: AtomicUsize::new(self.current.load(Ordering::SeqCst)) }
    }
}

} // verus!
