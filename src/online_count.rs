//! The count of live children of a listener, shared by the listener and
//! every child it admitted. A child's handle is made by `add` and takes its
//! place back when dropped.
use vstd::prelude::*;
use std::sync::Arc;
use std::sync::atomic::{AtomicUsize, Ordering};

verus! {

/// The count after one more connection: one up, wrapping to 0 past `usize::MAX`.
pub open spec fn count_after_acquire(v: usize) -> usize {
    if v == usize::MAX {
        0
    } else {
        (v + 1) as usize
    }
}

/// The count after one connection ends: one down, never below 0.
pub open spec fn count_after_release(v: usize) -> usize {
    if v == 0 {
        0
    } else {
        (v - 1) as usize
    }
}

pub fn acquire_step(v: usize) -> (r: usize)
    ensures
        r == count_after_acquire(v),
{
    match v.checked_add(1) {
        Some(n) => n,
        None => 0,
    }
}

pub fn release_step(v: usize) -> (r: usize)
    ensures
        r == count_after_release(v),
{
    v.saturating_sub(1)
}

/// A connection that starts and ends gives the count back its value from
/// before, for every count below the wrap-around point.
pub proof fn lemma_release_undoes_acquire(v: usize)
    requires
        v < usize::MAX,
    ensures
        count_after_release(count_after_acquire(v)) == v,
{
}

/// Relies on AtomicUsize::fetch_update: applies the release step to the shared
/// count as one atomic read-modify-write. The closure always returns `Some`,
/// so the update always takes place; the count's value depends on the other
/// handles, so nothing is promised of it.
#[verifier::external_body]
fn release_shared(c: &AtomicUsize)
    opens_invariants none
    no_unwind
{
    let _ = c.fetch_update(Ordering::SeqCst, Ordering::SeqCst, |v| Some(release_step(v)));
}

pub struct OnlineCount {
    count: Option<Arc<AtomicUsize>>,
}

impl OnlineCount {
    /// Whether the handle is tied to a shared count.
    pub closed spec fn is_shared(&self) -> bool {
        self.count.is_some()
    }

    /// The shared count this handle is tied to, if any.
    pub closed spec fn spec_count(&self) -> Option<Arc<AtomicUsize>> {
        self.count
    }

    /// A new shared count at 0, held by the listener.
    pub fn new() -> (r: OnlineCount)
        ensures
            r.is_shared(),
    {
        OnlineCount { count: Some(Arc::new(AtomicUsize::new(0))) }
    }

    /// A handle for one more connection: the shared count goes one up
    /// (wrapping past `usize::MAX`, as `count_after_acquire` says).
    pub fn add(&self) -> (r: OnlineCount)
        ensures
            r.is_shared() == self.is_shared(),
            r.spec_count() == self.spec_count(),
    {
        match &self.count {
            Some(c) => {
                c.fetch_add(1, Ordering::SeqCst);
                OnlineCount { count: Some(c.clone()) }
            },
            None => OnlineCount { count: None },
        }
    }

    /// The current count; 0 for a handle tied to no count.
    pub fn now(&self) -> (r: usize)
        ensures
            !self.is_shared() ==> r == 0,
    {
        match &self.count {
            Some(c) => c.load(Ordering::SeqCst),
            None => 0,
        }
    }
}

impl Default for OnlineCount {
    /// A handle tied to no count.
    fn default() -> (r: OnlineCount)
        ensures
            !r.is_shared(),
    {
        OnlineCount { count: None }
    }
}

impl Drop for OnlineCount {
    fn drop(&mut self)
        opens_invariants none
        no_unwind
    {
        match &self.count {
            Some(c) => release_shared(c),
            None => {},
        }
    }
}

} // verus!
