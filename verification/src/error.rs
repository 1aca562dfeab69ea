//! The failures that a request can end in.

use vstd::prelude::*;

verus! {

/// Why a request for a cached value failed.
#[derive(Debug, PartialEq, Eq)]
pub enum CacheError {
    /// The computation ran for this request, or for one it waited on, and
    /// failed with this message.
    Computation(String),
    /// An earlier failure with this message is still remembered; nothing ran.
    NegativeCacheReplay(String),
    /// The durable store could not be used. Such a failure is never cached.
    Store(String),
}

/// The mathematical content of a [`CacheError`].
pub enum CacheErrorView {
    Computation(Seq<char>),
    NegativeCacheReplay(Seq<char>),
    Store(Seq<char>),
}

impl View for CacheError {
    type V = CacheErrorView;

    open spec fn view(&self) -> CacheErrorView {
        match self {
            CacheError::Computation(m) => CacheErrorView::Computation(m@),
            CacheError::NegativeCacheReplay(m) => CacheErrorView::NegativeCacheReplay(m@),
            CacheError::Store(m) => CacheErrorView::Store(m@),
        }
    }
}

impl CacheErrorView {
    /// The message of the failure, whatever its kind.
    pub open spec fn message(self) -> Seq<char> {
        match self {
            CacheErrorView::Computation(m) => m,
            CacheErrorView::NegativeCacheReplay(m) => m,
            CacheErrorView::Store(m) => m,
        }
    }
}

impl CacheError {
    /// The message of the failure, whatever its kind.
    pub fn message(&self) -> (m: &String)
        ensures
            m@ == self@.message(),
    {
        match self {
            CacheError::Computation(m) => m,
            CacheError::NegativeCacheReplay(m) => m,
            CacheError::Store(m) => m,
        }
    }

    /// Whether the failure was replayed from the cache without a new attempt.
    pub fn is_replay(&self) -> (r: bool)
        ensures
            r == (self@ is NegativeCacheReplay),
    {
        match self {
            CacheError::NegativeCacheReplay(_) => true,
            _ => false,
        }
    }
}

} // verus!
