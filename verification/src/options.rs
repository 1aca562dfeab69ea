//! The per-request options and the result of a computation.

use vstd::prelude::*;

verus! {

/// What a caller asks of the cache for one request. Nothing of this is stored
/// with the entry: the time-to-live values of the caller that writes an entry
/// decide its expiry, and every reader applies its own `negative_ttl` and
/// `allow_stale`.
#[derive(Clone, Copy, Debug)]
pub struct CacheGetOptions<'a> {
    /// Namespace that groups related keys.
    pub topic: &'a str,
    /// Identifier, unique within the topic.
    pub key: &'a str,
    /// Milliseconds after which a value is stale.
    pub soft_ttl: u64,
    /// Milliseconds after which a value must not be served.
    pub hard_ttl: u64,
    /// Milliseconds for which a failure is remembered.
    pub negative_ttl: u64,
    /// Whether a stale value may be served while it is refreshed.
    pub allow_stale: bool,
}

/// The mathematical content of [`CacheGetOptions`].
pub struct OptionsView {
    pub topic: Seq<char>,
    pub key: Seq<char>,
    pub soft_ttl: nat,
    pub hard_ttl: nat,
    pub negative_ttl: nat,
    pub allow_stale: bool,
}

impl<'a> View for CacheGetOptions<'a> {
    type V = OptionsView;

    open spec fn view(&self) -> OptionsView {
        OptionsView {
            topic: self.topic@,
            key: self.key@,
            soft_ttl: self.soft_ttl as nat,
            hard_ttl: self.hard_ttl as nat,
            negative_ttl: self.negative_ttl as nat,
            allow_stale: self.allow_stale,
        }
    }
}

impl OptionsView {
    /// The `(topic, key)` pair that the request addresses.
    pub open spec fn id(self) -> (Seq<char>, Seq<char>) {
        (self.topic, self.key)
    }
}

/// What a successful computation hands back: a bare value, whose expiry
/// follows the caller's options, or a value with a time-to-live of its own
/// (milliseconds) that overrides them.
#[derive(Debug)]
pub enum CacheComputeResult<T> {
    Value(T),
    WithTtl(T, u64),
}

impl<T> CacheComputeResult<T> {
    /// The value, whichever way it was returned.
    pub open spec fn value(self) -> T {
        match self {
            CacheComputeResult::Value(v) => v,
            CacheComputeResult::WithTtl(v, _) => v,
        }
    }

    /// The time-to-live that the computation declared, if it declared one.
    pub open spec fn explicit_ttl(self) -> Option<nat> {
        match self {
            CacheComputeResult::Value(_) => None,
            CacheComputeResult::WithTtl(_, ttl) => Some(ttl as nat),
        }
    }

    /// Unwraps the value and drops the time-to-live.
    pub fn into_inner(self) -> (v: T)
        ensures
            v == self.value(),
    {
        match self {
            CacheComputeResult::Value(v) => v,
            CacheComputeResult::WithTtl(v, _) => v,
        }
    }
}

} // verus!
