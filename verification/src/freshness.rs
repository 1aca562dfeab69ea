//! The freshness policy: what an entry is worth at a given time.

use vstd::prelude::*;
use crate::entry::{CacheEntry, EntryView};

verus! {

/// The state of what the store holds for a key, as one request sees it.
#[derive(Clone, Copy, Debug, PartialEq, Eq, Structural)]
pub enum Freshness {
    /// Nothing is stored.
    Absent,
    /// A value before its soft expiry.
    Fresh,
    /// A value from its soft expiry on and before its hard expiry.
    Stale,
    /// A value at or after its hard expiry.
    Expired,
    /// A remembered failure no older than the request's `negative_ttl`.
    NegativeHit,
    /// A remembered failure older than the request's `negative_ttl`.
    NegativeExpired,
}

/// The freshness of `entry` at `now` for a request that remembers failures for
/// `negative_ttl`. A value is judged by the expiries it was written with; a
/// failure by its age, `now - created_at`, against the `negative_ttl` of the
/// request at hand.
pub open spec fn freshness_of(entry: Option<EntryView>, now: nat, negative_ttl: nat) -> Freshness {
    match entry {
        None => Freshness::Absent,
        Some(e) => if e.is_negative() {
            if now - e.created_at <= negative_ttl {
                Freshness::NegativeHit
            } else {
                Freshness::NegativeExpired
            }
        } else if now < e.soft_expiry {
            Freshness::Fresh
        } else if now < e.hard_expiry {
            Freshness::Stale
        } else {
            Freshness::Expired
        },
    }
}

/// The view of an optional entry.
pub open spec fn entry_view(entry: Option<&CacheEntry>) -> Option<EntryView> {
    match entry {
        Some(e) => Some(e@),
        None => None,
    }
}

/// Classifies what the store holds for a key.
pub fn classify(entry: Option<&CacheEntry>, now: u64, negative_ttl: u64) -> (f: Freshness)
    ensures
        f == freshness_of(entry_view(entry), now as nat, negative_ttl as nat),
{
    match entry {
        None => Freshness::Absent,
        Some(e) => {
            if e.is_negative() {
                let created: u64 = e.created_at();
                if now <= created || now - created <= negative_ttl {
                    Freshness::NegativeHit
                } else {
                    Freshness::NegativeExpired
                }
            } else if now < e.soft_expiry() {
                Freshness::Fresh
            } else if now < e.hard_expiry() {
                Freshness::Stale
            } else {
                Freshness::Expired
            }
        },
    }
}

} // verus!
