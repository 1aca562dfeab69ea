//! Cache entries: what the store keeps for one `(topic, key)`.

use vstd::prelude::*;

verus! {

/// The instant `ttl` milliseconds after `now`, held at `u64::MAX` where the
/// sum does not fit.
pub open spec fn expiry_after(now: nat, ttl: nat) -> nat {
    if now + ttl > u64::MAX {
        u64::MAX as nat
    } else {
        now + ttl
    }
}

/// What an entry remembers: the serialized value of a success, or the message
/// of a failure.
#[derive(Debug, PartialEq, Eq)]
pub enum Payload {
    Value(Vec<u8>),
    Failure(String),
}

/// The mathematical content of a [`Payload`].
pub enum PayloadView {
    Value(Seq<u8>),
    Failure(Seq<char>),
}

impl View for Payload {
    type V = PayloadView;

    open spec fn view(&self) -> PayloadView {
        match self {
            Payload::Value(bytes) => PayloadView::Value(bytes@),
            Payload::Failure(message) => PayloadView::Failure(message@),
        }
    }
}

impl Clone for Payload {
    fn clone(&self) -> (copy: Payload)
        ensures
            copy@ == self@,
    {
        match self {
            Payload::Value(bytes) => Payload::Value(bytes.clone()),
            Payload::Failure(message) => Payload::Failure(message.clone()),
        }
    }
}

/// One cache entry. It is written whole and never updated in part.
#[derive(Debug, PartialEq, Eq)]
pub struct CacheEntry {
    topic: String,
    key: String,
    payload: Payload,
    created_at: u64,
    soft_expiry: u64,
    hard_expiry: u64,
}

/// The mathematical content of a [`CacheEntry`].
pub struct EntryView {
    pub topic: Seq<char>,
    pub key: Seq<char>,
    pub payload: PayloadView,
    pub created_at: nat,
    pub soft_expiry: nat,
    pub hard_expiry: nat,
}

impl EntryView {
    /// The `(topic, key)` pair under which the entry is stored.
    pub open spec fn id(self) -> (Seq<char>, Seq<char>) {
        (self.topic, self.key)
    }

    /// Whether the entry remembers a failure.
    pub open spec fn is_negative(self) -> bool {
        self.payload is Failure
    }

    /// The invariant of every entry: it does not expire before it was
    /// written, a value is stale no later than it expires for good, and a
    /// remembered failure has a single expiry.
    pub open spec fn well_formed(self) -> bool {
        &&& self.created_at <= self.soft_expiry <= self.hard_expiry <= u64::MAX
        &&& self.is_negative() ==> self.soft_expiry == self.hard_expiry
    }

    /// The entry that a computation's value leaves behind when it is written
    /// at `now`. A bare value (`explicit_ttl` is `None`) is stale after
    /// `soft_ttl` and expires after `hard_ttl`, the former capped by the
    /// latter; a time-to-live declared by the computation sets both expiries
    /// and the configured ones are not consulted.
    pub open spec fn positive(
        topic: Seq<char>,
        key: Seq<char>,
        bytes: Seq<u8>,
        now: nat,
        soft_ttl: nat,
        hard_ttl: nat,
        explicit_ttl: Option<nat>,
    ) -> EntryView {
        let soft = match explicit_ttl {
            Some(ttl) => ttl,
            None => if soft_ttl <= hard_ttl { soft_ttl } else { hard_ttl },
        };
        let hard = match explicit_ttl {
            Some(ttl) => ttl,
            None => hard_ttl,
        };
        EntryView {
            topic,
            key,
            payload: PayloadView::Value(bytes),
            created_at: now,
            soft_expiry: expiry_after(now, soft),
            hard_expiry: expiry_after(now, hard),
        }
    }

    /// The entry that a failed computation leaves behind when it is written
    /// at `now`.
    pub open spec fn negative(
        topic: Seq<char>,
        key: Seq<char>,
        message: Seq<char>,
        now: nat,
        negative_ttl: nat,
    ) -> EntryView {
        EntryView {
            topic,
            key,
            payload: PayloadView::Failure(message),
            created_at: now,
            soft_expiry: expiry_after(now, negative_ttl),
            hard_expiry: expiry_after(now, negative_ttl),
        }
    }
}

impl View for CacheEntry {
    type V = EntryView;

    closed spec fn view(&self) -> EntryView {
        EntryView {
            topic: self.topic@,
            key: self.key@,
            payload: self.payload@,
            created_at: self.created_at as nat,
            soft_expiry: self.soft_expiry as nat,
            hard_expiry: self.hard_expiry as nat,
        }
    }
}

impl Clone for CacheEntry {
    fn clone(&self) -> (copy: CacheEntry)
        ensures
            copy@ == self@,
    {
        proof {
            use_type_invariant(self);
        }
        CacheEntry {
            topic: self.topic.clone(),
            key: self.key.clone(),
            payload: self.payload.clone(),
            created_at: self.created_at,
            soft_expiry: self.soft_expiry,
            hard_expiry: self.hard_expiry,
        }
    }
}

impl CacheEntry {
    #[verifier::type_invariant]
    pub open spec fn inv(self) -> bool {
        self@.well_formed()
    }

    /// The entry for a value computed at `now`.
    pub fn positive(
        topic: &str,
        key: &str,
        bytes: Vec<u8>,
        now: u64,
        soft_ttl: u64,
        hard_ttl: u64,
        explicit_ttl: Option<u64>,
    ) -> (entry: CacheEntry)
        ensures
            entry@ == EntryView::positive(
                topic@,
                key@,
                bytes@,
                now as nat,
                soft_ttl as nat,
                hard_ttl as nat,
                match explicit_ttl {
                    Some(ttl) => Some(ttl as nat),
                    None => None,
                },
            ),
    {
        let soft: u64 = match explicit_ttl {
            Some(ttl) => ttl,
            None => if soft_ttl <= hard_ttl { soft_ttl } else { hard_ttl },
        };
        let hard: u64 = match explicit_ttl {
            Some(ttl) => ttl,
            None => hard_ttl,
        };
        CacheEntry {
            topic: topic.to_owned(),
            key: key.to_owned(),
            payload: Payload::Value(bytes),
            created_at: now,
            soft_expiry: now.saturating_add(soft),
            hard_expiry: now.saturating_add(hard),
        }
    }

    /// The entry for a computation that failed at `now`.
    pub fn negative(topic: &str, key: &str, message: String, now: u64, negative_ttl: u64) -> (entry:
        CacheEntry)
        ensures
            entry@ == EntryView::negative(
                topic@,
                key@,
                message@,
                now as nat,
                negative_ttl as nat,
            ),
    {
        let expiry: u64 = now.saturating_add(negative_ttl);
        CacheEntry {
            topic: topic.to_owned(),
            key: key.to_owned(),
            payload: Payload::Failure(message),
            created_at: now,
            soft_expiry: expiry,
            hard_expiry: expiry,
        }
    }

    /// Rebuilds an entry from stored fields, or `None` where they break the
    /// invariant of entries.
    pub fn from_parts(
        topic: String,
        key: String,
        payload: Payload,
        created_at: u64,
        soft_expiry: u64,
        hard_expiry: u64,
    ) -> (entry: Option<CacheEntry>)
        ensures
            ({
                let v = EntryView {
                    topic: topic@,
                    key: key@,
                    payload: payload@,
                    created_at: created_at as nat,
                    soft_expiry: soft_expiry as nat,
                    hard_expiry: hard_expiry as nat,
                };
                match entry {
                    Some(e) => v.well_formed() && e@ == v,
                    None => !v.well_formed(),
                }
            }),
    {
        let negative = match &payload {
            Payload::Value(_) => false,
            Payload::Failure(_) => true,
        };
        if created_at <= soft_expiry && soft_expiry <= hard_expiry && (!negative || soft_expiry
            == hard_expiry) {
            Some(CacheEntry { topic, key, payload, created_at, soft_expiry, hard_expiry })
        } else {
            None
        }
    }

    pub fn topic(&self) -> (r: &String)
        ensures
            r@ == self@.topic,
    {
        &self.topic
    }

    pub fn key(&self) -> (r: &String)
        ensures
            r@ == self@.key,
    {
        &self.key
    }

    pub fn payload(&self) -> (r: &Payload)
        ensures
            r@ == self@.payload,
    {
        &self.payload
    }

    pub fn created_at(&self) -> (r: u64)
        ensures
            r == self@.created_at,
    {
        self.created_at
    }

    pub fn soft_expiry(&self) -> (r: u64)
        ensures
            r == self@.soft_expiry,
    {
        self.soft_expiry
    }

    pub fn hard_expiry(&self) -> (r: u64)
        ensures
            r == self@.hard_expiry,
    {
        self.hard_expiry
    }

    pub fn is_negative(&self) -> (r: bool)
        ensures
            r == self@.is_negative(),
    {
        match &self.payload {
            Payload::Value(_) => false,
            Payload::Failure(_) => true,
        }
    }
}

} // verus!
