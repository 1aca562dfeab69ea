//! The single-flight coordinator: for each request it decides whether the
//! caller is served from the store, waits for a computation that is already
//! running, or has to run one, and it files what a computation returned.
//!
//! The coordinator never runs a computation itself. A caller asks with
//! [`Coordinator::request`], does what the [`Decision`] says, and hands the
//! outcome of a computation it ran to [`Coordinator::complete`].

use vstd::prelude::*;
use crate::entry::{CacheEntry, EntryView, Payload, PayloadView};
use crate::error::{CacheError, CacheErrorView};
use crate::flight::FlightRegistry;
use crate::freshness::{classify, freshness_of, Freshness};
use crate::options::{CacheComputeResult, CacheGetOptions, OptionsView};
use crate::store::{entries_well_formed, EntryId, EntryStore};

verus! {

/// What is to be done for a request, before any payload is attached.
#[derive(Clone, Copy, Debug, PartialEq, Eq, Structural)]
pub enum Plan {
    /// Serve the stored value; it is fresh.
    Serve,
    /// Serve the stored value though it is stale; a computation for the key
    /// is already in flight.
    ServeStale,
    /// Serve the stored value though it is stale, and start a detached
    /// computation that refreshes it.
    ServeStaleAndRefresh,
    /// Fail with the remembered failure; run nothing.
    ReplayFailure,
    /// Run the computation and wait for it.
    Compute,
    /// Wait for the computation that is already in flight for the key.
    AwaitInFlight,
}

impl Plan {
    /// Whether the plan starts a computation.
    pub open spec fn starts_computation(self) -> bool {
        self == Plan::Compute || self == Plan::ServeStaleAndRefresh
    }

    /// Whether the plan hands the stored value to the caller.
    pub open spec fn serves_stored_value(self) -> bool {
        self == Plan::Serve || self == Plan::ServeStale || self == Plan::ServeStaleAndRefresh
    }
}

/// The plan for a request that finds the key in state `freshness`, given
/// whether the caller accepts stale values and whether a computation for the
/// key is in flight.
pub open spec fn plan_of(freshness: Freshness, allow_stale: bool, in_flight: bool) -> Plan {
    match freshness {
        Freshness::Fresh => Plan::Serve,
        Freshness::NegativeHit => Plan::ReplayFailure,
        Freshness::Stale if allow_stale => if in_flight {
            Plan::ServeStale
        } else {
            Plan::ServeStaleAndRefresh
        },
        _ => if in_flight {
            Plan::AwaitInFlight
        } else {
            Plan::Compute
        },
    }
}

/// Computes [`plan_of`].
pub fn plan_for(freshness: Freshness, allow_stale: bool, in_flight: bool) -> (plan: Plan)
    ensures
        plan == plan_of(freshness, allow_stale, in_flight),
{
    match freshness {
        Freshness::Fresh => Plan::Serve,
        Freshness::NegativeHit => Plan::ReplayFailure,
        Freshness::Stale => {
            if allow_stale {
                if in_flight {
                    Plan::ServeStale
                } else {
                    Plan::ServeStaleAndRefresh
                }
            } else if in_flight {
                Plan::AwaitInFlight
            } else {
                Plan::Compute
            }
        },
        _ => {
            if in_flight {
                Plan::AwaitInFlight
            } else {
                Plan::Compute
            }
        },
    }
}

/// What the caller of [`Coordinator::request`] has to do.
#[derive(Debug, PartialEq, Eq)]
pub enum Decision {
    /// Return this fresh value.
    Serve(Vec<u8>),
    /// Return this stale value; a computation for the key is in flight.
    ServeStale(Vec<u8>),
    /// Return this stale value, and run the computation detached from the
    /// caller; hand its outcome to [`Coordinator::complete`] and drop what
    /// that returns.
    ServeStaleAndRefresh(Vec<u8>),
    /// Fail with [`CacheError::NegativeCacheReplay`] of this message.
    ReplayFailure(String),
    /// Run the computation, hand its outcome to [`Coordinator::complete`]
    /// and return what that returns, to this caller and to every caller that
    /// was told to wait meanwhile.
    Compute,
    /// Wait for the computation in flight and return what its
    /// [`Coordinator::complete`] returns.
    AwaitInFlight,
}

/// The mathematical content of a [`Decision`].
pub enum DecisionView {
    Serve(Seq<u8>),
    ServeStale(Seq<u8>),
    ServeStaleAndRefresh(Seq<u8>),
    ReplayFailure(Seq<char>),
    Compute,
    AwaitInFlight,
}

impl View for Decision {
    type V = DecisionView;

    open spec fn view(&self) -> DecisionView {
        match self {
            Decision::Serve(b) => DecisionView::Serve(b@),
            Decision::ServeStale(b) => DecisionView::ServeStale(b@),
            Decision::ServeStaleAndRefresh(b) => DecisionView::ServeStaleAndRefresh(b@),
            Decision::ReplayFailure(m) => DecisionView::ReplayFailure(m@),
            Decision::Compute => DecisionView::Compute,
            Decision::AwaitInFlight => DecisionView::AwaitInFlight,
        }
    }
}

impl DecisionView {
    /// The plan that the decision carries out.
    pub open spec fn plan(self) -> Plan {
        match self {
            DecisionView::Serve(_) => Plan::Serve,
            DecisionView::ServeStale(_) => Plan::ServeStale,
            DecisionView::ServeStaleAndRefresh(_) => Plan::ServeStaleAndRefresh,
            DecisionView::ReplayFailure(_) => Plan::ReplayFailure,
            DecisionView::Compute => Plan::Compute,
            DecisionView::AwaitInFlight => Plan::AwaitInFlight,
        }
    }

    /// What the caller returns at once, if the decision lets it: the stored
    /// value, or the remembered failure marked as a replay. `None` where the
    /// caller has to wait for a computation.
    pub open spec fn answer(self) -> Option<Result<Seq<u8>, CacheErrorView>> {
        match self {
            DecisionView::Serve(bytes) => Some(Ok(bytes)),
            DecisionView::ServeStale(bytes) => Some(Ok(bytes)),
            DecisionView::ServeStaleAndRefresh(bytes) => Some(Ok(bytes)),
            DecisionView::ReplayFailure(message) => Some(
                Err(CacheErrorView::NegativeCacheReplay(message)),
            ),
            DecisionView::Compute => None,
            DecisionView::AwaitInFlight => None,
        }
    }

    /// What the caller returns in the end, where `delivered` is what the
    /// computation that it ran or waited for handed out on completion.
    pub open spec fn received(self, delivered: Result<Seq<u8>, CacheErrorView>) -> Result<
        Seq<u8>,
        CacheErrorView,
    > {
        match self.answer() {
            Some(answer) => answer,
            None => delivered,
        }
    }

    /// The decision that carries out `plan` on what the store holds.
    pub open spec fn of(plan: Plan, entry: Option<EntryView>) -> DecisionView {
        match plan {
            Plan::Serve => DecisionView::Serve(entry->0.payload->Value_0),
            Plan::ServeStale => DecisionView::ServeStale(entry->0.payload->Value_0),
            Plan::ServeStaleAndRefresh => DecisionView::ServeStaleAndRefresh(
                entry->0.payload->Value_0,
            ),
            Plan::ReplayFailure => DecisionView::ReplayFailure(entry->0.payload->Failure_0),
            Plan::Compute => DecisionView::Compute,
            Plan::AwaitInFlight => DecisionView::AwaitInFlight,
        }
    }
}

/// The view of what a caller returns at once.
pub open spec fn answer_view(answer: Option<Result<Vec<u8>, CacheError>>) -> Option<
    Result<Seq<u8>, CacheErrorView>,
> {
    match answer {
        Some(r) => Some(delivery_view(r)),
        None => None,
    }
}

impl Decision {
    /// What the caller returns at once, if the decision lets it: the stored
    /// value, or the remembered failure as
    /// [`CacheError::NegativeCacheReplay`]. `None` where the caller has to
    /// wait for a computation, its own or the one in flight.
    pub fn answer(self) -> (answer: Option<Result<Vec<u8>, CacheError>>)
        ensures
            answer_view(answer) == self@.answer(),
    {
        match self {
            Decision::Serve(bytes) => Some(Ok(bytes)),
            Decision::ServeStale(bytes) => Some(Ok(bytes)),
            Decision::ServeStaleAndRefresh(bytes) => Some(Ok(bytes)),
            Decision::ReplayFailure(message) => Some(Err(CacheError::NegativeCacheReplay(message))),
            Decision::Compute => None,
            Decision::AwaitInFlight => None,
        }
    }

    /// Whether the caller has to start the computation: to wait for it, or,
    /// where it is served a stale value, detached from itself.
    pub fn starts_computation(&self) -> (r: bool)
        ensures
            r == self@.plan().starts_computation(),
    {
        match self {
            Decision::Compute => true,
            Decision::ServeStaleAndRefresh(_) => true,
            _ => false,
        }
    }
}

/// How a computation ended, as the coordinator files it: the serialized value
/// of a success, bare or with a time-to-live of its own, or the message of
/// a failure.
pub type ComputeOutcome = Result<CacheComputeResult<Vec<u8>>, String>;

/// The mathematical content of a [`ComputeOutcome`].
pub enum OutcomeView {
    /// A value and the time-to-live that came with it, if any.
    Value(Seq<u8>, Option<nat>),
    Failure(Seq<char>),
}

/// The view of a computation's outcome.
pub open spec fn outcome_view(outcome: ComputeOutcome) -> OutcomeView {
    match outcome {
        Ok(r) => OutcomeView::Value(r.value()@, r.explicit_ttl()),
        Err(m) => OutcomeView::Failure(m@),
    }
}

/// The view of what a completed computation hands to its callers.
pub open spec fn delivery_view(r: Result<Vec<u8>, CacheError>) -> Result<Seq<u8>, CacheErrorView> {
    match r {
        Ok(b) => Ok(b@),
        Err(e) => Err(e@),
    }
}

/// The state of a [`Coordinator`]: what is stored, and for which keys a
/// computation is in flight.
pub struct CoordinatorView {
    pub entries: Map<EntryId, EntryView>,
    pub in_flight: Set<EntryId>,
}

impl CoordinatorView {
    /// The state of a coordinator that has seen nothing.
    pub open spec fn empty() -> CoordinatorView {
        CoordinatorView { entries: Map::empty(), in_flight: Set::empty() }
    }

    /// The invariant of every state: each entry is well formed and filed
    /// under its own `(topic, key)`.
    pub open spec fn well_formed(self) -> bool {
        entries_well_formed(self.entries)
    }

    /// What is stored for `id`.
    pub open spec fn entry(self, id: EntryId) -> Option<EntryView> {
        if self.entries.contains_key(id) {
            Some(self.entries[id])
        } else {
            None
        }
    }

    /// The plan for a request with `options` at `now`.
    pub open spec fn plan(self, options: OptionsView, now: nat) -> Plan {
        plan_of(
            freshness_of(self.entry(options.id()), now, options.negative_ttl),
            options.allow_stale,
            self.in_flight.contains(options.id()),
        )
    }

    /// What a request with `options` at `now` is told to do.
    pub open spec fn decision(self, options: OptionsView, now: nat) -> DecisionView {
        DecisionView::of(self.plan(options, now), self.entry(options.id()))
    }

    /// The state after a request with `options` at `now`: the key is
    /// registered as in flight where the request starts a computation, and
    /// nothing else changes.
    pub open spec fn after_request(self, options: OptionsView, now: nat) -> CoordinatorView {
        if self.plan(options, now).starts_computation() {
            CoordinatorView { in_flight: self.in_flight.insert(options.id()), ..self }
        } else {
            self
        }
    }

    /// The entry that a computation's outcome leaves behind when it is
    /// written at `now` for a request with `options`.
    pub open spec fn entry_for(options: OptionsView, outcome: OutcomeView, now: nat) -> EntryView {
        match outcome {
            OutcomeView::Value(bytes, ttl) => EntryView::positive(
                options.topic,
                options.key,
                bytes,
                now,
                options.soft_ttl,
                options.hard_ttl,
                ttl,
            ),
            OutcomeView::Failure(message) => EntryView::negative(
                options.topic,
                options.key,
                message,
                now,
                options.negative_ttl,
            ),
        }
    }

    /// The state after the computation for a request with `options` ended in
    /// `outcome` at `now`: the outcome replaces what was stored for the key,
    /// and the key is no longer in flight.
    pub open spec fn after_complete(
        self,
        options: OptionsView,
        outcome: OutcomeView,
        now: nat,
    ) -> CoordinatorView {
        CoordinatorView {
            entries: self.entries.insert(options.id(), Self::entry_for(options, outcome, now)),
            in_flight: self.in_flight.remove(options.id()),
        }
    }

    /// What a completed computation hands to the callers that wait for it.
    pub open spec fn delivery(outcome: OutcomeView) -> Result<Seq<u8>, CacheErrorView> {
        match outcome {
            OutcomeView::Value(bytes, _) => Ok(bytes),
            OutcomeView::Failure(message) => Err(CacheErrorView::Computation(message)),
        }
    }

    /// The state after `id` was invalidated: nothing is stored for it and
    /// nothing is in flight for it.
    pub open spec fn after_invalidate(self, id: EntryId) -> CoordinatorView {
        CoordinatorView { entries: self.entries.remove(id), in_flight: self.in_flight.remove(id) }
    }

    /// The state after the store failed a request for `id`: the key is no
    /// longer in flight, and what is stored stays as it is.
    pub open spec fn after_store_failure(self, id: EntryId) -> CoordinatorView {
        CoordinatorView { in_flight: self.in_flight.remove(id), ..self }
    }
}

/// The coordinator: an entry store and the registry of computations in
/// flight.
pub struct Coordinator {
    store: EntryStore,
    in_flight: FlightRegistry,
}

impl View for Coordinator {
    type V = CoordinatorView;

    closed spec fn view(&self) -> CoordinatorView {
        CoordinatorView { entries: self.store@, in_flight: self.in_flight@ }
    }
}

impl Coordinator {
    /// A coordinator with an empty store and nothing in flight.
    pub fn new() -> (c: Coordinator)
        ensures
            c@ == CoordinatorView::empty(),
    {
        Coordinator { store: EntryStore::new(), in_flight: FlightRegistry::new() }
    }

    /// A coordinator over `store`, with nothing in flight.
    pub fn with_store(store: EntryStore) -> (c: Coordinator)
        ensures
            c@ == (CoordinatorView { entries: store@, in_flight: Set::empty() }),
    {
        Coordinator { store, in_flight: FlightRegistry::new() }
    }

    /// The entry store.
    pub fn store(&self) -> (s: &EntryStore)
        ensures
            s@ == self@.entries,
    {
        &self.store
    }

    /// Whether a computation for `(topic, key)` is in flight.
    pub fn is_in_flight(&self, topic: &str, key: &str) -> (r: bool)
        ensures
            r == self@.in_flight.contains((topic@, key@)),
    {
        self.in_flight.contains(topic, key)
    }

    /// Decides what the caller of a request with `options` at `now` has to
    /// do, and registers the computation that the caller is told to start.
    pub fn request(&mut self, options: &CacheGetOptions, now: u64) -> (decision: Decision)
        ensures
            decision@ == old(self)@.decision(options@, now as nat),
            final(self)@ == old(self)@.after_request(options@, now as nat),
            old(self)@.well_formed(),
            final(self)@.well_formed(),
    {
        let busy = self.in_flight.contains(options.topic, options.key);
        let found = self.store.get(options.topic, options.key);
        let plan = plan_for(classify(found, now, options.negative_ttl), options.allow_stale, busy);
        let decision = match plan {
            Plan::Compute => Decision::Compute,
            Plan::AwaitInFlight => Decision::AwaitInFlight,
            _ => {
                match found.unwrap().payload() {
                    Payload::Value(bytes) => {
                        match plan {
                            Plan::Serve => Decision::Serve(bytes.clone()),
                            Plan::ServeStale => Decision::ServeStale(bytes.clone()),
                            _ => Decision::ServeStaleAndRefresh(bytes.clone()),
                        }
                    },
                    Payload::Failure(message) => Decision::ReplayFailure(message.clone()),
                }
            },
        };
        match plan {
            Plan::Compute | Plan::ServeStaleAndRefresh => {
                self.in_flight.insert(options.topic, options.key);
            },
            _ => {},
        }
        decision
    }

    /// The entry that `outcome` leaves behind when it is written at `now` for
    /// a request with `options`. A durable store writes this entry before
    /// the outcome is filed with [`Coordinator::complete`].
    pub fn entry_for(options: &CacheGetOptions, outcome: &ComputeOutcome, now: u64) -> (entry:
        CacheEntry)
        ensures
            entry@ == CoordinatorView::entry_for(options@, outcome_view(*outcome), now as nat),
    {
        match outcome {
            Ok(CacheComputeResult::Value(bytes)) => CacheEntry::positive(
                options.topic,
                options.key,
                bytes.clone(),
                now,
                options.soft_ttl,
                options.hard_ttl,
                None,
            ),
            Ok(CacheComputeResult::WithTtl(bytes, ttl)) => CacheEntry::positive(
                options.topic,
                options.key,
                bytes.clone(),
                now,
                options.soft_ttl,
                options.hard_ttl,
                Some(*ttl),
            ),
            Err(message) => CacheEntry::negative(
                options.topic,
                options.key,
                message.clone(),
                now,
                options.negative_ttl,
            ),
        }
    }

    /// Files the outcome of the computation that ran for a request with
    /// `options` and ended at `now`, and returns what the callers that wait
    /// for it receive: the value, or the failure as
    /// [`CacheError::Computation`].
    pub fn complete(&mut self, options: &CacheGetOptions, outcome: ComputeOutcome, now: u64) -> (delivered:
        Result<Vec<u8>, CacheError>)
        ensures
            delivery_view(delivered) == CoordinatorView::delivery(outcome_view(outcome)),
            final(self)@ == old(self)@.after_complete(
                options@,
                outcome_view(outcome),
                now as nat,
            ),
            final(self)@.well_formed(),
    {
        let entry = Coordinator::entry_for(options, &outcome, now);
        self.store.put(entry);
        self.in_flight.remove(options.topic, options.key);
        match outcome {
            Ok(computed) => Ok(computed.into_inner()),
            Err(message) => Err(CacheError::Computation(message)),
        }
    }

    /// Removes what is stored for `(topic, key)` and clears its registration,
    /// so that the next request for it runs the computation. Never fails.
    pub fn invalidate(&mut self, topic: &str, key: &str)
        ensures
            final(self)@ == old(self)@.after_invalidate((topic@, key@)),
            final(self)@.well_formed(),
    {
        self.store.delete(topic, key);
        self.in_flight.remove(topic, key);
    }

    /// Gives up the request for `(topic, key)` because the durable store
    /// failed with `detail`: clears the registration, files nothing, and
    /// returns the error for the caller.
    pub fn fail_store(&mut self, topic: &str, key: &str, detail: String) -> (error: CacheError)
        ensures
            error@ == CacheErrorView::Store(detail@),
            final(self)@ == old(self)@.after_store_failure((topic@, key@)),
    {
        self.in_flight.remove(topic, key);
        CacheError::Store(detail)
    }
}

} // verus!
