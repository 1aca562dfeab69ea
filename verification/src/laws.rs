//! What holds of every run of the coordinator, stated over its states and
//! proved from the definitions in [`crate::coordinator`].

use vstd::prelude::*;
use crate::coordinator::{CoordinatorView, DecisionView, OutcomeView, Plan};
use crate::entry::{expiry_after, EntryView, PayloadView};
use crate::error::CacheErrorView;
use crate::freshness::{freshness_of, Freshness};
use crate::options::OptionsView;
use crate::store::EntryId;

verus! {

/// The soft time-to-live that a bare value is written with: the configured
/// one, capped by the hard one.
pub open spec fn effective_soft_ttl(options: OptionsView) -> nat {
    if options.soft_ttl <= options.hard_ttl {
        options.soft_ttl
    } else {
        options.hard_ttl
    }
}

/// How far a state of freshness has decayed.
pub open spec fn staleness_rank(f: Freshness) -> nat {
    match f {
        Freshness::Fresh => 0,
        Freshness::Stale => 1,
        Freshness::Expired => 2,
        Freshness::NegativeHit => 0,
        Freshness::NegativeExpired => 2,
        Freshness::Absent => 2,
    }
}

impl CoordinatorView {
    /// The state after one request with `options` at each of `times`, in
    /// order, with no computation completing in between.
    pub open spec fn after_requests(self, options: OptionsView, times: Seq<nat>) -> CoordinatorView
        decreases times.len(),
    {
        if times.len() == 0 {
            self
        } else {
            self.after_requests(options, times.drop_last()).after_request(options, times.last())
        }
    }

    /// What the request at `times[i]` is told to do in such a run.
    pub open spec fn nth_decision(self, options: OptionsView, times: Seq<nat>, i: int) -> DecisionView {
        self.after_requests(options, times.take(i)).decision(options, times[i])
    }
}

/// Every transition keeps the invariant of states, and so every state that a
/// coordinator reaches from the empty one is well formed.
pub proof fn law_states_stay_well_formed(
    state: CoordinatorView,
    options: OptionsView,
    outcome: OutcomeView,
    now: nat,
)
    requires
        state.well_formed(),
        now <= u64::MAX,
    ensures
        CoordinatorView::empty().well_formed(),
        state.after_request(options, now).well_formed(),
        state.after_complete(options, outcome, now).well_formed(),
        state.after_invalidate(options.id()).well_formed(),
        state.after_store_failure(options.id()).well_formed(),
        CoordinatorView::entry_for(options, outcome, now).well_formed(),
        CoordinatorView::entry_for(options, outcome, now).id() == options.id(),
{
}

/// What a request is told carries out the plan for it, and what it is
/// handed is what the store holds: a served value is the stored value, a
/// replayed failure the stored failure.
pub proof fn law_decision_carries_what_is_stored(
    state: CoordinatorView,
    options: OptionsView,
    now: nat,
)
    ensures
        state.decision(options, now).plan() == state.plan(options, now),
        state.plan(options, now).serves_stored_value() ==> (state.entry(options.id()) matches Some(
            e,
        ) && e.payload matches PayloadView::Value(bytes) && (state.decision(options, now)
            == DecisionView::Serve(bytes) || state.decision(options, now)
            == DecisionView::ServeStale(bytes) || state.decision(options, now)
            == DecisionView::ServeStaleAndRefresh(bytes))),
        state.plan(options, now) == Plan::ReplayFailure ==> (state.entry(options.id()) matches Some(
            e,
        ) && e.payload matches PayloadView::Failure(message) && state.decision(options, now)
            == DecisionView::ReplayFailure(message)),
{
}

/// A request for a key that has no entry and no computation in flight is
/// told to compute, and the key is in flight afterwards.
pub proof fn law_miss_computes(state: CoordinatorView, options: OptionsView, now: nat)
    requires
        !state.entries.contains_key(options.id()),
        !state.in_flight.contains(options.id()),
    ensures
        state.decision(options, now) == DecisionView::Compute,
        state.after_request(options, now).in_flight.contains(options.id()),
        state.after_request(options, now).entries == state.entries,
{
}

/// Once a bare value has been written at `written`, every request for the
/// key before the soft expiry is served that value, whatever else its
/// options say, and starts nothing: the state does not change.
pub proof fn law_fresh_value_is_served(
    state: CoordinatorView,
    writer: OptionsView,
    bytes: Seq<u8>,
    written: nat,
    reader: OptionsView,
    now: nat,
)
    requires
        reader.id() == writer.id(),
        now < expiry_after(written, effective_soft_ttl(writer)),
    ensures
        ({
            let filed = state.after_complete(writer, OutcomeView::Value(bytes, None), written);
            &&& filed.decision(reader, now) == DecisionView::Serve(bytes)
            &&& filed.decision(reader, now).answer() == Some(Ok::<Seq<u8>, CacheErrorView>(bytes))
            &&& filed.after_request(reader, now) == filed
        }),
{
}

/// While a computation for a key is in flight, no request for that key
/// starts another one, and no request changes the state.
pub proof fn law_at_most_one_in_flight(state: CoordinatorView, options: OptionsView, now: nat)
    requires
        state.in_flight.contains(options.id()),
    ensures
        !state.plan(options, now).starts_computation(),
        state.after_request(options, now) == state,
{
}

/// Requests for other keys leave a key's entry and registration alone.
pub proof fn law_keys_are_independent(
    state: CoordinatorView,
    options: OptionsView,
    outcome: OutcomeView,
    now: nat,
    other: EntryId,
)
    requires
        other != options.id(),
    ensures
        state.after_request(options, now).entry(other) == state.entry(other),
        state.after_request(options, now).in_flight.contains(other) == state.in_flight.contains(
            other,
        ),
        state.after_complete(options, outcome, now).entry(other) == state.entry(other),
        state.after_complete(options, outcome, now).in_flight.contains(other)
            == state.in_flight.contains(other),
        state.after_invalidate(options.id()).entry(other) == state.entry(other),
        state.after_invalidate(options.id()).in_flight.contains(other) == state.in_flight.contains(
            other,
        ),
{
}

proof fn lemma_after_requests(state: CoordinatorView, options: OptionsView, times: Seq<nat>)
    requires
        !state.entries.contains_key(options.id()),
        !state.in_flight.contains(options.id()),
    ensures
        state.after_requests(options, times).entries == state.entries,
        state.after_requests(options, times).in_flight == (if times.len() == 0 {
            state.in_flight
        } else {
            state.in_flight.insert(options.id())
        }),
    decreases times.len(),
{
    if times.len() > 0 {
        lemma_after_requests(state, options, times.drop_last());
        let before = state.after_requests(options, times.drop_last());
        if times.len() == 1 {
            assert(before == state);
        } else {
            assert(before.in_flight.contains(options.id()));
            assert(before.after_request(options, times.last()) == before);
        }
    }
}

/// Single flight: of any number of requests for a key that has no entry and
/// no computation in flight, made before the computation completes, the
/// first is told to compute and every other is told to wait for it. So the
/// computation runs once, and every caller receives the one result of its
/// completion, whatever the outcome.
pub proof fn law_single_flight(
    state: CoordinatorView,
    options: OptionsView,
    times: Seq<nat>,
    i: int,
    outcome: OutcomeView,
)
    requires
        !state.entries.contains_key(options.id()),
        !state.in_flight.contains(options.id()),
        0 <= i < times.len(),
    ensures
        state.nth_decision(options, times, i) == (if i == 0 {
            DecisionView::Compute
        } else {
            DecisionView::AwaitInFlight
        }),
        state.nth_decision(options, times, i).received(CoordinatorView::delivery(outcome))
            == CoordinatorView::delivery(outcome),
        !state.after_requests(options, times).entries.contains_key(options.id()),
        state.after_requests(options, times).in_flight.contains(options.id()),
{
    lemma_after_requests(state, options, times.take(i));
    lemma_after_requests(state, options, times);
}

/// A completed computation clears the registration of its key, and hands
/// its callers the value it computed or its failure as a computation error.
pub proof fn law_completion_clears_registration(
    state: CoordinatorView,
    options: OptionsView,
    outcome: OutcomeView,
    now: nat,
)
    ensures
        !state.after_complete(options, outcome, now).in_flight.contains(options.id()),
        state.after_complete(options, outcome, now).entry(options.id()) == Some(
            CoordinatorView::entry_for(options, outcome, now),
        ),
        outcome matches OutcomeView::Value(bytes, _) ==> CoordinatorView::delivery(outcome) == Ok::<
            Seq<u8>,
            CacheErrorView,
        >(bytes),
        outcome matches OutcomeView::Failure(message) ==> CoordinatorView::delivery(outcome)
            == Err::<Seq<u8>, CacheErrorView>(CacheErrorView::Computation(message)),
{
}

/// Negative caching: after a computation failed at `failed`, a request for
/// the key no later than its `negative_ttl` after that is refused with the
/// same message, marked as a replay, and starts nothing; a later one is told
/// to compute again.
pub proof fn law_failure_is_remembered(
    state: CoordinatorView,
    writer: OptionsView,
    message: Seq<char>,
    failed: nat,
    reader: OptionsView,
    now: nat,
)
    requires
        reader.id() == writer.id(),
    ensures
        ({
            let filed = state.after_complete(writer, OutcomeView::Failure(message), failed);
            if now - failed <= reader.negative_ttl {
                &&& filed.decision(reader, now) == DecisionView::ReplayFailure(message)
                &&& filed.decision(reader, now).answer() == Some(
                    Err::<Seq<u8>, CacheErrorView>(CacheErrorView::NegativeCacheReplay(message)),
                )
                &&& filed.after_request(reader, now) == filed
            } else {
                &&& filed.decision(reader, now) == DecisionView::Compute
                &&& filed.after_request(reader, now).in_flight.contains(reader.id())
            }
        }),
{
}

/// Stale while revalidate: after a bare value was written at `written`, a
/// request that allows stale values and comes from the soft expiry on and
/// before the hard expiry is served the old value and told to start one
/// refresh; a second such request before the refresh completes is served the
/// old value too, and starts nothing.
pub proof fn law_stale_while_revalidate(
    state: CoordinatorView,
    writer: OptionsView,
    bytes: Seq<u8>,
    written: nat,
    first: OptionsView,
    first_at: nat,
    second: OptionsView,
    second_at: nat,
)
    requires
        first.id() == writer.id(),
        second.id() == writer.id(),
        first.allow_stale,
        second.allow_stale,
        expiry_after(written, effective_soft_ttl(writer)) <= first_at < expiry_after(
            written,
            writer.hard_ttl,
        ),
        expiry_after(written, effective_soft_ttl(writer)) <= second_at < expiry_after(
            written,
            writer.hard_ttl,
        ),
    ensures
        ({
            let filed = state.after_complete(writer, OutcomeView::Value(bytes, None), written);
            let refreshing = filed.after_request(first, first_at);
            &&& filed.decision(first, first_at) == DecisionView::ServeStaleAndRefresh(bytes)
            &&& refreshing.in_flight.contains(writer.id())
            &&& refreshing.decision(second, second_at) == DecisionView::ServeStale(bytes)
            &&& refreshing.after_request(second, second_at) == refreshing
        }),
{
}

/// A stale value is not served to a request that does not allow it: such a
/// request is treated as if the value had expired.
pub proof fn law_stale_is_not_served_unasked(
    state: CoordinatorView,
    options: OptionsView,
    now: nat,
)
    requires
        !options.allow_stale,
        freshness_of(state.entry(options.id()), now, options.negative_ttl) == Freshness::Stale,
    ensures
        state.plan(options, now) == (if state.in_flight.contains(options.id()) {
            Plan::AwaitInFlight
        } else {
            Plan::Compute
        }),
{
}

/// Hard expiry: a value is never served at or after its hard expiry,
/// whatever the request allows. The caller computes, or waits for the
/// computation in flight.
pub proof fn law_expired_value_is_never_served(
    state: CoordinatorView,
    options: OptionsView,
    now: nat,
)
    requires
        state.well_formed(),
        state.entries.contains_key(options.id()),
        !state.entries[options.id()].is_negative(),
        now >= state.entries[options.id()].hard_expiry,
    ensures
        !state.plan(options, now).serves_stored_value(),
        state.plan(options, now) == (if state.in_flight.contains(options.id()) {
            Plan::AwaitInFlight
        } else {
            Plan::Compute
        }),
{
}

/// After a bare value was written at `written`, a request at or after
/// `hard_ttl` past that is told to compute.
pub proof fn law_hard_expiry_forces_computation(
    state: CoordinatorView,
    writer: OptionsView,
    bytes: Seq<u8>,
    written: nat,
    reader: OptionsView,
    now: nat,
)
    requires
        reader.id() == writer.id(),
        now >= expiry_after(written, writer.hard_ttl),
    ensures
        state.after_complete(writer, OutcomeView::Value(bytes, None), written).decision(
            reader,
            now,
        ) == DecisionView::Compute,
{
}

/// A time-to-live that the computation declared replaces the configured
/// ones: the value is served before it has passed and computed anew from
/// then on, whatever the options of writer and reader say.
pub proof fn law_explicit_ttl_overrides(
    state: CoordinatorView,
    writer: OptionsView,
    bytes: Seq<u8>,
    ttl: nat,
    written: nat,
    reader: OptionsView,
    now: nat,
)
    requires
        reader.id() == writer.id(),
    ensures
        ({
            let filed = state.after_complete(writer, OutcomeView::Value(bytes, Some(ttl)), written);
            &&& filed.entries[writer.id()].soft_expiry == expiry_after(written, ttl)
            &&& filed.entries[writer.id()].hard_expiry == expiry_after(written, ttl)
            &&& filed.decision(reader, now) == (if now < expiry_after(written, ttl) {
                DecisionView::Serve(bytes)
            } else {
                DecisionView::Compute
            })
        }),
{
}

/// Invalidation: the next request for an invalidated key is told to
/// compute, whatever was stored or in flight for it and whatever the time.
pub proof fn law_invalidate_forces_computation(
    state: CoordinatorView,
    options: OptionsView,
    now: nat,
)
    ensures
        state.after_invalidate(options.id()).entry(options.id()) == None::<EntryView>,
        !state.after_invalidate(options.id()).in_flight.contains(options.id()),
        state.after_invalidate(options.id()).decision(options, now) == DecisionView::Compute,
{
}

/// A failed use of the store caches nothing: what is stored stays as it
/// was, and only the registration of the key is cleared.
pub proof fn law_store_failure_is_not_cached(state: CoordinatorView, id: EntryId)
    ensures
        state.after_store_failure(id).entries == state.entries,
        !state.after_store_failure(id).in_flight.contains(id),
{
}

/// As time passes, a stored value only decays: from fresh to stale to
/// expired, never back.
pub proof fn law_freshness_never_improves(
    entry: EntryView,
    earlier: nat,
    later: nat,
    negative_ttl: nat,
)
    requires
        earlier <= later,
    ensures
        staleness_rank(freshness_of(Some(entry), earlier, negative_ttl)) <= staleness_rank(
            freshness_of(Some(entry), later, negative_ttl),
        ),
{
}

} // verus!
