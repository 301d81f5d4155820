//! The state of a light client, and the rules by which an update changes it.

use vstd::prelude::*;
use crate::beacon::{LightClientHeader, LightClientHeaderView};
use crate::context::{
    compute_sync_committee_period, ChainConsensusVerificationContext, ChainValues, VerifierValues,
};
use crate::errors::Error;
use crate::sync_protocol::{
    popcount, LightClientBootstrap, LightClientBootstrapView, LightClientUpdate,
    LightClientUpdateView, SyncCommittee,
};
use crate::types::Slot;
use crate::validation::{
    bootstrap_failure, bootstrap_rejection_details, failure_of, rejection_details, store_period,
    update_failure, update_valid, validate_bootstrap, validate_light_client_update,
};

verus! {

/// The state of a light client: the headers it follows and the committees it trusts.
#[derive(Debug, PartialEq, Eq)]
pub struct Store<const N: usize> {
    /// The latest header known to be finalized.
    pub finalized_header: LightClientHeader,
    /// The latest header that a committee attested to.
    pub optimistic_header: LightClientHeader,
    /// The committee of the period of the finalized header.
    pub current_sync_committee: SyncCommittee<N>,
    /// The committee of the period after that, once known.
    pub next_sync_committee: Option<SyncCommittee<N>>,
    /// The valid update with the most participants seen so far.
    pub best_valid_update: Option<LightClientUpdate<N>>,
    /// The most participants seen in the current period.
    pub current_max_active_participants: u64,
    /// The most participants seen in the period before.
    pub previous_max_active_participants: u64,
}

/// What a store holds.
pub ghost struct StoreView<const N: usize> {
    pub finalized_header: LightClientHeaderView,
    pub optimistic_header: LightClientHeaderView,
    pub current_sync_committee: SyncCommittee<N>,
    pub next_sync_committee: Option<SyncCommittee<N>>,
    pub best_valid_update: Option<LightClientUpdateView<N>>,
    pub current_max_active_participants: u64,
    pub previous_max_active_participants: u64,
}

impl<const N: usize> View for Store<N> {
    type V = StoreView<N>;

    open spec fn view(&self) -> StoreView<N> {
        StoreView {
            finalized_header: self.finalized_header@,
            optimistic_header: self.optimistic_header@,
            current_sync_committee: self.current_sync_committee,
            next_sync_committee: self.next_sync_committee,
            best_valid_update: match self.best_valid_update {
                Some(update) => Some(update@),
                None => None,
            },
            current_max_active_participants: self.current_max_active_participants,
            previous_max_active_participants: self.previous_max_active_participants,
        }
    }
}

impl<const N: usize> Clone for Store<N> {
    fn clone(&self) -> (copy: Self)
        ensures
            copy@ == self@,
    {
        Store {
            finalized_header: self.finalized_header.clone(),
            optimistic_header: self.optimistic_header.clone(),
            current_sync_committee: self.current_sync_committee,
            next_sync_committee: self.next_sync_committee,
            best_valid_update: match &self.best_valid_update {
                Some(update) => Some(update.clone()),
                None => None,
            },
            current_max_active_participants: self.current_max_active_participants,
            previous_max_active_participants: self.previous_max_active_participants,
        }
    }
}

/// The store that a bootstrap starts: both headers are the header of the
/// bootstrap, its committee is the current one, and nothing else is known.
pub open spec fn initial_store<const N: usize>(bootstrap: LightClientBootstrapView<N>) -> StoreView<
    N,
> {
    StoreView {
        finalized_header: bootstrap.header,
        optimistic_header: bootstrap.header,
        current_sync_committee: bootstrap.current_sync_committee,
        next_sync_committee: None,
        best_valid_update: None,
        current_max_active_participants: 0,
        previous_max_active_participants: 0,
    }
}

/// Starts a store from a bootstrap that passes its checks.
pub fn initialize_store<const N: usize, C: ChainConsensusVerificationContext>(
    ctx: &C,
    bootstrap: &LightClientBootstrap<N>,
) -> (res: Result<Store<N>, Error>)
    requires
        ctx.chain().well_formed(),
    ensures
        match bootstrap_failure(ctx.chain(), bootstrap@) {
            None => res matches Ok(store) && store@ == initial_store(bootstrap@),
            Some(kind) => res matches Err(e) && e.spec_kind() == kind,
        },
        res matches Err(error) ==> bootstrap_rejection_details(error, ctx.chain(), bootstrap@),
{
    match validate_bootstrap(ctx, bootstrap) {
        Ok(()) => {},
        Err(e) => {
            return Err(e);
        },
    }
    Ok(
        Store {
            finalized_header: bootstrap.header.clone(),
            optimistic_header: bootstrap.header.clone(),
            current_sync_committee: bootstrap.current_sync_committee,
            next_sync_committee: None,
            best_valid_update: None,
            current_max_active_participants: 0,
            previous_max_active_participants: 0,
        },
    )
}

/// The number of members that took part in an update.
pub open spec fn active_participants<const N: usize>(update: LightClientUpdateView<N>) -> nat {
    popcount(update.sync_aggregate.sync_committee_bits.0@)
}

/// Whether at least two thirds of a committee took part.
pub open spec fn is_supermajority(active: nat, committee_size: nat) -> bool {
    3 * active >= 2 * committee_size
}

/// Whether an update advances the finalized header of a store: it carries a
/// finalized header after that of the store, signed by a supermajority.
pub open spec fn advances_finality<const N: usize>(
    store: StoreView<N>,
    update: LightClientUpdateView<N>,
) -> bool {
    &&& update.finalized_header matches Some((finalized, _))
    &&& finalized.beacon.slot.0 > store.finalized_header.beacon.slot.0
    &&& is_supermajority(active_participants(update), N as nat)
}

/// Whether the finalized header of an update lies in a later period than
/// that of a store which knows the committee of its next period.
pub open spec fn crosses_period<const N: usize>(
    chain: ChainValues,
    store: StoreView<N>,
    update: LightClientUpdateView<N>,
) -> bool {
    &&& update.finalized_header matches Some((finalized, _))
    &&& store.next_sync_committee is Some
    &&& chain.sync_committee_period(finalized.beacon.slot.0) > store_period(chain, store)
}

/// The store after the finalized header of an update is taken over, where the
/// update advances it. Where the header crosses into a new period, the
/// committees rotate: the next committee becomes the current one, no next
/// committee is known any more, and the counts of participants shift.
pub open spec fn apply_finality<const N: usize>(
    chain: ChainValues,
    store: StoreView<N>,
    update: LightClientUpdateView<N>,
) -> StoreView<N> {
    if !advances_finality(store, update) {
        store
    } else if crosses_period(chain, store, update) {
        StoreView {
            finalized_header: update.finalized_header.unwrap().0,
            current_sync_committee: store.next_sync_committee->0,
            next_sync_committee: None,
            previous_max_active_participants: store.current_max_active_participants,
            current_max_active_participants: 0,
            ..store
        }
    } else {
        StoreView { finalized_header: update.finalized_header.unwrap().0, ..store }
    }
}

/// Whether an update tells a store the committee of its next period, which
/// it does not know yet: the update carries a next committee, and its
/// attested header lies in the period of the store.
pub open spec fn adds_next_committee<const N: usize>(
    chain: ChainValues,
    store: StoreView<N>,
    update: LightClientUpdateView<N>,
) -> bool {
    &&& store.next_sync_committee is None
    &&& update.next_sync_committee is Some
    &&& chain.sync_committee_period(update.attested_header.beacon.slot.0) == store_period(
        chain,
        store,
    )
}

/// The store after the next committee of an update is taken over, where the
/// update adds one.
pub open spec fn apply_next_committee<const N: usize>(
    chain: ChainValues,
    store: StoreView<N>,
    update: LightClientUpdateView<N>,
) -> StoreView<N> {
    if adds_next_committee(chain, store, update) {
        StoreView { next_sync_committee: Some(update.next_sync_committee.unwrap().0), ..store }
    } else {
        store
    }
}

/// The number of members that took part in the best update of a store; zero
/// where it has none.
pub open spec fn best_participation<const N: usize>(store: StoreView<N>) -> nat {
    match store.best_valid_update {
        Some(best) => active_participants(best),
        None => 0,
    }
}

/// The store after an update is counted: it becomes the best update where
/// there was none or more members took part in it, and the most participants
/// seen in the current period rise to its number.
pub open spec fn record_update<const N: usize>(
    store: StoreView<N>,
    update: LightClientUpdateView<N>,
) -> StoreView<N> {
    let active = active_participants(update);
    StoreView {
        best_valid_update: if store.best_valid_update is None || active > best_participation(
            store,
        ) {
            Some(update)
        } else {
            store.best_valid_update
        },
        current_max_active_participants: if active > store.current_max_active_participants {
            active as u64
        } else {
            store.current_max_active_participants
        },
        ..store
    }
}

/// Whether an update moves the optimistic header of a store: its attested
/// header is later, and more than half of the most participants seen in the
/// current period took part.
pub open spec fn advances_optimistic<const N: usize>(
    store: StoreView<N>,
    update: LightClientUpdateView<N>,
) -> bool {
    &&& update.attested_header.beacon.slot.0 > store.optimistic_header.beacon.slot.0
    &&& active_participants(update) > store.current_max_active_participants / 2
}

/// The store after the attested header of an update is taken over as the
/// optimistic header, where the update moves it.
pub open spec fn apply_optimistic<const N: usize>(
    store: StoreView<N>,
    update: LightClientUpdateView<N>,
) -> StoreView<N> {
    if advances_optimistic(store, update) {
        StoreView { optimistic_header: update.attested_header, ..store }
    } else {
        store
    }
}

/// The store after a valid update: finality first, with the rotation of the
/// committees, then the next committee, then the counts, then the optimistic
/// header. Each step sees what the steps before it left.
pub open spec fn apply_update<const N: usize>(
    chain: ChainValues,
    store: StoreView<N>,
    update: LightClientUpdateView<N>,
) -> StoreView<N> {
    apply_optimistic(
        record_update(
            apply_next_committee(chain, apply_finality(chain, store, update), update),
            update,
        ),
        update,
    )
}

/// Applying an update a second time changes nothing.
pub proof fn lemma_apply_update_idempotent<const N: usize>(
    chain: ChainValues,
    store: StoreView<N>,
    update: LightClientUpdateView<N>,
)
    ensures
        apply_update(chain, apply_update(chain, store, update), update) == apply_update(
            chain,
            store,
            update,
        ),
{
    lemma_popcount_fits::<N>(update);
    let a = apply_finality(chain, store, update);
    let b = apply_next_committee(chain, a, update);
    let c = record_update(b, update);
    let d = apply_optimistic(c, update);
    assert(apply_finality(chain, d, update) == d);
    assert(apply_next_committee(chain, d, update) == d);
    assert(record_update(d, update) == d);
    assert(apply_optimistic(d, update) == d);
}

/// The number of participants of an update fits the counters of a store.
pub proof fn lemma_popcount_fits<const N: usize>(update: LightClientUpdateView<N>)
    ensures
        active_participants(update) <= N,
        active_participants(update) <= u64::MAX,
{
    crate::sync_protocol::lemma_popcount_bound(update.sync_aggregate.sync_committee_bits.0@);
}

/// The period of the finalized header of a store never decreases when an
/// update is applied.
pub proof fn lemma_period_never_decreases<const N: usize>(
    chain: ChainValues,
    store: StoreView<N>,
    update: LightClientUpdateView<N>,
)
    requires
        chain.well_formed(),
    ensures
        apply_update(chain, store, update).finalized_header.beacon.slot.0
            >= store.finalized_header.beacon.slot.0,
        store_period(chain, apply_update(chain, store, update)) >= store_period(chain, store),
{
    let before = store.finalized_header.beacon.slot.0;
    let after = apply_update(chain, store, update).finalized_header.beacon.slot.0;
    assert(after >= before);
    lemma_period_monotonic(chain, before, after);
}

/// A later slot lies in the same period or a later one.
pub proof fn lemma_period_monotonic(chain: ChainValues, earlier: u64, later: u64)
    requires
        chain.well_formed(),
        earlier <= later,
    ensures
        chain.epoch_at_slot(earlier) <= chain.epoch_at_slot(later),
        chain.sync_committee_period(earlier) <= chain.sync_committee_period(later),
{
    vstd::arithmetic::div_mod::lemma_div_is_ordered(
        earlier as int,
        later as int,
        chain.slots_per_epoch as int,
    );
    vstd::arithmetic::div_mod::lemma_div_is_ordered(
        chain.epoch_at_slot(earlier) as int,
        chain.epoch_at_slot(later) as int,
        chain.epochs_per_sync_committee_period as int,
    );
}

/// A valid update moves the finalized header of a store within its period, or
/// into the next period where the store knows the committee of that period:
/// the committees rotate whenever the period changes, and by one period at a
/// time.
pub proof fn lemma_valid_update_keeps_committees_in_step<const N: usize>(
    chain: ChainValues,
    consensus: VerifierValues,
    store: StoreView<N>,
    update: LightClientUpdateView<N>,
    current_slot: u64,
)
    requires
        chain.well_formed(),
        update_valid(chain, consensus, store, update, current_slot),
    ensures
        store_period(chain, apply_update(chain, store, update)) == store_period(chain, store)
            || (crosses_period(chain, store, update) && store_period(
            chain,
            apply_update(chain, store, update),
        ) == store_period(chain, store) + 1),
        crosses_period(chain, store, update) && advances_finality(store, update) ==> apply_update(
            chain,
            store,
            update,
        ).current_sync_committee == store.next_sync_committee->0,
{
    if advances_finality(store, update) {
        let finalized = update.finalized_header.unwrap().0.beacon.slot.0;
        let attested = update.attested_header.beacon.slot.0;
        lemma_period_monotonic(chain, store.finalized_header.beacon.slot.0, finalized);
        lemma_period_monotonic(chain, finalized, attested);
        lemma_period_monotonic(chain, attested, update.signature_slot);
    }
}

/// After an update is applied the store has a best update, in which no fewer
/// members took part than in the best update before, nor than in the update.
pub proof fn lemma_best_update_never_worse<const N: usize>(
    chain: ChainValues,
    store: StoreView<N>,
    update: LightClientUpdateView<N>,
)
    ensures
        apply_update(chain, store, update).best_valid_update is Some,
        best_participation(apply_update(chain, store, update)) >= best_participation(store),
        best_participation(apply_update(chain, store, update)) >= active_participants(update),
{
}

/// The store after an update is processed: the update applied where it is
/// valid, the store as it was where it is not.
pub open spec fn processed<const N: usize>(
    chain: ChainValues,
    consensus: VerifierValues,
    store: StoreView<N>,
    update: LightClientUpdateView<N>,
    current_slot: u64,
) -> StoreView<N> {
    if update_valid(chain, consensus, store, update, current_slot) {
        apply_update(chain, store, update)
    } else {
        store
    }
}

/// Processing a valid update a second time, at whatever slot, leaves the
/// store as the first time left it.
pub proof fn lemma_process_update_idempotent<const N: usize>(
    chain: ChainValues,
    consensus: VerifierValues,
    store: StoreView<N>,
    update: LightClientUpdateView<N>,
    current_slot: u64,
    later_slot: u64,
)
    requires
        update_valid(chain, consensus, store, update, current_slot),
    ensures
        processed(
            chain,
            consensus,
            processed(chain, consensus, store, update, current_slot),
            update,
            later_slot,
        ) == processed(chain, consensus, store, update, current_slot),
{
    lemma_apply_update_idempotent(chain, store, update);
}

/// Validates an update and, where it is valid, applies it to the store.
///
/// An update that is refused leaves the store as it was; the error is of the
/// kind of the first check that fails.
pub fn process_update<const N: usize, C: ChainConsensusVerificationContext>(
    ctx: &C,
    store: &mut Store<N>,
    update: &LightClientUpdate<N>,
    current_slot: Slot,
) -> (res: Result<(), Error>)
    requires
        ctx.chain().well_formed(),
    ensures
        failure_of(res) == update_failure(
            ctx.chain(),
            ctx.consensus(),
            old(store)@,
            update@,
            current_slot.0,
        ),
        final(store)@ == processed(
            ctx.chain(),
            ctx.consensus(),
            old(store)@,
            update@,
            current_slot.0,
        ),
        res is Ok ==> final(store)@ == apply_update(ctx.chain(), old(store)@, update@),
        res is Err ==> *final(store) == *old(store),
        res matches Err(error) ==> rejection_details(
            error,
            ctx.chain(),
            old(store)@,
            update@,
            current_slot.0,
        ),
        store_period(ctx.chain(), final(store)@) >= store_period(ctx.chain(), old(store)@),
        best_participation(final(store)@) >= best_participation(old(store)@),
{
    match validate_light_client_update(ctx, store, update, current_slot) {
        Ok(()) => {},
        Err(e) => {
            return Err(e);
        },
    }
    proof {
        lemma_period_never_decreases(ctx.chain(), old(store)@, update@);
        lemma_best_update_never_worse(ctx.chain(), old(store)@, update@);
    }
    apply_light_client_update(ctx, store, update);
    Ok(())
}

/// Applies a valid update to the store.
fn apply_light_client_update<const N: usize, C: ChainConsensusVerificationContext>(
    ctx: &C,
    store: &mut Store<N>,
    update: &LightClientUpdate<N>,
)
    requires
        ctx.chain().well_formed(),
    ensures
        final(store)@ == apply_update(ctx.chain(), old(store)@, update@),
{
    let active: usize = update.sync_aggregate.count_participants();
    let ghost chain = ctx.chain();
    let ghost start = store@;
    // Finality, with the rotation of the committees.
    match &update.finalized_header {
        Some((finalized, _)) => {
            if finalized.beacon.slot.0 > store.finalized_header.beacon.slot.0 && 3 * (
            active as u128) >= 2 * (N as u128) {
                let period = compute_sync_committee_period(ctx, store.finalized_header.beacon.slot);
                let finalized_period = compute_sync_committee_period(ctx, finalized.beacon.slot);
                match store.next_sync_committee {
                    Some(next) => {
                        if finalized_period.0 > period.0 {
                            store.current_sync_committee = next;
                            store.next_sync_committee = None;
                            store.previous_max_active_participants =
                                store.current_max_active_participants;
                            store.current_max_active_participants = 0;
                        }
                    },
                    None => {},
                }
                store.finalized_header = finalized.clone();
            }
        },
        None => {},
    }
    assert(store@ == apply_finality(chain, start, update@));
    // The next committee.
    let ghost after_finality = store@;
    match &update.next_sync_committee {
        Some((committee, _)) => {
            if store.next_sync_committee.is_none() {
                let period = compute_sync_committee_period(ctx, store.finalized_header.beacon.slot);
                let attested_period = compute_sync_committee_period(
                    ctx,
                    update.attested_header.beacon.slot,
                );
                if attested_period.0 == period.0 {
                    store.next_sync_committee = Some(*committee);
                }
            }
        },
        None => {},
    }
    assert(store@ == apply_next_committee(chain, after_finality, update@));
    // The counts.
    let ghost after_committee = store@;
    let better: bool = match &store.best_valid_update {
        Some(best) => active > best.sync_aggregate.count_participants(),
        None => true,
    };
    if better {
        store.best_valid_update = Some(update.clone());
    }
    if active as u64 > store.current_max_active_participants {
        store.current_max_active_participants = active as u64;
    }
    assert(store@ == record_update(after_committee, update@));
    // The optimistic header.
    let ghost after_record = store@;
    if update.attested_header.beacon.slot.0 > store.optimistic_header.beacon.slot.0 && active as u64
        > store.current_max_active_participants / 2 {
        store.optimistic_header = update.attested_header.clone();
    }
    assert(store@ == apply_optimistic(after_record, update@));
}

} // verus!
