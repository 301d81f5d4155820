//! The checks that an update, or a bootstrap, must pass before the store
//! takes anything from it.

use vstd::prelude::*;
use crate::beacon::{
    compute_domain, compute_signing_root, domain_sync_committee, spec_compute_domain,
    spec_compute_signing_root, BeaconBlockHeader, LightClientHeader, LightClientHeaderView,
};
use crate::bls::{
    bls_aggregate_public_keys, bls_fast_aggregate_verify, fast_aggregate_verify, key_bytes,
};
use crate::context::{
    compute_epoch_at_slot, compute_sync_committee_period, ChainConsensusVerificationContext,
    ChainValues, Fraction, VerifierValues,
};
use crate::errors::{Error, ErrorKind, MerkleError};
use crate::fork::BELLATRIX_INDEX;
use crate::merkle::{branch_proves, branch_rejection, is_valid_merkle_branch, MAX_MERKLE_DEPTH};
use crate::store::{Store, StoreView};
use crate::sync_protocol::{
    participants, popcount, LightClientBootstrap, LightClientBootstrapView, LightClientUpdate,
    LightClientUpdateView, SyncAggregate, SyncCommittee,
};
use crate::types::{H256, Root, Slot, U64};

verus! {

/// The first of two failures.
pub open spec fn or_else(first: Option<ErrorKind>, second: Option<ErrorKind>) -> Option<ErrorKind> {
    if first is Some {
        first
    } else {
        second
    }
}

/// The kind of failure that a result reports, if it reports one.
pub open spec fn failure_of(res: Result<(), Error>) -> Option<ErrorKind> {
    match res {
        Ok(_) => None,
        Err(e) => Some(e.spec_kind()),
    }
}

/// Whether `participants` members are a share of at least `threshold` of a
/// committee of `committee_size`.
pub open spec fn quorum_reached(
    participants: nat,
    committee_size: nat,
    threshold: Fraction,
) -> bool {
    participants * threshold.spec_denominator() >= committee_size * threshold.spec_numerator()
}

/// Checks that enough members of a committee took part.
pub fn check_quorum(participants: usize, committee_size: usize, threshold: &Fraction) -> (res:
    Result<(), Error>)
    ensures
        res is Ok <==> quorum_reached(participants as nat, committee_size as nat, *threshold),
        res is Err ==> res == Err::<(), Error>(
            Error::InsufficientParticipation(participants, committee_size),
        ),
{
    let numerator = threshold.numerator();
    let denominator = threshold.denominator();
    assert(participants * denominator <= u128::MAX && committee_size * numerator <= u128::MAX)
        by (nonlinear_arith)
        requires
            participants <= u64::MAX,
            committee_size <= u64::MAX,
            denominator <= u64::MAX,
            numerator <= u64::MAX,
    ;
    if (participants as u128) * (denominator as u128) >= (committee_size as u128) * (
    numerator as u128) {
        Ok(())
    } else {
        Err(Error::InsufficientParticipation(participants, committee_size))
    }
}

/// The root that a sync committee signs for an attested header at a signature
/// slot: the signing root of the header's root in the domain of sync
/// committees at the fork of the signature slot.
pub open spec fn sync_committee_signing_root(
    chain: ChainValues,
    genesis_validators_root: Root,
    signature_slot: u64,
    attested: BeaconBlockHeader,
) -> Option<Seq<u8>> {
    let version = chain.fork_parameters.fork_version(chain.epoch_at_slot(signature_slot));
    match (
        attested.spec_hash_tree_root(),
        spec_compute_domain(domain_sync_committee(), version, genesis_validators_root),
    ) {
        (Some(block_root), Some(domain)) => spec_compute_signing_root(block_root, domain),
        _ => None,
    }
}

/// What the signature check concludes from the verdict of the curve library.
pub open spec fn verdict_failure(
    verdict: Option<bool>,
    participants: nat,
    committee_size: nat,
    threshold: Fraction,
) -> Option<ErrorKind> {
    match verdict {
        None => Some(ErrorKind::BLSAmclError),
        Some(false) => Some(ErrorKind::InvalidBLSSignature),
        Some(true) => if quorum_reached(participants, committee_size, threshold) {
            None
        } else {
            Some(ErrorKind::InsufficientParticipation)
        },
    }
}

/// Why the aggregate signature of `committee` over an attested header is
/// refused, if it is: too few participants, a signing root that cannot be
/// computed, a key or signature that does not decode, a signature that does
/// not verify, or a quorum that is not reached, in this order.
pub open spec fn signature_failure<const N: usize>(
    chain: ChainValues,
    consensus: VerifierValues,
    committee: SyncCommittee<N>,
    aggregate: SyncAggregate<N>,
    signature_slot: u64,
    attested: BeaconBlockHeader,
) -> Option<ErrorKind> {
    let count = popcount(aggregate.sync_committee_bits.0@);
    if count < consensus.min_sync_committee_participants {
        Some(ErrorKind::InsufficientParticipation)
    } else {
        match sync_committee_signing_root(
            chain,
            consensus.genesis_validators_root,
            signature_slot,
            attested,
        ) {
            None => Some(ErrorKind::MerkleizationError),
            Some(signing_root) => verdict_failure(
                bls_fast_aggregate_verify(
                    aggregate.sync_committee_signature.0@,
                    signing_root,
                    key_bytes(participants(committee.pubkeys@, aggregate.sync_committee_bits.0@)),
                ),
                count,
                N as nat,
                consensus.signature_threshold,
            ),
        }
    }
}

/// The outcome of the signature check goes by the keys that took part, in the
/// order of the committee, and by nothing else of the committee or of the
/// bits: two committees whose participants are the same keys get the same
/// outcome for the same signature over the same header.
pub proof fn lemma_signature_goes_by_participants<const N: usize>(
    chain: ChainValues,
    consensus: VerifierValues,
    first_committee: SyncCommittee<N>,
    first: SyncAggregate<N>,
    second_committee: SyncCommittee<N>,
    second: SyncAggregate<N>,
    signature_slot: u64,
    attested: BeaconBlockHeader,
)
    requires
        first.sync_committee_signature == second.sync_committee_signature,
        participants(first_committee.pubkeys@, first.sync_committee_bits.0@) == participants(
            second_committee.pubkeys@,
            second.sync_committee_bits.0@,
        ),
    ensures
        signature_failure(chain, consensus, first_committee, first, signature_slot, attested)
            == signature_failure(
            chain,
            consensus,
            second_committee,
            second,
            signature_slot,
            attested,
        ),
{
    crate::sync_protocol::lemma_participants_len(
        first_committee.pubkeys@,
        first.sync_committee_bits.0@,
    );
    crate::sync_protocol::lemma_participants_len(
        second_committee.pubkeys@,
        second.sync_committee_bits.0@,
    );
}

/// Concludes the signature check from the verdict of the curve library: a
/// signature that does not verify is refused, and one that verifies counts
/// only with a quorum.
pub fn judge_signature(
    verdict: bool,
    participants: usize,
    committee_size: usize,
    threshold: &Fraction,
) -> (res: Result<(), Error>)
    ensures
        failure_of(res) == verdict_failure(
            Some(verdict),
            participants as nat,
            committee_size as nat,
            *threshold,
        ),
        res matches Err(Error::InsufficientParticipation(count, size)) ==> count == participants
            && size == committee_size,
{
    if !verdict {
        return Err(Error::InvalidBLSSignature);
    }
    check_quorum(participants, committee_size, threshold)
}

/// Verifies the aggregate signature of a sync committee over an attested header.
pub fn verify_sync_committee_attestation<const N: usize, C: ChainConsensusVerificationContext>(
    ctx: &C,
    committee: &SyncCommittee<N>,
    aggregate: &SyncAggregate<N>,
    signature_slot: Slot,
    attested: &BeaconBlockHeader,
) -> (res: Result<(), Error>)
    requires
        ctx.chain().well_formed(),
    ensures
        failure_of(res) == signature_failure(
            ctx.chain(),
            ctx.consensus(),
            *committee,
            *aggregate,
            signature_slot.0,
            *attested,
        ),
        res matches Err(Error::InsufficientParticipation(count, size)) ==> count
            == aggregate.spec_count_participants() && size == N,
{
    let count = aggregate.count_participants();
    if count < ctx.min_sync_committee_participants() {
        return Err(Error::InsufficientParticipation(count, N));
    }
    let version = ctx.fork_parameters().compute_fork_version(
        compute_epoch_at_slot(ctx, signature_slot),
    );
    let block_root = attested.hash_tree_root()?;
    let domain = compute_domain(domain_sync_committee(), version, ctx.genesis_validators_root())?;
    let signing_root = compute_signing_root(block_root, domain)?;
    let keys = aggregate.participant_keys(committee);
    let verdict = fast_aggregate_verify(&keys, &signing_root, &aggregate.sync_committee_signature)?;
    let threshold = ctx.signature_threshold();
    judge_signature(verdict, count, N, &threshold)
}

/// Why a header is refused, if it is: it carries an execution payload at a
/// fork before Bellatrix, the payload has no root, or the execution branch
/// does not lead from the payload to the body root of the header. A header
/// without an execution payload passes.
pub open spec fn header_failure(chain: ChainValues, header: LightClientHeaderView) -> Option<
    ErrorKind,
> {
    match header.execution {
        None => None,
        Some(execution) => {
            let epoch = chain.epoch_at_slot(header.beacon.slot.0);
            if !chain.fork_parameters.is_fork(epoch, BELLATRIX_INDEX) {
                Some(ErrorKind::NotSupportedExecutionPayload)
            } else {
                match execution.hash_tree_root() {
                    None => Some(ErrorKind::MerkleizationError),
                    Some(leaf) => if branch_proves(
                        leaf,
                        header.execution_branch,
                        chain.fork_parameters.fork_spec(epoch).execution_payload_gindex as u64,
                        header.beacon.body_root.0@,
                    ) {
                        None
                    } else {
                        Some(ErrorKind::InvalidExecutionBranch)
                    },
                }
            }
        },
    }
}

/// Checks the execution payload of a header against its body root.
pub fn validate_light_client_header<C: ChainConsensusVerificationContext>(
    ctx: &C,
    header: &LightClientHeader,
) -> (res: Result<(), Error>)
    requires
        ctx.chain().well_formed(),
    ensures
        failure_of(res) == header_failure(ctx.chain(), header@),
        res matches Err(Error::NotSupportedExecutionPayload(version)) ==> version
            == ctx.chain().fork_parameters.fork_version(
            ctx.chain().epoch_at_slot(header.beacon.slot.0),
        ),
        res matches Err(Error::InvalidExecutionBranch(error)) ==> execution_rejection(
            error,
            ctx.chain(),
            header@,
        ),
{
    match &header.execution {
        None => Ok(()),
        Some(execution) => {
            let epoch = compute_epoch_at_slot(ctx, header.beacon.slot);
            let forks = ctx.fork_parameters();
            if !forks.is_fork(epoch, BELLATRIX_INDEX) {
                return Err(Error::NotSupportedExecutionPayload(forks.compute_fork_version(epoch)));
            }
            let leaf = execution.hash_tree_root()?;
            let gindex = forks.compute_fork_spec(epoch).execution_payload_gindex as u64;
            match is_valid_merkle_branch(
                leaf,
                &header.execution_branch,
                gindex,
                header.beacon.body_root,
            ) {
                Ok(()) => Ok(()),
                Err(e) => Err(Error::InvalidExecutionBranch(e)),
            }
        },
    }
}

/// Why a committee is refused, if it is: its keys do not aggregate, or they
/// aggregate to another key than the one it records.
pub open spec fn aggregate_failure<const N: usize>(committee: SyncCommittee<N>) -> Option<
    ErrorKind,
> {
    match bls_aggregate_public_keys(key_bytes(committee.pubkeys@)) {
        None => Some(ErrorKind::BLSAmclError),
        Some(aggregate) => if aggregate == committee.aggregate_pubkey.0@ {
            None
        } else {
            Some(ErrorKind::BLSAggregatePublicKeyMismatch)
        },
    }
}

/// Whether the slots of an update are in order: the finalized header, where
/// there is one, is not after the attested header, which is before the
/// signature, which is not after the current slot.
pub open spec fn slots_in_order<const N: usize>(
    update: LightClientUpdateView<N>,
    current_slot: u64,
) -> bool {
    &&& update.signature_slot > update.attested_header.beacon.slot.0
    &&& (update.finalized_header matches Some((finalized, _))
        ==> update.attested_header.beacon.slot.0 >= finalized.beacon.slot.0)
    &&& update.signature_slot <= current_slot
}

/// The sync-committee period of the finalized header of a store.
pub open spec fn store_period<const N: usize>(chain: ChainValues, store: StoreView<N>) -> u64 {
    chain.sync_committee_period(store.finalized_header.beacon.slot.0)
}

/// Whether the store knows the committee of the period in which an update
/// was signed: the period of the store, or the one after it where the store
/// knows its next committee.
pub open spec fn in_store_window<const N: usize>(
    chain: ChainValues,
    store: StoreView<N>,
    update: LightClientUpdateView<N>,
) -> bool {
    let signature_period = chain.sync_committee_period(update.signature_slot);
    ||| signature_period == store_period(chain, store)
    ||| (store.next_sync_committee is Some && signature_period == store_period(chain, store) + 1)
}

/// The committee that signs in the period of an update's signature.
pub open spec fn signing_committee<const N: usize>(
    chain: ChainValues,
    store: StoreView<N>,
    update: LightClientUpdateView<N>,
) -> SyncCommittee<N> {
    if chain.sync_committee_period(update.signature_slot) == store_period(chain, store) {
        store.current_sync_committee
    } else {
        store.next_sync_committee->0
    }
}

/// Why the finalized header of an update is refused, if it is: it has no
/// root, or its branch does not lead from its root to the attested state
/// root at the index of the fork of the attested header. An update without a
/// finalized header passes.
pub open spec fn finality_failure<const N: usize>(
    chain: ChainValues,
    update: LightClientUpdateView<N>,
) -> Option<ErrorKind> {
    match update.finalized_header {
        None => None,
        Some((finalized, branch)) => match finalized.beacon.spec_hash_tree_root() {
            None => Some(ErrorKind::MerkleizationError),
            Some(leaf) => if branch_proves(
                leaf,
                branch,
                chain.fork_spec_at_slot(
                    update.attested_header.beacon.slot.0,
                ).finalized_root_gindex as u64,
                update.attested_header.beacon.state_root.0@,
            ) {
                None
            } else {
                Some(ErrorKind::InvalidFinalityBranch)
            },
        },
    }
}

/// Why the next committee of an update is refused, if it is: the store knows
/// another committee for the same period, the committee has no root, its
/// branch does not lead from its root to the attested state root at the
/// index of the fork of the attested header, or, unless it is the committee
/// that the store already knows, its aggregate key does not match its keys.
/// An update without a next committee passes.
pub open spec fn next_committee_failure<const N: usize>(
    chain: ChainValues,
    store: StoreView<N>,
    update: LightClientUpdateView<N>,
) -> Option<ErrorKind> {
    match update.next_sync_committee {
        None => None,
        Some((committee, branch)) => {
            if chain.sync_committee_period(update.attested_header.beacon.slot.0) == store_period(
                chain,
                store,
            ) && store.next_sync_committee is Some && store.next_sync_committee != Some(committee) {
                Some(ErrorKind::NextSyncCommitteeMismatch)
            } else {
                match committee.spec_hash_tree_root() {
                    None => Some(ErrorKind::MerkleizationError),
                    Some(leaf) => if !branch_proves(
                        leaf,
                        branch,
                        chain.fork_spec_at_slot(
                            update.attested_header.beacon.slot.0,
                        ).next_sync_committee_gindex as u64,
                        update.attested_header.beacon.state_root.0@,
                    ) {
                        Some(ErrorKind::InvalidNextSyncCommitteeBranch)
                    } else if store.next_sync_committee == Some(committee) {
                        None
                    } else {
                        aggregate_failure(committee)
                    },
                }
            }
        },
    }
}

/// Why the headers of an update are refused, if they are: the attested
/// header first, then the finalized one.
pub open spec fn headers_failure<const N: usize>(
    chain: ChainValues,
    update: LightClientUpdateView<N>,
) -> Option<ErrorKind> {
    or_else(
        header_failure(chain, update.attested_header),
        match update.finalized_header {
            Some((finalized, _)) => header_failure(chain, finalized),
            None => None,
        },
    )
}

/// Why an update is refused, if it is. The checks are made in this order, and
/// the first that fails decides: the order of the slots, the period of the
/// signature, the finality branch, the next committee and its branch, the
/// execution payloads of the headers, and the signature with its quorum.
pub open spec fn update_failure<const N: usize>(
    chain: ChainValues,
    consensus: VerifierValues,
    store: StoreView<N>,
    update: LightClientUpdateView<N>,
    current_slot: u64,
) -> Option<ErrorKind> {
    if !slots_in_order(update, current_slot) {
        Some(ErrorKind::NonMonotonicSlot)
    } else if !in_store_window(chain, store, update) {
        Some(ErrorKind::SignatureSlotNotInStoreWindow)
    } else {
        or_else(
            finality_failure(chain, update),
            or_else(
                next_committee_failure(chain, store, update),
                or_else(
                    headers_failure(chain, update),
                    signature_failure(
                        chain,
                        consensus,
                        signing_committee(chain, store, update),
                        update.sync_aggregate,
                        update.signature_slot,
                        update.attested_header.beacon,
                    ),
                ),
            ),
        )
    }
}

/// Whether an update passes every check against a store.
pub open spec fn update_valid<const N: usize>(
    chain: ChainValues,
    consensus: VerifierValues,
    store: StoreView<N>,
    update: LightClientUpdateView<N>,
    current_slot: u64,
) -> bool {
    update_failure(chain, consensus, store, update, current_slot) is None
}

/// Checks the finalized header of an update against the attested state root.
pub fn validate_finality<const N: usize, C: ChainConsensusVerificationContext>(
    ctx: &C,
    update: &LightClientUpdate<N>,
) -> (res: Result<(), Error>)
    requires
        ctx.chain().well_formed(),
    ensures
        failure_of(res) == finality_failure(ctx.chain(), update@),
        res matches Err(Error::InvalidFinalityBranch(error)) ==> (
        update@.finalized_header matches Some((finalized, branch)) && leaf_rejection(
            error,
            finalized.beacon.spec_hash_tree_root(),
            branch,
            ctx.chain().fork_spec_at_slot(
                update@.attested_header.beacon.slot.0,
            ).finalized_root_gindex,
            update@.attested_header.beacon.state_root,
        )),
{
    match &update.finalized_header {
        None => Ok(()),
        Some((finalized, branch)) => {
            let leaf = finalized.beacon.hash_tree_root()?;
            let gindex = ctx.compute_fork_spec(
                update.attested_header.beacon.slot,
            ).finalized_root_gindex as u64;
            match is_valid_merkle_branch(
                leaf,
                branch,
                gindex,
                update.attested_header.beacon.state_root,
            ) {
                Ok(()) => Ok(()),
                Err(e) => Err(Error::InvalidFinalityBranch(e)),
            }
        },
    }
}

/// Checks the next committee of an update against the attested state root
/// and against what the store knows.
pub fn validate_next_sync_committee<const N: usize, C: ChainConsensusVerificationContext>(
    ctx: &C,
    store: &Store<N>,
    update: &LightClientUpdate<N>,
) -> (res: Result<(), Error>)
    requires
        ctx.chain().well_formed(),
    ensures
        failure_of(res) == next_committee_failure(ctx.chain(), store@, update@),
        res matches Err(Error::BLSAggregatePublicKeyMismatch(recorded, computed)) ==> (
        update@.next_sync_committee matches Some((committee, _)) && recorded
            == committee.aggregate_pubkey && bls_aggregate_public_keys(
            key_bytes(committee.pubkeys@),
        ) == Some(computed.0@)),
        res matches Err(Error::InvalidNextSyncCommitteeBranch(error)) ==> (
        update@.next_sync_committee matches Some((committee, branch)) && leaf_rejection(
            error,
            committee.spec_hash_tree_root(),
            branch,
            ctx.chain().fork_spec_at_slot(
                update@.attested_header.beacon.slot.0,
            ).next_sync_committee_gindex,
            update@.attested_header.beacon.state_root,
        )),
{
    match &update.next_sync_committee {
        None => Ok(()),
        Some((committee, branch)) => {
            let known: bool = match &store.next_sync_committee {
                Some(next) => next.equals(committee),
                None => false,
            };
            let attested_period = compute_sync_committee_period(
                ctx,
                update.attested_header.beacon.slot,
            );
            let period = compute_sync_committee_period(ctx, store.finalized_header.beacon.slot);
            if attested_period.0 == period.0 && store.next_sync_committee.is_some() && !known {
                return Err(Error::NextSyncCommitteeMismatch);
            }
            let leaf = committee.hash_tree_root()?;
            let gindex = ctx.compute_fork_spec(
                update.attested_header.beacon.slot,
            ).next_sync_committee_gindex as u64;
            match is_valid_merkle_branch(
                leaf,
                branch,
                gindex,
                update.attested_header.beacon.state_root,
            ) {
                Ok(()) => {},
                Err(e) => {
                    return Err(Error::InvalidNextSyncCommitteeBranch(e));
                },
            }
            if known {
                Ok(())
            } else {
                committee.validate()
            }
        },
    }
}

/// Whether `error` is what the check of a branch reports for a leaf that has
/// a root, at an index of a fork layout.
pub open spec fn leaf_rejection(
    error: MerkleError,
    leaf: Option<Seq<u8>>,
    branch: Seq<H256>,
    gindex: u32,
    root: Root,
) -> bool {
    leaf matches Some(bytes) && branch_rejection(
        error,
        bytes,
        branch,
        gindex as u64,
        root,
        MAX_MERKLE_DEPTH,
    )
}

/// Whether `error` is what the check of the execution branch of a header reports.
pub open spec fn execution_rejection(
    error: MerkleError,
    chain: ChainValues,
    header: LightClientHeaderView,
) -> bool {
    header.execution matches Some(execution) && leaf_rejection(
        error,
        execution.hash_tree_root(),
        header.execution_branch,
        chain.fork_spec_at_slot(header.beacon.slot.0).execution_payload_gindex,
        header.beacon.body_root,
    )
}

/// Whether a rejection of an update carries the values that it is about: the
/// slots that are out of order, the periods of the store and of the
/// signature, the number of participants with the size of the committee, the
/// version of the fork that has no execution payload, and the recorded and
/// the computed aggregate key of the next committee.
pub open spec fn rejection_details<const N: usize>(
    error: Error,
    chain: ChainValues,
    store: StoreView<N>,
    update: LightClientUpdateView<N>,
    current_slot: u64,
) -> bool {
    match error {
        Error::NonMonotonicSlot {
            current_slot: current,
            signature_slot,
            attested_slot,
            finalized_slot,
        } => {
            &&& current.0 == current_slot
            &&& signature_slot.0 == update.signature_slot
            &&& attested_slot == update.attested_header.beacon.slot
            &&& finalized_slot == match update.finalized_header {
                Some((finalized, _)) => Some(finalized.beacon.slot),
                None => None,
            }
        },
        Error::SignatureSlotNotInStoreWindow(period, signature_period) => {
            &&& period.0 == store_period(chain, store)
            &&& signature_period.0 == chain.sync_committee_period(update.signature_slot)
        },
        Error::InsufficientParticipation(count, size) => {
            &&& count == popcount(update.sync_aggregate.sync_committee_bits.0@)
            &&& size == N
        },
        Error::NotSupportedExecutionPayload(version) => {
            ||| version == chain.fork_parameters.fork_version(
                chain.epoch_at_slot(update.attested_header.beacon.slot.0),
            )
            ||| (update.finalized_header matches Some((finalized, _)) && version
                == chain.fork_parameters.fork_version(
                chain.epoch_at_slot(finalized.beacon.slot.0),
            ))
        },
        Error::BLSAggregatePublicKeyMismatch(recorded, computed) => {
            &&& update.next_sync_committee matches Some((committee, _))
            &&& recorded == committee.aggregate_pubkey
            &&& bls_aggregate_public_keys(key_bytes(committee.pubkeys@)) == Some(computed.0@)
        },
        Error::InvalidFinalityBranch(error) => {
            &&& update.finalized_header matches Some((finalized, branch))
            &&& leaf_rejection(
                error,
                finalized.beacon.spec_hash_tree_root(),
                branch,
                chain.fork_spec_at_slot(
                    update.attested_header.beacon.slot.0,
                ).finalized_root_gindex,
                update.attested_header.beacon.state_root,
            )
        },
        Error::InvalidNextSyncCommitteeBranch(error) => {
            &&& update.next_sync_committee matches Some((committee, branch))
            &&& leaf_rejection(
                error,
                committee.spec_hash_tree_root(),
                branch,
                chain.fork_spec_at_slot(
                    update.attested_header.beacon.slot.0,
                ).next_sync_committee_gindex,
                update.attested_header.beacon.state_root,
            )
        },
        Error::InvalidExecutionBranch(error) => {
            ||| execution_rejection(error, chain, update.attested_header)
            ||| (update.finalized_header matches Some((finalized, _)) && execution_rejection(
                error,
                chain,
                finalized,
            ))
        },
        _ => true,
    }
}

/// Checks an update against a store at the current slot.
///
/// Succeeds exactly when no check fails; otherwise the error is of the kind
/// of the first check that fails, and carries the values that it is about.
pub fn validate_light_client_update<const N: usize, C: ChainConsensusVerificationContext>(
    ctx: &C,
    store: &Store<N>,
    update: &LightClientUpdate<N>,
    current_slot: Slot,
) -> (res: Result<(), Error>)
    requires
        ctx.chain().well_formed(),
    ensures
        failure_of(res) == update_failure(
            ctx.chain(),
            ctx.consensus(),
            store@,
            update@,
            current_slot.0,
        ),
        res is Ok <==> update_valid(ctx.chain(), ctx.consensus(), store@, update@, current_slot.0),
        res matches Err(error) ==> rejection_details(
            error,
            ctx.chain(),
            store@,
            update@,
            current_slot.0,
        ),
{
    let attested_slot = update.attested_header.beacon.slot;
    let finalized_slot: Option<U64> = match &update.finalized_header {
        Some((finalized, _)) => Some(finalized.beacon.slot),
        None => None,
    };
    let finalized_in_order: bool = match finalized_slot {
        Some(slot) => attested_slot.0 >= slot.0,
        None => true,
    };
    if !(update.signature_slot.0 > attested_slot.0 && finalized_in_order
        && update.signature_slot.0 <= current_slot.0) {
        return Err(
            Error::NonMonotonicSlot {
                current_slot,
                signature_slot: update.signature_slot,
                attested_slot,
                finalized_slot,
            },
        );
    }
    let period = compute_sync_committee_period(ctx, store.finalized_header.beacon.slot);
    let signature_period = compute_sync_committee_period(ctx, update.signature_slot);
    let committee: &SyncCommittee<N> = if signature_period.0 == period.0 {
        &store.current_sync_committee
    } else {
        match &store.next_sync_committee {
            Some(next) => {
                if period.0 < u64::MAX && signature_period.0 == period.0 + 1 {
                    next
                } else {
                    return Err(Error::SignatureSlotNotInStoreWindow(period, signature_period));
                }
            },
            None => {
                return Err(Error::SignatureSlotNotInStoreWindow(period, signature_period));
            },
        }
    };
    validate_finality(ctx, update)?;
    validate_next_sync_committee(ctx, store, update)?;
    validate_light_client_header(ctx, &update.attested_header)?;
    match &update.finalized_header {
        Some((finalized, _)) => {
            validate_light_client_header(ctx, finalized)?;
        },
        None => {},
    }
    verify_sync_committee_attestation(
        ctx,
        committee,
        &update.sync_aggregate,
        update.signature_slot,
        &update.attested_header.beacon,
    )
}

/// Why a bootstrap is refused, if it is: its header is refused, its
/// committee has no root, the branch does not lead from the committee to the
/// state root of the header at the index of the header's fork, or the
/// committee's aggregate key does not match its keys.
pub open spec fn bootstrap_failure<const N: usize>(
    chain: ChainValues,
    bootstrap: LightClientBootstrapView<N>,
) -> Option<ErrorKind> {
    or_else(
        header_failure(chain, bootstrap.header),
        match bootstrap.current_sync_committee.spec_hash_tree_root() {
            None => Some(ErrorKind::MerkleizationError),
            Some(leaf) => if !branch_proves(
                leaf,
                bootstrap.current_sync_committee_branch,
                chain.fork_spec_at_slot(
                    bootstrap.header.beacon.slot.0,
                ).current_sync_committee_gindex as u64,
                bootstrap.header.beacon.state_root.0@,
            ) {
                Some(ErrorKind::InvalidCurrentSyncCommitteeBranch)
            } else {
                aggregate_failure(bootstrap.current_sync_committee)
            },
        },
    )
}

/// Whether a rejection of a bootstrap carries the values that it is about:
/// the version of the fork that has no execution payload, what the check of
/// a branch reports, and the recorded and the computed aggregate key.
pub open spec fn bootstrap_rejection_details<const N: usize>(
    error: Error,
    chain: ChainValues,
    bootstrap: LightClientBootstrapView<N>,
) -> bool {
    match error {
        Error::NotSupportedExecutionPayload(version) => version
            == chain.fork_parameters.fork_version(
            chain.epoch_at_slot(bootstrap.header.beacon.slot.0),
        ),
        Error::InvalidExecutionBranch(error) => execution_rejection(
            error,
            chain,
            bootstrap.header,
        ),
        Error::InvalidCurrentSyncCommitteeBranch(error) => leaf_rejection(
            error,
            bootstrap.current_sync_committee.spec_hash_tree_root(),
            bootstrap.current_sync_committee_branch,
            chain.fork_spec_at_slot(bootstrap.header.beacon.slot.0).current_sync_committee_gindex,
            bootstrap.header.beacon.state_root,
        ),
        Error::BLSAggregatePublicKeyMismatch(recorded, computed) => {
            &&& recorded == bootstrap.current_sync_committee.aggregate_pubkey
            &&& bls_aggregate_public_keys(key_bytes(bootstrap.current_sync_committee.pubkeys@))
                == Some(computed.0@)
        },
        _ => true,
    }
}

/// Checks a bootstrap: its header, the branch of its committee, and the
/// committee's aggregate key.
pub fn validate_bootstrap<const N: usize, C: ChainConsensusVerificationContext>(
    ctx: &C,
    bootstrap: &LightClientBootstrap<N>,
) -> (res: Result<(), Error>)
    requires
        ctx.chain().well_formed(),
    ensures
        failure_of(res) == bootstrap_failure(ctx.chain(), bootstrap@),
        res matches Err(error) ==> bootstrap_rejection_details(error, ctx.chain(), bootstrap@),
{
    validate_light_client_header(ctx, &bootstrap.header)?;
    let leaf = bootstrap.current_sync_committee.hash_tree_root()?;
    let gindex = ctx.compute_fork_spec(
        bootstrap.header.beacon.slot,
    ).current_sync_committee_gindex as u64;
    match is_valid_merkle_branch(
        leaf,
        &bootstrap.current_sync_committee_branch,
        gindex,
        bootstrap.header.beacon.state_root,
    ) {
        Ok(()) => {},
        Err(e) => {
            return Err(Error::InvalidCurrentSyncCommitteeBranch(e));
        },
    }
    bootstrap.current_sync_committee.validate()
}

} // verus!
