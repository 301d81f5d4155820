//! The objects that a beacon node serves over its API, and how the verifier
//! reads them.

use vstd::prelude::*;
use vstd::std_specs::convert::FromSpecImpl;
use crate::beacon::{BeaconBlockHeader, LightClientHeader, LightClientHeaderView};
use crate::errors::Error;
use crate::sync_protocol::{
    LightClientBootstrap, LightClientBootstrapView, LightClientUpdate, LightClientUpdateView,
    SyncAggregate, SyncCommittee,
};
use crate::types::{zero_branch, is_zero_branch, Epoch, Root, Signature, Slot, H256, U64};

verus! {

/// The genesis of a chain.
#[derive(Debug, Clone)]
pub struct GenesisData {
    pub genesis_validators_root: Root,
    pub genesis_time: U64,
    /// The fork version at genesis, in hexadecimal.
    pub genesis_fork_version: String,
}

/// The envelope in which the genesis is served.
#[derive(Debug, Clone)]
pub struct GenesisDataResponse {
    pub data: GenesisData,
}

/// The root of a block.
#[derive(Debug, Clone, Copy)]
pub struct BeaconBlockRoot {
    pub root: Root,
}

/// The envelope in which a block root is served.
#[derive(Debug, Clone, Copy)]
pub struct BeaconBlockRootResponse {
    pub data: BeaconBlockRoot,
    pub execution_optimistic: bool,
}

/// A block header with the signature of its proposer.
#[derive(Debug, Clone, Copy)]
pub struct BeaconHeaderSignature {
    pub message: BeaconBlockHeader,
    pub signature: Signature,
}

/// A block header as served, with its root.
#[derive(Debug, Clone, Copy)]
pub struct BeaconHeaderData {
    pub root: Root,
    pub canonical: bool,
    pub header: BeaconHeaderSignature,
}

/// The envelope in which a block header is served.
#[derive(Debug, Clone, Copy)]
pub struct BeaconHeaderResponse {
    pub data: BeaconHeaderData,
}

/// A block root at the start of an epoch.
#[derive(Debug, Clone, Copy, Default, PartialEq, Eq)]
pub struct Checkpoint {
    pub epoch: Epoch,
    pub root: Root,
}

/// The checkpoints of finality of a state.
#[derive(Debug, Clone, Copy)]
pub struct FinalityCheckpoints {
    pub previous_justified: Checkpoint,
    pub current_justified: Checkpoint,
    pub finalized: Checkpoint,
}

/// The envelope in which the checkpoints of finality are served.
#[derive(Debug, Clone, Copy)]
pub struct FinalityCheckpointsResponse {
    pub data: FinalityCheckpoints,
    pub execution_optimistic: bool,
}

/// A bootstrap as served.
#[derive(Debug)]
pub struct LightClientBootstrapData<const N: usize> {
    pub header: LightClientHeader,
    pub current_sync_committee: SyncCommittee<N>,
    pub current_sync_committee_branch: Vec<H256>,
}

/// The envelope in which a bootstrap is served.
#[derive(Debug)]
pub struct LightClientBootstrapResponse<const N: usize> {
    pub data: LightClientBootstrapData<N>,
}

/// An update as served: every field is always there. A next committee that
/// is not part of the update is sent as zeros, and so is a finalized header
/// with its branch.
#[derive(Debug)]
pub struct LightClientUpdateData<const N: usize> {
    pub attested_header: LightClientHeader,
    pub next_sync_committee: SyncCommittee<N>,
    pub next_sync_committee_branch: Vec<H256>,
    pub finalized_header: LightClientHeader,
    pub finality_branch: Vec<H256>,
    pub sync_aggregate: SyncAggregate<N>,
    pub signature_slot: Slot,
}

/// The envelope in which an update is served, with the name of its fork.
#[derive(Debug)]
pub struct LightClientUpdateResponse<const N: usize> {
    pub version: String,
    pub data: LightClientUpdateData<N>,
}

/// The updates of consecutive periods as served.
#[derive(Debug)]
pub struct LightClientUpdatesResponse<const N: usize>(pub Vec<LightClientUpdateResponse<N>>);

/// A finality update as served: an update without a next committee.
#[derive(Debug, PartialEq, Eq)]
pub struct LightClientFinalityUpdateData<const N: usize> {
    /// The header that the sync committee signed.
    pub attested_header: LightClientHeader,
    /// The header that the attested state has finalized.
    pub finalized_header: LightClientHeader,
    /// The siblings from the finalized header up to the attested state root.
    pub finality_branch: Vec<H256>,
    pub sync_aggregate: SyncAggregate<N>,
    /// The slot at which the aggregate signature was made.
    pub signature_slot: Slot,
}

/// The envelope in which a finality update is served.
#[derive(Debug)]
pub struct LightClientFinalityUpdateResponse<const N: usize> {
    pub data: LightClientFinalityUpdateData<N>,
}

/// The finalized header that a served pair stands for: none where the header
/// is empty and the branch holds zero hashes only, else the pair.
pub open spec fn served_finalized_header(
    header: LightClientHeaderView,
    branch: Seq<H256>,
) -> Option<(LightClientHeaderView, Seq<H256>)> {
    if header.is_empty() && zero_branch(branch) {
        None
    } else {
        Some((header, branch))
    }
}

/// The next committee that a served pair stands for: none where the
/// committee is all zero, whatever the branch holds, else the pair.
pub open spec fn served_next_committee<const N: usize>(
    committee: SyncCommittee<N>,
    branch: Seq<H256>,
) -> Option<(SyncCommittee<N>, Seq<H256>)> {
    if committee.is_absent() {
        None
    } else {
        Some((committee, branch))
    }
}

impl<const N: usize> LightClientUpdateData<N> {
    /// Whether the branch of the next committee fits the committee: where the
    /// committee is all zero, the branch holds zero hashes only.
    pub open spec fn next_committee_branch_fits(self) -> bool {
        self.next_sync_committee.is_absent() ==> zero_branch(self.next_sync_committee_branch@)
    }

    /// Checks that an update which carries no next committee carries no
    /// branch for one either: beside an all-zero committee, a branch with a
    /// hash that is not zero is refused.
    pub fn check_next_sync_committee_branch(&self) -> (res: Result<(), Error>)
        ensures
            res is Ok <==> self.next_committee_branch_fits(),
            res is Err ==> res matches Err(Error::UnexpectedNextSyncCommitteeBranch),
    {
        if self.next_sync_committee.is_default() && !is_zero_branch(
            &self.next_sync_committee_branch,
        ) {
            Err(Error::UnexpectedNextSyncCommitteeBranch)
        } else {
            Ok(())
        }
    }
}

/// The update that a served update stands for.
pub open spec fn served_update<const N: usize>(
    attested_header: LightClientHeaderView,
    next_sync_committee: Option<(SyncCommittee<N>, Seq<H256>)>,
    finalized_header: LightClientHeaderView,
    finality_branch: Seq<H256>,
    sync_aggregate: SyncAggregate<N>,
    signature_slot: Slot,
) -> LightClientUpdateView<N> {
    LightClientUpdateView {
        attested_header,
        next_sync_committee,
        finalized_header: served_finalized_header(finalized_header, finality_branch),
        sync_aggregate,
        signature_slot: signature_slot.0,
    }
}

/// Reads a served finalized header and its branch.
fn read_finalized_header(header: LightClientHeader, branch: Vec<H256>) -> (res: Option<
    (LightClientHeader, Vec<H256>),
>)
    ensures
        match served_finalized_header(header@, branch@) {
            Some((h, b)) => res matches Some((rh, rb)) && rh@ == h && rb@ == b,
            None => res is None,
        },
{
    if header.is_default() && is_zero_branch(&branch) {
        None
    } else {
        Some((header, branch))
    }
}

impl<const N: usize> From<LightClientUpdateData<N>> for LightClientUpdate<N> {
    fn from(value: LightClientUpdateData<N>) -> (update: Self)
        ensures
            update@ == served_update(
                value.attested_header@,
                served_next_committee(value.next_sync_committee, value.next_sync_committee_branch@),
                value.finalized_header@,
                value.finality_branch@,
                value.sync_aggregate,
                value.signature_slot,
            ),
            update@.next_sync_committee is None <==> value.next_sync_committee.is_absent(),
    {
        let next_sync_committee = if value.next_sync_committee.is_default() {
            None
        } else {
            Some((value.next_sync_committee, value.next_sync_committee_branch))
        };
        Self {
            attested_header: value.attested_header,
            next_sync_committee,
            finalized_header: read_finalized_header(value.finalized_header, value.finality_branch),
            sync_aggregate: value.sync_aggregate,
            signature_slot: value.signature_slot,
        }
    }
}

impl<const N: usize> FromSpecImpl<LightClientUpdateData<N>> for LightClientUpdate<N> {
    open spec fn obeys_from_spec() -> bool {
        false
    }

    open spec fn from_spec(value: LightClientUpdateData<N>) -> Self {
        arbitrary()
    }
}

impl<const N: usize> From<LightClientFinalityUpdateData<N>> for LightClientUpdate<N> {
    fn from(value: LightClientFinalityUpdateData<N>) -> (update: Self)
        ensures
            update@ == served_update(
                value.attested_header@,
                None,
                value.finalized_header@,
                value.finality_branch@,
                value.sync_aggregate,
                value.signature_slot,
            ),
    {
        Self {
            attested_header: value.attested_header,
            next_sync_committee: None,
            finalized_header: read_finalized_header(value.finalized_header, value.finality_branch),
            sync_aggregate: value.sync_aggregate,
            signature_slot: value.signature_slot,
        }
    }
}

impl<const N: usize> FromSpecImpl<LightClientFinalityUpdateData<N>> for LightClientUpdate<N> {
    open spec fn obeys_from_spec() -> bool {
        false
    }

    open spec fn from_spec(value: LightClientFinalityUpdateData<N>) -> Self {
        arbitrary()
    }
}

impl<const N: usize> From<LightClientBootstrapData<N>> for LightClientBootstrap<N> {
    fn from(value: LightClientBootstrapData<N>) -> (bootstrap: Self)
        ensures
            bootstrap@ == (LightClientBootstrapView {
                header: value.header@,
                current_sync_committee: value.current_sync_committee,
                current_sync_committee_branch: value.current_sync_committee_branch@,
            }),
    {
        Self {
            header: value.header,
            current_sync_committee: value.current_sync_committee,
            current_sync_committee_branch: value.current_sync_committee_branch,
        }
    }
}

impl<const N: usize> FromSpecImpl<LightClientBootstrapData<N>> for LightClientBootstrap<N> {
    open spec fn obeys_from_spec() -> bool {
        false
    }

    open spec fn from_spec(value: LightClientBootstrapData<N>) -> Self {
        arbitrary()
    }
}

} // verus!
