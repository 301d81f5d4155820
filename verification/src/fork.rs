//! The fork table: which fork, and so which tree layout, is in force at an epoch.

use vstd::prelude::*;
use crate::errors::Error;
use crate::types::{clone_vec, Epoch, Slot, U64, Version};

verus! {

/// The layout before any fork of the table is active.
pub open spec fn spec_genesis_spec() -> ForkSpec {
    ForkSpec {
        finalized_root_gindex: 105,
        current_sync_committee_gindex: 0,
        next_sync_committee_gindex: 0,
        execution_payload_gindex: 0,
        execution_payload_state_root_gindex: 0,
        execution_payload_block_number_gindex: 0,
    }
}

/// The layout before any fork of the table is active.
#[verifier::when_used_as_spec(spec_genesis_spec)]
pub fn genesis_spec() -> (spec: ForkSpec)
    ensures
        spec == spec_genesis_spec(),
{
    ForkSpec {
        finalized_root_gindex: 105,
        current_sync_committee_gindex: 0,
        next_sync_committee_gindex: 0,
        execution_payload_gindex: 0,
        execution_payload_state_root_gindex: 0,
        execution_payload_block_number_gindex: 0,
    }
}

/// The layout of the Altair fork.
pub open spec fn spec_altair_fork_spec() -> ForkSpec {
    ForkSpec {
        finalized_root_gindex: 105,
        current_sync_committee_gindex: 54,
        next_sync_committee_gindex: 55,
        execution_payload_gindex: 0,
        execution_payload_state_root_gindex: 0,
        execution_payload_block_number_gindex: 0,
    }
}

/// The layout of the Altair fork.
#[verifier::when_used_as_spec(spec_altair_fork_spec)]
pub fn altair_fork_spec() -> (spec: ForkSpec)
    ensures
        spec == spec_altair_fork_spec(),
{
    ForkSpec {
        finalized_root_gindex: 105,
        current_sync_committee_gindex: 54,
        next_sync_committee_gindex: 55,
        execution_payload_gindex: 0,
        execution_payload_state_root_gindex: 0,
        execution_payload_block_number_gindex: 0,
    }
}

/// The layout of the Bellatrix fork.
pub open spec fn spec_bellatrix_fork_spec() -> ForkSpec {
    ForkSpec {
        finalized_root_gindex: 105,
        current_sync_committee_gindex: 54,
        next_sync_committee_gindex: 55,
        execution_payload_gindex: 25,
        execution_payload_state_root_gindex: 18,
        execution_payload_block_number_gindex: 22,
    }
}

/// The layout of the Bellatrix fork.
#[verifier::when_used_as_spec(spec_bellatrix_fork_spec)]
pub fn bellatrix_fork_spec() -> (spec: ForkSpec)
    ensures
        spec == spec_bellatrix_fork_spec(),
{
    ForkSpec {
        finalized_root_gindex: 105,
        current_sync_committee_gindex: 54,
        next_sync_committee_gindex: 55,
        execution_payload_gindex: 25,
        execution_payload_state_root_gindex: 18,
        execution_payload_block_number_gindex: 22,
    }
}

/// The layout of the Capella fork.
pub open spec fn spec_capella_fork_spec() -> ForkSpec {
    ForkSpec {
        finalized_root_gindex: 105,
        current_sync_committee_gindex: 54,
        next_sync_committee_gindex: 55,
        execution_payload_gindex: 25,
        execution_payload_state_root_gindex: 18,
        execution_payload_block_number_gindex: 22,
    }
}

/// The layout of the Capella fork.
#[verifier::when_used_as_spec(spec_capella_fork_spec)]
pub fn capella_fork_spec() -> (spec: ForkSpec)
    ensures
        spec == spec_capella_fork_spec(),
{
    ForkSpec {
        finalized_root_gindex: 105,
        current_sync_committee_gindex: 54,
        next_sync_committee_gindex: 55,
        execution_payload_gindex: 25,
        execution_payload_state_root_gindex: 18,
        execution_payload_block_number_gindex: 22,
    }
}

/// The layout of the Deneb fork.
pub open spec fn spec_deneb_fork_spec() -> ForkSpec {
    ForkSpec {
        finalized_root_gindex: 105,
        current_sync_committee_gindex: 54,
        next_sync_committee_gindex: 55,
        execution_payload_gindex: 25,
        execution_payload_state_root_gindex: 34,
        execution_payload_block_number_gindex: 38,
    }
}

/// The layout of the Deneb fork.
#[verifier::when_used_as_spec(spec_deneb_fork_spec)]
pub fn deneb_fork_spec() -> (spec: ForkSpec)
    ensures
        spec == spec_deneb_fork_spec(),
{
    ForkSpec {
        finalized_root_gindex: 105,
        current_sync_committee_gindex: 54,
        next_sync_committee_gindex: 55,
        execution_payload_gindex: 25,
        execution_payload_state_root_gindex: 34,
        execution_payload_block_number_gindex: 38,
    }
}

/// The layout of the Electra fork.
pub open spec fn spec_electra_fork_spec() -> ForkSpec {
    ForkSpec {
        finalized_root_gindex: 169,
        current_sync_committee_gindex: 86,
        next_sync_committee_gindex: 87,
        execution_payload_gindex: 25,
        execution_payload_state_root_gindex: 34,
        execution_payload_block_number_gindex: 38,
    }
}

/// The layout of the Electra fork.
#[verifier::when_used_as_spec(spec_electra_fork_spec)]
pub fn electra_fork_spec() -> (spec: ForkSpec)
    ensures
        spec == spec_electra_fork_spec(),
{
    ForkSpec {
        finalized_root_gindex: 169,
        current_sync_committee_gindex: 86,
        next_sync_committee_gindex: 87,
        execution_payload_gindex: 25,
        execution_payload_state_root_gindex: 34,
        execution_payload_block_number_gindex: 38,
    }
}

/// The position of the Altair fork in a fork table.
pub const ALTAIR_INDEX: usize = 0;

/// The position of the Bellatrix fork in a fork table.
pub const BELLATRIX_INDEX: usize = 1;

/// The position of the Capella fork in a fork table.
pub const CAPELLA_INDEX: usize = 2;

/// The position of the Deneb fork in a fork table.
pub const DENEB_INDEX: usize = 3;

/// The position of the Electra fork in a fork table.
pub const ELECTRA_INDEX: usize = 4;

/// The generalized indices that the verifier reads at one fork.
#[derive(Debug, Default, Clone, Copy, PartialEq, Eq)]
pub struct ForkSpec {
    /// The finalized checkpoint's root, within the beacon state.
    pub finalized_root_gindex: u32,
    /// The current sync committee, within the beacon state.
    pub current_sync_committee_gindex: u32,
    /// The next sync committee, within the beacon state.
    pub next_sync_committee_gindex: u32,
    /// The execution payload, within the beacon block body.
    pub execution_payload_gindex: u32,
    /// The state root, within the execution payload.
    pub execution_payload_state_root_gindex: u32,
    /// The block number, within the execution payload.
    pub execution_payload_block_number_gindex: u32,
}

/// One fork: its version, the epoch at which it activates, and its layout.
#[derive(Debug, Default, Clone, Copy, PartialEq, Eq)]
pub struct ForkParameter {
    pub version: Version,
    pub epoch: Epoch,
    pub spec: ForkSpec,
}

impl ForkParameter {
    /// A fork of the given version, activation epoch and layout.
    pub fn new(version: Version, epoch: Epoch, spec: ForkSpec) -> (res: Self)
        ensures
            res.version == version,
            res.epoch == epoch,
            res.spec == spec,
    {
        Self { version, epoch, spec }
    }
}

/// What a fork table holds: the genesis version and the forks in table order.
pub ghost struct ForkTable {
    pub genesis_version: Version,
    pub forks: Seq<ForkParameter>,
}

/// Whether activation epochs never decrease along the table.
pub open spec fn epochs_ascend(forks: Seq<ForkParameter>) -> bool {
    forall|i: int|
        0 <= i && i + 1 < forks.len() ==> forks[i].epoch.0 <= (#[trigger] forks[i + 1]).epoch.0
}

/// The position of the last fork of the table that is active at `epoch`.
pub open spec fn last_active_fork(forks: Seq<ForkParameter>, epoch: u64) -> Option<int>
    decreases forks.len(),
{
    if forks.len() == 0 {
        None
    } else if forks.last().epoch.0 <= epoch {
        Some(forks.len() - 1)
    } else {
        last_active_fork(forks.drop_last(), epoch)
    }
}

impl ForkTable {
    /// The version in force at `epoch`.
    pub open spec fn fork_version(self, epoch: u64) -> Version {
        match last_active_fork(self.forks, epoch) {
            Some(i) => self.forks[i].version,
            None => self.genesis_version,
        }
    }

    /// The layout in force at `epoch`.
    pub open spec fn fork_spec(self, epoch: u64) -> ForkSpec {
        match last_active_fork(self.forks, epoch) {
            Some(i) => self.forks[i].spec,
            None => genesis_spec(),
        }
    }

    /// Whether the fork at position `fork_index`, or a later one, is in force at `epoch`.
    pub open spec fn is_fork(self, epoch: u64, fork_index: usize) -> bool {
        match last_active_fork(self.forks, epoch) {
            Some(i) => i >= fork_index,
            None => false,
        }
    }

    /// The invariant of a fork table.
    pub open spec fn well_formed(self) -> bool {
        self.forks.len() > 0 && epochs_ascend(self.forks)
    }
}

/// The last active fork is the one after which every fork is still inactive;
/// there is none exactly when every fork of the table is inactive.
pub proof fn lemma_last_active_fork(forks: Seq<ForkParameter>, epoch: u64)
    ensures
        match last_active_fork(forks, epoch) {
            Some(i) => 0 <= i < forks.len() && forks[i].epoch.0 <= epoch && forall|j: int|
                i < j < forks.len() ==> (#[trigger] forks[j]).epoch.0 > epoch,
            None => forall|j: int| 0 <= j < forks.len() ==> (#[trigger] forks[j]).epoch.0 > epoch,
        },
    decreases forks.len(),
{
    if forks.len() > 0 && forks.last().epoch.0 > epoch {
        let front = forks.drop_last();
        lemma_last_active_fork(front, epoch);
        assert forall|j: int| 0 <= j < front.len() implies front[j] == forks[j] by {}
        match last_active_fork(front, epoch) {
            Some(i) => {
                assert forall|j: int| i < j < forks.len() implies (#[trigger] forks[j]).epoch.0
                    > epoch by {
                    if j < front.len() {
                        assert(front[j] == forks[j]);
                    }
                }
            },
            None => {
                assert forall|j: int| 0 <= j < forks.len() implies (#[trigger] forks[j]).epoch.0
                    > epoch by {
                    if j < front.len() {
                        assert(front[j] == forks[j]);
                    }
                }
            },
        }
    }
}

/// In a table whose epochs ascend, the forks active at an epoch are exactly
/// those up to the last active one.
pub proof fn lemma_active_forks_are_a_prefix(forks: Seq<ForkParameter>, epoch: u64, k: int)
    requires
        epochs_ascend(forks),
        0 <= k < forks.len(),
    ensures
        forks[k].epoch.0 <= epoch <==> (last_active_fork(forks, epoch) matches Some(i) && k <= i),
{
    lemma_last_active_fork(forks, epoch);
    lemma_epochs_ascend_pairwise(forks, k, forks.len() - 1);
    match last_active_fork(forks, epoch) {
        Some(i) => {
            if k <= i {
                lemma_epochs_ascend_pairwise(forks, k, i);
            }
        },
        None => {},
    }
}

/// Ascending neighbours make every earlier fork activate no later than every later one.
pub proof fn lemma_epochs_ascend_pairwise(forks: Seq<ForkParameter>, i: int, j: int)
    requires
        epochs_ascend(forks),
        0 <= i <= j < forks.len(),
    ensures
        forks[i].epoch.0 <= forks[j].epoch.0,
    decreases j - i,
{
    if i < j {
        lemma_epochs_ascend_pairwise(forks, i, j - 1);
        assert(forks[j - 1].epoch.0 <= forks[j - 1 + 1].epoch.0);
    }
}

/// The fork table of a chain.
#[derive(Debug, Default, PartialEq, Eq)]
pub struct ForkParameters {
    genesis_version: Version,
    /// The forks after genesis, in order of activation.
    forks: Vec<ForkParameter>,
}

impl View for ForkParameters {
    type V = ForkTable;

    closed spec fn view(&self) -> ForkTable {
        ForkTable { genesis_version: self.genesis_version, forks: self.forks@ }
    }
}

impl Clone for ForkParameters {
    fn clone(&self) -> (copy: Self)
        ensures
            copy@ == self@,
    {
        Self { genesis_version: self.genesis_version, forks: clone_vec(&self.forks) }
    }
}

impl ForkParameters {
    /// Builds a fork table. An empty list of forks is refused, and so is one
    /// whose activation epochs decrease somewhere.
    pub fn new(genesis_version: Version, forks: Vec<ForkParameter>) -> (res: Result<Self, Error>)
        ensures
            res is Ok <==> forks@.len() > 0 && epochs_ascend(forks@),
            res matches Ok(params) ==> params@ == (ForkTable { genesis_version, forks: forks@ }),
            forks@.len() == 0 ==> res matches Err(Error::NotSupportedLightClient),
            forks@.len() > 0 && !epochs_ascend(forks@) ==> (res matches Err(
                Error::InvalidForkParametersOrder(params),
            ) && params@ == (ForkTable { genesis_version, forks: forks@ })),
    {
        let this = Self { genesis_version, forks };
        match this.validate() {
            Ok(()) => Ok(this),
            Err(e) => Err(e),
        }
    }

    /// Checks the table. An empty table is refused as one that does not
    /// support the light-client protocol; a table in which a fork activates
    /// before the fork in front of it is refused with a copy of the table.
    pub fn validate(&self) -> (res: Result<(), Error>)
        ensures
            res is Ok <==> self@.well_formed(),
            (res matches Err(Error::NotSupportedLightClient)) <==> self@.forks.len() == 0,
            (res matches Err(Error::InvalidForkParametersOrder(_))) <==> (self@.forks.len() > 0
                && !epochs_ascend(self@.forks)),
            res matches Err(Error::InvalidForkParametersOrder(params)) ==> params@ == self@,
    {
        if self.forks.len() == 0 {
            return Err(Error::NotSupportedLightClient);
        }
        let mut i: usize = 1;
        while i < self.forks.len()
            invariant
                1 <= i <= self.forks.len(),
                forall|j: int|
                    0 <= j && j + 1 < i ==> self.forks@[j].epoch.0 <= (#[trigger] self.forks@[j
                        + 1]).epoch.0,
            decreases self.forks.len() - i,
        {
            if self.forks[i - 1].epoch.0 > self.forks[i].epoch.0 {
                assert(self.forks@[i - 1].epoch.0 > self.forks@[i - 1 + 1].epoch.0);
                return Err(Error::InvalidForkParametersOrder(self.clone()));
            }
            i += 1;
        }
        Ok(())
    }

    /// The slot of the genesis block.
    pub fn genesis_slot(&self) -> (slot: Slot)
        ensures
            slot == U64(0),
    {
        U64(0)
    }

    /// The version in force before the first fork of the table.
    pub fn genesis_version(&self) -> (version: &Version)
        ensures
            *version == self@.genesis_version,
    {
        &self.genesis_version
    }

    /// The forks of the table, in table order.
    pub fn forks(&self) -> (forks: &[ForkParameter])
        ensures
            forks@ == self@.forks,
    {
        self.forks.as_slice()
    }

    /// The version in force at `epoch`: that of the last active fork, or the
    /// genesis version while no fork is active.
    pub fn compute_fork_version(&self, epoch: Epoch) -> (version: Version)
        ensures
            version == self@.fork_version(epoch.0),
    {
        match self.compute_fork(epoch) {
            Some((_, fork)) => fork.version,
            None => self.genesis_version,
        }
    }

    /// The layout in force at `epoch`: that of the last active fork, or the
    /// genesis layout while no fork is active.
    pub fn compute_fork_spec(&self, epoch: Epoch) -> (spec: ForkSpec)
        ensures
            spec == self@.fork_spec(epoch.0),
    {
        match self.compute_fork(epoch) {
            Some((_, fork)) => fork.spec,
            None => genesis_spec(),
        }
    }

    /// Whether the fork at position `fork_index` of the table, or a later
    /// one, is in force at `epoch`.
    pub fn is_fork(&self, epoch: Epoch, fork_index: usize) -> (active: bool)
        ensures
            active == self@.is_fork(epoch.0, fork_index),
    {
        proof {
            lemma_last_active_fork(self@.forks, epoch.0);
            assert(self.forks@.len() == self.forks.len());
        }
        match self.compute_fork(epoch) {
            Some((current, _)) => current >= fork_index,
            None => false,
        }
    }

    /// The last fork of the table that is active at `epoch`, with its
    /// position, found by scanning the table from its end.
    pub fn compute_fork(&self, epoch: Epoch) -> (found: Option<(usize, ForkParameter)>)
        ensures
            match last_active_fork(self@.forks, epoch.0) {
                Some(i) => found == Some((i as usize, self@.forks[i])),
                None => found is None,
            },
    {
        let mut i: usize = self.forks.len();
        proof {
            assert(self.forks@.take(i as int) == self.forks@);
        }
        while i > 0
            invariant
                i <= self.forks.len(),
                last_active_fork(self.forks@, epoch.0) == last_active_fork(
                    self.forks@.take(i as int),
                    epoch.0,
                ),
            decreases i,
        {
            let fork = self.forks[i - 1];
            proof {
                let front = self.forks@.take(i as int);
                assert(front.last() == fork);
                assert(front.drop_last() == self.forks@.take(i - 1));
            }
            if epoch.0 >= fork.epoch.0 {
                return Some((i - 1, fork));
            }
            i -= 1;
        }
        proof {
            assert(self.forks@.take(0).len() == 0);
        }
        None
    }
}

} // verus!
