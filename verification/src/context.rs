//! The chain context: genesis parameters, the fork table and the clock
//! arithmetic between timestamps, slots, epochs and sync-committee periods.

use vstd::prelude::*;
use crate::errors::Error;
use crate::fork::{ForkParameters, ForkSpec, ForkTable};
use crate::types::{Epoch, Root, Slot, U64};

verus! {

/// A threshold between zero and one, as a fraction.
#[derive(Clone, Copy, Debug, PartialEq, Eq)]
pub struct Fraction {
    numerator: u64,
    denominator: u64,
}

impl Fraction {
    #[verifier::type_invariant]
    spec fn valid(self) -> bool {
        self.denominator != 0 && self.numerator <= self.denominator
    }

    /// The part above the line.
    pub closed spec fn spec_numerator(&self) -> u64 {
        self.numerator
    }

    /// The part below the line, which is not zero.
    pub closed spec fn spec_denominator(&self) -> u64 {
        self.denominator
    }

    /// Builds the fraction `numerator / denominator`. A zero denominator and
    /// a fraction above one are refused.
    pub fn new(numerator: u64, denominator: u64) -> (res: Result<Self, Error>)
        ensures
            res is Ok <==> denominator != 0 && numerator <= denominator,
            res matches Ok(fraction) ==> fraction.spec_numerator() == numerator
                && fraction.spec_denominator() == denominator,
            res is Err ==> res == Err::<Self, Error>(
                Error::InvalidFraction(numerator, denominator),
            ),
    {
        if denominator == 0 || numerator > denominator {
            Err(Error::InvalidFraction(numerator, denominator))
        } else {
            Ok(Self { numerator, denominator })
        }
    }

    /// The part above the line, which is not above the part below it.
    #[verifier::when_used_as_spec(spec_numerator)]
    pub fn numerator(&self) -> (n: u64)
        ensures
            n == self.spec_numerator(),
            n <= self.spec_denominator(),
    {
        proof {
            use_type_invariant(self);
        }
        self.numerator
    }

    /// The part below the line, which is not zero.
    #[verifier::when_used_as_spec(spec_denominator)]
    pub fn denominator(&self) -> (d: u64)
        ensures
            d == self.spec_denominator(),
            d != 0,
    {
        proof {
            use_type_invariant(self);
        }
        self.denominator
    }
}

/// The values that a chain is configured with.
pub ghost struct ChainValues {
    pub genesis_time: u64,
    pub fork_parameters: ForkTable,
    pub seconds_per_slot: u64,
    pub slots_per_epoch: u64,
    pub epochs_per_sync_committee_period: u64,
}

impl ChainValues {
    /// Whether the clock arithmetic of the chain is defined: no unit of time is empty.
    pub open spec fn well_formed(self) -> bool {
        &&& self.seconds_per_slot != 0
        &&& self.slots_per_epoch != 0
        &&& self.epochs_per_sync_committee_period != 0
    }

    /// The epoch that a slot belongs to.
    pub open spec fn epoch_at_slot(self, slot: u64) -> u64 {
        slot / self.slots_per_epoch
    }

    /// The sync-committee period that a slot belongs to.
    pub open spec fn sync_committee_period(self, slot: u64) -> u64 {
        self.epoch_at_slot(slot) / self.epochs_per_sync_committee_period
    }

    /// The slot that is current at a timestamp not before genesis.
    pub open spec fn slot_at_timestamp(self, timestamp: u64) -> u64 {
        ((timestamp - self.genesis_time) / (self.seconds_per_slot as int)) as u64
    }

    /// The layout in force at a slot.
    pub open spec fn fork_spec_at_slot(self, slot: u64) -> ForkSpec {
        self.fork_parameters.fork_spec(self.epoch_at_slot(slot))
    }
}

/// The values that the verifier of a chain is configured with.
pub ghost struct VerifierValues {
    pub genesis_validators_root: Root,
    pub current_slot: u64,
    pub min_sync_committee_participants: usize,
    pub signature_threshold: Fraction,
}

/// The parameters of a chain.
pub trait ChainContext {
    /// The values behind the methods of this trait.
    spec fn chain(&self) -> ChainValues;

    /// The timestamp of the genesis block.
    fn genesis_time(&self) -> (time: U64)
        ensures
            time.0 == self.chain().genesis_time,
    ;

    /// The fork table.
    fn fork_parameters(&self) -> (forks: &ForkParameters)
        ensures
            forks@ == self.chain().fork_parameters,
    ;

    /// The duration of a slot.
    fn seconds_per_slot(&self) -> (seconds: U64)
        ensures
            seconds.0 == self.chain().seconds_per_slot,
    ;

    /// The number of slots of an epoch.
    fn slots_per_epoch(&self) -> (slots: Slot)
        ensures
            slots.0 == self.chain().slots_per_epoch,
    ;

    /// The number of epochs for which a sync committee serves.
    fn epochs_per_sync_committee_period(&self) -> (epochs: Epoch)
        ensures
            epochs.0 == self.chain().epochs_per_sync_committee_period,
    ;
}

/// The parameters of the verification of sync-committee signatures.
pub trait ConsensusVerificationContext {
    /// The values behind the methods of this trait.
    spec fn consensus(&self) -> VerifierValues;

    /// Whether the verifier's clock has a current slot.
    spec fn has_current_slot(&self) -> bool;

    /// The root of the validators at genesis, which identifies the chain.
    fn genesis_validators_root(&self) -> (root: Root)
        ensures
            root == self.consensus().genesis_validators_root,
    ;

    /// The slot that is current by the verifier's clock.
    fn current_slot(&self) -> (slot: Slot)
        requires
            self.has_current_slot(),
        ensures
            slot.0 == self.consensus().current_slot,
    ;

    /// The least number of participants for an update to be considered.
    fn min_sync_committee_participants(&self) -> (participants: usize)
        ensures
            participants == self.consensus().min_sync_committee_participants,
    ;

    /// The share of a committee that must have signed an update.
    fn signature_threshold(&self) -> (threshold: Fraction)
        ensures
            threshold == self.consensus().signature_threshold,
    ;
}

/// A chain context that can also parameterize the verification.
pub trait ChainConsensusVerificationContext: ChainContext + ConsensusVerificationContext + Sized {
    /// The layout in force at a slot.
    fn compute_fork_spec(&self, slot: U64) -> (spec: ForkSpec)
        requires
            self.chain().slots_per_epoch != 0,
        ensures
            spec == self.chain().fork_spec_at_slot(slot.0),
    {
        self.fork_parameters().compute_fork_spec(compute_epoch_at_slot(self, slot))
    }
}

/// The epoch that a slot belongs to.
pub fn compute_epoch_at_slot<C: ChainContext>(ctx: &C, slot: Slot) -> (epoch: Epoch)
    requires
        ctx.chain().slots_per_epoch != 0,
    ensures
        epoch.0 == ctx.chain().epoch_at_slot(slot.0),
{
    U64(slot.0 / ctx.slots_per_epoch().0)
}

/// The slot that is current at a timestamp.
pub fn compute_slot_at_timestamp<C: ChainContext>(ctx: &C, timestamp: U64) -> (slot: Slot)
    requires
        ctx.chain().seconds_per_slot != 0,
        timestamp.0 >= ctx.chain().genesis_time,
    ensures
        slot.0 == ctx.chain().slot_at_timestamp(timestamp.0),
{
    U64((timestamp.0 - ctx.genesis_time().0) / ctx.seconds_per_slot().0)
}

/// The sync-committee period that a slot belongs to.
pub fn compute_sync_committee_period<C: ChainContext>(ctx: &C, slot: Slot) -> (period: U64)
    requires
        ctx.chain().slots_per_epoch != 0,
        ctx.chain().epochs_per_sync_committee_period != 0,
    ensures
        period.0 == ctx.chain().sync_committee_period(slot.0),
{
    U64(compute_epoch_at_slot(ctx, slot).0 / ctx.epochs_per_sync_committee_period().0)
}

/// The standard context of a light client.
pub struct LightClientContext {
    fork_parameters: ForkParameters,
    seconds_per_slot: U64,
    slots_per_epoch: Slot,
    epochs_per_sync_committee_period: Epoch,
    genesis_time: U64,
    genesis_validators_root: Root,
    min_sync_committee_participants: usize,
    signature_threshold: Fraction,
    current_timestamp: U64,
}

/// The constants of a network preset that the verifier reads.
#[allow(non_snake_case)]
#[derive(Debug, Clone, Copy, PartialEq, Eq)]
pub struct Preset {
    pub SECONDS_PER_SLOT: U64,
    pub SLOTS_PER_EPOCH: Slot,
    pub EPOCHS_PER_SYNC_COMMITTEE_PERIOD: Epoch,
    pub MIN_SYNC_COMMITTEE_PARTICIPANTS: usize,
    pub SYNC_COMMITTEE_SIZE: usize,
}

/// The preset of the main network.
pub open spec fn spec_mainnet_preset() -> Preset {
    Preset {
        SECONDS_PER_SLOT: U64(12),
        SLOTS_PER_EPOCH: U64(32),
        EPOCHS_PER_SYNC_COMMITTEE_PERIOD: U64(256),
        MIN_SYNC_COMMITTEE_PARTICIPANTS: 1,
        SYNC_COMMITTEE_SIZE: 512,
    }
}

/// The preset of the main network.
#[verifier::when_used_as_spec(spec_mainnet_preset)]
pub fn mainnet_preset() -> (preset: Preset)
    ensures
        preset == spec_mainnet_preset(),
{
    Preset {
        SECONDS_PER_SLOT: U64(12),
        SLOTS_PER_EPOCH: U64(32),
        EPOCHS_PER_SYNC_COMMITTEE_PERIOD: U64(256),
        MIN_SYNC_COMMITTEE_PARTICIPANTS: 1,
        SYNC_COMMITTEE_SIZE: 512,
    }
}

/// The preset of small test networks.
pub open spec fn spec_minimal_preset() -> Preset {
    Preset {
        SECONDS_PER_SLOT: U64(6),
        SLOTS_PER_EPOCH: U64(8),
        EPOCHS_PER_SYNC_COMMITTEE_PERIOD: U64(8),
        MIN_SYNC_COMMITTEE_PARTICIPANTS: 1,
        SYNC_COMMITTEE_SIZE: 32,
    }
}

/// The preset of small test networks.
#[verifier::when_used_as_spec(spec_minimal_preset)]
pub fn minimal_preset() -> (preset: Preset)
    ensures
        preset == spec_minimal_preset(),
{
    Preset {
        SECONDS_PER_SLOT: U64(6),
        SLOTS_PER_EPOCH: U64(8),
        EPOCHS_PER_SYNC_COMMITTEE_PERIOD: U64(8),
        MIN_SYNC_COMMITTEE_PARTICIPANTS: 1,
        SYNC_COMMITTEE_SIZE: 32,
    }
}

/// The configuration of a network: its preset and its fork table.
#[derive(Debug, Clone, PartialEq, Eq)]
pub struct Config {
    pub preset: Preset,
    pub fork_parameters: ForkParameters,
}

impl LightClientContext {
    /// Whether the clock has a current slot: a slot lasts, and the current
    /// time is not before genesis.
    pub closed spec fn clock_defined(&self) -> bool {
        self.seconds_per_slot.0 != 0 && self.current_timestamp.0 >= self.genesis_time.0
    }

    /// The timestamp that the context takes for the current time.
    pub closed spec fn spec_current_timestamp(&self) -> u64 {
        self.current_timestamp.0
    }

    /// A context of the given values. Its clock has a current slot where a
    /// slot lasts and the current time is not before genesis.
    #[allow(clippy::too_many_arguments)]
    pub fn new(
        fork_parameters: ForkParameters,
        seconds_per_slot: U64,
        slots_per_epoch: Slot,
        epochs_per_sync_committee_period: Epoch,
        genesis_time: U64,
        genesis_validators_root: Root,
        min_sync_committee_participants: usize,
        signature_threshold: Fraction,
        current_timestamp: U64,
    ) -> (ctx: Self)
        ensures
            ctx.chain() == (ChainValues {
                genesis_time: genesis_time.0,
                fork_parameters: fork_parameters@,
                seconds_per_slot: seconds_per_slot.0,
                slots_per_epoch: slots_per_epoch.0,
                epochs_per_sync_committee_period: epochs_per_sync_committee_period.0,
            }),
            ctx.consensus() == (VerifierValues {
                genesis_validators_root,
                current_slot: ctx.chain().slot_at_timestamp(current_timestamp.0),
                min_sync_committee_participants,
                signature_threshold,
            }),
            ctx.spec_current_timestamp() == current_timestamp.0,
            ctx.has_current_slot() <==> seconds_per_slot.0 != 0 && current_timestamp.0
                >= genesis_time.0,
    {
        Self {
            fork_parameters,
            seconds_per_slot,
            slots_per_epoch,
            epochs_per_sync_committee_period,
            genesis_time,
            genesis_validators_root,
            min_sync_committee_participants,
            signature_threshold,
            current_timestamp,
        }
    }

    /// A context of the given values, with the units of time and the least
    /// number of participants of the configuration's preset and with its
    /// fork table.
    pub fn new_with_config(
        config: Config,
        genesis_validators_root: Root,
        genesis_time: U64,
        signature_threshold: Fraction,
        current_timestamp: U64,
    ) -> (ctx: Self)
        ensures
            ctx.chain() == (ChainValues {
                genesis_time: genesis_time.0,
                fork_parameters: config.fork_parameters@,
                seconds_per_slot: config.preset.SECONDS_PER_SLOT.0,
                slots_per_epoch: config.preset.SLOTS_PER_EPOCH.0,
                epochs_per_sync_committee_period: config.preset.EPOCHS_PER_SYNC_COMMITTEE_PERIOD.0,
            }),
            ctx.consensus() == (VerifierValues {
                genesis_validators_root,
                current_slot: ctx.chain().slot_at_timestamp(current_timestamp.0),
                min_sync_committee_participants: config.preset.MIN_SYNC_COMMITTEE_PARTICIPANTS,
                signature_threshold,
            }),
            ctx.spec_current_timestamp() == current_timestamp.0,
            ctx.has_current_slot() <==> config.preset.SECONDS_PER_SLOT.0 != 0 && current_timestamp.0
                >= genesis_time.0,
    {
        Self::new(
            config.fork_parameters,
            config.preset.SECONDS_PER_SLOT,
            config.preset.SLOTS_PER_EPOCH,
            config.preset.EPOCHS_PER_SYNC_COMMITTEE_PERIOD,
            genesis_time,
            genesis_validators_root,
            config.preset.MIN_SYNC_COMMITTEE_PARTICIPANTS,
            signature_threshold,
            current_timestamp,
        )
    }

    /// Whether the clock of this context has a current slot.
    pub fn clock_is_defined(&self) -> (defined: bool)
        ensures
            defined == self.has_current_slot(),
    {
        self.seconds_per_slot.0 != 0 && self.current_timestamp.0 >= self.genesis_time.0
    }
}

impl ConsensusVerificationContext for LightClientContext {
    closed spec fn consensus(&self) -> VerifierValues {
        VerifierValues {
            genesis_validators_root: self.genesis_validators_root,
            current_slot: self.chain().slot_at_timestamp(self.current_timestamp.0),
            min_sync_committee_participants: self.min_sync_committee_participants,
            signature_threshold: self.signature_threshold,
        }
    }

    closed spec fn has_current_slot(&self) -> bool {
        self.clock_defined()
    }

    fn genesis_validators_root(&self) -> Root {
        self.genesis_validators_root
    }

    fn min_sync_committee_participants(&self) -> usize {
        self.min_sync_committee_participants
    }

    fn signature_threshold(&self) -> Fraction {
        self.signature_threshold
    }

    fn current_slot(&self) -> Slot {
        compute_slot_at_timestamp(self, self.current_timestamp)
    }
}

impl ChainContext for LightClientContext {
    closed spec fn chain(&self) -> ChainValues {
        ChainValues {
            genesis_time: self.genesis_time.0,
            fork_parameters: self.fork_parameters@,
            seconds_per_slot: self.seconds_per_slot.0,
            slots_per_epoch: self.slots_per_epoch.0,
            epochs_per_sync_committee_period: self.epochs_per_sync_committee_period.0,
        }
    }

    fn genesis_time(&self) -> U64 {
        self.genesis_time
    }

    fn fork_parameters(&self) -> &ForkParameters {
        &self.fork_parameters
    }

    fn seconds_per_slot(&self) -> U64 {
        self.seconds_per_slot
    }

    fn slots_per_epoch(&self) -> Slot {
        self.slots_per_epoch
    }

    fn epochs_per_sync_committee_period(&self) -> Epoch {
        self.epochs_per_sync_committee_period
    }
}

impl ChainConsensusVerificationContext for LightClientContext {

}

} // verus!
