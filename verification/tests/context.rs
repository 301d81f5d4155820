use evm_light_client::context::{
    compute_epoch_at_slot, compute_slot_at_timestamp, compute_sync_committee_period,
    mainnet_preset, minimal_preset, ChainConsensusVerificationContext, ChainContext, Config,
    ConsensusVerificationContext, Fraction, LightClientContext,
};
use evm_light_client::errors::Error;
use evm_light_client::fork::{
    altair_fork_spec, bellatrix_fork_spec, genesis_spec, ForkParameter, ForkParameters,
};
use evm_light_client::types::{Version, H256, U64};

fn fork_parameters() -> ForkParameters {
    ForkParameters::new(
        Version([0, 0, 0, 1]),
        vec![
            ForkParameter::new(Version([1, 0, 0, 1]), U64(2), altair_fork_spec()),
            ForkParameter::new(Version([2, 0, 0, 1]), U64(4), bellatrix_fork_spec()),
        ],
    )
    .unwrap()
}

fn context(current_timestamp: u64) -> LightClientContext {
    LightClientContext::new(
        fork_parameters(),
        U64(12),
        U64(32),
        U64(256),
        U64(1_000),
        H256([9u8; 32]),
        1,
        Fraction::new(2, 3).unwrap(),
        U64(current_timestamp),
    )
}

#[test]
fn fraction_round_trips() {
    for (n, d) in [(0u64, 1u64), (1, 1), (2, 3), (1, 2), (7, 7), (0, u64::MAX), (u64::MAX, u64::MAX)] {
        let fraction = Fraction::new(n, d).unwrap();
        assert_eq!(fraction.numerator(), n);
        assert_eq!(fraction.denominator(), d);
    }
}

#[test]
fn fraction_with_zero_denominator_or_above_one_is_refused() {
    assert!(matches!(Fraction::new(0, 0), Err(Error::InvalidFraction(0, 0))));
    assert!(matches!(Fraction::new(1, 0), Err(Error::InvalidFraction(1, 0))));
    assert!(matches!(Fraction::new(4, 3), Err(Error::InvalidFraction(4, 3))));
    assert!(matches!(Fraction::new(u64::MAX, 1), Err(Error::InvalidFraction(u64::MAX, 1))));
}

#[test]
fn context_hands_back_what_it_was_built_with() {
    let ctx = context(1_000 + 12 * 100 + 5);
    assert_eq!(ctx.genesis_time(), U64(1_000));
    assert_eq!(ctx.seconds_per_slot(), U64(12));
    assert_eq!(ctx.slots_per_epoch(), U64(32));
    assert_eq!(ctx.epochs_per_sync_committee_period(), U64(256));
    assert_eq!(ctx.fork_parameters(), &fork_parameters());
    assert_eq!(ctx.genesis_validators_root(), H256([9u8; 32]));
    assert_eq!(ctx.min_sync_committee_participants(), 1);
    assert_eq!(ctx.signature_threshold(), Fraction::new(2, 3).unwrap());
    assert!(ctx.clock_is_defined());
    assert_eq!(ctx.current_slot(), U64(100));
}

#[test]
fn clock_before_genesis_has_no_current_slot() {
    assert!(!context(999).clock_is_defined());
    assert!(context(1_000).clock_is_defined());
    assert_eq!(context(1_000).current_slot(), U64(0));
    assert_eq!(context(1_011).current_slot(), U64(0));
    assert_eq!(context(1_012).current_slot(), U64(1));
}

#[test]
fn clock_arithmetic() {
    let ctx = context(2_000);
    assert_eq!(compute_epoch_at_slot(&ctx, U64(0)), U64(0));
    assert_eq!(compute_epoch_at_slot(&ctx, U64(31)), U64(0));
    assert_eq!(compute_epoch_at_slot(&ctx, U64(32)), U64(1));
    assert_eq!(compute_epoch_at_slot(&ctx, U64(6_400_000)), U64(200_000));
    assert_eq!(compute_slot_at_timestamp(&ctx, U64(1_000)), U64(0));
    assert_eq!(compute_slot_at_timestamp(&ctx, U64(1_000 + 12 * 7 + 11)), U64(7));
    assert_eq!(compute_sync_committee_period(&ctx, U64(8_191)), U64(0));
    assert_eq!(compute_sync_committee_period(&ctx, U64(8_192)), U64(1));
    assert_eq!(compute_sync_committee_period(&ctx, U64(8_192 * 5 + 17)), U64(5));
}

#[test]
fn fork_layout_goes_by_the_epoch_of_the_slot() {
    let ctx = context(2_000);
    assert_eq!(ctx.compute_fork_spec(U64(63)), genesis_spec());
    assert_eq!(ctx.compute_fork_spec(U64(64)), altair_fork_spec());
    assert_eq!(ctx.compute_fork_spec(U64(127)), altair_fork_spec());
    assert_eq!(ctx.compute_fork_spec(U64(128)), bellatrix_fork_spec());
}

#[test]
fn context_from_a_configuration() {
    let config = Config { preset: minimal_preset(), fork_parameters: fork_parameters() };
    let ctx = LightClientContext::new_with_config(
        config,
        H256([3u8; 32]),
        U64(50),
        Fraction::new(1, 2).unwrap(),
        U64(50 + 6 * 20),
    );
    assert_eq!(ctx.seconds_per_slot(), U64(6));
    assert_eq!(ctx.slots_per_epoch(), U64(8));
    assert_eq!(ctx.epochs_per_sync_committee_period(), U64(8));
    assert_eq!(ctx.min_sync_committee_participants(), 1);
    assert_eq!(ctx.genesis_time(), U64(50));
    assert_eq!(ctx.genesis_validators_root(), H256([3u8; 32]));
    assert_eq!(ctx.signature_threshold(), Fraction::new(1, 2).unwrap());
    assert_eq!(ctx.current_slot(), U64(20));
    assert_eq!(compute_sync_committee_period(&ctx, U64(64)), U64(1));
    assert_eq!(mainnet_preset().SYNC_COMMITTEE_SIZE, 512);
    assert_eq!(mainnet_preset().SLOTS_PER_EPOCH, U64(32));
    assert_eq!(mainnet_preset().EPOCHS_PER_SYNC_COMMITTEE_PERIOD, U64(256));
    assert_eq!(mainnet_preset().SECONDS_PER_SLOT, U64(12));
    assert_eq!(minimal_preset().SYNC_COMMITTEE_SIZE, 32);
}
