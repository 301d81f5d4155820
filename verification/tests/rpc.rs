use evm_light_client::beacon::{BeaconBlockHeader, LightClientHeader};
use evm_light_client::errors::Error;
use evm_light_client::rpc::{
    Checkpoint, GenesisData, LightClientBootstrapData, LightClientFinalityUpdateData,
    LightClientUpdateData,
};
use evm_light_client::sync_protocol::{
    Bitvector, LightClientBootstrap, LightClientUpdate, SyncAggregate, SyncCommittee,
};
use evm_light_client::types::{
    clone_vec, is_all_zero, is_zero_branch, Address, PublicKey, Signature, H256, U64,
};

fn header(slot: u64) -> LightClientHeader {
    LightClientHeader {
        beacon: BeaconBlockHeader {
            slot: U64(slot),
            proposer_index: U64(3),
            parent_root: H256([1u8; 32]),
            state_root: H256([2u8; 32]),
            body_root: H256([3u8; 32]),
        },
        execution: None,
        execution_branch: vec![],
    }
}

fn empty_header() -> LightClientHeader {
    LightClientHeader {
        beacon: BeaconBlockHeader::default(),
        execution: None,
        execution_branch: vec![H256([0u8; 32]); 4],
    }
}

fn aggregate() -> SyncAggregate<2> {
    SyncAggregate {
        sync_committee_bits: Bitvector([true, false]),
        sync_committee_signature: Signature([5u8; 96]),
    }
}

fn committee() -> SyncCommittee<2> {
    SyncCommittee {
        pubkeys: [PublicKey([1u8; 48]), PublicKey([2u8; 48])],
        aggregate_pubkey: PublicKey([3u8; 48]),
    }
}

fn served(
    next: SyncCommittee<2>,
    next_branch: Vec<H256>,
    finalized: LightClientHeader,
    finality_branch: Vec<H256>,
) -> LightClientUpdateData<2> {
    LightClientUpdateData {
        attested_header: header(90),
        next_sync_committee: next,
        next_sync_committee_branch: next_branch,
        finalized_header: finalized,
        finality_branch,
        sync_aggregate: aggregate(),
        signature_slot: U64(91),
    }
}

#[test]
fn served_update_with_everything_present() {
    let next_branch = vec![H256([7u8; 32]); 5];
    let finality_branch = vec![H256([8u8; 32]); 6];
    let update: LightClientUpdate<2> =
        served(committee(), next_branch.clone(), header(80), finality_branch.clone()).into();
    assert_eq!(update.attested_header, header(90));
    assert_eq!(update.next_sync_committee, Some((committee(), next_branch)));
    assert_eq!(update.finalized_header, Some((header(80), finality_branch)));
    assert_eq!(update.sync_aggregate, aggregate());
    assert_eq!(update.signature_slot, U64(91));
}

#[test]
fn all_zero_committee_stands_for_no_committee() {
    let zero_branch = vec![H256([0u8; 32]); 5];
    let update: LightClientUpdate<2> =
        served(SyncCommittee::default(), zero_branch.clone(), header(80), vec![H256([8u8; 32]); 6])
            .into();
    assert_eq!(update.next_sync_committee, None);
    assert!(update.finalized_header.is_some());
    let update: LightClientUpdate<2> =
        served(SyncCommittee::default(), vec![], header(80), vec![H256([8u8; 32]); 6]).into();
    assert_eq!(update.next_sync_committee, None);
}

#[test]
fn all_zero_committee_is_absent_whatever_its_branch_holds() {
    let mut branch = vec![H256([0u8; 32]); 5];
    branch[4].0[31] = 1;
    let update: LightClientUpdate<2> =
        served(SyncCommittee::default(), branch, header(80), vec![]).into();
    assert_eq!(update.next_sync_committee, None);
    let update: LightClientUpdate<2> =
        served(SyncCommittee::default(), vec![H256([9u8; 32]); 5], header(80), vec![]).into();
    assert_eq!(update.next_sync_committee, None);
}

#[test]
fn committee_that_is_not_all_zero_is_kept_with_its_branch() {
    let zero_branch = vec![H256([0u8; 32]); 5];
    let update: LightClientUpdate<2> =
        served(committee(), zero_branch.clone(), header(80), vec![]).into();
    assert_eq!(update.next_sync_committee, Some((committee(), zero_branch)));
    let mut half = SyncCommittee::<2>::default();
    half.aggregate_pubkey = PublicKey([1u8; 48]);
    let update: LightClientUpdate<2> = served(half, vec![], header(80), vec![]).into();
    assert_eq!(update.next_sync_committee, Some((half, vec![])));
    let mut one_key = SyncCommittee::<2>::default();
    one_key.pubkeys[1].0[47] = 1;
    let update: LightClientUpdate<2> = served(one_key, vec![], header(80), vec![]).into();
    assert_eq!(update.next_sync_committee, Some((one_key, vec![])));
}

#[test]
fn branch_beside_an_absent_committee_must_be_zero() {
    let mut branch = vec![H256([0u8; 32]); 5];
    let data = served(SyncCommittee::default(), branch.clone(), header(80), vec![]);
    assert!(data.check_next_sync_committee_branch().is_ok());
    let data = served(SyncCommittee::default(), vec![], header(80), vec![]);
    assert!(data.check_next_sync_committee_branch().is_ok());
    branch[2].0[0] = 0x80;
    let data = served(SyncCommittee::default(), branch.clone(), header(80), vec![]);
    assert!(matches!(
        data.check_next_sync_committee_branch(),
        Err(Error::UnexpectedNextSyncCommitteeBranch)
    ));
    let data = served(committee(), branch, header(80), vec![]);
    assert!(data.check_next_sync_committee_branch().is_ok());
    let data = served(committee(), vec![H256([0u8; 32]); 5], header(80), vec![]);
    assert!(data.check_next_sync_committee_branch().is_ok());
}

#[test]
fn empty_header_with_a_zero_branch_stands_for_no_finalized_header() {
    let update: LightClientUpdate<2> =
        served(committee(), vec![], empty_header(), vec![H256([0u8; 32]); 6]).into();
    assert_eq!(update.finalized_header, None);
    let update: LightClientUpdate<2> =
        served(committee(), vec![], empty_header(), vec![H256([9u8; 32]); 6]).into();
    assert_eq!(update.finalized_header, Some((empty_header(), vec![H256([9u8; 32]); 6])));
    let update: LightClientUpdate<2> =
        served(committee(), vec![], header(80), vec![H256([0u8; 32]); 6]).into();
    assert_eq!(update.finalized_header, Some((header(80), vec![H256([0u8; 32]); 6])));
    let mut with_branch = empty_header();
    with_branch.execution_branch[0].0[0] = 1;
    let update: LightClientUpdate<2> =
        served(committee(), vec![], with_branch.clone(), vec![]).into();
    assert_eq!(update.finalized_header, Some((with_branch, vec![])));
}

#[test]
fn served_finality_update_has_no_next_committee() {
    let data = LightClientFinalityUpdateData::<2> {
        attested_header: header(90),
        finalized_header: header(80),
        finality_branch: vec![H256([8u8; 32]); 6],
        sync_aggregate: aggregate(),
        signature_slot: U64(91),
    };
    let update: LightClientUpdate<2> = data.into();
    assert_eq!(update.attested_header, header(90));
    assert_eq!(update.next_sync_committee, None);
    assert_eq!(update.finalized_header, Some((header(80), vec![H256([8u8; 32]); 6])));
    assert_eq!(update.sync_aggregate, aggregate());
    assert_eq!(update.signature_slot, U64(91));
    let data = LightClientFinalityUpdateData::<2> {
        attested_header: header(90),
        finalized_header: empty_header(),
        finality_branch: vec![],
        sync_aggregate: aggregate(),
        signature_slot: U64(91),
    };
    let update: LightClientUpdate<2> = data.into();
    assert_eq!(update.finalized_header, None);
}

#[test]
fn served_bootstrap_is_taken_as_it_is() {
    let data = LightClientBootstrapData::<2> {
        header: header(70),
        current_sync_committee: committee(),
        current_sync_committee_branch: vec![H256([4u8; 32]); 5],
    };
    let bootstrap: LightClientBootstrap<2> = data.into();
    assert_eq!(bootstrap.header, header(70));
    assert_eq!(bootstrap.current_sync_committee, committee());
    assert_eq!(bootstrap.current_sync_committee_branch, vec![H256([4u8; 32]); 5]);
}

#[test]
fn served_genesis_and_checkpoints_hold_their_fields() {
    let genesis = GenesisData {
        genesis_validators_root: H256([1u8; 32]),
        genesis_time: U64(1_606_824_023),
        genesis_fork_version: String::from("0x00000000"),
    };
    assert_eq!(genesis.genesis_time, U64(1_606_824_023));
    assert_eq!(genesis.clone().genesis_fork_version, "0x00000000");
    assert_eq!(Checkpoint::default(), Checkpoint { epoch: U64(0), root: H256([0u8; 32]) });
}

#[test]
fn keys_signatures_and_addresses_have_fixed_lengths() {
    assert_eq!(PublicKey::try_from_slice(&[7u8; 48]).unwrap(), PublicKey([7u8; 48]));
    assert!(matches!(
        PublicKey::try_from_slice(&[7u8; 47]),
        Err(Error::InvalidBLSPublicKeyLength(48, 47))
    ));
    assert!(matches!(
        PublicKey::try_from_slice(&[7u8; 96]),
        Err(Error::InvalidBLSPublicKeyLength(48, 96))
    ));
    assert_eq!(Signature::try_from_slice(&[7u8; 96]).unwrap(), Signature([7u8; 96]));
    assert!(matches!(
        Signature::try_from_slice(&[]),
        Err(Error::InvalidBLSSignatureLength(96, 0))
    ));
    assert!(matches!(
        Signature::try_from_slice(&[1u8; 97]),
        Err(Error::InvalidBLSSignatureLength(96, 97))
    ));
    let mut bytes = [0u8; 20];
    bytes[19] = 0xee;
    assert_eq!(Address::try_from_slice(&bytes).unwrap(), Address(bytes));
    assert!(matches!(
        Address::try_from_slice(&[0u8; 32]),
        Err(Error::InvalidAddressLength(20, 32))
    ));
    assert_eq!(PublicKey::default(), PublicKey([0u8; 48]));
    assert_eq!(Signature::default(), Signature([0u8; 96]));
}

#[test]
fn zero_values_are_recognized() {
    assert!(H256::zero().is_zero());
    assert_eq!(H256::zero(), H256([0u8; 32]));
    let mut one = H256([0u8; 32]);
    one.0[31] = 1;
    assert!(!one.is_zero());
    assert!(one.equals(&one));
    assert!(!one.equals(&H256::zero()));
    assert!(PublicKey([0u8; 48]).is_zero());
    assert!(!PublicKey([1u8; 48]).is_zero());
    assert!(PublicKey([1u8; 48]).equals(&PublicKey([1u8; 48])));
    assert!(!PublicKey([1u8; 48]).equals(&PublicKey([2u8; 48])));
    assert!(is_all_zero(&[]));
    assert!(is_all_zero(&[0, 0, 0]));
    assert!(!is_all_zero(&[0, 0, 1]));
    assert!(is_zero_branch(&vec![]));
    assert!(is_zero_branch(&vec![H256::zero(); 3]));
    assert!(!is_zero_branch(&vec![H256::zero(), one]));
    assert_eq!(clone_vec(&vec![1u8, 2, 3]), vec![1u8, 2, 3]);
    assert_eq!(U64::from(7u64), U64(7));
    assert!(header(1).clone() == header(1));
    assert!(!header(1).is_default());
    assert!(empty_header().is_default());
}
