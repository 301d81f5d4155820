//! Block headers, and the domains and signing roots of signatures over them.

use vstd::prelude::*;
use crate::errors::Error;
use crate::ssz::{
    append_padded_chunk, append_root, append_u64_chunk, byte_list_root, hash_byte_list,
    merkle_root, padded_chunk, ssz_merkleize, u64_chunk,
};
use crate::types::{
    all_zero, clone_vec, is_all_zero, is_zero_branch, zero_branch, Address, H256, Root, Slot,
    Version, U64,
};

verus! {

/// A 32-byte tag that binds a signature to its purpose, fork and chain.
pub type Domain = H256;

/// The number of bytes of the logs bloom of an execution payload.
pub const BYTES_PER_LOGS_BLOOM: usize = 256;

/// The largest number of bytes of the extra data of an execution payload.
pub const MAX_EXTRA_DATA_BYTES: usize = 32;

/// The purpose of a signature.
#[derive(Clone, Copy, Debug, PartialEq, Eq, Default)]
pub struct DomainType(pub [u8; 4]);

/// The purpose of the signatures of a sync committee.
pub open spec fn spec_domain_sync_committee() -> DomainType {
    DomainType([7u8, 0u8, 0u8, 0u8])
}

/// The purpose of the signatures of a sync committee.
#[verifier::when_used_as_spec(spec_domain_sync_committee)]
pub fn domain_sync_committee() -> (domain_type: DomainType)
    ensures
        domain_type == spec_domain_sync_committee(),
{
    DomainType([7u8, 0u8, 0u8, 0u8])
}

/// The header of a beacon block.
#[derive(Clone, Copy, Debug, Default, PartialEq, Eq)]
pub struct BeaconBlockHeader {
    pub slot: Slot,
    pub proposer_index: U64,
    pub parent_root: Root,
    pub state_root: Root,
    pub body_root: Root,
}

impl BeaconBlockHeader {
    /// The chunks of the header's fields, in the order of the fields.
    pub open spec fn chunks(self) -> Seq<u8> {
        u64_chunk(self.slot.0) + u64_chunk(self.proposer_index.0) + self.parent_root.0@
            + self.state_root.0@ + self.body_root.0@
    }

    /// The hash tree root of the header.
    pub open spec fn spec_hash_tree_root(self) -> Option<Seq<u8>> {
        ssz_merkleize(self.chunks(), None)
    }

    /// Whether every field of the header is zero.
    pub open spec fn is_empty(self) -> bool {
        &&& self.slot.0 == 0
        &&& self.proposer_index.0 == 0
        &&& all_zero(self.parent_root.0@)
        &&& all_zero(self.state_root.0@)
        &&& all_zero(self.body_root.0@)
    }

    /// Whether every field of the header is zero.
    pub fn is_default(&self) -> (empty: bool)
        ensures
            empty == self.is_empty(),
    {
        self.slot.0 == 0 && self.proposer_index.0 == 0 && is_all_zero(
            self.parent_root.0.as_slice(),
        ) && is_all_zero(self.state_root.0.as_slice()) && is_all_zero(
            self.body_root.0.as_slice(),
        )
    }

    /// The hash tree root of the header.
    pub fn hash_tree_root(&self) -> (res: Result<Root, Error>)
        ensures
            match self.spec_hash_tree_root() {
                Some(root) => res matches Ok(h) && h.0@ == root,
                None => res matches Err(Error::MerkleizationError(_)),
            },
            res is Ok,
    {
        let mut chunks: Vec<u8> = Vec::new();
        append_u64_chunk(&mut chunks, self.slot.0);
        append_u64_chunk(&mut chunks, self.proposer_index.0);
        append_root(&mut chunks, &self.parent_root);
        append_root(&mut chunks, &self.state_root);
        append_root(&mut chunks, &self.body_root);
        assert(chunks@ == self.chunks());
        proof {
            crate::ssz::lemma_le_bytes_len(self.slot.0 as nat, 8);
            crate::ssz::lemma_le_bytes_len(self.proposer_index.0 as nat, 8);
        }
        merkle_root(&chunks, None)
    }
}

/// The header of an execution payload, as laid out since the Deneb fork.
#[derive(Debug, PartialEq, Eq)]
pub struct ExecutionPayloadHeader {
    pub parent_hash: H256,
    pub fee_recipient: Address,
    pub state_root: H256,
    pub receipts_root: H256,
    pub logs_bloom: [u8; 256],
    pub prev_randao: H256,
    pub block_number: U64,
    pub gas_limit: U64,
    pub gas_used: U64,
    pub timestamp: U64,
    /// At most 32 bytes.
    pub extra_data: Vec<u8>,
    /// A 256-bit integer, in little-endian order.
    pub base_fee_per_gas: [u8; 32],
    pub block_hash: H256,
    pub transactions_root: Root,
    pub withdrawals_root: Root,
    pub blob_gas_used: U64,
    pub excess_blob_gas: U64,
}

/// What an execution payload header holds.
pub ghost struct ExecutionPayloadHeaderView {
    pub parent_hash: H256,
    pub fee_recipient: Address,
    pub state_root: H256,
    pub receipts_root: H256,
    pub logs_bloom: Seq<u8>,
    pub prev_randao: H256,
    pub block_number: u64,
    pub gas_limit: u64,
    pub gas_used: u64,
    pub timestamp: u64,
    pub extra_data: Seq<u8>,
    pub base_fee_per_gas: Seq<u8>,
    pub block_hash: H256,
    pub transactions_root: Root,
    pub withdrawals_root: Root,
    pub blob_gas_used: u64,
    pub excess_blob_gas: u64,
}

impl View for ExecutionPayloadHeader {
    type V = ExecutionPayloadHeaderView;

    open spec fn view(&self) -> ExecutionPayloadHeaderView {
        ExecutionPayloadHeaderView {
            parent_hash: self.parent_hash,
            fee_recipient: self.fee_recipient,
            state_root: self.state_root,
            receipts_root: self.receipts_root,
            logs_bloom: self.logs_bloom@,
            prev_randao: self.prev_randao,
            block_number: self.block_number.0,
            gas_limit: self.gas_limit.0,
            gas_used: self.gas_used.0,
            timestamp: self.timestamp.0,
            extra_data: self.extra_data@,
            base_fee_per_gas: self.base_fee_per_gas@,
            block_hash: self.block_hash,
            transactions_root: self.transactions_root,
            withdrawals_root: self.withdrawals_root,
            blob_gas_used: self.blob_gas_used.0,
            excess_blob_gas: self.excess_blob_gas.0,
        }
    }
}

impl ExecutionPayloadHeaderView {
    /// The chunks of the header's fields, in the order of the fields, given
    /// the roots of the two fields that are trees themselves.
    pub open spec fn chunks(self, logs_bloom_root: Seq<u8>, extra_data_root: Seq<u8>) -> Seq<u8> {
        self.parent_hash.0@ + padded_chunk(self.fee_recipient.0@) + self.state_root.0@
            + self.receipts_root.0@ + logs_bloom_root + self.prev_randao.0@ + u64_chunk(
            self.block_number,
        ) + u64_chunk(self.gas_limit) + u64_chunk(self.gas_used) + u64_chunk(self.timestamp)
            + extra_data_root + self.base_fee_per_gas + self.block_hash.0@
            + self.transactions_root.0@ + self.withdrawals_root.0@ + u64_chunk(self.blob_gas_used)
            + u64_chunk(self.excess_blob_gas)
    }

    /// The hash tree root of the header; none where a field that is a tree
    /// has no root, as extra data of more than 32 bytes has none.
    pub open spec fn hash_tree_root(self) -> Option<Seq<u8>> {
        match (ssz_merkleize(self.logs_bloom, None), byte_list_root(self.extra_data, 1)) {
            (Some(logs_bloom_root), Some(extra_data_root)) => ssz_merkleize(
                self.chunks(logs_bloom_root, extra_data_root),
                None,
            ),
            _ => None,
        }
    }
}

impl Clone for ExecutionPayloadHeader {
    fn clone(&self) -> (copy: Self)
        ensures
            copy@ == self@,
    {
        ExecutionPayloadHeader {
            parent_hash: self.parent_hash,
            fee_recipient: self.fee_recipient,
            state_root: self.state_root,
            receipts_root: self.receipts_root,
            logs_bloom: self.logs_bloom,
            prev_randao: self.prev_randao,
            block_number: self.block_number,
            gas_limit: self.gas_limit,
            gas_used: self.gas_used,
            timestamp: self.timestamp,
            extra_data: clone_vec(&self.extra_data),
            base_fee_per_gas: self.base_fee_per_gas,
            block_hash: self.block_hash,
            transactions_root: self.transactions_root,
            withdrawals_root: self.withdrawals_root,
            blob_gas_used: self.blob_gas_used,
            excess_blob_gas: self.excess_blob_gas,
        }
    }
}

impl ExecutionPayloadHeaderView {
    /// Whether every field of the header is zero and its extra data is empty.
    pub open spec fn is_empty(self) -> bool {
        &&& all_zero(self.parent_hash.0@)
        &&& all_zero(self.fee_recipient.0@)
        &&& all_zero(self.state_root.0@)
        &&& all_zero(self.receipts_root.0@)
        &&& all_zero(self.logs_bloom)
        &&& all_zero(self.prev_randao.0@)
        &&& self.block_number == 0
        &&& self.gas_limit == 0
        &&& self.gas_used == 0
        &&& self.timestamp == 0
        &&& self.extra_data.len() == 0
        &&& all_zero(self.base_fee_per_gas)
        &&& all_zero(self.block_hash.0@)
        &&& all_zero(self.transactions_root.0@)
        &&& all_zero(self.withdrawals_root.0@)
        &&& self.blob_gas_used == 0
        &&& self.excess_blob_gas == 0
    }
}

impl ExecutionPayloadHeader {
    /// Whether every field of the header is zero and its extra data is empty.
    pub fn is_default(&self) -> (empty: bool)
        ensures
            empty == self@.is_empty(),
    {
        is_all_zero(self.parent_hash.0.as_slice()) && is_all_zero(self.fee_recipient.0.as_slice())
            && is_all_zero(self.state_root.0.as_slice()) && is_all_zero(
            self.receipts_root.0.as_slice(),
        ) && is_all_zero(self.logs_bloom.as_slice()) && is_all_zero(self.prev_randao.0.as_slice())
            && self.block_number.0 == 0 && self.gas_limit.0 == 0 && self.gas_used.0 == 0
            && self.timestamp.0 == 0 && self.extra_data.len() == 0 && is_all_zero(
            self.base_fee_per_gas.as_slice(),
        ) && is_all_zero(self.block_hash.0.as_slice()) && is_all_zero(
            self.transactions_root.0.as_slice(),
        ) && is_all_zero(self.withdrawals_root.0.as_slice()) && self.blob_gas_used.0 == 0
            && self.excess_blob_gas.0 == 0
    }

    /// The hash tree root of the header.
    pub fn hash_tree_root(&self) -> (res: Result<Root, Error>)
        ensures
            match self@.hash_tree_root() {
                Some(root) => res matches Ok(h) && h.0@ == root,
                None => res matches Err(Error::MerkleizationError(_)),
            },
            res is Ok <==> self@.extra_data.len() <= MAX_EXTRA_DATA_BYTES,
    {
        let mut bloom: Vec<u8> = Vec::new();
        crate::ssz::append_bytes(&mut bloom, self.logs_bloom.as_slice());
        assert(bloom@ == self.logs_bloom@);
        let logs_bloom_root = merkle_root(&bloom, None)?;
        let extra_data_root = hash_byte_list(&self.extra_data, 1)?;
        let mut chunks: Vec<u8> = Vec::new();
        append_root(&mut chunks, &self.parent_hash);
        append_padded_chunk(&mut chunks, self.fee_recipient.0.as_slice());
        append_root(&mut chunks, &self.state_root);
        append_root(&mut chunks, &self.receipts_root);
        append_root(&mut chunks, &logs_bloom_root);
        append_root(&mut chunks, &self.prev_randao);
        append_u64_chunk(&mut chunks, self.block_number.0);
        append_u64_chunk(&mut chunks, self.gas_limit.0);
        append_u64_chunk(&mut chunks, self.gas_used.0);
        append_u64_chunk(&mut chunks, self.timestamp.0);
        append_root(&mut chunks, &extra_data_root);
        crate::ssz::append_bytes(&mut chunks, self.base_fee_per_gas.as_slice());
        append_root(&mut chunks, &self.block_hash);
        append_root(&mut chunks, &self.transactions_root);
        append_root(&mut chunks, &self.withdrawals_root);
        append_u64_chunk(&mut chunks, self.blob_gas_used.0);
        append_u64_chunk(&mut chunks, self.excess_blob_gas.0);
        assert(chunks@ == self@.chunks(logs_bloom_root.0@, extra_data_root.0@));
        proof {
            crate::ssz::lemma_le_bytes_len(self.block_number.0 as nat, 8);
            crate::ssz::lemma_le_bytes_len(self.gas_limit.0 as nat, 8);
            crate::ssz::lemma_le_bytes_len(self.gas_used.0 as nat, 8);
            crate::ssz::lemma_le_bytes_len(self.timestamp.0 as nat, 8);
            crate::ssz::lemma_le_bytes_len(self.blob_gas_used.0 as nat, 8);
            crate::ssz::lemma_le_bytes_len(self.excess_blob_gas.0 as nat, 8);
        }
        merkle_root(&chunks, None)
    }
}

/// A beacon block header with the execution payload header that its body
/// commits to, where the fork has one.
#[derive(Debug, PartialEq, Eq)]
pub struct LightClientHeader {
    pub beacon: BeaconBlockHeader,
    pub execution: Option<ExecutionPayloadHeader>,
    /// The siblings from the execution payload up to the body root.
    pub execution_branch: Vec<H256>,
}

/// What a light-client header holds.
pub ghost struct LightClientHeaderView {
    pub beacon: BeaconBlockHeader,
    pub execution: Option<ExecutionPayloadHeaderView>,
    pub execution_branch: Seq<H256>,
}

impl View for LightClientHeader {
    type V = LightClientHeaderView;

    open spec fn view(&self) -> LightClientHeaderView {
        LightClientHeaderView {
            beacon: self.beacon,
            execution: match self.execution {
                Some(execution) => Some(execution@),
                None => None,
            },
            execution_branch: self.execution_branch@,
        }
    }
}

impl LightClientHeaderView {
    /// Whether the header stands for no header: its beacon header is all
    /// zero, it has no execution payload or an all-zero one, and its
    /// execution branch holds zero hashes only.
    pub open spec fn is_empty(self) -> bool {
        &&& self.beacon.is_empty()
        &&& (self.execution matches Some(execution) ==> execution.is_empty())
        &&& zero_branch(self.execution_branch)
    }
}

impl LightClientHeader {
    /// Whether the header stands for no header.
    pub fn is_default(&self) -> (empty: bool)
        ensures
            empty == self@.is_empty(),
    {
        let execution_empty: bool = match &self.execution {
            Some(execution) => execution.is_default(),
            None => true,
        };
        self.beacon.is_default() && execution_empty && is_zero_branch(&self.execution_branch)
    }
}

impl Clone for LightClientHeader {
    fn clone(&self) -> (copy: Self)
        ensures
            copy@ == self@,
    {
        LightClientHeader {
            beacon: self.beacon,
            execution: match &self.execution {
                Some(execution) => Some(execution.clone()),
                None => None,
            },
            execution_branch: clone_vec(&self.execution_branch),
        }
    }
}

/// The root of the fork data of a fork version on a chain.
pub open spec fn fork_data_root(fork_version: Version, genesis_validators_root: Root) -> Option<
    Seq<u8>,
> {
    ssz_merkleize(padded_chunk(fork_version.0@) + genesis_validators_root.0@, None)
}

/// The domain of a purpose at a fork version of a chain: the purpose, then
/// the first 28 bytes of the root of the fork data.
pub open spec fn spec_compute_domain(
    domain_type: DomainType,
    fork_version: Version,
    genesis_validators_root: Root,
) -> Option<Seq<u8>> {
    match fork_data_root(fork_version, genesis_validators_root) {
        Some(root) => Some(domain_type.0@ + root.subrange(0, 28)),
        None => None,
    }
}

/// The root that is signed for an object in a domain: the root of the pair.
pub open spec fn spec_compute_signing_root(object_root: Seq<u8>, domain: Seq<u8>) -> Option<
    Seq<u8>,
> {
    ssz_merkleize(object_root + domain, None)
}

/// The domain of a purpose at a fork version of a chain.
pub fn compute_domain(
    domain_type: DomainType,
    fork_version: Version,
    genesis_validators_root: Root,
) -> (res: Result<Domain, Error>)
    ensures
        match spec_compute_domain(domain_type, fork_version, genesis_validators_root) {
            Some(domain) => res matches Ok(d) && d.0@ == domain,
            None => res matches Err(Error::MerkleizationError(_)),
        },
        res is Ok,
{
    let mut chunks: Vec<u8> = Vec::new();
    append_padded_chunk(&mut chunks, fork_version.0.as_slice());
    append_root(&mut chunks, &genesis_validators_root);
    assert(chunks@ == padded_chunk(fork_version.0@) + genesis_validators_root.0@);
    let root = merkle_root(&chunks, None)?;
    let mut domain: [u8; 32] = [0u8; 32];
    let mut i: usize = 0;
    while i < 4
        invariant
            i <= 4,
            forall|j: int| 0 <= j < i ==> domain@[j] == domain_type.0@[j],
        decreases 4 - i,
    {
        domain[i] = domain_type.0[i];
        i += 1;
    }
    while i < 32
        invariant
            4 <= i <= 32,
            forall|j: int| 0 <= j < 4 ==> domain@[j] == domain_type.0@[j],
            forall|j: int| 4 <= j < i ==> domain@[j] == root.0@[j - 4],
        decreases 32 - i,
    {
        domain[i] = root.0[i - 4];
        i += 1;
    }
    assert(domain@ =~= domain_type.0@ + root.0@.subrange(0, 28));
    Ok(H256(domain))
}

/// The root that is signed for an object in a domain.
pub fn compute_signing_root(object_root: Root, domain: Domain) -> (res: Result<H256, Error>)
    ensures
        match spec_compute_signing_root(object_root.0@, domain.0@) {
            Some(root) => res matches Ok(h) && h.0@ == root,
            None => res matches Err(Error::MerkleizationError(_)),
        },
        res is Ok,
{
    let mut chunks: Vec<u8> = Vec::new();
    append_root(&mut chunks, &object_root);
    append_root(&mut chunks, &domain);
    assert(chunks@ == object_root.0@ + domain.0@);
    merkle_root(&chunks, None)
}

} // verus!
