//! Sync committees, their aggregate signatures, and the objects that a full
//! node publishes for light clients.

use vstd::prelude::*;
use crate::beacon::{LightClientHeader, LightClientHeaderView};
use crate::bls::{aggregate_public_key, bls_aggregate_public_keys, key_bytes};
use crate::errors::Error;
use crate::merkle::pow2;
use crate::ssz::{append_packed_bytes, append_root, merkle_root, packed_bytes, ssz_merkleize};
use crate::types::{all_zero, clone_vec, H256, PublicKey, Root, Signature, Slot};

verus! {

/// The hash tree root of a public key: the tree over its packed bytes.
pub open spec fn public_key_root(key: PublicKey) -> Option<Seq<u8>> {
    ssz_merkleize(packed_bytes(key.0@), None)
}

/// The concatenated roots of a list of public keys; none where a key has no root.
pub open spec fn public_key_roots(keys: Seq<PublicKey>) -> Option<Seq<u8>>
    decreases keys.len(),
{
    if keys.len() == 0 {
        Some(Seq::empty())
    } else {
        match (public_key_roots(keys.drop_last()), public_key_root(keys.last())) {
            (Some(roots), Some(root)) => Some(roots + root),
            _ => None,
        }
    }
}

/// The hash tree root of a public key.
pub fn hash_public_key(key: &PublicKey) -> (res: Result<H256, Error>)
    ensures
        match public_key_root(*key) {
            Some(root) => res matches Ok(h) && h.0@ == root,
            None => res matches Err(Error::MerkleizationError(_)),
        },
        res is Ok,
{
    let mut chunks: Vec<u8> = Vec::new();
    append_packed_bytes(&mut chunks, key.0.as_slice());
    assert(chunks@ == packed_bytes(key.0@));
    merkle_root(&chunks, None)
}

/// A sync committee of `N` members.
#[derive(Clone, Copy, Debug, PartialEq, Eq)]
pub struct SyncCommittee<const N: usize> {
    pub pubkeys: [PublicKey; N],
    pub aggregate_pubkey: PublicKey,
}

impl<const N: usize> Default for SyncCommittee<N> {
    fn default() -> (committee: Self)
        ensures
            committee.is_absent(),
    {
        let zero = PublicKey([0u8; 48]);
        let pubkeys: [PublicKey; N] = [zero; N];
        assert forall|i: int| 0 <= i < N implies all_zero((#[trigger] pubkeys@[i]).0@) by {
            broadcast use vstd::array::axiom_spec_array_fill_for_copy_type;
            assert(pubkeys == vstd::array::spec_array_fill_for_copy_type::<PublicKey, N>(zero));
            assert(pubkeys@[i] == zero);
        }
        SyncCommittee { pubkeys, aggregate_pubkey: zero }
    }
}

impl<const N: usize> SyncCommittee<N> {
    /// The hash tree root of the committee: the root of the pair of the root
    /// of its keys and the root of its aggregate key.
    pub open spec fn spec_hash_tree_root(self) -> Option<Seq<u8>> {
        match (public_key_roots(self.pubkeys@), public_key_root(self.aggregate_pubkey)) {
            (Some(roots), Some(aggregate_root)) => match ssz_merkleize(roots, None) {
                Some(keys_root) => ssz_merkleize(keys_root + aggregate_root, None),
                None => None,
            },
            _ => None,
        }
    }

    /// Whether every key of the committee and its aggregate key are all zero:
    /// the value that stands for no committee where one is always sent.
    pub open spec fn is_absent(self) -> bool {
        &&& forall|i: int| 0 <= i < N ==> all_zero((#[trigger] self.pubkeys@[i]).0@)
        &&& all_zero(self.aggregate_pubkey.0@)
    }

    /// The keys of the committee as a list.
    pub fn public_keys(&self) -> (keys: Vec<PublicKey>)
        ensures
            keys@ == self.pubkeys@,
    {
        let mut keys: Vec<PublicKey> = Vec::with_capacity(N);
        let mut i: usize = 0;
        while i < N
            invariant
                i <= N,
                keys@ == self.pubkeys@.take(i as int),
            decreases N - i,
        {
            keys.push(self.pubkeys[i]);
            i += 1;
            assert(keys@ == self.pubkeys@.take(i as int));
        }
        assert(self.pubkeys@.take(N as int) == self.pubkeys@);
        keys
    }

    /// Whether the committee is the all-zero value that stands for no committee.
    pub fn is_default(&self) -> (absent: bool)
        ensures
            absent == self.is_absent(),
    {
        let mut i: usize = 0;
        while i < N
            invariant
                i <= N,
                forall|k: int| 0 <= k < i ==> all_zero((#[trigger] self.pubkeys@[k]).0@),
            decreases N - i,
        {
            if !self.pubkeys[i].is_zero() {
                return false;
            }
            i += 1;
        }
        self.aggregate_pubkey.is_zero()
    }

    /// Whether two committees have the same keys and the same aggregate key.
    pub fn equals(&self, other: &SyncCommittee<N>) -> (same: bool)
        ensures
            same == (*self == *other),
    {
        let mut i: usize = 0;
        while i < N
            invariant
                i <= N,
                forall|k: int| 0 <= k < i ==> self.pubkeys@[k] == other.pubkeys@[k],
            decreases N - i,
        {
            if !self.pubkeys[i].equals(&other.pubkeys[i]) {
                return false;
            }
            i += 1;
        }
        assert(self.pubkeys =~= other.pubkeys);
        self.aggregate_pubkey.equals(&other.aggregate_pubkey)
    }

    /// The hash tree root of the committee.
    pub fn hash_tree_root(&self) -> (res: Result<Root, Error>)
        ensures
            match self.spec_hash_tree_root() {
                Some(root) => res matches Ok(h) && h.0@ == root,
                None => res matches Err(Error::MerkleizationError(_)),
            },
            res is Ok,
    {
        let mut roots: Vec<u8> = Vec::new();
        let mut i: usize = 0;
        assert(self.pubkeys@.take(0) == Seq::<PublicKey>::empty());
        while i < N
            invariant
                i <= N,
                public_key_roots(self.pubkeys@.take(i as int)) == Some(roots@),
                roots@.len() == 32 * i,
            decreases N - i,
        {
            proof {
                assert(self.pubkeys@.take(i + 1).drop_last() == self.pubkeys@.take(i as int));
                assert(self.pubkeys@.take(i + 1).last() == self.pubkeys@[i as int]);
            }
            let root = hash_public_key(&self.pubkeys[i])?;
            append_root(&mut roots, &root);
            i += 1;
        }
        assert(self.pubkeys@.take(N as int) == self.pubkeys@);
        let aggregate_root = hash_public_key(&self.aggregate_pubkey)?;
        let keys_root = merkle_root(&roots, None)?;
        let mut pair: Vec<u8> = Vec::new();
        append_root(&mut pair, &keys_root);
        append_root(&mut pair, &aggregate_root);
        assert(pair@ == keys_root.0@ + aggregate_root.0@);
        merkle_root(&pair, None)
    }

    /// Whether the aggregate key is the aggregate of the keys according to
    /// the curve library.
    pub open spec fn aggregate_matches(self) -> bool {
        bls_aggregate_public_keys(key_bytes(self.pubkeys@)) == Some(self.aggregate_pubkey.0@)
    }

    /// Checks that the aggregate key is the aggregate of the keys.
    pub fn validate(&self) -> (res: Result<(), Error>)
        ensures
            res is Ok <==> self.aggregate_matches(),
            match bls_aggregate_public_keys(key_bytes(self.pubkeys@)) {
                Some(aggregate) => aggregate != self.aggregate_pubkey.0@ ==> (res matches Err(
                    Error::BLSAggregatePublicKeyMismatch(recorded, computed),
                ) && recorded == self.aggregate_pubkey && computed.0@ == aggregate),
                None => res matches Err(Error::BLSAmclError(_)),
            },
    {
        let keys = self.public_keys();
        let computed = aggregate_public_key(&keys)?;
        if self.aggregate_pubkey.equals(&computed) {
            Ok(())
        } else {
            Err(Error::BLSAggregatePublicKeyMismatch(self.aggregate_pubkey, computed))
        }
    }
}

/// The number of bits that are set.
pub open spec fn popcount(bits: Seq<bool>) -> nat
    decreases bits.len(),
{
    if bits.len() == 0 {
        0
    } else {
        popcount(bits.drop_last()) + if bits.last() {
            1nat
        } else {
            0nat
        }
    }
}

/// The keys whose bits are set, in the order of the committee.
pub open spec fn participants(pubkeys: Seq<PublicKey>, bits: Seq<bool>) -> Seq<PublicKey>
    decreases pubkeys.len(),
{
    if pubkeys.len() == 0 || bits.len() == 0 {
        Seq::empty()
    } else {
        let rest = participants(pubkeys.drop_last(), bits.drop_last());
        if bits.last() {
            rest.push(pubkeys.last())
        } else {
            rest
        }
    }
}

/// No more bits are set than there are bits.
pub proof fn lemma_popcount_bound(bits: Seq<bool>)
    ensures
        popcount(bits) <= bits.len(),
    decreases bits.len(),
{
    if bits.len() > 0 {
        lemma_popcount_bound(bits.drop_last());
    }
}

/// There are as many participants as bits that are set.
pub proof fn lemma_participants_len(pubkeys: Seq<PublicKey>, bits: Seq<bool>)
    requires
        pubkeys.len() == bits.len(),
    ensures
        participants(pubkeys, bits).len() == popcount(bits),
    decreases pubkeys.len(),
{
    if pubkeys.len() > 0 {
        lemma_participants_len(pubkeys.drop_last(), bits.drop_last());
    }
}

/// The participants of a committee that is split in two are those of the
/// first part followed by those of the second: the selection goes by
/// position alone, whichever way the bits are walked.
pub proof fn lemma_participants_split(
    first_keys: Seq<PublicKey>,
    first_bits: Seq<bool>,
    second_keys: Seq<PublicKey>,
    second_bits: Seq<bool>,
)
    requires
        first_keys.len() == first_bits.len(),
        second_keys.len() == second_bits.len(),
    ensures
        participants(first_keys + second_keys, first_bits + second_bits) == participants(
            first_keys,
            first_bits,
        ) + participants(second_keys, second_bits),
        popcount(first_bits + second_bits) == popcount(first_bits) + popcount(second_bits),
    decreases second_keys.len(),
{
    if second_keys.len() == 0 {
        assert(first_keys + second_keys == first_keys);
        assert(first_bits + second_bits == first_bits);
        assert(participants(first_keys, first_bits) + Seq::<PublicKey>::empty() == participants(
            first_keys,
            first_bits,
        ));
    } else {
        lemma_participants_split(
            first_keys,
            first_bits,
            second_keys.drop_last(),
            second_bits.drop_last(),
        );
        assert((first_keys + second_keys).drop_last() == first_keys + second_keys.drop_last());
        assert((first_bits + second_bits).drop_last() == first_bits + second_bits.drop_last());
        assert((first_keys + second_keys).last() == second_keys.last());
        assert((first_bits + second_bits).last() == second_bits.last());
        let head = participants(first_keys, first_bits);
        let tail = participants(second_keys.drop_last(), second_bits.drop_last());
        if second_bits.last() {
            assert((head + tail).push(second_keys.last()) == head + tail.push(second_keys.last()));
        }
    }
}

/// The participants can be read from the first member on as well as from the
/// last member back.
pub proof fn lemma_participants_from_front(pubkeys: Seq<PublicKey>, bits: Seq<bool>)
    requires
        pubkeys.len() == bits.len(),
        pubkeys.len() > 0,
    ensures
        participants(pubkeys, bits) == participants(seq![pubkeys[0]], seq![bits[0]]) + participants(
            pubkeys.drop_first(),
            bits.drop_first(),
        ),
        participants(seq![pubkeys[0]], seq![bits[0]]) == if bits[0] {
            seq![pubkeys[0]]
        } else {
            Seq::<PublicKey>::empty()
        },
{
    lemma_participants_split(
        seq![pubkeys[0]],
        seq![bits[0]],
        pubkeys.drop_first(),
        bits.drop_first(),
    );
    assert(seq![pubkeys[0]] + pubkeys.drop_first() == pubkeys);
    assert(seq![bits[0]] + bits.drop_first() == bits);
    let keys = seq![pubkeys[0]];
    let flags = seq![bits[0]];
    assert(keys.drop_last() == Seq::<PublicKey>::empty());
    assert(flags.drop_last() == Seq::<bool>::empty());
    assert(keys.last() == pubkeys[0]);
    assert(flags.last() == bits[0]);
    assert(participants(keys.drop_last(), flags.drop_last()) == Seq::<PublicKey>::empty());
    assert(Seq::<PublicKey>::empty().push(pubkeys[0]) == seq![pubkeys[0]]);
}

/// Bit `j` of a byte, counted from the least significant one.
pub open spec fn bit_of(byte: u8, j: nat) -> bool {
    (byte as nat / pow2(j)) % 2 == 1
}

/// The bits that a byte string encodes, the least significant bit of each
/// byte first.
pub open spec fn bits_of(bytes: Seq<u8>) -> Seq<bool> {
    Seq::new(8 * bytes.len(), |i: int| bit_of(bytes[i / 8], (i % 8) as nat))
}

/// Whether `bytes` encode a vector of `n` bits: they are as many as the bits
/// need, and no bit beyond the vector is set.
pub open spec fn encodes_bits(bytes: Seq<u8>, n: nat) -> bool {
    &&& bytes.len() == (n + 7) / 8
    &&& forall|i: int| n <= i < 8 * bytes.len() ==> !(#[trigger] bits_of(bytes)[i])
}

/// The bits of a byte, the least significant one first.
fn byte_bits(byte: u8) -> (bits: [bool; 8])
    ensures
        forall|j: int| 0 <= j < 8 ==> bits@[j] == bit_of(byte, j as nat),
{
    let mut bits: [bool; 8] = [false; 8];
    let mut rest: u8 = byte;
    let mut j: usize = 0;
    assert(pow2(0) == 1);
    while j < 8
        invariant
            j <= 8,
            rest as nat == byte as nat / pow2(j as nat),
            forall|k: int| 0 <= k < j ==> bits@[k] == bit_of(byte, k as nat),
        decreases 8 - j,
    {
        bits[j] = rest % 2 == 1;
        proof {
            let p = pow2(j as nat);
            crate::merkle::lemma_pow2_positive(j as nat);
            assert(pow2((j + 1) as nat) == 2 * p);
            vstd::arithmetic::div_mod::lemma_div_denominator(byte as int, p as int, 2);
            assert(p * 2 == 2 * p);
        }
        rest = rest / 2;
        j += 1;
    }
    bits
}

/// The byte whose bits are given, the least significant one first.
fn bits_byte(bits: &[bool; 8]) -> (byte: u8)
    ensures
        forall|j: int| 0 <= j < 8 ==> bits@[j] == bit_of(byte, j as nat),
{
    let mut byte: u8 = 0;
    let mut j: usize = 8;
    assert(pow2(0) == 1);
    assert(pow2(8) == 256) by {
        reveal_with_fuel(pow2, 9);
    }
    while j > 0
        invariant
            j <= 8,
            byte < pow2((8 - j) as nat),
            pow2((8 - j) as nat) * pow2(j as nat) == 256,
            forall|k: int| j <= k < 8 ==> bits@[k] == bit_of(byte, (k - j) as nat),
        decreases j,
    {
        let ghost before = byte;
        let ghost high = pow2((8 - j) as nat);
        let ghost low = pow2((j - 1) as nat);
        proof {
            crate::merkle::lemma_pow2_positive((j - 1) as nat);
            assert(pow2(j as nat) == 2 * low);
            assert(pow2((8 - (j - 1)) as nat) == 2 * high);
            assert((2 * high) * low == 256) by (nonlinear_arith)
                requires
                    high * (2 * low) == 256,
            ;
            assert(high <= 128) by (nonlinear_arith)
                requires
                    high * (2 * low) == 256,
                    low >= 1,
            ;
        }
        j -= 1;
        byte = 2 * byte + if bits[j] {
            1
        } else {
            0
        };
        proof {
            assert(pow2(0) == 1);
            assert(byte as nat / 1 == byte);
            assert(bit_of(byte, 0) == bits@[j as int]);
            assert forall|k: int| j < k < 8 implies bits@[k] == bit_of(byte, (k - j) as nat) by {
                let e = (k - j - 1) as nat;
                crate::merkle::lemma_pow2_positive(e);
                assert(pow2((k - j) as nat) == 2 * pow2(e));
                vstd::arithmetic::div_mod::lemma_div_denominator(byte as int, 2, pow2(e) as int);
                assert(byte as int / 2 == before);
                assert(bits@[k] == bit_of(before, e));
            }
        }
    }
    byte
}

impl<const N: usize> Bitvector<N> {
    /// The bytes that encode the vector: eight bits to a byte, the least
    /// significant bit first, and zeros for the bits that the last byte has
    /// beyond the vector.
    pub fn to_bytes(&self) -> (bytes: Vec<u8>)
        ensures
            encodes_bits(bytes@, N as nat),
            forall|i: int| 0 <= i < N ==> bits_of(bytes@)[i] == self.0@[i],
    {
        let count: usize = N / 8 + if N % 8 == 0 {
            0
        } else {
            1
        };
        let mut bytes: Vec<u8> = Vec::with_capacity(count);
        let mut b: usize = 0;
        while b < count
            invariant
                b <= count,
                count == (N + 7) / 8,
                bytes@.len() == b,
                forall|i: int|
                    0 <= i < 8 * b ==> (#[trigger] bits_of(bytes@)[i]) == (i < N && self.0@[i]),
            decreases count - b,
        {
            let mut group: [bool; 8] = [false; 8];
            let mut j: usize = 0;
            while j < 8
                invariant
                    j <= 8,
                    b < count,
                    count == (N + 7) / 8,
                    forall|k: int|
                        0 <= k < j ==> group@[k] == (8 * b + k < N && self.0@[8 * b + k]),
                    forall|k: int| j <= k < 8 ==> !group@[k],
                decreases 8 - j,
            {
                if 8 * b + j < N {
                    group[j] = self.0[8 * b + j];
                }
                j += 1;
            }
            let byte = bits_byte(&group);
            let ghost before = bytes@;
            bytes.push(byte);
            proof {
                assert forall|i: int| 0 <= i < 8 * (b + 1) implies (#[trigger] bits_of(bytes@)[i])
                    == (i < N && self.0@[i]) by {
                    if i < 8 * b {
                        assert(bytes@[i / 8] == before[i / 8]);
                        assert(bits_of(before)[i] == (i < N && self.0@[i]));
                    } else {
                        assert(i / 8 == b);
                        assert(group@[i % 8] == bit_of(byte, (i % 8) as nat));
                    }
                }
            }
            b += 1;
        }
        bytes
    }

    /// Reads a vector from the bytes that encode it. Bytes of another number
    /// than the bits need are refused, and so is a set bit beyond the vector.
    pub fn from_bytes(bytes: &[u8]) -> (res: Result<Self, Error>)
        ensures
            res is Ok <==> encodes_bits(bytes@, N as nat),
            res matches Ok(vector) ==> forall|i: int|
                0 <= i < N ==> vector.0@[i] == bits_of(bytes@)[i],
            bytes@.len() != (N + 7) / 8 ==> (res matches Err(
                Error::InvalidBitvectorLength(expected, actual),
            ) && expected == (N + 7) / 8 && actual == bytes@.len()),
            bytes@.len() == (N + 7) / 8 && !encodes_bits(bytes@, N as nat) ==> (res matches Err(
                Error::InvalidBitvectorPadding(last),
            ) && last == bytes@.last()),
    {
        let count: usize = N / 8 + if N % 8 == 0 {
            0
        } else {
            1
        };
        if bytes.len() != count {
            return Err(Error::InvalidBitvectorLength(count, bytes.len()));
        }
        let mut bits: [bool; N] = [false; N];
        let mut padded: bool = false;
        let mut b: usize = 0;
        while b < count
            invariant
                b <= count,
                count == (N + 7) / 8,
                bytes@.len() == count,
                forall|i: int| 0 <= i < 8 * b && i < N ==> bits@[i] == bits_of(bytes@)[i],
                padded <==> exists|i: int| N <= i < 8 * b && #[trigger] bits_of(bytes@)[i],
            decreases count - b,
        {
            let group = byte_bits(bytes[b]);
            let ghost done = bits@;
            let ghost seen = padded;
            let mut j: usize = 0;
            while j < 8
                invariant
                    j <= 8,
                    b < count,
                    count == (N + 7) / 8,
                    bytes@.len() == count,
                    forall|k: int| 0 <= k < 8 ==> group@[k] == bit_of(bytes@[b as int], k as nat),
                    forall|i: int| 0 <= i < 8 * b && i < N ==> bits@[i] == done[i],
                    forall|i: int|
                        8 * b <= i < 8 * b + j && i < N ==> bits@[i] == bits_of(bytes@)[i],
                    padded <==> seen || exists|i: int|
                        N <= i && 8 * b <= i < 8 * b + j && #[trigger] bits_of(bytes@)[i],
                decreases 8 - j,
            {
                proof {
                    let i = 8 * b + j;
                    assert(i / 8 == b && i % 8 == j);
                    assert(bits_of(bytes@)[i as int] == group@[j as int]);
                }
                if 8 * b + j < N {
                    bits[8 * b + j] = group[j];
                } else if group[j] {
                    padded = true;
                }
                j += 1;
            }
            b += 1;
        }
        if padded {
            proof {
                assert(count > 0);
            }
            return Err(Error::InvalidBitvectorPadding(bytes[count - 1]));
        }
        Ok(Bitvector(bits))
    }
}

/// A vector of `N` bits.
#[derive(Clone, Copy, Debug, PartialEq, Eq)]
pub struct Bitvector<const N: usize>(pub [bool; N]);

impl<const N: usize> Default for Bitvector<N> {
    fn default() -> (bits: Self)
        ensures
            forall|i: int| 0 <= i < N ==> !bits.0@[i],
    {
        Bitvector([false; N])
    }
}

impl<const N: usize> Bitvector<N> {
    /// The number of bits that are set.
    pub fn count_ones(&self) -> (count: usize)
        ensures
            count == popcount(self.0@),
            count <= N,
    {
        let mut count: usize = 0;
        let mut i: usize = 0;
        assert(self.0@.take(0) == Seq::<bool>::empty());
        while i < N
            invariant
                i <= N,
                count == popcount(self.0@.take(i as int)),
                count <= i,
            decreases N - i,
        {
            proof {
                assert(self.0@.take(i + 1).drop_last() == self.0@.take(i as int));
                assert(self.0@.take(i + 1).last() == self.0@[i as int]);
            }
            if self.0[i] {
                count += 1;
            }
            i += 1;
        }
        assert(self.0@.take(N as int) == self.0@);
        count
    }
}

/// The aggregate signature of a sync committee and the members that took part.
#[derive(Clone, Copy, Debug, PartialEq, Eq)]
pub struct SyncAggregate<const N: usize> {
    pub sync_committee_bits: Bitvector<N>,
    pub sync_committee_signature: Signature,
}

impl<const N: usize> SyncAggregate<N> {
    /// The number of members that took part.
    pub open spec fn spec_count_participants(self) -> nat {
        popcount(self.sync_committee_bits.0@)
    }

    /// The number of members that took part.
    pub fn count_participants(&self) -> (count: usize)
        ensures
            count == self.spec_count_participants(),
            count <= N,
    {
        self.sync_committee_bits.count_ones()
    }

    /// The keys of the members of `committee` that took part, in the order of the committee.
    pub fn participant_keys(&self, committee: &SyncCommittee<N>) -> (keys: Vec<PublicKey>)
        ensures
            keys@ == participants(committee.pubkeys@, self.sync_committee_bits.0@),
    {
        let mut keys: Vec<PublicKey> = Vec::new();
        let mut i: usize = 0;
        assert(committee.pubkeys@.take(0) == Seq::<PublicKey>::empty());
        while i < N
            invariant
                i <= N,
                keys@ == participants(
                    committee.pubkeys@.take(i as int),
                    self.sync_committee_bits.0@.take(i as int),
                ),
            decreases N - i,
        {
            proof {
                assert(committee.pubkeys@.take(i + 1).drop_last() == committee.pubkeys@.take(
                    i as int,
                ));
                assert(self.sync_committee_bits.0@.take(i + 1).drop_last()
                    == self.sync_committee_bits.0@.take(i as int));
                assert(committee.pubkeys@.take(i + 1).last() == committee.pubkeys@[i as int]);
                assert(self.sync_committee_bits.0@.take(i + 1).last()
                    == self.sync_committee_bits.0@[i as int]);
            }
            if self.sync_committee_bits.0[i] {
                keys.push(committee.pubkeys[i]);
            }
            i += 1;
        }
        assert(committee.pubkeys@.take(N as int) == committee.pubkeys@);
        assert(self.sync_committee_bits.0@.take(N as int) == self.sync_committee_bits.0@);
        keys
    }
}

/// What a full node publishes to start a light client at a trusted block.
#[derive(Debug, PartialEq, Eq)]
pub struct LightClientBootstrap<const N: usize> {
    pub header: LightClientHeader,
    pub current_sync_committee: SyncCommittee<N>,
    /// The siblings from the committee up to the state root of the header.
    pub current_sync_committee_branch: Vec<H256>,
}

/// What a bootstrap holds.
pub ghost struct LightClientBootstrapView<const N: usize> {
    pub header: LightClientHeaderView,
    pub current_sync_committee: SyncCommittee<N>,
    pub current_sync_committee_branch: Seq<H256>,
}

impl<const N: usize> View for LightClientBootstrap<N> {
    type V = LightClientBootstrapView<N>;

    open spec fn view(&self) -> LightClientBootstrapView<N> {
        LightClientBootstrapView {
            header: self.header@,
            current_sync_committee: self.current_sync_committee,
            current_sync_committee_branch: self.current_sync_committee_branch@,
        }
    }
}

/// A committee with the siblings from it up to a state root.
pub type ProvenCommittee<const N: usize> = (SyncCommittee<N>, Vec<H256>);

/// A header with the siblings from its beacon root up to a state root.
pub type ProvenHeader = (LightClientHeader, Vec<H256>);

/// What a full node publishes to advance a light client.
#[derive(Debug, PartialEq, Eq)]
pub struct LightClientUpdate<const N: usize> {
    /// The header that the sync committee signed.
    pub attested_header: LightClientHeader,
    /// The committee of the period after that of the attested header, with
    /// its branch to the attested state root, where the update carries one.
    pub next_sync_committee: Option<ProvenCommittee<N>>,
    /// The header that the attested state has finalized, with its branch to
    /// the attested state root, where the update carries one.
    pub finalized_header: Option<ProvenHeader>,
    pub sync_aggregate: SyncAggregate<N>,
    /// The slot at which the aggregate signature was made.
    pub signature_slot: Slot,
}

/// What an update holds.
pub ghost struct LightClientUpdateView<const N: usize> {
    pub attested_header: LightClientHeaderView,
    pub next_sync_committee: Option<(SyncCommittee<N>, Seq<H256>)>,
    pub finalized_header: Option<(LightClientHeaderView, Seq<H256>)>,
    pub sync_aggregate: SyncAggregate<N>,
    pub signature_slot: u64,
}

impl<const N: usize> View for LightClientUpdate<N> {
    type V = LightClientUpdateView<N>;

    open spec fn view(&self) -> LightClientUpdateView<N> {
        LightClientUpdateView {
            attested_header: self.attested_header@,
            next_sync_committee: match self.next_sync_committee {
                Some((committee, branch)) => Some((committee, branch@)),
                None => None,
            },
            finalized_header: match self.finalized_header {
                Some((header, branch)) => Some((header@, branch@)),
                None => None,
            },
            sync_aggregate: self.sync_aggregate,
            signature_slot: self.signature_slot.0,
        }
    }
}

impl<const N: usize> Clone for LightClientUpdate<N> {
    fn clone(&self) -> (copy: Self)
        ensures
            copy@ == self@,
    {
        LightClientUpdate {
            attested_header: self.attested_header.clone(),
            next_sync_committee: match &self.next_sync_committee {
                Some((committee, branch)) => Some((*committee, clone_vec(branch))),
                None => None,
            },
            finalized_header: match &self.finalized_header {
                Some((header, branch)) => Some((header.clone(), clone_vec(branch))),
                None => None,
            },
            sync_aggregate: self.sync_aggregate,
            signature_slot: self.signature_slot,
        }
    }
}

impl<const N: usize> Clone for LightClientBootstrap<N> {
    fn clone(&self) -> (copy: Self)
        ensures
            copy@ == self@,
    {
        LightClientBootstrap {
            header: self.header.clone(),
            current_sync_committee: self.current_sync_committee,
            current_sync_committee_branch: clone_vec(&self.current_sync_committee_branch),
        }
    }
}

} // verus!
