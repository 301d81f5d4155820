//! Primitive values: fixed-width hashes, fork versions and key material.

use vstd::prelude::*;
use crate::errors::Error;

verus! {

/// A slot number.
pub type Slot = U64;

/// An epoch number.
pub type Epoch = U64;

/// A 32-byte hash tree root.
pub type Root = H256;

/// An unsigned 64-bit scalar.
#[derive(Clone, Copy, Debug, PartialEq, Eq, PartialOrd, Ord, Hash, Default, Structural)]
pub struct U64(pub u64);

/// A 32-byte opaque hash.
#[derive(Clone, Copy, Debug, PartialEq, Eq, Hash, Default)]
pub struct H256(pub [u8; 32]);

/// A 4-byte fork identifier.
#[derive(Clone, Copy, Debug, PartialEq, Eq, Hash, Default)]
pub struct Version(pub [u8; 4]);

/// The number of bytes of a compressed public key.
pub const PUBLIC_KEY_BYTES: usize = 48;

/// The number of bytes of a compressed signature.
pub const SIGNATURE_BYTES: usize = 96;

/// The number of bytes of an execution-layer address.
pub const ADDRESS_BYTES: usize = 20;

/// A BLS public key: a compressed point of the group G1.
#[derive(Clone, Copy, Debug, PartialEq, Eq, Hash)]
pub struct PublicKey(pub [u8; 48]);

/// A BLS signature: a compressed point of the group G2.
#[derive(Clone, Copy, Debug, PartialEq, Eq, Hash)]
pub struct Signature(pub [u8; 96]);

/// An execution-layer address.
#[derive(Clone, Copy, Debug, PartialEq, Eq, Hash, Default)]
pub struct Address(pub [u8; 20]);

impl From<u64> for U64 {
    fn from(value: u64) -> (res: U64) {
        U64(value)
    }
}

impl vstd::std_specs::convert::FromSpecImpl<u64> for U64 {
    open spec fn obeys_from_spec() -> bool {
        true
    }

    open spec fn from_spec(value: u64) -> U64 {
        U64(value)
    }
}

impl H256 {
    /// The hash whose bytes are all zero.
    pub fn zero() -> (h: H256)
        ensures
            all_zero(h.0@),
    {
        H256([0u8; 32])
    }

    /// Whether every byte is zero.
    pub fn is_zero(&self) -> (b: bool)
        ensures
            b == all_zero(self.0@),
    {
        is_all_zero(self.0.as_slice())
    }

    /// Byte-wise equality.
    pub fn equals(&self, other: &H256) -> (b: bool)
        ensures
            b == (self.0@ == other.0@),
            b == (*self == *other),
    {
        let mut i: usize = 0;
        while i < 32
            invariant
                i <= 32,
                forall|j: int| 0 <= j < i ==> self.0@[j] == other.0@[j],
            decreases 32 - i,
        {
            if self.0[i] != other.0[i] {
                return false;
            }
            i += 1;
        }
        assert(self.0@ =~= other.0@);
        assert(self.0 == other.0);
        true
    }
}

/// A copy of a vector of plain values.
pub fn clone_vec<T: Copy>(values: &Vec<T>) -> (copy: Vec<T>)
    ensures
        copy@ == values@,
{
    let mut copy: Vec<T> = Vec::with_capacity(values.len());
    let mut i: usize = 0;
    while i < values.len()
        invariant
            i <= values.len(),
            copy@ == values@.subrange(0, i as int),
        decreases values.len() - i,
    {
        copy.push(values[i]);
        i += 1;
    }
    assert(copy@ == values@);
    copy
}

/// Whether every byte of a sequence is zero.
pub open spec fn all_zero(bytes: Seq<u8>) -> bool {
    forall|i: int| 0 <= i < bytes.len() ==> bytes[i] == 0u8
}

/// Whether every byte of a slice is zero.
pub fn is_all_zero(bytes: &[u8]) -> (zero: bool)
    ensures
        zero == all_zero(bytes@),
{
    let mut i: usize = 0;
    while i < bytes.len()
        invariant
            i <= bytes.len(),
            forall|j: int| 0 <= j < i ==> bytes@[j] == 0u8,
        decreases bytes.len() - i,
    {
        if bytes[i] != 0 {
            return false;
        }
        i += 1;
    }
    true
}

/// Whether every hash of a branch is the zero hash; an empty branch is one.
pub open spec fn zero_branch(branch: Seq<H256>) -> bool {
    forall|i: int| 0 <= i < branch.len() ==> all_zero((#[trigger] branch[i]).0@)
}

/// Whether every hash of a branch is the zero hash.
pub fn is_zero_branch(branch: &Vec<H256>) -> (zero: bool)
    ensures
        zero == zero_branch(branch@),
{
    let mut i: usize = 0;
    while i < branch.len()
        invariant
            i <= branch.len(),
            forall|j: int| 0 <= j < i ==> all_zero((#[trigger] branch@[j]).0@),
        decreases branch.len() - i,
    {
        if !is_all_zero(branch[i].0.as_slice()) {
            return false;
        }
        i += 1;
    }
    true
}

/// The bytes of a slice, as an array, where the slice has the array's length.
fn copy_slice<const N: usize>(bytes: &[u8]) -> (out: [u8; N])
    requires
        bytes@.len() == N,
    ensures
        out@ == bytes@,
{
    let mut out: [u8; N] = [0u8; N];
    let mut i: usize = 0;
    while i < N
        invariant
            i <= N,
            bytes@.len() == N,
            forall|j: int| 0 <= j < i ==> out@[j] == bytes@[j],
        decreases N - i,
    {
        out[i] = bytes[i];
        i += 1;
    }
    assert(out@ =~= bytes@);
    out
}

impl Default for PublicKey {
    fn default() -> (key: PublicKey)
        ensures
            all_zero(key.0@),
    {
        PublicKey([0u8; 48])
    }
}

impl Default for Signature {
    fn default() -> (signature: Signature)
        ensures
            all_zero(signature.0@),
    {
        Signature([0u8; 96])
    }
}

impl PublicKey {
    /// Reads a public key from its 48 bytes; any other length is refused.
    pub fn try_from_slice(bytes: &[u8]) -> (res: Result<PublicKey, Error>)
        ensures
            bytes@.len() == 48 ==> (res matches Ok(key) && key.0@ == bytes@),
            bytes@.len() != 48 ==> (res matches Err(
                Error::InvalidBLSPublicKeyLength(expected, actual),
            )
                && expected == 48 && actual == bytes@.len()),
    {
        if bytes.len() != PUBLIC_KEY_BYTES {
            return Err(Error::InvalidBLSPublicKeyLength(PUBLIC_KEY_BYTES, bytes.len()));
        }
        Ok(PublicKey(copy_slice::<48>(bytes)))
    }

    /// Whether every byte is zero.
    pub fn is_zero(&self) -> (b: bool)
        ensures
            b == all_zero(self.0@),
    {
        is_all_zero(self.0.as_slice())
    }

    /// Byte-wise equality.
    pub fn equals(&self, other: &PublicKey) -> (b: bool)
        ensures
            b == (self.0@ == other.0@),
            b == (*self == *other),
    {
        let mut i: usize = 0;
        while i < 48
            invariant
                i <= 48,
                forall|j: int| 0 <= j < i ==> self.0@[j] == other.0@[j],
            decreases 48 - i,
        {
            if self.0[i] != other.0[i] {
                return false;
            }
            i += 1;
        }
        assert(self.0@ =~= other.0@);
        assert(self.0 == other.0);
        true
    }
}

impl Signature {
    /// Reads a signature from its 96 bytes; any other length is refused.
    pub fn try_from_slice(bytes: &[u8]) -> (res: Result<Signature, Error>)
        ensures
            bytes@.len() == 96 ==> (res matches Ok(signature) && signature.0@ == bytes@),
            bytes@.len() != 96 ==> (res matches Err(
                Error::InvalidBLSSignatureLength(expected, actual),
            )
                && expected == 96 && actual == bytes@.len()),
    {
        if bytes.len() != SIGNATURE_BYTES {
            return Err(Error::InvalidBLSSignatureLength(SIGNATURE_BYTES, bytes.len()));
        }
        Ok(Signature(copy_slice::<96>(bytes)))
    }
}

impl Address {
    /// Reads an address from its 20 bytes; any other length is refused.
    pub fn try_from_slice(bytes: &[u8]) -> (res: Result<Address, Error>)
        ensures
            bytes@.len() == 20 ==> (res matches Ok(address) && address.0@ == bytes@),
            bytes@.len() != 20 ==> (res matches Err(Error::InvalidAddressLength(expected, actual))
                && expected == 20 && actual == bytes@.len()),
    {
        if bytes.len() != ADDRESS_BYTES {
            return Err(Error::InvalidAddressLength(ADDRESS_BYTES, bytes.len()));
        }
        Ok(Address(copy_slice::<20>(bytes)))
    }
}

} // verus!
