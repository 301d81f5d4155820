//! The typed rejections of the verifier.

use vstd::prelude::*;
use vstd::std_specs::convert::FromSpecImpl;
use crate::fork::ForkParameters;
use crate::types::{H256, PublicKey, Root, Version, U64};
use snowbridge_milagro_bls::AmclError;
use ssz_rs::MerkleizationError;

verus! {

/// Why the verifier refused its input.
#[derive(Debug)]
pub enum Error {
    /// The curve library refused a key, a signature or an aggregation.
    BLSAmclError(AmclError),
    /// A hash tree root could not be computed.
    MerkleizationError(MerkleizationError),
    /// A signature does not have the length of a compressed signature: expected, actual.
    InvalidBLSSignatureLength(usize, usize),
    /// A public key does not have the length of a compressed key: expected, actual.
    InvalidBLSPublicKeyLength(usize, usize),
    /// A committee's aggregate key is not the aggregate of its keys: recorded, computed.
    BLSAggregatePublicKeyMismatch(PublicKey, PublicKey),
    /// The aggregate signature is not one of the participants over the signing root.
    InvalidBLSSignature,
    /// An address does not have the length of an address: expected, actual.
    InvalidAddressLength(usize, usize),
    /// The bytes of a bit vector are not as many as its bits need: expected, actual.
    InvalidBitvectorLength(usize, usize),
    /// A bit beyond the length of a bit vector is set in its last byte.
    InvalidBitvectorPadding(u8),
    /// The fork table's activation epochs decrease somewhere.
    InvalidForkParametersOrder(ForkParameters),
    /// A fork is claimed that the fork table does not know: epoch, claimed
    /// version, position in the table.
    UnknownFork(U64, U64, usize),
    /// A header carries an execution payload at a fork that has none; the
    /// version of that fork.
    NotSupportedExecutionPayload(Version),
    /// The chain has no fork that supports the light-client protocol.
    NotSupportedLightClient,
    /// A fraction has a zero denominator or exceeds one: numerator, denominator.
    InvalidFraction(u64, u64),
    /// Too few members of the committee took part: participants, committee size.
    InsufficientParticipation(usize, usize),
    /// The slots of an update are out of order, or its signature is from the future.
    NonMonotonicSlot {
        current_slot: U64,
        signature_slot: U64,
        attested_slot: U64,
        finalized_slot: Option<U64>,
    },
    /// The signature was made in a period for which the store knows no
    /// committee: period of the store, period of the signature.
    SignatureSlotNotInStoreWindow(U64, U64),
    /// The update's next committee differs from the one that the store knows.
    NextSyncCommitteeMismatch,
    /// A served update carries no next committee, but a branch for one that
    /// does not hold zero hashes only.
    UnexpectedNextSyncCommitteeBranch,
    /// The branch of the finalized header does not lead to the attested state root.
    InvalidFinalityBranch(MerkleError),
    /// The branch of the next committee does not lead to the attested state root.
    InvalidNextSyncCommitteeBranch(MerkleError),
    /// The branch of the current committee does not lead to the state root of the header.
    InvalidCurrentSyncCommitteeBranch(MerkleError),
    /// The branch of an execution payload does not lead to the body root of its header.
    InvalidExecutionBranch(MerkleError),
}

/// The kinds of rejection.
#[derive(Clone, Copy, Debug, PartialEq, Eq, Structural)]
pub enum ErrorKind {
    BLSAmclError,
    MerkleizationError,
    InvalidBLSSignatureLength,
    InvalidBLSPublicKeyLength,
    BLSAggregatePublicKeyMismatch,
    InvalidBLSSignature,
    InvalidAddressLength,
    InvalidBitvectorLength,
    InvalidBitvectorPadding,
    InvalidForkParametersOrder,
    UnknownFork,
    NotSupportedExecutionPayload,
    NotSupportedLightClient,
    InvalidFraction,
    InsufficientParticipation,
    NonMonotonicSlot,
    SignatureSlotNotInStoreWindow,
    NextSyncCommitteeMismatch,
    UnexpectedNextSyncCommitteeBranch,
    InvalidFinalityBranch,
    InvalidNextSyncCommitteeBranch,
    InvalidCurrentSyncCommitteeBranch,
    InvalidExecutionBranch,
}

impl Error {
    /// The kind of this rejection.
    pub open spec fn spec_kind(&self) -> ErrorKind {
        match self {
            Error::BLSAmclError(_) => ErrorKind::BLSAmclError,
            Error::MerkleizationError(_) => ErrorKind::MerkleizationError,
            Error::InvalidBLSSignatureLength(_, _) => ErrorKind::InvalidBLSSignatureLength,
            Error::InvalidBLSPublicKeyLength(_, _) => ErrorKind::InvalidBLSPublicKeyLength,
            Error::BLSAggregatePublicKeyMismatch(_, _) => ErrorKind::BLSAggregatePublicKeyMismatch,
            Error::InvalidBLSSignature => ErrorKind::InvalidBLSSignature,
            Error::InvalidAddressLength(_, _) => ErrorKind::InvalidAddressLength,
            Error::InvalidBitvectorLength(_, _) => ErrorKind::InvalidBitvectorLength,
            Error::InvalidBitvectorPadding(_) => ErrorKind::InvalidBitvectorPadding,
            Error::InvalidForkParametersOrder(_) => ErrorKind::InvalidForkParametersOrder,
            Error::UnknownFork(_, _, _) => ErrorKind::UnknownFork,
            Error::NotSupportedExecutionPayload(_) => ErrorKind::NotSupportedExecutionPayload,
            Error::NotSupportedLightClient => ErrorKind::NotSupportedLightClient,
            Error::InvalidFraction(_, _) => ErrorKind::InvalidFraction,
            Error::InsufficientParticipation(_, _) => ErrorKind::InsufficientParticipation,
            Error::NonMonotonicSlot { .. } => ErrorKind::NonMonotonicSlot,
            Error::SignatureSlotNotInStoreWindow(_, _) => ErrorKind::SignatureSlotNotInStoreWindow,
            Error::NextSyncCommitteeMismatch => ErrorKind::NextSyncCommitteeMismatch,
            Error::UnexpectedNextSyncCommitteeBranch =>
                ErrorKind::UnexpectedNextSyncCommitteeBranch,
            Error::InvalidFinalityBranch(_) => ErrorKind::InvalidFinalityBranch,
            Error::InvalidNextSyncCommitteeBranch(_) => ErrorKind::InvalidNextSyncCommitteeBranch,
            Error::InvalidCurrentSyncCommitteeBranch(_) =>
                ErrorKind::InvalidCurrentSyncCommitteeBranch,
            Error::InvalidExecutionBranch(_) => ErrorKind::InvalidExecutionBranch,
        }
    }

    /// The kind of this rejection.
    #[verifier::when_used_as_spec(spec_kind)]
    pub fn kind(&self) -> (kind: ErrorKind)
        ensures
            kind == self.spec_kind(),
    {
        match self {
            Error::BLSAmclError(_) => ErrorKind::BLSAmclError,
            Error::MerkleizationError(_) => ErrorKind::MerkleizationError,
            Error::InvalidBLSSignatureLength(_, _) => ErrorKind::InvalidBLSSignatureLength,
            Error::InvalidBLSPublicKeyLength(_, _) => ErrorKind::InvalidBLSPublicKeyLength,
            Error::BLSAggregatePublicKeyMismatch(_, _) => ErrorKind::BLSAggregatePublicKeyMismatch,
            Error::InvalidBLSSignature => ErrorKind::InvalidBLSSignature,
            Error::InvalidAddressLength(_, _) => ErrorKind::InvalidAddressLength,
            Error::InvalidBitvectorLength(_, _) => ErrorKind::InvalidBitvectorLength,
            Error::InvalidBitvectorPadding(_) => ErrorKind::InvalidBitvectorPadding,
            Error::InvalidForkParametersOrder(_) => ErrorKind::InvalidForkParametersOrder,
            Error::UnknownFork(_, _, _) => ErrorKind::UnknownFork,
            Error::NotSupportedExecutionPayload(_) => ErrorKind::NotSupportedExecutionPayload,
            Error::NotSupportedLightClient => ErrorKind::NotSupportedLightClient,
            Error::InvalidFraction(_, _) => ErrorKind::InvalidFraction,
            Error::InsufficientParticipation(_, _) => ErrorKind::InsufficientParticipation,
            Error::NonMonotonicSlot { .. } => ErrorKind::NonMonotonicSlot,
            Error::SignatureSlotNotInStoreWindow(_, _) => ErrorKind::SignatureSlotNotInStoreWindow,
            Error::NextSyncCommitteeMismatch => ErrorKind::NextSyncCommitteeMismatch,
            Error::UnexpectedNextSyncCommitteeBranch =>
                ErrorKind::UnexpectedNextSyncCommitteeBranch,
            Error::InvalidFinalityBranch(_) => ErrorKind::InvalidFinalityBranch,
            Error::InvalidNextSyncCommitteeBranch(_) => ErrorKind::InvalidNextSyncCommitteeBranch,
            Error::InvalidCurrentSyncCommitteeBranch(_) =>
                ErrorKind::InvalidCurrentSyncCommitteeBranch,
            Error::InvalidExecutionBranch(_) => ErrorKind::InvalidExecutionBranch,
        }
    }
}

impl From<AmclError> for Error {
    fn from(value: AmclError) -> (res: Error) {
        Error::BLSAmclError(value)
    }
}

impl FromSpecImpl<AmclError> for Error {
    open spec fn obeys_from_spec() -> bool {
        true
    }

    open spec fn from_spec(value: AmclError) -> Error {
        Error::BLSAmclError(value)
    }
}

impl From<MerkleizationError> for Error {
    fn from(value: MerkleizationError) -> (res: Error) {
        Error::MerkleizationError(value)
    }
}

impl FromSpecImpl<MerkleizationError> for Error {
    open spec fn obeys_from_spec() -> bool {
        true
    }

    open spec fn from_spec(value: MerkleizationError) -> Error {
        Error::MerkleizationError(value)
    }
}

/// Why a Merkle branch was rejected.
#[derive(Debug)]
pub enum MerkleError {
    /// The recomputed root differs from the expected one:
    /// leaf, branch, subtree index, expected root, recomputed root.
    InvalidMerkleBranch(H256, Vec<H256>, u64, Root, Root),
    /// The branch is longer than the depth limit:
    /// limit, leaf, branch, subtree index, root.
    TooLongMerkleBranchLength(u32, H256, Vec<H256>, u64, Root),
    /// The branch length differs from the depth of the generalized index:
    /// depth, leaf, branch, subtree index, root.
    InvalidMerkleBranchLength(u32, H256, Vec<H256>, u64, Root),
    /// The generalized index names no node of a tree.
    InvalidGeneralIndex(u64),
}

} // verus!
