//! BLS12-381 aggregate signatures, as checked by the Milagro curve library.

use vstd::prelude::*;
use crate::errors::Error;
use crate::types::{H256, PublicKey, Signature};
use snowbridge_milagro_bls::AmclError;

verus! {

/// The error of the curve library, which is carried through as it comes.
#[verifier::external_type_specification]
#[verifier::external_body]
pub struct ExAmclError(AmclError);

/// The compressed bytes of each key of a list.
pub open spec fn key_bytes(keys: Seq<PublicKey>) -> Seq<Seq<u8>> {
    keys.map_values(|key: PublicKey| key.0@)
}

/// The verdict of the curve library on an aggregate signature over `message`
/// by the holders of `public_keys`: `None` where the signature or one of the
/// keys does not decode, else whether the signature verifies.
pub uninterp spec fn bls_fast_aggregate_verify(
    signature: Seq<u8>,
    message: Seq<u8>,
    public_keys: Seq<Seq<u8>>,
) -> Option<bool>;

/// The compressed aggregate of `public_keys` according to the curve library:
/// `None` where a key does not decode or the list is empty.
pub uninterp spec fn bls_aggregate_public_keys(public_keys: Seq<Seq<u8>>) -> Option<Seq<u8>>;

/// Decodes the signature with `AggregateSignature::from_bytes` and each key with
/// `PublicKey::from_bytes`, then calls `AggregateSignature::fast_aggregate_verify`.
/// A decoding error is handed on; otherwise the verdict is returned. The
/// outcome is named `bls_fast_aggregate_verify` of the bytes that went in.
#[verifier::external_body]
fn fast_aggregate_verify_bytes(
    signature: &Signature,
    message: &H256,
    public_keys: &Vec<PublicKey>,
) -> (res: Result<bool, AmclError>)
    ensures
        res is Ok <==> bls_fast_aggregate_verify(signature.0@, message.0@, key_bytes(public_keys@))
            is Some,
        res matches Ok(verdict) ==> bls_fast_aggregate_verify(
            signature.0@,
            message.0@,
            key_bytes(public_keys@),
        ) == Some(verdict),
{
    let signature = snowbridge_milagro_bls::AggregateSignature::from_bytes(&signature.0)?;
    let mut keys = Vec::with_capacity(public_keys.len());
    for key in public_keys {
        keys.push(snowbridge_milagro_bls::PublicKey::from_bytes(&key.0)?);
    }
    let keys: Vec<&snowbridge_milagro_bls::PublicKey> = keys.iter().collect();
    Ok(signature.fast_aggregate_verify(&message.0, &keys))
}

/// Decodes each key with `PublicKey::from_bytes` and calls
/// `AggregatePublicKey::into_aggregate`; the sum is returned in compressed
/// form. An error of either call is handed on. The outcome is named
/// `bls_aggregate_public_keys` of the bytes that went in.
#[verifier::external_body]
fn aggregate_public_key_bytes(public_keys: &Vec<PublicKey>) -> (res: Result<PublicKey, AmclError>)
    ensures
        res is Ok <==> bls_aggregate_public_keys(key_bytes(public_keys@)) is Some,
        res matches Ok(aggregate) ==> bls_aggregate_public_keys(key_bytes(public_keys@)) == Some(
            aggregate.0@,
        ),
{
    let mut keys = Vec::with_capacity(public_keys.len());
    for key in public_keys {
        keys.push(snowbridge_milagro_bls::PublicKey::from_bytes(&key.0)?);
    }
    let aggregate = snowbridge_milagro_bls::AggregatePublicKey::into_aggregate(&keys)?;
    Ok(PublicKey(snowbridge_milagro_bls::PublicKey { point: aggregate.point }.as_bytes()))
}

/// Whether `signature` is an aggregate signature over `message` by the
/// holders of `public_keys`.
pub fn fast_aggregate_verify(
    public_keys: &Vec<PublicKey>,
    message: &H256,
    signature: &Signature,
) -> (res: Result<bool, Error>)
    ensures
        match bls_fast_aggregate_verify(signature.0@, message.0@, key_bytes(public_keys@)) {
            Some(verdict) => res == Ok::<bool, Error>(verdict),
            None => res matches Err(Error::BLSAmclError(_)),
        },
{
    match fast_aggregate_verify_bytes(signature, message, public_keys) {
        Ok(verdict) => Ok(verdict),
        Err(e) => Err(Error::from(e)),
    }
}

/// The aggregate of a list of public keys.
pub fn aggregate_public_key(public_keys: &Vec<PublicKey>) -> (res: Result<PublicKey, Error>)
    ensures
        match bls_aggregate_public_keys(key_bytes(public_keys@)) {
            Some(aggregate) => res matches Ok(key) && key.0@ == aggregate,
            None => res matches Err(Error::BLSAmclError(_)),
        },
{
    match aggregate_public_key_bytes(public_keys) {
        Ok(key) => Ok(key),
        Err(e) => Err(Error::from(e)),
    }
}

} // verus!
