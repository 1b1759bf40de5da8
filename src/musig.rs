use vstd::prelude::*;

use musig2::secp::{Point, Scalar};
use musig2::{AggNonce, KeyAggContext, PartialSignature, PubNonce, SecNonce};

verus! {

/// The bytes of an optional byte string.
pub open spec fn opt_bytes(r: Option<Vec<u8>>) -> Option<Seq<u8>> {
    match r {
        Some(v) => Some(v@),
        None => None,
    }
}

/// The serialized public nonce that musig2 derives from a serialized secret
/// nonce, or `None` where the secret nonce does not decode.
pub uninterp spec fn public_nonce_of(secret_nonce: Seq<u8>) -> Option<Seq<u8>>;

/// Whether musig2 decodes the bytes as a public nonce.
pub uninterp spec fn public_nonce_decodes(public_nonce: Seq<u8>) -> bool;

/// The serialized aggregate that musig2 sums from serialized public nonces,
/// in the order given, or `None` where one of them does not decode.
pub uninterp spec fn nonce_sum_of(public_nonces: Seq<Seq<u8>>) -> Option<Seq<u8>>;

/// The serialized partial signature that musig2 makes for the signer set
/// (serialized keys, in order), a serialized secret key and secret nonce, a
/// serialized aggregated nonce and a message; `None` where an argument does
/// not decode or musig2 refuses to sign (a nonce bound to another key, a
/// key outside the set).
pub uninterp spec fn partial_signature_of(
    signers: Seq<Seq<u8>>,
    secret_key: Seq<u8>,
    secret_nonce: Seq<u8>,
    aggregated_nonce: Seq<u8>,
    message: Seq<u8>,
) -> Option<Seq<u8>>;

/// The serialized BIP340 signature that musig2 aggregates from the signers'
/// serialized keys (in order), the serialized aggregated nonce, the
/// serialized partial signatures and the message; `None` where an argument
/// does not decode or the aggregate does not verify under the aggregated key.
pub uninterp spec fn aggregate_signature_of(
    signers: Seq<Seq<u8>>,
    aggregated_nonce: Seq<u8>,
    partial_signatures: Seq<Seq<u8>>,
    message: Seq<u8>,
) -> Option<Seq<u8>>;

/// Relies on musig2's `SecNonce::from_bytes`, `SecNonce::public_nonce` and
/// `PubNonce::serialize`: a secret nonce is 97 bytes (anything else is
/// refused), and its public nonce depends on those bytes alone.
#[verifier::external_body]
pub(crate) fn derive_public_nonce(secret_nonce: &Vec<u8>) -> (r: Option<Vec<u8>>)
    ensures
        opt_bytes(r) == public_nonce_of(secret_nonce@),
        secret_nonce@.len() != 97 ==> r is None,
{
    match SecNonce::from_bytes(secret_nonce) {
        Ok(n) => Some(n.public_nonce().serialize().to_vec()),
        Err(_) => None,
    }
}

/// Relies on musig2's `PubNonce::from_bytes`: whether the bytes decode as a
/// public nonce.
#[verifier::external_body]
pub(crate) fn check_public_nonce(public_nonce: &Vec<u8>) -> (r: bool)
    ensures
        r == public_nonce_decodes(public_nonce@),
{
    PubNonce::from_bytes(public_nonce).is_ok()
}

/// Relies on musig2's `PubNonce::from_bytes`, `AggNonce::sum` and
/// `AggNonce::serialize`: the sum of the decoded public nonces, or `None`
/// where one of them does not decode.
#[verifier::external_body]
pub(crate) fn sum_public_nonces(public_nonces: &Vec<Vec<u8>>) -> (r: Option<Vec<u8>>)
    ensures
        opt_bytes(r) == nonce_sum_of(public_nonces@.map_values(|n: Vec<u8>| n@)),
{
    let decoded: Result<Vec<PubNonce>, _> = public_nonces.iter().map(|n| PubNonce::from_bytes(n)).collect();
    match decoded {
        Ok(ns) => Some(AggNonce::sum(&ns).serialize().to_vec()),
        Err(_) => None,
    }
}

/// Relies on musig2's `Point::from_slice`, `KeyAggContext::new` (which
/// panics on an empty key list), `Scalar::from_slice`, `SecNonce::from_bytes`,
/// `AggNonce::from_bytes` and `sign_partial`: one signer's partial signature.
#[verifier::external_body]
pub(crate) fn sign_partial(
    signers: &Vec<Vec<u8>>,
    secret_key: &Vec<u8>,
    secret_nonce: &Vec<u8>,
    aggregated_nonce: &Vec<u8>,
    message: &Vec<u8>,
) -> (r: Option<Vec<u8>>)
    requires
        signers@.len() > 0,
    ensures
        opt_bytes(r) == partial_signature_of(
            signers@.map_values(|k: Vec<u8>| k@),
            secret_key@,
            secret_nonce@,
            aggregated_nonce@,
            message@,
        ),
{
    let keys: Result<Vec<Point>, _> = signers.iter().map(|k| Point::from_slice(k)).collect();
    let ctx = KeyAggContext::new(keys.ok()?).ok()?;
    let key = Scalar::from_slice(secret_key).ok()?;
    let sec = SecNonce::from_bytes(secret_nonce).ok()?;
    let agg = AggNonce::from_bytes(aggregated_nonce).ok()?;
    let sig: PartialSignature = musig2::sign_partial(&ctx, key, sec, &agg, message).ok()?;
    Some(sig.serialize().to_vec())
}

/// Relies on musig2's `Point::from_slice`, `PartialSignature::from_slice`,
/// `AggNonce::from_bytes`, `KeyAggContext::new` (which panics on an empty
/// key list) and `aggregate_partial_signatures`: the aggregated signature,
/// or `None` where an argument does not decode or the aggregate does not
/// verify under the aggregated key.
#[verifier::external_body]
pub(crate) fn aggregate_signatures(
    signers: &Vec<Vec<u8>>,
    aggregated_nonce: &Vec<u8>,
    partial_signatures: &Vec<Vec<u8>>,
    message: &Vec<u8>,
) -> (r: Option<Vec<u8>>)
    requires
        signers@.len() > 0,
    ensures
        opt_bytes(r) == aggregate_signature_of(
            signers@.map_values(|k: Vec<u8>| k@),
            aggregated_nonce@,
            partial_signatures@.map_values(|p: Vec<u8>| p@),
            message@,
        ),
{
    let keys: Result<Vec<Point>, _> = signers.iter().map(|k| Point::from_slice(k)).collect();
    let sigs: Result<Vec<PartialSignature>, _> =
        partial_signatures.iter().map(|p| PartialSignature::from_slice(p)).collect();
    match (keys.map(KeyAggContext::new), sigs, AggNonce::from_bytes(aggregated_nonce)) {
        (Ok(Ok(ctx)), Ok(s), Ok(n)) => musig2::aggregate_partial_signatures::<_, Vec<u8>>(&ctx, &n, s, message).ok(),
        _ => None,
    }
}

} // verus!
