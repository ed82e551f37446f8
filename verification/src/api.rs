//! Host-provided primitives: signature verification and the address codec,
//! consumed through trusted wrappers.

use vstd::prelude::*;

verus! {

#[verifier::external_type_specification]
#[verifier::external_body]
pub struct ExStdError(cosmwasm_std::StdError);

/// Whether `signature` is a valid signature of `message` under
/// `public_key`. Verification is deterministic in the three byte strings.
pub uninterp spec fn sig_valid(message: Seq<u8>, signature: Seq<u8>, public_key: Seq<u8>) -> bool;

/// Relies on `cosmwasm_std::Api::ed25519_verify` (the `MockApi`
/// implementation): deterministic in the three byte strings; any internal
/// verification error is folded into `false`.
#[verifier::external_body]
pub(crate) fn ed25519_verify(message: &[u8], signature: &[u8], public_key: &[u8]) -> (r: bool)
    ensures
        r == sig_valid(message@, signature@, public_key@),
{
    cosmwasm_std::Api::ed25519_verify(
        &cosmwasm_std::testing::MockApi::default(),
        message,
        signature,
        public_key,
    )
    .unwrap_or(false)
}

/// The canonical (binary) form of a human-readable address, or `None` on
/// the texts the codec rejects.
pub uninterp spec fn canonical_of(human: Seq<char>) -> Option<Seq<u8>>;

/// Relies on `cosmwasm_std::Api::addr_canonicalize` (the `MockApi`
/// implementation): a deterministic encoding of a human-readable address,
/// failing exactly on the texts the codec rejects.
#[verifier::external_body]
pub(crate) fn addr_canonicalize(human: &str) -> (r: Result<Vec<u8>, cosmwasm_std::StdError>)
    ensures
        r is Ok <==> canonical_of(human@) is Some,
        r matches Ok(c) ==> Some(c@) == canonical_of(human@),
{
    match cosmwasm_std::Api::addr_canonicalize(&cosmwasm_std::testing::MockApi::default(), human) {
        Ok(c) => Ok(c.as_slice().to_vec()),
        Err(e) => Err(e),
    }
}

/// The human-readable (display) form of a canonical address, or `None` on
/// the byte strings the codec rejects.
pub uninterp spec fn human_of(canonical: Seq<u8>) -> Option<Seq<char>>;

/// Relies on `cosmwasm_std::Api::addr_humanize` (the `MockApi`
/// implementation): a deterministic decoding of a canonical address,
/// failing exactly on the byte strings the codec rejects.
#[verifier::external_body]
pub(crate) fn addr_humanize(canonical: &Vec<u8>) -> (r: Result<String, cosmwasm_std::StdError>)
    ensures
        r is Ok <==> human_of(canonical@) is Some,
        r matches Ok(h) ==> Some(h@) == human_of(canonical@),
{
    let addr = cosmwasm_std::CanonicalAddr::from(canonical.as_slice());
    match cosmwasm_std::Api::addr_humanize(&cosmwasm_std::testing::MockApi::default(), &addr) {
        Ok(h) => Ok(h.into_string()),
        Err(e) => Err(e),
    }
}

} // verus!
