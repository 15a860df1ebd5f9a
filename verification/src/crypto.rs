//! Trusted bridge to the hashing and signature-checking crates.
//!
//! The archive's trust decision is one call: an Ed25519ph check of a
//! SHA-512 hash of every byte after the header, under a domain-separation
//! context. The hasher is streamed over the bytes chunk by chunk; what it
//! has absorbed so far is tracked by the uninterpreted function
//! `sha512_absorbed`, and the acceptance of the check by
//! `ed25519ph_verifies`, a function of the key, context, absorbed bytes
//! and signature alone.

use vstd::prelude::*;

verus! {

#[verifier::external_type_specification]
#[verifier::external_body]
pub struct ExSha512(sha2::Sha512);

/// The bytes a running SHA-512 hasher has absorbed so far.
pub uninterp spec fn sha512_absorbed(h: sha2::Sha512) -> Seq<u8>;

/// Whether Ed25519ph accepts `sig` for the SHA-512 hash of `msg`, under
/// verifying-key bytes `pk` and domain-separation context `ctx`. False
/// whenever `pk` is not a valid key encoding.
pub uninterp spec fn ed25519ph_verifies(pk: Seq<u8>, ctx: Seq<u8>, msg: Seq<u8>, sig: Seq<u8>) -> bool;

/// Relies on sha2::Sha512::new (digest::Digest::new): a fresh hasher has
/// absorbed nothing.
#[verifier::external_body]
pub(crate) fn sha512_new() -> (h: sha2::Sha512)
    ensures
        sha512_absorbed(h) == Seq::<u8>::empty(),
{
    <sha2::Sha512 as sha2::Digest>::new()
}

/// Relies on sha2::Sha512::update (digest::Digest::update): absorbing a
/// chunk appends it to the bytes absorbed so far.
#[verifier::external_body]
pub(crate) fn sha512_update(h: &mut sha2::Sha512, chunk: &Vec<u8>)
    ensures
        sha512_absorbed(*final(h)) == sha512_absorbed(*old(h)) + chunk@,
{
    <sha2::Sha512 as sha2::Digest>::update(h, chunk.as_slice())
}

/// Relies on ed25519_dalek::VerifyingKey::verify_prehashed (with
/// VerifyingKey::from_bytes and Signature::from_bytes converting the raw
/// key and signature): Ed25519ph acceptance is a function of the key
/// bytes, the context, the absorbed bytes and the signature bytes alone,
/// and a key that does not decode is accepted for nothing.
#[verifier::external_body]
pub(crate) fn ed25519ph_verify(pk: &Vec<u8>, ctx: &Vec<u8>, h: sha2::Sha512, sig: &Vec<u8>) -> (r:
    bool)
    requires
        pk@.len() == 32,
        sig@.len() == 64,
        ctx@.len() <= 255,
    ensures
        r == ed25519ph_verifies(pk@, ctx@, sha512_absorbed(h), sig@),
{
    let pk_arr: [u8; 32] = match pk.as_slice().try_into() {
        Ok(a) => a,
        Err(_) => return false,
    };
    let sig_arr: [u8; 64] = match sig.as_slice().try_into() {
        Ok(a) => a,
        Err(_) => return false,
    };
    let key = match ed25519_dalek::VerifyingKey::from_bytes(&pk_arr) {
        Ok(k) => k,
        Err(_) => return false,
    };
    let signature = ed25519_dalek::Signature::from_bytes(&sig_arr);
    key.verify_prehashed(h, Some(ctx.as_slice()), &signature).is_ok()
}

} // verus!
