//! The service the ticketing rules take from the Soroban host: SHA-256
//! hashing of gift secrets.
use vstd::prelude::*;
use soroban_sdk::Env;

verus! {

/// The Soroban environment of the running contract invocation.
#[verifier::external_type_specification]
#[verifier::external_body]
pub struct ExEnv(Env);

/// The SHA-256 digest of `data`, as the host computes it.
pub uninterp spec fn sha256_digest(data: Seq<u8>) -> Seq<u8>;

/// Calls `soroban_sdk::crypto::Crypto::sha256` on `data`, copied into host
/// bytes.  Trusted: the result is the host's SHA-256 of exactly these bytes,
/// named `sha256_digest(data@)`.  Left unsaid: the host aborts the whole
/// invocation when its resource budget runs out.
#[verifier::external_body]
pub(crate) fn host_sha256(env: &Env, data: &[u8]) -> (digest: [u8; 32])
    ensures
        digest@ == sha256_digest(data@),
{
    env.crypto().sha256(&soroban_sdk::Bytes::from_slice(env, data)).to_array()
}

} // verus!
