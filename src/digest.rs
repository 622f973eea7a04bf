//! The SHA-256 digest, computed by the ledger host.
use vstd::prelude::*;

verus! {

/// The SHA-256 digest of a byte string.
pub uninterp spec fn sha256_digest(data: Seq<u8>) -> Seq<u8>;

/// Relies on soroban_sdk's `Crypto::sha256`: the SHA-256 digest of the
/// bytes, a `Hash<32>`, so 32 bytes long. The host runs it on a fresh `Env`
/// under its default budget, which short inputs stay far below.
#[verifier::external_body]
pub(crate) fn sha256(data: &Vec<u8>) -> (r: Vec<u8>)
    requires
        data@.len() <= 1024,
    ensures
        r@ == sha256_digest(data@),
        r@.len() == 32,
{
    let env = soroban_sdk::Env::default();
    let bytes = soroban_sdk::Bytes::from_slice(&env, data.as_slice());
    env.crypto().sha256(&bytes).to_array().to_vec()
}

} // verus!
