//! Key generation and the direct signing protocol: sign a document
//! with a full secret key, and check such a signature, reporting a
//! failed check as a structured result rather than an error.

use crate::primitives::generate_keypair_call;
use crate::primitives::get_seeded_rng;
use crate::primitives::sign_call;
use crate::primitives::verify_call;
use crate::primitives::verify_ok;
use crate::types::to_verify_result;
use crate::types::KeyPair;
use crate::types::VerifyResult;
use vstd::prelude::*;

verus! {

/// Draws fresh randomness and generates a BBS+ signing key pair, both
/// halves encoded as non-empty multibase strings. Fails only when the
/// underlying primitive cannot produce a valid pair.
pub fn key_gen_caller() -> (r: Result<KeyPair, String>)
    ensures
        r matches Ok(kp) ==> kp.secret_key@.len() > 0 && kp.public_key@.len() > 0,
{
    let mut rng = get_seeded_rng();
    generate_keypair_call(&mut rng)
}

/// Signs the document under the proof options, resolving the issuer's
/// secret key from the key graph, and returns the encoded proof value,
/// which on success is never empty. Fails on malformed input or on a
/// primitive failure, with the reason.
pub fn sign_caller(document: &str, proof: &str, key_graph: &str) -> (r: Result<String, String>)
    ensures
        r matches Ok(pv) ==> pv@.len() > 0,
{
    let mut rng = get_seeded_rng();
    sign_call(&mut rng, document, proof, key_graph)
}

/// Checks the proof value against the document under the public key
/// the key graph holds for the proof's verification method. A failed
/// check is reported in the result, never thrown: the outcome carries
/// a reason exactly when the check did not pass.
pub fn verify_caller(document: &str, proof: &str, key_graph: &str) -> (r: VerifyResult)
    ensures
        r.wf(),
        r.verified == verify_ok(document@, proof@, key_graph@),
{
    to_verify_result(verify_call(document, proof, key_graph))
}

} // verus!
