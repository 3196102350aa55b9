//! The blind-signing handshake. Four steps in causal order: the holder
//! requests (commitment, proof of knowledge, blinding factor), the
//! issuer checks the request, the issuer blind-signs a document that
//! carries the unopened commitment, and the holder unblinds the result
//! into a proof value that a bound verification accepts. Breaking the
//! order, or carrying the wrong artifact forward, surfaces as a
//! cryptographic mismatch failure, never as a crash.

use crate::primitives::blind_sign_call;
use crate::primitives::blind_verify_call;
use crate::primitives::blind_verify_ok;
use crate::primitives::get_seeded_rng;
use crate::primitives::request_blind_sign_call;
use crate::primitives::unblind_call;
use crate::primitives::unblind_result;
use crate::primitives::verify_blind_sign_request_call;
use crate::types::to_verify_result;
use crate::types::BlindSignRequest;
use crate::types::VerifyResult;
use vstd::prelude::*;

verus! {

/// Holder step: commits to the secret and, unless `skip_pok` is
/// `Some(true)`, proves knowledge of the committed value, bound to the
/// challenge when one is given. The returned request carries the proof
/// of knowledge exactly when it was not skipped, and its commitment
/// and blinding factor are never empty; the blinding factor must stay
/// with the holder.
pub fn request_blind_sign_caller(
    secret: &[u8],
    challenge: Option<String>,
    skip_pok: Option<bool>,
) -> (r: Result<BlindSignRequest, String>)
    ensures
        r matches Ok(req) ==> (req.pok_for_commitment is Some <==> skip_pok != Some(true)),
        r matches Ok(req) ==> req.commitment@.len() > 0 && req.blinding@.len() > 0,
{
    let mut rng = get_seeded_rng();
    request_blind_sign_call(&mut rng, secret, &challenge, skip_pok)
}

/// Issuer step: checks the proof of knowledge against the commitment
/// and the challenge. A failed check is reported in the result, never
/// thrown; the issuer must not proceed to blind-sign on failure.
pub fn verify_blind_sign_request_caller(
    commitment: &str,
    pok_for_commitment: &str,
    challenge: Option<String>,
) -> (r: VerifyResult)
    ensures
        r.wf(),
{
    let mut rng = get_seeded_rng();
    to_verify_result(
        verify_blind_sign_request_call(&mut rng, commitment, pok_for_commitment, &challenge),
    )
}

/// Issuer step: signs the document with the unopened commitment
/// standing in for the holder's secret, using the issuer secret key
/// the key graph holds for the proof options' verification method. On
/// success the blinded proof value is never empty.
pub fn blind_sign_caller(
    commitment: &str,
    document: &str,
    proof_options: &str,
    key_graph: &str,
) -> (r: Result<String, String>)
    ensures
        r matches Ok(pv) ==> pv@.len() > 0,
{
    let mut rng = get_seeded_rng();
    blind_sign_call(&mut rng, commitment, document, proof_options, key_graph)
}

/// Holder step: removes the blinding from the issuer's proof value.
/// Deterministic: the same document, proof and blinding factor always
/// yield the same unblinded proof value. A malformed blinding factor is
/// rejected here; a well-formed but mismatched one yields a proof value
/// that the bound verification then refuses.
pub fn unblind(document: &str, proof: &str, blinding: &str) -> (r: Result<String, String>)
    ensures
        r matches Ok(pv) ==> unblind_result(document@, proof@, blinding@) == Some(pv@),
        r is Err ==> unblind_result(document@, proof@, blinding@) is None,
        r is Ok <==> unblind_result(document@, proof@, blinding@) is Some,
{
    unblind_call(document, proof, blinding)
}

/// Checks an unblinded proof value against the document under the key
/// graph, for the holder secret the signature was bound to. The
/// outcome is a pure function of the four inputs and is reported in
/// the result, never thrown.
pub fn blind_verify_caller(
    secret: &[u8],
    document: &str,
    proof: &str,
    key_graph: &str,
) -> (r: VerifyResult)
    ensures
        r.wf(),
        r.verified == blind_verify_ok(secret@, document@, proof@, key_graph@),
{
    to_verify_result(blind_verify_call(secret, document, proof, key_graph))
}

} // verus!
