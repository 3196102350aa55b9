//! The selective-disclosure protocol: derive a verifiable presentation
//! revealing a chosen subset of statements from one or more signed
//! credentials, and check such a presentation. A request whose chosen
//! mode is missing a required field is rejected here, with a
//! descriptive reason, before any cryptographic work is attempted.

use crate::primitives::count_graph_triples;
use crate::primitives::degenerate_graph;
use crate::primitives::derive_proof_call;
use crate::primitives::get_seeded_rng;
use crate::primitives::has_degenerate_pair;
use crate::primitives::pair_has_degenerate_graph;
use crate::primitives::to_blind_sign_request_string;
use crate::primitives::to_circuit_strings;
use crate::primitives::verify_proof_call;
use crate::types::to_verify_result;
use crate::types::DeriveProofRequest;
use crate::types::DeriveProofVcPair;
use crate::types::VerifyProofRequest;
use crate::types::VerifyResult;
use vstd::prelude::*;

verus! {

/// Derives a verifiable presentation from the request: one disclosure
/// proof over the credential pairs and the deanonymization map, plus a
/// predicate proof per requested predicate and an optional pseudonym
/// binding. A request that asks for predicate proofs without supplying
/// circuits, or for a pseudonym binding without a holder secret and a
/// domain, is rejected before any proof is attempted. So is a pair
/// whose document or proof graph fails to parse or parses to no
/// statement at all: the engine refuses the former and cannot fold the
/// latter for display, and a failure must surface as an error, never
/// as a crash. On success the presentation is never empty.
pub fn derive_proof_caller(request: &DeriveProofRequest) -> (r: Result<String, String>)
    ensures
        request.predicates_without_circuits() ==> r is Err,
        request.ppid_without_secret_or_domain() ==> r is Err,
        request.missing_disclosure_input() ==> r is Err,
        has_degenerate_pair(request.vc_pairs@) ==> r is Err,
        r matches Ok(vp) ==> vp@.len() > 0,
{
    if has_predicates_without_circuits(request) {
        return Err(String::from_str("predicates were supplied without their circuits"));
    }
    if has_ppid_without_secret_or_domain(request) {
        return Err(
            String::from_str("a pseudonym binding needs both a holder secret and a domain"),
        );
    }
    if has_missing_disclosure_input(request) {
        return Err(
            String::from_str(
                "nothing to present: no credential pair, no blind-signing request, no pseudonym",
            ),
        );
    }
    if find_degenerate_pair(&request.vc_pairs) {
        return Err(
            String::from_str(
                "every document and proof graph of a credential pair must parse to at least one statement",
            ),
        );
    }
    let blind_sign_request = match &request.blind_sign_request {
        Some(req) => Some(to_blind_sign_request_string(req)),
        None => None,
    };
    let circuits = match &request.circuits {
        Some(map) => Some(to_circuit_strings(map)),
        None => None,
    };
    let mut rng = get_seeded_rng();
    derive_proof_call(
        &mut rng,
        &request.vc_pairs,
        &request.deanon_map,
        request.key_graph.as_str(),
        &request.challenge,
        &request.domain,
        &request.secret,
        blind_sign_request,
        request.with_ppid,
        &request.predicates,
        circuits.as_ref(),
    )
}

/// Checks a verifiable presentation: the disclosure proof against the
/// issuer keys in the key graph, every predicate proof against its
/// verifying key, and the challenge and domain binding. A failed check
/// is reported in the result, never thrown.
pub fn verify_proof_caller(request: &VerifyProofRequest) -> (r: VerifyResult)
    ensures
        r.wf(),
{
    let mut rng = get_seeded_rng();
    to_verify_result(
        verify_proof_call(
            &mut rng,
            request.vp.as_str(),
            request.key_graph.as_str(),
            &request.challenge,
            &request.domain,
            &request.snark_verifying_keys,
        ),
    )
}

/// Executable check for [`degenerate_graph`].
fn graph_is_degenerate(graph: &str) -> (b: bool)
    ensures
        b == degenerate_graph(graph@),
{
    match count_graph_triples(graph) {
        Some(n) => n == 0,
        None => true,
    }
}

/// Executable check for [`has_degenerate_pair`]: scans the credential
/// pairs for one whose document or proof graphs cannot all be parsed
/// into at least one statement each.
fn find_degenerate_pair(pairs: &Vec<DeriveProofVcPair>) -> (b: bool)
    ensures
        b == has_degenerate_pair(pairs@),
{
    let mut i: usize = 0;
    while i < pairs.len()
        invariant
            i <= pairs@.len(),
            forall|j: int| 0 <= j < i ==> !pair_has_degenerate_graph(#[trigger] pairs@[j]),
        decreases pairs@.len() - i,
    {
        let degenerate = graph_is_degenerate(pairs[i].original_document.as_str())
            || graph_is_degenerate(pairs[i].original_proof.as_str())
            || graph_is_degenerate(pairs[i].disclosed_document.as_str())
            || graph_is_degenerate(pairs[i].disclosed_proof.as_str());
        if degenerate {
            assert(pair_has_degenerate_graph(pairs@[i as int]));
            return true;
        }
        i = i + 1;
    }
    false
}

/// Executable check for [`DeriveProofRequest::missing_disclosure_input`].
fn has_missing_disclosure_input(request: &DeriveProofRequest) -> (b: bool)
    ensures
        b == request.missing_disclosure_input(),
{
    let ppid_requested = match request.with_ppid {
        Some(true) => true,
        _ => false,
    };
    request.vc_pairs.len() == 0 && request.blind_sign_request.is_none() && !ppid_requested
}

/// Executable check for [`DeriveProofRequest::predicates_without_circuits`].
fn has_predicates_without_circuits(request: &DeriveProofRequest) -> (b: bool)
    ensures
        b == request.predicates_without_circuits(),
{
    match &request.predicates {
        Some(preds) => preds.len() > 0 && request.circuits.is_none(),
        None => false,
    }
}

/// Executable check for [`DeriveProofRequest::ppid_without_secret_or_domain`].
fn has_ppid_without_secret_or_domain(request: &DeriveProofRequest) -> (b: bool)
    ensures
        b == request.ppid_without_secret_or_domain(),
{
    match request.with_ppid {
        Some(true) => request.secret.is_none() || request.domain.is_none(),
        _ => false,
    }
}

} // verus!
