//! Trusted boundary to the cryptographic engine. Every item here is
//! believed, not verified: each wrapper makes one call into the
//! `rdf_proofs` crate (or draws operating-system randomness) and states
//! only what that crate's source shows. Deterministic outcomes are
//! given uninterpreted names so that verified callers can speak of them
//! exactly without restating the cryptography.

use crate::types::BlindSignRequest;
use crate::types::Circuit;
use crate::types::DeriveProofVcPair;
use crate::types::KeyPair;
use std::collections::HashMap;
use vstd::prelude::*;

verus! {

#[verifier::external_type_specification]
#[verifier::external_body]
pub struct ExStdRng(rand::rngs::StdRng);

#[verifier::external_type_specification]
#[verifier::external_body]
pub struct ExCircuitString(rdf_proofs::CircuitString);

#[verifier::external_type_specification]
#[verifier::external_body]
pub struct ExBlindSignRequestString(rdf_proofs::BlindSignRequestString);

/// Whether `rdf_proofs::verify_string` accepts the proof over the
/// document under the key graph; a pure function of the three inputs.
pub uninterp spec fn verify_ok(document: Seq<char>, proof: Seq<char>, key_graph: Seq<char>) -> bool;

/// Whether `rdf_proofs::blind_verify_string` accepts the proof over the
/// document under the key graph for the given holder secret; a pure
/// function of the four inputs.
pub uninterp spec fn blind_verify_ok(
    secret: Seq<u8>,
    document: Seq<char>,
    proof: Seq<char>,
    key_graph: Seq<char>,
) -> bool;

/// What `rdf_proofs::unblind_string` returns: the unblinded proof value
/// when the documents parse and the blinding factor and embedded
/// signature decode, and nothing otherwise; a pure function of the
/// three inputs.
pub uninterp spec fn unblind_result(
    document: Seq<char>,
    proof: Seq<char>,
    blinding: Seq<char>,
) -> Option<Seq<char>>;

/// Whether and to how many statements a graph string parses: the
/// number of N-Triples statements when the parser accepts the string,
/// nothing when it does not; a pure function of the input.
pub uninterp spec fn triple_count(graph: Seq<char>) -> Option<usize>;

/// Relies on `oxttl::NTriplesParser`: deterministic in the input
/// string. This is the same parser, in the same version, that the
/// engine applies to every document and proof graph it is handed.
#[verifier::external_body]
pub(crate) fn count_graph_triples(graph: &str) -> (r: Option<usize>)
    ensures
        r == triple_count(graph@),
{
    let parsed: Result<Vec<_>, _> =
        oxttl::NTriplesParser::new().for_reader(graph.as_bytes()).collect();
    match parsed {
        Ok(triples) => Some(triples.len()),
        Err(_) => None,
    }
}

/// A graph string the engine cannot fold back into statements: it
/// fails to parse as N-Triples, or parses to no statement at all.
pub open spec fn degenerate_graph(graph: Seq<char>) -> bool {
    match triple_count(graph) {
        Some(n) => n == 0,
        None => true,
    }
}

/// One of the four graphs of the credential pair is degenerate.
pub open spec fn pair_has_degenerate_graph(pair: DeriveProofVcPair) -> bool {
    degenerate_graph(pair.original_document@) || degenerate_graph(pair.original_proof@)
        || degenerate_graph(pair.disclosed_document@) || degenerate_graph(
        pair.disclosed_proof@,
    )
}

/// Some credential pair among those given carries a degenerate graph.
pub open spec fn has_degenerate_pair(pairs: Seq<DeriveProofVcPair>) -> bool {
    exists|i: int| 0 <= i < pairs.len() && pair_has_degenerate_graph(#[trigger] pairs[i])
}

/// Relies on `rand::thread_rng` and `rand::rngs::StdRng::from_seed`: a
/// pseudo-random generator freshly seeded from operating-system
/// entropy. Nothing is promised of the values it will yield.
#[verifier::external_body]
pub fn get_seeded_rng() -> rand::rngs::StdRng {
    let mut buf = [0u8; 32];
    let mut entropy = rand::thread_rng();
    rand::RngCore::fill_bytes(&mut entropy, &mut buf);
    rand::SeedableRng::from_seed(buf)
}

/// Relies on `rdf_proofs::KeyPairBase58Btc::new`: a fresh BBS+ key
/// pair, both halves encoded as base58btc multibase strings. The pair
/// is random, so of its value only this much holds: a multibase string
/// always carries its base prefix and the multicodec tag, so neither
/// half is empty.
#[verifier::external_body]
pub(crate) fn generate_keypair_call(rng: &mut rand::rngs::StdRng) -> (r: Result<KeyPair, String>)
    ensures
        r matches Ok(kp) ==> kp.secret_key@.len() > 0 && kp.public_key@.len() > 0,
{
    match rdf_proofs::KeyPairBase58Btc::new(rng) {
        Ok(kp) => Ok(KeyPair { secret_key: kp.secret_key, public_key: kp.public_key }),
        Err(e) => Err(format!("{:?}", e)),
    }
}

/// Relies on `rdf_proofs::sign_string`: a proof value over the
/// canonicalized document under the secret key that the key graph holds
/// for the verification method named in the proof options. The
/// signature is randomized, so of its value only this much holds: the
/// serialized proof graph carries at least the proof-value statement,
/// so a successful result is never empty.
#[verifier::external_body]
pub(crate) fn sign_call(
    rng: &mut rand::rngs::StdRng,
    document: &str,
    proof_options: &str,
    key_graph: &str,
) -> (r: Result<String, String>)
    ensures
        r matches Ok(pv) ==> pv@.len() > 0,
{
    match rdf_proofs::sign_string(rng, document, proof_options, key_graph) {
        Ok(proof_value) => Ok(proof_value),
        Err(e) => Err(format!("{:?}", e)),
    }
}

/// Relies on `rdf_proofs::verify_string`: deterministic in its three
/// inputs, it succeeds exactly when the proof checks out.
#[verifier::external_body]
pub(crate) fn verify_call(document: &str, proof: &str, key_graph: &str) -> (r: Result<
    (),
    String,
>)
    ensures
        r is Ok <==> verify_ok(document@, proof@, key_graph@),
{
    match rdf_proofs::verify_string(document, proof, key_graph) {
        Ok(()) => Ok(()),
        Err(e) => Err(format!("{:?}", e)),
    }
}

/// Relies on `rdf_proofs::request_blind_sign_string`: a commitment to
/// the holder secret with its blinding factor, and — unless skipped — a
/// proof of knowledge bound to the challenge. The source returns the
/// proof of knowledge exactly when `skip_pok` is not `Some(true)`, and
/// encodes commitment and blinding factor as multibase strings, which
/// always carry their base prefix and so are never empty.
#[verifier::external_body]
pub(crate) fn request_blind_sign_call(
    rng: &mut rand::rngs::StdRng,
    secret: &[u8],
    challenge: &Option<String>,
    skip_pok: Option<bool>,
) -> (r: Result<BlindSignRequest, String>)
    ensures
        r matches Ok(req) ==> (req.pok_for_commitment is Some <==> skip_pok != Some(true)),
        r matches Ok(req) ==> req.commitment@.len() > 0 && req.blinding@.len() > 0,
{
    match rdf_proofs::request_blind_sign_string(rng, secret, challenge.as_deref(), skip_pok) {
        Ok(req) => Ok(
            BlindSignRequest {
                commitment: req.commitment,
                pok_for_commitment: req.pok_for_commitment,
                blinding: req.blinding,
            },
        ),
        Err(e) => Err(format!("{:?}", e)),
    }
}

/// Relies on `rdf_proofs::verify_blind_sign_request_string`: checks the
/// proof of knowledge against the commitment and the challenge. The
/// check draws randomness, so only the shape of the outcome is stated
/// by the caller, nothing here.
#[verifier::external_body]
pub(crate) fn verify_blind_sign_request_call(
    rng: &mut rand::rngs::StdRng,
    commitment: &str,
    pok_for_commitment: &str,
    challenge: &Option<String>,
) -> Result<(), String> {
    match rdf_proofs::verify_blind_sign_request_string(
        rng,
        commitment,
        pok_for_commitment,
        challenge.as_deref(),
    ) {
        Ok(()) => Ok(()),
        Err(e) => Err(format!("{:?}", e)),
    }
}

/// Relies on `rdf_proofs::blind_sign_string`: a blinded proof value
/// over the document, folding the unopened commitment in place of the
/// holder's secret. Randomized, so of its value only this much holds:
/// the serialized proof graph carries at least the proof-value
/// statement, so a successful result is never empty.
#[verifier::external_body]
pub(crate) fn blind_sign_call(
    rng: &mut rand::rngs::StdRng,
    commitment: &str,
    document: &str,
    proof_options: &str,
    key_graph: &str,
) -> (r: Result<String, String>)
    ensures
        r matches Ok(pv) ==> pv@.len() > 0,
{
    match rdf_proofs::blind_sign_string(rng, commitment, document, proof_options, key_graph) {
        Ok(proof_value) => Ok(proof_value),
        Err(e) => Err(format!("{:?}", e)),
    }
}

/// Relies on `rdf_proofs::unblind_string`: deterministic in its three
/// inputs; it removes the blinding from the proof value embedded in the
/// blinded proof.
#[verifier::external_body]
pub(crate) fn unblind_call(document: &str, proof: &str, blinding: &str) -> (r: Result<
    String,
    String,
>)
    ensures
        r matches Ok(pv) ==> unblind_result(document@, proof@, blinding@) == Some(pv@),
        r is Err ==> unblind_result(document@, proof@, blinding@) is None,
{
    match rdf_proofs::unblind_string(document, proof, blinding) {
        Ok(proof_value) => Ok(proof_value),
        Err(e) => Err(format!("{:?}", e)),
    }
}

/// Relies on `rdf_proofs::blind_verify_string`: deterministic in its
/// four inputs, it succeeds exactly when the bound proof checks out for
/// the holder secret.
#[verifier::external_body]
pub(crate) fn blind_verify_call(
    secret: &[u8],
    document: &str,
    proof: &str,
    key_graph: &str,
) -> (r: Result<(), String>)
    ensures
        r is Ok <==> blind_verify_ok(secret@, document@, proof@, key_graph@),
{
    match rdf_proofs::blind_verify_string(secret, document, proof, key_graph) {
        Ok(()) => Ok(()),
        Err(e) => Err(format!("{:?}", e)),
    }
}

/// Repackages the blind-signing request, field for field, into the
/// engine's `rdf_proofs::BlindSignRequestString`.
#[verifier::external_body]
pub(crate) fn to_blind_sign_request_string(req: &BlindSignRequest) -> rdf_proofs::BlindSignRequestString {
    rdf_proofs::BlindSignRequestString {
        commitment: req.commitment.clone(),
        pok_for_commitment: req.pok_for_commitment.clone(),
        blinding: req.blinding.clone(),
    }
}

/// Repackages each circuit, field for field, into the engine's
/// `rdf_proofs::CircuitString`, keyed as before.
#[verifier::external_body]
pub(crate) fn to_circuit_strings(circuits: &HashMap<String, Circuit>) -> HashMap<
    String,
    rdf_proofs::CircuitString,
> {
    circuits.iter().map(
        |(id, c)|
            (
                id.clone(),
                rdf_proofs::CircuitString {
                    circuit_r1cs: c.r1cs.clone(),
                    circuit_wasm: c.wasm.clone(),
                    snark_proving_key: c.proving_key.clone(),
                },
            ),
    ).collect()
}

/// Relies on `rdf_proofs::derive_proof_string`: a verifiable
/// presentation disclosing the chosen statements, with any requested
/// predicate proofs and pseudonym binding. Randomized, so of its value
/// only this much holds: the serialized presentation carries at least
/// the proof-value quad, so a successful result is never empty. The
/// engine folds every document and proof graph of the credential pairs
/// for display and cannot handle an empty one: the caller admits only
/// pairs whose four graphs each parse to at least one statement.
#[verifier::external_body]
pub(crate) fn derive_proof_call(
    rng: &mut rand::rngs::StdRng,
    vc_pairs: &Vec<DeriveProofVcPair>,
    deanon_map: &HashMap<String, String>,
    key_graph: &str,
    challenge: &Option<String>,
    domain: &Option<String>,
    secret: &Option<Vec<u8>>,
    blind_sign_request: Option<rdf_proofs::BlindSignRequestString>,
    with_ppid: Option<bool>,
    predicates: &Option<Vec<String>>,
    circuits: Option<&HashMap<String, rdf_proofs::CircuitString>>,
) -> (r: Result<String, String>)
    requires
        forall|i: int|
            0 <= i < vc_pairs@.len() ==> !pair_has_degenerate_graph(#[trigger] vc_pairs@[i]),
    ensures
        r matches Ok(vp) ==> vp@.len() > 0,
{
    let pairs: Vec<rdf_proofs::VcPairString> = vc_pairs.iter()
        .map(|p| rdf_proofs::VcPairString::new(
            &p.original_document, &p.original_proof, &p.disclosed_document, &p.disclosed_proof,
        ))
        .collect();
    let r = rdf_proofs::derive_proof_string(
        rng, &pairs, deanon_map, key_graph, challenge.as_deref(), domain.as_deref(),
        secret.as_deref(), blind_sign_request, with_ppid, predicates.as_ref(), circuits,
    );
    match r {
        Ok(vp) => Ok(vp),
        Err(e) => Err(format!("{:?}", e)),
    }
}

/// Relies on `rdf_proofs::verify_proof_string`: checks the disclosure
/// proof, every predicate proof, and the challenge and domain binding
/// of the presentation. The check draws randomness, so only the shape
/// of the outcome is stated by the caller, nothing here.
#[verifier::external_body]
pub(crate) fn verify_proof_call(
    rng: &mut rand::rngs::StdRng,
    vp: &str,
    key_graph: &str,
    challenge: &Option<String>,
    domain: &Option<String>,
    snark_verifying_keys: &Option<HashMap<String, String>>,
) -> Result<(), String> {
    match rdf_proofs::verify_proof_string(
        rng,
        vp,
        key_graph,
        challenge.as_deref(),
        domain.as_deref(),
        snark_verifying_keys.clone(),
    ) {
        Ok(()) => Ok(()),
        Err(e) => Err(format!("{:?}", e)),
    }
}

} // verus!
