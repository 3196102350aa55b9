//! Data model of the protocol: key material, requests and results, all
//! held as plain string encodings so that issuer, holder and verifier
//! can exchange them over any transport.

use std::collections::HashMap;
use vstd::prelude::*;

verus! {

/// A signing key pair, both halves as multibase-encoded strings.
pub struct KeyPair {
    pub secret_key: String,
    pub public_key: String,
}

/// Outcome of a verification step: `verified` says whether the check
/// passed, and `error` carries a reason exactly when it did not.
pub struct VerifyResult {
    pub verified: bool,
    pub error: Option<String>,
}

impl VerifyResult {
    /// A verification outcome is well formed when a reason is present
    /// exactly on failure.
    pub open spec fn wf(self) -> bool {
        self.verified <==> self.error is None
    }
}

/// Turns the outcome of a verification call into a structured result,
/// so that a failed check is reported, never thrown.
pub fn to_verify_result(r: Result<(), String>) -> (v: VerifyResult)
    ensures
        v.wf(),
        v.verified <==> r is Ok,
        r matches Err(m) ==> v.error == Some(m),
{
    match r {
        Ok(()) => VerifyResult { verified: true, error: None },
        Err(m) => VerifyResult { verified: false, error: Some(m) },
    }
}

/// One credential to be partially disclosed: the original signed
/// document and the reduced document the holder chooses to reveal.
pub struct DeriveProofVcPair {
    pub original_document: String,
    pub original_proof: String,
    pub disclosed_document: String,
    pub disclosed_proof: String,
}

/// A predicate over hidden values, given as the circuit artifacts and
/// the ordered private and public inputs.
pub struct DeriveProofPredicate {
    pub circuit_id: String,
    pub circuit_r1cs: String,
    pub circuit_wasm: String,
    pub snark_proving_key: String,
    pub private: Vec<(String, String)>,
    pub public: Vec<(String, String)>,
}

/// Artifacts of one predicate circuit: constraint system, witness
/// generator, and SNARK proving key, each as an encoded string.
pub struct Circuit {
    pub r1cs: String,
    pub wasm: String,
    pub proving_key: String,
}

/// A holder's blind-signing request: the hiding commitment to the
/// holder secret, the proof of knowledge that the commitment is well
/// formed (absent when its generation was skipped), and the blinding
/// factor the holder must retain to unblind the issuer's output.
pub struct BlindSignRequest {
    pub commitment: String,
    pub pok_for_commitment: Option<String>,
    pub blinding: String,
}

/// Inputs of a selective-disclosure derivation. Every field past the
/// credential pairs, the deanonymization map and the key graph is an
/// independent option: absent predicates mean no predicate proofs,
/// an absent challenge or domain leaves the presentation unbound.
pub struct DeriveProofRequest {
    pub vc_pairs: Vec<DeriveProofVcPair>,
    pub deanon_map: HashMap<String, String>,
    pub key_graph: String,
    pub challenge: Option<String>,
    pub domain: Option<String>,
    pub secret: Option<Vec<u8>>,
    pub blind_sign_request: Option<BlindSignRequest>,
    pub with_ppid: Option<bool>,
    pub predicates: Option<Vec<String>>,
    pub circuits: Option<HashMap<String, Circuit>>,
}

impl DeriveProofRequest {
    /// Predicate proofs were requested but no circuits were supplied:
    /// the derivation cannot proceed in that mode.
    pub open spec fn predicates_without_circuits(self) -> bool {
        match self.predicates {
            Some(preds) => preds@.len() > 0 && self.circuits is None,
            None => false,
        }
    }

    /// A pseudonym binding was requested, but the holder secret or the
    /// domain it must be derived against is missing.
    pub open spec fn ppid_without_secret_or_domain(self) -> bool {
        self.with_ppid == Some(true) && (self.secret is None || self.domain is None)
    }

    /// Nothing to derive a presentation from: no credential pair, no
    /// blind-signing request to carry, and no pseudonym binding
    /// requested.
    pub open spec fn missing_disclosure_input(self) -> bool {
        self.vc_pairs@.len() == 0 && self.blind_sign_request is None && self.with_ppid
            != Some(true)
    }
}

/// Inputs of a selective-disclosure verification: the presentation,
/// the key graph to resolve issuer keys from, the context binding, and
/// the SNARK verifying keys for any embedded predicate proofs.
pub struct VerifyProofRequest {
    pub vp: String,
    pub key_graph: String,
    pub challenge: Option<String>,
    pub domain: Option<String>,
    pub snark_verifying_keys: Option<HashMap<String, String>>,
}

} // verus!
