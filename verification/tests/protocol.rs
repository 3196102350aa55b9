use rdf_proofs_wasm::blind_sign_caller;
use rdf_proofs_wasm::blind_verify_caller;
use rdf_proofs_wasm::derive_proof_caller;
use rdf_proofs_wasm::key_gen_caller;
use rdf_proofs_wasm::request_blind_sign_caller;
use rdf_proofs_wasm::sign_caller;
use rdf_proofs_wasm::unblind;
use rdf_proofs_wasm::verify_blind_sign_request_caller;
use rdf_proofs_wasm::verify_caller;
use rdf_proofs_wasm::verify_proof_caller;
use rdf_proofs_wasm::DeriveProofRequest;
use rdf_proofs_wasm::DeriveProofVcPair;
use rdf_proofs_wasm::VerifyProofRequest;
use std::collections::HashMap;

fn key_graph_for(public_key: &str, secret_key: &str) -> String {
    format!(
        r#"
<did:example:issuer0> <https://w3id.org/security#verificationMethod> <did:example:issuer0#key1> .
<did:example:issuer0#key1> <http://www.w3.org/1999/02/22-rdf-syntax-ns#type> <https://w3id.org/security#Multikey> .
<did:example:issuer0#key1> <https://w3id.org/security#controller> <did:example:issuer0> .
<did:example:issuer0#key1> <https://w3id.org/security#secretKeyMultibase> "{secret_key}" .
<did:example:issuer0#key1> <https://w3id.org/security#publicKeyMultibase> "{public_key}" .
"#
    )
}

const PROOF_OPTIONS: &str = r#"
_:b0 <http://www.w3.org/1999/02/22-rdf-syntax-ns#type> <https://w3id.org/security#DataIntegrityProof> .
_:b0 <http://purl.org/dc/terms/created> "2023-02-09T09:35:07Z"^^<http://www.w3.org/2001/XMLSchema#dateTime> .
_:b0 <https://w3id.org/security#proofPurpose> <https://w3id.org/security#assertionMethod> .
_:b0 <https://w3id.org/security#verificationMethod> <did:example:issuer0#key1> .
"#;

const SIMPLE_DOCUMENT: &str = r#"
<http://example.org/subj> <http://example.org/pred> <http://example.org/obj> .
"#;

const VC_DOCUMENT: &str = r#"
<did:example:alice> <http://www.w3.org/1999/02/22-rdf-syntax-ns#type> <http://schema.org/Person> .
<did:example:alice> <http://schema.org/name> "Alice Doe" .
<did:example:alice> <http://schema.org/jobTitle> "Engineer" .
<http://example.org/cred/1> <http://www.w3.org/1999/02/22-rdf-syntax-ns#type> <https://www.w3.org/2018/credentials#VerifiableCredential> .
<http://example.org/cred/1> <https://www.w3.org/2018/credentials#credentialSubject> <did:example:alice> .
<http://example.org/cred/1> <https://www.w3.org/2018/credentials#issuer> <did:example:issuer0> .
<http://example.org/cred/1> <https://www.w3.org/2018/credentials#issuanceDate> "2022-01-01T00:00:00Z"^^<http://www.w3.org/2001/XMLSchema#dateTime> .
<http://example.org/cred/1> <https://www.w3.org/2018/credentials#expirationDate> "2026-01-01T00:00:00Z"^^<http://www.w3.org/2001/XMLSchema#dateTime> .
"#;

const DISCLOSED_VC_DOCUMENT: &str = r#"
_:e0 <http://www.w3.org/1999/02/22-rdf-syntax-ns#type> <http://schema.org/Person> .
_:e0 <http://schema.org/jobTitle> "Engineer" .
_:e1 <http://www.w3.org/1999/02/22-rdf-syntax-ns#type> <https://www.w3.org/2018/credentials#VerifiableCredential> .
_:e1 <https://www.w3.org/2018/credentials#credentialSubject> _:e0 .
_:e1 <https://www.w3.org/2018/credentials#issuer> <did:example:issuer0> .
_:e1 <https://www.w3.org/2018/credentials#issuanceDate> "2022-01-01T00:00:00Z"^^<http://www.w3.org/2001/XMLSchema#dateTime> .
_:e1 <https://www.w3.org/2018/credentials#expirationDate> "2026-01-01T00:00:00Z"^^<http://www.w3.org/2001/XMLSchema#dateTime> .
"#;

const DISCLOSED_VC_PROOF: &str = r#"
_:b0 <http://www.w3.org/1999/02/22-rdf-syntax-ns#type> <https://w3id.org/security#DataIntegrityProof> .
_:b0 <https://w3id.org/security#cryptosuite> "bbs-termwise-signature-2023" .
_:b0 <http://purl.org/dc/terms/created> "2023-02-09T09:35:07Z"^^<http://www.w3.org/2001/XMLSchema#dateTime> .
_:b0 <https://w3id.org/security#proofPurpose> <https://w3id.org/security#assertionMethod> .
_:b0 <https://w3id.org/security#verificationMethod> <did:example:issuer0#key1> .
"#;

fn fresh_key_graph() -> String {
    let key_pair = key_gen_caller().unwrap();
    key_graph_for(&key_pair.public_key, &key_pair.secret_key)
}

fn flip_char_at(s: &str, i: usize) -> String {
    let mut chars: Vec<char> = s.chars().collect();
    chars[i] = if chars[i] == 'A' { 'B' } else { 'A' };
    chars.into_iter().collect()
}

fn proof_value_offset(proof: &str) -> usize {
    let marker = "<https://w3id.org/security#proofValue> \"";
    proof.find(marker).unwrap() + marker.len()
}

fn empty_derive_request() -> DeriveProofRequest {
    DeriveProofRequest {
        vc_pairs: vec![],
        deanon_map: HashMap::new(),
        key_graph: String::new(),
        challenge: None,
        domain: None,
        secret: None,
        blind_sign_request: None,
        with_ppid: None,
        predicates: None,
        circuits: None,
    }
}

#[test]
fn sign_and_verify_round_trip() {
    let key_graph = fresh_key_graph();
    let proof = sign_caller(VC_DOCUMENT, PROOF_OPTIONS, &key_graph).unwrap();
    let result = verify_caller(VC_DOCUMENT, &proof, &key_graph);
    assert!(result.verified, "{:?}", result.error);
    assert_eq!(result.error, None);

    let other_issuer = verify_caller(VC_DOCUMENT, &proof, &fresh_key_graph());
    assert!(!other_issuer.verified);
    assert!(other_issuer.error.is_some());
}

#[test]
fn verify_rejects_signature_of_other_document() {
    let key_graph = fresh_key_graph();
    let proof = sign_caller(SIMPLE_DOCUMENT, PROOF_OPTIONS, &key_graph).unwrap();
    let result = verify_caller(VC_DOCUMENT, &proof, &key_graph);
    assert!(!result.verified);
    assert!(result.error.is_some());
}

#[test]
fn verify_detects_tampered_proof_value() {
    let key_graph = fresh_key_graph();
    let proof = sign_caller(SIMPLE_DOCUMENT, PROOF_OPTIONS, &key_graph).unwrap();
    let start = proof_value_offset(&proof);
    for delta in [1, 17, 41] {
        let tampered = flip_char_at(&proof, start + delta);
        let result = verify_caller(SIMPLE_DOCUMENT, &tampered, &key_graph);
        assert!(!result.verified);
        assert!(result.error.is_some());
    }
}

#[test]
fn end_to_end_scenario() {
    let key_pair = key_gen_caller().unwrap();
    let key_graph = key_graph_for(&key_pair.public_key, &key_pair.secret_key);
    let proof = sign_caller(SIMPLE_DOCUMENT, PROOF_OPTIONS, &key_graph).unwrap();
    let ok = verify_caller(SIMPLE_DOCUMENT, &proof, &key_graph);
    assert!(ok.verified);
    assert_eq!(ok.error, None);
    let tampered = flip_char_at(&proof, proof_value_offset(&proof) + 7);
    let bad = verify_caller(SIMPLE_DOCUMENT, &tampered, &key_graph);
    assert!(!bad.verified);
    assert!(bad.error.is_some());
}

#[test]
fn keygen_produces_distinct_pairs() {
    let first = key_gen_caller().unwrap();
    let second = key_gen_caller().unwrap();
    assert_ne!(first.secret_key, second.secret_key);
    assert_ne!(first.public_key, second.public_key);
}

#[test]
fn request_blind_sign_pok_presence() {
    let with_pok = request_blind_sign_caller(b"holder secret", None, None).unwrap();
    assert!(with_pok.pok_for_commitment.is_some());
    let skipped = request_blind_sign_caller(b"holder secret", None, Some(true)).unwrap();
    assert!(skipped.pok_for_commitment.is_none());
}

#[test]
fn blind_flow_equivalence() {
    let key_graph = fresh_key_graph();
    let secret = b"holder secret";
    let challenge = Some(String::from("issuance-nonce"));

    let request = request_blind_sign_caller(secret, challenge.clone(), None).unwrap();
    let checked = verify_blind_sign_request_caller(
        &request.commitment,
        request.pok_for_commitment.as_ref().unwrap(),
        challenge,
    );
    assert!(checked.verified, "{:?}", checked.error);

    let blinded_proof =
        blind_sign_caller(&request.commitment, VC_DOCUMENT, PROOF_OPTIONS, &key_graph).unwrap();
    let proof = unblind(VC_DOCUMENT, &blinded_proof, &request.blinding).unwrap();
    assert_ne!(proof, blinded_proof);

    let result = blind_verify_caller(secret, VC_DOCUMENT, &proof, &key_graph);
    assert!(result.verified, "{:?}", result.error);
    assert_eq!(result.error, None);
}

#[test]
fn blind_request_rejects_wrong_challenge() {
    let request =
        request_blind_sign_caller(b"holder secret", Some(String::from("right")), None).unwrap();
    let checked = verify_blind_sign_request_caller(
        &request.commitment,
        request.pok_for_commitment.as_ref().unwrap(),
        Some(String::from("wrong")),
    );
    assert!(!checked.verified);
    assert!(checked.error.is_some());
}

#[test]
fn unblind_rejects_mismatched_blinding() {
    let key_graph = fresh_key_graph();
    let secret = b"holder secret";

    let request = request_blind_sign_caller(secret, None, Some(true)).unwrap();
    let blinded_proof =
        blind_sign_caller(&request.commitment, VC_DOCUMENT, PROOF_OPTIONS, &key_graph).unwrap();

    assert!(unblind(VC_DOCUMENT, &blinded_proof, "not a blinding factor").is_err());

    let other = request_blind_sign_caller(secret, None, Some(true)).unwrap();
    let wrongly_unblinded = unblind(VC_DOCUMENT, &blinded_proof, &other.blinding).unwrap();
    let result = blind_verify_caller(secret, VC_DOCUMENT, &wrongly_unblinded, &key_graph);
    assert!(!result.verified);
    assert!(result.error.is_some());
}

#[test]
fn selective_disclosure_round_trip() {
    let key_graph = fresh_key_graph();
    let proof = sign_caller(VC_DOCUMENT, PROOF_OPTIONS, &key_graph).unwrap();

    let mut deanon_map = HashMap::new();
    deanon_map.insert(String::from("_:e0"), String::from("<did:example:alice>"));
    deanon_map.insert(String::from("_:e1"), String::from("<http://example.org/cred/1>"));

    let mut request = empty_derive_request();
    request.vc_pairs = vec![DeriveProofVcPair {
        original_document: String::from(VC_DOCUMENT),
        original_proof: proof,
        disclosed_document: String::from(DISCLOSED_VC_DOCUMENT),
        disclosed_proof: String::from(DISCLOSED_VC_PROOF),
    }];
    request.deanon_map = deanon_map;
    request.key_graph = key_graph.clone();
    request.challenge = Some(String::from("abcde"));
    let vp = derive_proof_caller(&request).unwrap();

    assert!(!vp.contains("Alice Doe"));
    assert!(!vp.contains("did:example:alice"));

    let ok = verify_proof_caller(&VerifyProofRequest {
        vp: vp.clone(),
        key_graph: key_graph.clone(),
        challenge: Some(String::from("abcde")),
        domain: None,
        snark_verifying_keys: None,
    });
    assert!(ok.verified, "{:?}", ok.error);

    let wrong_challenge = verify_proof_caller(&VerifyProofRequest {
        vp: vp.clone(),
        key_graph: key_graph.clone(),
        challenge: Some(String::from("edcba")),
        domain: None,
        snark_verifying_keys: None,
    });
    assert!(!wrong_challenge.verified);
    assert!(wrong_challenge.error.is_some());

    let wrong_domain = verify_proof_caller(&VerifyProofRequest {
        vp,
        key_graph,
        challenge: Some(String::from("abcde")),
        domain: Some(String::from("example.org")),
        snark_verifying_keys: None,
    });
    assert!(!wrong_domain.verified);
    assert!(wrong_domain.error.is_some());
}

#[test]
fn derive_rejects_predicates_without_circuits() {
    let mut request = empty_derive_request();
    request.predicates = vec![String::from("_:p <http://example.org/x> _:q .")].into();
    let result = derive_proof_caller(&request);
    assert!(result.is_err());
    assert!(result.unwrap_err().contains("circuits"));
}

#[test]
fn derive_rejects_ppid_without_secret_or_domain() {
    let mut request = empty_derive_request();
    request.with_ppid = Some(true);
    request.domain = Some(String::from("example.org"));
    let no_secret = derive_proof_caller(&request);
    assert!(no_secret.is_err());

    let mut request = empty_derive_request();
    request.with_ppid = Some(true);
    request.secret = Some(b"holder secret".to_vec());
    let no_domain = derive_proof_caller(&request);
    assert!(no_domain.is_err());
}

#[test]
fn derive_rejects_empty_input() {
    let result = derive_proof_caller(&empty_derive_request());
    assert!(result.is_err());
    assert!(result.unwrap_err().contains("nothing to present"));
}

#[test]
fn derive_rejects_empty_document_credential() {
    let key_graph = fresh_key_graph();
    let empty_doc = "";
    let proof = sign_caller(empty_doc, PROOF_OPTIONS, &key_graph).unwrap();
    let ok = verify_caller(empty_doc, &proof, &key_graph);
    assert!(ok.verified, "{:?}", ok.error);

    let mut request = empty_derive_request();
    request.vc_pairs = vec![DeriveProofVcPair {
        original_document: String::from(empty_doc),
        original_proof: proof,
        disclosed_document: String::from(empty_doc),
        disclosed_proof: String::from(DISCLOSED_VC_PROOF),
    }];
    request.key_graph = key_graph;
    let result = derive_proof_caller(&request);
    assert!(result.is_err());
    assert!(result.unwrap_err().contains("at least one statement"));
}

#[test]
fn derive_rejects_unparseable_credential_graph() {
    let mut request = empty_derive_request();
    request.vc_pairs = vec![DeriveProofVcPair {
        original_document: String::from("this is not a document"),
        original_proof: String::from(PROOF_OPTIONS),
        disclosed_document: String::from(DISCLOSED_VC_DOCUMENT),
        disclosed_proof: String::from(DISCLOSED_VC_PROOF),
    }];
    let result = derive_proof_caller(&request);
    assert!(result.is_err());
    assert!(result.unwrap_err().contains("at least one statement"));
}

#[test]
fn sign_rejects_malformed_document() {
    let key_graph = fresh_key_graph();
    let result = sign_caller("this is not a document", PROOF_OPTIONS, &key_graph);
    assert!(result.is_err());
}

#[test]
fn verify_proof_rejects_garbage() {
    let result = verify_proof_caller(&VerifyProofRequest {
        vp: String::from("this is not a presentation"),
        key_graph: String::new(),
        challenge: None,
        domain: None,
        snark_verifying_keys: None,
    });
    assert!(!result.verified);
    assert!(result.error.is_some());
}
