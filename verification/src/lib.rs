//! Orchestration layer of a privacy-preserving verifiable-credential
//! protocol: issuance of BBS+ signatures over RDF-graph documents, a
//! blind-signing handshake, and selective-disclosure proof derivation
//! and verification, all delegated to the `rdf_proofs` crate through a
//! small set of trusted wrappers while the surrounding orchestration is
//! verified.

mod blind;
mod disclosure;
mod primitives;
mod signing;
mod types;

pub use blind::blind_sign_caller;
pub use blind::blind_verify_caller;
pub use blind::request_blind_sign_caller;
pub use blind::unblind;
pub use blind::verify_blind_sign_request_caller;
pub use disclosure::derive_proof_caller;
pub use disclosure::verify_proof_caller;
pub use primitives::get_seeded_rng;
pub use signing::key_gen_caller;
pub use signing::sign_caller;
pub use signing::verify_caller;
pub use types::BlindSignRequest;
pub use types::Circuit;
pub use types::DeriveProofPredicate;
pub use types::DeriveProofRequest;
pub use types::DeriveProofVcPair;
pub use types::KeyPair;
pub use types::VerifyProofRequest;
pub use types::VerifyResult;
