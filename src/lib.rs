//! Attestation session of a Nitro Security Module: measurement registers
//! that can only be extended, one-way register locks, a small certificate
//! store and the digest that binds them into an attestation document.

pub mod digest;
pub mod entropy;
pub mod error;
pub mod hex;
pub mod laws;
pub mod session;

pub use error::NsmError;
pub use session::{AttestationDocument, ModuleDescription, NsmSession, PcrDescription};
