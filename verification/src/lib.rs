//! Provenance and recency checks for the current checkout of a
//! version-controlled data repository.
//!
//! The library inspects the repository's head revision (identifier, author,
//! summary line, commit time, optional detached signature together with the
//! exact bytes it covers), evaluates a staleness verdict against a caller
//! supplied threshold, and offers a destructive reset back to a known-good
//! revision. Actual cryptographic verification of the signature is left to
//! the caller; this crate only locates and exposes the signed bytes.

pub mod commit;
pub mod error;
pub mod git;
pub mod signature;

pub use commit::Commit;
pub use error::Error;
pub use signature::Signature;
