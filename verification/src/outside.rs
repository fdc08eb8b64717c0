//! Declarations of outside types that flow through the error taxonomy.
//! Each is opaque to the verifier: the library only carries such a value
//! from the place it arose to the error variant that preserves it.

use vstd::prelude::*;

verus! {

/// Relies on bytes::Bytes: the raw body of a connector response, carried
/// unread into the error variant that preserves it for diagnostics.
#[verifier::external_type_specification]
#[verifier::external_body]
pub struct ExBytes(bytes::Bytes);

/// Relies on config::ConfigError: a configuration-loading failure produced
/// by the configuration collaborator, preserved as the payload of the
/// top-level configuration error variant.
#[verifier::external_type_specification]
#[verifier::external_body]
pub struct ExConfigError(config::ConfigError);

/// Relies on ring::error::Unspecified: the zero-information failure value
/// of the cryptography library, converted into the encryption error kind.
#[verifier::external_type_specification]
#[verifier::external_body]
pub struct ExRingUnspecified(ring::error::Unspecified);

/// Relies on std::io::Error: an I/O failure surfaced by a collaborator,
/// preserved as the payload of the top-level I/O error variant.
#[verifier::external_type_specification]
#[verifier::external_body]
pub struct ExIoError(std::io::Error);

} // verus!
