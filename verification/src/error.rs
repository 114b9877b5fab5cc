//! The ways in which the operations of this crate fail.

use vstd::prelude::*;

verus! {

/// A quote, or the collateral it came with, did not verify at the reference
/// time, or the verified report is not TD report 1.0 data.
#[derive(Clone, Copy, Debug, PartialEq, Eq, Structural)]
pub struct VerificationError;

/// The identity embedded in a report is not the identity of the caller.
#[derive(Clone, Copy, Debug, PartialEq, Eq, Structural)]
pub struct IdentityMismatch;

/// An owner-only operation was attempted by somebody else.
#[derive(Clone, Copy, Debug, PartialEq, Eq, Structural)]
pub struct PermissionDenied;

/// No worker is recorded for the identity asked about.
#[derive(Clone, Copy, Debug, PartialEq, Eq, Structural)]
pub struct NotFound;

/// A measurement could not be mapped to the two code identities it must
/// stand for.
#[derive(Clone, Copy, Debug, PartialEq, Eq, Structural)]
pub enum ResolutionError {
    /// The descriptor has no event for the API image under the measurement.
    ApiImageMissing,
    /// The event for the API image names an empty code identity.
    ApiImageMalformed,
    /// The descriptor has no event for the application image under the
    /// measurement.
    AppImageMissing,
    /// The event for the application image names an empty code identity.
    AppImageMalformed,
}

/// Why a registration was refused. The variants are in the order in which
/// the checks are made; the first check that fails decides.
#[derive(Clone, Copy, Debug, PartialEq, Eq, Structural)]
pub enum RegistrationError {
    /// The quote is not well-formed hex.
    BadEncoding,
    /// The quote did not verify.
    Verification(VerificationError),
    /// The verified report is bound to another identity.
    IdentityMismatch(IdentityMismatch),
    /// The measurement did not resolve to two code identities.
    Resolution(ResolutionError),
    /// One of the two code identities is not on the allow-list.
    UnauthorizedCode,
}

/// Why the authorization gate turned a caller away.
#[derive(Clone, Copy, Debug, PartialEq, Eq, Structural)]
pub enum AuthorizationError {
    /// The caller has no worker record.
    NotRegistered,
    /// The caller's recorded code identity is no longer on the allow-list.
    CodeRevoked,
}

} // verus!
