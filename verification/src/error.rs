//! The ways in which an operation is rejected.

use vstd::prelude::*;
use solana_program::program_error::ProgramError;

verus! {

/// The error type of `solana_program`, with which a cross-program call
/// reports its failure. Its content is not inspected here.
#[verifier::external_type_specification]
#[verifier::external_body]
pub struct ExProgramError(ProgramError);

/// Why an operation was rejected. A rejected operation leaves the ledger as
/// it found it.
#[derive(Debug, PartialEq, Eq)]
pub enum StakePoolError {
    /// A record already lives at the address derived for the new record.
    AddressCollision,
    /// The signer is not the authority that the operation requires.
    AuthorizationFailure,
    /// A collaborating program reported an error, which is passed on as it came.
    CrossCallFailure(ProgramError),
    /// The record would not fit into the space reserved for it.
    CapacityExceeded,
    /// The ledger derives no address for the record's key.
    NoDerivedAddress,
}

/// The kind of a rejection, without what a collaborating program reported.
#[derive(Clone, Copy, Debug, PartialEq, Eq, Structural)]
pub enum ErrorKind {
    AddressCollision,
    AuthorizationFailure,
    CrossCallFailure,
    CapacityExceeded,
    NoDerivedAddress,
}

impl StakePoolError {
    pub open spec fn spec_kind(&self) -> ErrorKind {
        match *self {
            StakePoolError::AddressCollision => ErrorKind::AddressCollision,
            StakePoolError::AuthorizationFailure => ErrorKind::AuthorizationFailure,
            StakePoolError::CrossCallFailure(_) => ErrorKind::CrossCallFailure,
            StakePoolError::CapacityExceeded => ErrorKind::CapacityExceeded,
            StakePoolError::NoDerivedAddress => ErrorKind::NoDerivedAddress,
        }
    }

    /// The kind of this rejection.
    #[verifier::when_used_as_spec(spec_kind)]
    pub fn kind(&self) -> (k: ErrorKind)
        ensures
            k == self.spec_kind(),
    {
        match self {
            StakePoolError::AddressCollision => ErrorKind::AddressCollision,
            StakePoolError::AuthorizationFailure => ErrorKind::AuthorizationFailure,
            StakePoolError::CrossCallFailure(_) => ErrorKind::CrossCallFailure,
            StakePoolError::CapacityExceeded => ErrorKind::CapacityExceeded,
            StakePoolError::NoDerivedAddress => ErrorKind::NoDerivedAddress,
        }
    }
}

} // verus!
