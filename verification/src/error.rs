//! Why a transition was refused.

use vstd::prelude::*;

verus! {

/// What the token service reported when it refused an instruction.
#[derive(Clone, Copy, Debug, PartialEq, Eq, Structural)]
pub struct TokenFailure {
    pub code: u32,
}

/// The reasons for which a transition aborts. Every one of them leaves the
/// ledger as it was.
#[derive(Clone, Copy, Debug, PartialEq, Eq, Structural)]
pub enum CarbonCreditError {
    /// The project's name has more than `MAX_NAME_LEN` characters.
    NameTooLong,
    /// The project's description has more than `MAX_DESCRIPTION_LEN` characters.
    DescriptionTooLong,
    /// The project's location has more than `MAX_LOCATION_LEN` characters.
    LocationTooLong,
    /// Credits were to be issued against a project that is not verified.
    ProjectNotVerified,
    /// The project to verify is not pending.
    ProjectAlreadyVerified,
    /// The issuance would take the project past its estimate.
    ExceedsEstimatedCredits,
    /// More was to be retired than the batch has left.
    InsufficientCredits,
    /// The caller is not the program's authority.
    Unauthorized,
    /// A project with this id is already registered.
    DuplicateProject,
    /// This identity has already retired credits of this batch.
    DuplicateRetirement,
    /// The program state exists already.
    AlreadyInitialized,
    /// A batch is already recorded under the id that the new one would get.
    DuplicateBatch,
    /// No record is stored under a key that the transition names.
    NotFound,
    /// The token service refused; its answer is handed on as it came.
    TokenService(TokenFailure),
}

} // verus!
