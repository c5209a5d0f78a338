//! What the ledger asks of the token service, and what it makes of the answer.

use vstd::prelude::*;
use crate::error::{CarbonCreditError, TokenFailure};
use crate::identity::Identity;

verus! {

/// One request to the token service. The ledger never looks at balances: it
/// names the instruction and is told whether it went through.
#[derive(Clone, Copy, Debug, PartialEq, Eq)]
pub enum TokenInstruction {
    /// Mint `amount` units into the account `to`, signed by `authority`.
    MintTo { authority: Identity, to: Identity, amount: u64 },
    /// Burn `amount` units held in the account `from`, signed by `authority`.
    Burn { authority: Identity, from: Identity, amount: u64 },
    /// Move `amount` units from the account `from` to the account `to`,
    /// signed by `authority`.
    Transfer { authority: Identity, from: Identity, to: Identity, amount: u64 },
}

/// The result of a transition whose checks have all passed, given the token
/// service's answer: its refusal is handed on unchanged.
pub open spec fn settled(answer: Result<(), TokenFailure>) -> Result<(), CarbonCreditError> {
    match answer {
        Ok(_) => Ok(()),
        Err(failure) => Err(CarbonCreditError::TokenService(failure)),
    }
}

/// Turns the token service's answer into the transition's result.
pub fn settle(answer: Result<(), TokenFailure>) -> (r: Result<(), CarbonCreditError>)
    ensures
        r == settled(answer),
{
    match answer {
        Ok(_) => Ok(()),
        Err(failure) => Err(CarbonCreditError::TokenService(failure)),
    }
}

} // verus!
