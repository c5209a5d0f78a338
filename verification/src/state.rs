//! The records that the ledger keeps.

use vstd::prelude::*;
use crate::identity::Identity;

verus! {

/// The most characters a project's name may have.
pub const MAX_NAME_LEN: usize = 50;

/// The most characters a project's description may have.
pub const MAX_DESCRIPTION_LEN: usize = 200;

/// The most characters a project's location may have.
pub const MAX_LOCATION_LEN: usize = 100;

/// The most characters the name of a verification standard may have.
pub const MAX_STANDARD_LEN: usize = 50;

/// The most characters a batch's metadata URI may have.
pub const MAX_URI_LEN: usize = 200;

/// The most characters the reason of a retirement may have.
pub const MAX_REASON_LEN: usize = 200;

/// What kind of offset a project produces.
#[derive(Clone, Copy, Debug, PartialEq, Eq, Structural)]
pub enum ProjectType {
    Reforestation,
    RenewableEnergy,
    EnergyEfficiency,
    WasteManagement,
    CarbonCapture,
    Other,
}

/// Where a project stands. A project starts `Pending` and becomes `Verified`;
/// no transition leads into or out of `Suspended`.
#[derive(Clone, Copy, Debug, PartialEq, Eq, Structural)]
pub enum ProjectStatus {
    Pending,
    Verified,
    Suspended,
}

/// The one record of the whole program.
#[derive(Clone, Copy, Debug, PartialEq, Eq)]
pub struct ProgramState {
    /// The only identity that may verify projects and issue credits.
    pub authority: Identity,
    /// Credits issued so far; also the id that the next batch gets.
    pub total_credits_issued: u64,
    /// Credits retired so far.
    pub total_credits_retired: u64,
    /// Projects registered so far.
    pub project_count: u64,
}

impl ProgramState {
    /// The state right after initialisation by `authority`.
    pub open spec fn initial(authority: Identity) -> ProgramState {
        ProgramState {
            authority,
            total_credits_issued: 0,
            total_credits_retired: 0,
            project_count: 0,
        }
    }

    /// No more has been retired than was issued.
    pub open spec fn wf(self) -> bool {
        self.total_credits_retired <= self.total_credits_issued
    }
}

/// A registered project.
#[derive(Debug, PartialEq, Eq)]
pub struct Project {
    pub project_id: u64,
    pub name: String,
    pub description: String,
    pub location: String,
    pub project_type: ProjectType,
    pub verification_standard: String,
    /// The cap on what may ever be issued against the project.
    pub estimated_credits: u64,
    pub issued_credits: u64,
    pub retired_credits: u64,
    pub owner: Identity,
    pub status: ProjectStatus,
    pub created_at: i64,
    /// 0 until the project is verified.
    pub verified_at: i64,
}

impl Project {
    /// The texts are within their bounds, issuance is within the estimate,
    /// and a pending project has no verification time.
    pub open spec fn wf(self) -> bool {
        &&& self.name@.len() <= MAX_NAME_LEN
        &&& self.description@.len() <= MAX_DESCRIPTION_LEN
        &&& self.location@.len() <= MAX_LOCATION_LEN
        &&& self.verification_standard@.len() <= MAX_STANDARD_LEN
        &&& self.issued_credits <= self.estimated_credits
        &&& (self.status == ProjectStatus::Pending ==> self.verified_at == 0)
    }
}

impl Clone for Project {
    fn clone(&self) -> (copy: Self)
        ensures
            copy == *self,
    {
        Project {
            project_id: self.project_id,
            name: self.name.clone(),
            description: self.description.clone(),
            location: self.location.clone(),
            project_type: self.project_type,
            verification_standard: self.verification_standard.clone(),
            estimated_credits: self.estimated_credits,
            issued_credits: self.issued_credits,
            retired_credits: self.retired_credits,
            owner: self.owner,
            status: self.status,
            created_at: self.created_at,
            verified_at: self.verified_at,
        }
    }
}

/// The credits minted in one issuance.
#[derive(Debug, PartialEq, Eq)]
pub struct CreditBatch {
    /// The project the credits were issued against.
    pub project_id: u64,
    /// The number of credits issued before this batch.
    pub batch_id: u64,
    pub amount: u64,
    pub vintage_year: u16,
    pub metadata_uri: String,
    pub issued_at: i64,
    pub retired_amount: u64,
    /// Who received the credits at issuance. Transfers do not change it.
    pub owner: Identity,
}

impl CreditBatch {
    /// No more is retired than the batch holds, and the URI is within its
    /// bound.
    pub open spec fn wf(self) -> bool {
        &&& self.retired_amount <= self.amount
        &&& self.metadata_uri@.len() <= MAX_URI_LEN
    }

    /// What is left to retire.
    pub open spec fn remaining(self) -> int {
        self.amount - self.retired_amount
    }
}

impl Clone for CreditBatch {
    fn clone(&self) -> (copy: Self)
        ensures
            copy == *self,
    {
        CreditBatch {
            project_id: self.project_id,
            batch_id: self.batch_id,
            amount: self.amount,
            vintage_year: self.vintage_year,
            metadata_uri: self.metadata_uri.clone(),
            issued_at: self.issued_at,
            retired_amount: self.retired_amount,
            owner: self.owner,
        }
    }
}

/// The record of one identity's retirement of credits of one batch.
#[derive(Debug, PartialEq, Eq)]
pub struct Retirement {
    pub batch_id: u64,
    pub amount: u64,
    pub reason: String,
    pub retired_by: Identity,
    pub retired_at: i64,
}

impl Retirement {
    /// The reason is within its bound.
    pub open spec fn wf(self) -> bool {
        self.reason@.len() <= MAX_REASON_LEN
    }
}

impl Clone for Retirement {
    fn clone(&self) -> (copy: Self)
        ensures
            copy == *self,
    {
        Retirement {
            batch_id: self.batch_id,
            amount: self.amount,
            reason: self.reason.clone(),
            retired_by: self.retired_by,
            retired_at: self.retired_at,
        }
    }
}

} // verus!
