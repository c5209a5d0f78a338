//! The ledger as a mathematical value: which records it holds, what makes it
//! consistent, and what each transition does to it.

use vstd::prelude::*;
use crate::error::{CarbonCreditError, TokenFailure};
use crate::identity::Identity;
use crate::instructions::{CreateProject, IssueCredits, RetireCredits, VerifyProject};
use crate::state::{
    CreditBatch, ProgramState, Project, ProjectType, Retirement, MAX_REASON_LEN,
    MAX_STANDARD_LEN, MAX_URI_LEN,
};
use crate::sums::{issued_before, issued_for, issued_total, retired_for, retired_total};

verus! {

/// Every record of a ledger: the program state once it is initialised, the
/// projects in the order of their registration, the batches in the order of
/// their issuance, and the retirements in the order in which they were made.
pub struct LedgerView {
    pub program_state: Option<ProgramState>,
    pub projects: Seq<Project>,
    pub batches: Seq<CreditBatch>,
    pub retirements: Seq<Retirement>,
}

impl LedgerView {
    /// The ledger before its initialisation.
    pub open spec fn empty() -> LedgerView {
        LedgerView {
            program_state: None,
            projects: Seq::empty(),
            batches: Seq::empty(),
            retirements: Seq::empty(),
        }
    }

    /// Whether a project is registered under `project_id`.
    pub open spec fn has_project(self, project_id: u64) -> bool {
        exists|i: int|
            0 <= i < self.projects.len() && #[trigger] self.projects[i].project_id == project_id
    }

    /// Where the project with `project_id` stands among the projects.
    pub open spec fn project_index(self, project_id: u64) -> int {
        choose|i: int|
            0 <= i < self.projects.len() && #[trigger] self.projects[i].project_id == project_id
    }

    /// The project registered under `project_id`, if any.
    pub open spec fn project(self, project_id: u64) -> Option<Project> {
        if self.has_project(project_id) {
            Some(self.projects[self.project_index(project_id)])
        } else {
            None
        }
    }

    /// Whether a batch is recorded under `batch_id`.
    pub open spec fn has_batch(self, batch_id: u64) -> bool {
        exists|k: int|
            0 <= k < self.batches.len() && #[trigger] self.batches[k].batch_id == batch_id
    }

    /// Where the batch with `batch_id` stands among the batches.
    pub open spec fn batch_index(self, batch_id: u64) -> int {
        choose|k: int|
            0 <= k < self.batches.len() && #[trigger] self.batches[k].batch_id == batch_id
    }

    /// The batch recorded under `batch_id`, if any.
    pub open spec fn batch(self, batch_id: u64) -> Option<CreditBatch> {
        if self.has_batch(batch_id) {
            Some(self.batches[self.batch_index(batch_id)])
        } else {
            None
        }
    }

    /// Whether `by` has retired credits of the batch `batch_id`.
    pub open spec fn has_retirement(self, batch_id: u64, by: Identity) -> bool {
        exists|n: int|
            0 <= n < self.retirements.len() && (#[trigger] self.retirements[n]).batch_id
                == batch_id && self.retirements[n].retired_by == by
    }

    /// Where the retirement of credits of the batch `batch_id` by `by` stands
    /// among the retirements.
    pub open spec fn retirement_index(self, batch_id: u64, by: Identity) -> int {
        choose|n: int|
            0 <= n < self.retirements.len() && (#[trigger] self.retirements[n]).batch_id
                == batch_id && self.retirements[n].retired_by == by
    }

    /// The retirement of credits of the batch `batch_id` by `by`, if any.
    pub open spec fn retirement(self, batch_id: u64, by: Identity) -> Option<Retirement> {
        if self.has_retirement(batch_id, by) {
            Some(self.retirements[self.retirement_index(batch_id, by)])
        } else {
            None
        }
    }

    /// Before the initialisation there are no records at all. After it, the
    /// program state counts the projects and sums the batches.
    pub open spec fn counters_match(self) -> bool {
        match self.program_state {
            None => self.projects.len() == 0 && self.batches.len() == 0 && self.retirements.len()
                == 0,
            Some(state) => {
                &&& state.project_count == self.projects.len()
                &&& state.total_credits_issued == issued_total(self.batches)
                &&& state.total_credits_retired == retired_total(self.batches)
            },
        }
    }

    /// Every project is well formed, and its running totals are the sums over
    /// its batches.
    pub open spec fn projects_sound(self) -> bool {
        forall|i: int|
            0 <= i < self.projects.len() ==> {
                let p = #[trigger] self.projects[i];
                &&& p.wf()
                &&& p.issued_credits == issued_for(self.batches, p.project_id)
                &&& p.retired_credits == retired_for(self.batches, p.project_id)
            }
    }

    /// No two projects share an id.
    pub open spec fn project_ids_distinct(self) -> bool {
        forall|i: int, j: int|
            0 <= i < j < self.projects.len() ==> (#[trigger] self.projects[i]).project_id != (
            #[trigger] self.projects[j]).project_id
    }

    /// Every batch is well formed and belongs to a registered project. Its id
    /// is the number of credits issued before it, and with the batch's own
    /// credits it stays within the credits issued in all.
    pub open spec fn batches_sound(self) -> bool {
        forall|k: int|
            0 <= k < self.batches.len() ==> {
                let b = #[trigger] self.batches[k];
                &&& b.wf()
                &&& self.has_project(b.project_id)
                &&& b.batch_id == issued_before(self.batches, k)
                &&& b.batch_id + b.amount <= issued_total(self.batches)
            }
    }

    /// Batch ids grow with the order of issuance, so no two batches share one.
    pub open spec fn batch_ids_increase(self) -> bool {
        forall|k: int, l: int|
            0 <= k < l < self.batches.len() ==> (#[trigger] self.batches[k]).batch_id < (
            #[trigger] self.batches[l]).batch_id
    }

    /// Every retirement is well formed and names a recorded batch.
    pub open spec fn retirements_sound(self) -> bool {
        forall|n: int|
            0 <= n < self.retirements.len() ==> {
                let r = #[trigger] self.retirements[n];
                &&& r.wf()
                &&& self.has_batch(r.batch_id)
            }
    }

    /// No identity has two retirements of one batch.
    pub open spec fn retirements_distinct(self) -> bool {
        forall|m: int, n: int|
            0 <= m < n < self.retirements.len() ==> !((#[trigger] self.retirements[m]).batch_id
                == (#[trigger] self.retirements[n]).batch_id && self.retirements[m].retired_by
                == self.retirements[n].retired_by)
    }

    /// What holds of the ledger after every transition.
    pub open spec fn inv(self) -> bool {
        &&& self.counters_match()
        &&& self.projects_sound()
        &&& self.project_ids_distinct()
        &&& self.batches_sound()
        &&& self.batch_ids_increase()
        &&& self.retirements_sound()
        &&& self.retirements_distinct()
    }

    /// How an initialisation ends.
    pub open spec fn initialize_outcome(self) -> Result<(), CarbonCreditError> {
        if self.program_state is Some {
            Err(CarbonCreditError::AlreadyInitialized)
        } else {
            Ok(())
        }
    }

    /// The ledger after its initialisation by `caller`.
    pub open spec fn after_initialize(self, caller: Identity) -> LedgerView {
        LedgerView { program_state: Some(ProgramState::initial(caller)), ..self }
    }

    /// The records of a registration under `project_id` by `caller`.
    pub open spec fn create_project_context(self, caller: Identity, project_id: u64) -> CreateProject
        recommends
            self.program_state is Some,
    {
        CreateProject {
            project: self.project(project_id),
            program_state: self.program_state.unwrap(),
            project_owner: caller,
        }
    }

    /// How a registration ends.
    pub open spec fn create_project_outcome(
        self,
        caller: Identity,
        project_id: u64,
        name: Seq<char>,
        description: Seq<char>,
        location: Seq<char>,
    ) -> Result<(), CarbonCreditError> {
        if self.program_state is None {
            Err(CarbonCreditError::NotFound)
        } else {
            self.create_project_context(caller, project_id).checked(name, description, location)
        }
    }

    /// The ledger after a successful registration.
    pub open spec fn after_create_project(
        self,
        caller: Identity,
        project_id: u64,
        name: String,
        description: String,
        location: String,
        project_type: ProjectType,
        verification_standard: String,
        estimated_credits: u64,
        now: i64,
    ) -> LedgerView {
        let ctx = self.create_project_context(caller, project_id);
        let done = ctx.created(
            ctx.new_project(
                project_id,
                name,
                description,
                location,
                project_type,
                verification_standard,
                estimated_credits,
                now,
            ),
        );
        LedgerView {
            program_state: Some(done.program_state),
            projects: self.projects.push(done.project.unwrap()),
            ..self
        }
    }

    /// The records of a verification of the project `project_id` by `caller`.
    pub open spec fn verify_project_context(self, caller: Identity, project_id: u64) -> VerifyProject
        recommends
            self.program_state is Some,
            self.has_project(project_id),
    {
        VerifyProject {
            project: self.project(project_id).unwrap(),
            authority: caller,
            program_state: self.program_state.unwrap(),
        }
    }

    /// How a verification ends.
    pub open spec fn verify_project_outcome(self, caller: Identity, project_id: u64) -> Result<
        (),
        CarbonCreditError,
    > {
        if self.program_state is None || !self.has_project(project_id) {
            Err(CarbonCreditError::NotFound)
        } else {
            self.verify_project_context(caller, project_id).checked()
        }
    }

    /// The ledger after a successful verification.
    pub open spec fn after_verify_project(self, caller: Identity, project_id: u64, now: i64) -> LedgerView {
        let done = self.verify_project_context(caller, project_id).verified(now);
        LedgerView {
            projects: self.projects.update(self.project_index(project_id), done.project),
            ..self
        }
    }

    /// The records of an issuance against the project `project_id` by
    /// `caller`, with the accounts that the mint instruction names.
    pub open spec fn issue_credits_context(
        self,
        caller: Identity,
        project_id: u64,
        recipient: Identity,
        mint_authority: Identity,
        recipient_token_account: Identity,
    ) -> IssueCredits
        recommends
            self.program_state is Some,
            self.has_project(project_id),
    {
        IssueCredits {
            project: self.project(project_id).unwrap(),
            credit_batch: self.batch(self.program_state.unwrap().total_credits_issued),
            program_state: self.program_state.unwrap(),
            recipient_token_account,
            mint_authority,
            recipient,
            authority: caller,
        }
    }

    /// What an issuance is checked for before the token service is asked.
    pub open spec fn issue_credits_checked(self, caller: Identity, project_id: u64, amount: u64) -> Result<
        (),
        CarbonCreditError,
    > {
        if self.program_state is None || !self.has_project(project_id) {
            Err(CarbonCreditError::NotFound)
        } else {
            self.issue_credits_context(caller, project_id, caller, caller, caller).checked(
                amount,
            )
        }
    }

    /// How an issuance ends, given the token service's answer: with the new
    /// batch's id, or with the reason for which it was refused.
    pub open spec fn issue_credits_outcome(
        self,
        caller: Identity,
        project_id: u64,
        amount: u64,
        minted: Result<(), TokenFailure>,
    ) -> Result<u64, CarbonCreditError> {
        match self.issue_credits_checked(caller, project_id, amount) {
            Err(e) => Err(e),
            Ok(_) => match minted {
                Err(failure) => Err(CarbonCreditError::TokenService(failure)),
                Ok(_) => Ok(self.program_state.unwrap().total_credits_issued),
            },
        }
    }

    /// The ledger after a successful issuance.
    pub open spec fn after_issue_credits(
        self,
        caller: Identity,
        project_id: u64,
        amount: u64,
        vintage_year: u16,
        metadata_uri: String,
        recipient: Identity,
        now: i64,
    ) -> LedgerView {
        let done = self.issue_credits_context(caller, project_id, recipient, caller, recipient).issued(
            amount,
            vintage_year,
            metadata_uri,
            now,
        );
        LedgerView {
            program_state: Some(done.program_state),
            projects: self.projects.update(self.project_index(project_id), done.project),
            batches: self.batches.push(done.credit_batch.unwrap()),
            ..self
        }
    }

    /// The records of a retirement of credits of the batch `batch_id` by
    /// `caller`, with the account that the burn instruction names.
    pub open spec fn retire_credits_context(
        self,
        caller: Identity,
        batch_id: u64,
        user_token_account: Identity,
    ) -> RetireCredits
        recommends
            self.program_state is Some,
            self.has_batch(batch_id),
            self.has_project(self.batch(batch_id).unwrap().project_id),
    {
        let batch = self.batch(batch_id).unwrap();
        RetireCredits {
            credit_batch: batch,
            project: self.project(batch.project_id).unwrap(),
            program_state: self.program_state.unwrap(),
            retirement: self.retirement(batch_id, caller),
            user_token_account,
            user: caller,
        }
    }

    /// What a retirement is checked for before the token service is asked.
    pub open spec fn retire_credits_checked(self, caller: Identity, batch_id: u64, amount: u64) -> Result<
        (),
        CarbonCreditError,
    > {
        if self.program_state is None || !self.has_batch(batch_id) || !self.has_project(
            self.batch(batch_id).unwrap().project_id,
        ) {
            Err(CarbonCreditError::NotFound)
        } else {
            self.retire_credits_context(caller, batch_id, caller).checked(amount)
        }
    }

    /// How a retirement ends, given the token service's answer.
    pub open spec fn retire_credits_outcome(
        self,
        caller: Identity,
        batch_id: u64,
        amount: u64,
        burned: Result<(), TokenFailure>,
    ) -> Result<(), CarbonCreditError> {
        match self.retire_credits_checked(caller, batch_id, amount) {
            Err(e) => Err(e),
            Ok(_) => crate::token::settled(burned),
        }
    }

    /// The ledger after a successful retirement.
    pub open spec fn after_retire_credits(
        self,
        caller: Identity,
        batch_id: u64,
        amount: u64,
        reason: String,
        now: i64,
    ) -> LedgerView {
        let ctx = self.retire_credits_context(caller, batch_id, caller);
        let done = ctx.retired(amount, reason, now);
        LedgerView {
            program_state: Some(done.program_state),
            projects: self.projects.update(
                self.project_index(ctx.credit_batch.project_id),
                done.project,
            ),
            batches: self.batches.update(self.batch_index(batch_id), done.credit_batch),
            retirements: self.retirements.push(done.retirement.unwrap()),
        }
    }
}

/// One call of a transition, with its arguments, the time it is made at and,
/// where the token service is asked, the service's answer.
pub enum Transition {
    Initialize { caller: Identity },
    CreateProject {
        caller: Identity,
        project_id: u64,
        name: String,
        description: String,
        location: String,
        project_type: ProjectType,
        verification_standard: String,
        estimated_credits: u64,
        now: i64,
    },
    VerifyProject { caller: Identity, project_id: u64, now: i64 },
    IssueCredits {
        caller: Identity,
        project_id: u64,
        amount: u64,
        vintage_year: u16,
        metadata_uri: String,
        recipient: Identity,
        now: i64,
        minted: Result<(), TokenFailure>,
    },
    RetireCredits {
        caller: Identity,
        batch_id: u64,
        amount: u64,
        reason: String,
        now: i64,
        burned: Result<(), TokenFailure>,
    },
    TransferCredits {
        caller: Identity,
        from_account: Identity,
        to_account: Identity,
        amount: u64,
        transferred: Result<(), TokenFailure>,
    },
}

impl Transition {
    /// The texts that no check looks at are within their bounds.
    pub open spec fn admissible(self) -> bool {
        match self {
            Transition::CreateProject { verification_standard, .. } => verification_standard@.len()
                <= MAX_STANDARD_LEN,
            Transition::IssueCredits { metadata_uri, .. } => metadata_uri@.len() <= MAX_URI_LEN,
            Transition::RetireCredits { reason, .. } => reason@.len() <= MAX_REASON_LEN,
            _ => true,
        }
    }
}

impl LedgerView {
    /// Whether the transition goes through.
    pub open spec fn accepts(self, t: Transition) -> bool {
        match t {
            Transition::Initialize { .. } => self.initialize_outcome() is Ok,
            Transition::CreateProject { caller, project_id, name, description, location, .. } =>
                self.create_project_outcome(caller, project_id, name@, description@, location@)
                    is Ok,
            Transition::VerifyProject { caller, project_id, .. } => self.verify_project_outcome(
                caller,
                project_id,
            ) is Ok,
            Transition::IssueCredits { caller, project_id, amount, minted, .. } =>
                self.issue_credits_outcome(caller, project_id, amount, minted) is Ok,
            Transition::RetireCredits { caller, batch_id, amount, burned, .. } =>
                self.retire_credits_outcome(caller, batch_id, amount, burned) is Ok,
            Transition::TransferCredits { transferred, .. } => transferred is Ok,
        }
    }

    /// The ledger after the transition: changed where the transition goes
    /// through, and as it was where it is refused.
    pub open spec fn apply(self, t: Transition) -> LedgerView {
        if !self.accepts(t) {
            self
        } else {
            match t {
                Transition::Initialize { caller } => self.after_initialize(caller),
                Transition::CreateProject {
                    caller,
                    project_id,
                    name,
                    description,
                    location,
                    project_type,
                    verification_standard,
                    estimated_credits,
                    now,
                } => self.after_create_project(
                    caller,
                    project_id,
                    name,
                    description,
                    location,
                    project_type,
                    verification_standard,
                    estimated_credits,
                    now,
                ),
                Transition::VerifyProject { caller, project_id, now } => self.after_verify_project(
                    caller,
                    project_id,
                    now,
                ),
                Transition::IssueCredits {
                    caller,
                    project_id,
                    amount,
                    vintage_year,
                    metadata_uri,
                    recipient,
                    now,
                    ..
                } => self.after_issue_credits(
                    caller,
                    project_id,
                    amount,
                    vintage_year,
                    metadata_uri,
                    recipient,
                    now,
                ),
                Transition::RetireCredits { caller, batch_id, amount, reason, now, .. } =>
                    self.after_retire_credits(caller, batch_id, amount, reason, now),
                Transition::TransferCredits { .. } => self,
            }
        }
    }

    /// The ledger after the transitions of `ts`, one after the other.
    pub open spec fn run(self, ts: Seq<Transition>) -> LedgerView
        decreases ts.len(),
    {
        if ts.len() == 0 {
            self
        } else {
            self.run(ts.drop_last()).apply(ts.last())
        }
    }
}

} // verus!
