//! The ledger with its records in memory.

use vstd::prelude::*;
use crate::error::{CarbonCreditError, TokenFailure};
use crate::identity::Identity;
use crate::instructions::{
    create_project_check, initialize_program, issue_credits, issue_credits_instruction,
    pending_project, retire_credits, retire_credits_instruction, transfer_credits,
    transfer_credits_instruction, verify_project, CreateProject, InitializeProgram, IssueCredits,
    RetireCredits, TransferCredits, VerifyProject,
};
use crate::laws::{
    lemma_batch_index, lemma_create_project_keeps_consistent, lemma_initialize_keeps_consistent,
    lemma_issue_credits_keeps_consistent, lemma_project_index,
    lemma_retire_credits_keeps_consistent, lemma_retirement_fits, lemma_retirement_index,
    lemma_verify_project_keeps_consistent,
};
use crate::model::{LedgerView, Transition};
use crate::state::{
    CreditBatch, ProgramState, Project, ProjectType, Retirement, MAX_REASON_LEN,
    MAX_STANDARD_LEN, MAX_URI_LEN,
};
use crate::token::TokenInstruction;

verus! {

/// A ledger that keeps its records itself: it looks them up by their keys,
/// refuses a second record under a key, and runs each transition on the
/// records that it names.
#[derive(Debug)]
pub struct Ledger {
    program_state: Option<ProgramState>,
    projects: Vec<Project>,
    batches: Vec<CreditBatch>,
    retirements: Vec<Retirement>,
}

impl View for Ledger {
    type V = LedgerView;

    closed spec fn view(&self) -> LedgerView {
        LedgerView {
            program_state: self.program_state,
            projects: self.projects@,
            batches: self.batches@,
            retirements: self.retirements@,
        }
    }
}

impl Ledger {
    /// The ledger is consistent.
    pub open spec fn wf(&self) -> bool {
        self@.inv()
    }

    /// A ledger without any record, not yet initialised.
    pub fn new() -> (ledger: Ledger)
        ensures
            ledger@ == LedgerView::empty(),
            ledger.wf(),
    {
        Ledger {
            program_state: None,
            projects: Vec::new(),
            batches: Vec::new(),
            retirements: Vec::new(),
        }
    }

    fn find_project(&self, project_id: u64) -> (found: Option<usize>)
        ensures
            match found {
                Some(i) => i < self.projects@.len() && self.projects@[i as int].project_id
                    == project_id,
                None => !self@.has_project(project_id),
            },
    {
        let mut i: usize = 0;
        while i < self.projects.len()
            invariant
                i <= self.projects@.len(),
                forall|j: int| 0 <= j < i ==> (#[trigger] self.projects@[j]).project_id != project_id,
            decreases self.projects@.len() - i,
        {
            if self.projects[i].project_id == project_id {
                return Some(i);
            }
            i += 1;
        }
        None
    }

    fn find_batch(&self, batch_id: u64) -> (found: Option<usize>)
        ensures
            match found {
                Some(k) => k < self.batches@.len() && self.batches@[k as int].batch_id == batch_id,
                None => !self@.has_batch(batch_id),
            },
    {
        let mut k: usize = 0;
        while k < self.batches.len()
            invariant
                k <= self.batches@.len(),
                forall|j: int| 0 <= j < k ==> (#[trigger] self.batches@[j]).batch_id != batch_id,
            decreases self.batches@.len() - k,
        {
            if self.batches[k].batch_id == batch_id {
                return Some(k);
            }
            k += 1;
        }
        None
    }

    fn find_retirement(&self, batch_id: u64, by: &Identity) -> (found: Option<usize>)
        ensures
            match found {
                Some(n) => n < self.retirements@.len() && self.retirements@[n as int].batch_id
                    == batch_id && self.retirements@[n as int].retired_by == *by,
                None => !self@.has_retirement(batch_id, *by),
            },
    {
        let mut n: usize = 0;
        while n < self.retirements.len()
            invariant
                n <= self.retirements@.len(),
                forall|j: int|
                    0 <= j < n ==> !((#[trigger] self.retirements@[j]).batch_id == batch_id
                        && self.retirements@[j].retired_by == *by),
            decreases self.retirements@.len() - n,
        {
            if self.retirements[n].batch_id == batch_id && self.retirements[n].retired_by.same(by) {
                return Some(n);
            }
            n += 1;
        }
        None
    }

    /// The program state, once the ledger is initialised.
    pub fn program_state(&self) -> (state: Option<ProgramState>)
        ensures
            state == self@.program_state,
    {
        self.program_state
    }

    /// The project registered under `project_id`, if any.
    pub fn project(&self, project_id: u64) -> (found: Option<&Project>)
        requires
            self.wf(),
        ensures
            match found {
                Some(p) => self@.project(project_id) == Some(*p),
                None => self@.project(project_id) is None,
            },
    {
        match self.find_project(project_id) {
            Some(i) => {
                proof {
                    lemma_project_index(self@, i as int);
                }
                Some(&self.projects[i])
            },
            None => None,
        }
    }

    /// The batch recorded under `batch_id`, if any.
    pub fn batch(&self, batch_id: u64) -> (found: Option<&CreditBatch>)
        requires
            self.wf(),
        ensures
            match found {
                Some(b) => self@.batch(batch_id) == Some(*b),
                None => self@.batch(batch_id) is None,
            },
    {
        match self.find_batch(batch_id) {
            Some(k) => {
                proof {
                    lemma_batch_index(self@, k as int);
                }
                Some(&self.batches[k])
            },
            None => None,
        }
    }

    /// The retirement of credits of the batch `batch_id` by `by`, if any.
    pub fn retirement(&self, batch_id: u64, by: Identity) -> (found: Option<&Retirement>)
        requires
            self.wf(),
        ensures
            match found {
                Some(r) => self@.retirement(batch_id, by) == Some(*r),
                None => self@.retirement(batch_id, by) is None,
            },
    {
        match self.find_retirement(batch_id, &by) {
            Some(n) => {
                proof {
                    lemma_retirement_index(self@, n as int);
                }
                Some(&self.retirements[n])
            },
            None => None,
        }
    }

    /// Initialises the ledger with `caller` as its authority. A ledger is
    /// initialised once: a second initialisation is refused.
    pub fn initialize_program(&mut self, caller: Identity) -> (r: Result<(), CarbonCreditError>)
        requires
            old(self).wf(),
        ensures
            r == old(self)@.initialize_outcome(),
            r is Ok ==> final(self)@ == old(self)@.after_initialize(caller),
            r is Err ==> final(self)@ == old(self)@,
            final(self)@ == old(self)@.apply(Transition::Initialize { caller }),
            final(self).wf(),
    {
        let mut ctx = InitializeProgram { program_state: self.program_state, authority: caller };
        let r = initialize_program(&mut ctx);
        if r.is_ok() {
            proof {
                lemma_initialize_keeps_consistent(self@, caller);
            }
            self.program_state = ctx.program_state;
        }
        r
    }

    /// Verifies the project `project_id` for `caller`.
    ///
    /// The ledger must be initialised and the project registered (`NotFound`
    /// otherwise), the caller the program's authority (`Unauthorized`), and
    /// the project pending (`ProjectAlreadyVerified`). On success the project
    /// is verified as of `now`; on failure the ledger stays as it was.
    pub fn verify_project(&mut self, caller: Identity, project_id: u64, now: i64) -> (r: Result<
        (),
        CarbonCreditError,
    >)
        requires
            old(self).wf(),
        ensures
            r == old(self)@.verify_project_outcome(caller, project_id),
            r is Ok ==> final(self)@ == old(self)@.after_verify_project(caller, project_id, now),
            r is Err ==> final(self)@ == old(self)@,
            final(self)@ == old(self)@.apply(Transition::VerifyProject { caller, project_id, now }),
            final(self).wf(),
    {
        let state = match self.program_state {
            Some(state) => state,
            None => {
                return Err(CarbonCreditError::NotFound);
            },
        };
        let i = match self.find_project(project_id) {
            Some(i) => i,
            None => {
                return Err(CarbonCreditError::NotFound);
            },
        };
        proof {
            lemma_project_index(self@, i as int);
        }
        let mut ctx = VerifyProject {
            project: self.projects[i].clone(),
            authority: caller,
            program_state: state,
        };
        let r = verify_project(&mut ctx, now);
        if r.is_ok() {
            proof {
                lemma_verify_project_keeps_consistent(self@, caller, project_id, now);
            }
            self.projects[i] = ctx.project;
        }
        r
    }

    /// Registers a project under `project_id` for `caller`.
    ///
    /// The ledger must be initialised (`NotFound` otherwise), the name, the
    /// description and the location within their bounds (`NameTooLong`,
    /// `DescriptionTooLong`, `LocationTooLong`), and the id not taken
    /// (`DuplicateProject`). On success the project is recorded as pending
    /// and the program's project count grows by one; on failure the ledger
    /// stays as it was.
    ///
    /// The verification standard must be within its bound.
    pub fn create_project(
        &mut self,
        caller: Identity,
        project_id: u64,
        name: String,
        description: String,
        location: String,
        project_type: ProjectType,
        verification_standard: String,
        estimated_credits: u64,
        now: i64,
    ) -> (r: Result<(), CarbonCreditError>)
        requires
            old(self).wf(),
            verification_standard@.len() <= MAX_STANDARD_LEN,
        ensures
            r == old(self)@.create_project_outcome(
                caller,
                project_id,
                name@,
                description@,
                location@,
            ),
            r is Ok ==> final(self)@ == old(self)@.after_create_project(
                caller,
                project_id,
                name,
                description,
                location,
                project_type,
                verification_standard,
                estimated_credits,
                now,
            ),
            r is Err ==> final(self)@ == old(self)@,
            final(self)@ == old(self)@.apply(
                Transition::CreateProject {
                    caller,
                    project_id,
                    name,
                    description,
                    location,
                    project_type,
                    verification_standard,
                    estimated_credits,
                    now,
                },
            ),
            final(self).wf(),
    {
        let state = match self.program_state {
            Some(state) => state,
            None => {
                return Err(CarbonCreditError::NotFound);
            },
        };
        let ctx = CreateProject {
            project: match self.find_project(project_id) {
                Some(i) => {
                    proof {
                        lemma_project_index(self@, i as int);
                    }
                    Some(self.projects[i].clone())
                },
                None => None,
            },
            program_state: state,
            project_owner: caller,
        };
        if let Err(e) = create_project_check(
            &ctx,
            name.as_str(),
            description.as_str(),
            location.as_str(),
        ) {
            return Err(e);
        }
        let project = pending_project(
            &ctx,
            project_id,
            name,
            description,
            location,
            project_type,
            verification_standard,
            estimated_credits,
            now,
        );
        self.projects.push(project);
        proof {
            vstd::std_specs::vec::axiom_spec_len(&self.projects);
            lemma_create_project_keeps_consistent(
                old(self)@,
                caller,
                project_id,
                name,
                description,
                location,
                project_type,
                verification_standard,
                estimated_credits,
                now,
            );
        }
        self.program_state = Some(
            ProgramState { project_count: state.project_count + 1, ..state },
        );
        Ok(())
    }

    /// Checks an issuance of `amount` credits against the project
    /// `project_id` by `caller`, and names the mint instruction to send to
    /// the token service: `mint_authority` signs it, and the units go to
    /// `recipient_token_account`. Nothing is changed.
    pub fn issue_credits_instruction(
        &self,
        caller: Identity,
        project_id: u64,
        amount: u64,
        mint_authority: Identity,
        recipient_token_account: Identity,
    ) -> (r: Result<TokenInstruction, CarbonCreditError>)
        requires
            self.wf(),
        ensures
            r == match self@.issue_credits_checked(caller, project_id, amount) {
                Ok(_) => Ok::<TokenInstruction, CarbonCreditError>(
                    TokenInstruction::MintTo {
                        authority: mint_authority,
                        to: recipient_token_account,
                        amount,
                    },
                ),
                Err(e) => Err(e),
            },
    {
        match self.issue_records(caller, project_id, caller, mint_authority, recipient_token_account) {
            Err(e) => Err(e),
            Ok((ctx, _)) => issue_credits_instruction(&ctx, amount),
        }
    }

    /// Looks up the records of an issuance, and where the project stands.
    fn issue_records(
        &self,
        caller: Identity,
        project_id: u64,
        recipient: Identity,
        mint_authority: Identity,
        recipient_token_account: Identity,
    ) -> (r: Result<(IssueCredits, usize), CarbonCreditError>)
        requires
            self.wf(),
        ensures
            match r {
                Ok((ctx, i)) => {
                    &&& self@.program_state is Some
                    &&& self@.has_project(project_id)
                    &&& i == self@.project_index(project_id)
                    &&& i < self.projects@.len()
                    &&& ctx == self@.issue_credits_context(
                        caller,
                        project_id,
                        recipient,
                        mint_authority,
                        recipient_token_account,
                    )
                },
                Err(e) => e == CarbonCreditError::NotFound && (self@.program_state is None
                    || !self@.has_project(project_id)),
            },
    {
        let state = match self.program_state {
            Some(state) => state,
            None => {
                return Err(CarbonCreditError::NotFound);
            },
        };
        let i = match self.find_project(project_id) {
            Some(i) => i,
            None => {
                return Err(CarbonCreditError::NotFound);
            },
        };
        proof {
            lemma_project_index(self@, i as int);
        }
        let ctx = IssueCredits {
            project: self.projects[i].clone(),
            credit_batch: match self.find_batch(state.total_credits_issued) {
                Some(k) => {
                    proof {
                        lemma_batch_index(self@, k as int);
                    }
                    Some(self.batches[k].clone())
                },
                None => None,
            },
            program_state: state,
            recipient_token_account,
            mint_authority,
            recipient,
            authority: caller,
        };
        Ok((ctx, i))
    }

    /// Issues `amount` credits against the project `project_id` for
    /// `caller`, given the token service's answer `minted` to the mint
    /// instruction, and returns the new batch's id.
    ///
    /// The ledger must be initialised and the project registered (`NotFound`
    /// otherwise), the caller the program's authority (`Unauthorized`), the
    /// project verified (`ProjectNotVerified`), and the project's issuance
    /// with `amount` added within its estimate, without overflow of it or of
    /// the program's total (`ExceedsEstimatedCredits`). The batch's id is the
    /// number of credits issued so far, which no batch may have yet
    /// (`DuplicateBatch`). Only then does the token service's answer count
    /// (`TokenService`). On success the batch is recorded with `recipient` as
    /// its owner, and `amount` is added to the project's and the program's
    /// issued credits; on failure the ledger stays as it was.
    ///
    /// The metadata URI must be within its bound.
    pub fn issue_credits(
        &mut self,
        caller: Identity,
        project_id: u64,
        amount: u64,
        vintage_year: u16,
        metadata_uri: String,
        recipient: Identity,
        now: i64,
        minted: Result<(), TokenFailure>,
    ) -> (r: Result<u64, CarbonCreditError>)
        requires
            old(self).wf(),
            metadata_uri@.len() <= MAX_URI_LEN,
        ensures
            r == old(self)@.issue_credits_outcome(caller, project_id, amount, minted),
            r is Ok ==> final(self)@ == old(self)@.after_issue_credits(
                caller,
                project_id,
                amount,
                vintage_year,
                metadata_uri,
                recipient,
                now,
            ),
            r is Err ==> final(self)@ == old(self)@,
            final(self)@ == old(self)@.apply(
                Transition::IssueCredits {
                    caller,
                    project_id,
                    amount,
                    vintage_year,
                    metadata_uri,
                    recipient,
                    now,
                    minted,
                },
            ),
            final(self).wf(),
    {
        let (mut ctx, i) = match self.issue_records(caller, project_id, recipient, caller, recipient) {
            Ok(found) => found,
            Err(e) => {
                return Err(e);
            },
        };
        let batch_id = ctx.program_state.total_credits_issued;
        if let Err(e) = issue_credits(&mut ctx, amount, vintage_year, metadata_uri, now, minted) {
            return Err(e);
        }
        proof {
            lemma_issue_credits_keeps_consistent(
                self@,
                caller,
                project_id,
                amount,
                vintage_year,
                metadata_uri,
                recipient,
                now,
            );
        }
        let IssueCredits { project, credit_batch, program_state, .. } = ctx;
        self.projects[i] = project;
        self.batches.push(credit_batch.unwrap());
        self.program_state = Some(program_state);
        Ok(batch_id)
    }

    /// Looks up the records of a retirement, and where the batch and its
    /// project stand.
    fn retire_records(&self, caller: Identity, batch_id: u64, user_token_account: Identity) -> (r:
        Result<(RetireCredits, usize, usize), CarbonCreditError>)
        requires
            self.wf(),
        ensures
            match r {
                Ok((ctx, k, i)) => {
                    &&& self@.program_state is Some
                    &&& self@.has_batch(batch_id)
                    &&& k == self@.batch_index(batch_id)
                    &&& k < self.batches@.len()
                    &&& self@.has_project(self.batches@[k as int].project_id)
                    &&& i == self@.project_index(self.batches@[k as int].project_id)
                    &&& i < self.projects@.len()
                    &&& ctx == self@.retire_credits_context(caller, batch_id, user_token_account)
                    &&& ctx.wf()
                },
                Err(e) => e == CarbonCreditError::NotFound && (self@.program_state is None
                    || !self@.has_batch(batch_id)),
            },
    {
        let state = match self.program_state {
            Some(state) => state,
            None => {
                return Err(CarbonCreditError::NotFound);
            },
        };
        let k = match self.find_batch(batch_id) {
            Some(k) => k,
            None => {
                return Err(CarbonCreditError::NotFound);
            },
        };
        proof {
            lemma_batch_index(self@, k as int);
            assert(self@.batches[k as int].wf());
            assert(self@.has_project(self@.batches[k as int].project_id));
        }
        let i = match self.find_project(self.batches[k].project_id) {
            Some(i) => i,
            None => {
                return Err(CarbonCreditError::NotFound);
            },
        };
        proof {
            lemma_project_index(self@, i as int);
        }
        let ctx = RetireCredits {
            credit_batch: self.batches[k].clone(),
            project: self.projects[i].clone(),
            program_state: state,
            retirement: match self.find_retirement(batch_id, &caller) {
                Some(n) => {
                    proof {
                        lemma_retirement_index(self@, n as int);
                    }
                    Some(self.retirements[n].clone())
                },
                None => None,
            },
            user_token_account,
            user: caller,
        };
        Ok((ctx, k, i))
    }

    /// Checks a retirement of `amount` credits of the batch `batch_id` by
    /// `caller`, and names the burn instruction to send to the token
    /// service: the caller signs it, and the units leave
    /// `user_token_account`. Nothing is changed.
    pub fn retire_credits_instruction(
        &self,
        caller: Identity,
        batch_id: u64,
        amount: u64,
        user_token_account: Identity,
    ) -> (r: Result<TokenInstruction, CarbonCreditError>)
        requires
            self.wf(),
        ensures
            r == match self@.retire_credits_checked(caller, batch_id, amount) {
                Ok(_) => Ok::<TokenInstruction, CarbonCreditError>(
                    TokenInstruction::Burn { authority: caller, from: user_token_account, amount },
                ),
                Err(e) => Err(e),
            },
    {
        match self.retire_records(caller, batch_id, user_token_account) {
            Err(e) => Err(e),
            Ok((ctx, _, _)) => retire_credits_instruction(&ctx, amount),
        }
    }

    /// Retires `amount` credits of the batch `batch_id` for `caller`, given
    /// the token service's answer `burned` to the burn instruction.
    ///
    /// The ledger must be initialised and the batch recorded (`NotFound`
    /// otherwise), the batch must have `amount` credits left
    /// (`InsufficientCredits`), and the caller must not have retired credits
    /// of this batch before (`DuplicateRetirement`). Only then does the token
    /// service's answer count (`TokenService`). On success the retirement is
    /// recorded, and `amount` is added to the retired credits of the batch,
    /// of its project and of the program; on failure the ledger stays as it
    /// was.
    ///
    /// The reason must be within its bound.
    pub fn retire_credits(
        &mut self,
        caller: Identity,
        batch_id: u64,
        amount: u64,
        reason: String,
        now: i64,
        burned: Result<(), TokenFailure>,
    ) -> (r: Result<(), CarbonCreditError>)
        requires
            old(self).wf(),
            reason@.len() <= MAX_REASON_LEN,
        ensures
            r == old(self)@.retire_credits_outcome(caller, batch_id, amount, burned),
            r is Ok ==> final(self)@ == old(self)@.after_retire_credits(
                caller,
                batch_id,
                amount,
                reason,
                now,
            ),
            r is Err ==> final(self)@ == old(self)@,
            final(self)@ == old(self)@.apply(
                Transition::RetireCredits { caller, batch_id, amount, reason, now, burned },
            ),
            final(self).wf(),
    {
        let (mut ctx, k, i) = match self.retire_records(caller, batch_id, caller) {
            Ok(found) => found,
            Err(e) => {
                return Err(e);
            },
        };
        proof {
            if ctx.checked(amount) is Ok {
                lemma_retirement_fits(self@, k as int, amount);
            }
        }
        if let Err(e) = retire_credits(&mut ctx, amount, reason, now, burned) {
            return Err(e);
        }
        proof {
            lemma_retire_credits_keeps_consistent(self@, caller, batch_id, amount, reason, now);
        }
        let RetireCredits { credit_batch, project, program_state, retirement, .. } = ctx;
        self.batches[k] = credit_batch;
        self.projects[i] = project;
        self.program_state = Some(program_state);
        self.retirements.push(retirement.unwrap());
        Ok(())
    }

    /// Names the transfer instruction to send to the token service for a
    /// transfer of `amount` units by `caller`.
    pub fn transfer_credits_instruction(
        &self,
        caller: Identity,
        from_account: Identity,
        to_account: Identity,
        amount: u64,
    ) -> (r: TokenInstruction)
        ensures
            r == (TokenInstruction::Transfer {
                authority: caller,
                from: from_account,
                to: to_account,
                amount,
            }),
    {
        let ctx = TransferCredits {
            from_token_account: from_account,
            to_token_account: to_account,
            from_authority: caller,
        };
        transfer_credits_instruction(&ctx, amount)
    }

    /// Ends a transfer of `amount` units from `from_account` to `to_account`
    /// by `caller` with the token service's answer `transferred`. No record
    /// of the ledger is read or changed.
    pub fn transfer_credits(
        &self,
        caller: Identity,
        from_account: Identity,
        to_account: Identity,
        amount: u64,
        transferred: Result<(), TokenFailure>,
    ) -> (r: Result<(), CarbonCreditError>)
        ensures
            r == crate::token::settled(transferred),
    {
        let ctx = TransferCredits {
            from_token_account: from_account,
            to_token_account: to_account,
            from_authority: caller,
        };
        transfer_credits(&ctx, amount, transferred)
    }
}

} // verus!
