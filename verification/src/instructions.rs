//! The six transitions, each on the records that it names.
//!
//! A transition is handed its records in a context, checks them, and either
//! changes them or leaves every one of them as it was. The record store has
//! looked the records up beforehand: where a transition creates a record, the
//! context holds what is stored under the new record's key so far. Where a
//! transition needs the token service, one function names the instruction to
//! send and a second one takes the service's answer and commits.

use vstd::prelude::*;
use vstd::string::*;
use crate::error::{CarbonCreditError, TokenFailure};
use crate::identity::Identity;
use crate::state::{
    CreditBatch, ProgramState, Project, ProjectStatus, ProjectType, Retirement,
    MAX_DESCRIPTION_LEN, MAX_LOCATION_LEN, MAX_NAME_LEN, MAX_REASON_LEN, MAX_STANDARD_LEN,
    MAX_URI_LEN,
};
use crate::token::{settle, settled, TokenInstruction};

verus! {

/// The records of an issuance.
#[derive(Debug)]
pub struct IssueCredits {
    /// The project that the credits are issued against.
    pub project: Project,
    /// What is stored under the id that the new batch gets, if anything.
    pub credit_batch: Option<CreditBatch>,
    pub program_state: ProgramState,
    /// The account that receives the minted units.
    pub recipient_token_account: Identity,
    /// Who signs the mint instruction.
    pub mint_authority: Identity,
    /// Who is recorded as the batch's owner.
    pub recipient: Identity,
    /// The caller.
    pub authority: Identity,
}

impl IssueCredits {
    /// The checks of an issuance of `amount` credits, in the order in which
    /// they are made.
    pub open spec fn checked(self, amount: u64) -> Result<(), CarbonCreditError> {
        if self.authority != self.program_state.authority {
            Err(CarbonCreditError::Unauthorized)
        } else if self.project.status != ProjectStatus::Verified {
            Err(CarbonCreditError::ProjectNotVerified)
        } else if self.project.issued_credits + amount > self.project.estimated_credits
            || self.program_state.total_credits_issued + amount > u64::MAX {
            Err(CarbonCreditError::ExceedsEstimatedCredits)
        } else if self.credit_batch is Some {
            Err(CarbonCreditError::DuplicateBatch)
        } else {
            Ok(())
        }
    }

    /// The mint instruction that goes with an issuance of `amount` credits.
    pub open spec fn instruction(self, amount: u64) -> TokenInstruction {
        TokenInstruction::MintTo {
            authority: self.mint_authority,
            to: self.recipient_token_account,
            amount,
        }
    }

    /// How the issuance ends, given the token service's answer to the mint
    /// instruction.
    pub open spec fn outcome(self, amount: u64, minted: Result<(), TokenFailure>) -> Result<
        (),
        CarbonCreditError,
    > {
        match self.checked(amount) {
            Err(e) => Err(e),
            Ok(_) => settled(minted),
        }
    }

    /// The batch that a successful issuance records.
    pub open spec fn new_batch(
        self,
        amount: u64,
        vintage_year: u16,
        metadata_uri: String,
        now: i64,
    ) -> CreditBatch {
        CreditBatch {
            project_id: self.project.project_id,
            batch_id: self.program_state.total_credits_issued,
            amount,
            vintage_year,
            metadata_uri,
            issued_at: now,
            retired_amount: 0,
            owner: self.recipient,
        }
    }

    /// The records after a successful issuance.
    pub open spec fn issued(
        self,
        amount: u64,
        vintage_year: u16,
        metadata_uri: String,
        now: i64,
    ) -> IssueCredits {
        IssueCredits {
            project: Project {
                issued_credits: (self.project.issued_credits + amount) as u64,
                ..self.project
            },
            credit_batch: Some(self.new_batch(amount, vintage_year, metadata_uri, now)),
            program_state: ProgramState {
                total_credits_issued: (self.program_state.total_credits_issued + amount) as u64,
                ..self.program_state
            },
            ..self
        }
    }
}

/// Checks an issuance of `amount` credits and names the mint instruction to
/// send to the token service. Nothing is changed.
pub fn issue_credits_instruction(ctx: &IssueCredits, amount: u64) -> (r: Result<
    TokenInstruction,
    CarbonCreditError,
>)
    ensures
        r == match ctx.checked(amount) {
            Ok(_) => Ok::<TokenInstruction, CarbonCreditError>(ctx.instruction(amount)),
            Err(e) => Err(e),
        },
{
    if !ctx.authority.same(&ctx.program_state.authority) {
        return Err(CarbonCreditError::Unauthorized);
    }
    if ctx.project.status != ProjectStatus::Verified {
        return Err(CarbonCreditError::ProjectNotVerified);
    }
    match ctx.project.issued_credits.checked_add(amount) {
        None => {
            return Err(CarbonCreditError::ExceedsEstimatedCredits);
        },
        Some(sum) => {
            if sum > ctx.project.estimated_credits {
                return Err(CarbonCreditError::ExceedsEstimatedCredits);
            }
        },
    }
    if ctx.program_state.total_credits_issued.checked_add(amount).is_none() {
        return Err(CarbonCreditError::ExceedsEstimatedCredits);
    }
    if ctx.credit_batch.is_some() {
        return Err(CarbonCreditError::DuplicateBatch);
    }
    Ok(
        TokenInstruction::MintTo {
            authority: ctx.mint_authority,
            to: ctx.recipient_token_account,
            amount,
        },
    )
}

/// Issues `amount` credits against the project, given the token service's
/// answer `minted` to the mint instruction.
///
/// The caller must be the program's authority, the project verified, and the
/// project's issuance with `amount` added within its estimate; a sum past
/// `u64::MAX`, of the project's issuance or of the program's, counts as past
/// the estimate. The new batch gets the number of credits issued so far as
/// its id, and nothing may be stored under that id yet. Only then does the
/// token service's answer count: its refusal aborts the issuance. On success
/// the batch is recorded and `amount` is added to the project's and the
/// program's issued credits; on any failure the records stay as they were.
pub fn issue_credits(
    ctx: &mut IssueCredits,
    amount: u64,
    vintage_year: u16,
    metadata_uri: String,
    now: i64,
    minted: Result<(), TokenFailure>,
) -> (r: Result<(), CarbonCreditError>)
    requires
        metadata_uri@.len() <= MAX_URI_LEN,
    ensures
        r == old(ctx).outcome(amount, minted),
        r is Ok ==> *final(ctx) == old(ctx).issued(amount, vintage_year, metadata_uri, now),
        r is Err ==> *final(ctx) == *old(ctx),
        old(ctx).project.wf() ==> final(ctx).project.wf(),
        r is Ok ==> final(ctx).credit_batch.unwrap().wf(),
{
    if let Err(e) = issue_credits_instruction(ctx, amount) {
        return Err(e);
    }
    if let Err(e) = settle(minted) {
        return Err(e);
    }
    ctx.credit_batch = Some(
        CreditBatch {
            project_id: ctx.project.project_id,
            batch_id: ctx.program_state.total_credits_issued,
            amount,
            vintage_year,
            metadata_uri,
            issued_at: now,
            retired_amount: 0,
            owner: ctx.recipient,
        },
    );
    ctx.project.issued_credits = ctx.project.issued_credits + amount;
    ctx.program_state.total_credits_issued = ctx.program_state.total_credits_issued + amount;
    Ok(())
}

/// The records of a retirement.
#[derive(Debug)]
pub struct RetireCredits {
    /// The batch whose credits are retired.
    pub credit_batch: CreditBatch,
    /// The project that the batch names.
    pub project: Project,
    pub program_state: ProgramState,
    /// What is stored as `user`'s retirement of this batch, if anything.
    pub retirement: Option<Retirement>,
    /// The account that the units are burned from.
    pub user_token_account: Identity,
    /// The caller, who retires the credits.
    pub user: Identity,
}

impl RetireCredits {
    /// The batch is well formed and belongs to the project.
    pub open spec fn wf(self) -> bool {
        &&& self.credit_batch.wf()
        &&& self.project.project_id == self.credit_batch.project_id
    }

    /// The checks of a retirement of `amount` credits, in the order in which
    /// they are made.
    pub open spec fn checked(self, amount: u64) -> Result<(), CarbonCreditError> {
        if self.credit_batch.remaining() < amount {
            Err(CarbonCreditError::InsufficientCredits)
        } else if self.retirement is Some {
            Err(CarbonCreditError::DuplicateRetirement)
        } else {
            Ok(())
        }
    }

    /// The burn instruction that goes with a retirement of `amount` credits.
    pub open spec fn instruction(self, amount: u64) -> TokenInstruction {
        TokenInstruction::Burn { authority: self.user, from: self.user_token_account, amount }
    }

    /// How the retirement ends, given the token service's answer to the burn
    /// instruction.
    pub open spec fn outcome(self, amount: u64, burned: Result<(), TokenFailure>) -> Result<
        (),
        CarbonCreditError,
    > {
        match self.checked(amount) {
            Err(e) => Err(e),
            Ok(_) => settled(burned),
        }
    }

    /// The record that a successful retirement creates.
    pub open spec fn new_retirement(self, amount: u64, reason: String, now: i64) -> Retirement {
        Retirement {
            batch_id: self.credit_batch.batch_id,
            amount,
            reason,
            retired_by: self.user,
            retired_at: now,
        }
    }

    /// The records after a successful retirement.
    pub open spec fn retired(self, amount: u64, reason: String, now: i64) -> RetireCredits {
        RetireCredits {
            credit_batch: CreditBatch {
                retired_amount: (self.credit_batch.retired_amount + amount) as u64,
                ..self.credit_batch
            },
            project: Project {
                retired_credits: (self.project.retired_credits + amount) as u64,
                ..self.project
            },
            program_state: ProgramState {
                total_credits_retired: (self.program_state.total_credits_retired + amount) as u64,
                ..self.program_state
            },
            retirement: Some(self.new_retirement(amount, reason, now)),
            ..self
        }
    }
}

/// Checks a retirement of `amount` credits and names the burn instruction to
/// send to the token service. Nothing is changed.
pub fn retire_credits_instruction(ctx: &RetireCredits, amount: u64) -> (r: Result<
    TokenInstruction,
    CarbonCreditError,
>)
    requires
        ctx.wf(),
    ensures
        r == match ctx.checked(amount) {
            Ok(_) => Ok::<TokenInstruction, CarbonCreditError>(ctx.instruction(amount)),
            Err(e) => Err(e),
        },
{
    if ctx.credit_batch.amount - ctx.credit_batch.retired_amount < amount {
        return Err(CarbonCreditError::InsufficientCredits);
    }
    if ctx.retirement.is_some() {
        return Err(CarbonCreditError::DuplicateRetirement);
    }
    Ok(TokenInstruction::Burn { authority: ctx.user, from: ctx.user_token_account, amount })
}

/// Retires `amount` credits of the batch for the caller, given the token
/// service's answer `burned` to the burn instruction.
///
/// The batch must have `amount` credits left, and the caller must not have
/// retired credits of this batch before. Only then does the token service's
/// answer count: its refusal aborts the retirement. On success the retirement
/// is recorded and `amount` is added to the retired credits of the batch, of
/// its project and of the program; on any failure the records stay as they
/// were.
///
/// The project's and the program's retired credits must have room for
/// `amount` where the retirement succeeds.
pub fn retire_credits(
    ctx: &mut RetireCredits,
    amount: u64,
    reason: String,
    now: i64,
    burned: Result<(), TokenFailure>,
) -> (r: Result<(), CarbonCreditError>)
    requires
        old(ctx).wf(),
        reason@.len() <= MAX_REASON_LEN,
        old(ctx).outcome(amount, burned) is Ok ==> {
            &&& old(ctx).project.retired_credits + amount <= u64::MAX
            &&& old(ctx).program_state.total_credits_retired + amount <= u64::MAX
        },
    ensures
        r == old(ctx).outcome(amount, burned),
        r is Ok ==> *final(ctx) == old(ctx).retired(amount, reason, now),
        r is Err ==> *final(ctx) == *old(ctx),
        final(ctx).wf(),
        r is Ok ==> final(ctx).retirement.unwrap().wf(),
{
    if let Err(e) = retire_credits_instruction(ctx, amount) {
        return Err(e);
    }
    if let Err(e) = settle(burned) {
        return Err(e);
    }
    ctx.retirement = Some(
        Retirement {
            batch_id: ctx.credit_batch.batch_id,
            amount,
            reason,
            retired_by: ctx.user,
            retired_at: now,
        },
    );
    ctx.credit_batch.retired_amount = ctx.credit_batch.retired_amount + amount;
    ctx.project.retired_credits = ctx.project.retired_credits + amount;
    ctx.program_state.total_credits_retired = ctx.program_state.total_credits_retired + amount;
    Ok(())
}

/// The records of a project's registration.
#[derive(Debug)]
pub struct CreateProject {
    /// What is stored under the new project's id, if anything.
    pub project: Option<Project>,
    pub program_state: ProgramState,
    /// The caller, who becomes the project's owner.
    pub project_owner: Identity,
}

impl CreateProject {
    /// The checks of a registration, in the order in which they are made.
    pub open spec fn checked(
        self,
        name: Seq<char>,
        description: Seq<char>,
        location: Seq<char>,
    ) -> Result<(), CarbonCreditError> {
        if name.len() > MAX_NAME_LEN {
            Err(CarbonCreditError::NameTooLong)
        } else if description.len() > MAX_DESCRIPTION_LEN {
            Err(CarbonCreditError::DescriptionTooLong)
        } else if location.len() > MAX_LOCATION_LEN {
            Err(CarbonCreditError::LocationTooLong)
        } else if self.project is Some {
            Err(CarbonCreditError::DuplicateProject)
        } else {
            Ok(())
        }
    }

    /// The project that a successful registration records.
    pub open spec fn new_project(
        self,
        project_id: u64,
        name: String,
        description: String,
        location: String,
        project_type: ProjectType,
        verification_standard: String,
        estimated_credits: u64,
        now: i64,
    ) -> Project {
        Project {
            project_id,
            name,
            description,
            location,
            project_type,
            verification_standard,
            estimated_credits,
            issued_credits: 0,
            retired_credits: 0,
            owner: self.project_owner,
            status: ProjectStatus::Pending,
            created_at: now,
            verified_at: 0,
        }
    }

    /// The records after a successful registration of `project`.
    pub open spec fn created(self, project: Project) -> CreateProject {
        CreateProject {
            project: Some(project),
            program_state: ProgramState {
                project_count: (self.program_state.project_count + 1) as u64,
                ..self.program_state
            },
            ..self
        }
    }
}

/// Checks a registration. Nothing is changed.
pub fn create_project_check(
    ctx: &CreateProject,
    name: &str,
    description: &str,
    location: &str,
) -> (r: Result<(), CarbonCreditError>)
    ensures
        r == ctx.checked(name@, description@, location@),
{
    if name.unicode_len() > MAX_NAME_LEN {
        return Err(CarbonCreditError::NameTooLong);
    }
    if description.unicode_len() > MAX_DESCRIPTION_LEN {
        return Err(CarbonCreditError::DescriptionTooLong);
    }
    if location.unicode_len() > MAX_LOCATION_LEN {
        return Err(CarbonCreditError::LocationTooLong);
    }
    if ctx.project.is_some() {
        return Err(CarbonCreditError::DuplicateProject);
    }
    Ok(())
}

/// The project as a registration records it: pending, owned by the caller,
/// with nothing issued or retired.
pub fn pending_project(
    ctx: &CreateProject,
    project_id: u64,
    name: String,
    description: String,
    location: String,
    project_type: ProjectType,
    verification_standard: String,
    estimated_credits: u64,
    now: i64,
) -> (project: Project)
    ensures
        project == ctx.new_project(
            project_id,
            name,
            description,
            location,
            project_type,
            verification_standard,
            estimated_credits,
            now,
        ),
{
    Project {
        project_id,
        name,
        description,
        location,
        project_type,
        verification_standard,
        estimated_credits,
        issued_credits: 0,
        retired_credits: 0,
        owner: ctx.project_owner,
        status: ProjectStatus::Pending,
        created_at: now,
        verified_at: 0,
    }
}

/// Registers a project for the caller.
///
/// The name, the description and the location must be within their bounds,
/// and nothing may be stored under `project_id` yet. On success the project
/// is recorded as pending, owned by the caller, with nothing issued or
/// retired, and the program's project count grows by one; on failure the
/// records stay as they were.
///
/// The verification standard must be within its bound, and the project count
/// must have room for one more where the registration succeeds.
pub fn create_project(
    ctx: &mut CreateProject,
    project_id: u64,
    name: String,
    description: String,
    location: String,
    project_type: ProjectType,
    verification_standard: String,
    estimated_credits: u64,
    now: i64,
) -> (r: Result<(), CarbonCreditError>)
    requires
        verification_standard@.len() <= MAX_STANDARD_LEN,
        old(ctx).checked(name@, description@, location@) is Ok ==> old(
            ctx,
        ).program_state.project_count < u64::MAX,
    ensures
        r == old(ctx).checked(name@, description@, location@),
        r is Ok ==> *final(ctx) == old(ctx).created(
            old(ctx).new_project(
                project_id,
                name,
                description,
                location,
                project_type,
                verification_standard,
                estimated_credits,
                now,
            ),
        ),
        r is Err ==> *final(ctx) == *old(ctx),
        r is Ok ==> final(ctx).project.unwrap().wf(),
{
    if let Err(e) = create_project_check(ctx, name.as_str(), description.as_str(), location.as_str()) {
        return Err(e);
    }
    ctx.project = Some(
        pending_project(
            ctx,
            project_id,
            name,
            description,
            location,
            project_type,
            verification_standard,
            estimated_credits,
            now,
        ),
    );
    ctx.program_state.project_count = ctx.program_state.project_count + 1;
    Ok(())
}

/// The records of a project's verification.
#[derive(Debug)]
pub struct VerifyProject {
    pub project: Project,
    /// The caller.
    pub authority: Identity,
    pub program_state: ProgramState,
}

impl VerifyProject {
    /// The checks of a verification, in the order in which they are made.
    pub open spec fn checked(self) -> Result<(), CarbonCreditError> {
        if self.authority != self.program_state.authority {
            Err(CarbonCreditError::Unauthorized)
        } else if self.project.status != ProjectStatus::Pending {
            Err(CarbonCreditError::ProjectAlreadyVerified)
        } else {
            Ok(())
        }
    }

    /// The records after a successful verification at the time `now`.
    pub open spec fn verified(self, now: i64) -> VerifyProject {
        VerifyProject {
            project: Project { status: ProjectStatus::Verified, verified_at: now, ..self.project },
            ..self
        }
    }
}

/// Checks a verification. Nothing is changed.
pub fn verify_project_check(ctx: &VerifyProject) -> (r: Result<(), CarbonCreditError>)
    ensures
        r == ctx.checked(),
{
    if !ctx.authority.same(&ctx.program_state.authority) {
        return Err(CarbonCreditError::Unauthorized);
    }
    if ctx.project.status != ProjectStatus::Pending {
        return Err(CarbonCreditError::ProjectAlreadyVerified);
    }
    Ok(())
}

/// Verifies a pending project.
///
/// The caller must be the program's authority, and the project pending: a
/// verified or suspended project is refused. On success the project is
/// verified as of `now`; on failure the records stay as they were.
pub fn verify_project(ctx: &mut VerifyProject, now: i64) -> (r: Result<(), CarbonCreditError>)
    ensures
        r == old(ctx).checked(),
        r is Ok ==> *final(ctx) == old(ctx).verified(now),
        r is Err ==> *final(ctx) == *old(ctx),
        old(ctx).project.wf() ==> final(ctx).project.wf(),
{
    if let Err(e) = verify_project_check(ctx) {
        return Err(e);
    }
    ctx.project.status = ProjectStatus::Verified;
    ctx.project.verified_at = now;
    Ok(())
}

/// The records of the program's initialisation.
#[derive(Debug)]
pub struct InitializeProgram {
    /// The program state that is stored so far, if any.
    pub program_state: Option<ProgramState>,
    /// The caller, who becomes the program's authority.
    pub authority: Identity,
}

impl InitializeProgram {
    /// The check of an initialisation.
    pub open spec fn checked(self) -> Result<(), CarbonCreditError> {
        if self.program_state is Some {
            Err(CarbonCreditError::AlreadyInitialized)
        } else {
            Ok(())
        }
    }

    /// The records after a successful initialisation.
    pub open spec fn initialized(self) -> InitializeProgram {
        InitializeProgram {
            program_state: Some(ProgramState::initial(self.authority)),
            ..self
        }
    }
}

/// Creates the program state, with the caller as its authority and every
/// counter at zero. Where a program state exists already, it is left as it is
/// and the initialisation is refused.
pub fn initialize_program(ctx: &mut InitializeProgram) -> (r: Result<(), CarbonCreditError>)
    ensures
        r == old(ctx).checked(),
        r is Ok ==> *final(ctx) == old(ctx).initialized(),
        r is Err ==> *final(ctx) == *old(ctx),
{
    if ctx.program_state.is_some() {
        return Err(CarbonCreditError::AlreadyInitialized);
    }
    ctx.program_state = Some(
        ProgramState {
            authority: ctx.authority,
            total_credits_issued: 0,
            total_credits_retired: 0,
            project_count: 0,
        },
    );
    Ok(())
}

/// The accounts of a transfer.
#[derive(Clone, Copy, Debug)]
pub struct TransferCredits {
    /// The account that the units leave.
    pub from_token_account: Identity,
    /// The account that the units arrive in.
    pub to_token_account: Identity,
    /// The caller, who must control `from_token_account`.
    pub from_authority: Identity,
}

impl TransferCredits {
    /// The transfer instruction for `amount` units.
    pub open spec fn instruction(self, amount: u64) -> TokenInstruction {
        TokenInstruction::Transfer {
            authority: self.from_authority,
            from: self.from_token_account,
            to: self.to_token_account,
            amount,
        }
    }
}

/// Names the transfer instruction to send to the token service. Whether the
/// caller controls the source account is for the token service to decide.
pub fn transfer_credits_instruction(ctx: &TransferCredits, amount: u64) -> (r: TokenInstruction)
    ensures
        r == ctx.instruction(amount),
{
    TokenInstruction::Transfer {
        authority: ctx.from_authority,
        from: ctx.from_token_account,
        to: ctx.to_token_account,
        amount,
    }
}

/// Ends a transfer of `amount` units with the token service's answer
/// `transferred` to the transfer instruction. A transfer reads and changes no
/// record of the ledger: the owner that a batch records stays who received it.
pub fn transfer_credits(
    ctx: &TransferCredits,
    amount: u64,
    transferred: Result<(), TokenFailure>,
) -> (r: Result<(), CarbonCreditError>)
    ensures
        r == settled(transferred),
{
    settle(transferred)
}

} // verus!
