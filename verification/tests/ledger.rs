use carbon_ledger::{
    CarbonCreditError, Identity, Ledger, ProgramState, ProjectStatus, ProjectType, TokenFailure,
    TokenInstruction,
};

fn who(n: u8) -> Identity {
    Identity::new([n; 32])
}

fn authority() -> Identity {
    who(1)
}

fn owner() -> Identity {
    who(2)
}

fn holder() -> Identity {
    who(3)
}

fn register(ledger: &mut Ledger, project_id: u64, estimated_credits: u64) {
    let r = ledger.create_project(
        owner(),
        project_id,
        String::from("Mangrove belt"),
        String::from("Replanting of a coastal mangrove belt"),
        String::from("Sundarbans"),
        ProjectType::Reforestation,
        String::from("VCS"),
        estimated_credits,
        100,
    );
    assert_eq!(r, Ok(()));
}

fn ledger_with_project(project_id: u64, estimated_credits: u64) -> Ledger {
    let mut ledger = Ledger::new();
    assert_eq!(ledger.initialize_program(authority()), Ok(()));
    register(&mut ledger, project_id, estimated_credits);
    ledger
}

fn ledger_with_verified_project(project_id: u64, estimated_credits: u64) -> Ledger {
    let mut ledger = ledger_with_project(project_id, estimated_credits);
    assert_eq!(ledger.verify_project(authority(), project_id, 200), Ok(()));
    ledger
}

fn issue(ledger: &mut Ledger, project_id: u64, amount: u64) -> Result<u64, CarbonCreditError> {
    ledger.issue_credits(
        authority(),
        project_id,
        amount,
        2024,
        String::from("ipfs://evidence"),
        holder(),
        300,
        Ok(()),
    )
}

fn retire(ledger: &mut Ledger, by: Identity, batch_id: u64, amount: u64) -> Result<(), CarbonCreditError> {
    ledger.retire_credits(by, batch_id, amount, String::from("offsetting a flight"), 400, Ok(()))
}

#[test]
fn new_ledger_holds_nothing() {
    let ledger = Ledger::new();
    assert_eq!(ledger.program_state(), None);
    assert!(ledger.project(1).is_none());
    assert!(ledger.batch(0).is_none());
    assert!(ledger.retirement(0, holder()).is_none());
}

#[test]
fn initialize_sets_authority_and_zero_counters() {
    let mut ledger = Ledger::new();
    assert_eq!(ledger.initialize_program(authority()), Ok(()));
    assert_eq!(
        ledger.program_state(),
        Some(ProgramState {
            authority: authority(),
            total_credits_issued: 0,
            total_credits_retired: 0,
            project_count: 0,
        })
    );
}

#[test]
fn initialize_twice_is_refused() {
    let mut ledger = Ledger::new();
    assert_eq!(ledger.initialize_program(authority()), Ok(()));
    assert_eq!(ledger.initialize_program(owner()), Err(CarbonCreditError::AlreadyInitialized));
    assert_eq!(ledger.program_state().unwrap().authority, authority());
}

#[test]
fn transitions_before_initialization_find_nothing() {
    let mut ledger = Ledger::new();
    let r = ledger.create_project(
        owner(),
        1,
        String::from("n"),
        String::from("d"),
        String::from("l"),
        ProjectType::Other,
        String::from("s"),
        10,
        0,
    );
    assert_eq!(r, Err(CarbonCreditError::NotFound));
    assert_eq!(ledger.verify_project(authority(), 1, 0), Err(CarbonCreditError::NotFound));
    assert_eq!(issue(&mut ledger, 1, 1), Err(CarbonCreditError::NotFound));
    assert_eq!(retire(&mut ledger, holder(), 0, 1), Err(CarbonCreditError::NotFound));
    assert_eq!(ledger.program_state(), None);
}

#[test]
fn create_project_records_a_pending_project() {
    let ledger = ledger_with_project(7, 1000);
    let p = ledger.project(7).unwrap();
    assert_eq!(p.project_id, 7);
    assert_eq!(p.name, "Mangrove belt");
    assert_eq!(p.description, "Replanting of a coastal mangrove belt");
    assert_eq!(p.location, "Sundarbans");
    assert_eq!(p.project_type, ProjectType::Reforestation);
    assert_eq!(p.verification_standard, "VCS");
    assert_eq!(p.estimated_credits, 1000);
    assert_eq!(p.issued_credits, 0);
    assert_eq!(p.retired_credits, 0);
    assert_eq!(p.owner, owner());
    assert_eq!(p.status, ProjectStatus::Pending);
    assert_eq!(p.created_at, 100);
    assert_eq!(p.verified_at, 0);
    assert_eq!(ledger.program_state().unwrap().project_count, 1);
}

#[test]
fn create_project_counts_every_project() {
    let mut ledger = ledger_with_project(1, 10);
    register(&mut ledger, 2, 20);
    register(&mut ledger, 9, 30);
    assert_eq!(ledger.program_state().unwrap().project_count, 3);
    assert_eq!(ledger.project(2).unwrap().estimated_credits, 20);
    assert_eq!(ledger.project(9).unwrap().estimated_credits, 30);
    assert!(ledger.project(3).is_none());
}

#[test]
fn create_project_refuses_a_taken_id() {
    let mut ledger = ledger_with_project(1, 1000);
    let r = ledger.create_project(
        holder(),
        1,
        String::from("Another"),
        String::from("d"),
        String::from("l"),
        ProjectType::Other,
        String::from("s"),
        5,
        150,
    );
    assert_eq!(r, Err(CarbonCreditError::DuplicateProject));
    assert_eq!(ledger.program_state().unwrap().project_count, 1);
    assert_eq!(ledger.project(1).unwrap().name, "Mangrove belt");
    assert_eq!(ledger.project(1).unwrap().owner, owner());
}

fn create_with_texts(name: String, description: String, location: String) -> Result<(), CarbonCreditError> {
    let mut ledger = Ledger::new();
    assert_eq!(ledger.initialize_program(authority()), Ok(()));
    let r = ledger.create_project(
        owner(),
        1,
        name,
        description,
        location,
        ProjectType::CarbonCapture,
        String::from("Gold Standard"),
        1,
        0,
    );
    assert_eq!(ledger.project(1).is_some(), r.is_ok());
    assert_eq!(ledger.program_state().unwrap().project_count, if r.is_ok() { 1 } else { 0 });
    r
}

#[test]
fn create_project_accepts_texts_at_their_bounds() {
    assert_eq!(create_with_texts("n".repeat(50), "d".repeat(200), "l".repeat(100)), Ok(()));
    assert_eq!(create_with_texts(String::new(), String::new(), String::new()), Ok(()));
}

#[test]
fn create_project_refuses_a_long_name() {
    assert_eq!(
        create_with_texts("n".repeat(51), "d".repeat(200), "l".repeat(100)),
        Err(CarbonCreditError::NameTooLong)
    );
}

#[test]
fn create_project_refuses_a_long_description() {
    assert_eq!(
        create_with_texts("n".repeat(50), "d".repeat(201), "l".repeat(100)),
        Err(CarbonCreditError::DescriptionTooLong)
    );
}

#[test]
fn create_project_refuses_a_long_location() {
    assert_eq!(
        create_with_texts("n".repeat(50), "d".repeat(200), "l".repeat(101)),
        Err(CarbonCreditError::LocationTooLong)
    );
}

#[test]
fn create_project_checks_the_name_first() {
    assert_eq!(
        create_with_texts("n".repeat(51), "d".repeat(201), "l".repeat(101)),
        Err(CarbonCreditError::NameTooLong)
    );
    assert_eq!(
        create_with_texts("n".repeat(5), "d".repeat(201), "l".repeat(101)),
        Err(CarbonCreditError::DescriptionTooLong)
    );
}

#[test]
fn create_project_checks_texts_before_the_id() {
    let mut ledger = ledger_with_project(1, 1000);
    let r = ledger.create_project(
        owner(),
        1,
        "n".repeat(51),
        String::from("d"),
        String::from("l"),
        ProjectType::Other,
        String::from("s"),
        5,
        150,
    );
    assert_eq!(r, Err(CarbonCreditError::NameTooLong));
}

#[test]
fn create_project_counts_characters() {
    assert_eq!(create_with_texts("é".repeat(50), "ü".repeat(200), "ø".repeat(100)), Ok(()));
    assert_eq!(
        create_with_texts("é".repeat(51), String::new(), String::new()),
        Err(CarbonCreditError::NameTooLong)
    );
}

#[test]
fn verify_project_sets_status_and_time() {
    let mut ledger = ledger_with_project(1, 1000);
    assert_eq!(ledger.verify_project(authority(), 1, 250), Ok(()));
    let p = ledger.project(1).unwrap();
    assert_eq!(p.status, ProjectStatus::Verified);
    assert_eq!(p.verified_at, 250);
    assert_eq!(p.created_at, 100);
    assert_eq!(p.name, "Mangrove belt");
}

#[test]
fn verify_project_twice_is_refused() {
    let mut ledger = ledger_with_project(1, 1000);
    assert_eq!(ledger.verify_project(authority(), 1, 250), Ok(()));
    assert_eq!(
        ledger.verify_project(authority(), 1, 260),
        Err(CarbonCreditError::ProjectAlreadyVerified)
    );
    assert_eq!(ledger.project(1).unwrap().verified_at, 250);
}

#[test]
fn verify_project_needs_the_project() {
    let mut ledger = ledger_with_project(1, 1000);
    assert_eq!(ledger.verify_project(authority(), 2, 250), Err(CarbonCreditError::NotFound));
    assert_eq!(ledger.verify_project(owner(), 2, 250), Err(CarbonCreditError::NotFound));
}

#[test]
fn scenario_verify_by_another_identity() {
    let mut ledger = ledger_with_project(1, 1000);
    assert_eq!(ledger.verify_project(owner(), 1, 250), Err(CarbonCreditError::Unauthorized));
    let p = ledger.project(1).unwrap();
    assert_eq!(p.status, ProjectStatus::Pending);
    assert_eq!(p.verified_at, 0);
}

#[test]
fn scenario_issue_within_and_beyond_the_estimate() {
    let mut ledger = ledger_with_project(1, 1000);
    assert_eq!(ledger.verify_project(authority(), 1, 200), Ok(()));
    assert_eq!(issue(&mut ledger, 1, 400), Ok(0));
    assert_eq!(ledger.project(1).unwrap().issued_credits, 400);
    assert_eq!(ledger.batch(0).unwrap().amount, 400);
    assert_eq!(issue(&mut ledger, 1, 700), Err(CarbonCreditError::ExceedsEstimatedCredits));
    assert_eq!(ledger.project(1).unwrap().issued_credits, 400);
    assert_eq!(ledger.program_state().unwrap().total_credits_issued, 400);
    assert!(ledger.batch(400).is_none());
}

#[test]
fn scenario_issue_on_a_pending_project() {
    let mut ledger = ledger_with_project(1, 1000);
    assert_eq!(issue(&mut ledger, 1, 400), Err(CarbonCreditError::ProjectNotVerified));
    assert!(ledger.batch(0).is_none());
    assert_eq!(ledger.project(1).unwrap().issued_credits, 0);
    assert_eq!(ledger.program_state().unwrap().total_credits_issued, 0);
}

#[test]
fn scenario_retire_beyond_and_within_the_batch() {
    let mut ledger = ledger_with_verified_project(1, 1000);
    assert_eq!(issue(&mut ledger, 1, 400), Ok(0));
    assert_eq!(retire(&mut ledger, holder(), 0, 500), Err(CarbonCreditError::InsufficientCredits));
    assert_eq!(ledger.batch(0).unwrap().retired_amount, 0);
    assert!(ledger.retirement(0, holder()).is_none());
    assert_eq!(retire(&mut ledger, holder(), 0, 400), Ok(()));
    assert_eq!(ledger.batch(0).unwrap().retired_amount, 400);
    assert_eq!(retire(&mut ledger, holder(), 0, 1), Err(CarbonCreditError::InsufficientCredits));
    assert_eq!(ledger.batch(0).unwrap().retired_amount, 400);
}

#[test]
fn issue_credits_records_the_batch() {
    let mut ledger = ledger_with_verified_project(5, 1000);
    let r = ledger.issue_credits(
        authority(),
        5,
        250,
        2023,
        String::from("https://registry.example/evidence/5"),
        holder(),
        333,
        Ok(()),
    );
    assert_eq!(r, Ok(0));
    let b = ledger.batch(0).unwrap();
    assert_eq!(b.project_id, 5);
    assert_eq!(b.batch_id, 0);
    assert_eq!(b.amount, 250);
    assert_eq!(b.vintage_year, 2023);
    assert_eq!(b.metadata_uri, "https://registry.example/evidence/5");
    assert_eq!(b.issued_at, 333);
    assert_eq!(b.retired_amount, 0);
    assert_eq!(b.owner, holder());
    let state = ledger.program_state().unwrap();
    assert_eq!(state.total_credits_issued, 250);
    assert_eq!(state.total_credits_retired, 0);
    assert_eq!(state.project_count, 1);
}

#[test]
fn issue_credits_up_to_the_estimate() {
    let mut ledger = ledger_with_verified_project(1, 1000);
    assert_eq!(issue(&mut ledger, 1, 400), Ok(0));
    assert_eq!(issue(&mut ledger, 1, 600), Ok(400));
    assert_eq!(ledger.project(1).unwrap().issued_credits, 1000);
    assert_eq!(issue(&mut ledger, 1, 1), Err(CarbonCreditError::ExceedsEstimatedCredits));
    assert_eq!(ledger.project(1).unwrap().issued_credits, 1000);
}

#[test]
fn issue_credits_by_another_identity() {
    let mut ledger = ledger_with_verified_project(1, 1000);
    let r = ledger.issue_credits(
        owner(),
        1,
        10,
        2024,
        String::from("u"),
        holder(),
        300,
        Ok(()),
    );
    assert_eq!(r, Err(CarbonCreditError::Unauthorized));
    assert!(ledger.batch(0).is_none());
}

#[test]
fn issue_credits_needs_the_project() {
    let mut ledger = ledger_with_verified_project(1, 1000);
    assert_eq!(issue(&mut ledger, 2, 10), Err(CarbonCreditError::NotFound));
}

#[test]
fn issue_credits_treats_overflow_as_beyond_the_estimate() {
    let mut ledger = ledger_with_verified_project(1, u64::MAX);
    assert_eq!(issue(&mut ledger, 1, 10), Ok(0));
    assert_eq!(issue(&mut ledger, 1, u64::MAX), Err(CarbonCreditError::ExceedsEstimatedCredits));
    assert_eq!(issue(&mut ledger, 1, u64::MAX - 9), Err(CarbonCreditError::ExceedsEstimatedCredits));
    assert_eq!(ledger.project(1).unwrap().issued_credits, 10);
    assert_eq!(issue(&mut ledger, 1, u64::MAX - 10), Ok(10));
    assert_eq!(ledger.project(1).unwrap().issued_credits, u64::MAX);
    assert_eq!(ledger.program_state().unwrap().total_credits_issued, u64::MAX);
}

#[test]
fn issue_credits_treats_overflow_of_the_total_as_beyond_the_estimate() {
    let mut ledger = ledger_with_verified_project(1, u64::MAX);
    register(&mut ledger, 2, 100);
    assert_eq!(ledger.verify_project(authority(), 2, 200), Ok(()));
    assert_eq!(issue(&mut ledger, 1, u64::MAX - 5), Ok(0));
    assert_eq!(issue(&mut ledger, 2, 6), Err(CarbonCreditError::ExceedsEstimatedCredits));
    assert_eq!(ledger.project(2).unwrap().issued_credits, 0);
    assert_eq!(issue(&mut ledger, 2, 5), Ok(u64::MAX - 5));
    assert_eq!(ledger.program_state().unwrap().total_credits_issued, u64::MAX);
}

#[test]
fn issue_credits_aborts_when_the_mint_fails() {
    let mut ledger = ledger_with_verified_project(1, 1000);
    let r = ledger.issue_credits(
        authority(),
        1,
        400,
        2024,
        String::from("u"),
        holder(),
        300,
        Err(TokenFailure { code: 17 }),
    );
    assert_eq!(r, Err(CarbonCreditError::TokenService(TokenFailure { code: 17 })));
    assert!(ledger.batch(0).is_none());
    assert_eq!(ledger.project(1).unwrap().issued_credits, 0);
    assert_eq!(ledger.program_state().unwrap().total_credits_issued, 0);
    assert_eq!(issue(&mut ledger, 1, 400), Ok(0));
}

#[test]
fn issue_credits_checks_before_it_looks_at_the_mint() {
    let mut ledger = ledger_with_project(1, 1000);
    let r = ledger.issue_credits(
        authority(),
        1,
        400,
        2024,
        String::from("u"),
        holder(),
        300,
        Err(TokenFailure { code: 17 }),
    );
    assert_eq!(r, Err(CarbonCreditError::ProjectNotVerified));
}

#[test]
fn issuing_the_same_twice_gives_two_batches() {
    let mut ledger = ledger_with_verified_project(1, 1000);
    assert_eq!(issue(&mut ledger, 1, 300), Ok(0));
    assert_eq!(issue(&mut ledger, 1, 300), Ok(300));
    let first = ledger.batch(0).unwrap();
    let second = ledger.batch(300).unwrap();
    assert_ne!(first.batch_id, second.batch_id);
    assert_eq!(first.amount, 300);
    assert_eq!(second.amount, 300);
    assert_eq!(ledger.project(1).unwrap().issued_credits, 600);
}

#[test]
fn batches_of_one_credit_are_numbered_in_sequence() {
    let mut ledger = ledger_with_verified_project(1, 1000);
    register(&mut ledger, 2, 1000);
    assert_eq!(ledger.verify_project(authority(), 2, 200), Ok(()));
    assert_eq!(issue(&mut ledger, 1, 1), Ok(0));
    assert_eq!(issue(&mut ledger, 2, 1), Ok(1));
    assert_eq!(issue(&mut ledger, 1, 1), Ok(2));
    assert_eq!(issue(&mut ledger, 2, 1), Ok(3));
    assert_eq!(ledger.batch(1).unwrap().project_id, 2);
    assert_eq!(ledger.batch(2).unwrap().project_id, 1);
}

#[test]
fn batch_ids_count_the_credits_issued_before() {
    let mut ledger = ledger_with_verified_project(1, 1000);
    register(&mut ledger, 2, 50);
    assert_eq!(ledger.verify_project(authority(), 2, 200), Ok(()));
    assert_eq!(issue(&mut ledger, 1, 100), Ok(0));
    assert_eq!(issue(&mut ledger, 2, 20), Ok(100));
    assert_eq!(issue(&mut ledger, 1, 7), Ok(120));
    assert_eq!(issue(&mut ledger, 2, 30), Ok(127));
    assert!(ledger.batch(1).is_none());
    assert_eq!(ledger.batch(120).unwrap().amount, 7);
    assert_eq!(ledger.program_state().unwrap().total_credits_issued, 157);
    assert_eq!(ledger.project(1).unwrap().issued_credits, 107);
    assert_eq!(ledger.project(2).unwrap().issued_credits, 50);
}

#[test]
fn an_empty_batch_takes_the_next_id() {
    let mut ledger = ledger_with_verified_project(1, 1000);
    assert_eq!(issue(&mut ledger, 1, 100), Ok(0));
    assert_eq!(issue(&mut ledger, 1, 0), Ok(100));
    assert_eq!(issue(&mut ledger, 1, 5), Err(CarbonCreditError::DuplicateBatch));
    assert_eq!(issue(&mut ledger, 1, 0), Err(CarbonCreditError::DuplicateBatch));
    assert_eq!(ledger.batch(100).unwrap().amount, 0);
    assert_eq!(ledger.program_state().unwrap().total_credits_issued, 100);
    assert_eq!(ledger.project(1).unwrap().issued_credits, 100);
}

#[test]
fn retire_credits_records_the_retirement() {
    let mut ledger = ledger_with_verified_project(1, 1000);
    assert_eq!(issue(&mut ledger, 1, 400), Ok(0));
    let r = ledger.retire_credits(holder(), 0, 150, String::from("annual report"), 444, Ok(()));
    assert_eq!(r, Ok(()));
    let record = ledger.retirement(0, holder()).unwrap();
    assert_eq!(record.batch_id, 0);
    assert_eq!(record.amount, 150);
    assert_eq!(record.reason, "annual report");
    assert_eq!(record.retired_by, holder());
    assert_eq!(record.retired_at, 444);
    assert_eq!(ledger.batch(0).unwrap().retired_amount, 150);
    assert_eq!(ledger.batch(0).unwrap().amount, 400);
    assert_eq!(ledger.project(1).unwrap().retired_credits, 150);
    assert_eq!(ledger.project(1).unwrap().issued_credits, 400);
    let state = ledger.program_state().unwrap();
    assert_eq!(state.total_credits_retired, 150);
    assert_eq!(state.total_credits_issued, 400);
}

#[test]
fn retiring_twice_from_one_batch_is_refused() {
    let mut ledger = ledger_with_verified_project(1, 1000);
    assert_eq!(issue(&mut ledger, 1, 400), Ok(0));
    assert_eq!(retire(&mut ledger, holder(), 0, 100), Ok(()));
    assert_eq!(retire(&mut ledger, holder(), 0, 100), Err(CarbonCreditError::DuplicateRetirement));
    assert_eq!(retire(&mut ledger, holder(), 0, 300), Err(CarbonCreditError::DuplicateRetirement));
    assert_eq!(retire(&mut ledger, holder(), 0, 301), Err(CarbonCreditError::InsufficientCredits));
    assert_eq!(ledger.batch(0).unwrap().retired_amount, 100);
    assert_eq!(ledger.retirement(0, holder()).unwrap().amount, 100);
    assert_eq!(ledger.program_state().unwrap().total_credits_retired, 100);
}

#[test]
fn two_identities_retire_from_one_batch() {
    let mut ledger = ledger_with_verified_project(1, 1000);
    assert_eq!(issue(&mut ledger, 1, 400), Ok(0));
    assert_eq!(retire(&mut ledger, holder(), 0, 100), Ok(()));
    assert_eq!(retire(&mut ledger, owner(), 0, 300), Ok(()));
    assert_eq!(ledger.batch(0).unwrap().retired_amount, 400);
    assert_eq!(ledger.retirement(0, owner()).unwrap().amount, 300);
    assert_eq!(retire(&mut ledger, authority(), 0, 1), Err(CarbonCreditError::InsufficientCredits));
}

#[test]
fn one_identity_retires_from_two_batches() {
    let mut ledger = ledger_with_verified_project(1, 1000);
    assert_eq!(issue(&mut ledger, 1, 400), Ok(0));
    assert_eq!(issue(&mut ledger, 1, 100), Ok(400));
    assert_eq!(retire(&mut ledger, holder(), 0, 10), Ok(()));
    assert_eq!(retire(&mut ledger, holder(), 400, 20), Ok(()));
    assert_eq!(ledger.retirement(400, holder()).unwrap().amount, 20);
    assert_eq!(ledger.project(1).unwrap().retired_credits, 30);
    assert_eq!(ledger.program_state().unwrap().total_credits_retired, 30);
}

#[test]
fn retire_credits_needs_the_batch() {
    let mut ledger = ledger_with_verified_project(1, 1000);
    assert_eq!(issue(&mut ledger, 1, 400), Ok(0));
    assert_eq!(retire(&mut ledger, holder(), 1, 1), Err(CarbonCreditError::NotFound));
}

#[test]
fn retire_credits_aborts_when_the_burn_fails() {
    let mut ledger = ledger_with_verified_project(1, 1000);
    assert_eq!(issue(&mut ledger, 1, 400), Ok(0));
    let r = ledger.retire_credits(
        holder(),
        0,
        100,
        String::from("r"),
        400,
        Err(TokenFailure { code: 1 }),
    );
    assert_eq!(r, Err(CarbonCreditError::TokenService(TokenFailure { code: 1 })));
    assert_eq!(ledger.batch(0).unwrap().retired_amount, 0);
    assert!(ledger.retirement(0, holder()).is_none());
    assert_eq!(ledger.project(1).unwrap().retired_credits, 0);
    assert_eq!(ledger.program_state().unwrap().total_credits_retired, 0);
    assert_eq!(retire(&mut ledger, holder(), 0, 100), Ok(()));
}

#[test]
fn retiring_nothing_still_records_a_retirement() {
    let mut ledger = ledger_with_verified_project(1, 1000);
    assert_eq!(issue(&mut ledger, 1, 400), Ok(0));
    assert_eq!(retire(&mut ledger, holder(), 0, 0), Ok(()));
    assert_eq!(ledger.retirement(0, holder()).unwrap().amount, 0);
    assert_eq!(retire(&mut ledger, holder(), 0, 5), Err(CarbonCreditError::DuplicateRetirement));
}

#[test]
fn totals_are_the_sums_over_the_batches() {
    let mut ledger = ledger_with_verified_project(1, 1000);
    register(&mut ledger, 2, 500);
    assert_eq!(ledger.verify_project(authority(), 2, 200), Ok(()));
    let ids = [
        issue(&mut ledger, 1, 100).unwrap(),
        issue(&mut ledger, 2, 200).unwrap(),
        issue(&mut ledger, 1, 300).unwrap(),
    ];
    assert_eq!(ids, [0, 100, 300]);
    assert_eq!(retire(&mut ledger, holder(), 0, 40), Ok(()));
    assert_eq!(retire(&mut ledger, owner(), 100, 200), Ok(()));
    assert_eq!(retire(&mut ledger, holder(), 300, 1), Ok(()));
    assert_eq!(retire(&mut ledger, owner(), 0, 60), Ok(()));
    let mut issued = 0;
    let mut retired = 0;
    for id in ids {
        let b = ledger.batch(id).unwrap();
        assert!(b.retired_amount <= b.amount);
        issued += b.amount;
        retired += b.retired_amount;
    }
    let state = ledger.program_state().unwrap();
    assert_eq!(state.total_credits_issued, issued);
    assert_eq!(state.total_credits_retired, retired);
    assert_eq!(state.total_credits_issued, 600);
    assert_eq!(state.total_credits_retired, 301);
    assert_eq!(ledger.project(1).unwrap().issued_credits, 400);
    assert_eq!(ledger.project(1).unwrap().retired_credits, 101);
    assert_eq!(ledger.project(2).unwrap().issued_credits, 200);
    assert_eq!(ledger.project(2).unwrap().retired_credits, 200);
}

#[test]
fn transfer_credits_changes_no_record() {
    let mut ledger = ledger_with_verified_project(1, 1000);
    assert_eq!(issue(&mut ledger, 1, 400), Ok(0));
    let before = ledger.program_state();
    assert_eq!(ledger.transfer_credits(holder(), who(10), who(11), 150, Ok(())), Ok(()));
    assert_eq!(ledger.program_state(), before);
    assert_eq!(ledger.batch(0).unwrap().owner, holder());
    assert_eq!(ledger.batch(0).unwrap().amount, 400);
    assert_eq!(ledger.project(1).unwrap().issued_credits, 400);
}

#[test]
fn transfer_credits_hands_on_the_refusal() {
    let ledger = Ledger::new();
    assert_eq!(
        ledger.transfer_credits(holder(), who(10), who(11), 150, Err(TokenFailure { code: 4 })),
        Err(CarbonCreditError::TokenService(TokenFailure { code: 4 }))
    );
}

#[test]
fn ledger_names_the_token_instructions() {
    let mut ledger = ledger_with_verified_project(1, 1000);
    assert_eq!(
        ledger.issue_credits_instruction(authority(), 1, 400, who(20), who(21)),
        Ok(TokenInstruction::MintTo { authority: who(20), to: who(21), amount: 400 })
    );
    assert_eq!(
        ledger.issue_credits_instruction(owner(), 1, 400, who(20), who(21)),
        Err(CarbonCreditError::Unauthorized)
    );
    assert_eq!(
        ledger.issue_credits_instruction(authority(), 1, 1001, who(20), who(21)),
        Err(CarbonCreditError::ExceedsEstimatedCredits)
    );
    assert_eq!(
        ledger.issue_credits_instruction(authority(), 3, 1, who(20), who(21)),
        Err(CarbonCreditError::NotFound)
    );
    assert_eq!(issue(&mut ledger, 1, 400), Ok(0));
    assert_eq!(
        ledger.retire_credits_instruction(holder(), 0, 400, who(22)),
        Ok(TokenInstruction::Burn { authority: holder(), from: who(22), amount: 400 })
    );
    assert_eq!(
        ledger.retire_credits_instruction(holder(), 0, 401, who(22)),
        Err(CarbonCreditError::InsufficientCredits)
    );
    assert_eq!(
        ledger.retire_credits_instruction(holder(), 9, 1, who(22)),
        Err(CarbonCreditError::NotFound)
    );
    assert_eq!(retire(&mut ledger, holder(), 0, 1), Ok(()));
    assert_eq!(
        ledger.retire_credits_instruction(holder(), 0, 1, who(22)),
        Err(CarbonCreditError::DuplicateRetirement)
    );
    assert_eq!(
        ledger.transfer_credits_instruction(holder(), who(10), who(11), 5),
        TokenInstruction::Transfer { authority: holder(), from: who(10), to: who(11), amount: 5 }
    );
}

#[test]
fn identities_compare_by_their_bytes() {
    let mut bytes = [7u8; 32];
    assert!(Identity::new(bytes).same(&who(7)));
    bytes[31] = 8;
    assert!(!Identity::new(bytes).same(&who(7)));
    bytes[31] = 7;
    bytes[0] = 0;
    assert!(!Identity::new(bytes).same(&who(7)));
    assert_eq!(Identity::new(bytes).bytes, bytes);
}
