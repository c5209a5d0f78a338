//! A ledger for carbon-offset credits: projects are registered and verified,
//! credits are issued against them in batches, and holders retire or transfer
//! them.
//!
//! The token service, the record store and the clock are collaborators of the
//! caller. Every transition here takes what they answered as plain values and
//! decides which state change is legal.

pub mod error;
pub mod identity;
pub mod instructions;
pub mod laws;
pub mod ledger;
pub mod model;
pub mod state;
pub mod sums;
pub mod token;

pub use error::{CarbonCreditError, TokenFailure};
pub use identity::Identity;
pub use instructions::{
    create_project, initialize_program, issue_credits, retire_credits, transfer_credits,
    verify_project, CreateProject, InitializeProgram, IssueCredits, RetireCredits,
    TransferCredits, VerifyProject,
};
pub use ledger::Ledger;
pub use state::{CreditBatch, ProgramState, Project, ProjectStatus, ProjectType, Retirement};
pub use token::TokenInstruction;
