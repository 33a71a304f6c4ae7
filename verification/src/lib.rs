//! A deterministic state-transition core for a token, marketplace and
//! governance program.
//!
//! Every handler is a pure function from the current record, the typed
//! instruction and its context (authorizing identities, the current time,
//! collaborator reports) to either a new record plus the event describing
//! the transition, or the first failing check's error.  Storage commits,
//! signature verification, the clock and token transfers are external
//! collaborators: the host performs them and hands their results in as
//! plain values.

use vstd::prelude::*;

pub mod auth;
pub mod events;
pub mod governance;
pub mod marketplace;
pub mod token;

pub use token::process_instruction as process_token_instruction;
pub use marketplace::process_instruction as process_marketplace_instruction;
pub use governance::process_instruction as process_governance_instruction;
pub use events::VortexEvent;

verus! {

/// An opaque 32-byte public key identifying an account or party,
/// held as four 64-bit words.
#[derive(Clone, Copy, Debug, PartialEq, Eq, Structural, Hash)]
pub struct Identity {
    pub w0: u64,
    pub w1: u64,
    pub w2: u64,
    pub w3: u64,
}

impl Identity {
    pub fn new(w0: u64, w1: u64, w2: u64, w3: u64) -> (r: Identity)
        ensures
            r == (Identity { w0, w1, w2, w3 }),
    {
        Identity { w0, w1, w2, w3 }
    }
}

/// The error taxonomy of the transition core.  Every handler returns the
/// first failing check's error; nothing is written on failure.
#[derive(Clone, Copy, Debug, PartialEq, Eq, Structural)]
pub enum VortexError {
    /// A required identity did not authorize the instruction.
    MissingAuthorization,
    /// An authorized identity is not the expected owner of the record.
    Unauthorized,
    /// The supply state was already initialized.
    AlreadyInitialized,
    /// A royalty percentage above 100 was supplied.
    InvalidRoyalty,
    /// The listing is no longer active.
    ListingInactive,
    /// The offered price does not match the listed price.
    PriceMismatch,
    /// The token collaborator reported the caller's balance as insufficient.
    InsufficientFunds,
    /// The proposal's voting window has closed.
    VotingClosed,
    /// The proposal's voting window is still open.
    VotingStillOpen,
    /// The proposal was already executed.
    AlreadyExecuted,
    /// The proposal did not gather a strict majority of yes votes.
    ProposalRejected,
    /// A record read from storage violates its invariant.
    MalformedRecord,
}

impl VortexError {
    /// A stable numeric code for each error, for hosts that surface errors
    /// as integers.
    pub fn code(&self) -> (c: u32)
        ensures
            c == spec_error_code(*self),
    {
        match self {
            VortexError::MissingAuthorization => 0,
            VortexError::Unauthorized => 1,
            VortexError::AlreadyInitialized => 2,
            VortexError::InvalidRoyalty => 3,
            VortexError::ListingInactive => 4,
            VortexError::PriceMismatch => 5,
            VortexError::InsufficientFunds => 6,
            VortexError::VotingClosed => 7,
            VortexError::VotingStillOpen => 8,
            VortexError::AlreadyExecuted => 9,
            VortexError::ProposalRejected => 10,
            VortexError::MalformedRecord => 11,
        }
    }
}

pub open spec fn spec_error_code(e: VortexError) -> u32 {
    match e {
        VortexError::MissingAuthorization => 0,
        VortexError::Unauthorized => 1,
        VortexError::AlreadyInitialized => 2,
        VortexError::InvalidRoyalty => 3,
        VortexError::ListingInactive => 4,
        VortexError::PriceMismatch => 5,
        VortexError::InsufficientFunds => 6,
        VortexError::VotingClosed => 7,
        VortexError::VotingStillOpen => 8,
        VortexError::AlreadyExecuted => 9,
        VortexError::ProposalRejected => 10,
        VortexError::MalformedRecord => 11,
    }
}

pub fn add(left: u64, right: u64) -> (r: u64)
    requires
        left + right <= u64::MAX,
    ensures
        r == left + right,
{
    left + right
}

} // verus!
