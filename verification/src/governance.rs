//! Governance transition handlers: create a proposal, cast a vote,
//! execute a proposal.
//!
//! A proposal is a small time-boxed state machine: it is open while the
//! current time is at most its end time, closed-pending once the window
//! has passed, and then either executed (a strict majority of yes votes,
//! once) or closed-failed (terminal).  The current time is an input from
//! the host's clock collaborator, never read here.

use vstd::prelude::*;
use crate::{Identity, VortexError};
use crate::auth::{spec_is_authorized, require_signer};
use crate::events::VortexEvent;

verus! {

/// A typed governance instruction, already decoded from the wire by the
/// host.
#[derive(Clone, Debug, PartialEq)]
pub enum GovernanceInstruction {
    /// Create a new proposal.
    CreateProposal { title: String, description: String, voting_period: i64 },
    /// Cast a vote on a proposal.
    CastVote { vote: bool, amount: u64 },
    /// Execute a proposal whose voting window has closed.
    ExecuteProposal {},
}

/// A governance proposal and its vote tally.
#[derive(Clone, Debug, PartialEq)]
pub struct Proposal {
    pub creator: Identity,
    pub title: String,
    pub description: String,
    pub start_time: i64,
    pub end_time: i64,
    pub yes_votes: u64,
    pub no_votes: u64,
    pub executed: bool,
}

/// Where a proposal stands at a given time.
#[derive(Clone, Copy, Debug, PartialEq, Eq, Structural)]
pub enum ProposalState {
    /// Votes are still accepted: the current time is at most the end time.
    Open,
    /// The window has closed with a strict yes majority; execution is owed.
    ClosedPending,
    /// Executed, terminal.
    Executed,
    /// Closed without a strict yes majority, terminal.
    ClosedFailed,
}

impl Proposal {
    /// The structural invariant of a stored proposal.
    pub open spec fn valid(self) -> bool {
        self.end_time > self.start_time
    }

    /// Rejects a corrupt or tampered record read from storage.
    pub fn validate(&self) -> (r: Result<(), VortexError>)
        ensures
            r == (if self.valid() {
                Ok::<(), VortexError>(())
            } else {
                Err::<(), VortexError>(VortexError::MalformedRecord)
            }),
    {
        if self.end_time > self.start_time {
            Ok(())
        } else {
            Err(VortexError::MalformedRecord)
        }
    }

    /// The proposal's lifecycle state at time `now`.
    pub open spec fn spec_state(self, now: i64) -> ProposalState {
        if self.executed {
            ProposalState::Executed
        } else if now <= self.end_time {
            ProposalState::Open
        } else if self.yes_votes > self.no_votes {
            ProposalState::ClosedPending
        } else {
            ProposalState::ClosedFailed
        }
    }

    /// The proposal's lifecycle state at time `now`.
    pub fn state(&self, now: i64) -> (s: ProposalState)
        ensures
            s == self.spec_state(now),
    {
        if self.executed {
            ProposalState::Executed
        } else if now <= self.end_time {
            ProposalState::Open
        } else if self.yes_votes > self.no_votes {
            ProposalState::ClosedPending
        } else {
            ProposalState::ClosedFailed
        }
    }
}

/// The exact transition `process_create_proposal` implements.
pub open spec fn spec_create_proposal(
    caller: Identity,
    proposal_id: Identity,
    signers: Seq<Identity>,
    title: String,
    description: String,
    voting_period: i64,
    now: i64,
) -> Result<(Proposal, VortexEvent), VortexError> {
    if !spec_is_authorized(signers, caller) {
        Err(VortexError::MissingAuthorization)
    } else if voting_period <= 0 {
        Err(VortexError::MalformedRecord)
    } else {
        Ok(
            (
                Proposal {
                    creator: caller,
                    title,
                    description,
                    start_time: now,
                    end_time: (now + voting_period) as i64,
                    yes_votes: 0,
                    no_votes: 0,
                    executed: false,
                },
                VortexEvent::ProposalCreated { creator: caller, proposal_id, title, voting_period },
            ),
        )
    }
}

/// Create a proposal: the voting window opens at `now` and closes at
/// `now + voting_period`, the tallies start at zero.  A voting period of
/// zero or less would violate the proposal's invariant and is rejected
/// as `MalformedRecord`.
pub fn process_create_proposal(
    caller: Identity,
    proposal_id: Identity,
    signers: &Vec<Identity>,
    title: String,
    description: String,
    voting_period: i64,
    now: i64,
) -> (r: Result<(Proposal, VortexEvent), VortexError>)
    requires
        voting_period > 0 ==> now + voting_period <= i64::MAX,
    ensures
        r == spec_create_proposal(
            caller,
            proposal_id,
            signers@,
            title,
            description,
            voting_period,
            now,
        ),
        r matches Ok(p) ==> p.0.valid() && p.0.spec_state(now) == ProposalState::Open,
{
    require_signer(signers, caller)?;
    if voting_period <= 0 {
        return Err(VortexError::MalformedRecord);
    }
    let event_title = title.clone();
    let proposal = Proposal {
        creator: caller,
        title,
        description,
        start_time: now,
        end_time: now + voting_period,
        yes_votes: 0,
        no_votes: 0,
        executed: false,
    };
    Ok(
        (
            proposal,
            VortexEvent::ProposalCreated {
                creator: caller,
                proposal_id,
                title: event_title,
                voting_period,
            },
        ),
    )
}

/// The exact transition `process_cast_vote` implements.  The new tally is
/// the old one plus the vote's weight; the cast to `u64` is immaterial
/// whenever the sum fits, which the executable handler requires.
pub open spec fn spec_cast_vote(
    proposal: Proposal,
    voter: Identity,
    proposal_id: Identity,
    signers: Seq<Identity>,
    vote: bool,
    amount: u64,
    now: i64,
    weight_confirmed: bool,
) -> Result<(Proposal, VortexEvent), VortexError> {
    if !spec_is_authorized(signers, voter) {
        Err(VortexError::MissingAuthorization)
    } else if !proposal.valid() {
        Err(VortexError::MalformedRecord)
    } else if now > proposal.end_time {
        Err(VortexError::VotingClosed)
    } else if amount == 0 || !weight_confirmed {
        Err(VortexError::InsufficientFunds)
    } else {
        Ok(
            (
                if vote {
                    Proposal { yes_votes: (proposal.yes_votes + amount) as u64, ..proposal }
                } else {
                    Proposal { no_votes: (proposal.no_votes + amount) as u64, ..proposal }
                },
                VortexEvent::VoteCast { voter, proposal_id, amount, vote },
            ),
        )
    }
}

/// Cast a vote while the window is open: `amount` is added to the yes or
/// the no tally.  `weight_confirmed` is the token or stake collaborator's
/// report that the voter's eligible voting weight covers `amount`; a
/// false report, or a zero amount, fails with `InsufficientFunds`.  The
/// core does not itself track individual voters, so nothing here prevents
/// one identity from voting repeatedly; the host's collaborator report is
/// the place to enforce that.
pub fn process_cast_vote(
    proposal: &Proposal,
    voter: Identity,
    proposal_id: Identity,
    signers: &Vec<Identity>,
    vote: bool,
    amount: u64,
    now: i64,
    weight_confirmed: bool,
) -> (r: Result<(Proposal, VortexEvent), VortexError>)
    requires
        vote ==> proposal.yes_votes + amount <= u64::MAX,
        !vote ==> proposal.no_votes + amount <= u64::MAX,
    ensures
        r == spec_cast_vote(
            *proposal,
            voter,
            proposal_id,
            signers@,
            vote,
            amount,
            now,
            weight_confirmed,
        ),
{
    require_signer(signers, voter)?;
    proposal.validate()?;
    if now > proposal.end_time {
        return Err(VortexError::VotingClosed);
    }
    if amount == 0 || !weight_confirmed {
        return Err(VortexError::InsufficientFunds);
    }
    let new_proposal = Proposal {
        creator: proposal.creator,
        title: proposal.title.clone(),
        description: proposal.description.clone(),
        start_time: proposal.start_time,
        end_time: proposal.end_time,
        yes_votes: if vote {
            proposal.yes_votes + amount
        } else {
            proposal.yes_votes
        },
        no_votes: if vote {
            proposal.no_votes
        } else {
            proposal.no_votes + amount
        },
        executed: proposal.executed,
    };
    Ok((new_proposal, VortexEvent::VoteCast { voter, proposal_id, amount, vote }))
}

/// The exact transition `process_execute_proposal` implements.
pub open spec fn spec_execute_proposal(
    proposal: Proposal,
    executor: Identity,
    proposal_id: Identity,
    signers: Seq<Identity>,
    now: i64,
) -> Result<(Proposal, VortexEvent), VortexError> {
    if !spec_is_authorized(signers, executor) {
        Err(VortexError::MissingAuthorization)
    } else if !proposal.valid() {
        Err(VortexError::MalformedRecord)
    } else if now <= proposal.end_time {
        Err(VortexError::VotingStillOpen)
    } else if proposal.executed {
        Err(VortexError::AlreadyExecuted)
    } else if proposal.yes_votes > proposal.no_votes {
        Ok(
            (
                Proposal { executed: true, ..proposal },
                VortexEvent::ProposalExecuted {
                    proposal_id,
                    yes_votes: proposal.yes_votes,
                    no_votes: proposal.no_votes,
                },
            ),
        )
    } else {
        Err(VortexError::ProposalRejected)
    }
}

/// Execute a proposal once its window has closed.  Execution succeeds
/// only on a strict yes majority — an equal tally counts as not passed —
/// and only once; the enacting of the proposal's effect is delegated to
/// the host, atomically with the commit.
pub fn process_execute_proposal(
    proposal: &Proposal,
    executor: Identity,
    proposal_id: Identity,
    signers: &Vec<Identity>,
    now: i64,
) -> (r: Result<(Proposal, VortexEvent), VortexError>)
    ensures
        r == spec_execute_proposal(*proposal, executor, proposal_id, signers@, now),
        r matches Ok(p) ==> p.0.executed && p.0.spec_state(now) == ProposalState::Executed,
{
    require_signer(signers, executor)?;
    proposal.validate()?;
    if now <= proposal.end_time {
        return Err(VortexError::VotingStillOpen);
    }
    if proposal.executed {
        return Err(VortexError::AlreadyExecuted);
    }
    if proposal.yes_votes > proposal.no_votes {
        let new_proposal = Proposal {
            creator: proposal.creator,
            title: proposal.title.clone(),
            description: proposal.description.clone(),
            start_time: proposal.start_time,
            end_time: proposal.end_time,
            yes_votes: proposal.yes_votes,
            no_votes: proposal.no_votes,
            executed: true,
        };
        Ok(
            (
                new_proposal,
                VortexEvent::ProposalExecuted {
                    proposal_id,
                    yes_votes: proposal.yes_votes,
                    no_votes: proposal.no_votes,
                },
            ),
        )
    } else {
        Err(VortexError::ProposalRejected)
    }
}

/// The exact routing and transition of the governance dispatcher.
pub open spec fn spec_process_governance(
    instruction: GovernanceInstruction,
    proposal: Proposal,
    caller: Identity,
    proposal_id: Identity,
    signers: Seq<Identity>,
    now: i64,
    weight_confirmed: bool,
) -> Result<(Proposal, VortexEvent), VortexError> {
    match instruction {
        GovernanceInstruction::CreateProposal { title, description, voting_period } => {
            spec_create_proposal(caller, proposal_id, signers, title, description, voting_period, now)
        },
        GovernanceInstruction::CastVote { vote, amount } => {
            spec_cast_vote(proposal, caller, proposal_id, signers, vote, amount, now, weight_confirmed)
        },
        GovernanceInstruction::ExecuteProposal {  } => {
            spec_execute_proposal(proposal, caller, proposal_id, signers, now)
        },
    }
}

/// Route a typed governance instruction to its handler.  `proposal` is
/// the current contents of the proposal record's slot; a `CreateProposal`
/// writes a fresh record over it without reading it.
pub fn process_instruction(
    instruction: GovernanceInstruction,
    proposal: &Proposal,
    caller: Identity,
    proposal_id: Identity,
    signers: &Vec<Identity>,
    now: i64,
    weight_confirmed: bool,
) -> (r: Result<(Proposal, VortexEvent), VortexError>)
    requires
        (match instruction {
            GovernanceInstruction::CreateProposal { voting_period, .. } => voting_period <= 0
                || now + voting_period <= i64::MAX,
            _ => true,
        }),
        (match instruction {
            GovernanceInstruction::CastVote { vote, amount } => (if vote {
                proposal.yes_votes + amount
            } else {
                proposal.no_votes + amount
            }) <= u64::MAX,
            _ => true,
        }),
    ensures
        r == spec_process_governance(
            instruction,
            *proposal,
            caller,
            proposal_id,
            signers@,
            now,
            weight_confirmed,
        ),
{
    match instruction {
        GovernanceInstruction::CreateProposal { title, description, voting_period } => {
            process_create_proposal(caller, proposal_id, signers, title, description, voting_period, now)
        },
        GovernanceInstruction::CastVote { vote, amount } => {
            process_cast_vote(proposal, caller, proposal_id, signers, vote, amount, now, weight_confirmed)
        },
        GovernanceInstruction::ExecuteProposal {  } => {
            process_execute_proposal(proposal, caller, proposal_id, signers, now)
        },
    }
}

/// A vote cast after the window has closed always fails with
/// `VotingClosed`, whatever the vote, its weight or the collaborator's
/// report; the transition writes nothing, so the tallies are unchanged.
pub proof fn lemma_vote_after_deadline_rejected(
    proposal: Proposal,
    voter: Identity,
    proposal_id: Identity,
    signers: Seq<Identity>,
    vote: bool,
    amount: u64,
    now: i64,
    weight_confirmed: bool,
)
    requires
        proposal.valid(),
        spec_is_authorized(signers, voter),
        now > proposal.end_time,
    ensures
        spec_cast_vote(proposal, voter, proposal_id, signers, vote, amount, now, weight_confirmed)
            == Err::<(Proposal, VortexEvent), VortexError>(VortexError::VotingClosed),
{
}

/// An equal tally is not a majority: executing a proposal whose yes and
/// no tallies are equal, after its window has closed, fails with
/// `ProposalRejected` rather than succeeding.
pub proof fn lemma_tie_is_rejected(
    proposal: Proposal,
    executor: Identity,
    proposal_id: Identity,
    signers: Seq<Identity>,
    now: i64,
)
    requires
        proposal.valid(),
        spec_is_authorized(signers, executor),
        now > proposal.end_time,
        !proposal.executed,
        proposal.yes_votes == proposal.no_votes,
    ensures
        spec_execute_proposal(proposal, executor, proposal_id, signers, now) == Err::<
            (Proposal, VortexEvent),
            VortexError,
        >(VortexError::ProposalRejected),
{
}

/// An executed proposal is terminal: any further execution attempt fails
/// with `AlreadyExecuted`, and any later vote fails with `VotingClosed`.
pub proof fn lemma_executed_is_terminal(
    proposal: Proposal,
    executor: Identity,
    proposal_id: Identity,
    signers: Seq<Identity>,
    now: i64,
    executed_proposal: Proposal,
    event: VortexEvent,
    executor2: Identity,
    proposal_id2: Identity,
    signers2: Seq<Identity>,
    now2: i64,
)
    requires
        spec_execute_proposal(proposal, executor, proposal_id, signers, now) == Ok::<
            (Proposal, VortexEvent),
            VortexError,
        >((executed_proposal, event)),
        spec_is_authorized(signers2, executor2),
    ensures
        spec_execute_proposal(executed_proposal, executor2, proposal_id2, signers2, now2) is Err,
        now2 > executed_proposal.end_time ==> spec_execute_proposal(
            executed_proposal,
            executor2,
            proposal_id2,
            signers2,
            now2,
        ) == Err::<(Proposal, VortexEvent), VortexError>(VortexError::AlreadyExecuted),
{
}

} // verus!
