//! Token transition handlers: initialize the fungible supply, create a
//! vesting schedule, create a stake.
//!
//! Each handler validates and produces the new record plus the event
//! describing the transition; the host commits the record and performs
//! the delegated token-ledger work (unit creation, escrow, fund lock)
//! atomically with the commit, all-or-nothing.

use vstd::prelude::*;
use crate::{Identity, VortexError};
use crate::auth::{spec_is_authorized, spec_require_signer, require_signer};
use crate::events::VortexEvent;

verus! {

/// A typed token instruction, already decoded from the wire by the host.
#[derive(Clone, Copy, Debug, PartialEq, Eq, Structural)]
pub enum TolaInstruction {
    /// Initialize the fungible token supply.
    Initialize { total_supply: u64 },
    /// Create a vesting schedule.
    CreateVesting { amount: u64, start_timestamp: i64, duration: i64 },
    /// Create a stake.
    Stake { amount: u64, duration: i64 },
}

/// The fungible supply state.  `initialized` moves false to true exactly
/// once; `total_supply` is fixed at initialization.  Its invariants are
/// transition laws, not structural facts about one value, so reading it
/// needs no validation; see `lemma_initialize_only_once`.
#[derive(Clone, Copy, Debug, PartialEq, Eq, Structural)]
pub struct TolaState {
    pub total_supply: u64,
    pub mint_authority: Identity,
    pub initialized: bool,
}

/// A vesting schedule: `amount` units releasing to `beneficiary` over
/// `duration` seconds starting at `start_time`.
#[derive(Clone, Copy, Debug, PartialEq, Eq, Structural)]
pub struct VestingSchedule {
    pub beneficiary: Identity,
    pub amount: u64,
    pub start_time: i64,
    pub duration: i64,
}

impl VestingSchedule {
    /// The structural invariant of a stored vesting schedule.
    pub open spec fn valid(self) -> bool {
        self.amount > 0 && self.duration >= 0
    }

    /// Rejects a corrupt or tampered record read from storage.
    pub fn validate(&self) -> (r: Result<(), VortexError>)
        ensures
            r == (if self.valid() {
                Ok::<(), VortexError>(())
            } else {
                Err::<(), VortexError>(VortexError::MalformedRecord)
            }),
    {
        if self.amount > 0 && self.duration >= 0 {
            Ok(())
        } else {
            Err(VortexError::MalformedRecord)
        }
    }
}

/// A stake: `amount` units locked by `staker` for `duration` seconds.
#[derive(Clone, Copy, Debug, PartialEq, Eq, Structural)]
pub struct StakeRecord {
    pub staker: Identity,
    pub amount: u64,
    pub duration: i64,
}

impl StakeRecord {
    /// The structural invariant of a stored stake record.
    pub open spec fn valid(self) -> bool {
        self.amount > 0 && self.duration >= 0
    }

    /// Rejects a corrupt or tampered record read from storage.
    pub fn validate(&self) -> (r: Result<(), VortexError>)
        ensures
            r == (if self.valid() {
                Ok::<(), VortexError>(())
            } else {
                Err::<(), VortexError>(VortexError::MalformedRecord)
            }),
    {
        if self.amount > 0 && self.duration >= 0 {
            Ok(())
        } else {
            Err(VortexError::MalformedRecord)
        }
    }
}

/// The record a token transition wrote.
#[derive(Clone, Copy, Debug, PartialEq, Eq, Structural)]
pub enum TokenOutcome {
    Supply(TolaState),
    Vesting(VestingSchedule),
    Stake(StakeRecord),
}

/// The exact transition `process_initialize` implements.
pub open spec fn spec_initialize(
    state: TolaState,
    caller: Identity,
    mint: Identity,
    signers: Seq<Identity>,
    total_supply: u64,
) -> Result<(TolaState, VortexEvent), VortexError> {
    if !spec_is_authorized(signers, caller) {
        Err(VortexError::MissingAuthorization)
    } else if state.initialized {
        Err(VortexError::AlreadyInitialized)
    } else {
        Ok(
            (
                TolaState { total_supply, mint_authority: caller, initialized: true },
                VortexEvent::TokenInitialized { mint, total_supply },
            ),
        )
    }
}

/// Initialize the fungible supply: set the total supply and the mint
/// authority and mark the state initialized, exactly once.  The actual
/// creation of units is delegated to the external token ledger, which the
/// host invokes atomically with the commit of the returned state.
pub fn process_initialize(
    state: &TolaState,
    caller: Identity,
    mint: Identity,
    signers: &Vec<Identity>,
    total_supply: u64,
) -> (r: Result<(TolaState, VortexEvent), VortexError>)
    ensures
        r == spec_initialize(*state, caller, mint, signers@, total_supply),
{
    require_signer(signers, caller)?;
    if state.initialized {
        return Err(VortexError::AlreadyInitialized);
    }
    let new_state = TolaState { total_supply, mint_authority: caller, initialized: true };
    Ok((new_state, VortexEvent::TokenInitialized { mint, total_supply }))
}

/// The exact transition `process_create_vesting` implements.
pub open spec fn spec_create_vesting(
    caller: Identity,
    beneficiary: Identity,
    signers: Seq<Identity>,
    amount: u64,
    start_timestamp: i64,
    duration: i64,
    funds_reserved: bool,
) -> Result<(VestingSchedule, VortexEvent), VortexError> {
    if !spec_is_authorized(signers, caller) {
        Err(VortexError::MissingAuthorization)
    } else if amount == 0 || duration < 0 {
        Err(VortexError::MalformedRecord)
    } else if !funds_reserved {
        Err(VortexError::InsufficientFunds)
    } else {
        Ok(
            (
                VestingSchedule { beneficiary, amount, start_time: start_timestamp, duration },
                VortexEvent::VestingCreated {
                    beneficiary,
                    amount,
                    start_time: start_timestamp,
                    duration,
                },
            ),
        )
    }
}

/// Create a vesting schedule.  `funds_reserved` is the token
/// collaborator's report that the caller's balance covers `amount` and
/// the funds are escrowed; a false report fails the transition with
/// `InsufficientFunds`.  An amount of zero or a negative duration would
/// violate the schedule's invariant and is rejected as `MalformedRecord`.
pub fn process_create_vesting(
    caller: Identity,
    beneficiary: Identity,
    signers: &Vec<Identity>,
    amount: u64,
    start_timestamp: i64,
    duration: i64,
    funds_reserved: bool,
) -> (r: Result<(VestingSchedule, VortexEvent), VortexError>)
    ensures
        r == spec_create_vesting(
            caller,
            beneficiary,
            signers@,
            amount,
            start_timestamp,
            duration,
            funds_reserved,
        ),
        r matches Ok(p) ==> p.0.valid(),
{
    require_signer(signers, caller)?;
    if amount == 0 || duration < 0 {
        return Err(VortexError::MalformedRecord);
    }
    if !funds_reserved {
        return Err(VortexError::InsufficientFunds);
    }
    let schedule = VestingSchedule { beneficiary, amount, start_time: start_timestamp, duration };
    Ok(
        (
            schedule,
            VortexEvent::VestingCreated { beneficiary, amount, start_time: start_timestamp, duration },
        ),
    )
}

/// The exact transition `process_stake` implements.
pub open spec fn spec_stake(
    caller: Identity,
    signers: Seq<Identity>,
    amount: u64,
    duration: i64,
    funds_reserved: bool,
) -> Result<(StakeRecord, VortexEvent), VortexError> {
    if !spec_is_authorized(signers, caller) {
        Err(VortexError::MissingAuthorization)
    } else if amount == 0 || duration < 0 {
        Err(VortexError::MalformedRecord)
    } else if !funds_reserved {
        Err(VortexError::InsufficientFunds)
    } else {
        Ok(
            (
                StakeRecord { staker: caller, amount, duration },
                VortexEvent::StakeCreated { staker: caller, amount, duration },
            ),
        )
    }
}

/// Create a stake for the caller.  `funds_reserved` is the token
/// collaborator's report that the caller's balance covers `amount` and
/// the fund lock is in place; a false report fails the transition with
/// `InsufficientFunds`.
pub fn process_stake(
    caller: Identity,
    signers: &Vec<Identity>,
    amount: u64,
    duration: i64,
    funds_reserved: bool,
) -> (r: Result<(StakeRecord, VortexEvent), VortexError>)
    ensures
        r == spec_stake(caller, signers@, amount, duration, funds_reserved),
        r matches Ok(p) ==> p.0.valid(),
{
    require_signer(signers, caller)?;
    if amount == 0 || duration < 0 {
        return Err(VortexError::MalformedRecord);
    }
    if !funds_reserved {
        return Err(VortexError::InsufficientFunds);
    }
    let record = StakeRecord { staker: caller, amount, duration };
    Ok((record, VortexEvent::StakeCreated { staker: caller, amount, duration }))
}

/// The exact routing and transition of the token dispatcher.
pub open spec fn spec_process_token(
    instruction: TolaInstruction,
    state: TolaState,
    caller: Identity,
    mint: Identity,
    beneficiary: Identity,
    signers: Seq<Identity>,
    funds_reserved: bool,
) -> Result<(TokenOutcome, VortexEvent), VortexError> {
    match instruction {
        TolaInstruction::Initialize { total_supply } => {
            match spec_initialize(state, caller, mint, signers, total_supply) {
                Ok(p) => Ok((TokenOutcome::Supply(p.0), p.1)),
                Err(e) => Err(e),
            }
        },
        TolaInstruction::CreateVesting { amount, start_timestamp, duration } => {
            match spec_create_vesting(
                caller,
                beneficiary,
                signers,
                amount,
                start_timestamp,
                duration,
                funds_reserved,
            ) {
                Ok(p) => Ok((TokenOutcome::Vesting(p.0), p.1)),
                Err(e) => Err(e),
            }
        },
        TolaInstruction::Stake { amount, duration } => {
            match spec_stake(caller, signers, amount, duration, funds_reserved) {
                Ok(p) => Ok((TokenOutcome::Stake(p.0), p.1)),
                Err(e) => Err(e),
            }
        },
    }
}

/// Route a typed token instruction to its handler.  `caller` is the
/// identity the host expects to have signed; `mint` the supply record's
/// key; `beneficiary` the identity a vesting schedule releases to.
pub fn process_instruction(
    instruction: TolaInstruction,
    state: &TolaState,
    caller: Identity,
    mint: Identity,
    beneficiary: Identity,
    signers: &Vec<Identity>,
    funds_reserved: bool,
) -> (r: Result<(TokenOutcome, VortexEvent), VortexError>)
    ensures
        r == spec_process_token(
            instruction,
            *state,
            caller,
            mint,
            beneficiary,
            signers@,
            funds_reserved,
        ),
{
    match instruction {
        TolaInstruction::Initialize { total_supply } => {
            match process_initialize(state, caller, mint, signers, total_supply) {
                Ok(p) => Ok((TokenOutcome::Supply(p.0), p.1)),
                Err(e) => Err(e),
            }
        },
        TolaInstruction::CreateVesting { amount, start_timestamp, duration } => {
            match process_create_vesting(
                caller,
                beneficiary,
                signers,
                amount,
                start_timestamp,
                duration,
                funds_reserved,
            ) {
                Ok(p) => Ok((TokenOutcome::Vesting(p.0), p.1)),
                Err(e) => Err(e),
            }
        },
        TolaInstruction::Stake { amount, duration } => {
            match process_stake(caller, signers, amount, duration, funds_reserved) {
                Ok(p) => Ok((TokenOutcome::Stake(p.0), p.1)),
                Err(e) => Err(e),
            }
        },
    }
}

/// A supply state is initialized exactly once: after any successful
/// `Initialize`, a second `Initialize` on the resulting state, by any
/// authorized caller, fails with `AlreadyInitialized`.
pub proof fn lemma_initialize_only_once(
    state: TolaState,
    caller: Identity,
    mint: Identity,
    signers: Seq<Identity>,
    total_supply: u64,
    new_state: TolaState,
    event: VortexEvent,
    caller2: Identity,
    mint2: Identity,
    signers2: Seq<Identity>,
    total_supply2: u64,
)
    requires
        spec_initialize(state, caller, mint, signers, total_supply) == Ok::<
            (TolaState, VortexEvent),
            VortexError,
        >((new_state, event)),
        spec_is_authorized(signers2, caller2),
    ensures
        spec_initialize(new_state, caller2, mint2, signers2, total_supply2) == Err::<
            (TolaState, VortexEvent),
            VortexError,
        >(VortexError::AlreadyInitialized),
{
}

} // verus!
