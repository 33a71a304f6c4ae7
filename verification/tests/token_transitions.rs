use vortex_contracts::token::{
    process_create_vesting, process_initialize, process_instruction, process_stake, StakeRecord,
    TokenOutcome, TolaInstruction, TolaState, VestingSchedule,
};
use vortex_contracts::{Identity, VortexError};
use vortex_contracts::events::VortexEvent;

fn fresh_state() -> TolaState {
    TolaState {
        total_supply: 0,
        mint_authority: Identity::new(0, 0, 0, 0),
        initialized: false,
    }
}

#[test]
fn test_token_initialization() {
    let initializer = Identity::new(1, 0, 0, 0);
    let mint = Identity::new(2, 0, 0, 0);
    let signers = vec![initializer];
    let state = fresh_state();

    let (new_state, event) =
        process_initialize(&state, initializer, mint, &signers, 1_000_000_000).unwrap();
    assert!(new_state.initialized);
    assert_eq!(new_state.total_supply, 1_000_000_000);
    assert_eq!(new_state.mint_authority, initializer);
    assert_eq!(
        event,
        VortexEvent::TokenInitialized { mint, total_supply: 1_000_000_000 }
    );
}

#[test]
fn test_initialize_twice_rejected() {
    let initializer = Identity::new(1, 0, 0, 0);
    let mint = Identity::new(2, 0, 0, 0);
    let signers = vec![initializer];
    let state = fresh_state();

    let (initialized, _) =
        process_initialize(&state, initializer, mint, &signers, 1_000_000_000).unwrap();
    let second = process_initialize(&initialized, initializer, mint, &signers, 5);
    assert_eq!(second, Err(VortexError::AlreadyInitialized));
    // Even another authorized caller cannot initialize again.
    let other = Identity::new(9, 9, 9, 9);
    let other_signers = vec![other];
    let third = process_initialize(&initialized, other, mint, &other_signers, 5);
    assert_eq!(third, Err(VortexError::AlreadyInitialized));
}

#[test]
fn test_initialize_requires_signer() {
    let initializer = Identity::new(1, 0, 0, 0);
    let mint = Identity::new(2, 0, 0, 0);
    let signers: Vec<Identity> = vec![Identity::new(7, 7, 7, 7)];
    let state = fresh_state();

    let result = process_initialize(&state, initializer, mint, &signers, 10);
    assert_eq!(result, Err(VortexError::MissingAuthorization));
}

#[test]
fn test_vesting_schedule() {
    let creator = Identity::new(3, 0, 0, 0);
    let beneficiary = Identity::new(4, 0, 0, 0);
    let signers = vec![creator];
    let duration = 365 * 24 * 60 * 60;

    let (schedule, event) =
        process_create_vesting(creator, beneficiary, &signers, 100_000, 1_000_000, duration, true)
            .unwrap();
    assert_eq!(
        schedule,
        VestingSchedule { beneficiary, amount: 100_000, start_time: 1_000_000, duration }
    );
    assert!(schedule.validate().is_ok());
    assert_eq!(
        event,
        VortexEvent::VestingCreated {
            beneficiary,
            amount: 100_000,
            start_time: 1_000_000,
            duration
        }
    );
}

#[test]
fn test_vesting_rejects_zero_amount() {
    let creator = Identity::new(3, 0, 0, 0);
    let beneficiary = Identity::new(4, 0, 0, 0);
    let signers = vec![creator];
    let result = process_create_vesting(creator, beneficiary, &signers, 0, 0, 10, true);
    assert_eq!(result, Err(VortexError::MalformedRecord));
}

#[test]
fn test_vesting_rejects_unfunded() {
    let creator = Identity::new(3, 0, 0, 0);
    let beneficiary = Identity::new(4, 0, 0, 0);
    let signers = vec![creator];
    let result = process_create_vesting(creator, beneficiary, &signers, 100_000, 0, 10, false);
    assert_eq!(result, Err(VortexError::InsufficientFunds));
}

#[test]
fn test_staking() {
    let staker = Identity::new(5, 0, 0, 0);
    let signers = vec![staker];
    let duration = 30 * 24 * 60 * 60;

    let (record, event) = process_stake(staker, &signers, 50_000, duration, true).unwrap();
    assert_eq!(record, StakeRecord { staker, amount: 50_000, duration });
    assert!(record.validate().is_ok());
    assert_eq!(event, VortexEvent::StakeCreated { staker, amount: 50_000, duration });
}

#[test]
fn test_stake_rejects_unfunded() {
    let staker = Identity::new(5, 0, 0, 0);
    let signers = vec![staker];
    let result = process_stake(staker, &signers, 50_000, 10, false);
    assert_eq!(result, Err(VortexError::InsufficientFunds));
}

#[test]
fn test_stake_rejects_negative_duration() {
    let staker = Identity::new(5, 0, 0, 0);
    let signers = vec![staker];
    let result = process_stake(staker, &signers, 50_000, -1, true);
    assert_eq!(result, Err(VortexError::MalformedRecord));
}

#[test]
fn test_token_dispatcher_routes() {
    let caller = Identity::new(6, 0, 0, 0);
    let mint = Identity::new(7, 0, 0, 0);
    let beneficiary = Identity::new(8, 0, 0, 0);
    let signers = vec![caller];
    let state = fresh_state();

    let init = process_instruction(
        TolaInstruction::Initialize { total_supply: 42 },
        &state,
        caller,
        mint,
        beneficiary,
        &signers,
        true,
    )
    .unwrap();
    assert!(matches!(init.0, TokenOutcome::Supply(s) if s.total_supply == 42));

    let vest = process_instruction(
        TolaInstruction::CreateVesting { amount: 10, start_timestamp: 5, duration: 100 },
        &state,
        caller,
        mint,
        beneficiary,
        &signers,
        true,
    )
    .unwrap();
    assert!(matches!(vest.0, TokenOutcome::Vesting(v) if v.amount == 10 && v.beneficiary == beneficiary));

    let stake = process_instruction(
        TolaInstruction::Stake { amount: 20, duration: 50 },
        &state,
        caller,
        mint,
        beneficiary,
        &signers,
        true,
    )
    .unwrap();
    assert!(matches!(stake.0, TokenOutcome::Stake(s) if s.amount == 20 && s.staker == caller));
}
