//! Tests of the lifecycle state machine itself: one slot, driven through
//! commit, execute and cancel, observing the state after each attempt.

use sol_ver::error::SolverError;
use sol_ver::instruction::InitializeOrderArgs;
use sol_ver::lifecycle::{CancelInputs, CommitInputs, ExecuteInputs, OrderSlot};
use sol_ver::order::{intent_eq, OrderIntent};

const OWNER: [u8; 32] = [1u8; 32];
const PAYER: [u8; 32] = [2u8; 32];
const ORDER_KEY: [u8; 32] = [5u8; 32];
const BUMP: u8 = 254;

fn sample_intent() -> OrderIntent {
    OrderIntent {
        owner: OWNER,
        sell_token: [3u8; 32],
        buy_token: [10u8; 32],
        from_token_account: [4u8; 32],
        to_token_account: [11u8; 32],
        sell_amount: 100,
        buy_amount_ceiling: 1000,
        buy_amount_floor: 500,
        referral_fee: 7,
        referral_token_account: [6u8; 32],
        start_time: 100,
        deadline: 200,
    }
}

fn commit_inputs() -> CommitInputs {
    CommitInputs {
        owner_key: OWNER,
        owner_signed: true,
        payer_key: PAYER,
        order_account_key: ORDER_KEY,
        derived: Some((ORDER_KEY, BUMP)),
        rent_minimum: 1000,
    }
}

fn committed_slot() -> OrderSlot {
    let mut slot = OrderSlot::empty();
    let args = InitializeOrderArgs {
        intent: sample_intent(),
        bump: BUMP,
    };
    slot.commit(&args, &commit_inputs()).unwrap();
    slot
}

fn execute_inputs(now: u64, pre: u64, post: u64) -> ExecuteInputs {
    let slot = committed_slot();
    ExecuteInputs {
        solver_signed: true,
        order_account_key: ORDER_KEY,
        supplied: slot.record.unwrap(),
        bump: BUMP,
        derived: Some((ORDER_KEY, BUMP)),
        owner_key: OWNER,
        from_key: [4u8; 32],
        to_key: [11u8; 32],
        referral_key: [6u8; 32],
        now,
        pre,
        post,
    }
}

fn owner_cancel() -> CancelInputs {
    CancelInputs {
        owner_key: OWNER,
        owner_signed: true,
        rent_payer_key: PAYER,
    }
}

#[test]
fn commit_fills_the_slot() {
    let slot = committed_slot();
    let record = slot.record.unwrap();
    assert!(record.is_initialized);
    assert!(intent_eq(&record.intent, &sample_intent()));
    assert_eq!(record.rent_payer, PAYER);
    assert_eq!(slot.lamports, 1000);
    assert_eq!(slot.escrow, 100);
}

#[test]
fn commit_on_occupied_slot_changes_nothing() {
    let mut slot = committed_slot();
    let args = InitializeOrderArgs {
        intent: sample_intent(),
        bump: BUMP,
    };
    let r = slot.commit(&args, &commit_inputs());
    assert!(matches!(r, Err(SolverError::AlreadyInitialized)));
    assert!(slot.record.is_some());
    assert_eq!(slot.lamports, 1000);
    assert_eq!(slot.escrow, 100);
}

#[test]
fn failed_execute_leaves_the_slot_committed() {
    let mut slot = committed_slot();
    // Required at now=150 is 750; only 749 was delivered.
    let r = slot.execute(&execute_inputs(150, 0, 749));
    assert!(matches!(r, Err(SolverError::SlippageExceeded)));
    // The record is still committed and the balances are untouched.
    assert!(slot.record.is_some());
    assert_eq!(slot.lamports, 1000);
    assert_eq!(slot.escrow, 100);
}

#[test]
fn successful_execute_consumes_the_slot() {
    let mut slot = committed_slot();
    let receipt = slot.execute(&execute_inputs(150, 0, 750)).unwrap();
    assert_eq!(receipt.required, 750);
    assert_eq!(receipt.delivered, 750);
    assert_eq!(receipt.escrow_released, 100);
    assert_eq!(receipt.deposit_refund, 1000);
    assert!(slot.record.is_none());
    assert_eq!(slot.lamports, 0);
    assert_eq!(slot.escrow, 0);
}

#[test]
fn execute_twice_fails_the_second_time() {
    let mut slot = committed_slot();
    slot.execute(&execute_inputs(150, 0, 750)).unwrap();
    let r = slot.execute(&execute_inputs(150, 0, 750));
    assert!(matches!(r, Err(SolverError::RecordNotFound)));
}

#[test]
fn cancel_after_execute_fails() {
    let mut slot = committed_slot();
    slot.execute(&execute_inputs(150, 0, 750)).unwrap();
    let r = slot.cancel(&owner_cancel());
    assert!(matches!(r, Err(SolverError::RecordNotFound)));
}

#[test]
fn execute_after_cancel_fails() {
    let mut slot = committed_slot();
    let receipt = slot.cancel(&owner_cancel()).unwrap();
    assert_eq!(receipt.escrow_returned, 100);
    assert_eq!(receipt.deposit_refund, 1000);
    assert!(slot.record.is_none());
    assert_eq!(slot.escrow, 0);
    assert_eq!(slot.lamports, 0);
    let r = slot.execute(&execute_inputs(150, 0, 750));
    assert!(matches!(r, Err(SolverError::RecordNotFound)));
}

#[test]
fn cancel_by_non_owner_changes_nothing() {
    let mut slot = committed_slot();
    let r = slot.cancel(&CancelInputs {
        owner_key: [99u8; 32],
        owner_signed: true,
        rent_payer_key: PAYER,
    });
    assert!(matches!(r, Err(SolverError::Unauthorized)));
    assert!(slot.record.is_some());
    assert_eq!(slot.lamports, 1000);
    assert_eq!(slot.escrow, 100);
}

#[test]
fn stale_escrow_blocks_execution() {
    let mut slot = committed_slot();
    // The custody was drained below the committed sell amount.
    slot.escrow = 99;
    let r = slot.execute(&execute_inputs(150, 0, 750));
    assert!(matches!(r, Err(SolverError::InsufficientEscrow)));
    assert!(slot.record.is_some());
    assert_eq!(slot.escrow, 99);
}
