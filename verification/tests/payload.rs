//! Tests of the instruction payload parsers.

use sol_ver::error::SolverError;
use sol_ver::instruction::{CancelOrderArgs, ExecuteOrderArgs, InitializeOrderArgs};
use sol_ver::order::{intent_eq, order_eq, Order, OrderIntent};

fn sample_intent() -> OrderIntent {
    OrderIntent {
        owner: [1u8; 32],
        sell_token: [3u8; 32],
        buy_token: [10u8; 32],
        from_token_account: [4u8; 32],
        to_token_account: [11u8; 32],
        sell_amount: 100,
        buy_amount_ceiling: 1000,
        buy_amount_floor: 500,
        referral_fee: 7,
        referral_token_account: [6u8; 32],
        start_time: 100,
        deadline: 200,
    }
}

#[test]
fn initialize_args_round_trip() {
    let intent = sample_intent();
    let mut data = intent.encode();
    data.push(253);
    let args = InitializeOrderArgs::unpack(&data).unwrap();
    assert!(intent_eq(&args.intent, &intent));
    assert_eq!(args.bump, 253);
}

#[test]
fn initialize_args_reject_wrong_length() {
    let intent = sample_intent();
    assert!(matches!(
        InitializeOrderArgs::unpack(&intent.encode()),
        Err(SolverError::InvalidInstructionData)
    ));
    let mut long = intent.encode();
    long.push(0);
    long.push(0);
    assert!(matches!(
        InitializeOrderArgs::unpack(&long),
        Err(SolverError::InvalidInstructionData)
    ));
}

#[test]
fn cancel_args_round_trip() {
    let args = CancelOrderArgs::unpack(&[200]).unwrap();
    assert_eq!(args.bump, 200);
    assert!(matches!(
        CancelOrderArgs::unpack(&[]),
        Err(SolverError::InvalidInstructionData)
    ));
    assert!(matches!(
        CancelOrderArgs::unpack(&[1, 2]),
        Err(SolverError::InvalidInstructionData)
    ));
}

#[test]
fn execute_args_split_record_and_venue_payload() {
    let order = Order {
        is_initialized: true,
        intent: sample_intent(),
        rent_payer: [2u8; 32],
    };
    let record_bytes = order.encode();
    let mut data = vec![252];
    data.extend_from_slice(&record_bytes);
    data.extend_from_slice(&[9, 9, 9]);
    let args = ExecuteOrderArgs::unpack(&data).unwrap();
    assert_eq!(args.bump, 252);
    assert!(order_eq(&args.order, &order));
    assert_eq!(args.venue_payload, vec![9, 9, 9]);

    // An empty venue payload is fine.
    let mut exact = vec![252];
    exact.extend_from_slice(&record_bytes);
    let args = ExecuteOrderArgs::unpack(&exact).unwrap();
    assert!(args.venue_payload.is_empty());
}

#[test]
fn execute_args_reject_short_or_corrupt_record() {
    let order = Order {
        is_initialized: true,
        intent: sample_intent(),
        rent_payer: [2u8; 32],
    };
    let record_bytes = order.encode();
    let mut short = vec![252];
    short.extend_from_slice(&record_bytes[..272]);
    assert!(matches!(
        ExecuteOrderArgs::unpack(&short),
        Err(SolverError::InvalidInstructionData)
    ));
    // A record body whose lifecycle byte is out of range.
    let mut corrupt = vec![252];
    corrupt.extend_from_slice(&record_bytes);
    corrupt[1] = 9;
    assert!(matches!(
        ExecuteOrderArgs::unpack(&corrupt),
        Err(SolverError::InvalidInstructionData)
    ));
}
