//! Tests of the canonical byte encoding.

use sol_ver::codec::{INTENT_LEN, ORDER_LEN};
use sol_ver::error::SolverError;
use sol_ver::order::{intent_eq, order_eq, DataLen, Initialized, Order, OrderIntent};

fn sample_intent() -> OrderIntent {
    OrderIntent {
        owner: [1u8; 32],
        sell_token: [2u8; 32],
        buy_token: [3u8; 32],
        from_token_account: [4u8; 32],
        to_token_account: [5u8; 32],
        sell_amount: 100,
        buy_amount_ceiling: 1000,
        buy_amount_floor: 500,
        referral_fee: 7,
        referral_token_account: [6u8; 32],
        start_time: 100,
        deadline: 200,
    }
}

#[test]
fn intent_encoding_has_fixed_layout() {
    let intent = sample_intent();
    let bytes = intent.encode();
    assert_eq!(bytes.len(), INTENT_LEN);
    assert_eq!(&bytes[0..32], &[1u8; 32]);
    assert_eq!(&bytes[32..64], &[2u8; 32]);
    assert_eq!(&bytes[64..96], &[3u8; 32]);
    assert_eq!(&bytes[96..128], &[4u8; 32]);
    assert_eq!(&bytes[128..160], &[5u8; 32]);
    assert_eq!(&bytes[160..168], &100u64.to_le_bytes());
    assert_eq!(&bytes[168..176], &1000u64.to_le_bytes());
    assert_eq!(&bytes[176..184], &500u64.to_le_bytes());
    assert_eq!(&bytes[184..192], &7u64.to_le_bytes());
    assert_eq!(&bytes[192..224], &[6u8; 32]);
    assert_eq!(&bytes[224..232], &100u64.to_le_bytes());
    assert_eq!(&bytes[232..240], &200u64.to_le_bytes());
}

#[test]
fn intent_round_trips_through_bytes() {
    let intent = sample_intent();
    let bytes = intent.encode();
    let back = OrderIntent::unpack(&bytes).unwrap();
    assert!(intent_eq(&intent, &back));
    assert_eq!(back.encode(), bytes);
}

#[test]
fn intent_unpack_rejects_wrong_length() {
    assert!(matches!(
        OrderIntent::unpack(&[0u8; 239]),
        Err(SolverError::InvalidInstructionData)
    ));
    assert!(matches!(
        OrderIntent::unpack(&[0u8; 241]),
        Err(SolverError::InvalidInstructionData)
    ));
    assert!(matches!(
        OrderIntent::unpack(&[]),
        Err(SolverError::InvalidInstructionData)
    ));
}

#[test]
fn order_round_trips_through_bytes() {
    let order = Order {
        is_initialized: true,
        intent: sample_intent(),
        rent_payer: [9u8; 32],
    };
    let bytes = order.encode();
    assert_eq!(bytes.len(), ORDER_LEN);
    assert_eq!(bytes[0], 1);
    assert_eq!(&bytes[241..273], &[9u8; 32]);
    let back = Order::unpack(&bytes).unwrap();
    assert!(order_eq(&order, &back));
    assert_eq!(back.encode(), bytes);
}

#[test]
fn order_unpack_rejects_malformed_bytes() {
    // Wrong length.
    assert!(matches!(
        Order::unpack(&[0u8; 272]),
        Err(SolverError::InvalidAccountData)
    ));
    assert!(matches!(
        Order::unpack(&[0u8; 274]),
        Err(SolverError::InvalidAccountData)
    ));
    // A lifecycle byte that is neither 0 nor 1 is rejected, not
    // reinterpreted.
    let mut bytes = vec![0u8; 273];
    bytes[0] = 2;
    assert!(matches!(
        Order::unpack(&bytes),
        Err(SolverError::InvalidAccountData)
    ));
}

#[test]
fn uncommitted_flag_round_trips() {
    let order = Order {
        is_initialized: false,
        intent: sample_intent(),
        rent_payer: [9u8; 32],
    };
    let bytes = order.encode();
    assert_eq!(bytes[0], 0);
    let back = Order::unpack(&bytes).unwrap();
    assert!(!back.is_initialized);
}

#[test]
fn init_marks_record_committed() {
    let mut order = Order {
        is_initialized: false,
        intent: sample_intent(),
        rent_payer: [0u8; 32],
    };
    order.init(sample_intent(), [9u8; 32]);
    assert!(order.is_initialized);
    assert_eq!(order.rent_payer, [9u8; 32]);
    assert!(intent_eq(&order.intent, &sample_intent()));
}

#[test]
fn declared_lengths_match_the_encodings() {
    assert_eq!(<OrderIntent as DataLen>::data_len(), INTENT_LEN);
    assert_eq!(<Order as DataLen>::data_len(), ORDER_LEN);
    let order = Order {
        is_initialized: true,
        intent: sample_intent(),
        rent_payer: [9u8; 32],
    };
    assert!(Initialized::is_initialized(&order));
}

#[test]
fn single_byte_change_changes_encoding() {
    let a = sample_intent();
    let mut b = a;
    b.sell_amount = 101;
    assert_ne!(a.encode(), b.encode());
    assert!(!intent_eq(&a, &b));
}
