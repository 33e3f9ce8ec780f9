//! Canonical byte encoding of intents and order records.
//!
//! The layout is fixed width with a fixed field order and no implicit
//! padding: six 32-byte addresses and six little-endian 64-bit amounts for
//! the intent body, and a single leading lifecycle byte plus a trailing
//! rent-payer address for the full record. The commitment hash is taken over
//! exactly these bytes, so the encoding is what binds a record's content to
//! its storage address.

use crate::error::SolverError;
use crate::order::{DataLen, Order, OrderIntent, OrderIntentV, OrderV, Pubkey};
use vstd::bytes::{
    lemma_auto_spec_u64_to_from_le_bytes, spec_u64_from_le_bytes, spec_u64_to_le_bytes,
    u64_from_le_bytes, u64_to_le_bytes,
};
use vstd::prelude::*;
use vstd::slice::{slice_subrange, slice_to_vec};

verus! {

/// Length in bytes of the canonical intent body.
pub const INTENT_LEN: usize = 240;

/// Length in bytes of the full order record.
pub const ORDER_LEN: usize = 273;

/// Length in bytes of a token account.
pub const TOKEN_ACCOUNT_LEN: usize = 165;

impl DataLen for OrderIntent {
    open spec fn spec_len() -> usize {
        240
    }

    fn data_len() -> usize {
        INTENT_LEN
    }
}

impl DataLen for Order {
    open spec fn spec_len() -> usize {
        273
    }

    fn data_len() -> usize {
        ORDER_LEN
    }
}

/// The canonical encoding of an intent body.
pub open spec fn spec_encode_intent(v: OrderIntentV) -> Seq<u8> {
    v.owner + v.sell_token + v.buy_token + v.from_token_account + v.to_token_account
        + spec_u64_to_le_bytes(v.sell_amount) + spec_u64_to_le_bytes(v.buy_amount_ceiling)
        + spec_u64_to_le_bytes(v.buy_amount_floor) + spec_u64_to_le_bytes(v.referral_fee)
        + v.referral_token_account + spec_u64_to_le_bytes(v.start_time) + spec_u64_to_le_bytes(
        v.deadline,
    )
}

/// The intent body denoted by 240 bytes.
pub open spec fn spec_decode_intent(s: Seq<u8>) -> OrderIntentV
    recommends
        s.len() == 240,
{
    OrderIntentV {
        owner: s.subrange(0, 32),
        sell_token: s.subrange(32, 64),
        buy_token: s.subrange(64, 96),
        from_token_account: s.subrange(96, 128),
        to_token_account: s.subrange(128, 160),
        sell_amount: spec_u64_from_le_bytes(s.subrange(160, 168)),
        buy_amount_ceiling: spec_u64_from_le_bytes(s.subrange(168, 176)),
        buy_amount_floor: spec_u64_from_le_bytes(s.subrange(176, 184)),
        referral_fee: spec_u64_from_le_bytes(s.subrange(184, 192)),
        referral_token_account: s.subrange(192, 224),
        start_time: spec_u64_from_le_bytes(s.subrange(224, 232)),
        deadline: spec_u64_from_le_bytes(s.subrange(232, 240)),
    }
}

/// The canonical encoding of a full order record: lifecycle byte, intent
/// body, rent payer.
pub open spec fn spec_encode_order(v: OrderV) -> Seq<u8> {
    seq![if v.is_initialized { 1u8 } else { 0u8 }] + spec_encode_intent(v.intent) + v.rent_payer
}

/// The order record denoted by 273 bytes.
pub open spec fn spec_decode_order(s: Seq<u8>) -> OrderV
    recommends
        s.len() == 273,
{
    OrderV {
        is_initialized: s[0] == 1,
        intent: spec_decode_intent(s.subrange(1, 241)),
        rent_payer: s.subrange(241, 273),
    }
}

/// A well-formed intent body encodes to exactly 240 bytes.
pub proof fn lemma_encode_intent_len(v: OrderIntentV)
    requires
        v.wf(),
    ensures
        spec_encode_intent(v).len() == 240,
{
    lemma_auto_spec_u64_to_from_le_bytes();
}

/// Decoding the encoding of a well-formed intent body gives it back: the
/// canonical encoding loses nothing.
pub proof fn lemma_intent_round_trip(v: OrderIntentV)
    requires
        v.wf(),
    ensures
        spec_decode_intent(spec_encode_intent(v)) == v,
{
    lemma_auto_spec_u64_to_from_le_bytes();
    let s = spec_encode_intent(v);
    assert(s.subrange(0, 32) =~= v.owner);
    assert(s.subrange(32, 64) =~= v.sell_token);
    assert(s.subrange(64, 96) =~= v.buy_token);
    assert(s.subrange(96, 128) =~= v.from_token_account);
    assert(s.subrange(128, 160) =~= v.to_token_account);
    assert(s.subrange(160, 168) =~= spec_u64_to_le_bytes(v.sell_amount));
    assert(s.subrange(168, 176) =~= spec_u64_to_le_bytes(v.buy_amount_ceiling));
    assert(s.subrange(176, 184) =~= spec_u64_to_le_bytes(v.buy_amount_floor));
    assert(s.subrange(184, 192) =~= spec_u64_to_le_bytes(v.referral_fee));
    assert(s.subrange(192, 224) =~= v.referral_token_account);
    assert(s.subrange(224, 232) =~= spec_u64_to_le_bytes(v.start_time));
    assert(s.subrange(232, 240) =~= spec_u64_to_le_bytes(v.deadline));
    assert(spec_decode_intent(s) =~= v);
}

/// Two well-formed intent bodies with the same canonical encoding are the
/// same intent: the encoding is injective.
pub proof fn lemma_encode_intent_injective(a: OrderIntentV, b: OrderIntentV)
    requires
        a.wf(),
        b.wf(),
        spec_encode_intent(a) == spec_encode_intent(b),
    ensures
        a == b,
{
    lemma_intent_round_trip(a);
    lemma_intent_round_trip(b);
}

/// Every 240-byte string is the canonical encoding of the intent body it
/// decodes to.
pub proof fn lemma_intent_bytes_round_trip(s: Seq<u8>)
    requires
        s.len() == 240,
    ensures
        spec_decode_intent(s).wf(),
        spec_encode_intent(spec_decode_intent(s)) == s,
{
    lemma_auto_spec_u64_to_from_le_bytes();
    assert(spec_encode_intent(spec_decode_intent(s)) =~= s);
}

/// A well-formed record encodes to exactly 273 bytes.
pub proof fn lemma_encode_order_len(v: OrderV)
    requires
        v.intent.wf(),
        v.rent_payer.len() == 32,
    ensures
        spec_encode_order(v).len() == 273,
{
    lemma_encode_intent_len(v.intent);
}

/// Decoding the encoding of a record gives it back.
pub proof fn lemma_order_round_trip(v: OrderV)
    requires
        v.intent.wf(),
        v.rent_payer.len() == 32,
    ensures
        spec_decode_order(spec_encode_order(v)) == v,
{
    lemma_encode_intent_len(v.intent);
    let s = spec_encode_order(v);
    assert(s.subrange(1, 241) =~= spec_encode_intent(v.intent));
    lemma_intent_round_trip(v.intent);
    assert(s.subrange(241, 273) =~= v.rent_payer);
    assert(spec_decode_order(s) =~= v);
}

/// Every 273-byte string whose lifecycle byte is 0 or 1 is the canonical
/// encoding of the record it decodes to.
pub proof fn lemma_order_bytes_round_trip(s: Seq<u8>)
    requires
        s.len() == 273,
        s[0] == 0 || s[0] == 1,
    ensures
        spec_decode_order(s).intent.wf(),
        spec_decode_order(s).rent_payer.len() == 32,
        spec_encode_order(spec_decode_order(s)) == s,
{
    lemma_intent_bytes_round_trip(s.subrange(1, 241));
    assert(spec_encode_order(spec_decode_order(s)) =~= s);
}

/// Appends a 32-byte address to a byte buffer.
fn write_bytes32(out: &mut Vec<u8>, a: &Pubkey)
    ensures
        final(out)@ == old(out)@ + a@,
{
    let mut tmp = slice_to_vec(a.as_slice());
    out.append(&mut tmp);
}

/// Appends a 64-bit amount in little-endian order to a byte buffer.
fn write_u64_le(out: &mut Vec<u8>, v: u64)
    ensures
        final(out)@ == old(out)@ + spec_u64_to_le_bytes(v),
{
    let mut tmp = u64_to_le_bytes(v);
    out.append(&mut tmp);
}

/// Copies the 32 bytes of `data` starting at `off` into an address.
pub(crate) fn read_bytes32(data: &[u8], off: usize) -> (r: Pubkey)
    requires
        off + 32 <= data@.len() <= usize::MAX,
    ensures
        r@ == data@.subrange(off as int, off + 32),
{
    let mut r: Pubkey = [0u8; 32];
    let mut i: usize = 0;
    while i < 32
        invariant
            i <= 32,
            off + 32 <= data@.len() <= usize::MAX,
            forall|j: int| 0 <= j < i ==> r@[j] == data@[off + j],
        decreases 32 - i,
    {
        r[i] = data[off + i];
        i += 1;
    }
    proof {
        assert(r@ =~= data@.subrange(off as int, off + 32));
    }
    r
}

/// Reads the little-endian 64-bit amount of `data` starting at `off`.
fn read_u64_le(data: &[u8], off: usize) -> (r: u64)
    requires
        off + 8 <= data@.len() <= usize::MAX,
    ensures
        r == spec_u64_from_le_bytes(data@.subrange(off as int, off + 8)),
{
    let part = slice_subrange(data, off, off + 8);
    u64_from_le_bytes(part)
}

impl OrderIntent {
    /// Serializes the intent into its canonical 240-byte body.
    pub fn encode(&self) -> (out: Vec<u8>)
        ensures
            out@ == spec_encode_intent(self@),
            out@.len() == 240,
    {
        let mut out: Vec<u8> = Vec::new();
        write_bytes32(&mut out, &self.owner);
        write_bytes32(&mut out, &self.sell_token);
        write_bytes32(&mut out, &self.buy_token);
        write_bytes32(&mut out, &self.from_token_account);
        write_bytes32(&mut out, &self.to_token_account);
        write_u64_le(&mut out, self.sell_amount);
        write_u64_le(&mut out, self.buy_amount_ceiling);
        write_u64_le(&mut out, self.buy_amount_floor);
        write_u64_le(&mut out, self.referral_fee);
        write_bytes32(&mut out, &self.referral_token_account);
        write_u64_le(&mut out, self.start_time);
        write_u64_le(&mut out, self.deadline);
        proof {
            lemma_encode_intent_len(self@);
        }
        out
    }

    /// Checked deserialization of a canonical intent body: the input must be
    /// exactly 240 bytes, and the result is the unique intent with that
    /// encoding.
    pub fn unpack(data: &[u8]) -> (r: Result<OrderIntent, SolverError>)
        ensures
            match r {
                Ok(i) => {
                    &&& data@.len() == 240
                    &&& i@ == spec_decode_intent(data@)
                    &&& spec_encode_intent(i@) == data@
                    &&& i@.wf()
                },
                Err(e) => {
                    &&& data@.len() != 240
                    &&& e == SolverError::InvalidInstructionData
                },
            },
    {
        if data.len() != 240 {
            return Err(SolverError::InvalidInstructionData);
        }
        let intent = OrderIntent {
            owner: read_bytes32(data, 0),
            sell_token: read_bytes32(data, 32),
            buy_token: read_bytes32(data, 64),
            from_token_account: read_bytes32(data, 96),
            to_token_account: read_bytes32(data, 128),
            sell_amount: read_u64_le(data, 160),
            buy_amount_ceiling: read_u64_le(data, 168),
            buy_amount_floor: read_u64_le(data, 176),
            referral_fee: read_u64_le(data, 184),
            referral_token_account: read_bytes32(data, 192),
            start_time: read_u64_le(data, 224),
            deadline: read_u64_le(data, 232),
        };
        proof {
            assert(intent@ =~= spec_decode_intent(data@));
            lemma_intent_bytes_round_trip(data@);
        }
        Ok(intent)
    }
}

impl Order {
    /// Serializes the record into its canonical 273-byte form.
    pub fn encode(&self) -> (out: Vec<u8>)
        ensures
            out@ == spec_encode_order(self@),
            out@.len() == 273,
    {
        let mut out: Vec<u8> = Vec::new();
        if self.is_initialized {
            out.push(1u8);
        } else {
            out.push(0u8);
        }
        let mut body = self.intent.encode();
        out.append(&mut body);
        write_bytes32(&mut out, &self.rent_payer);
        proof {
            assert(out@ =~= spec_encode_order(self@));
        }
        out
    }

    /// Checked deserialization of a stored record: the input must be exactly
    /// 273 bytes with a 0-or-1 lifecycle byte, and the result is the unique
    /// record with that encoding. Arbitrary bytes are rejected rather than
    /// reinterpreted.
    pub fn unpack(data: &[u8]) -> (r: Result<Order, SolverError>)
        ensures
            match r {
                Ok(o) => {
                    &&& data@.len() == 273
                    &&& (data@[0] == 0 || data@[0] == 1)
                    &&& o@ == spec_decode_order(data@)
                    &&& spec_encode_order(o@) == data@
                    &&& o@.intent.wf()
                    &&& o@.rent_payer.len() == 32
                },
                Err(e) => {
                    &&& !(data@.len() == 273 && (data@[0] == 0 || data@[0] == 1))
                    &&& e == SolverError::InvalidAccountData
                },
            },
    {
        if data.len() != 273 {
            return Err(SolverError::InvalidAccountData);
        }
        let flag = data[0];
        if flag != 0 && flag != 1 {
            return Err(SolverError::InvalidAccountData);
        }
        let body = slice_subrange(data, 1, 241);
        let intent = match OrderIntent::unpack(body) {
            Ok(i) => i,
            Err(_) => {
                return Err(SolverError::InvalidAccountData);
            },
        };
        let order = Order {
            is_initialized: flag == 1,
            intent,
            rent_payer: read_bytes32(data, 241),
        };
        proof {
            assert(order@ =~= spec_decode_order(data@));
            lemma_order_bytes_round_trip(data@);
        }
        Ok(order)
    }
}

} // verus!
