//! Instruction opcodes and their decoding.
//!
//! The first byte of every payload names the operation; unknown values are
//! rejected before any state is touched.

use crate::codec::{spec_decode_intent, spec_decode_order, spec_encode_intent, spec_encode_order};
use crate::error::SolverError;
use crate::order::{Order, OrderIntent};
use vstd::prelude::*;
use vstd::slice::{slice_subrange, slice_to_vec};

verus! {

/// The three operations of the order lifecycle.
#[derive(Clone, Copy, Debug, PartialEq, Eq, Structural)]
pub enum Instruction {
    /// Commit a new order record (`Uninitialized -> Committed`).
    InitializeOrder,
    /// Cancel a committed order, owner only (`Committed -> Cancelled`).
    CancelOrder,
    /// Settle a committed order against the venue (`Committed -> Executed`).
    ExecuteOrder,
}

impl Instruction {
    /// The opcode byte of each operation.
    pub open spec fn opcode_spec(self) -> u8 {
        match self {
            Instruction::InitializeOrder => 0,
            Instruction::CancelOrder => 1,
            Instruction::ExecuteOrder => 2,
        }
    }

    /// The operation an opcode byte denotes, if any.
    pub open spec fn from_opcode_spec(value: u8) -> Option<Instruction> {
        if value == 0 {
            Some(Instruction::InitializeOrder)
        } else if value == 1 {
            Some(Instruction::CancelOrder)
        } else if value == 2 {
            Some(Instruction::ExecuteOrder)
        } else {
            None
        }
    }

    /// The opcode byte under which this operation is encoded.
    pub fn opcode(&self) -> (c: u8)
        ensures
            c == self.opcode_spec(),
    {
        match self {
            Instruction::InitializeOrder => 0,
            Instruction::CancelOrder => 1,
            Instruction::ExecuteOrder => 2,
        }
    }

    /// Parses an opcode byte, rejecting every value outside the known range.
    pub fn try_from(value: u8) -> (r: Result<Instruction, SolverError>)
        ensures
            match r {
                Ok(i) => Self::from_opcode_spec(value) == Some(i),
                Err(e) => Self::from_opcode_spec(value) is None
                    && e == SolverError::InvalidInstruction,
            },
    {
        if value == 0 {
            Ok(Instruction::InitializeOrder)
        } else if value == 1 {
            Ok(Instruction::CancelOrder)
        } else if value == 2 {
            Ok(Instruction::ExecuteOrder)
        } else {
            Err(SolverError::InvalidInstruction)
        }
    }
}

/// Opcodes round-trip: parsing the opcode of an operation yields that same
/// operation.
pub proof fn lemma_opcode_round_trip(i: Instruction)
    ensures
        Instruction::from_opcode_spec(i.opcode_spec()) == Some(i),
{
}

/// Splits a raw instruction payload into its operation and the rest of the
/// bytes, rejecting an empty payload and every unknown opcode before any
/// state is touched.
pub fn parse_instruction(data: &[u8]) -> (r: Result<(Instruction, &[u8]), SolverError>)
    ensures
        match r {
            Ok((i, rest)) => {
                &&& data@.len() >= 1
                &&& Instruction::from_opcode_spec(data@[0]) == Some(i)
                &&& rest@ == data@.subrange(1, data@.len() as int)
            },
            Err(e) => {
                &&& e == SolverError::InvalidInstruction
                &&& data@.len() == 0 || Instruction::from_opcode_spec(data@[0]) is None
            },
        },
{
    if data.len() == 0 {
        return Err(SolverError::InvalidInstruction);
    }
    let instruction = match Instruction::try_from(data[0]) {
        Ok(i) => i,
        Err(e) => {
            return Err(e);
        },
    };
    let rest = slice_subrange(data, 1, data.len());
    Ok((instruction, rest))
}

/// The payload of a commit, after the opcode byte: the canonical intent
/// body followed by the discriminator byte of the derived address.
pub struct InitializeOrderArgs {
    /// The intent to commit.
    pub intent: OrderIntent,
    /// The discriminator byte the client found while deriving the address.
    pub bump: u8,
}

impl InitializeOrderArgs {
    /// Checked parse of a commit payload: exactly a 240-byte intent body
    /// plus one discriminator byte.
    pub fn unpack(data: &[u8]) -> (r: Result<InitializeOrderArgs, SolverError>)
        ensures
            match r {
                Ok(a) => {
                    &&& data@.len() == 241
                    &&& a.intent@ == spec_decode_intent(data@.subrange(0, 240))
                    &&& spec_encode_intent(a.intent@) == data@.subrange(0, 240)
                    &&& a.intent@.wf()
                    &&& a.bump == data@[240]
                },
                Err(e) => {
                    &&& data@.len() != 241
                    &&& e == SolverError::InvalidInstructionData
                },
            },
    {
        if data.len() != 241 {
            return Err(SolverError::InvalidInstructionData);
        }
        let body = slice_subrange(data, 0, 240);
        let intent = match OrderIntent::unpack(body) {
            Ok(i) => i,
            Err(_) => {
                return Err(SolverError::InvalidInstructionData);
            },
        };
        Ok(InitializeOrderArgs { intent, bump: data[240] })
    }
}

/// The payload of a cancel, after the opcode byte: just the stored
/// discriminator byte of the record's address.
pub struct CancelOrderArgs {
    /// The discriminator byte under which the record's address was derived.
    pub bump: u8,
}

impl CancelOrderArgs {
    /// Checked parse of a cancel payload: exactly one discriminator byte.
    pub fn unpack(data: &[u8]) -> (r: Result<CancelOrderArgs, SolverError>)
        ensures
            match r {
                Ok(a) => data@.len() == 1 && a.bump == data@[0],
                Err(e) => {
                    &&& data@.len() != 1
                    &&& e == SolverError::InvalidInstructionData
                },
            },
    {
        if data.len() != 1 {
            return Err(SolverError::InvalidInstructionData);
        }
        Ok(CancelOrderArgs { bump: data[0] })
    }
}

/// The payload of an execute, after the opcode byte: the discriminator
/// byte, the full record body (which must match the stored record byte for
/// byte), and the opaque bytes forwarded verbatim to the venue.
pub struct ExecuteOrderArgs {
    /// The discriminator byte under which the record's address was derived.
    pub bump: u8,
    /// The record the solver claims is stored at the target address.
    pub order: Order,
    /// The solver's chosen settlement route; never interpreted here.
    pub venue_payload: Vec<u8>,
}

impl ExecuteOrderArgs {
    /// Checked parse of an execute payload: one discriminator byte, an
    /// exact record body, and the rest forwarded untouched.
    pub fn unpack(data: &[u8]) -> (r: Result<ExecuteOrderArgs, SolverError>)
        ensures
            match r {
                Ok(a) => {
                    &&& data@.len() >= 274
                    &&& a.bump == data@[0]
                    &&& a.order@ == spec_decode_order(data@.subrange(1, 274))
                    &&& spec_encode_order(a.order@) == data@.subrange(1, 274)
                    &&& a.order@.intent.wf()
                    &&& a.order@.rent_payer.len() == 32
                    &&& a.venue_payload@ == data@.subrange(274, data@.len() as int)
                },
                Err(e) => {
                    &&& e == SolverError::InvalidInstructionData
                    &&& !(data@.len() >= 274 && (data@[1] == 0 || data@[1] == 1))
                },
            },
    {
        if data.len() < 274 {
            return Err(SolverError::InvalidInstructionData);
        }
        let bump = data[0];
        let body = slice_subrange(data, 1, 274);
        let order = match Order::unpack(body) {
            Ok(o) => o,
            Err(_) => {
                return Err(SolverError::InvalidInstructionData);
            },
        };
        let venue_payload = slice_to_vec(slice_subrange(data, 274, data.len()));
        Ok(ExecuteOrderArgs { bump, order, venue_payload })
    }
}

} // verus!
