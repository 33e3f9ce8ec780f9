//! The verified entry-point logic of the three instructions.
//!
//! Each processor takes plain snapshots of the supplied accounts, the raw
//! payload after the opcode byte, and the injected protocol identities. It
//! runs every rule of the validation layer and the lifecycle engine, makes
//! the content-commitment calls, and returns either the exact outcome the
//! caller must apply atomically, or the error of the first violated rule —
//! in which case nothing may be applied.

use crate::accounts::{
    parse_token_account, spec_cancel_ctx_check, spec_execute_ctx_check, spec_initialize_ctx_check,
    validate_escrow_account, AccountModel, CancelOrderContext, ExecuteOrderContext,
    InitializeOrderContext, ProtocolConfig,
};
use crate::codec::{spec_decode_intent, spec_decode_order, spec_encode_intent, spec_encode_order};
use crate::commitment::{
    commitment_hash, derivation_viable, derived_order_address, derived_order_bump,
    find_order_address, keccak256_of,
};
use crate::error::SolverError;
use crate::instruction::{CancelOrderArgs, ExecuteOrderArgs, InitializeOrderArgs};
use crate::lifecycle::{
    CancelInputs, CancelReceipt, CommitInputs, ExecuteInputs, ExecuteReceipt, OrderSlot,
};
use crate::order::{pubkey_eq, Initialized, Order, OrderV, Pubkey};
use vstd::bytes::spec_u64_from_le_bytes;
use vstd::prelude::*;

verus! {

/// What [`Order::load`] yields for given account contents under a given
/// protocol identity: the stored record, or the error of the first violated
/// storage rule.
pub open spec fn spec_load_order(account: AccountModel, program_id: Seq<u8>) -> Result<
    OrderV,
    SolverError,
> {
    if account.data@.len() == 0 {
        Err(SolverError::RecordNotFound)
    } else if account.owner@ != program_id {
        Err(SolverError::IllegalOwner)
    } else if !(account.data@.len() == 273 && (account.data@[0] == 0 || account.data@[0] == 1)) {
        Err(SolverError::InvalidAccountData)
    } else {
        let o = spec_decode_order(account.data@);
        if !o.is_initialized {
            Err(SolverError::UninitializedAccount)
        } else if !o.intent.valid_window() {
            Err(SolverError::InvalidAccountData)
        } else {
            Ok(o)
        }
    }
}

impl Order {
    /// Reads a committed record out of its storage account. The storage
    /// must be non-empty (else the record is gone), owned by this protocol,
    /// hold exactly one well-formed record, and be marked committed.
    pub fn load(account: &AccountModel, program_id: &Pubkey) -> (r: Result<Order, SolverError>)
        ensures
            match r {
                Ok(o) => {
                    &&& spec_load_order(*account, program_id@) == Ok::<OrderV, SolverError>(o@)
                    &&& o@.wf()
                    &&& spec_encode_order(o@) == account.data@
                },
                Err(e) => spec_load_order(*account, program_id@) == Err::<OrderV, SolverError>(e),
            },
    {
        if account.data.len() == 0 {
            return Err(SolverError::RecordNotFound);
        }
        if !pubkey_eq(&account.owner, program_id) {
            return Err(SolverError::IllegalOwner);
        }
        let o = match Order::unpack(account.data.as_slice()) {
            Ok(o) => o,
            Err(e) => {
                return Err(e);
            },
        };
        if !o.is_initialized() {
            return Err(SolverError::UninitializedAccount);
        }
        if !o.intent.has_valid_window() {
            return Err(SolverError::InvalidAccountData);
        }
        Ok(o)
    }
}

/// Whether `key` and `bump` are exactly what the platform derives for a
/// record whose intent body is `body`, committed by `owner` under this
/// protocol: the storage location is a content commitment.
pub open spec fn spec_derivation_ok(
    program_id: Seq<u8>,
    owner: Seq<u8>,
    body: Seq<u8>,
    key: Seq<u8>,
    bump: u8,
) -> bool {
    &&& key == derived_order_address(program_id, owner, keccak256_of(body))
    &&& bump == derived_order_bump(program_id, owner, keccak256_of(body))
}

/// Everything a commit obliges the caller to apply atomically: allocate the
/// record's storage with the deposit, escrow the sell-side funds, and write
/// the record bytes.
pub struct CommitOutcome {
    /// The record to persist.
    pub record: Order,
    /// Its canonical bytes, exactly what storage must hold afterwards.
    pub record_bytes: Vec<u8>,
    /// The content commitment the storage address was derived from.
    pub commitment: Pubkey,
    /// The discriminator byte of the derived address.
    pub bump: u8,
    /// The storage deposit to move from the payer.
    pub deposit: u64,
    /// The sell-side amount to escrow from the owner's source account.
    pub escrow_amount: u64,
}

/// The rules of a commit that do not involve address derivation, in the
/// order they are checked, with the error of the first violated one.
pub open spec fn spec_initialize_precheck(
    accounts: Seq<AccountModel>,
    data: Seq<u8>,
    config: ProtocolConfig,
) -> Option<SolverError> {
    if data.len() != 241 {
        Some(SolverError::InvalidInstructionData)
    } else if spec_initialize_ctx_check(accounts) is Some {
        spec_initialize_ctx_check(accounts)
    } else if accounts[6].key@ != config.token_program@ {
        Some(SolverError::IncorrectProgramId)
    } else {
        let intent = spec_decode_intent(data.subrange(0, 240));
        let escrow = accounts[4].data@;
        if escrow.len() != 165 {
            Some(SolverError::InvalidAccountData)
        } else if escrow.subrange(32, 64) != accounts[2].key@ {
            Some(SolverError::InvalidTokenAccountOwner)
        } else if escrow.subrange(0, 32) != intent.sell_token {
            Some(SolverError::InvalidTokenAccountMint)
        } else if accounts[4].key@ != intent.from_token_account {
            Some(SolverError::AccountMismatch)
        } else if accounts[1].key@ != intent.owner {
            Some(SolverError::MissingSignature)
        } else if !intent.valid_window() {
            Some(SolverError::InvalidAuctionWindow)
        } else {
            None
        }
    }
}

/// Commit. Validates the payload, the account set, the escrow custody
/// account and the auction window, derives the record's address from the
/// content commitment, and demands that the supplied storage address equal
/// it. On success the returned outcome is exact; on failure nothing may be
/// applied. (The address search itself fails only in the statistically
/// improbable case that no discriminator is viable; that case is also
/// reported as a derivation mismatch.)
pub fn process_initialize_order(
    accounts: &[AccountModel],
    instruction_data: &[u8],
    config: &ProtocolConfig,
    rent_minimum: u64,
) -> (r: Result<CommitOutcome, SolverError>)
    ensures
        (spec_initialize_precheck(accounts@, instruction_data@, *config) matches Some(e) ==> r == Err::<
            CommitOutcome,
            SolverError,
        >(e)),
        ({
            let intent = spec_decode_intent(instruction_data@.subrange(0, 240));
            let body = instruction_data@.subrange(0, 240);
            let viable = derivation_viable(config.program_id@, intent.owner, keccak256_of(body));
            let address_ok = spec_derivation_ok(
                config.program_id@,
                intent.owner,
                body,
                accounts@[2].key@,
                instruction_data@[240],
            );
            &&& (spec_initialize_precheck(accounts@, instruction_data@, *config) is None && viable
                && address_ok ==> r is Ok)
            &&& (spec_initialize_precheck(accounts@, instruction_data@, *config) is None && !(
            viable && address_ok) ==> r == Err::<CommitOutcome, SolverError>(
                SolverError::DerivationMismatch,
            ))
            &&& (r matches Ok(out) ==> {
                &&& spec_initialize_precheck(accounts@, instruction_data@, *config) is None
                &&& viable
                &&& address_ok
                &&& out.record@ == (OrderV {
                    is_initialized: true,
                    intent,
                    rent_payer: accounts@[0].key@,
                })
                &&& out.record@.wf()
                &&& out.record_bytes@ == spec_encode_order(out.record@)
                &&& out.commitment@ == keccak256_of(body)
                &&& out.bump == instruction_data@[240]
                &&& out.deposit == rent_minimum
                &&& out.escrow_amount == intent.sell_amount
            })
        }),
{
    let args = match InitializeOrderArgs::unpack(instruction_data) {
        Ok(a) => a,
        Err(e) => {
            return Err(e);
        },
    };
    let ctx = match InitializeOrderContext::try_from(accounts) {
        Ok(c) => c,
        Err(e) => {
            return Err(e);
        },
    };
    if !pubkey_eq(&ctx.token_program.key, &config.token_program) {
        return Err(SolverError::IncorrectProgramId);
    }
    let escrow_fields = match parse_token_account(ctx.to_token_account.data.as_slice()) {
        Ok(f) => f,
        Err(e) => {
            return Err(e);
        },
    };
    if let Err(e) = validate_escrow_account(
        &escrow_fields,
        &ctx.order_account.key,
        &args.intent.sell_token,
    ) {
        return Err(e);
    }
    if !pubkey_eq(&ctx.to_token_account.key, &args.intent.from_token_account) {
        return Err(SolverError::AccountMismatch);
    }
    let body = args.intent.encode();
    let commitment = commitment_hash(body.as_slice());
    let derived = find_order_address(&config.program_id, &args.intent.owner, &commitment);
    let inputs = CommitInputs {
        owner_key: ctx.owner.key,
        owner_signed: ctx.owner.is_signer,
        payer_key: ctx.payer.key,
        order_account_key: ctx.order_account.key,
        derived,
        rent_minimum,
    };
    let mut slot = OrderSlot::empty();
    if let Err(e) = slot.commit(&args, &inputs) {
        return Err(e);
    }
    let record = match slot.record {
        Some(o) => o,
        // A successful commit always fills the slot.
        None => vstd::pervasive::unreached(),
    };
    let record_bytes = record.encode();
    Ok(
        CommitOutcome {
            record,
            record_bytes,
            commitment,
            bump: args.bump,
            deposit: rent_minimum,
            escrow_amount: args.intent.sell_amount,
        },
    )
}

/// The rules of an execute up to and including the demand that the claimed
/// record match storage byte for byte, in the order they are checked.
pub open spec fn spec_execute_precheck(
    accounts: Seq<AccountModel>,
    data: Seq<u8>,
    config: ProtocolConfig,
) -> Option<SolverError> {
    if spec_execute_ctx_check(accounts) is Some {
        spec_execute_ctx_check(accounts)
    } else if accounts[7].key@ != config.token_program@ {
        Some(SolverError::IncorrectProgramId)
    } else if !(data.len() >= 274 && (data[1] == 0 || data[1] == 1)) {
        Some(SolverError::InvalidInstructionData)
    } else if spec_load_order(accounts[1], config.program_id@) is Err {
        Some(spec_load_order(accounts[1], config.program_id@)->Err_0)
    } else if accounts[3].data@.len() != 165 {
        Some(SolverError::InvalidAccountData)
    } else if accounts[4].data@.len() != 165 {
        Some(SolverError::InvalidAccountData)
    } else if spec_decode_order(data.subrange(1, 274))
        != spec_load_order(accounts[1], config.program_id@)->Ok_0 {
        Some(SolverError::InvalidAccountData)
    } else {
        None
    }
}

/// The rules of an execute past address re-derivation: the supplied account
/// set must be the record's, the escrow must still cover the sell amount,
/// and the venue must have delivered the required buy amount.
pub open spec fn spec_execute_postcheck(
    accounts: Seq<AccountModel>,
    data: Seq<u8>,
    config: ProtocolConfig,
    now: u64,
    pre: u64,
) -> Option<SolverError> {
    let stored = spec_load_order(accounts[1], config.program_id@)->Ok_0;
    let escrow_balance = spec_u64_from_le_bytes(accounts[3].data@.subrange(64, 72));
    let post = spec_u64_from_le_bytes(accounts[4].data@.subrange(64, 72));
    if !(accounts[2].key@ == stored.intent.owner && accounts[3].key@
        == stored.intent.from_token_account && accounts[4].key@ == stored.intent.to_token_account
        && accounts[5].key@ == stored.intent.referral_token_account) {
        Some(SolverError::AccountMismatch)
    } else if escrow_balance < stored.intent.sell_amount {
        Some(SolverError::InsufficientEscrow)
    } else if post < pre + crate::decay::required_buy_amount_spec(
        stored.intent.buy_amount_ceiling,
        stored.intent.buy_amount_floor,
        stored.intent.start_time,
        stored.intent.deadline,
        now,
    ) {
        Some(SolverError::SlippageExceeded)
    } else {
        None
    }
}

/// Execute. Judges one settlement attempt after the venue has run: the
/// account snapshots are post-venue, `pre` is the destination balance
/// observed before the venue was invoked, and `now` is the settlement time.
/// On success the receipt states exactly what must be paid out and the
/// record's storage must be reclaimed; on failure nothing may be applied —
/// the record stays committed and every balance stays as it was.
pub fn process_execute_order(
    accounts: &[AccountModel],
    instruction_data: &[u8],
    config: &ProtocolConfig,
    now: u64,
    pre: u64,
) -> (r: Result<ExecuteReceipt, SolverError>)
    ensures
        (spec_execute_precheck(accounts@, instruction_data@, *config) matches Some(e) ==> r
            == Err::<ExecuteReceipt, SolverError>(e)),
        ({
            let stored = spec_load_order(accounts@[1], config.program_id@)->Ok_0;
            let body = spec_encode_intent(stored.intent);
            let viable = derivation_viable(
                config.program_id@,
                stored.intent.owner,
                keccak256_of(body),
            );
            let derivation_ok = spec_derivation_ok(
                config.program_id@,
                stored.intent.owner,
                body,
                accounts@[1].key@,
                instruction_data@[0],
            );
            &&& (spec_execute_precheck(accounts@, instruction_data@, *config) is None && viable
                && derivation_ok && spec_execute_postcheck(
                accounts@,
                instruction_data@,
                *config,
                now,
                pre,
            ) is None ==> r is Ok)
            &&& (spec_execute_precheck(accounts@, instruction_data@, *config) is None && !(viable
                && derivation_ok) ==> r == Err::<ExecuteReceipt, SolverError>(
                SolverError::DerivationMismatch,
            ))
            &&& (spec_execute_precheck(accounts@, instruction_data@, *config) is None && viable
                && derivation_ok && spec_execute_postcheck(
                accounts@,
                instruction_data@,
                *config,
                now,
                pre,
            ) is Some ==> r == Err::<ExecuteReceipt, SolverError>(
                spec_execute_postcheck(accounts@, instruction_data@, *config, now, pre)->0,
            ))
            &&& (r matches Ok(receipt) ==> {
                let post = spec_u64_from_le_bytes(accounts@[4].data@.subrange(64, 72));
                &&& spec_execute_precheck(accounts@, instruction_data@, *config) is None
                &&& viable
                &&& derivation_ok
                &&& spec_execute_postcheck(accounts@, instruction_data@, *config, now, pre)
                    is None
                &&& receipt.required == crate::decay::required_buy_amount_spec(
                    stored.intent.buy_amount_ceiling,
                    stored.intent.buy_amount_floor,
                    stored.intent.start_time,
                    stored.intent.deadline,
                    now,
                )
                &&& receipt.delivered == post - pre
                &&& receipt.delivered >= receipt.required
                &&& receipt.referral_payout == stored.intent.referral_fee
                &&& receipt.escrow_released == spec_u64_from_le_bytes(
                    accounts@[3].data@.subrange(64, 72),
                )
                &&& receipt.deposit_refund == accounts@[1].lamports
            })
        }),
{
    let ctx = match ExecuteOrderContext::try_from(accounts) {
        Ok(c) => c,
        Err(e) => {
            return Err(e);
        },
    };
    if !pubkey_eq(&ctx.token_program.key, &config.token_program) {
        return Err(SolverError::IncorrectProgramId);
    }
    let args = match ExecuteOrderArgs::unpack(instruction_data) {
        Ok(a) => a,
        Err(e) => {
            return Err(e);
        },
    };
    let stored = match Order::load(ctx.order_account, &config.program_id) {
        Ok(o) => o,
        Err(e) => {
            return Err(e);
        },
    };
    let escrow_fields = match parse_token_account(ctx.from_token_account.data.as_slice()) {
        Ok(f) => f,
        Err(e) => {
            return Err(e);
        },
    };
    let dest_fields = match parse_token_account(ctx.to_token_account.data.as_slice()) {
        Ok(f) => f,
        Err(e) => {
            return Err(e);
        },
    };
    let body = stored.intent.encode();
    let commitment = commitment_hash(body.as_slice());
    let derived = find_order_address(&config.program_id, &stored.intent.owner, &commitment);
    let inputs = ExecuteInputs {
        solver_signed: ctx.solver.is_signer,
        order_account_key: ctx.order_account.key,
        supplied: args.order,
        bump: args.bump,
        derived,
        owner_key: ctx.owner.key,
        from_key: ctx.from_token_account.key,
        to_key: ctx.to_token_account.key,
        referral_key: ctx.referral_token_account.key,
        now,
        pre,
        post: dest_fields.amount,
    };
    let mut slot = OrderSlot {
        record: Some(stored),
        lamports: ctx.order_account.lamports,
        escrow: escrow_fields.amount,
    };
    slot.execute(&inputs)
}

/// The rules of a cancel, in the order they are checked, with the error of
/// the first violated one. Cancellation involves no address derivation, so
/// this is the whole story.
pub open spec fn spec_cancel_precheck(
    accounts: Seq<AccountModel>,
    data: Seq<u8>,
    config: ProtocolConfig,
) -> Option<SolverError> {
    if spec_cancel_ctx_check(accounts) is Some {
        spec_cancel_ctx_check(accounts)
    } else if accounts[5].key@ != config.token_program@ {
        Some(SolverError::IncorrectProgramId)
    } else if data.len() != 1 {
        Some(SolverError::InvalidInstructionData)
    } else if spec_load_order(accounts[0], config.program_id@) is Err {
        Some(spec_load_order(accounts[0], config.program_id@)->Err_0)
    } else if accounts[2].data@.len() != 165 {
        Some(SolverError::InvalidAccountData)
    } else {
        let stored = spec_load_order(accounts[0], config.program_id@)->Ok_0;
        if accounts[1].key@ != stored.intent.owner {
            Some(SolverError::Unauthorized)
        } else if accounts[4].key@ != stored.rent_payer {
            Some(SolverError::AccountMismatch)
        } else {
            None
        }
    }
}

/// Cancel. Only the record's true owner may cancel, and only while the
/// record is committed; the escrowed funds and the storage deposit are then
/// owed back in full. On failure nothing may be applied.
pub fn process_cancel_order(
    accounts: &[AccountModel],
    instruction_data: &[u8],
    config: &ProtocolConfig,
) -> (r: Result<CancelReceipt, SolverError>)
    ensures
        match r {
            Ok(receipt) => {
                &&& spec_cancel_precheck(accounts@, instruction_data@, *config) is None
                &&& receipt.escrow_returned == spec_u64_from_le_bytes(
                    accounts@[2].data@.subrange(64, 72),
                )
                &&& receipt.deposit_refund == accounts@[0].lamports
            },
            Err(e) => spec_cancel_precheck(accounts@, instruction_data@, *config) == Some(e),
        },
{
    let ctx = match CancelOrderContext::try_from(accounts) {
        Ok(c) => c,
        Err(e) => {
            return Err(e);
        },
    };
    if !pubkey_eq(&ctx.token_program.key, &config.token_program) {
        return Err(SolverError::IncorrectProgramId);
    }
    let _args = match CancelOrderArgs::unpack(instruction_data) {
        Ok(a) => a,
        Err(e) => {
            return Err(e);
        },
    };
    let stored = match Order::load(ctx.order_account, &config.program_id) {
        Ok(o) => o,
        Err(e) => {
            return Err(e);
        },
    };
    let escrow_fields = match parse_token_account(ctx.from_token_account.data.as_slice()) {
        Ok(f) => f,
        Err(e) => {
            return Err(e);
        },
    };
    let inputs = CancelInputs {
        owner_key: ctx.owner.key,
        owner_signed: ctx.owner.is_signer,
        rent_payer_key: ctx.rent_payer.key,
    };
    let mut slot = OrderSlot {
        record: Some(stored),
        lamports: ctx.order_account.lamports,
        escrow: escrow_fields.amount,
    };
    slot.cancel(&inputs)
}

} // verus!
