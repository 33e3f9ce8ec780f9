//! The settlement executor: commit, execute and cancel as atomic state
//! transitions over one order storage slot.
//!
//! An [`OrderSlot`] is the engine's model of everything a single order
//! owns: the storage at the derived address (empty or holding a committed
//! record), the storage deposit kept there, and the escrowed sell-side
//! funds. Each transition either completes, leaving the slot in the stated
//! new state, or fails with a single error, leaving the slot untouched.
//! Exactly one of execute and cancel can ever complete for a committed
//! record, because both consume the slot.

use crate::decay::{
    lemma_required_buy_amount_monotonic, required_buy_amount, required_buy_amount_spec,
};
use crate::error::SolverError;
use crate::instruction::InitializeOrderArgs;
use crate::order::{order_eq, pubkey_eq, Order, OrderV, Pubkey};
use vstd::prelude::*;

verus! {

/// Everything one order owns: its storage slot, the deposit that keeps the
/// storage alive, and the escrowed sell-side funds.
pub struct OrderSlot {
    /// The committed record, if the slot is occupied.
    pub record: Option<Order>,
    /// Storage deposit held at the record's address, refunded on close.
    pub lamports: u64,
    /// Sell-side funds in protocol custody for this order.
    pub escrow: u64,
}

impl OrderSlot {
    /// Slot states that can arise: an occupied slot holds a well-formed,
    /// committed record; an empty slot holds no funds.
    pub open spec fn wf(self) -> bool {
        match self.record {
            Some(o) => o@.wf(),
            None => self.lamports == 0 && self.escrow == 0,
        }
    }

    /// An empty slot: no record, no deposit, no escrow.
    pub open spec fn spec_empty() -> OrderSlot {
        OrderSlot { record: None, lamports: 0, escrow: 0 }
    }

    /// Creates the slot of an address nothing was ever committed to.
    pub fn empty() -> (r: OrderSlot)
        ensures
            r == Self::spec_empty(),
            r.wf(),
    {
        OrderSlot { record: None, lamports: 0, escrow: 0 }
    }
}

/// The facts a commit attempt is judged on, besides the slot and the
/// payload: who signed, which storage address was supplied, and what the
/// authoritative derivation returned for the intent's content.
pub struct CommitInputs {
    /// Key of the account presented as the intent's owner.
    pub owner_key: Pubkey,
    /// Whether that account signed the instruction.
    pub owner_signed: bool,
    /// Key of the funding payer, recorded as entitled to the deposit refund.
    pub payer_key: Pubkey,
    /// The storage address the caller asks to commit to.
    pub order_account_key: Pubkey,
    /// What the platform derives for (owner, commitment hash), if a viable
    /// discriminator exists.
    pub derived: Option<(Pubkey, u8)>,
    /// The deposit required to keep the record's storage alive.
    pub rent_minimum: u64,
}

/// The error a commit reports, or `None` if every rule holds: the owner
/// must have authorized this very intent, the target storage must be empty,
/// the auction window must be well formed, and the supplied address must
/// equal the derived one (with its discriminator).
pub open spec fn spec_commit_error(
    slot: OrderSlot,
    args: InitializeOrderArgs,
    inp: CommitInputs,
) -> Option<SolverError> {
    if !inp.owner_signed || inp.owner_key@ != args.intent.owner@ {
        Some(SolverError::MissingSignature)
    } else if slot.record is Some {
        Some(SolverError::AlreadyInitialized)
    } else if !args.intent@.valid_window() {
        Some(SolverError::InvalidAuctionWindow)
    } else if !(inp.derived matches Some(d) && d.0@ == inp.order_account_key@ && d.1 == args.bump) {
        Some(SolverError::DerivationMismatch)
    } else {
        None
    }
}

/// The slot state after a commit attempt.
pub open spec fn spec_commit_next(
    slot: OrderSlot,
    args: InitializeOrderArgs,
    inp: CommitInputs,
) -> OrderSlot {
    if spec_commit_error(slot, args, inp) is None {
        OrderSlot {
            record: Some(
                Order { is_initialized: true, intent: args.intent, rent_payer: inp.payer_key },
            ),
            lamports: inp.rent_minimum,
            escrow: args.intent.sell_amount,
        }
    } else {
        slot
    }
}

/// What a successful execute pays out, derived from one settlement attempt.
pub struct ExecuteReceipt {
    /// The buy amount the auction demanded at settlement time.
    pub required: u64,
    /// What the venue actually delivered to the destination account.
    pub delivered: u64,
    /// Referral reward owed out of the settled amount (zero if none).
    pub referral_payout: u64,
    /// Escrowed sell-side funds released by the settlement.
    pub escrow_released: u64,
    /// Storage deposit refunded to the rent payer.
    pub deposit_refund: u64,
}

/// The facts an execute attempt is judged on: the solver's signature, the
/// record the solver claims (which must match storage byte for byte), the
/// re-derived address, the supplied account set, the settlement time, and
/// the destination balance before and after the venue ran.
pub struct ExecuteInputs {
    /// Whether the settling solver signed.
    pub solver_signed: bool,
    /// The storage address the caller presented.
    pub order_account_key: Pubkey,
    /// The record claimed in the payload.
    pub supplied: Order,
    /// The discriminator byte claimed in the payload.
    pub bump: u8,
    /// What the platform derives for the claimed record's content.
    pub derived: Option<(Pubkey, u8)>,
    /// Key of the supplied owner account.
    pub owner_key: Pubkey,
    /// Key of the supplied escrow (source) token account.
    pub from_key: Pubkey,
    /// Key of the supplied destination token account.
    pub to_key: Pubkey,
    /// Key of the supplied referral token account.
    pub referral_key: Pubkey,
    /// Settlement time from the clock.
    pub now: u64,
    /// Destination balance before the venue was invoked.
    pub pre: u64,
    /// Destination balance after the venue returned.
    pub post: u64,
}

/// The error an execute reports, or `None` if settlement is owed: some
/// solver signed, a committed record exists, the claimed record matches it
/// byte for byte, the storage address re-derives from the record's content,
/// the supplied accounts are the record's accounts, the escrow still covers
/// the sell amount, and the venue delivered at least the required amount.
pub open spec fn spec_execute_error(slot: OrderSlot, inp: ExecuteInputs) -> Option<SolverError> {
    if !inp.solver_signed {
        Some(SolverError::MissingSignature)
    } else if slot.record is None {
        Some(SolverError::RecordNotFound)
    } else {
        let stored = slot.record->0;
        if inp.supplied@ != stored@ {
            Some(SolverError::InvalidAccountData)
        } else if !(inp.derived matches Some(d) && d.0@ == inp.order_account_key@ && d.1
            == inp.bump) {
            Some(SolverError::DerivationMismatch)
        } else if !(inp.owner_key@ == stored@.intent.owner && inp.from_key@
            == stored@.intent.from_token_account && inp.to_key@ == stored@.intent.to_token_account
            && inp.referral_key@ == stored@.intent.referral_token_account) {
            Some(SolverError::AccountMismatch)
        } else if slot.escrow < stored@.intent.sell_amount {
            Some(SolverError::InsufficientEscrow)
        } else if inp.post < inp.pre + required_buy_amount_spec(
            stored@.intent.buy_amount_ceiling,
            stored@.intent.buy_amount_floor,
            stored@.intent.start_time,
            stored@.intent.deadline,
            inp.now,
        ) {
            Some(SolverError::SlippageExceeded)
        } else {
            None
        }
    }
}

/// The slot state after an execute attempt: consumed on success, untouched
/// on failure.
pub open spec fn spec_execute_next(slot: OrderSlot, inp: ExecuteInputs) -> OrderSlot {
    if spec_execute_error(slot, inp) is None {
        OrderSlot::spec_empty()
    } else {
        slot
    }
}

/// What a successful cancel returns to the owner and the rent payer.
pub struct CancelReceipt {
    /// Escrowed sell-side funds returned to the owner.
    pub escrow_returned: u64,
    /// Storage deposit refunded to the rent payer.
    pub deposit_refund: u64,
}

/// The facts a cancel attempt is judged on: who signed, and which accounts
/// were supplied for the refunds.
pub struct CancelInputs {
    /// Key of the account claiming to be the owner.
    pub owner_key: Pubkey,
    /// Whether that account signed.
    pub owner_signed: bool,
    /// Key of the supplied rent-payer account.
    pub rent_payer_key: Pubkey,
}

/// The error a cancel reports, or `None` if the cancel is owed: the caller
/// must have signed, a committed record must exist, the caller must be the
/// record's owner, and the refund must go to the recorded rent payer.
pub open spec fn spec_cancel_error(slot: OrderSlot, inp: CancelInputs) -> Option<SolverError> {
    if !inp.owner_signed {
        Some(SolverError::MissingSignature)
    } else if slot.record is None {
        Some(SolverError::RecordNotFound)
    } else {
        let stored = slot.record->0;
        if inp.owner_key@ != stored@.intent.owner {
            Some(SolverError::Unauthorized)
        } else if inp.rent_payer_key@ != stored@.rent_payer {
            Some(SolverError::AccountMismatch)
        } else {
            None
        }
    }
}

/// The slot state after a cancel attempt: consumed on success, untouched on
/// failure.
pub open spec fn spec_cancel_next(slot: OrderSlot, inp: CancelInputs) -> OrderSlot {
    if spec_cancel_error(slot, inp) is None {
        OrderSlot::spec_empty()
    } else {
        slot
    }
}

impl OrderSlot {
    /// Commit: `Uninitialized -> Committed`. Writes the record, takes the
    /// storage deposit and escrows the sell-side funds — or changes nothing
    /// and reports why.
    pub fn commit(&mut self, args: &InitializeOrderArgs, inp: &CommitInputs) -> (r: Result<
        (),
        SolverError,
    >)
        requires
            old(self).wf(),
        ensures
            final(self).wf(),
            *final(self) == spec_commit_next(*old(self), *args, *inp),
            match r {
                Ok(()) => spec_commit_error(*old(self), *args, *inp) is None,
                Err(e) => spec_commit_error(*old(self), *args, *inp) == Some(e),
            },
    {
        if !inp.owner_signed || !pubkey_eq(&inp.owner_key, &args.intent.owner) {
            return Err(SolverError::MissingSignature);
        }
        if self.record.is_some() {
            return Err(SolverError::AlreadyInitialized);
        }
        if !args.intent.has_valid_window() {
            return Err(SolverError::InvalidAuctionWindow);
        }
        match &inp.derived {
            Some(d) => {
                if !pubkey_eq(&d.0, &inp.order_account_key) || d.1 != args.bump {
                    return Err(SolverError::DerivationMismatch);
                }
            },
            None => {
                return Err(SolverError::DerivationMismatch);
            },
        }
        let record = Order { is_initialized: true, intent: args.intent, rent_payer: inp.payer_key };
        self.record = Some(record);
        self.lamports = inp.rent_minimum;
        self.escrow = args.intent.sell_amount;
        Ok(())
    }

    /// Execute: `Committed -> Executed`, permissionless. Judges one
    /// settlement attempt; on success the slot is consumed and the receipt
    /// says what is paid out, on failure the slot — escrow and deposit
    /// included — is exactly as before.
    pub fn execute(&mut self, inp: &ExecuteInputs) -> (r: Result<ExecuteReceipt, SolverError>)
        requires
            old(self).wf(),
        ensures
            final(self).wf(),
            *final(self) == spec_execute_next(*old(self), *inp),
            match r {
                Ok(receipt) => {
                    &&& spec_execute_error(*old(self), *inp) is None
                    &&& old(self).record matches Some(stored) && {
                        &&& receipt.required == required_buy_amount_spec(
                            stored@.intent.buy_amount_ceiling,
                            stored@.intent.buy_amount_floor,
                            stored@.intent.start_time,
                            stored@.intent.deadline,
                            inp.now,
                        )
                        &&& receipt.delivered == inp.post - inp.pre
                        &&& receipt.delivered >= receipt.required
                        &&& receipt.referral_payout == stored@.intent.referral_fee
                        &&& receipt.escrow_released == old(self).escrow
                        &&& receipt.deposit_refund == old(self).lamports
                    }
                },
                Err(e) => spec_execute_error(*old(self), *inp) == Some(e),
            },
    {
        if !inp.solver_signed {
            return Err(SolverError::MissingSignature);
        }
        let stored = match self.record {
            Some(o) => o,
            None => {
                return Err(SolverError::RecordNotFound);
            },
        };
        if !order_eq(&inp.supplied, &stored) {
            return Err(SolverError::InvalidAccountData);
        }
        match &inp.derived {
            Some(d) => {
                if !pubkey_eq(&d.0, &inp.order_account_key) || d.1 != inp.bump {
                    return Err(SolverError::DerivationMismatch);
                }
            },
            None => {
                return Err(SolverError::DerivationMismatch);
            },
        }
        if !(pubkey_eq(&inp.owner_key, &stored.intent.owner) && pubkey_eq(
            &inp.from_key,
            &stored.intent.from_token_account,
        ) && pubkey_eq(&inp.to_key, &stored.intent.to_token_account) && pubkey_eq(
            &inp.referral_key,
            &stored.intent.referral_token_account,
        )) {
            return Err(SolverError::AccountMismatch);
        }
        if self.escrow < stored.intent.sell_amount {
            return Err(SolverError::InsufficientEscrow);
        }
        let required = required_buy_amount(
            stored.intent.buy_amount_ceiling,
            stored.intent.buy_amount_floor,
            stored.intent.start_time,
            stored.intent.deadline,
            inp.now,
        );
        if inp.post < inp.pre || inp.post - inp.pre < required {
            return Err(SolverError::SlippageExceeded);
        }
        let receipt = ExecuteReceipt {
            required,
            delivered: inp.post - inp.pre,
            referral_payout: stored.intent.referral_fee,
            escrow_released: self.escrow,
            deposit_refund: self.lamports,
        };
        self.record = None;
        self.lamports = 0;
        self.escrow = 0;
        Ok(receipt)
    }

    /// Cancel: `Committed -> Cancelled`, owner only. Returns the escrow to
    /// the owner and the deposit to the rent payer by consuming the slot —
    /// or changes nothing and reports why.
    pub fn cancel(&mut self, inp: &CancelInputs) -> (r: Result<CancelReceipt, SolverError>)
        requires
            old(self).wf(),
        ensures
            final(self).wf(),
            *final(self) == spec_cancel_next(*old(self), *inp),
            match r {
                Ok(receipt) => {
                    &&& spec_cancel_error(*old(self), *inp) is None
                    &&& receipt.escrow_returned == old(self).escrow
                    &&& receipt.deposit_refund == old(self).lamports
                },
                Err(e) => spec_cancel_error(*old(self), *inp) == Some(e),
            },
    {
        if !inp.owner_signed {
            return Err(SolverError::MissingSignature);
        }
        let stored = match self.record {
            Some(o) => o,
            None => {
                return Err(SolverError::RecordNotFound);
            },
        };
        if !pubkey_eq(&inp.owner_key, &stored.intent.owner) {
            return Err(SolverError::Unauthorized);
        }
        if !pubkey_eq(&inp.rent_payer_key, &stored.rent_payer) {
            return Err(SolverError::AccountMismatch);
        }
        let receipt = CancelReceipt { escrow_returned: self.escrow, deposit_refund: self.lamports };
        self.record = None;
        self.lamports = 0;
        self.escrow = 0;
        Ok(receipt)
    }
}

/// A slot consumed by a successful execute cannot be executed again: the
/// second attempt deterministically reports that the record is gone.
pub proof fn lemma_execute_exactly_once(slot: OrderSlot, first: ExecuteInputs, second: ExecuteInputs)
    requires
        spec_execute_error(slot, first) is None,
        second.solver_signed,
    ensures
        spec_execute_error(spec_execute_next(slot, first), second) == Some(
            SolverError::RecordNotFound,
        ),
{
}

/// A slot consumed by a successful execute cannot be cancelled, and a slot
/// consumed by a successful cancel cannot be executed: at most one of the
/// two closing transitions ever completes for a committed record.
pub proof fn lemma_close_is_exclusive(
    slot: OrderSlot,
    exec_inp: ExecuteInputs,
    cancel_inp: CancelInputs,
)
    requires
        cancel_inp.owner_signed,
        exec_inp.solver_signed,
    ensures
        spec_execute_error(slot, exec_inp) is None ==> spec_cancel_error(
            spec_execute_next(slot, exec_inp),
            cancel_inp,
        ) == Some(SolverError::RecordNotFound),
        spec_cancel_error(slot, cancel_inp) is None ==> spec_execute_error(
            spec_cancel_next(slot, cancel_inp),
            exec_inp,
        ) == Some(SolverError::RecordNotFound),
{
}

/// Settling later never demands more: for a committed record, the required
/// buy amount at a later settlement time is never above the amount at an
/// earlier one.
pub proof fn lemma_later_settlement_requires_no_more(o: Order, n1: u64, n2: u64)
    requires
        o@.wf(),
        n1 <= n2,
    ensures
        required_buy_amount_spec(
            o@.intent.buy_amount_ceiling,
            o@.intent.buy_amount_floor,
            o@.intent.start_time,
            o@.intent.deadline,
            n2,
        ) <= required_buy_amount_spec(
            o@.intent.buy_amount_ceiling,
            o@.intent.buy_amount_floor,
            o@.intent.start_time,
            o@.intent.deadline,
            n1,
        ),
{
    lemma_required_buy_amount_monotonic(
        o.intent.buy_amount_ceiling,
        o.intent.buy_amount_floor,
        o.intent.start_time,
        o.intent.deadline,
        n1,
        n2,
    );
}

} // verus!
