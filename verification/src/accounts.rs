//! Account model and the validation layer guarding every mutating entry
//! point.
//!
//! The engine never touches platform handles directly: the caller hands it
//! plain snapshots of the accounts named by an instruction, and the checks
//! here run before any state is mutated. Each entry point has a context
//! struct naming exactly the accounts it expects, with a constructor that
//! rejects any account set that does not fit.

use crate::codec::{read_bytes32, TOKEN_ACCOUNT_LEN};
use crate::error::SolverError;
use crate::order::{pubkey_eq, Pubkey};
use vstd::bytes::{spec_u64_from_le_bytes, u64_from_le_bytes};
use vstd::prelude::*;
use vstd::slice::slice_subrange;

verus! {

/// A plain snapshot of one account at the time an instruction runs.
pub struct AccountModel {
    /// The account's address.
    pub key: Pubkey,
    /// The program that owns the account.
    pub owner: Pubkey,
    /// Balance in the platform's native units.
    pub lamports: u64,
    /// The account's data bytes.
    pub data: Vec<u8>,
    /// Whether this account signed the instruction.
    pub is_signer: bool,
    /// Whether the instruction may mutate this account.
    pub is_writable: bool,
}

/// Identities fixed at startup and injected into every component that needs
/// them: the protocol's own address and the expected token-mover helper.
pub struct ProtocolConfig {
    /// The protocol's own program identity; it owns every order record.
    pub program_id: Pubkey,
    /// The token program trusted to move escrowed funds.
    pub token_program: Pubkey,
}

/// The platform's storage allocator: the system program, whose address is
/// all zero bytes.
pub open spec fn spec_system_program_id() -> Seq<u8> {
    Seq::new(32, |i: int| 0u8)
}

/// Executable form of the system program address.
pub fn system_program_id() -> (r: Pubkey)
    ensures
        r@ == spec_system_program_id(),
{
    let r: Pubkey = [0u8; 32];
    proof {
        assert(r@ =~= spec_system_program_id());
    }
    r
}

/// The fields of a token account that the engine reads.
pub struct TokenAccountFields {
    /// The token this account holds.
    pub mint: Pubkey,
    /// The authority over this account.
    pub owner: Pubkey,
    /// Current balance.
    pub amount: u64,
}

/// Checked view of token-account data: the bytes must have exactly the
/// token-account length; the mint, owner and balance are read from their
/// fixed offsets.
pub fn parse_token_account(data: &[u8]) -> (r: Result<TokenAccountFields, SolverError>)
    ensures
        match r {
            Ok(t) => {
                &&& data@.len() == 165
                &&& t.mint@ == data@.subrange(0, 32)
                &&& t.owner@ == data@.subrange(32, 64)
                &&& t.amount == spec_u64_from_le_bytes(data@.subrange(64, 72))
            },
            Err(e) => {
                &&& data@.len() != 165
                &&& e == SolverError::InvalidAccountData
            },
        },
{
    if data.len() != TOKEN_ACCOUNT_LEN {
        return Err(SolverError::InvalidAccountData);
    }
    let mint = read_bytes32(data, 0);
    let owner = read_bytes32(data, 32);
    let amount = u64_from_le_bytes(slice_subrange(data, 64, 72));
    Ok(TokenAccountFields { mint, owner, amount })
}

/// The escrow custody account a commit hands the sell-side funds to: it
/// must be controlled by the order record itself and hold the sell token.
pub fn validate_escrow_account(
    fields: &TokenAccountFields,
    order_account_key: &Pubkey,
    sell_token: &Pubkey,
) -> (r: Result<(), SolverError>)
    ensures
        match r {
            Ok(()) => {
                &&& fields.owner@ == order_account_key@
                &&& fields.mint@ == sell_token@
            },
            Err(e) => {
                if fields.owner@ != order_account_key@ {
                    e == SolverError::InvalidTokenAccountOwner
                } else {
                    fields.mint@ != sell_token@ && e == SolverError::InvalidTokenAccountMint
                }
            },
        },
{
    if !pubkey_eq(&fields.owner, order_account_key) {
        return Err(SolverError::InvalidTokenAccountOwner);
    }
    if !pubkey_eq(&fields.mint, sell_token) {
        return Err(SolverError::InvalidTokenAccountMint);
    }
    Ok(())
}

/// The accounts a commit expects, in order: funding payer, owner, order
/// storage, the owner's source token account, the escrow token account, the
/// rent sysvar, the token program and the system program.
pub struct InitializeOrderContext<'a> {
    pub payer: &'a AccountModel,
    pub owner: &'a AccountModel,
    pub order_account: &'a AccountModel,
    pub from_token_account: &'a AccountModel,
    pub to_token_account: &'a AccountModel,
    pub sysvar_rent_acc: &'a AccountModel,
    pub token_program: &'a AccountModel,
    pub system_program: &'a AccountModel,
}

/// The guard a commit's account set must pass, and the error reported at
/// the first violated rule.
pub open spec fn spec_initialize_ctx_check(accounts: Seq<AccountModel>) -> Option<SolverError> {
    if accounts.len() != 8 {
        Some(SolverError::NotEnoughAccountKeys)
    } else if !accounts[0].is_signer {
        Some(SolverError::MissingSignature)
    } else if !accounts[1].is_signer {
        Some(SolverError::MissingSignature)
    } else if accounts[2].data@.len() != 0 {
        Some(SolverError::AlreadyInitialized)
    } else if !accounts[2].is_writable {
        Some(SolverError::OrderAccountMustBeMut)
    } else if accounts[7].key@ != spec_system_program_id() {
        Some(SolverError::IncorrectProgramId)
    } else {
        None
    }
}

impl<'a> InitializeOrderContext<'a> {
    /// Validates the account set of a commit: both the payer and the owner
    /// must have signed, the order storage must be empty and writable, and
    /// the storage allocator must be the real system program.
    pub fn try_from(accounts: &'a [AccountModel]) -> (r: Result<Self, SolverError>)
        ensures
            match r {
                Ok(ctx) => {
                    &&& spec_initialize_ctx_check(accounts@) is None
                    &&& accounts@.len() == 8
                    &&& ctx.payer == &accounts[0]
                    &&& ctx.owner == &accounts[1]
                    &&& ctx.order_account == &accounts[2]
                    &&& ctx.from_token_account == &accounts[3]
                    &&& ctx.to_token_account == &accounts[4]
                    &&& ctx.sysvar_rent_acc == &accounts[5]
                    &&& ctx.token_program == &accounts[6]
                    &&& ctx.system_program == &accounts[7]
                },
                Err(e) => spec_initialize_ctx_check(accounts@) == Some(e),
            },
    {
        if accounts.len() != 8 {
            return Err(SolverError::NotEnoughAccountKeys);
        }
        let payer = &accounts[0];
        let owner = &accounts[1];
        let order_account = &accounts[2];
        if !payer.is_signer {
            return Err(SolverError::MissingSignature);
        }
        if !owner.is_signer {
            return Err(SolverError::MissingSignature);
        }
        if order_account.data.len() != 0 {
            return Err(SolverError::AlreadyInitialized);
        }
        if !order_account.is_writable {
            return Err(SolverError::OrderAccountMustBeMut);
        }
        let sys_id = system_program_id();
        if !pubkey_eq(&accounts[7].key, &sys_id) {
            return Err(SolverError::IncorrectProgramId);
        }
        Ok(InitializeOrderContext {
            payer,
            owner,
            order_account,
            from_token_account: &accounts[3],
            to_token_account: &accounts[4],
            sysvar_rent_acc: &accounts[5],
            token_program: &accounts[6],
            system_program: &accounts[7],
        })
    }
}

/// The accounts an execute expects, in order: the settling solver, the
/// order storage, the owner, the escrow token account, the destination
/// token account, the referral token account, the venue program, the token
/// program, then whatever accounts the solver's venue route needs.
pub struct ExecuteOrderContext<'a> {
    pub solver: &'a AccountModel,
    pub order_account: &'a AccountModel,
    pub owner: &'a AccountModel,
    pub from_token_account: &'a AccountModel,
    pub to_token_account: &'a AccountModel,
    pub referral_token_account: &'a AccountModel,
    pub order_program: &'a AccountModel,
    pub token_program: &'a AccountModel,
    pub remaining_accounts: &'a [AccountModel],
}

/// The guard an execute's account set must pass.
pub open spec fn spec_execute_ctx_check(accounts: Seq<AccountModel>) -> Option<SolverError> {
    if accounts.len() < 8 {
        Some(SolverError::NotEnoughAccountKeys)
    } else if !accounts[0].is_signer {
        Some(SolverError::MissingSignature)
    } else {
        None
    }
}

impl<'a> ExecuteOrderContext<'a> {
    /// Validates the account set of an execute: settlement is permissionless,
    /// so the only demand is that some solver signed the attempt.
    pub fn try_from(accounts: &'a [AccountModel]) -> (r: Result<Self, SolverError>)
        ensures
            match r {
                Ok(ctx) => {
                    &&& spec_execute_ctx_check(accounts@) is None
                    &&& accounts@.len() >= 8
                    &&& ctx.solver == &accounts[0]
                    &&& ctx.order_account == &accounts[1]
                    &&& ctx.owner == &accounts[2]
                    &&& ctx.from_token_account == &accounts[3]
                    &&& ctx.to_token_account == &accounts[4]
                    &&& ctx.referral_token_account == &accounts[5]
                    &&& ctx.order_program == &accounts[6]
                    &&& ctx.token_program == &accounts[7]
                    &&& ctx.remaining_accounts@ == accounts@.subrange(8, accounts@.len() as int)
                },
                Err(e) => spec_execute_ctx_check(accounts@) == Some(e),
            },
    {
        if accounts.len() < 8 {
            return Err(SolverError::NotEnoughAccountKeys);
        }
        if !accounts[0].is_signer {
            return Err(SolverError::MissingSignature);
        }
        let remaining_accounts = slice_subrange(accounts, 8, accounts.len());
        Ok(ExecuteOrderContext {
            solver: &accounts[0],
            order_account: &accounts[1],
            owner: &accounts[2],
            from_token_account: &accounts[3],
            to_token_account: &accounts[4],
            referral_token_account: &accounts[5],
            order_program: &accounts[6],
            token_program: &accounts[7],
            remaining_accounts,
        })
    }
}

/// The accounts a cancel expects, in order: the order storage, the owner,
/// the escrow token account, the owner's token account the funds return to,
/// the rent payer, the token program and the system program.
pub struct CancelOrderContext<'a> {
    pub order_account: &'a AccountModel,
    pub owner: &'a AccountModel,
    pub from_token_account: &'a AccountModel,
    pub to_token_account: &'a AccountModel,
    pub rent_payer: &'a AccountModel,
    pub token_program: &'a AccountModel,
    pub system_program: &'a AccountModel,
}

/// The guard a cancel's account set must pass.
pub open spec fn spec_cancel_ctx_check(accounts: Seq<AccountModel>) -> Option<SolverError> {
    if accounts.len() != 7 {
        Some(SolverError::NotEnoughAccountKeys)
    } else if !accounts[1].is_signer {
        Some(SolverError::MissingSignature)
    } else if !accounts[0].is_writable {
        Some(SolverError::OrderAccountMustBeMut)
    } else if accounts[6].key@ != spec_system_program_id() {
        Some(SolverError::IncorrectProgramId)
    } else {
        None
    }
}

impl<'a> CancelOrderContext<'a> {
    /// Validates the account set of a cancel: the claimed owner must have
    /// signed and the order storage must be writable. Whether that signer
    /// really owns the record is decided later, against the record itself.
    pub fn try_from(accounts: &'a [AccountModel]) -> (r: Result<Self, SolverError>)
        ensures
            match r {
                Ok(ctx) => {
                    &&& spec_cancel_ctx_check(accounts@) is None
                    &&& accounts@.len() == 7
                    &&& ctx.order_account == &accounts[0]
                    &&& ctx.owner == &accounts[1]
                    &&& ctx.from_token_account == &accounts[2]
                    &&& ctx.to_token_account == &accounts[3]
                    &&& ctx.rent_payer == &accounts[4]
                    &&& ctx.token_program == &accounts[5]
                    &&& ctx.system_program == &accounts[6]
                },
                Err(e) => spec_cancel_ctx_check(accounts@) == Some(e),
            },
    {
        if accounts.len() != 7 {
            return Err(SolverError::NotEnoughAccountKeys);
        }
        if !accounts[1].is_signer {
            return Err(SolverError::MissingSignature);
        }
        if !accounts[0].is_writable {
            return Err(SolverError::OrderAccountMustBeMut);
        }
        let sys_id = system_program_id();
        if !pubkey_eq(&accounts[6].key, &sys_id) {
            return Err(SolverError::IncorrectProgramId);
        }
        Ok(CancelOrderContext {
            order_account: &accounts[0],
            owner: &accounts[1],
            from_token_account: &accounts[2],
            to_token_account: &accounts[3],
            rent_payer: &accounts[4],
            token_program: &accounts[5],
            system_program: &accounts[6],
        })
    }
}

} // verus!
