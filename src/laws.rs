use vstd::prelude::*;

use crate::error::ErrorCode;
use crate::identity::VaultIdentity;
use crate::vault::{
    close_refusal, deposit_next, deposit_refusal, fresh_record, initialize_refusal, initialized,
    withdraw_next, withdraw_refusal, CloseVault, DepositRoundUp, InitializeVault, Withdraw,
};

verus! {

/// Once `initialize_vault` has created a record, a second initialization for
/// the same owner is refused with `AlreadyInitialized`.
pub proof fn lemma_initialize_twice_refused(
    before: InitializeVault,
    after: InitializeVault,
    id: VaultIdentity,
)
    requires
        initialized(before, after, id),
    ensures
        initialize_refusal(after) == Some(ErrorCode::AlreadyInitialized),
{
}

/// An owner's deposit of a positive amount that overflows nothing goes
/// through, and raises both `total_deposited` and the custody balance by
/// exactly that amount, leaving the rest of the record as it was.
pub proof fn lemma_deposit_credits(ctx: DepositRoundUp, amount: u64)
    requires
        ctx.user@ == ctx.vault.owner@,
        amount > 0,
        ctx.vault.total_deposited + amount <= u64::MAX,
        ctx.vault_balance + amount <= u64::MAX,
    ensures
        deposit_refusal(ctx, amount) is None,
        deposit_next(ctx, amount).vault.total_deposited == ctx.vault.total_deposited + amount,
        deposit_next(ctx, amount).vault_balance == ctx.vault_balance + amount,
        deposit_next(ctx, amount).vault.total_withdrawn == ctx.vault.total_withdrawn,
        deposit_next(ctx, amount).vault.owner == ctx.vault.owner,
        deposit_next(ctx, amount).vault.bump == ctx.vault.bump,
{
}

/// An owner's deposit or withdrawal of zero is refused with `InvalidAmount`.
pub proof fn lemma_zero_amount_refused(d: DepositRoundUp, w: Withdraw)
    requires
        d.user@ == d.vault.owner@,
        w.user@ == w.vault.owner@,
    ensures
        deposit_refusal(d, 0) == Some(ErrorCode::InvalidAmount),
        withdraw_refusal(w, 0) == Some(ErrorCode::InvalidAmount),
{
}

/// An owner's withdrawal of more than the custody balance is refused with
/// `InsufficientFunds`.
pub proof fn lemma_overdraw_refused(ctx: Withdraw, amount: u64)
    requires
        ctx.user@ == ctx.vault.owner@,
        amount > ctx.vault_balance,
    ensures
        withdraw_refusal(ctx, amount) == Some(ErrorCode::InsufficientFunds),
{
}

/// A caller other than the record's owner is refused with `Unauthorized`
/// by `withdraw` and `close_vault`, whatever the amount and the balance.
pub proof fn lemma_stranger_refused(w: Withdraw, amount: u64, c: CloseVault)
    requires
        w.user@ != w.vault.owner@,
        c.user@ != c.vault.owner@,
    ensures
        withdraw_refusal(w, amount) == Some(ErrorCode::Unauthorized),
        close_refusal(c) == Some(ErrorCode::Unauthorized),
{
}

/// The owner's `close_vault` is refused with `VaultNotEmpty` exactly when the
/// custody balance is not zero.
pub proof fn lemma_close_needs_empty_vault(c: CloseVault)
    requires
        c.user@ == c.vault.owner@,
    ensures
        c.vault_balance != 0 ==> close_refusal(c) == Some(ErrorCode::VaultNotEmpty),
        c.vault_balance == 0 ==> close_refusal(c) is None,
{
}

/// A closed record is not brought back: once the owner has closed the vault,
/// a new initialization for the same owner, where no live record remains,
/// is not refused as already initialized, and any record it creates starts
/// with both counters at zero, whatever the closed record held.
pub proof fn lemma_no_resurrection(
    c: CloseVault,
    program_id: crate::key::Key,
    after: InitializeVault,
    id: VaultIdentity,
)
    requires
        close_refusal(c) is None,
    ensures
        initialize_refusal(InitializeVault { user: c.user, program_id, vault: None })
            != Some(ErrorCode::AlreadyInitialized),
        initialized(InitializeVault { user: c.user, program_id, vault: None }, after, id)
            ==> {
            &&& after.vault == Some(fresh_record(c.user, id.bump))
            &&& after.vault->0.owner@ == c.vault.owner@
        },
{
}

/// Depositing `x` and then withdrawing `x` brings the custody balance back to
/// where it was and raises each counter by `x`.
pub proof fn lemma_deposit_then_withdraw(d: DepositRoundUp, x: u64)
    requires
        deposit_refusal(d, x) is None,
        d.vault.total_withdrawn + x <= u64::MAX,
    ensures
        ({
            let n = deposit_next(d, x);
            let w = Withdraw { user: n.user, vault: n.vault, vault_balance: n.vault_balance };
            &&& withdraw_refusal(w, x) is None
            &&& withdraw_next(w, x).vault_balance == d.vault_balance
            &&& withdraw_next(w, x).vault.total_deposited == d.vault.total_deposited + x
            &&& withdraw_next(w, x).vault.total_withdrawn == d.vault.total_withdrawn + x
        }),
{
}

/// An owner's positive deposit that would carry `total_deposited` past the
/// 64-bit range is refused with `Overflow`.
pub proof fn lemma_deposit_overflow_refused(ctx: DepositRoundUp, amount: u64)
    requires
        ctx.user@ == ctx.vault.owner@,
        amount > 0,
        ctx.vault.total_deposited + amount > u64::MAX,
    ensures
        deposit_refusal(ctx, amount) == Some(ErrorCode::Overflow),
{
}

} // verus!
