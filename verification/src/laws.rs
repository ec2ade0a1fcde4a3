//! What holds of a ledger and of a factory whatever calls are made, proved
//! over the states and the operations of the model.

use vstd::prelude::*;
use crate::error::TokenError;
use crate::factory::FactoryModel;
use crate::ledger_model::{amount_limit, LedgerModel};
use crate::tally::{lemma_sum_bounds_entry, lemma_sum_insert, sum_of};

verus! {

/// One call of a ledger operation, with the caller that made it.
pub enum LedgerCall {
    Transfer { caller: Seq<u8>, recipient: Seq<u8>, amount: nat },
    Approve { caller: Seq<u8>, spender: Seq<u8>, amount: nat },
    TransferFrom { caller: Seq<u8>, sender: Seq<u8>, recipient: Seq<u8>, amount: nat },
    Mint { caller: Seq<u8>, to: Seq<u8>, amount: nat },
    Burn { caller: Seq<u8>, amount: nat },
    BurnFrom { caller: Seq<u8>, account: Seq<u8>, amount: nat },
}

impl LedgerCall {
    /// Whether the call moves tokens between accounts, directly or on the
    /// strength of an allowance.
    pub open spec fn moves_tokens(self) -> bool {
        self is Transfer || self is TransferFrom
    }
}

/// Why `call` is rejected in state `m`, if it is.
pub open spec fn refusal(m: LedgerModel, call: LedgerCall) -> Option<TokenError> {
    match call {
        LedgerCall::Transfer { caller, recipient, amount } => m.transfer_error(caller, amount),
        LedgerCall::Approve { caller, spender, amount } => None,
        LedgerCall::TransferFrom { caller, sender, recipient, amount } => m.transfer_from_error(
            caller,
            sender,
            amount,
        ),
        LedgerCall::Mint { caller, to, amount } => m.mint_error(caller, amount),
        LedgerCall::Burn { caller, amount } => m.burn_error(caller, amount),
        LedgerCall::BurnFrom { caller, account, amount } => m.burn_from_error(
            caller,
            account,
            amount,
        ),
    }
}

/// The state that `call` leaves when it is made in state `m`.
pub open spec fn after(m: LedgerModel, call: LedgerCall) -> LedgerModel {
    match call {
        LedgerCall::Transfer { caller, recipient, amount } => m.transfer(caller, recipient, amount),
        LedgerCall::Approve { caller, spender, amount } => m.approve(caller, spender, amount),
        LedgerCall::TransferFrom { caller, sender, recipient, amount } => m.transfer_from(
            caller,
            sender,
            recipient,
            amount,
        ),
        LedgerCall::Mint { caller, to, amount } => m.mint(caller, to, amount),
        LedgerCall::Burn { caller, amount } => m.burn(caller, amount),
        LedgerCall::BurnFrom { caller, account, amount } => m.burn_from(caller, account, amount),
    }
}

/// The state that a sequence of calls leaves, made one after the other from
/// state `m`.
pub open spec fn after_all(m: LedgerModel, calls: Seq<LedgerCall>) -> LedgerModel
    decreases calls.len(),
{
    if calls.len() == 0 {
        m
    } else {
        after(after_all(m, calls.drop_last()), calls.last())
    }
}

/// Taking an amount out of a balance that covers it lowers the sum of the
/// balances by that amount.
pub proof fn lemma_debited_sum(m: LedgerModel, account: Seq<u8>, amount: nat)
    requires
        m.balances.dom().finite(),
        m.balance_of(account) >= amount,
    ensures
        m.debited(account, amount).balances.dom().finite(),
        sum_of(m.debited(account, amount).balances) + amount == sum_of(m.balances),
{
    lemma_sum_insert(m.balances, account, (m.balance_of(account) - amount) as nat);
}

/// Adding an amount to a balance raises the sum of the balances by that
/// amount.
pub proof fn lemma_credited_sum(m: LedgerModel, account: Seq<u8>, amount: nat)
    requires
        m.balances.dom().finite(),
    ensures
        m.credited(account, amount).balances.dom().finite(),
        sum_of(m.credited(account, amount).balances) == sum_of(m.balances) + amount,
{
    lemma_sum_insert(m.balances, account, m.balance_of(account) + amount);
}

/// A rejected call changes nothing.
pub proof fn lemma_rejected_call_changes_nothing(m: LedgerModel, call: LedgerCall)
    requires
        refusal(m, call).is_some(),
    ensures
        after(m, call) == m,
{
}

/// Every call, accepted or rejected, leaves a consistent ledger consistent:
/// the balances still add up to the total supply, and the total supply is
/// still within the maximum supply.
pub proof fn lemma_call_keeps_consistent(m: LedgerModel, call: LedgerCall)
    requires
        m.consistent(),
    ensures
        after(m, call).consistent(),
        after(m, call).max_supply == m.max_supply,
        after(m, call).owner == m.owner,
        after(m, call).burnable == m.burnable,
{
    if refusal(m, call).is_none() {
        match call {
            LedgerCall::Transfer { caller, recipient, amount } => {
                lemma_debited_sum(m, caller, amount);
                lemma_credited_sum(m.debited(caller, amount), recipient, amount);
            },
            LedgerCall::Approve { caller, spender, amount } => {},
            LedgerCall::TransferFrom { caller, sender, recipient, amount } => {
                lemma_debited_sum(m, sender, amount);
                lemma_credited_sum(m.debited(sender, amount), recipient, amount);
            },
            LedgerCall::Mint { caller, to, amount } => {
                lemma_credited_sum(m, to, amount);
            },
            LedgerCall::Burn { caller, amount } => {
                lemma_sum_bounds_entry(m.balances, caller);
                lemma_debited_sum(m, caller, amount);
            },
            LedgerCall::BurnFrom { caller, account, amount } => {
                lemma_sum_bounds_entry(m.balances, account);
                lemma_debited_sum(m, account, amount);
            },
        }
    }
}

/// After any sequence of calls on a consistent ledger the balances add up
/// to the total supply, the total supply is within the maximum supply, and
/// the maximum supply, the owner and the burning flag are what they were.
pub proof fn lemma_calls_keep_consistent(m: LedgerModel, calls: Seq<LedgerCall>)
    requires
        m.consistent(),
    ensures
        after_all(m, calls).consistent(),
        after_all(m, calls).total_supply <= m.max_supply,
        after_all(m, calls).max_supply == m.max_supply,
        after_all(m, calls).owner == m.owner,
        after_all(m, calls).burnable == m.burnable,
    decreases calls.len(),
{
    if calls.len() > 0 {
        lemma_calls_keep_consistent(m, calls.drop_last());
        lemma_call_keeps_consistent(after_all(m, calls.drop_last()), calls.last());
    }
}

/// A call that moves tokens between accounts, accepted or rejected, leaves
/// the total supply and the sum of the balances as they were.
pub proof fn lemma_move_conserves(m: LedgerModel, call: LedgerCall)
    requires
        m.consistent(),
        call.moves_tokens(),
    ensures
        after(m, call).total_supply == m.total_supply,
        sum_of(after(m, call).balances) == sum_of(m.balances),
        sum_of(after(m, call).balances) == after(m, call).total_supply,
{
    lemma_call_keeps_consistent(m, call);
}

/// After any sequence of transfers and delegated transfers the sum of the
/// balances is what it was, and equals the total supply, which is what it
/// was.
pub proof fn lemma_moves_conserve(m: LedgerModel, calls: Seq<LedgerCall>)
    requires
        m.consistent(),
        forall|i: int| 0 <= i < calls.len() ==> (#[trigger] calls[i]).moves_tokens(),
    ensures
        after_all(m, calls).total_supply == m.total_supply,
        sum_of(after_all(m, calls).balances) == sum_of(m.balances),
        sum_of(after_all(m, calls).balances) == after_all(m, calls).total_supply,
    decreases calls.len(),
{
    if calls.len() > 0 {
        let earlier = calls.drop_last();
        assert forall|i: int| 0 <= i < earlier.len() implies (#[trigger] earlier[i]).moves_tokens(
        ) by {
            assert(earlier[i] == calls[i]);
        }
        lemma_moves_conserve(m, earlier);
        lemma_calls_keep_consistent(m, earlier);
        assert(calls.last() == calls[calls.len() - 1]);
        lemma_move_conserves(after_all(m, earlier), calls.last());
    }
}

/// An accepted mint raises the total supply by the amount and stays within
/// the maximum supply; a mint by the owner that would pass the maximum
/// supply, with a sum that is still an expressible amount, is rejected as
/// exceeding the cap; and a rejected mint changes nothing.
pub proof fn lemma_mint_respects_cap(m: LedgerModel, caller: Seq<u8>, to: Seq<u8>, amount: nat)
    requires
        m.consistent(),
    ensures
        m.mint_error(caller, amount).is_none() ==> m.mint(caller, to, amount).total_supply
            == m.total_supply + amount,
        m.mint(caller, to, amount).total_supply <= m.max_supply,
        caller == m.owner && m.total_supply + amount > m.max_supply && m.total_supply + amount
            <= amount_limit() ==> m.mint_error(caller, amount) == Some(
            TokenError::SupplyCapExceeded,
        ),
        m.mint_error(caller, amount).is_some() ==> m.mint(caller, to, amount) == m,
{
}

/// After any sequence of calls on a consistent ledger, every balance lies
/// between zero and the total supply.
pub proof fn lemma_balances_stay_in_range(
    m: LedgerModel,
    calls: Seq<LedgerCall>,
    account: Seq<u8>,
)
    requires
        m.consistent(),
    ensures
        0 <= after_all(m, calls).balance_of(account) <= after_all(m, calls).total_supply,
{
    lemma_calls_keep_consistent(m, calls);
    lemma_sum_bounds_entry(after_all(m, calls).balances, account);
}

/// Once `owner` has approved `spender` for `approved`, a delegated transfer
/// of `moved` by `spender`, with `moved` within `approved` and within what
/// `owner` holds, is accepted and leaves exactly `approved - moved` of the
/// allowance. A further delegated transfer
/// that asks for more than that remainder is rejected and changes nothing;
/// the reason is the allowance wherever `owner` holds enough for it.
pub proof fn lemma_allowance_is_consumed(
    m: LedgerModel,
    owner: Seq<u8>,
    spender: Seq<u8>,
    recipient: Seq<u8>,
    approved: nat,
    moved: nat,
    later_recipient: Seq<u8>,
    later: nat,
)
    requires
        moved <= approved,
        moved <= m.balance_of(owner),
        later > approved - moved,
    ensures
        ({
            let approved_state = m.approve(owner, spender, approved);
            let moved_state = approved_state.transfer_from(spender, owner, recipient, moved);
            &&& approved_state.allowance(owner, spender) == approved
            &&& approved_state.transfer_from_error(spender, owner, moved).is_none()
            &&& moved_state.allowance(owner, spender) == approved - moved
            &&& moved_state.transfer_from_error(spender, owner, later).is_some()
            &&& moved_state.balance_of(owner) >= later ==> moved_state.transfer_from_error(
                spender,
                owner,
                later,
            ) == Some(TokenError::AllowanceExceeded)
            &&& moved_state.transfer_from(spender, owner, later_recipient, later) == moved_state
        }),
{
}

/// A mint or a burn asked for by anyone but the ledger's owner is rejected
/// as unauthorized and changes nothing.
pub proof fn lemma_ledger_owner_gating(
    m: LedgerModel,
    caller: Seq<u8>,
    account: Seq<u8>,
    amount: nat,
)
    requires
        caller != m.owner,
    ensures
        m.mint_error(caller, amount) == Some(TokenError::Unauthorized),
        m.burn_error(caller, amount) == Some(TokenError::Unauthorized),
        m.burn_from_error(caller, account, amount) == Some(TokenError::Unauthorized),
        m.mint(caller, account, amount) == m,
        m.burn(caller, amount) == m,
        m.burn_from(caller, account, amount) == m,
{
}

/// A withdrawal asked for by anyone but the factory's owner is refused as
/// unauthorized, and one asked for by the owner is not refused.
pub proof fn lemma_factory_owner_gating(f: FactoryModel, caller: Seq<u8>)
    ensures
        caller != f.owner ==> f.withdraw_error(caller) == Some(TokenError::Unauthorized),
        caller == f.owner ==> f.withdraw_error(caller).is_none(),
{
}

} // verus!
