//! The token ledger: balances, allowances, capped minting and owner-gated
//! burning.

use vstd::prelude::*;
use crate::account::AccountId;
use crate::error::TokenError;
use crate::guard::require_owner;
use crate::ledger_model::LedgerModel;
use crate::storage::{
    allowance_entries, amounts, balance_entries, entry_limit, lemma_amounts_insert,
    AllowanceTable, BalanceTable,
};
use crate::tally::{lemma_sum_bounds_entry, lemma_sum_empty, lemma_sum_insert, sum_of};

verus! {

/// One fungible token: its description, its supply, and who holds and may
/// spend how much. The caller of each operation is passed in explicitly.
pub struct CustomToken {
    name: String,
    symbol: String,
    decimals: u8,
    max_supply: u128,
    total_supply: u128,
    burnable: bool,
    owner: AccountId,
    balances: BalanceTable,
    allowances: AllowanceTable,
}

impl View for CustomToken {
    type V = LedgerModel;

    closed spec fn view(&self) -> LedgerModel {
        LedgerModel {
            name: self.name@,
            symbol: self.symbol@,
            decimals: self.decimals,
            max_supply: self.max_supply as nat,
            total_supply: self.total_supply as nat,
            burnable: self.burnable,
            owner: self.owner@,
            balances: amounts(balance_entries(self.balances)),
            allowances: amounts(allowance_entries(self.allowances)),
        }
    }
}

/// What an operation that answers with a flag returns: `true` where nothing
/// stood against it, else the reason.
pub open spec fn flagged(error: Option<TokenError>) -> Result<bool, TokenError> {
    match error {
        None => Ok(true),
        Some(reason) => Err(reason),
    }
}

/// What an operation without an answer returns: nothing where nothing stood
/// against it, else the reason.
pub open spec fn settled(error: Option<TokenError>) -> Result<(), TokenError> {
    match error {
        None => Ok(()),
        Some(reason) => Err(reason),
    }
}

impl CustomToken {
    /// Whether the ledger is in a state that its operations can start from.
    /// `new` establishes it and every operation keeps it.
    pub open spec fn wf(&self) -> bool {
        self@.consistent()
    }

    /// A new ledger, owned by `owner`, with the whole of `max_supply` in
    /// existence and credited to `owner`.
    pub fn new(
        name: String,
        symbol: String,
        decimals: u8,
        max_supply: u128,
        burnable: bool,
        owner: AccountId,
    ) -> (token: CustomToken)
        ensures
            token.wf(),
            token@ == LedgerModel::created(
                name@,
                symbol@,
                decimals,
                max_supply as nat,
                burnable,
                owner@,
            ),
    {
        let mut balances = BalanceTable::new();
        balances.insert(&owner, max_supply);
        let token = CustomToken {
            name,
            symbol,
            decimals,
            max_supply,
            total_supply: max_supply,
            burnable,
            owner,
            balances,
            allowances: AllowanceTable::new(),
        };
        proof {
            let none = Map::<Seq<u8>, u128>::empty();
            lemma_amounts_insert(none, owner@, max_supply);
            lemma_amounts_insert(Map::<(Seq<u8>, Seq<u8>), u128>::empty(), (owner@, owner@), 0);
            lemma_sum_empty::<Seq<u8>>();
            lemma_sum_insert(Map::<Seq<u8>, nat>::empty(), owner@, max_supply as nat);
        }
        token
    }

    /// Takes `amount` out of the balance of `account`.
    fn debit(&mut self, account: &AccountId, amount: u128)
        requires
            old(self)@.balances.dom().finite(),
            old(self)@.balance_of(account@) >= amount,
            old(self)@.balances.dom().insert(account@).len() <= entry_limit(),
        ensures
            final(self)@ == old(self)@.debited(account@, amount as nat),
            sum_of(final(self)@.balances) + amount == sum_of(old(self)@.balances),
    {
        let balance = self.balance_of(*account);
        proof {
            lemma_amounts_insert(
                balance_entries(self.balances),
                account@,
                (balance - amount) as u128,
            );
            lemma_sum_insert(self@.balances, account@, (balance - amount) as nat);
        }
        self.balances.insert(account, balance - amount);
    }

    /// Adds `amount` to the balance of `account`.
    fn credit(&mut self, account: &AccountId, amount: u128)
        requires
            old(self)@.balances.dom().finite(),
            sum_of(old(self)@.balances) + amount <= u128::MAX,
            old(self)@.balances.dom().insert(account@).len() <= entry_limit(),
        ensures
            final(self)@ == old(self)@.credited(account@, amount as nat),
            sum_of(final(self)@.balances) == sum_of(old(self)@.balances) + amount,
    {
        let balance = self.balance_of(*account);
        proof {
            lemma_sum_bounds_entry(self@.balances, account@);
            lemma_amounts_insert(
                balance_entries(self.balances),
                account@,
                (balance + amount) as u128,
            );
            lemma_sum_insert(self@.balances, account@, (balance + amount) as nat);
        }
        self.balances.insert(account, balance + amount);
    }

    /// Moves `amount` from the balance of `caller` to that of `recipient`.
    /// Rejected, with nothing changed, where `caller` holds less than
    /// `amount`. A transfer to oneself or of nothing succeeds and leaves
    /// every balance as it was.
    pub fn transfer(
        &mut self,
        caller: AccountId,
        recipient: AccountId,
        amount: u128,
    ) -> (r: Result<bool, TokenError>)
        requires
            old(self).wf(),
            old(self)@.transfer_error(caller@, amount as nat).is_none() ==> old(
                self,
            )@.room_for_balances(caller@, recipient@, entry_limit()),
        ensures
            final(self).wf(),
            final(self)@ == old(self)@.transfer(caller@, recipient@, amount as nat),
            r == flagged(old(self)@.transfer_error(caller@, amount as nat)),
    {
        let sender_balance = self.balance_of(caller);
        if sender_balance < amount {
            return Err(TokenError::InsufficientBalance);
        }
        self.debit(&caller, amount);
        self.credit(&recipient, amount);
        Ok(true)
    }

    /// Sets what `spender` may move out of the balance of `caller` to
    /// `amount`, whatever it was before and whatever `caller` holds. Always
    /// succeeds.
    pub fn approve(&mut self, caller: AccountId, spender: AccountId, amount: u128) -> (r: bool)
        requires
            old(self).wf(),
            old(self)@.room_for_allowance(caller@, spender@, entry_limit()),
        ensures
            final(self).wf(),
            final(self)@ == old(self)@.approve(caller@, spender@, amount as nat),
            r,
    {
        proof {
            lemma_amounts_insert(allowance_entries(self.allowances), (caller@, spender@), amount);
        }
        self.allowances.insert(&caller, &spender, amount);
        true
    }

    /// Moves `amount` from the balance of `sender` to that of `recipient`
    /// and takes it off what `caller` may still move for `sender`. Rejected,
    /// with nothing changed, where `sender` holds less than `amount`, and
    /// else where the allowance of `caller` is less than `amount`.
    pub fn transfer_from(
        &mut self,
        caller: AccountId,
        sender: AccountId,
        recipient: AccountId,
        amount: u128,
    ) -> (r: Result<bool, TokenError>)
        requires
            old(self).wf(),
            old(self)@.transfer_from_error(caller@, sender@, amount as nat).is_none() ==> old(
                self,
            )@.room_for_balances(sender@, recipient@, entry_limit()) && old(
                self,
            )@.room_for_allowance(sender@, caller@, entry_limit()),
        ensures
            final(self).wf(),
            final(self)@ == old(self)@.transfer_from(
                caller@,
                sender@,
                recipient@,
                amount as nat,
            ),
            r == flagged(old(self)@.transfer_from_error(caller@, sender@, amount as nat)),
    {
        let sender_balance = self.balance_of(sender);
        let allowance = self.allowance(sender, caller);
        if sender_balance < amount {
            return Err(TokenError::InsufficientBalance);
        }
        if allowance < amount {
            return Err(TokenError::AllowanceExceeded);
        }
        self.debit(&sender, amount);
        self.credit(&recipient, amount);
        proof {
            lemma_amounts_insert(
                allowance_entries(self.allowances),
                (sender@, caller@),
                (allowance - amount) as u128,
            );
        }
        self.allowances.insert(&sender, &caller, allowance - amount);
        Ok(true)
    }

    /// Creates `amount` and credits it to `to`. Reserved for the owner;
    /// rejected, with nothing changed, where the total supply would leave
    /// the range of amounts or rise above the maximum supply.
    pub fn mint(
        &mut self,
        caller: AccountId,
        to: AccountId,
        amount: u128,
    ) -> (r: Result<(), TokenError>)
        requires
            old(self).wf(),
            old(self)@.mint_error(caller@, amount as nat).is_none() ==> old(
                self,
            )@.room_for_balances(to@, to@, entry_limit()),
        ensures
            final(self).wf(),
            final(self)@ == old(self)@.mint(caller@, to@, amount as nat),
            r == settled(old(self)@.mint_error(caller@, amount as nat)),
    {
        match require_owner(&caller, &self.owner) {
            Ok(()) => {},
            Err(reason) => {
                return Err(reason);
            },
        }
        if amount > u128::MAX - self.total_supply {
            return Err(TokenError::ArithmeticOverflow);
        }
        let new_supply = self.total_supply + amount;
        if new_supply > self.max_supply {
            return Err(TokenError::SupplyCapExceeded);
        }
        self.credit(&to, amount);
        self.total_supply = new_supply;
        Ok(())
    }

    /// Destroys `amount` of what the caller holds. Reserved for the owner,
    /// so it is the owner's own balance that shrinks; rejected, with nothing
    /// changed, where the ledger does not allow burning or the owner holds
    /// less than `amount`.
    pub fn burn(&mut self, caller: AccountId, amount: u128) -> (r: Result<(), TokenError>)
        requires
            old(self).wf(),
            old(self)@.burn_error(caller@, amount as nat).is_none() ==> old(
                self,
            )@.room_for_balances(caller@, caller@, entry_limit()),
        ensures
            final(self).wf(),
            final(self)@ == old(self)@.burn(caller@, amount as nat),
            r == settled(old(self)@.burn_error(caller@, amount as nat)),
    {
        self.burn_from(caller, caller, amount)
    }

    /// Destroys `amount` of what `account` holds. Reserved for the owner,
    /// who needs no allowance from `account`; rejected, with nothing
    /// changed, where the ledger does not allow burning or `account` holds
    /// less than `amount`.
    pub fn burn_from(
        &mut self,
        caller: AccountId,
        account: AccountId,
        amount: u128,
    ) -> (r: Result<(), TokenError>)
        requires
            old(self).wf(),
            old(self)@.burn_from_error(caller@, account@, amount as nat).is_none() ==> old(
                self,
            )@.room_for_balances(account@, account@, entry_limit()),
        ensures
            final(self).wf(),
            final(self)@ == old(self)@.burn_from(caller@, account@, amount as nat),
            r == settled(old(self)@.burn_from_error(caller@, account@, amount as nat)),
    {
        match require_owner(&caller, &self.owner) {
            Ok(()) => {},
            Err(reason) => {
                return Err(reason);
            },
        }
        if !self.burnable {
            return Err(TokenError::BurningDisabled);
        }
        let account_balance = self.balance_of(account);
        if account_balance < amount {
            return Err(TokenError::InsufficientBalance);
        }
        proof {
            lemma_sum_bounds_entry(self@.balances, account@);
        }
        self.debit(&account, amount);
        self.total_supply = self.total_supply - amount;
        Ok(())
    }

    /// Whether the ledger can take balance entries for `first` and `second`
    /// (which may be the same account) without holding more than it can
    /// count.
    pub fn has_room_for_balances(&self, first: AccountId, second: AccountId) -> (r: bool)
        requires
            self.wf(),
        ensures
            r == self@.room_for_balances(first@, second@, entry_limit()),
    {
        let held = self.balances.len();
        let first_new = self.balances.get(&first).is_none();
        let second_new = !second.same(&first) && self.balances.get(&second).is_none();
        proof {
            lemma_amounts_insert(balance_entries(self.balances), first@, 0);
        }
        if first_new && second_new {
            held < u32::MAX - 1
        } else if first_new || second_new {
            held < u32::MAX
        } else {
            true
        }
    }

    /// Whether the ledger can take an allowance entry for `owner` and
    /// `spender` without holding more than it can count.
    pub fn has_room_for_allowance(&self, owner: AccountId, spender: AccountId) -> (r: bool)
        requires
            self.wf(),
        ensures
            r == self@.room_for_allowance(owner@, spender@, entry_limit()),
    {
        let held = self.allowances.len();
        proof {
            lemma_amounts_insert(allowance_entries(self.allowances), (owner@, spender@), 0);
        }
        self.allowances.get(&owner, &spender).is_some() || held < u32::MAX
    }

    /// The display name, fixed at creation.
    pub fn name(&self) -> (name: &String)
        ensures
            name@ == self@.name,
    {
        &self.name
    }

    /// The display symbol, fixed at creation.
    pub fn symbol(&self) -> (symbol: &String)
        ensures
            symbol@ == self@.symbol,
    {
        &self.symbol
    }

    /// The display precision, fixed at creation. Amounts are raw units: no
    /// operation scales by it.
    pub fn decimals(&self) -> (decimals: u8)
        ensures
            decimals == self@.decimals,
    {
        self.decimals
    }

    /// The most of the token that may exist, fixed at creation.
    pub fn max_supply(&self) -> (cap: u128)
        ensures
            cap == self@.max_supply,
    {
        self.max_supply
    }

    /// Whether the ledger allows burning, fixed at creation.
    pub fn burnable(&self) -> (burnable: bool)
        ensures
            burnable == self@.burnable,
    {
        self.burnable
    }

    /// The identity that may mint and burn, fixed at creation.
    pub fn owner(&self) -> (owner: AccountId)
        ensures
            owner@ == self@.owner,
    {
        self.owner
    }

    /// The amount of the token that exists.
    pub fn total_supply(&self) -> (supply: u128)
        ensures
            supply == self@.total_supply,
    {
        self.total_supply
    }

    /// The balance of `account`: zero for an account without an entry.
    pub fn balance_of(&self, account: AccountId) -> (balance: u128)
        ensures
            balance == self@.balance_of(account@),
    {
        match self.balances.get(&account) {
            Some(balance) => balance,
            None => 0,
        }
    }

    /// What `spender` may still move out of the balance of `owner`: zero for
    /// a pair without an entry.
    pub fn allowance(&self, owner: AccountId, spender: AccountId) -> (allowance: u128)
        ensures
            allowance == self@.allowance(owner@, spender@),
    {
        match self.allowances.get(&owner, &spender) {
            Some(allowance) => allowance,
            None => 0,
        }
    }
}

} // verus!
