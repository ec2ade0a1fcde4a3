//! The ledger as a mathematical state, and each operation as a function from
//! the state before a call to the state after it.

use vstd::prelude::*;
use crate::error::TokenError;
use crate::guard::is_owner;
use crate::tally::{amount_at, sum_of};

verus! {

/// The largest amount that the ledger's amount type can express.
pub open spec fn amount_limit() -> nat {
    u128::MAX as nat
}

/// The state of one token ledger. Accounts stand as their bytes, amounts as
/// natural numbers; an account or a pair without an entry counts as zero.
pub struct LedgerModel {
    pub name: Seq<char>,
    pub symbol: Seq<char>,
    pub decimals: u8,
    pub max_supply: nat,
    pub total_supply: nat,
    pub burnable: bool,
    pub owner: Seq<u8>,
    pub balances: Map<Seq<u8>, nat>,
    pub allowances: Map<(Seq<u8>, Seq<u8>), nat>,
}

impl LedgerModel {
    /// The ledger as it is created: the whole maximum supply exists and
    /// belongs to the owner, and nothing is approved.
    pub open spec fn created(
        name: Seq<char>,
        symbol: Seq<char>,
        decimals: u8,
        max_supply: nat,
        burnable: bool,
        owner: Seq<u8>,
    ) -> LedgerModel {
        LedgerModel {
            name,
            symbol,
            decimals,
            max_supply,
            total_supply: max_supply,
            burnable,
            owner,
            balances: Map::empty().insert(owner, max_supply),
            allowances: Map::empty(),
        }
    }

    /// What every ledger satisfies at all times: finitely many entries, the
    /// balances add up to the total supply, and the total supply stays
    /// within the maximum supply, which is an expressible amount.
    pub open spec fn consistent(self) -> bool {
        &&& self.balances.dom().finite()
        &&& self.allowances.dom().finite()
        &&& sum_of(self.balances) == self.total_supply
        &&& self.total_supply <= self.max_supply
        &&& self.max_supply <= amount_limit()
    }

    /// Whether the balances can take entries for `first` and `second` without
    /// holding more entries than `limit`.
    pub open spec fn room_for_balances(self, first: Seq<u8>, second: Seq<u8>, limit: nat) -> bool {
        self.balances.dom().insert(first).insert(second).len() <= limit
    }

    /// Whether the allowances can take an entry for `owner` and `spender`
    /// without holding more entries than `limit`.
    pub open spec fn room_for_allowance(
        self,
        owner: Seq<u8>,
        spender: Seq<u8>,
        limit: nat,
    ) -> bool {
        self.allowances.dom().insert((owner, spender)).len() <= limit
    }

    /// The balance of `account`.
    pub open spec fn balance_of(self, account: Seq<u8>) -> nat {
        amount_at(self.balances, account)
    }

    /// What `spender` may still move out of the balance of `owner`.
    pub open spec fn allowance(self, owner: Seq<u8>, spender: Seq<u8>) -> nat {
        amount_at(self.allowances, (owner, spender))
    }

    /// The state with `amount` added to the balance of `account`.
    pub open spec fn credited(self, account: Seq<u8>, amount: nat) -> LedgerModel {
        LedgerModel {
            balances: self.balances.insert(account, self.balance_of(account) + amount),
            ..self
        }
    }

    /// The state with `amount` taken from the balance of `account`, which
    /// holds at least that much.
    pub open spec fn debited(self, account: Seq<u8>, amount: nat) -> LedgerModel
        recommends
            self.balance_of(account) >= amount,
    {
        LedgerModel {
            balances: self.balances.insert(account, (self.balance_of(account) - amount) as nat),
            ..self
        }
    }

    /// The state with the allowance of `spender` over `owner` set to `amount`.
    pub open spec fn with_allowance(
        self,
        owner: Seq<u8>,
        spender: Seq<u8>,
        amount: nat,
    ) -> LedgerModel {
        LedgerModel { allowances: self.allowances.insert((owner, spender), amount), ..self }
    }

    /// Why a transfer is rejected, if it is.
    pub open spec fn transfer_error(self, caller: Seq<u8>, amount: nat) -> Option<TokenError> {
        if self.balance_of(caller) < amount {
            Some(TokenError::InsufficientBalance)
        } else {
            None
        }
    }

    /// The state after `caller` asked to move `amount` to `recipient`.
    pub open spec fn transfer(
        self,
        caller: Seq<u8>,
        recipient: Seq<u8>,
        amount: nat,
    ) -> LedgerModel {
        if self.transfer_error(caller, amount).is_some() {
            self
        } else {
            self.debited(caller, amount).credited(recipient, amount)
        }
    }

    /// The state after `caller` set the allowance of `spender` to `amount`.
    pub open spec fn approve(self, caller: Seq<u8>, spender: Seq<u8>, amount: nat) -> LedgerModel {
        self.with_allowance(caller, spender, amount)
    }

    /// Why a delegated transfer is rejected, if it is. The balance of
    /// `sender` is looked at before the allowance of `caller`.
    pub open spec fn transfer_from_error(
        self,
        caller: Seq<u8>,
        sender: Seq<u8>,
        amount: nat,
    ) -> Option<TokenError> {
        if self.balance_of(sender) < amount {
            Some(TokenError::InsufficientBalance)
        } else if self.allowance(sender, caller) < amount {
            Some(TokenError::AllowanceExceeded)
        } else {
            None
        }
    }

    /// The state after `caller` asked to move `amount` from `sender` to
    /// `recipient` on the strength of an allowance.
    pub open spec fn transfer_from(
        self,
        caller: Seq<u8>,
        sender: Seq<u8>,
        recipient: Seq<u8>,
        amount: nat,
    ) -> LedgerModel {
        if self.transfer_from_error(caller, sender, amount).is_some() {
            self
        } else {
            self.debited(sender, amount).credited(recipient, amount).with_allowance(
                sender,
                caller,
                (self.allowance(sender, caller) - amount) as nat,
            )
        }
    }

    /// Why a mint is rejected, if it is.
    pub open spec fn mint_error(self, caller: Seq<u8>, amount: nat) -> Option<TokenError> {
        if !is_owner(caller, self.owner) {
            Some(TokenError::Unauthorized)
        } else if self.total_supply + amount > amount_limit() {
            Some(TokenError::ArithmeticOverflow)
        } else if self.total_supply + amount > self.max_supply {
            Some(TokenError::SupplyCapExceeded)
        } else {
            None
        }
    }

    /// The state after `caller` asked to create `amount` for `to`.
    pub open spec fn mint(self, caller: Seq<u8>, to: Seq<u8>, amount: nat) -> LedgerModel {
        if self.mint_error(caller, amount).is_some() {
            self
        } else {
            LedgerModel { total_supply: self.total_supply + amount, ..self.credited(to, amount) }
        }
    }

    /// Why a burn out of the balance of `account` is rejected, if it is.
    /// Only the ledger's owner may burn, and no allowance is asked for.
    pub open spec fn burn_from_error(
        self,
        caller: Seq<u8>,
        account: Seq<u8>,
        amount: nat,
    ) -> Option<TokenError> {
        if !is_owner(caller, self.owner) {
            Some(TokenError::Unauthorized)
        } else if !self.burnable {
            Some(TokenError::BurningDisabled)
        } else if self.balance_of(account) < amount {
            Some(TokenError::InsufficientBalance)
        } else {
            None
        }
    }

    /// The state after `caller` asked to destroy `amount` of what `account`
    /// holds.
    pub open spec fn burn_from(
        self,
        caller: Seq<u8>,
        account: Seq<u8>,
        amount: nat,
    ) -> LedgerModel {
        if self.burn_from_error(caller, account, amount).is_some() {
            self
        } else {
            LedgerModel {
                total_supply: (self.total_supply - amount) as nat,
                ..self.debited(account, amount)
            }
        }
    }

    /// Why a burn out of the caller's own balance is rejected, if it is.
    pub open spec fn burn_error(self, caller: Seq<u8>, amount: nat) -> Option<TokenError> {
        self.burn_from_error(caller, caller, amount)
    }

    /// The state after `caller` asked to destroy `amount` of its own balance.
    pub open spec fn burn(self, caller: Seq<u8>, amount: nat) -> LedgerModel {
        self.burn_from(caller, caller, amount)
    }
}

} // verus!
