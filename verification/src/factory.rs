//! The factory: creates ledgers, remembers for each creator the ledger it
//! created last, and lets its own owner ask for withdrawals.

use vstd::prelude::*;
use crate::account::AccountId;
use crate::custom_token::CustomToken;
use crate::error::TokenError;
use crate::guard::{is_owner, require_owner};
use crate::ledger_model::LedgerModel;
use crate::storage::{entry_limit, index_entries, TokenIndex};

verus! {

/// The record that announces a newly created ledger.
#[derive(Debug)]
pub struct TokenCreated {
    pub token_address: AccountId,
    pub name: String,
    pub symbol: String,
    pub max_supply: u128,
    pub burnable: bool,
}

impl TokenCreated {
    /// Whether the record announces a ledger with this address, description,
    /// supply and flag.
    pub open spec fn announces(
        &self,
        token_address: Seq<u8>,
        name: Seq<char>,
        symbol: Seq<char>,
        max_supply: u128,
        burnable: bool,
    ) -> bool {
        &&& self.token_address@ == token_address
        &&& self.name@ == name
        &&& self.symbol@ == symbol
        &&& self.max_supply == max_supply
        &&& self.burnable == burnable
    }
}

/// What `create_token` hands back: the address of the new ledger, the ledger
/// itself, and the record to announce it with.
pub struct Creation {
    pub token_address: AccountId,
    pub token: CustomToken,
    pub event: TokenCreated,
}

/// A withdrawal that the factory's owner asked for and that the factory's
/// surroundings are to carry out.
#[derive(Clone, Copy, Debug)]
pub enum Withdrawal {
    /// Ask the ledger at `token` to move `amount` to `recipient`.
    Token { token: AccountId, recipient: AccountId, amount: u128 },
    /// Move `amount` of the native value that the factory holds to `recipient`.
    Value { recipient: AccountId, amount: u128 },
}

impl Withdrawal {
    /// Whether this asks the ledger at `token` to move `amount` to
    /// `recipient`.
    pub open spec fn asks_ledger(self, token: Seq<u8>, recipient: Seq<u8>, amount: u128) -> bool {
        self matches Withdrawal::Token { token: from, recipient: to, amount: requested }
            && from@ == token && to@ == recipient && requested == amount
    }

    /// Whether this asks for `amount` of native value to be moved to
    /// `recipient`.
    pub open spec fn asks_value(self, recipient: Seq<u8>, amount: u128) -> bool {
        self matches Withdrawal::Value { recipient: to, amount: requested } && to@ == recipient
            && requested == amount
    }

    /// What the operation that asked for this withdrawal ends with, given
    /// whether carrying it out succeeded: a failure is passed on, as a failed
    /// call for a withdrawal from a ledger and as a failed transfer for one of
    /// native value.
    pub open spec fn outcome(self, succeeded: bool) -> Result<(), TokenError> {
        if succeeded {
            Ok(())
        } else {
            match self {
                Withdrawal::Token { .. } => Err(TokenError::ExternalCallFailed),
                Withdrawal::Value { .. } => Err(TokenError::TransferFailed),
            }
        }
    }

    /// Ends the operation that asked for this withdrawal, once it is known
    /// whether carrying it out succeeded.
    pub fn conclude(&self, succeeded: bool) -> (r: Result<(), TokenError>)
        ensures
            r == self.outcome(succeeded),
    {
        if succeeded {
            Ok(())
        } else {
            match self {
                Withdrawal::Token { .. } => Err(TokenError::ExternalCallFailed),
                Withdrawal::Value { .. } => Err(TokenError::TransferFailed),
            }
        }
    }
}

/// The state of a factory: its owner, and for each creator the address of
/// the ledger it created last.
pub struct FactoryModel {
    pub owner: Seq<u8>,
    pub created_tokens: Map<Seq<u8>, Seq<u8>>,
}

impl FactoryModel {
    /// The factory as it is deployed by `owner`: nothing created yet.
    pub open spec fn deployed(owner: Seq<u8>) -> FactoryModel {
        FactoryModel { owner, created_tokens: Map::empty() }
    }

    /// The state after `creator` created the ledger at `token_address`: the
    /// address takes the place of any that was recorded for `creator`.
    pub open spec fn recorded(self, creator: Seq<u8>, token_address: Seq<u8>) -> FactoryModel {
        FactoryModel { created_tokens: self.created_tokens.insert(creator, token_address), ..self }
    }

    /// Whether the index can take an entry for `creator` without holding
    /// more entries than `limit`.
    pub open spec fn room_for_creator(self, creator: Seq<u8>, limit: nat) -> bool {
        self.created_tokens.dom().insert(creator).len() <= limit
    }

    /// Why a withdrawal is refused, if it is.
    pub open spec fn withdraw_error(self, caller: Seq<u8>) -> Option<TokenError> {
        if is_owner(caller, self.owner) {
            None
        } else {
            Some(TokenError::Unauthorized)
        }
    }
}

/// Creates ledgers and keeps the index of who created which.
pub struct TokenFactory {
    owner: AccountId,
    created_tokens: TokenIndex,
}

impl View for TokenFactory {
    type V = FactoryModel;

    closed spec fn view(&self) -> FactoryModel {
        FactoryModel { owner: self.owner@, created_tokens: index_entries(self.created_tokens) }
    }
}

impl TokenFactory {
    /// Whether the factory holds finitely many entries. `new` establishes it
    /// and `create_token` keeps it.
    pub open spec fn wf(&self) -> bool {
        self@.created_tokens.dom().finite()
    }

    /// A factory owned by `caller`, the identity that deploys it.
    pub fn new(caller: AccountId) -> (factory: TokenFactory)
        ensures
            factory.wf(),
            factory@ == FactoryModel::deployed(caller@),
    {
        TokenFactory { owner: caller, created_tokens: TokenIndex::new() }
    }

    /// Creates a ledger owned by `caller`, with the whole of `max_supply`
    /// credited to `caller`, and records `token_address`, the address that
    /// the surroundings gave the ledger, as the one that `caller` created
    /// last. Any caller may create any number of ledgers.
    pub fn create_token(
        &mut self,
        caller: AccountId,
        token_address: AccountId,
        name: String,
        symbol: String,
        decimals: u8,
        max_supply: u128,
        burnable: bool,
    ) -> (created: Creation)
        requires
            old(self).wf(),
            old(self)@.room_for_creator(caller@, entry_limit()),
        ensures
            final(self).wf(),
            final(self)@ == old(self)@.recorded(caller@, token_address@),
            created.token_address == token_address,
            created.token.wf(),
            created.token@ == LedgerModel::created(
                name@,
                symbol@,
                decimals,
                max_supply as nat,
                burnable,
                caller@,
            ),
            created.event.announces(token_address@, name@, symbol@, max_supply, burnable),
    {
        let token = CustomToken::new(
            name.clone(),
            symbol.clone(),
            decimals,
            max_supply,
            burnable,
            caller,
        );
        self.created_tokens.insert(&caller, &token_address);
        let event = TokenCreated { token_address, name, symbol, max_supply, burnable };
        Creation { token_address, token, event }
    }

    /// The identity that may ask for withdrawals, fixed at deployment.
    pub fn owner(&self) -> (owner: AccountId)
        ensures
            owner@ == self@.owner,
    {
        self.owner
    }

    /// The address of the ledger that `creator` created last, if it created
    /// any.
    pub fn created_token(&self, creator: AccountId) -> (found: Option<AccountId>)
        ensures
            found.is_some() == self@.created_tokens.contains_key(creator@),
            found.is_some() ==> found.unwrap()@ == self@.created_tokens[creator@],
    {
        self.created_tokens.get(&creator)
    }

    /// Whether the index can take an entry for `creator` without holding
    /// more than it can count.
    pub fn has_room_for_creator(&self, creator: AccountId) -> (r: bool)
        requires
            self.wf(),
        ensures
            r == self@.room_for_creator(creator@, entry_limit()),
    {
        let held = self.created_tokens.len();
        self.created_tokens.get(&creator).is_some() || held < u32::MAX
    }

    /// Asks for `amount` to be moved, on the ledger at `token_address`, to
    /// the factory's owner. Reserved for the owner. The ledger is another
    /// state of its own: the call into it is left to the surroundings, and
    /// `Withdrawal::conclude` says how the operation ends.
    pub fn withdraw_erc20(
        &self,
        caller: AccountId,
        token_address: AccountId,
        amount: u128,
    ) -> (r: Result<Withdrawal, TokenError>)
        ensures
            (match self@.withdraw_error(caller@) {
                Some(reason) => r matches Err(refused) && refused == reason,
                None => r matches Ok(asked) && asked.asks_ledger(
                    token_address@,
                    self@.owner,
                    amount,
                ),
            }),
    {
        match require_owner(&caller, &self.owner) {
            Ok(()) => {},
            Err(reason) => {
                return Err(reason);
            },
        }
        Ok(Withdrawal::Token { token: token_address, recipient: self.owner, amount })
    }

    /// Asks for `amount` of the native value that the factory holds to be
    /// moved to the factory's owner. Reserved for the owner. The transfer is
    /// left to the surroundings, and `Withdrawal::conclude` says how the
    /// operation ends.
    pub fn withdraw_ether(
        &self,
        caller: AccountId,
        amount: u128,
    ) -> (r: Result<Withdrawal, TokenError>)
        ensures
            (match self@.withdraw_error(caller@) {
                Some(reason) => r matches Err(refused) && refused == reason,
                None => r matches Ok(asked) && asked.asks_value(self@.owner, amount),
            }),
    {
        match require_owner(&caller, &self.owner) {
            Ok(()) => {},
            Err(reason) => {
                return Err(reason);
            },
        }
        Ok(Withdrawal::Value { recipient: self.owner, amount })
    }
}

} // verus!
