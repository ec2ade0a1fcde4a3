//! The tables in which a ledger and a factory keep their entries.
//!
//! Each table is a storage hash map of `ink_storage`. A table is only ever
//! made empty, by `new`, and filled by `insert`: such a map lives in memory
//! and never reads contract storage. Verus does not look inside one: what a
//! table holds has a name, and the contract of each operation says, over
//! that name, what the call into `ink_storage` does. These contracts are
//! believed, not proved.

use vstd::prelude::*;
use crate::account::AccountId;

verus! {

/// The number of entries that a table can count.
pub open spec fn entry_limit() -> nat {
    u32::MAX as nat
}

/// The amounts of a table's entries as natural numbers.
pub open spec fn amounts<K>(entries: Map<K, u128>) -> Map<K, nat> {
    Map::new(|k: K| entries.contains_key(k), |k: K| entries[k] as nat)
}

/// Reading a table as natural numbers keeps its keys, and commutes with
/// writing an entry.
pub proof fn lemma_amounts_insert<K>(entries: Map<K, u128>, k: K, v: u128)
    ensures
        amounts(entries).dom() == entries.dom(),
        amounts(entries.insert(k, v)) == amounts(entries).insert(k, v as nat),
        amounts(Map::<K, u128>::empty()) == Map::<K, nat>::empty(),
{
    assert(amounts(entries).dom() =~= entries.dom());
    assert(amounts(entries.insert(k, v)) =~= amounts(entries).insert(k, v as nat));
    assert(amounts(Map::<K, u128>::empty()) =~= Map::<K, nat>::empty());
}

/// Balances by account: an `ink_storage::collections::HashMap` from
/// `ink_env::AccountId` to `u128`.
#[verifier::external_body]
pub struct BalanceTable {
    entries: ink_storage::collections::HashMap<ink_env::AccountId, u128>,
}

/// The entries of a balance table: each recorded account, by its bytes, with
/// the amount recorded for it.
pub uninterp spec fn balance_entries(table: BalanceTable) -> Map<Seq<u8>, u128>;

impl BalanceTable {
    /// Calls `HashMap::new`, which makes a map without entries.
    #[verifier::external_body]
    pub(crate) fn new() -> (table: BalanceTable)
        ensures
            (balance_entries(table) == Map::<Seq<u8>, u128>::empty()),
    {
        BalanceTable { entries: ink_storage::collections::HashMap::new() }
    }

    /// Calls `HashMap::len`, which returns the number of entries.
    #[verifier::external_body]
    pub(crate) fn len(&self) -> (n: u32)
        ensures
            n == balance_entries(*self).dom().len(),
    {
        self.entries.len()
    }

    /// Calls `HashMap::get`, which returns the value recorded under the key,
    /// if there is one.
    #[verifier::external_body]
    pub(crate) fn get(&self, account: &AccountId) -> (found: Option<u128>)
        ensures
            found == (if balance_entries(*self).contains_key(account@) {
                Some(balance_entries(*self)[account@])
            } else {
                None
            }),
    {
        self.entries.get(&ink_env::AccountId::from(account.bytes)).copied()
    }

    /// Calls `HashMap::insert`, which records the value under the key and
    /// replaces what was recorded there before. The map counts its entries
    /// in 32 bits, so a key that is new to it needs the count to be below
    /// the largest such number.
    #[verifier::external_body]
    pub(crate) fn insert(&mut self, account: &AccountId, amount: u128)
        requires
            balance_entries(*old(self)).contains_key(account@)
                || balance_entries(*old(self)).dom().len() < u32::MAX,
        ensures
            balance_entries(*final(self)) == balance_entries(*old(self)).insert(account@, amount),
    {
        self.entries.insert(ink_env::AccountId::from(account.bytes), amount);
    }
}

/// Allowances by owner and spender: an `ink_storage::collections::HashMap`
/// from a pair of `ink_env::AccountId` to `u128`.
#[verifier::external_body]
pub struct AllowanceTable {
    entries: ink_storage::collections::HashMap<(ink_env::AccountId, ink_env::AccountId), u128>,
}

/// The entries of an allowance table: each recorded pair of owner and
/// spender, by their bytes, with the amount recorded for it.
pub uninterp spec fn allowance_entries(table: AllowanceTable) -> Map<(Seq<u8>, Seq<u8>), u128>;

impl AllowanceTable {
    /// Calls `HashMap::new`, which makes a map without entries.
    #[verifier::external_body]
    pub(crate) fn new() -> (table: AllowanceTable)
        ensures
            (allowance_entries(table) == Map::<(Seq<u8>, Seq<u8>), u128>::empty()),
    {
        AllowanceTable { entries: ink_storage::collections::HashMap::new() }
    }

    /// Calls `HashMap::len`, which returns the number of entries.
    #[verifier::external_body]
    pub(crate) fn len(&self) -> (n: u32)
        ensures
            n == allowance_entries(*self).dom().len(),
    {
        self.entries.len()
    }

    /// Calls `HashMap::get`, which returns the value recorded under the key,
    /// if there is one.
    #[verifier::external_body]
    pub(crate) fn get(&self, owner: &AccountId, spender: &AccountId) -> (found: Option<u128>)
        ensures
            found == (if allowance_entries(*self).contains_key((owner@, spender@)) {
                Some(allowance_entries(*self)[(owner@, spender@)])
            } else {
                None
            }),
    {
        let key = (ink_env::AccountId::from(owner.bytes), ink_env::AccountId::from(spender.bytes));
        self.entries.get(&key).copied()
    }

    /// Calls `HashMap::insert`, which records the value under the key and
    /// replaces what was recorded there before. The map counts its entries
    /// in 32 bits, so a key that is new to it needs the count to be below
    /// the largest such number.
    #[verifier::external_body]
    pub(crate) fn insert(&mut self, owner: &AccountId, spender: &AccountId, amount: u128)
        requires
            allowance_entries(*old(self)).contains_key((owner@, spender@))
                || allowance_entries(*old(self)).dom().len() < u32::MAX,
        ensures
            allowance_entries(*final(self)) == allowance_entries(*old(self)).insert(
                (owner@, spender@),
                amount,
            ),
    {
        let key = (ink_env::AccountId::from(owner.bytes), ink_env::AccountId::from(spender.bytes));
        self.entries.insert(key, amount);
    }
}

/// Ledger addresses by creator: an `ink_storage::collections::HashMap` from
/// `ink_env::AccountId` to `ink_env::AccountId`.
#[verifier::external_body]
pub struct TokenIndex {
    entries: ink_storage::collections::HashMap<ink_env::AccountId, ink_env::AccountId>,
}

/// The entries of a token index: each recorded creator with the address
/// recorded for it, both by their bytes.
pub uninterp spec fn index_entries(index: TokenIndex) -> Map<Seq<u8>, Seq<u8>>;

impl TokenIndex {
    /// Calls `HashMap::new`, which makes a map without entries.
    #[verifier::external_body]
    pub(crate) fn new() -> (index: TokenIndex)
        ensures
            (index_entries(index) == Map::<Seq<u8>, Seq<u8>>::empty()),
    {
        TokenIndex { entries: ink_storage::collections::HashMap::new() }
    }

    /// Calls `HashMap::len`, which returns the number of entries.
    #[verifier::external_body]
    pub(crate) fn len(&self) -> (n: u32)
        ensures
            n == index_entries(*self).dom().len(),
    {
        self.entries.len()
    }

    /// Calls `HashMap::get`, which returns the value recorded under the key,
    /// if there is one.
    #[verifier::external_body]
    pub(crate) fn get(&self, creator: &AccountId) -> (found: Option<AccountId>)
        ensures
            found.is_some() == index_entries(*self).contains_key(creator@),
            found.is_some() ==> found.unwrap()@ == index_entries(*self)[creator@],
    {
        let key = ink_env::AccountId::from(creator.bytes);
        self.entries.get(&key).map(|token| AccountId::new(*AsRef::<[u8; 32]>::as_ref(token)))
    }

    /// Calls `HashMap::insert`, which records the value under the key and
    /// replaces what was recorded there before. The map counts its entries
    /// in 32 bits, so a key that is new to it needs the count to be below
    /// the largest such number.
    #[verifier::external_body]
    pub(crate) fn insert(&mut self, creator: &AccountId, token: &AccountId)
        requires
            index_entries(*old(self)).contains_key(creator@)
                || index_entries(*old(self)).dom().len() < u32::MAX,
        ensures
            index_entries(*final(self)) == index_entries(*old(self)).insert(creator@, token@),
    {
        let key = ink_env::AccountId::from(creator.bytes);
        self.entries.insert(key, ink_env::AccountId::from(token.bytes));
    }
}

} // verus!
