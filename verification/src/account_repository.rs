//! The store of client accounts, keyed by client id.
use vstd::prelude::*;
use std::collections::HashMap;
use crate::account::Account;
use vstd::std_specs::iter::IteratorSpec;

verus! {

broadcast use vstd::std_specs::hash::group_hash_axioms;

pub struct InMemoryAccountRepository {
    pub accounts: HashMap<u16, Account>,
}

/// The store after the account of `client_id` has been looked up: a fresh
/// account is added for a client that has none.
pub open spec fn with_account(accounts: Map<u16, Account>, client_id: u16) -> Map<u16, Account> {
    if accounts.contains_key(client_id) {
        accounts
    } else {
        accounts.insert(client_id, Account::initial(client_id))
    }
}

/// Whether `listed` holds each account of the store exactly once, in some order.
pub open spec fn lists_each_account_once(accounts: Map<u16, Account>, listed: Seq<Account>) -> bool {
    exists|keys: Seq<u16>|
        #![trigger keys.to_set()]
        {
            &&& keys.no_duplicates()
            &&& keys.to_set() == accounts.dom()
            &&& listed.len() == keys.len()
            &&& forall|i: int| 0 <= i < keys.len() ==> #[trigger] listed[i] == accounts[keys[i]]
        }
}

/// Reading back the account of a client just stored gives that account, and the
/// read stores nothing more.
pub proof fn lemma_get_after_set(accounts: Map<u16, Account>, account: Account)
    ensures
        with_account(accounts.insert(account.client_id, account), account.client_id)
            == accounts.insert(account.client_id, account),
        with_account(accounts.insert(account.client_id, account), account.client_id)[account.client_id]
            == account,
{
}

/// Looking up the same client twice stores nothing the second time and gives the
/// same account; the account of a new client is a fresh one.
pub proof fn lemma_lookup_is_idempotent(accounts: Map<u16, Account>, client_id: u16)
    ensures
        with_account(with_account(accounts, client_id), client_id) == with_account(accounts, client_id),
        !accounts.contains_key(client_id) ==> with_account(accounts, client_id)[client_id]
            == Account::initial(client_id),
        forall|other: u16| other != client_id ==> (#[trigger] with_account(accounts, client_id).contains_key(other)
            == accounts.contains_key(other)),
{
}

/// A listing of each account once holds as many accounts as the store, holds
/// every stored account, and holds nothing else.
pub proof fn lemma_listing_is_complete(accounts: Map<u16, Account>, listed: Seq<Account>)
    requires
        lists_each_account_once(accounts, listed),
    ensures
        listed.len() == accounts.dom().len(),
        forall|client_id: u16| #[trigger]
            accounts.contains_key(client_id) ==> listed.contains(accounts[client_id]),
        forall|i: int| 0 <= i < listed.len() ==> accounts.contains_value(#[trigger] listed[i]),
{
    let keys = choose|keys: Seq<u16>|
        #![trigger keys.to_set()]
        {
            &&& keys.no_duplicates()
            &&& keys.to_set() == accounts.dom()
            &&& listed.len() == keys.len()
            &&& forall|i: int| 0 <= i < keys.len() ==> #[trigger] listed[i] == accounts[keys[i]]
        };
    keys.unique_seq_to_set();
    assert forall|client_id: u16| #[trigger] accounts.contains_key(client_id) implies listed.contains(
        accounts[client_id],
    ) by {
        assert(keys.to_set().contains(client_id));
        let i = keys.index_of(client_id);
        assert(listed[i] == accounts[client_id]);
    }
    assert forall|i: int| 0 <= i < listed.len() implies accounts.contains_value(#[trigger] listed[i]) by {
        assert(keys.to_set().contains(keys[i]));
        assert(listed[i] == accounts[keys[i]]);
    }
}

impl InMemoryAccountRepository {
    pub fn new() -> (r: InMemoryAccountRepository)
        ensures
            r.accounts@ == Map::<u16, Account>::empty(),
    {
        InMemoryAccountRepository { accounts: HashMap::new() }
    }

    /// The account of `client_id`; a fresh one is stored first where the client
    /// has none.
    pub fn get_account_by_client(&mut self, client_id: u16) -> (r: Account)
        ensures
            final(self).accounts@ == with_account(old(self).accounts@, client_id),
            r == final(self).accounts@[client_id],
    {
        let account = self.accounts.entry(client_id).or_insert(Account::new(client_id));
        *account
    }

    /// Stores `account` under its client id, in place of any account there.
    pub fn set_account(&mut self, account: Account)
        ensures
            final(self).accounts@ == old(self).accounts@.insert(account.client_id, account),
    {
        self.accounts.insert(account.client_id, account);
    }

    /// Every stored account, once each, in the order in which the store holds them.
    pub fn get_accounts(&self) -> (r: Vec<Account>)
        ensures
            lists_each_account_once(self.accounts@, r@),
    {
        let mut listed: Vec<Account> = Vec::new();
        let ghost all: Seq<u16> = self.accounts.keys().remaining().unref();
        let ghost mut keys: Seq<u16> = Seq::empty();
        for client_id in it: self.accounts.keys()
            invariant
                it.seq().unref() == all,
                listed@.len() == it.index(),
                keys == all.take(it.index()),
                forall|i: int| 0 <= i < it.index() ==> #[trigger] listed@[i] == self.accounts@[keys[i]],
        {
            proof {
                keys = keys.push(*client_id);
            }
            listed.push(*self.accounts.get(client_id).unwrap());
        }
        proof {
            assert(keys =~= all);
            assert(keys.to_set() =~= self.accounts@.dom());
        }
        listed
    }
}

} // verus!
