//! The store of past transactions that a later dispute can refer to, keyed by
//! transaction id.
use vstd::prelude::*;
use std::collections::HashMap;
use crate::transaction::Deposit;

verus! {

broadcast use vstd::std_specs::hash::group_hash_axioms;

#[derive(Clone, Copy, Debug)]
pub enum StoredTransaction {
    Deposit(Deposit),
}

impl StoredTransaction {
    pub open spec fn id_of(self) -> u32 {
        match self {
            StoredTransaction::Deposit(deposit) => deposit.transaction_id,
        }
    }

    /// A stored deposit is stored under the deposit's own transaction id.
    pub proof fn lemma_id_is_the_deposit_id(deposit: Deposit)
        ensures
            StoredTransaction::Deposit(deposit).id_of() == deposit.transaction_id,
    {
    }

    pub fn get_transaction_id(&self) -> (r: u32)
        ensures
            r == self.id_of(),
    {
        match self {
            StoredTransaction::Deposit(deposit) => deposit.transaction_id,
        }
    }
}

/// The store after `transaction` has been written in place of the transaction
/// with its id, where there is one; otherwise the store unchanged.
pub open spec fn updated(
    transactions: Map<u32, StoredTransaction>,
    transaction: StoredTransaction,
) -> Map<u32, StoredTransaction> {
    if transactions.contains_key(transaction.id_of()) {
        transactions.insert(transaction.id_of(), transaction)
    } else {
        transactions
    }
}

/// The transaction stored under `transaction_id`, if any.
pub open spec fn stored(transactions: Map<u32, StoredTransaction>, transaction_id: u32) -> Option<
    StoredTransaction,
> {
    if transactions.contains_key(transaction_id) {
        Some(transactions[transaction_id])
    } else {
        None
    }
}

/// Every stored transaction is stored under its own id.
pub open spec fn keyed_by_id(transactions: Map<u32, StoredTransaction>) -> bool {
    forall|transaction_id: u32| #[trigger]
        transactions.contains_key(transaction_id) ==> transactions[transaction_id].id_of()
            == transaction_id
}

/// Reading back a transaction just created under its id gives that transaction.
pub proof fn lemma_get_after_create(
    transactions: Map<u32, StoredTransaction>,
    transaction: StoredTransaction,
)
    ensures
        stored(transactions.insert(transaction.id_of(), transaction), transaction.id_of()) == Some(transaction),
{
}

/// An update is read back where a transaction with its id was stored, and is
/// dropped where none was; other ids read as before.
pub proof fn lemma_get_after_update(
    transactions: Map<u32, StoredTransaction>,
    transaction: StoredTransaction,
    other_id: u32,
)
    ensures
        stored(updated(transactions, transaction), transaction.id_of()) == if transactions.contains_key(
            transaction.id_of(),
        ) {
            Some(transaction)
        } else {
            None
        },
        other_id != transaction.id_of() ==> stored(updated(transactions, transaction), other_id)
            == stored(transactions, other_id),
{
}

pub struct InMemoryTransactionRepository {
    pub transactions: HashMap<u32, StoredTransaction>,
}

impl InMemoryTransactionRepository {
    pub fn new() -> (r: InMemoryTransactionRepository)
        ensures
            r.transactions@ == Map::<u32, StoredTransaction>::empty(),
    {
        InMemoryTransactionRepository { transactions: HashMap::new() }
    }

    /// Stores `transaction` under its id, in place of any transaction there,
    /// and hands it back.
    pub fn create_transaction(&mut self, transaction: StoredTransaction) -> (r: StoredTransaction)
        ensures
            final(self).transactions@ == old(self).transactions@.insert(transaction.id_of(), transaction),
            r == transaction,
    {
        self.transactions.insert(transaction.get_transaction_id(), transaction);
        transaction
    }

    /// Replaces the stored transaction with the id of `transaction`, if there is
    /// one, and hands `transaction` back.
    pub fn update_transaction(&mut self, transaction: StoredTransaction) -> (r: StoredTransaction)
        ensures
            final(self).transactions@ == updated(old(self).transactions@, transaction),
            r == transaction,
    {
        if self.transactions.contains_key(&transaction.get_transaction_id()) {
            self.transactions.insert(transaction.get_transaction_id(), transaction);
        }
        transaction
    }

    /// The transaction stored under `transaction_id`, if any.
    pub fn get_transaction_by_id(&self, transaction_id: u32) -> (r: Option<StoredTransaction>)
        ensures
            r == stored(self.transactions@, transaction_id),
    {
        match self.transactions.get(&transaction_id) {
            Some(transaction) => Some(*transaction),
            None => None,
        }
    }
}

} // verus!
