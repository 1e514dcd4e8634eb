//! The payment processor: applies one transaction at a time to the account
//! store and the transaction store.
//!
//! `step` states what processing a transaction does, in terms of the stores
//! before it; `process_transaction` is proved to do exactly that.
use vstd::prelude::*;
use crate::account::Account;
use crate::account_repository::{with_account, InMemoryAccountRepository};
use crate::amount::Amount;
use crate::transaction::{
    Chargeback, Deposit, Dispute, Resolve, Transaction, TransactionState, Withdrawal,
};
use crate::transaction_repository::{
    keyed_by_id, stored, updated, InMemoryTransactionRepository, StoredTransaction,
};

verus! {

/// Why a transaction was refused.
#[derive(Clone, Copy, Debug, PartialEq, Eq, Structural)]
pub enum ProcessError {
    /// A dispute, resolve or chargeback named a deposit of another client. It
    /// holds that deposit's client and the transaction id that was named.
    ClientMismatch { deposit_client_id: u16, transaction_id: u32 },
}

/// The stores after one transaction, and what processing it returned.
pub struct Step {
    pub accounts: Map<u16, Account>,
    pub transactions: Map<u32, StoredTransaction>,
    pub result: Result<(), ProcessError>,
}

/// `deposit` with its dispute state set to `state`.
pub open spec fn in_state(deposit: Deposit, state: TransactionState) -> StoredTransaction {
    StoredTransaction::Deposit(Deposit { state: Some(state), ..deposit })
}

/// A step that changes neither store further and succeeds.
pub open spec fn no_change(
    accounts: Map<u16, Account>,
    transactions: Map<u32, StoredTransaction>,
) -> Step {
    Step { accounts, transactions, result: Ok(()) }
}

pub open spec fn mismatch(
    accounts: Map<u16, Account>,
    transactions: Map<u32, StoredTransaction>,
    deposit: Deposit,
    transaction_id: u32,
) -> Step {
    Step {
        accounts,
        transactions,
        result: Err(
            ProcessError::ClientMismatch { deposit_client_id: deposit.client_id, transaction_id },
        ),
    }
}

/// What processing `transaction` does to the stores `accounts` and `transactions`.
///
/// The client's account is looked up first, which stores a fresh account for a
/// new client. A locked account takes no further transaction. A deposit is
/// credited and recorded; a withdrawal is debited unless it would leave the
/// available funds below zero; a dispute holds back the funds of a recorded
/// deposit of the same client; a resolve releases them and a chargeback removes
/// them and locks the account, both only for a deposit under dispute. Naming a
/// deposit of another client is an error.
pub open spec fn step(
    accounts: Map<u16, Account>,
    transactions: Map<u32, StoredTransaction>,
    transaction: Transaction,
) -> Step {
    let accounts = with_account(accounts, transaction.client_of());
    let account = accounts[transaction.client_of()];
    if account.locked {
        no_change(accounts, transactions)
    } else {
        match transaction {
            Transaction::Deposit(deposit) => Step {
                accounts: accounts.insert(account.client_id, account.deposited(deposit.amount)),
                transactions: transactions.insert(
                    deposit.transaction_id,
                    StoredTransaction::Deposit(deposit),
                ),
                result: Ok(()),
            },
            Transaction::Withdrawal(withdrawal) => {
                let after = account.withdrawn(withdrawal.amount);
                if after.available@ < 0 {
                    no_change(accounts, transactions)
                } else {
                    no_change(accounts.insert(account.client_id, after), transactions)
                }
            },
            Transaction::Dispute(dispute) => match stored(transactions, dispute.transaction_id) {
                Some(StoredTransaction::Deposit(deposit)) => if deposit.client_id
                    != dispute.client_id {
                    mismatch(accounts, transactions, deposit, dispute.transaction_id)
                } else {
                    no_change(
                        accounts.insert(account.client_id, account.disputed(deposit.amount)),
                        updated(transactions, in_state(deposit, TransactionState::Disputed)),
                    )
                },
                None => no_change(accounts, transactions),
            },
            Transaction::Resolve(resolve) => match stored(transactions, resolve.transaction_id) {
                Some(StoredTransaction::Deposit(deposit)) => if deposit.client_id
                    != resolve.client_id {
                    mismatch(accounts, transactions, deposit, resolve.transaction_id)
                } else if deposit.state == Some(TransactionState::Disputed) {
                    no_change(
                        accounts.insert(account.client_id, account.resolved(deposit.amount)),
                        updated(transactions, in_state(deposit, TransactionState::Resolved)),
                    )
                } else {
                    no_change(accounts, transactions)
                },
                None => no_change(accounts, transactions),
            },
            Transaction::Chargeback(chargeback) => match stored(
                transactions,
                chargeback.transaction_id,
            ) {
                Some(StoredTransaction::Deposit(deposit)) => if deposit.client_id
                    != chargeback.client_id {
                    mismatch(accounts, transactions, deposit, chargeback.transaction_id)
                } else if deposit.state == Some(TransactionState::Disputed) {
                    no_change(
                        accounts.insert(account.client_id, account.charged_back(deposit.amount)),
                        updated(transactions, in_state(deposit, TransactionState::ChargedBack)),
                    )
                } else {
                    no_change(accounts, transactions)
                },
                None => no_change(accounts, transactions),
            },
        }
    }
}

/// Whether every decimal sum that processing `transaction` forms can be formed
/// without overflow (`rust_decimal` panics on overflow).
pub open spec fn step_defined(
    accounts: Map<u16, Account>,
    transactions: Map<u32, StoredTransaction>,
    transaction: Transaction,
) -> bool {
    let account = with_account(accounts, transaction.client_of())[transaction.client_of()];
    !account.locked ==> match transaction {
        Transaction::Deposit(deposit) => account.can_deposit(deposit.amount),
        Transaction::Withdrawal(withdrawal) => account.can_withdraw(withdrawal.amount),
        Transaction::Dispute(dispute) => match stored(transactions, dispute.transaction_id) {
            Some(StoredTransaction::Deposit(deposit)) => deposit.client_id == dispute.client_id
                ==> account.can_dispute(deposit.amount),
            None => true,
        },
        Transaction::Resolve(resolve) => match stored(transactions, resolve.transaction_id) {
            Some(StoredTransaction::Deposit(deposit)) => (deposit.client_id == resolve.client_id
                && deposit.state == Some(TransactionState::Disputed)) ==> account.can_resolve(
                deposit.amount,
            ),
            None => true,
        },
        Transaction::Chargeback(chargeback) => match stored(
            transactions,
            chargeback.transaction_id,
        ) {
            Some(StoredTransaction::Deposit(deposit)) => (deposit.client_id
                == chargeback.client_id && deposit.state == Some(TransactionState::Disputed))
                ==> account.can_charge_back(deposit.amount),
            None => true,
        },
    }
}

/// Whether every decimal sum that processing `transaction` forms is formed
/// without rounding.
pub open spec fn step_exact(
    accounts: Map<u16, Account>,
    transactions: Map<u32, StoredTransaction>,
    transaction: Transaction,
) -> bool {
    let account = with_account(accounts, transaction.client_of())[transaction.client_of()];
    !account.locked ==> match transaction {
        Transaction::Deposit(deposit) => account.deposit_is_exact(deposit.amount),
        Transaction::Withdrawal(withdrawal) => account.withdrawal_is_exact(withdrawal.amount),
        Transaction::Dispute(dispute) => match stored(transactions, dispute.transaction_id) {
            Some(StoredTransaction::Deposit(deposit)) => account.dispute_is_exact(deposit.amount),
            None => true,
        },
        Transaction::Resolve(resolve) => match stored(transactions, resolve.transaction_id) {
            Some(StoredTransaction::Deposit(deposit)) => account.resolve_is_exact(deposit.amount),
            None => true,
        },
        Transaction::Chargeback(chargeback) => match stored(
            transactions,
            chargeback.transaction_id,
        ) {
            Some(StoredTransaction::Deposit(deposit)) => account.chargeback_is_exact(
                deposit.amount,
            ),
            None => true,
        },
    }
}

/// `after` differs from `before` in value by the given amounts of available,
/// held and total funds.
pub open spec fn moved_by(before: Account, after: Account, available: int, held: int, total: int) -> bool {
    &&& after.available@ == before.available@ + available
    &&& after.held@ == before.held@ + held
    &&& after.total@ == before.total@ + total
}

/// What processing `transaction` does to the value of the funds of its client's
/// account, where `after` is the account store after it: a deposit adds its
/// amount to the available and the total funds; a withdrawal takes its amount
/// from both, unless the available funds would fall below zero, in which case
/// nothing but the lookup of the account is stored; a dispute moves the
/// deposit's amount from available to held funds, a resolve moves it back, and
/// a chargeback takes it from the held funds and the total.
pub open spec fn funds_moved(
    accounts: Map<u16, Account>,
    transactions: Map<u32, StoredTransaction>,
    transaction: Transaction,
    after: Map<u16, Account>,
) -> bool {
    let before = with_account(accounts, transaction.client_of())[transaction.client_of()];
    let now = after[before.client_id];
    !before.locked ==> match transaction {
        Transaction::Deposit(deposit) => moved_by(before, now, deposit.amount@, 0, deposit.amount@),
        Transaction::Withdrawal(withdrawal) => if before.available@ - withdrawal.amount@ < 0 {
            after == with_account(accounts, transaction.client_of())
        } else {
            moved_by(before, now, -withdrawal.amount@, 0, -withdrawal.amount@)
        },
        Transaction::Dispute(dispute) => match stored(transactions, dispute.transaction_id) {
            Some(StoredTransaction::Deposit(deposit)) => deposit.client_id == dispute.client_id
                ==> moved_by(before, now, -deposit.amount@, deposit.amount@, 0),
            None => after == with_account(accounts, transaction.client_of()),
        },
        Transaction::Resolve(resolve) => match stored(transactions, resolve.transaction_id) {
            Some(StoredTransaction::Deposit(deposit)) => deposit.client_id == resolve.client_id
                ==> if deposit.state == Some(TransactionState::Disputed) {
                moved_by(before, now, deposit.amount@, -deposit.amount@, 0)
            } else {
                after == with_account(accounts, transaction.client_of())
            },
            None => after == with_account(accounts, transaction.client_of()),
        },
        Transaction::Chargeback(chargeback) => match stored(
            transactions,
            chargeback.transaction_id,
        ) {
            Some(StoredTransaction::Deposit(deposit)) => deposit.client_id == chargeback.client_id
                ==> if deposit.state == Some(TransactionState::Disputed) {
                moved_by(before, now, 0, -deposit.amount@, -deposit.amount@)
            } else {
                after == with_account(accounts, transaction.client_of())
            },
            None => after == with_account(accounts, transaction.client_of()),
        },
    }
}

/// Every stored account has a total equal to its available plus its held funds.
pub open spec fn all_balanced(accounts: Map<u16, Account>) -> bool {
    forall|client_id: u16| #[trigger]
        accounts.contains_key(client_id) ==> accounts[client_id].is_balanced()
}

/// Every stored account is stored under its own client id.
pub open spec fn keyed_by_client(accounts: Map<u16, Account>) -> bool {
    forall|client_id: u16| #[trigger]
        accounts.contains_key(client_id) ==> accounts[client_id].client_id == client_id
}

/// Whether `transaction` names a recorded deposit of another client while its
/// own client's account is not locked.
pub open spec fn names_foreign_deposit(
    accounts: Map<u16, Account>,
    transactions: Map<u32, StoredTransaction>,
    transaction: Transaction,
) -> bool {
    let client_id = transaction.client_of();
    &&& !with_account(accounts, client_id)[client_id].locked
    &&& match transaction {
        Transaction::Dispute(dispute) => stored(transactions, dispute.transaction_id) matches Some(
            StoredTransaction::Deposit(deposit),
        ) && deposit.client_id != client_id,
        Transaction::Resolve(resolve) => stored(transactions, resolve.transaction_id) matches Some(
            StoredTransaction::Deposit(deposit),
        ) && deposit.client_id != client_id,
        Transaction::Chargeback(chargeback) => stored(
            transactions,
            chargeback.transaction_id,
        ) matches Some(StoredTransaction::Deposit(deposit)) && deposit.client_id != client_id,
        _ => false,
    }
}

/// A locked account takes no further transaction: processing any transaction of
/// its client changes neither store and succeeds.
pub proof fn lemma_locked_account_takes_no_transaction(
    accounts: Map<u16, Account>,
    transactions: Map<u32, StoredTransaction>,
    transaction: Transaction,
)
    requires
        accounts.contains_key(transaction.client_of()),
        accounts[transaction.client_of()].locked,
    ensures
        step(accounts, transactions, transaction).accounts == accounts,
        step(accounts, transactions, transaction).transactions == transactions,
        step(accounts, transactions, transaction).result == Ok::<(), ProcessError>(()),
{
}

/// A withdrawal never leaves an account with available funds below zero: every
/// account that it changes has available funds of at least zero. It records
/// nothing and always succeeds.
pub proof fn lemma_withdrawal_never_overdraws(
    accounts: Map<u16, Account>,
    transactions: Map<u32, StoredTransaction>,
    withdrawal: Withdrawal,
)
    ensures
        ({
            let s = step(accounts, transactions, Transaction::Withdrawal(withdrawal));
            let looked_up = with_account(accounts, withdrawal.client_id);
            &&& forall|client_id: u16| #[trigger]
                s.accounts.contains_key(client_id) ==> s.accounts[client_id] == looked_up[client_id]
                    || s.accounts[client_id].available@ >= 0
            &&& s.transactions == transactions
            &&& s.result == Ok::<(), ProcessError>(())
        }),
{
}

/// Processing a transaction fails exactly when it names a recorded deposit of
/// another client, and its own account is not locked.
pub proof fn lemma_refused_exactly_for_foreign_deposits(
    accounts: Map<u16, Account>,
    transactions: Map<u32, StoredTransaction>,
    transaction: Transaction,
)
    ensures
        step(accounts, transactions, transaction).result is Err <==> names_foreign_deposit(
            accounts,
            transactions,
            transaction,
        ),
{
}

/// A refused transaction changes nothing but the lookup of its client's account.
pub proof fn lemma_refusal_changes_nothing(
    accounts: Map<u16, Account>,
    transactions: Map<u32, StoredTransaction>,
    transaction: Transaction,
)
    requires
        step(accounts, transactions, transaction).result is Err,
    ensures
        step(accounts, transactions, transaction).accounts == with_account(accounts, transaction.client_of()),
        step(accounts, transactions, transaction).transactions == transactions,
{
}

/// A deposit to an unlocked account is recorded under its id, so that it can be
/// disputed later.
pub proof fn lemma_deposit_is_recorded(
    accounts: Map<u16, Account>,
    transactions: Map<u32, StoredTransaction>,
    deposit: Deposit,
)
    requires
        !with_account(accounts, deposit.client_id)[deposit.client_id].locked,
    ensures
        stored(step(accounts, transactions, Transaction::Deposit(deposit)).transactions, deposit.transaction_id)
            == Some(StoredTransaction::Deposit(deposit)),
{
}

/// Only a deposit under dispute can be resolved or charged back: for any other
/// deposit a resolve or a chargeback leaves the stores as the lookup of the
/// client's account left them.
pub proof fn lemma_only_disputed_deposits_are_settled(
    accounts: Map<u16, Account>,
    transactions: Map<u32, StoredTransaction>,
    transaction: Transaction,
    transaction_id: u32,
)
    requires
        transaction matches Transaction::Resolve(resolve) ==> resolve.transaction_id == transaction_id,
        transaction matches Transaction::Chargeback(chargeback) ==> chargeback.transaction_id == transaction_id,
        transaction is Resolve || transaction is Chargeback,
        stored(transactions, transaction_id) matches Some(StoredTransaction::Deposit(deposit))
            ==> deposit.state != Some(TransactionState::Disputed),
    ensures
        step(accounts, transactions, transaction).accounts == with_account(accounts, transaction.client_of()),
        step(accounts, transactions, transaction).transactions == transactions,
{
}

/// A chargeback of a disputed deposit of the same client locks the account and
/// marks the deposit charged back.
pub proof fn lemma_chargeback_locks_account(
    accounts: Map<u16, Account>,
    transactions: Map<u32, StoredTransaction>,
    chargeback: Chargeback,
    deposit: Deposit,
)
    requires
        !with_account(accounts, chargeback.client_id)[chargeback.client_id].locked,
        stored(transactions, chargeback.transaction_id) == Some(StoredTransaction::Deposit(deposit)),
        deposit.client_id == chargeback.client_id,
        deposit.state == Some(TransactionState::Disputed),
        deposit.transaction_id == chargeback.transaction_id,
    ensures
        ({
            let s = step(accounts, transactions, Transaction::Chargeback(chargeback));
            let account = with_account(accounts, chargeback.client_id)[chargeback.client_id];
            &&& s.accounts[account.client_id].locked
            &&& stored(s.transactions, chargeback.transaction_id) == Some(in_state(deposit, TransactionState::ChargedBack))
            &&& s.result == Ok::<(), ProcessError>(())
        }),
{
}

/// Where every account is stored under its own client id, processing a
/// transaction keeps it so, and touches no other client's account.
pub proof fn lemma_step_touches_only_its_client(
    accounts: Map<u16, Account>,
    transactions: Map<u32, StoredTransaction>,
    transaction: Transaction,
)
    requires
        keyed_by_client(accounts),
    ensures
        keyed_by_client(step(accounts, transactions, transaction).accounts),
        step(accounts, transactions, transaction).accounts.dom() == accounts.dom().insert(transaction.client_of()),
        forall|client_id: u16|
            client_id != transaction.client_of() && #[trigger] accounts.contains_key(client_id)
                ==> step(accounts, transactions, transaction).accounts[client_id] == accounts[client_id],
{
    let s = step(accounts, transactions, transaction);
    assert(s.accounts.dom() =~= accounts.dom().insert(transaction.client_of()));
}

/// Where every sum of a step is formed without rounding, none overflows.
pub proof fn lemma_exact_step_is_defined(
    accounts: Map<u16, Account>,
    transactions: Map<u32, StoredTransaction>,
    transaction: Transaction,
)
    requires
        step_exact(accounts, transactions, transaction),
    ensures
        step_defined(accounts, transactions, transaction),
{
    let account = with_account(accounts, transaction.client_of())[transaction.client_of()];
    match transaction {
        Transaction::Deposit(deposit) => account.lemma_exact_movements(deposit.amount),
        Transaction::Withdrawal(withdrawal) => account.lemma_exact_movements(withdrawal.amount),
        Transaction::Dispute(dispute) => match stored(transactions, dispute.transaction_id) {
            Some(StoredTransaction::Deposit(deposit)) => account.lemma_exact_movements(deposit.amount),
            None => {},
        },
        Transaction::Resolve(resolve) => match stored(transactions, resolve.transaction_id) {
            Some(StoredTransaction::Deposit(deposit)) => account.lemma_exact_movements(deposit.amount),
            None => {},
        },
        Transaction::Chargeback(chargeback) => match stored(transactions, chargeback.transaction_id) {
            Some(StoredTransaction::Deposit(deposit)) => account.lemma_exact_movements(deposit.amount),
            None => {},
        },
    }
}

/// Where every sum of a step is formed without rounding, the step moves the
/// client's funds by exactly the amounts that `funds_moved` states.
pub proof fn lemma_exact_step_moves_funds(
    accounts: Map<u16, Account>,
    transactions: Map<u32, StoredTransaction>,
    transaction: Transaction,
)
    requires
        step_exact(accounts, transactions, transaction),
    ensures
        funds_moved(accounts, transactions, transaction, step(accounts, transactions, transaction).accounts),
{
    lemma_exact_step_is_defined(accounts, transactions, transaction);
    let account = with_account(accounts, transaction.client_of())[transaction.client_of()];
    match transaction {
        Transaction::Deposit(deposit) => account.lemma_exact_movements(deposit.amount),
        Transaction::Withdrawal(withdrawal) => account.lemma_exact_movements(withdrawal.amount),
        Transaction::Dispute(dispute) => match stored(transactions, dispute.transaction_id) {
            Some(StoredTransaction::Deposit(deposit)) => account.lemma_exact_movements(deposit.amount),
            None => {},
        },
        Transaction::Resolve(resolve) => match stored(transactions, resolve.transaction_id) {
            Some(StoredTransaction::Deposit(deposit)) => account.lemma_exact_movements(deposit.amount),
            None => {},
        },
        Transaction::Chargeback(chargeback) => match stored(transactions, chargeback.transaction_id) {
            Some(StoredTransaction::Deposit(deposit)) => account.lemma_exact_movements(deposit.amount),
            None => {},
        },
    }
}

/// Every account keeps its total equal to its available plus its held funds:
/// a step whose sums are formed without rounding keeps a store in which every
/// account is balanced so.
pub proof fn lemma_exact_step_keeps_balance(
    accounts: Map<u16, Account>,
    transactions: Map<u32, StoredTransaction>,
    transaction: Transaction,
)
    requires
        all_balanced(accounts),
        step_exact(accounts, transactions, transaction),
    ensures
        all_balanced(step(accounts, transactions, transaction).accounts),
{
    Amount::lemma_zero_value();
    lemma_exact_step_moves_funds(accounts, transactions, transaction);
    let client_id = transaction.client_of();
    let looked_up = with_account(accounts, client_id);
    assert(all_balanced(looked_up));
    let account = looked_up[client_id];
    assert(account.is_balanced());
}

/// The dispute of `deposit` by its own client.
pub open spec fn dispute_of(deposit: Deposit) -> Transaction {
    Transaction::Dispute(Dispute { client_id: deposit.client_id, transaction_id: deposit.transaction_id })
}

/// The resolve of `deposit` by its own client.
pub open spec fn resolve_of(deposit: Deposit) -> Transaction {
    Transaction::Resolve(Resolve { client_id: deposit.client_id, transaction_id: deposit.transaction_id })
}

/// The chargeback of `deposit` by its own client.
pub open spec fn chargeback_of(deposit: Deposit) -> Transaction {
    Transaction::Chargeback(Chargeback { client_id: deposit.client_id, transaction_id: deposit.transaction_id })
}

/// The stores after the dispute of `deposit`.
pub open spec fn after_dispute(
    accounts: Map<u16, Account>,
    transactions: Map<u32, StoredTransaction>,
    deposit: Deposit,
) -> Step {
    step(accounts, transactions, dispute_of(deposit))
}

/// A resolve undoes the dispute before it: disputing a deposit of the client and
/// then resolving it leaves the client's funds at the values they had, and the
/// deposit marked resolved, where every sum of both steps is formed without
/// rounding.
pub proof fn lemma_resolve_undoes_dispute(
    accounts: Map<u16, Account>,
    transactions: Map<u32, StoredTransaction>,
    deposit: Deposit,
    settled: Map<u16, Account>,
)
    requires
        keyed_by_client(accounts),
        !with_account(accounts, deposit.client_id)[deposit.client_id].locked,
        stored(transactions, deposit.transaction_id) == Some(StoredTransaction::Deposit(deposit)),
        step_exact(accounts, transactions, dispute_of(deposit)),
        step_exact(
            after_dispute(accounts, transactions, deposit).accounts,
            after_dispute(accounts, transactions, deposit).transactions,
            resolve_of(deposit),
        ),
        settled == step(
            after_dispute(accounts, transactions, deposit).accounts,
            after_dispute(accounts, transactions, deposit).transactions,
            resolve_of(deposit),
        ).accounts,
    ensures
        moved_by(with_account(accounts, deposit.client_id)[deposit.client_id], settled[deposit.client_id], 0, 0, 0),
        !settled[deposit.client_id].locked,
{
    let c = deposit.client_id;
    let before = with_account(accounts, c)[c];
    let s1 = after_dispute(accounts, transactions, deposit);
    lemma_exact_step_moves_funds(accounts, transactions, dispute_of(deposit));
    assert(s1.accounts.contains_key(c));
    assert(s1.accounts[c] == before.disputed(deposit.amount));
    assert(stored(s1.transactions, deposit.transaction_id) == Some(in_state(deposit, TransactionState::Disputed)));
    lemma_exact_step_moves_funds(s1.accounts, s1.transactions, resolve_of(deposit));
}

/// A chargeback after a dispute takes the deposit out of the client's funds:
/// the available funds end lower by the deposit's amount (the dispute held it
/// back), the held funds end where they were, the total ends lower by the
/// amount, and the account is locked, where every sum of both steps is formed
/// without rounding.
pub proof fn lemma_chargeback_reverses_deposit(
    accounts: Map<u16, Account>,
    transactions: Map<u32, StoredTransaction>,
    deposit: Deposit,
    settled: Map<u16, Account>,
)
    requires
        keyed_by_client(accounts),
        !with_account(accounts, deposit.client_id)[deposit.client_id].locked,
        stored(transactions, deposit.transaction_id) == Some(StoredTransaction::Deposit(deposit)),
        step_exact(accounts, transactions, dispute_of(deposit)),
        step_exact(
            after_dispute(accounts, transactions, deposit).accounts,
            after_dispute(accounts, transactions, deposit).transactions,
            chargeback_of(deposit),
        ),
        settled == step(
            after_dispute(accounts, transactions, deposit).accounts,
            after_dispute(accounts, transactions, deposit).transactions,
            chargeback_of(deposit),
        ).accounts,
    ensures
        moved_by(with_account(accounts, deposit.client_id)[deposit.client_id], settled[deposit.client_id], -deposit.amount@, 0, -deposit.amount@),
        settled[deposit.client_id].locked,
{
    let c = deposit.client_id;
    let before = with_account(accounts, c)[c];
    let s1 = after_dispute(accounts, transactions, deposit);
    lemma_exact_step_moves_funds(accounts, transactions, dispute_of(deposit));
    assert(s1.accounts.contains_key(c));
    assert(s1.accounts[c] == before.disputed(deposit.amount));
    assert(stored(s1.transactions, deposit.transaction_id) == Some(in_state(deposit, TransactionState::Disputed)));
    lemma_exact_step_moves_funds(s1.accounts, s1.transactions, chargeback_of(deposit));
}

/// Only a chargeback touches a lock, and it never unlocks: where every account
/// is stored under its own client id, any other transaction leaves the lock of
/// every account as the lookup of its client's account left it, and a
/// chargeback leaves every locked account locked.
pub proof fn lemma_only_chargeback_locks(
    accounts: Map<u16, Account>,
    transactions: Map<u32, StoredTransaction>,
    transaction: Transaction,
)
    requires
        keyed_by_client(accounts),
    ensures
        ({
            let s = step(accounts, transactions, transaction);
            let looked_up = with_account(accounts, transaction.client_of());
            &&& s.accounts.dom() == looked_up.dom()
            &&& forall|client_id: u16| #[trigger]
                looked_up.contains_key(client_id) && !(transaction is Chargeback)
                    ==> s.accounts[client_id].locked == looked_up[client_id].locked
            &&& forall|client_id: u16| #[trigger]
                looked_up.contains_key(client_id) && looked_up[client_id].locked
                    ==> s.accounts[client_id].locked
        }),
{
    let c = transaction.client_of();
    let looked_up = with_account(accounts, c);
    let account = looked_up[c];
    lemma_step_touches_only_its_client(accounts, transactions, transaction);
    match transaction {
        Transaction::Deposit(deposit) => account.lemma_movements_keep_other_fields(deposit.amount),
        Transaction::Withdrawal(withdrawal) => account.lemma_movements_keep_other_fields(withdrawal.amount),
        Transaction::Dispute(dispute) => match stored(transactions, dispute.transaction_id) {
            Some(StoredTransaction::Deposit(deposit)) => account.lemma_movements_keep_other_fields(deposit.amount),
            None => {},
        },
        Transaction::Resolve(resolve) => match stored(transactions, resolve.transaction_id) {
            Some(StoredTransaction::Deposit(deposit)) => account.lemma_movements_keep_other_fields(deposit.amount),
            None => {},
        },
        Transaction::Chargeback(chargeback) => match stored(transactions, chargeback.transaction_id) {
            Some(StoredTransaction::Deposit(deposit)) => account.lemma_movements_keep_other_fields(deposit.amount),
            None => {},
        },
    }
}

/// Each transaction leaves alone the funds it is not about: the client's
/// account keeps its client id; a deposit or a withdrawal keeps the held funds,
/// a dispute or a resolve keeps the total, and a chargeback keeps the
/// available funds.
pub proof fn lemma_step_keeps_untouched_funds(
    accounts: Map<u16, Account>,
    transactions: Map<u32, StoredTransaction>,
    transaction: Transaction,
)
    requires
        keyed_by_client(accounts),
    ensures
        ({
            let c = transaction.client_of();
            let before = with_account(accounts, c)[c];
            let after = step(accounts, transactions, transaction).accounts[c];
            &&& after.client_id == c
            &&& (transaction is Deposit || transaction is Withdrawal) ==> after.held == before.held
            &&& (transaction is Dispute || transaction is Resolve) ==> after.total == before.total
            &&& transaction is Chargeback ==> after.available == before.available
        }),
{
    let c = transaction.client_of();
    let account = with_account(accounts, c)[c];
    lemma_step_touches_only_its_client(accounts, transactions, transaction);
    match transaction {
        Transaction::Deposit(deposit) => account.lemma_movements_keep_other_fields(deposit.amount),
        Transaction::Withdrawal(withdrawal) => account.lemma_movements_keep_other_fields(withdrawal.amount),
        Transaction::Dispute(dispute) => match stored(transactions, dispute.transaction_id) {
            Some(StoredTransaction::Deposit(deposit)) => account.lemma_movements_keep_other_fields(deposit.amount),
            None => {},
        },
        Transaction::Resolve(resolve) => match stored(transactions, resolve.transaction_id) {
            Some(StoredTransaction::Deposit(deposit)) => account.lemma_movements_keep_other_fields(deposit.amount),
            None => {},
        },
        Transaction::Chargeback(chargeback) => match stored(transactions, chargeback.transaction_id) {
            Some(StoredTransaction::Deposit(deposit)) => account.lemma_movements_keep_other_fields(deposit.amount),
            None => {},
        },
    }
}

/// The dispute state that a dispute, a resolve or a chargeback gives the
/// deposit it acts on.
pub open spec fn state_set_by(transaction: Transaction) -> Option<TransactionState> {
    match transaction {
        Transaction::Dispute(_) => Some(TransactionState::Disputed),
        Transaction::Resolve(_) => Some(TransactionState::Resolved),
        Transaction::Chargeback(_) => Some(TransactionState::ChargedBack),
        _ => None,
    }
}

/// How a step changes the transaction store, where every transaction is stored
/// under its own id: only the record under the id that the transaction names
/// can change; a withdrawal records nothing; a deposit records itself; a
/// dispute, resolve or chargeback creates no record, and the record it changes
/// keeps its client, id and amount and takes the state that the transaction
/// sets (disputed, resolved or charged back).
pub proof fn lemma_step_changes_only_the_named_record(
    accounts: Map<u16, Account>,
    transactions: Map<u32, StoredTransaction>,
    transaction: Transaction,
)
    requires
        keyed_by_id(transactions),
    ensures
        ({
            let s = step(accounts, transactions, transaction);
            let id = transaction.transaction_id_of();
            &&& keyed_by_id(s.transactions)
            &&& forall|other: u32| #[trigger]
                stored(s.transactions, other) == stored(transactions, other) || other == id
            &&& transaction is Withdrawal ==> s.transactions == transactions
            &&& transaction matches Transaction::Deposit(deposit) ==> (
                stored(s.transactions, id) == stored(transactions, id)
                || stored(s.transactions, id) == Some(StoredTransaction::Deposit(deposit)))
            &&& !(transaction is Deposit) ==> s.transactions.dom() == transactions.dom()
            &&& !(transaction is Deposit) ==> (
                stored(s.transactions, id) == stored(transactions, id) || (
                stored(transactions, id) matches Some(StoredTransaction::Deposit(before))
                && stored(s.transactions, id) matches Some(StoredTransaction::Deposit(after))
                && after.client_id == before.client_id
                && after.transaction_id == before.transaction_id
                && after.amount == before.amount
                && after.state == state_set_by(transaction)))
        }),
{
    let s = step(accounts, transactions, transaction);
    let id = transaction.transaction_id_of();
    assert(s.transactions.dom() =~= transactions.dom() || transaction is Deposit);
}

/// A dispute of a recorded deposit of the same client marks it disputed, and a
/// resolve or a chargeback of such a deposit under dispute marks it resolved or
/// charged back; the record keeps its client, id and amount.
pub proof fn lemma_settling_marks_the_deposit(
    accounts: Map<u16, Account>,
    transactions: Map<u32, StoredTransaction>,
    transaction: Transaction,
    deposit: Deposit,
)
    requires
        !with_account(accounts, transaction.client_of())[transaction.client_of()].locked,
        stored(transactions, transaction.transaction_id_of()) == Some(StoredTransaction::Deposit(deposit)),
        deposit.transaction_id == transaction.transaction_id_of(),
        deposit.client_id == transaction.client_of(),
        transaction is Dispute || ((transaction is Resolve || transaction is Chargeback) && deposit.state == Some(TransactionState::Disputed)),
    ensures
        ({
            let s = step(accounts, transactions, transaction);
            let id = transaction.transaction_id_of();
            &&& s.result == Ok::<(), ProcessError>(())
            &&& stored(s.transactions, id) matches Some(StoredTransaction::Deposit(after))
            &&& after.client_id == deposit.client_id
            &&& after.transaction_id == deposit.transaction_id
            &&& after.amount == deposit.amount
            &&& transaction is Dispute ==> after.state == Some(TransactionState::Disputed)
            &&& transaction is Resolve ==> after.state == Some(TransactionState::Resolved)
            &&& transaction is Chargeback ==> after.state == Some(TransactionState::ChargedBack)
        }),
{
}

/// A refusal names the deposit's client and the transaction id that the
/// refused transaction named.
pub proof fn lemma_refusal_names_the_deposit(
    accounts: Map<u16, Account>,
    transactions: Map<u32, StoredTransaction>,
    transaction: Transaction,
)
    ensures
        step(accounts, transactions, transaction).result matches Err(
            ProcessError::ClientMismatch { deposit_client_id, transaction_id },
        ) ==> {
            &&& transaction_id == transaction.transaction_id_of()
            &&& deposit_client_id != transaction.client_of()
            &&& stored(transactions, transaction_id) matches Some(StoredTransaction::Deposit(deposit))
            &&& deposit.client_id == deposit_client_id
        },
{
}

pub struct PaymentProcessor {
    pub account_repository: InMemoryAccountRepository,
    pub transaction_repository: InMemoryTransactionRepository,
}

impl PaymentProcessor {
    pub open spec fn accounts(self) -> Map<u16, Account> {
        self.account_repository.accounts@
    }

    pub open spec fn transactions(self) -> Map<u32, StoredTransaction> {
        self.transaction_repository.transactions@
    }

    pub fn new(
        account_repository: InMemoryAccountRepository,
        transaction_repository: InMemoryTransactionRepository,
    ) -> (r: PaymentProcessor)
        ensures
            r.accounts() == account_repository.accounts@,
            r.transactions() == transaction_repository.transactions@,
    {
        PaymentProcessor { account_repository, transaction_repository }
    }

    /// Whether `state` marks a deposit under dispute.
    fn is_disputed(state: Option<TransactionState>) -> (r: bool)
        ensures
            r == (state == Some(TransactionState::Disputed)),
    {
        match state {
            Some(TransactionState::Disputed) => true,
            _ => false,
        }
    }

    /// Whether processing `transaction` on the current stores forms its decimal
    /// sums without overflow.
    fn step_is_defined(&self, transaction: &Transaction) -> (r: bool)
        ensures
            r == step_defined(self.accounts(), self.transactions(), *transaction),
    {
        let client_id = transaction.get_client_id();
        let account = match self.account_repository.accounts.get(&client_id) {
            Some(account) => *account,
            None => Account::new(client_id),
        };
        if account.locked {
            return true;
        }
        match transaction {
            Transaction::Deposit(deposit) => {
                account.available.checked_add(deposit.amount).is_some()
                    && account.total.checked_add(deposit.amount).is_some()
            },
            Transaction::Withdrawal(withdrawal) => {
                account.available.checked_sub(withdrawal.amount).is_some()
                    && account.total.checked_sub(withdrawal.amount).is_some()
            },
            Transaction::Dispute(dispute) => match self.transaction_repository.get_transaction_by_id(
                dispute.transaction_id,
            ) {
                Some(StoredTransaction::Deposit(deposit)) => {
                    deposit.client_id != dispute.client_id || (account.available.checked_sub(
                        deposit.amount,
                    ).is_some() && account.held.checked_add(deposit.amount).is_some())
                },
                None => true,
            },
            Transaction::Resolve(resolve) => match self.transaction_repository.get_transaction_by_id(
                resolve.transaction_id,
            ) {
                Some(StoredTransaction::Deposit(deposit)) => {
                    deposit.client_id != resolve.client_id || !Self::is_disputed(deposit.state) || (
                    account.available.checked_add(deposit.amount).is_some()
                        && account.held.checked_sub(deposit.amount).is_some())
                },
                None => true,
            },
            Transaction::Chargeback(chargeback) => match self.transaction_repository.get_transaction_by_id(
                chargeback.transaction_id,
            ) {
                Some(StoredTransaction::Deposit(deposit)) => {
                    deposit.client_id != chargeback.client_id || !Self::is_disputed(deposit.state)
                        || (account.held.checked_sub(deposit.amount).is_some()
                        && account.total.checked_sub(deposit.amount).is_some())
                },
                None => true,
            },
        }
    }

    /// Applies `transaction` as `process_transaction` does where none of its
    /// decimal sums overflows; otherwise changes nothing and returns `None`.
    pub fn try_process_transaction(&mut self, transaction: Transaction) -> (r: Option<
        Result<(), ProcessError>,
    >)
        ensures
            step_defined(old(self).accounts(), old(self).transactions(), transaction) ==> {
                &&& final(self).accounts() == step(old(self).accounts(), old(self).transactions(), transaction).accounts
                &&& final(self).transactions() == step(old(self).accounts(), old(self).transactions(), transaction).transactions
                &&& r == Some(step(old(self).accounts(), old(self).transactions(), transaction).result)
            },
            step_exact(old(self).accounts(), old(self).transactions(), transaction) ==> r is Some,
            !step_defined(old(self).accounts(), old(self).transactions(), transaction) ==> {
                &&& final(self).accounts() == old(self).accounts()
                &&& final(self).transactions() == old(self).transactions()
                &&& r is None
            },
    {
        proof {
            if step_exact(self.accounts(), self.transactions(), transaction) {
                lemma_exact_step_is_defined(self.accounts(), self.transactions(), transaction);
            }
        }
        if self.step_is_defined(&transaction) {
            Some(self.process_transaction(transaction))
        } else {
            None
        }
    }

    /// Applies `transaction` to the stores, as `step` says.
    pub fn process_transaction(&mut self, transaction: Transaction) -> (r: Result<(), ProcessError>)
        requires
            step_defined(old(self).accounts(), old(self).transactions(), transaction),
        ensures
            final(self).accounts() == step(old(self).accounts(), old(self).transactions(), transaction).accounts,
            final(self).transactions() == step(old(self).accounts(), old(self).transactions(), transaction).transactions,
            r == step(old(self).accounts(), old(self).transactions(), transaction).result,
    {
        proof {
            Amount::lemma_zero_value();
        }
        let ghost accounts0 = with_account(self.accounts(), transaction.client_of());
        let client_id = transaction.get_client_id();
        let mut account = self.account_repository.get_account_by_client(client_id);
        if account.locked {
            return Ok(());
        }
        match transaction {
            Transaction::Deposit(deposit) => {
                account.deposit(deposit.amount);
                self.transaction_repository.create_transaction(StoredTransaction::Deposit(deposit));
                self.account_repository.set_account(account);
                Ok(())
            },
            Transaction::Withdrawal(withdrawal) => {
                account.withdraw(withdrawal.amount);
                // funds that are not there cannot be withdrawn
                if account.available.is_negative() {
                    return Ok(());
                }
                self.account_repository.set_account(account);
                Ok(())
            },
            Transaction::Dispute(dispute) => {
                let disputed = self.transaction_repository.get_transaction_by_id(
                    dispute.transaction_id,
                );
                if let Some(disputed) = disputed {
                    match disputed {
                        // only deposits can be disputed
                        StoredTransaction::Deposit(deposit) => {
                            if deposit.client_id != dispute.client_id {
                                return Err(
                                    ProcessError::ClientMismatch {
                                        deposit_client_id: deposit.client_id,
                                        transaction_id: dispute.transaction_id,
                                    },
                                );
                            }
                            account.dispute(deposit.amount);
                            let mut deposit = deposit;
                            deposit.state = Some(TransactionState::Disputed);
                            self.account_repository.set_account(account);
                            self.transaction_repository.update_transaction(
                                StoredTransaction::Deposit(deposit),
                            );
                        },
                    }
                }
                Ok(())
            },
            Transaction::Resolve(resolve) => {
                let disputed = self.transaction_repository.get_transaction_by_id(
                    resolve.transaction_id,
                );
                if let Some(disputed) = disputed {
                    match disputed {
                        StoredTransaction::Deposit(deposit) => {
                            if deposit.client_id != resolve.client_id {
                                return Err(
                                    ProcessError::ClientMismatch {
                                        deposit_client_id: deposit.client_id,
                                        transaction_id: resolve.transaction_id,
                                    },
                                );
                            }
                            // only a deposit under dispute can be resolved
                            if let Some(state) = deposit.state {
                                match state {
                                    TransactionState::Disputed => {
                                        account.resolve(deposit.amount);
                                        let mut deposit = deposit;
                                        deposit.state = Some(TransactionState::Resolved);
                                        self.account_repository.set_account(account);
                                        self.transaction_repository.update_transaction(
                                            StoredTransaction::Deposit(deposit),
                                        );
                                    },
                                    _ => return Ok(()),
                                }
                            }
                        },
                    }
                }
                Ok(())
            },
            Transaction::Chargeback(chargeback) => {
                let disputed = self.transaction_repository.get_transaction_by_id(
                    chargeback.transaction_id,
                );
                if let Some(disputed) = disputed {
                    match disputed {
                        StoredTransaction::Deposit(deposit) => {
                            if deposit.client_id != chargeback.client_id {
                                return Err(
                                    ProcessError::ClientMismatch {
                                        deposit_client_id: deposit.client_id,
                                        transaction_id: chargeback.transaction_id,
                                    },
                                );
                            }
                            // only a deposit under dispute can be charged back
                            if let Some(state) = deposit.state {
                                match state {
                                    TransactionState::Disputed => {
                                        account.chargeback(deposit.amount);
                                        let mut deposit = deposit;
                                        deposit.state = Some(TransactionState::ChargedBack);
                                        self.account_repository.set_account(account);
                                        self.transaction_repository.update_transaction(
                                            StoredTransaction::Deposit(deposit),
                                        );
                                    },
                                    _ => return Ok(()),
                                }
                            }
                        },
                    }
                }
                Ok(())
            },
        }
    }
}

} // verus!
