use payment_processor::account::Account;
use payment_processor::account_repository::InMemoryAccountRepository;
use payment_processor::amount::Amount;
use payment_processor::payment_processor::{PaymentProcessor, ProcessError};
use payment_processor::transaction::{Chargeback, Deposit, Dispute, Resolve, Transaction, Withdrawal};
use payment_processor::transaction_repository::InMemoryTransactionRepository;

fn new_processor() -> PaymentProcessor {
    PaymentProcessor::new(InMemoryAccountRepository::new(), InMemoryTransactionRepository::new())
}

#[test]
fn it_processes_deposit() {
    let mut processor = new_processor();

    let deposit = Deposit::new(1, 1, Amount::new(10000, 4));

    processor.process_transaction(Transaction::Deposit(deposit)).unwrap();

    let account = processor.account_repository.get_account_by_client(1);

    assert_eq!(account.client_id, 1);
    assert_eq!(account.total, Amount::new(10000, 4));
    assert_eq!(account.available, Amount::new(10000, 4));
    assert_eq!(account.held, Amount::new(0, 4));
}

#[test]
fn it_does_not_process_deposit_if_account_is_locked() {
    let mut account_repository = InMemoryAccountRepository::new();
    let transaction_repository = InMemoryTransactionRepository::new();

    let locked_account = Account {
        client_id: 1,
        available: Amount::zero(),
        held: Amount::zero(),
        total: Amount::zero(),
        locked: true,
    };

    account_repository.set_account(locked_account);

    let mut processor = PaymentProcessor::new(account_repository, transaction_repository);

    let deposit = Deposit::new(1, 1, Amount::new(10000, 4));

    processor.process_transaction(Transaction::Deposit(deposit)).unwrap();

    let account = processor.account_repository.get_account_by_client(1);

    assert_eq!(account.client_id, 1);
    assert_eq!(account.total, Amount::new(0, 4));
    assert_eq!(account.available, Amount::new(0, 4));
    assert_eq!(account.held, Amount::new(0, 4));
}

#[test]
fn it_processes_withdrawal() {
    let mut processor = new_processor();

    let account = Account {
        client_id: 1,
        available: Amount::new(10000, 4),
        held: Amount::zero(),
        total: Amount::new(10000, 4),
        locked: false,
    };

    processor.account_repository.set_account(account);

    let withdrawal = Withdrawal::new(1, 1, Amount::new(5000, 4));

    processor.process_transaction(Transaction::Withdrawal(withdrawal)).unwrap();

    let account = processor.account_repository.get_account_by_client(1);

    assert_eq!(account.client_id, 1);
    assert_eq!(account.total, Amount::new(5000, 4));
    assert_eq!(account.available, Amount::new(5000, 4));
    assert_eq!(account.held, Amount::new(0, 4));
}

#[test]
fn it_does_not_process_withdrawal_if_account_is_locked() {
    let mut account_repository = InMemoryAccountRepository::new();
    let transaction_repository = InMemoryTransactionRepository::new();

    let account = Account {
        client_id: 1,
        available: Amount::new(10000, 4),
        held: Amount::zero(),
        total: Amount::new(10000, 4),
        locked: true,
    };

    account_repository.set_account(account);

    let mut processor = PaymentProcessor::new(account_repository, transaction_repository);

    let withdrawal = Withdrawal::new(1, 1, Amount::new(5000, 4));

    processor.process_transaction(Transaction::Withdrawal(withdrawal)).unwrap();

    let account = processor.account_repository.get_account_by_client(1);

    assert_eq!(account.client_id, 1);
    assert_eq!(account.total, Amount::new(10000, 4));
    assert_eq!(account.available, Amount::new(10000, 4));
    assert_eq!(account.held, Amount::new(0, 4));
}

#[test]
fn it_does_not_process_withdrawal_if_account_has_insufficient_available_balance() {
    let mut account_repository = InMemoryAccountRepository::new();
    let transaction_repository = InMemoryTransactionRepository::new();

    let account = Account {
        client_id: 1,
        available: Amount::new(10000, 4),
        held: Amount::zero(),
        total: Amount::new(10000, 4),
        locked: true,
    };

    account_repository.set_account(account);

    let mut processor = PaymentProcessor::new(account_repository, transaction_repository);

    let withdrawal = Withdrawal::new(1, 1, Amount::new(20000, 4));

    processor.process_transaction(Transaction::Withdrawal(withdrawal)).unwrap();

    let account = processor.account_repository.get_account_by_client(1);

    assert_eq!(account.client_id, 1);
    assert_eq!(account.total, Amount::new(10000, 4));
    assert_eq!(account.available, Amount::new(10000, 4));
    assert_eq!(account.held, Amount::new(0, 4));
}

#[test]
fn it_processes_dispute() {
    let mut processor = new_processor();

    let deposit = Deposit::new(1, 1, Amount::new(10000, 4));

    let dispute = Dispute::new(deposit.client_id, deposit.transaction_id);

    processor.process_transaction(Transaction::Deposit(deposit)).unwrap();

    let mut account = processor.account_repository.get_account_by_client(1);

    account.locked = true;

    processor.account_repository.set_account(account);

    processor.process_transaction(Transaction::Dispute(dispute)).unwrap();

    let account = processor.account_repository.get_account_by_client(1);

    assert_eq!(account.client_id, 1);
    assert_eq!(account.total, Amount::new(10000, 4));
    assert_eq!(account.available, Amount::new(10000, 4));
    assert_eq!(account.held, Amount::new(0, 4));
    assert_eq!(account.locked, true);
}

#[test]
fn it_does_not_process_dispute_for_non_existent_transaction() {
    let mut processor = new_processor();

    let deposit = Deposit::new(1, 1, Amount::new(10000, 4));
    let dispute = Dispute::new(deposit.client_id, 2);

    processor.process_transaction(Transaction::Deposit(deposit)).unwrap();
    processor.process_transaction(Transaction::Dispute(dispute)).unwrap();

    let account = processor.account_repository.get_account_by_client(1);

    assert_eq!(account.client_id, 1);
    assert_eq!(account.total, Amount::new(10000, 4));
    assert_eq!(account.available, Amount::new(10000, 4));
    assert_eq!(account.held, Amount::new(0, 4));
    assert_eq!(account.locked, false);
}

#[test]
fn it_does_not_process_dispute_for_locked_account() {
    let mut processor = new_processor();

    let deposit = Deposit::new(1, 1, Amount::new(10000, 4));
    let dispute = Dispute::new(deposit.client_id, 2);

    processor.process_transaction(Transaction::Deposit(deposit)).unwrap();

    let mut account = processor.account_repository.get_account_by_client(1);

    account.locked = true;

    processor.account_repository.set_account(account);

    processor.process_transaction(Transaction::Dispute(dispute)).unwrap();

    let account = processor.account_repository.get_account_by_client(1);

    assert_eq!(account.client_id, 1);
    assert_eq!(account.total, Amount::new(10000, 4));
    assert_eq!(account.available, Amount::new(10000, 4));
    assert_eq!(account.held, Amount::new(0, 4));
    assert_eq!(account.locked, true);
}

#[test]
fn it_returns_error_if_dispute_clientid_does_not_match_original_transaction() {
    let mut processor = new_processor();

    let deposit = Deposit::new(1, 1, Amount::new(10000, 4));
    let dispute = Dispute::new(2, 1);

    processor.process_transaction(Transaction::Deposit(deposit)).unwrap();

    let result = processor.process_transaction(Transaction::Dispute(dispute));

    assert!(result.is_err());
}

#[test]
fn it_processes_resolve() {
    let mut processor = new_processor();

    let deposit = Deposit::new(1, 1, Amount::new(10000, 4));
    let dispute = Dispute::new(deposit.client_id, deposit.transaction_id);
    let resolve = Resolve::new(deposit.client_id, deposit.transaction_id);

    processor.process_transaction(Transaction::Deposit(deposit)).unwrap();

    let account = processor.account_repository.get_account_by_client(1);

    assert_eq!(account.client_id, 1);
    assert_eq!(account.total, Amount::new(10000, 4));
    assert_eq!(account.available, Amount::new(10000, 4));
    assert_eq!(account.held, Amount::new(0, 4));
    assert_eq!(account.locked, false);

    processor.process_transaction(Transaction::Dispute(dispute)).unwrap();

    let account = processor.account_repository.get_account_by_client(1);

    assert_eq!(account.client_id, 1);
    assert_eq!(account.total, Amount::new(10000, 4));
    assert_eq!(account.available, Amount::new(0, 4));
    assert_eq!(account.held, Amount::new(10000, 4));
    assert_eq!(account.locked, false);

    processor.process_transaction(Transaction::Resolve(resolve)).unwrap();

    let account = processor.account_repository.get_account_by_client(1);

    assert_eq!(account.client_id, 1);
    assert_eq!(account.total, Amount::new(10000, 4));
    assert_eq!(account.available, Amount::new(10000, 4));
    assert_eq!(account.held, Amount::new(0, 4));
    assert_eq!(account.locked, false);
}

#[test]
fn it_does_not_process_resolve_for_non_existent_transaction() {
    let mut processor = new_processor();

    let deposit = Deposit::new(1, 1, Amount::new(10000, 4));
    let dispute = Dispute::new(deposit.client_id, 1);
    let resolve = Resolve::new(deposit.client_id, 2);

    processor.process_transaction(Transaction::Deposit(deposit)).unwrap();
    processor.process_transaction(Transaction::Dispute(dispute)).unwrap();
    processor.process_transaction(Transaction::Resolve(resolve)).unwrap();

    let account = processor.account_repository.get_account_by_client(1);

    assert_eq!(account.client_id, 1);
    assert_eq!(account.total, Amount::new(10000, 4));
    assert_eq!(account.available, Amount::new(0, 4));
    assert_eq!(account.held, Amount::new(10000, 4));
    assert_eq!(account.locked, false);
}

#[test]
fn it_does_not_process_resolve_for_locked_account() {
    let mut processor = new_processor();

    let deposit = Deposit::new(1, 1, Amount::new(10000, 4));
    let dispute = Dispute::new(deposit.client_id, 1);
    let resolve = Resolve::new(deposit.client_id, 1);

    processor.process_transaction(Transaction::Deposit(deposit)).unwrap();
    processor.process_transaction(Transaction::Dispute(dispute)).unwrap();

    let mut account = processor.account_repository.get_account_by_client(1);

    account.locked = true;

    processor.account_repository.set_account(account);

    processor.process_transaction(Transaction::Resolve(resolve)).unwrap();

    let account = processor.account_repository.get_account_by_client(1);

    assert_eq!(account.client_id, 1);
    assert_eq!(account.total, Amount::new(10000, 4));
    assert_eq!(account.available, Amount::new(0, 4));
    assert_eq!(account.held, Amount::new(10000, 4));
    assert_eq!(account.locked, true);
}

#[test]
fn it_returns_error_if_resolve_clientid_does_not_match_original_transaction() {
    let mut processor = new_processor();

    let deposit = Deposit::new(1, 1, Amount::new(10000, 4));
    let dispute = Dispute::new(2, 1);

    processor.process_transaction(Transaction::Deposit(deposit)).unwrap();

    let result = processor.process_transaction(Transaction::Dispute(dispute));

    assert!(result.is_err());
}

#[test]
fn it_processes_chargeback() {
    let mut processor = new_processor();

    let deposit = Deposit::new(1, 1, Amount::new(10000, 4));
    let dispute = Dispute::new(deposit.client_id, deposit.transaction_id);
    let chargeback = Chargeback::new(deposit.client_id, deposit.transaction_id);

    processor.process_transaction(Transaction::Deposit(deposit)).unwrap();

    let account = processor.account_repository.get_account_by_client(1);

    assert_eq!(account.client_id, 1);
    assert_eq!(account.total, Amount::new(10000, 4));
    assert_eq!(account.available, Amount::new(10000, 4));
    assert_eq!(account.held, Amount::new(0, 4));
    assert_eq!(account.locked, false);

    processor.process_transaction(Transaction::Dispute(dispute)).unwrap();

    let account = processor.account_repository.get_account_by_client(1);

    assert_eq!(account.client_id, 1);
    assert_eq!(account.total, Amount::new(10000, 4));
    assert_eq!(account.available, Amount::new(0, 4));
    assert_eq!(account.held, Amount::new(10000, 4));
    assert_eq!(account.locked, false);

    processor.process_transaction(Transaction::Chargeback(chargeback)).unwrap();

    let account = processor.account_repository.get_account_by_client(1);

    assert_eq!(account.client_id, 1);
    assert_eq!(account.total, Amount::new(0, 4));
    assert_eq!(account.available, Amount::new(0, 4));
    assert_eq!(account.held, Amount::new(0, 4));
    assert_eq!(account.locked, true);
}

#[test]
fn it_does_not_process_chargeback_for_non_existent_transaction() {
    let mut processor = new_processor();

    let deposit = Deposit::new(1, 1, Amount::new(10000, 4));
    let dispute = Dispute::new(deposit.client_id, 1);
    let chargeback = Chargeback::new(deposit.client_id, 2);

    processor.process_transaction(Transaction::Deposit(deposit)).unwrap();
    processor.process_transaction(Transaction::Dispute(dispute)).unwrap();
    processor.process_transaction(Transaction::Chargeback(chargeback)).unwrap();

    let account = processor.account_repository.get_account_by_client(1);

    assert_eq!(account.client_id, 1);
    assert_eq!(account.total, Amount::new(10000, 4));
    assert_eq!(account.available, Amount::new(0, 4));
    assert_eq!(account.held, Amount::new(10000, 4));
    assert_eq!(account.locked, false);
}

#[test]
fn it_does_not_process_chargeback_for_locked_account() {
    let mut processor = new_processor();

    let deposit = Deposit::new(1, 1, Amount::new(10000, 4));
    let dispute = Dispute::new(deposit.client_id, 1);
    let chargeback = Chargeback::new(deposit.client_id, 1);

    processor.process_transaction(Transaction::Deposit(deposit)).unwrap();
    processor.process_transaction(Transaction::Dispute(dispute)).unwrap();

    let mut account = processor.account_repository.get_account_by_client(1);

    account.locked = true;

    processor.account_repository.set_account(account);

    processor.process_transaction(Transaction::Chargeback(chargeback)).unwrap();

    let account = processor.account_repository.get_account_by_client(1);

    assert_eq!(account.client_id, 1);
    assert_eq!(account.total, Amount::new(10000, 4));
    assert_eq!(account.available, Amount::new(0, 4));
    assert_eq!(account.held, Amount::new(10000, 4));
    assert_eq!(account.locked, true);
}

#[test]
fn it_returns_error_if_chargeback_clientid_does_not_match_original_transaction() {
    let mut processor = new_processor();

    let deposit = Deposit::new(1, 1, Amount::new(10000, 4));
    let dispute = Dispute::new(deposit.client_id, 1);
    let chargeback = Chargeback::new(2, 1);

    processor.process_transaction(Transaction::Deposit(deposit)).unwrap();

    processor.process_transaction(Transaction::Dispute(dispute)).unwrap();

    let result = processor.process_transaction(Transaction::Chargeback(chargeback));

    assert!(result.is_err());
}

#[test]
fn mismatch_error_names_the_deposit_client_and_the_transaction() {
    let mut processor = new_processor();

    processor.process_transaction(Transaction::Deposit(Deposit::new(1, 5, Amount::new(3, 0)))).unwrap();

    let result = processor.process_transaction(Transaction::Resolve(Resolve::new(2, 5)));

    assert_eq!(result, Err(ProcessError::ClientMismatch { deposit_client_id: 1, transaction_id: 5 }));
    // the refused transaction still looked up (and so created) the account of client 2
    let account = processor.account_repository.get_account_by_client(2);
    assert_eq!(account.total, Amount::zero());
    assert_eq!(processor.account_repository.get_accounts().len(), 2);
}

#[test]
fn withdrawal_beyond_available_funds_of_unlocked_account_is_ignored() {
    let mut processor = new_processor();

    processor.process_transaction(Transaction::Deposit(Deposit::new(7, 1, Amount::new(15, 1)))).unwrap();
    processor.process_transaction(Transaction::Withdrawal(Withdrawal::new(7, 2, Amount::new(2, 0)))).unwrap();

    let account = processor.account_repository.get_account_by_client(7);
    assert_eq!(account.available, Amount::new(15, 1));
    assert_eq!(account.total, Amount::new(150, 2));

    processor.process_transaction(Transaction::Withdrawal(Withdrawal::new(7, 3, Amount::new(15, 1)))).unwrap();
    let account = processor.account_repository.get_account_by_client(7);
    assert_eq!(account.available, Amount::zero());
    assert_eq!(account.total, Amount::zero());
}

#[test]
fn chargeback_locks_the_account_against_later_deposits() {
    let mut processor = new_processor();

    processor.process_transaction(Transaction::Deposit(Deposit::new(1, 1, Amount::new(10, 0)))).unwrap();
    processor.process_transaction(Transaction::Deposit(Deposit::new(1, 2, Amount::new(5, 0)))).unwrap();
    processor.process_transaction(Transaction::Dispute(Dispute::new(1, 1))).unwrap();
    processor.process_transaction(Transaction::Chargeback(Chargeback::new(1, 1))).unwrap();
    processor.process_transaction(Transaction::Deposit(Deposit::new(1, 3, Amount::new(100, 0)))).unwrap();

    let account = processor.account_repository.get_account_by_client(1);
    assert!(account.locked);
    assert_eq!(account.available, Amount::new(5, 0));
    assert_eq!(account.held, Amount::zero());
    assert_eq!(account.total, Amount::new(5, 0));
    assert!(processor.transaction_repository.get_transaction_by_id(3).is_none());
}

#[test]
fn resolve_or_chargeback_of_undisputed_deposit_changes_nothing() {
    let mut processor = new_processor();

    processor.process_transaction(Transaction::Deposit(Deposit::new(1, 1, Amount::new(10, 0)))).unwrap();
    processor.process_transaction(Transaction::Resolve(Resolve::new(1, 1))).unwrap();
    processor.process_transaction(Transaction::Chargeback(Chargeback::new(1, 1))).unwrap();

    let account = processor.account_repository.get_account_by_client(1);
    assert!(!account.locked);
    assert_eq!(account.available, Amount::new(10, 0));
    assert_eq!(account.held, Amount::zero());

    processor.process_transaction(Transaction::Dispute(Dispute::new(1, 1))).unwrap();
    processor.process_transaction(Transaction::Resolve(Resolve::new(1, 1))).unwrap();
    // a resolved deposit is no longer under dispute
    processor.process_transaction(Transaction::Chargeback(Chargeback::new(1, 1))).unwrap();

    let account = processor.account_repository.get_account_by_client(1);
    assert!(!account.locked);
    assert_eq!(account.available, Amount::new(10, 0));
    assert_eq!(account.total, Amount::new(10, 0));
}

#[test]
fn accounts_stay_balanced_through_a_sequence() {
    let mut processor = new_processor();
    let transactions = vec![
        Transaction::Deposit(Deposit::new(1, 1, Amount::new(12345, 4))),
        Transaction::Deposit(Deposit::new(2, 2, Amount::new(2, 0))),
        Transaction::Withdrawal(Withdrawal::new(1, 3, Amount::new(5, 1))),
        Transaction::Dispute(Dispute::new(1, 1)),
        Transaction::Deposit(Deposit::new(1, 4, Amount::new(1, 2))),
        Transaction::Resolve(Resolve::new(1, 1)),
        Transaction::Dispute(Dispute::new(2, 2)),
        Transaction::Chargeback(Chargeback::new(2, 2)),
    ];
    for transaction in transactions {
        processor.process_transaction(transaction).unwrap();
    }
    for account in processor.account_repository.get_accounts() {
        let sum = account.available.checked_add(account.held).unwrap();
        assert_eq!(account.total, sum);
    }
    let first = processor.account_repository.get_account_by_client(1);
    assert_eq!(first.available, Amount::new(7445, 4));
    let second = processor.account_repository.get_account_by_client(2);
    assert_eq!(second.total, Amount::zero());
    assert!(second.locked);
}

#[test]
fn try_process_refuses_an_overflowing_deposit_and_changes_nothing() {
    let mut processor = new_processor();
    let full = Account {
        client_id: 9,
        available: Amount::from_i128_with_scale(79228162514264337593543950335, 0),
        held: Amount::zero(),
        total: Amount::from_i128_with_scale(79228162514264337593543950335, 0),
        locked: false,
    };
    processor.account_repository.set_account(full);

    let result = processor.try_process_transaction(Transaction::Deposit(Deposit::new(9, 1, Amount::new(1, 0))));
    assert!(result.is_none());
    let account = processor.account_repository.get_account_by_client(9);
    assert_eq!(account.available.mantissa(), 79228162514264337593543950335);
    assert!(processor.transaction_repository.get_transaction_by_id(1).is_none());

    let result = processor.try_process_transaction(Transaction::Withdrawal(Withdrawal::new(9, 2, Amount::new(1, 0))));
    assert_eq!(result, Some(Ok(())));
    let account = processor.account_repository.get_account_by_client(9);
    assert_eq!(account.available.mantissa(), 79228162514264337593543950334);
}

#[test]
fn try_process_of_unknown_client_dispute_creates_the_account() {
    let mut processor = new_processor();
    let result = processor.try_process_transaction(Transaction::Dispute(Dispute::new(4, 7)));
    assert_eq!(result, Some(Ok(())));
    let accounts = processor.account_repository.get_accounts();
    assert_eq!(accounts.len(), 1);
    assert_eq!(accounts[0].client_id, 4);
    assert_eq!(accounts[0].available, Amount::zero());
    assert!(!accounts[0].locked);
}

#[test]
fn deposit_is_recorded_for_later_dispute() {
    let mut processor = new_processor();

    processor.process_transaction(Transaction::Deposit(Deposit::new(3, 42, Amount::new(7, 1)))).unwrap();

    match processor.transaction_repository.get_transaction_by_id(42) {
        Some(payment_processor::transaction_repository::StoredTransaction::Deposit(deposit)) => {
            assert_eq!(deposit.client_id, 3);
            assert_eq!(deposit.amount, Amount::new(7, 1));
            assert!(deposit.state.is_none());
        }
        None => panic!("expected the deposit to be recorded"),
    }
    // a withdrawal is not recorded
    processor.process_transaction(Transaction::Withdrawal(Withdrawal::new(3, 43, Amount::new(1, 1)))).unwrap();
    assert!(processor.transaction_repository.get_transaction_by_id(43).is_none());
}

#[test]
fn looking_up_an_account_twice_creates_it_once() {
    let mut repository = InMemoryAccountRepository::new();
    let first = repository.get_account_by_client(6);
    let second = repository.get_account_by_client(6);
    assert_eq!(first.client_id, second.client_id);
    assert_eq!(first.total, second.total);
    assert_eq!(repository.get_accounts().len(), 1);
}
