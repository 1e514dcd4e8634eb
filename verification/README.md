# Payment Processor

A payment processor for client accounts: deposits, withdrawals, and disputes of
deposits that are then resolved or charged back. The library under `src/` is
written in Verus and proved against its contracts; `app/` reads transactions
from a CSV file, processes them in order, and prints the accounts as CSV:

```
cargo run -- transactions.csv > accounts.csv
```

Layout of `src/`:

- `amount.rs`: decimal amounts; sums, differences and comparisons are computed
  by `rust_decimal` through a few trusted functions at the end of the file.
- `account.rs`: an account and its five movements of money.
- `transaction.rs`: the transaction types, and the parsing of a raw record.
- `account_repository.rs`, `transaction_repository.rs`: the in-memory stores.
- `payment_processor.rs`: `step`, which states what one transaction does to the
  stores, `process_transaction`, proved to do it, and the laws of the processor.
