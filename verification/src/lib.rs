//! A payment processor: client accounts that take deposits and withdrawals,
//! and deposits that can be disputed, resolved or charged back.

pub mod amount;
pub mod transaction;
pub mod account;
pub mod account_repository;
pub mod transaction_repository;
pub mod payment_processor;
