//! An in-memory retail ledger: a customer roster and a product catalog,
//! indexed positionally, with an atomic purchase operation that validates
//! bounds, stock and balance before committing a stock/balance transfer.

pub mod market;

pub mod laws;
