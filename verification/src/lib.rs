//! An atomic, single-transaction pipeline that mints a unique non-fungible
//! token: it provisions a new mint record, initializes it as a zero-decimal
//! token class, provisions the holding account owned by the target wallet,
//! and mints the single unit of supply into that holding account.

pub mod errors;
pub mod instructions;
pub mod laws;
pub mod ledger;
pub mod pipeline;
pub mod steps;
