//! SutraERP domain library: money, shared error and identity types, the
//! accounts-payable and accounts-receivable rules, the event outbox state
//! machine and the authentication helpers, each with a machine-checked
//! contract.

pub mod text;
pub mod money;
pub mod decimal;
pub mod error;
pub mod identity;
pub mod kinds;
pub mod journal;
pub mod outbox;
pub mod auth;
pub mod payables;
pub mod receivables;
