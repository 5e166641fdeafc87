//! Accounts receivable: student fee accounts, payments, concessions,
//! scholarships and refunds.

pub mod models;
pub mod commands;
pub mod maha_dbt;
pub mod entities;
