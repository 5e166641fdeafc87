//! Accounts payable: vendors, purchase orders, goods receipts, vendor
//! invoices and vendor payments.

pub mod models;
pub mod commands;
pub mod queries;
pub mod requests;
pub mod entities;
