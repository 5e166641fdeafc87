//! Query filters for the accounts-payable listings.

use vstd::prelude::*;

verus! {

/// Filter for listing vendors; every field that is `Some` narrows the list.
#[derive(Debug, Clone)]
pub struct VendorFilter {
    pub search: Option<String>,
    pub vendor_type: Option<String>,
    pub is_active: Option<bool>,
    pub is_blacklisted: Option<bool>,
    pub has_gstin: Option<bool>,
    pub pan: Option<String>,
}

/// Filter for listing purchase orders.
#[derive(Debug, Clone)]
pub struct PoFilter {
    pub vendor_id: Option<uuid::Uuid>,
    pub status: Option<String>,
    pub from_date: Option<String>,
    pub to_date: Option<String>,
    pub po_number: Option<String>,
}

/// Filter for listing vendor invoices.
#[derive(Debug, Clone)]
pub struct InvoiceFilter {
    pub vendor_id: Option<uuid::Uuid>,
    pub purchase_order_id: Option<uuid::Uuid>,
    pub status: Option<String>,
    pub payment_status: Option<String>,
    pub from_date: Option<String>,
    pub to_date: Option<String>,
}

/// Filter for the TDS deductions register.
#[derive(Debug, Clone)]
pub struct TdsDeductionFilter {
    pub from_date: Option<String>,
    pub to_date: Option<String>,
    pub section: Option<String>,
    pub vendor_id: Option<uuid::Uuid>,
    pub deposit_status: Option<String>,
}

} // verus!
