//! Marker types that give each record kind its own identifier type:
//! `EntityId<kinds::Vendor>` can never stand where an
//! `EntityId<kinds::PurchaseOrder>` is expected.

use vstd::prelude::*;

verus! {

/// Identifies `Concession` records.
#[derive(Debug, Clone, Copy, PartialEq, Eq)]
pub struct Concession;

/// Identifies `FeeHead` records.
#[derive(Debug, Clone, Copy, PartialEq, Eq)]
pub struct FeeHead;

/// Identifies `FeeStructure` records.
#[derive(Debug, Clone, Copy, PartialEq, Eq)]
pub struct FeeStructure;

/// Identifies `GoodsReceiptNote` records.
#[derive(Debug, Clone, Copy, PartialEq, Eq)]
pub struct GoodsReceiptNote;

/// Identifies `InstallmentPlan` records.
#[derive(Debug, Clone, Copy, PartialEq, Eq)]
pub struct InstallmentPlan;

/// Identifies `PaymentReceipt` records.
#[derive(Debug, Clone, Copy, PartialEq, Eq)]
pub struct PaymentReceipt;

/// Identifies `PurchaseOrder` records.
#[derive(Debug, Clone, Copy, PartialEq, Eq)]
pub struct PurchaseOrder;

/// Identifies `Refund` records.
#[derive(Debug, Clone, Copy, PartialEq, Eq)]
pub struct Refund;

/// Identifies `ScholarshipScheme` records.
#[derive(Debug, Clone, Copy, PartialEq, Eq)]
pub struct ScholarshipScheme;

/// Identifies `Section197Certificate` records.
#[derive(Debug, Clone, Copy, PartialEq, Eq)]
pub struct Section197Certificate;

/// Identifies `SecurityDeposit` records.
#[derive(Debug, Clone, Copy, PartialEq, Eq)]
pub struct SecurityDeposit;

/// Identifies `StudentFeeAccount` records.
#[derive(Debug, Clone, Copy, PartialEq, Eq)]
pub struct StudentFeeAccount;

/// Identifies `StudentScholarship` records.
#[derive(Debug, Clone, Copy, PartialEq, Eq)]
pub struct StudentScholarship;

/// Identifies `TdsDeduction` records.
#[derive(Debug, Clone, Copy, PartialEq, Eq)]
pub struct TdsDeduction;

/// Identifies `Vendor` records.
#[derive(Debug, Clone, Copy, PartialEq, Eq)]
pub struct Vendor;

/// Identifies `VendorBankAccount` records.
#[derive(Debug, Clone, Copy, PartialEq, Eq)]
pub struct VendorBankAccount;

/// Identifies `VendorInvoice` records.
#[derive(Debug, Clone, Copy, PartialEq, Eq)]
pub struct VendorInvoice;

/// Identifies `VendorPayment` records.
#[derive(Debug, Clone, Copy, PartialEq, Eq)]
pub struct VendorPayment;

} // verus!
