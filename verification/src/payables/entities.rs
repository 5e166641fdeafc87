//! The accounts-payable records: vendors and their certificates and bank
//! accounts, purchase orders, goods receipts, vendor invoices and payments.

use vstd::prelude::*;
use crate::decimal::DecimalValue;
use crate::identity::{AuditInfo, EntityId, TenantId, Timestamp};
use crate::kinds;
use crate::money::Money;
use crate::payables::models::{
    BankAccountType, BankValidationStatus, GrnStatus, GstinStatus, InvoiceStatus, MatchingStatus,
    MsmeType, PanStatus, PaymentMode, PaymentStatus, PaymentType, PoStatus, RegistrationType,
    TaxType, TdsDepositStatus, VendorType, VpStatus,
};

verus! {

/// Vendor aggregate root.
#[derive(Debug, Clone)]
pub struct Vendor {
    pub vendor_id: EntityId<kinds::Vendor>,
    pub tenant_id: TenantId,
    pub entity_id: Option<uuid::Uuid>,
    pub vendor_code: String,
    pub vendor_name: String,
    pub vendor_type: VendorType,
    pub pan: Option<String>,
    pub pan_status: PanStatus,
    pub gstin: Option<String>,
    pub gstin_status: GstinStatus,
    pub gst_composition_scheme: bool,
    pub registration_type: RegistrationType,
    pub contact_person: Option<String>,
    pub contact_email: Option<String>,
    pub contact_phone: Option<String>,
    pub address_line1: Option<String>,
    pub address_line2: Option<String>,
    pub city: Option<String>,
    pub state: Option<String>,
    pub pincode: Option<String>,
    pub payment_terms: i32,
    pub default_tds_section: Option<String>,
    pub tds_applicable: bool,
    pub tax_applicable: bool,
    pub is_active: bool,
    pub is_blacklisted: bool,
    pub blacklist_reason: Option<String>,
    pub msme_reg_number: Option<String>,
    pub msme_type: Option<MsmeType>,
    pub section_197_certificates: Vec<Section197Certificate>,
    pub bank_accounts: Vec<VendorBankAccount>,
    pub audit: AuditInfo,
}

/// Section 197 lower/nil deduction certificate.
#[derive(Debug, Clone)]
pub struct Section197Certificate {
    pub certificate_id: EntityId<kinds::Section197Certificate>,
    pub tenant_id: TenantId,
    pub vendor_id: EntityId<kinds::Vendor>,
    pub certificate_no: String,
    pub section: String,
    pub specified_rate: DecimalValue,
    pub issued_by: Option<String>,
    pub valid_from: chrono::NaiveDate,
    pub valid_to: chrono::NaiveDate,
    pub is_active: bool,
    pub document_url: Option<String>,
    pub audit: AuditInfo,
}

/// Vendor bank account.
#[derive(Debug, Clone)]
pub struct VendorBankAccount {
    pub vendor_bank_account_id: EntityId<kinds::VendorBankAccount>,
    pub tenant_id: TenantId,
    pub vendor_id: EntityId<kinds::Vendor>,
    pub account_number: String,
    pub ifsc_code: String,
    pub bank_name: String,
    pub branch_name: Option<String>,
    pub account_type: BankAccountType,
    pub is_primary: bool,
    pub validation_status: BankValidationStatus,
    pub penny_drop_amount: Option<Money>,
    pub audit: AuditInfo,
}

/// Purchase Order aggregate root.
#[derive(Debug, Clone)]
pub struct PurchaseOrder {
    pub purchase_order_id: EntityId<kinds::PurchaseOrder>,
    pub tenant_id: TenantId,
    pub entity_id: uuid::Uuid,
    pub po_number: String,
    pub vendor_id: uuid::Uuid,
    pub purchase_requisition_id: Option<uuid::Uuid>,
    pub order_date: chrono::NaiveDate,
    pub delivery_date: Option<chrono::NaiveDate>,
    pub payment_terms: Option<String>,
    pub status: PoStatus,
    pub total_amount: Money,
    pub tax_amount: Money,
    pub net_amount: Money,
    pub is_rcm_applicable: bool,
    pub tds_section: Option<String>,
    pub tds_rate: Option<DecimalValue>,
    pub fund_id: Option<uuid::Uuid>,
    pub budget_head_id: Option<uuid::Uuid>,
    pub issued_by_id: Option<uuid::Uuid>,
    pub approved_by_id: Option<uuid::Uuid>,
    pub lines: Vec<PurchaseOrderLine>,
    pub audit: AuditInfo,
}

/// A line item within a purchase order.
#[derive(Debug, Clone)]
pub struct PurchaseOrderLine {
    pub po_line_id: uuid::Uuid,
    pub purchase_order_id: EntityId<kinds::PurchaseOrder>,
    pub line_number: i32,
    pub item_description: String,
    pub hsn_sac_code: Option<String>,
    pub quantity: DecimalValue,
    pub unit_price: Money,
    pub discount_percent: Option<DecimalValue>,
    pub tax_rate: Option<DecimalValue>,
    pub tax_type: Option<TaxType>,
    pub total_amount: Money,
    pub received_quantity: DecimalValue,
    pub account_id: uuid::Uuid,
    pub cost_center_id: Option<uuid::Uuid>,
    pub rcm_applicable: bool,
}

/// Goods Receipt Note — records receipt of goods/services against a purchase order.
#[derive(Debug, Clone)]
pub struct GoodsReceiptNote {
    pub goods_receipt_note_id: EntityId<kinds::GoodsReceiptNote>,
    pub tenant_id: TenantId,
    pub grn_number: String,
    pub purchase_order_id: uuid::Uuid,
    pub received_date: chrono::NaiveDate,
    pub received_by_id: Option<uuid::Uuid>,
    pub status: GrnStatus,
    pub remarks: Option<String>,
    pub lines: Vec<GoodsReceiptNoteLine>,
    pub audit: AuditInfo,
}

/// A line item within a GRN.
#[derive(Debug, Clone)]
pub struct GoodsReceiptNoteLine {
    pub grn_line_id: uuid::Uuid,
    pub goods_receipt_note_id: EntityId<kinds::GoodsReceiptNote>,
    pub po_line_id: uuid::Uuid,
    pub received_quantity: DecimalValue,
    pub accepted_quantity: DecimalValue,
    pub rejected_quantity: DecimalValue,
    pub rejection_reason: Option<String>,
}

/// Vendor Invoice aggregate root.
#[derive(Debug, Clone)]
pub struct VendorInvoice {
    pub vendor_invoice_id: EntityId<kinds::VendorInvoice>,
    pub tenant_id: TenantId,
    pub entity_id: uuid::Uuid,
    pub invoice_number: String,
    pub invoice_date: chrono::NaiveDate,
    pub purchase_order_id: Option<uuid::Uuid>,
    pub goods_receipt_note_id: Option<uuid::Uuid>,
    pub vendor_id: uuid::Uuid,
    pub invoice_amount: Money,
    pub tax_amount: Money,
    pub net_amount: Money,
    pub tds_amount: Money,
    pub is_rcm: bool,
    pub rcm_payable_amount: Option<Money>,
    pub matching_status: MatchingStatus,
    pub status: InvoiceStatus,
    pub payment_status: PaymentStatus,
    pub due_date: chrono::NaiveDate,
    pub posted_journal_id: Option<uuid::Uuid>,
    pub approved_by_id: Option<uuid::Uuid>,
    pub lines: Vec<InvoiceLine>,
    pub audit: AuditInfo,
}

/// A line item within a vendor invoice.
#[derive(Debug, Clone)]
pub struct InvoiceLine {
    pub invoice_line_id: uuid::Uuid,
    pub vendor_invoice_id: EntityId<kinds::VendorInvoice>,
    pub po_line_id: Option<uuid::Uuid>,
    pub line_number: i32,
    pub item_description: String,
    pub quantity: DecimalValue,
    pub unit_price: Money,
    pub tax_rate: Option<DecimalValue>,
    pub tax_amount: Option<Money>,
    pub total_amount: Money,
    pub account_id: uuid::Uuid,
    pub cost_center_id: Option<uuid::Uuid>,
}

/// Vendor Payment aggregate root.
#[derive(Debug, Clone)]
pub struct VendorPayment {
    pub payment_id: EntityId<kinds::VendorPayment>,
    pub tenant_id: TenantId,
    pub entity_id: uuid::Uuid,
    pub payment_number: String,
    pub vendor_id: uuid::Uuid,
    pub payment_type: PaymentType,
    pub payment_mode: PaymentMode,
    pub payment_date: chrono::NaiveDate,
    pub amount: Money,
    pub tds_amount: Money,
    pub net_amount: Money,
    pub status: VpStatus,
    pub bank_account_id: Option<uuid::Uuid>,
    pub bank_transaction_ref: Option<String>,
    pub cheque_number: Option<String>,
    pub cheque_date: Option<chrono::NaiveDate>,
    pub approved_by_id: Option<uuid::Uuid>,
    pub processed_by_id: Option<uuid::Uuid>,
    pub payment_journal_id: Option<uuid::Uuid>,
    pub remarks: Option<String>,
    pub allocations: Vec<PaymentAllocation>,
    pub audit: AuditInfo,
}

/// Allocation of a payment to a specific vendor invoice.
#[derive(Debug, Clone)]
pub struct PaymentAllocation {
    pub vendor_payment_alloc_id: uuid::Uuid,
    pub payment_id: EntityId<kinds::VendorPayment>,
    pub invoice_id: uuid::Uuid,
    pub allocated_amount: Money,
    pub tds_amount: Money,
}

/// TDS deduction record.
#[derive(Debug, Clone)]
pub struct TdsDeduction {
    pub tds_deduction_id: EntityId<kinds::TdsDeduction>,
    pub tenant_id: TenantId,
    pub payment_id: EntityId<kinds::VendorPayment>,
    pub section: String,
    pub rate: DecimalValue,
    pub tds_amount: Money,
    pub pan_of_deductee: Option<String>,
    pub section_197_certificate_id: Option<uuid::Uuid>,
    pub tds_deposit_status: TdsDepositStatus,
    pub tds_deposit_date: Option<chrono::NaiveDate>,
    pub tds_return_filed_date: Option<chrono::NaiveDate>,
    pub tds_journal_id: Option<uuid::Uuid>,
    pub audit: AuditInfo,
}

} // verus!
