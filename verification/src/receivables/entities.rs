//! The accounts-receivable records: concessions, fee heads and structures,
//! installment plans, payment receipts, refunds, scholarships, security
//! deposits and student fee accounts.

use vstd::prelude::*;
use crate::decimal::DecimalValue;
use crate::identity::{AuditInfo, EntityId, TenantId, Timestamp};
use crate::kinds;
use crate::money::{in_paise_range, Money};
use crate::receivables::commands::{at_least_zero, max_scale, percentages_addable, percentages_sum_to_hundred, scaled_total};
use crate::text::pow10;
use crate::receivables::models::{
    ConcessionStatus, ConcessionType, FeeAccountStatus, FeeStructureStatus, FeeTransactionType,
    FeeType, FundingSource, GstClassification, InstallmentStatus, PaymentMode, ReceiptStatus,
    RefundMode, RefundStatus, ScholarshipCategory, ScholarshipStatus,
};

verus! {

/// A fee concession granted to a student.
#[derive(Debug, Clone)]
pub struct Concession {
    pub concession_id: EntityId<kinds::Concession>,
    pub tenant_id: TenantId,
    pub student_id: uuid::Uuid,
    pub student_fee_account_id: Option<EntityId<kinds::StudentFeeAccount>>,
    pub fee_head_id: Option<EntityId<kinds::FeeHead>>,
    pub concession_type: ConcessionType,
    pub value: DecimalValue,
    pub calculated_amount: Money,
    pub reason: String,
    pub approved_by: Option<uuid::Uuid>,
    pub status: ConcessionStatus,
    pub audit: AuditInfo,
}

/// A fee head defines a chargeable line item in the fee catalog.
#[derive(Debug, Clone)]
pub struct FeeHead {
    pub fee_head_id: EntityId<kinds::FeeHead>,
    pub tenant_id: TenantId,
    pub code: String,
    pub name: String,
    pub fee_type: FeeType,
    pub gst_classification: GstClassification,
    pub sac_code: Option<String>,
    pub is_refundable: bool,
    pub audit: AuditInfo,
}

/// A `FeeStructure` record.
#[derive(Debug, Clone)]
pub struct FeeStructure {
    pub fee_structure_id: EntityId<kinds::FeeStructure>,
    pub tenant_id: TenantId,
    pub entity_id: uuid::Uuid,
    pub name: String,
    pub program_id: Option<uuid::Uuid>,
    pub batch: Option<String>,
    pub academic_year: String,
    pub semester: Option<String>,
    pub effective_from: chrono::NaiveDate,
    pub effective_to: Option<chrono::NaiveDate>,
    pub status: FeeStructureStatus,
    pub frc_approval_number: Option<String>,
    pub frc_approved_amount: Option<Money>,
    pub lines: Vec<FeeStructureLine>,
    pub audit: AuditInfo,
}

/// A `FeeStructureLine` record.
#[derive(Debug, Clone)]
pub struct FeeStructureLine {
    pub fee_structure_line_id: uuid::Uuid,
    pub fee_head_id: EntityId<kinds::FeeHead>,
    pub amount: Money,
    pub installment_plan_id: Option<EntityId<kinds::InstallmentPlan>>,
    pub is_mandatory: bool,
    pub gst_rate: Option<DecimalValue>,
}

/// A single installment within a plan.
#[derive(Debug, Clone)]
pub struct InstallmentSlot {
    pub number: i32,
    pub percentage: DecimalValue,
    pub due_date: chrono::NaiveDate,
}

/// An installment plan defines the number and timing of fee installments.
#[derive(Debug, Clone)]
pub struct InstallmentPlan {
    pub installment_plan_id: EntityId<kinds::InstallmentPlan>,
    pub tenant_id: TenantId,
    pub name: String,
    pub fee_structure_id: Option<EntityId<kinds::FeeStructure>>,
    pub slots: Vec<InstallmentSlot>,
    pub audit: AuditInfo,
}

/// A `PaymentReceipt` record.
#[derive(Debug, Clone)]
pub struct PaymentReceipt {
    pub payment_receipt_id: EntityId<kinds::PaymentReceipt>,
    pub tenant_id: TenantId,
    pub entity_id: uuid::Uuid,
    pub receipt_number: String,
    pub student_id: uuid::Uuid,
    pub student_fee_account_id: Option<uuid::Uuid>,
    pub payment_mode: PaymentMode,
    pub payment_date: Timestamp,
    pub amount: Money,
    pub status: ReceiptStatus,
    pub gateway_payment_id: Option<String>,
    pub gateway_reference: Option<String>,
    pub bank_transaction_ref: Option<String>,
    pub cheque_number: Option<String>,
    pub cheque_date: Option<chrono::NaiveDate>,
    pub cleared_date: Option<chrono::NaiveDate>,
    pub remarks: Option<String>,
    pub received_by_id: uuid::Uuid,
    pub payment_journal_id: Option<uuid::Uuid>,
    pub version: i32,
    pub audit: AuditInfo,
}

/// A student fee refund record.
#[derive(Debug, Clone)]
pub struct Refund {
    pub refund_id: EntityId<kinds::Refund>,
    pub tenant_id: TenantId,
    pub student_id: Option<uuid::Uuid>,
    pub amount: Money,
    pub refund_reason: String,
    pub frc_compliant_pct: Option<DecimalValue>,
    pub refund_mode: RefundMode,
    pub status: RefundStatus,
    pub linked_payment_id: Option<uuid::Uuid>,
    pub reversal_journal_id: Option<uuid::Uuid>,
    pub approved_by: Option<uuid::Uuid>,
    pub approved_at: Option<Timestamp>,
    pub processed_at: Option<Timestamp>,
    pub bank_transaction_ref: Option<String>,
    pub audit: AuditInfo,
}

/// A scholarship scheme definition (e.g., PMS for SC, Rajarshi Shahu).
#[derive(Debug)]
pub struct ScholarshipScheme {
    pub scholarship_scheme_id: EntityId<kinds::ScholarshipScheme>,
    pub tenant_id: TenantId,
    pub name: String,
    pub code: String,
    pub category: ScholarshipCategory,
    pub funding_source: FundingSource,
    pub maha_dbt_scheme_code: Option<String>,
    pub max_amount: Money,
    pub eligibility_criteria: Option<serde_json::Value>,
    pub is_active: bool,
    pub requires_aadhaar: bool,
    pub requires_bank_account: bool,
    pub requires_income_cert: bool,
    pub requires_caste_cert: bool,
    pub audit: AuditInfo,
}

/// A student's scholarship application and its lifecycle.
#[derive(Debug, Clone)]
pub struct StudentScholarship {
    pub scholarship_id: EntityId<kinds::StudentScholarship>,
    pub tenant_id: TenantId,
    pub student_id: uuid::Uuid,
    pub scheme_id: EntityId<kinds::ScholarshipScheme>,
    pub student_fee_account_id: Option<EntityId<kinds::StudentFeeAccount>>,
    pub academic_year: String,
    pub expected_amount: Money,
    pub sanctioned_amount: Option<Money>,
    pub disbursed_amount: Option<Money>,
    pub status: ScholarshipStatus,
    pub maha_dbt_application_id: Option<String>,
    pub dbt_transaction_id: Option<String>,
    pub dbt_date: Option<Timestamp>,
    pub verified_by: Option<uuid::Uuid>,
    pub verified_at: Option<Timestamp>,
    pub sanctioned_by: Option<uuid::Uuid>,
    pub sanctioned_at: Option<Timestamp>,
    pub remarks: Option<String>,
    pub audit: AuditInfo,
}

/// A `SecurityDeposit` record.
#[derive(Debug, Clone)]
pub struct SecurityDeposit {
    pub security_deposit_id: EntityId<kinds::SecurityDeposit>,
    pub tenant_id: TenantId,
    pub student_id: uuid::Uuid,
    pub deposit_type: String,
    pub amount: Money,
    pub collection_date: chrono::NaiveDate,
    pub receipt_id: Option<uuid::Uuid>,
    pub interest_rate: Option<DecimalValue>,
    pub status: String,
    pub refund_date: Option<chrono::NaiveDate>,
    pub refund_amount: Option<Money>,
    pub deduction_amount: Option<Money>,
    pub deduction_reason: Option<String>,
    pub audit: AuditInfo,
}

/// The student's fee account — created when fees are assessed.
#[derive(Debug, Clone)]
pub struct StudentFeeAccount {
    pub student_fee_account_id: EntityId<kinds::StudentFeeAccount>,
    pub tenant_id: TenantId,
    pub student_id: uuid::Uuid,
    pub fee_structure_id: EntityId<kinds::FeeStructure>,
    pub academic_year: String,
    pub gross_fee: Money,
    pub scholarship_expected: Money,
    pub concession_amount: Money,
    pub net_payable: Money,
    pub total_paid: Money,
    pub outstanding: Money,
    pub status: FeeAccountStatus,
    pub installments: Vec<FeeInstallment>,
    pub transactions: Vec<FeeTransaction>,
    pub audit: AuditInfo,
}

/// An installment within a student's fee account.
#[derive(Debug, Clone)]
pub struct FeeInstallment {
    pub fee_installment_id: uuid::Uuid,
    pub student_fee_account_id: EntityId<kinds::StudentFeeAccount>,
    pub installment_number: i32,
    pub due_date: chrono::NaiveDate,
    pub amount: Money,
    pub paid_amount: Money,
    pub status: InstallmentStatus,
}

/// A financial transaction recorded against the student's fee account.
#[derive(Debug, Clone)]
pub struct FeeTransaction {
    pub fee_transaction_id: uuid::Uuid,
    pub student_fee_account_id: EntityId<kinds::StudentFeeAccount>,
    pub transaction_type: FeeTransactionType,
    pub amount: Money,
    pub payment_mode: Option<String>,
    pub receipt_number: Option<String>,
    pub gateway_transaction_id: Option<String>,
    pub linked_journal_id: Option<uuid::Uuid>,
    pub remarks: Option<String>,
    pub created_at: Timestamp,
    pub created_by: uuid::Uuid,
}

/// The percentages of installment slots, in order.
pub open spec fn slot_percentages(slots: Seq<InstallmentSlot>) -> Seq<DecimalValue> {
    slots.map_values(|slot: InstallmentSlot| slot.percentage)
}

impl InstallmentPlan {
    /// Whether the slot percentages add up to exactly 100.
    pub fn is_valid(&self) -> (r: bool)
        requires
            percentages_addable(slot_percentages(self.slots@)),
        ensures
            ({
                let ps = slot_percentages(self.slots@);
                r == (scaled_total(ps, max_scale(ps)) == 100 * pow10(max_scale(ps)))
            }),
    {
        let mut ps: Vec<DecimalValue> = Vec::new();
        let mut i: usize = 0;
        while i < self.slots.len()
            invariant
                i <= self.slots@.len(),
                ps@ == slot_percentages(self.slots@.take(i as int)),
            decreases self.slots@.len() - i,
        {
            ps.push(self.slots[i].percentage);
            i = i + 1;
            assert(slot_percentages(self.slots@.take(i as int)) =~= slot_percentages(
                self.slots@.take(i - 1),
            ).push(self.slots@[i - 1].percentage));
        }
        assert(self.slots@.take(self.slots@.len() as int) =~= self.slots@);
        percentages_sum_to_hundred(&ps)
    }
}

impl StudentFeeAccount {
    /// Recalculate the net payable and the outstanding amount from the
    /// constituent figures: the net payable is the gross fee less the
    /// expected scholarship and the concession, and the outstanding amount
    /// is what remains of it after payments, or zero. Nothing else changes.
    pub fn recalculate(&mut self)
        requires
            in_paise_range(old(self).gross_fee@ - old(self).scholarship_expected@),
            in_paise_range(old(self).gross_fee@ - old(self).scholarship_expected@
                - old(self).concession_amount@),
            old(self).gross_fee@ - old(self).scholarship_expected@ - old(self).concession_amount@
                > old(self).total_paid@ ==> in_paise_range(old(self).gross_fee@
                - old(self).scholarship_expected@ - old(self).concession_amount@
                - old(self).total_paid@),
        ensures
            final(self).net_payable@ == old(self).gross_fee@ - old(self).scholarship_expected@
                - old(self).concession_amount@,
            final(self).outstanding@ == at_least_zero(final(self).net_payable@ - old(self).total_paid@),
            *final(self) == (StudentFeeAccount {
                net_payable: final(self).net_payable,
                outstanding: final(self).outstanding,
                ..*old(self)
            }),
    {
        let net = self.gross_fee.as_paise() - self.scholarship_expected.as_paise()
            - self.concession_amount.as_paise();
        let paid = self.total_paid.as_paise();
        self.net_payable = Money::from_paise(net);
        self.outstanding = if net > paid {
            Money::from_paise(net - paid)
        } else {
            Money::zero()
        };
    }
}

} // verus!
