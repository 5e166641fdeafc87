//! The decisions of the payables command handlers: vendor checks, document
//! numbering, purchase order and invoice totals, state checks, goods receipt
//! completion, invoice matching outcome, invoice payment status and the
//! journals of invoice posting and payment processing. The handlers that
//! read and write the database call these functions with the rows they
//! loaded.

use vstd::prelude::*;
use crate::money::{in_paise_range, Money};
use crate::decimal::DecimalValue;
use crate::journal::{JournalLinePlan, balanced, credit_total, debit_total, numbered_in_order, line_debit, line_credit};
use crate::payables::models::{InvoiceStatus, MatchingStatus, PaymentStatus, PoStatus};
use crate::text::{concat2, concat3, owned, push_int_padded, str_eq, int_text, int_text_padded, nat_text};

verus! {

/// AP-specific errors (the database and ledger errors of the handlers are
/// added where those are reached).
#[derive(Debug)]
pub enum ApError {
    VendorNotFound(String),
    PONotFound(String),
    GrnNotFound(String),
    InvoiceNotFound(String),
    PaymentNotFound(String),
    VendorBlacklisted,
    InvalidState(String),
    Validation(String),
    Internal(String),
}

impl ApError {
    /// The error's text, naming what went wrong.
    pub fn to_string(&self) -> (s: String)
        ensures
            s@ == match self {
                ApError::VendorNotFound(m) => "vendor "@ + m@ + " not found"@,
                ApError::PONotFound(m) => "purchase order "@ + m@ + " not found"@,
                ApError::GrnNotFound(m) => "grn "@ + m@ + " not found"@,
                ApError::InvoiceNotFound(m) => "invoice "@ + m@ + " not found"@,
                ApError::PaymentNotFound(m) => "payment "@ + m@ + " not found"@,
                ApError::VendorBlacklisted => "vendor is blacklisted"@,
                ApError::InvalidState(m) => "invalid state transition: "@ + m@,
                ApError::Validation(m) => "validation error: "@ + m@,
                ApError::Internal(m) => "internal error: "@ + m@,
            },
    {
        match self {
            ApError::VendorNotFound(m) => concat3("vendor ", m.as_str(), " not found"),
            ApError::PONotFound(m) => concat3("purchase order ", m.as_str(), " not found"),
            ApError::GrnNotFound(m) => concat3("grn ", m.as_str(), " not found"),
            ApError::InvoiceNotFound(m) => concat3("invoice ", m.as_str(), " not found"),
            ApError::PaymentNotFound(m) => concat3("payment ", m.as_str(), " not found"),
            ApError::VendorBlacklisted => owned("vendor is blacklisted"),
            ApError::InvalidState(m) => concat2("invalid state transition: ", m.as_str()),
            ApError::Validation(m) => concat2("validation error: ", m.as_str()),
            ApError::Internal(m) => concat2("internal error: ", m.as_str()),
        }
    }
}

// ─── Vendor checks ─────────────────────────────────────────────────────

/// The vendor columns that purchase orders and payments check.
#[derive(Debug, Clone)]
pub struct VendorCheck {
    pub is_blacklisted: bool,
    pub is_active: bool,
    pub default_tds_section: Option<String>,
    pub registration_type: String,
    pub tds_applicable: bool,
}

/// A purchase order may be raised only on a vendor that exists, is not
/// blacklisted and is active (checked in that order).
pub fn check_vendor_for_purchase_order(vendor: &Option<VendorCheck>, vendor_id_text: &str) -> (r:
    Result<(), ApError>)
    ensures
        r is Ok <==> (vendor matches Some(v) && !v.is_blacklisted && v.is_active),
        vendor is None ==> (r matches Err(ApError::VendorNotFound(m)) && m@ == vendor_id_text@),
        vendor matches Some(v) && v.is_blacklisted ==> r matches Err(ApError::VendorBlacklisted),
        vendor matches Some(v) && !v.is_blacklisted && !v.is_active ==> (r matches Err(
            ApError::Validation(m),
        ) && m@ == "Vendor is not active"@),
{
    match vendor {
        None => Err(ApError::VendorNotFound(owned(vendor_id_text))),
        Some(v) => {
            if v.is_blacklisted {
                Err(ApError::VendorBlacklisted)
            } else if !v.is_active {
                Err(ApError::Validation(owned("Vendor is not active")))
            } else {
                Ok(())
            }
        },
    }
}

/// A payment may be made only to a vendor that exists and is active and
/// not blacklisted; an inactive or blacklisted vendor is refused as
/// blacklisted.
pub fn check_vendor_for_payment(vendor: &Option<VendorCheck>, vendor_id_text: &str) -> (r: Result<
    (),
    ApError,
>)
    ensures
        r is Ok <==> (vendor matches Some(v) && v.is_active && !v.is_blacklisted),
        vendor is None ==> (r matches Err(ApError::VendorNotFound(m)) && m@ == vendor_id_text@),
        vendor matches Some(v) && (!v.is_active || v.is_blacklisted) ==> r matches Err(
            ApError::VendorBlacklisted,
        ),
{
    match vendor {
        None => Err(ApError::VendorNotFound(owned(vendor_id_text))),
        Some(v) => {
            if !v.is_active || v.is_blacklisted {
                Err(ApError::VendorBlacklisted)
            } else {
                Ok(())
            }
        },
    }
}

/// Reverse charge applies to purchases from unregistered and composition
/// vendors.
pub fn is_rcm_registration(registration_type: &str) -> (r: bool)
    ensures
        r == (registration_type@ == "UNREGISTERED"@ || registration_type@ == "COMPOSITION"@),
{
    str_eq(registration_type, "UNREGISTERED") || str_eq(registration_type, "COMPOSITION")
}

/// The default TDS rate of a section, in percentage points.
pub open spec fn default_tds_rate(section: Seq<char>) -> Option<u32> {
    if section == "194C"@ {
        Some(2)
    } else if section == "194J"@ {
        Some(10)
    } else if section == "194I"@ {
        Some(2)
    } else if section == "194H"@ {
        Some(5)
    } else if section == "194A"@ {
        Some(10)
    } else if section == "194D"@ {
        Some(10)
    } else if section == "194G"@ {
        Some(5)
    } else {
        None
    }
}

/// The default TDS rate (percentage points) of a vendor's TDS section:
/// 194C 2, 194J 10, 194I 2, 194H 5, 194A 10, 194D 10, 194G 5; none for any
/// other section or when there is no section.
pub fn get_default_tds_rate(section: &Option<String>) -> (r: Option<u32>)
    ensures
        r == match section {
            Some(s) => default_tds_rate(s@),
            None => None,
        },
{
    match section {
        None => None,
        Some(s) => {
            let s = s.as_str();
            if str_eq(s, "194C") {
                Some(2)
            } else if str_eq(s, "194J") {
                Some(10)
            } else if str_eq(s, "194I") {
                Some(2)
            } else if str_eq(s, "194H") {
                Some(5)
            } else if str_eq(s, "194A") {
                Some(10)
            } else if str_eq(s, "194D") {
                Some(10)
            } else if str_eq(s, "194G") {
                Some(5)
            } else {
                None
            }
        },
    }
}

// ─── Document numbers ──────────────────────────────────────────────────

/// Remainder of `a` divided by a positive `m`, with the sign of `a` (as
/// Rust's `%` computes it).
pub open spec fn trunc_rem(a: int, m: int) -> int {
    if a >= 0 {
        a % m
    } else {
        -((-a) % m)
    }
}

/// The Indian fiscal year (April to March) of a date in `year`, `month`:
/// `2024-25` for April 2024 to March 2025.
pub open spec fn fiscal_year_text(year: int, month: int) -> Seq<char> {
    if month >= 4 {
        int_text(year) + "-"@ + int_text_padded(trunc_rem(year + 1, 100), 2)
    } else {
        int_text(year - 1) + "-"@ + int_text_padded(trunc_rem(year, 100), 2)
    }
}

/// The fiscal year runs April to March: a label starts with the year in
/// which its April falls, so April to December of `year` and January to
/// March of `year + 1` share one label, and a date in January to March
/// belongs to the fiscal year that began the April before.
pub proof fn lemma_fiscal_year_april_to_march(year: int, m_late: int, m_early: int)
    requires
        4 <= m_late <= 12,
        1 <= m_early <= 3,
    ensures
        fiscal_year_text(year, m_late) == fiscal_year_text(year + 1, m_early),
        fiscal_year_text(year, m_late).take(int_text(year).len() as int) == int_text(year),
        fiscal_year_text(year, m_early).take(int_text(year - 1).len() as int) == int_text(year - 1),
{
    assert(fiscal_year_text(year, m_late).take(int_text(year).len() as int) =~= int_text(year));
    assert(fiscal_year_text(year, m_early).take(int_text(year - 1).len() as int) =~= int_text(
        year - 1,
    ));
}

fn rem_100(a: i32) -> (r: i32)
    ensures
        r == trunc_rem(a as int, 100),
{
    if a >= 0 {
        a % 100
    } else if a == i32::MIN {
        -48
    } else {
        -((-a) % 100)
    }
}

/// The fiscal year label of a date given by its year and month (1-12).
pub fn fiscal_year_from_date(year: i32, month: u32) -> (r: String)
    requires
        i32::MIN < year < i32::MAX,
    ensures
        r@ == fiscal_year_text(year as int, month as int),
        month < 4 ==> r@ == int_text(year - 1) + "-"@ + int_text_padded(trunc_rem(year as int, 100), 2),
        month >= 4 ==> r@ == int_text(year as int) + "-"@ + int_text_padded(
            trunc_rem(year + 1, 100),
            2,
        ),
{
    let mut out = String::new();
    if month >= 4 {
        push_int_padded(&mut out, year as i64, 0);
        out.append("-");
        push_int_padded(&mut out, rem_100(year + 1) as i64, 2);
    } else {
        push_int_padded(&mut out, (year - 1) as i64, 0);
        out.append("-");
        push_int_padded(&mut out, rem_100(year) as i64, 2);
    }
    proof {
        let y = if month >= 4 { year as int } else { year - 1 };
        assert(int_text_padded(y, 0) =~= int_text(y));
    }
    assert(out@ =~= fiscal_year_text(year as int, month as int));
    out
}

/// `prefix` followed by `seq` zero-padded to six digits.
pub open spec fn numbered_text(prefix: Seq<char>, seq: int) -> Seq<char> {
    prefix + int_text_padded(seq, 6)
}

/// The purchase order number `PO-<fiscal year>-<sequence, 6 digits>`.
pub fn po_number(fiscal_year: &str, seq: i64) -> (r: String)
    ensures
        r@ == numbered_text("PO-"@ + fiscal_year@ + "-"@, seq as int),
{
    let mut out = concat3("PO-", fiscal_year, "-");
    push_int_padded(&mut out, seq, 6);
    out
}

/// The goods receipt note number `GRN-<sequence, 6 digits>`.
pub fn grn_number(seq: i64) -> (r: String)
    ensures
        r@ == numbered_text("GRN-"@, seq as int),
{
    let mut out = owned("GRN-");
    push_int_padded(&mut out, seq, 6);
    out
}

/// The vendor payment number `PAY-<sequence, 6 digits>`.
pub fn payment_number(seq: i64) -> (r: String)
    ensures
        r@ == numbered_text("PAY-"@, seq as int),
{
    let mut out = owned("PAY-");
    push_int_padded(&mut out, seq, 6);
    out
}

// ─── Purchase order and invoice totals ─────────────────────────────────

/// The amounts of one purchase order or invoice line: its total, and the
/// tax that its rate gives when the line carries a non-zero tax rate
/// (`None` when it carries none).
#[derive(Debug, Clone, Copy, PartialEq, Eq, Structural)]
pub struct LineAmounts {
    pub line_total: Money,
    pub rated_tax: Option<Money>,
}

/// The tax a line bears: none under reverse charge or without a rate.
pub open spec fn line_tax_of(l: LineAmounts, is_rcm: bool) -> int {
    match l.rated_tax {
        Some(t) => if is_rcm {
            0
        } else {
            t@
        },
        None => 0,
    }
}

/// Sum of the line totals of lines `..k`.
pub open spec fn lines_total(lines: Seq<LineAmounts>) -> int
    decreases lines.len(),
{
    if lines.len() == 0 {
        0
    } else {
        lines_total(lines.drop_last()) + lines.last().line_total@
    }
}

/// Sum of the taxes the lines bear.
pub open spec fn lines_tax(lines: Seq<LineAmounts>, is_rcm: bool) -> int
    decreases lines.len(),
{
    if lines.len() == 0 {
        0
    } else {
        lines_tax(lines.drop_last(), is_rcm) + line_tax_of(lines.last(), is_rcm)
    }
}

/// Every running total of line totals and of taxes fits in an `i64`.
pub open spec fn line_sums_in_range(lines: Seq<LineAmounts>, is_rcm: bool) -> bool {
    forall|k: int|
        0 <= k <= lines.len() ==> in_paise_range(#[trigger] lines_total(lines.take(k)))
            && in_paise_range(lines_tax(lines.take(k), is_rcm))
}

/// Totals of a purchase order or invoice.
#[derive(Debug, Clone, Copy, PartialEq, Eq, Structural)]
pub struct DocumentTotals {
    pub total_amount: Money,
    pub tax_amount: Money,
    pub net_amount: Money,
}

/// The tax an invoice line bears.
pub fn line_tax(line: &LineAmounts, is_rcm: bool) -> (t: Money)
    ensures
        t@ == line_tax_of(*line, is_rcm),
{
    match line.rated_tax {
        Some(t) => if is_rcm {
            Money::zero()
        } else {
            t
        },
        None => Money::zero(),
    }
}

fn sum_lines(lines: &Vec<LineAmounts>, is_rcm: bool) -> (r: (Money, Money))
    requires
        line_sums_in_range(lines@, is_rcm),
    ensures
        r.0@ == lines_total(lines@),
        r.1@ == lines_tax(lines@, is_rcm),
{
    let mut total: i64 = 0;
    let mut tax: i64 = 0;
    let mut i: usize = 0;
    assert(lines@.take(0) =~= Seq::<LineAmounts>::empty());
    while i < lines.len()
        invariant
            i <= lines@.len(),
            line_sums_in_range(lines@, is_rcm),
            total == lines_total(lines@.take(i as int)),
            tax == lines_tax(lines@.take(i as int), is_rcm),
        decreases lines@.len() - i,
    {
        assert(lines@.take(i + 1).drop_last() =~= lines@.take(i as int));
        assert(lines@.take(i + 1).last() == lines@[i as int]);
        assert(in_paise_range(lines_total(lines@.take(i + 1))));
        let t = line_tax(&lines[i], is_rcm);
        total = total + lines[i].line_total.as_paise();
        tax = tax + t.as_paise();
        i = i + 1;
    }
    assert(lines@.take(lines@.len() as int) =~= lines@);
    (Money::from_paise(total), Money::from_paise(tax))
}

/// Lines bought under reverse charge bear no tax on the document: the
/// vendor's tax is paid by the buyer, so the taxes sum to zero.
pub proof fn lemma_reverse_charge_bears_no_tax(lines: Seq<LineAmounts>)
    ensures
        lines_tax(lines, true) == 0,
    decreases lines.len(),
{
    if lines.len() > 0 {
        lemma_reverse_charge_bears_no_tax(lines.drop_last());
    }
}

/// Totals of a purchase order: the sum of line totals, the tax the lines
/// bear (none under reverse charge), and the net amount, which adds the tax
/// unless reverse charge applies.
pub fn purchase_order_totals(lines: &Vec<LineAmounts>, is_rcm: bool) -> (r: DocumentTotals)
    requires
        line_sums_in_range(lines@, is_rcm),
        in_paise_range(lines_total(lines@) + lines_tax(lines@, is_rcm)),
    ensures
        r.total_amount@ == lines_total(lines@),
        r.tax_amount@ == lines_tax(lines@, is_rcm),
        r.net_amount@ == if is_rcm {
            r.total_amount@
        } else {
            r.total_amount@ + r.tax_amount@
        },
{
    let (total, tax) = sum_lines(lines, is_rcm);
    let net = if is_rcm {
        total
    } else {
        Money::from_paise(total.as_paise() + tax.as_paise())
    };
    DocumentTotals { total_amount: total, tax_amount: tax, net_amount: net }
}

/// Totals of a vendor invoice: the sum of line totals, the tax the lines
/// bear (none under reverse charge) and the net amount, their sum.
pub fn vendor_invoice_totals(lines: &Vec<LineAmounts>, is_rcm: bool) -> (r: DocumentTotals)
    requires
        line_sums_in_range(lines@, is_rcm),
        in_paise_range(lines_total(lines@) + lines_tax(lines@, is_rcm)),
    ensures
        r.total_amount@ == lines_total(lines@),
        r.tax_amount@ == lines_tax(lines@, is_rcm),
        r.net_amount@ == r.total_amount@ + r.tax_amount@,
{
    let (total, tax) = sum_lines(lines, is_rcm);
    DocumentTotals {
        total_amount: total,
        tax_amount: tax,
        net_amount: Money::from_paise(total.as_paise() + tax.as_paise()),
    }
}

// ─── State checks ──────────────────────────────────────────────────────

/// A purchase order can be issued only from `DRAFT`.
pub fn check_po_issuable(status: &str) -> (r: Result<(), ApError>)
    ensures
        r is Ok <==> status@ == "DRAFT"@,
        r matches Err(e) ==> e matches ApError::Validation(m) && m@
            == "PO must be in DRAFT status to issue, current: "@ + status@,
{
    if !str_eq(status, "DRAFT") {
        return Err(
            ApError::Validation(concat2("PO must be in DRAFT status to issue, current: ", status)),
        );
    }
    Ok(())
}

/// Goods can be received only against a purchase order that is `ISSUED`,
/// `ACKNOWLEDGED` or `PARTIALLY_RECEIVED`.
pub fn check_po_receivable(status: &str) -> (r: Result<(), ApError>)
    ensures
        r is Ok <==> (status@ == "ISSUED"@ || status@ == "ACKNOWLEDGED"@ || status@
            == "PARTIALLY_RECEIVED"@),
        r matches Err(e) ==> e matches ApError::Validation(m) && m@
            == "PO must be ISSUED/PARTIALLY_RECEIVED to record GRN, current: "@ + status@,
{
    if !str_eq(status, "ISSUED") && !str_eq(status, "ACKNOWLEDGED") && !str_eq(
        status,
        "PARTIALLY_RECEIVED",
    ) {
        return Err(
            ApError::Validation(
                concat2("PO must be ISSUED/PARTIALLY_RECEIVED to record GRN, current: ", status),
            ),
        );
    }
    Ok(())
}

/// An invoice can be matched only while `DRAFT`.
pub fn check_invoice_matchable(status: &str) -> (r: Result<(), ApError>)
    ensures
        r is Ok <==> status@ == "DRAFT"@,
        r matches Err(e) ==> e matches ApError::Validation(m) && m@
            == "Invoice must be DRAFT for matching"@,
{
    if !str_eq(status, "DRAFT") {
        return Err(ApError::Validation(owned("Invoice must be DRAFT for matching")));
    }
    Ok(())
}

/// An invoice can be posted only while `MATCHED` or `APPROVED`.
pub fn check_invoice_postable(status: &str) -> (r: Result<(), ApError>)
    ensures
        r is Ok <==> (status@ == "MATCHED"@ || status@ == "APPROVED"@),
        r matches Err(e) ==> e matches ApError::Validation(m) && m@
            == "Invoice must be MATCHED/APPROVED to post, current: "@ + status@,
{
    if !str_eq(status, "MATCHED") && !str_eq(status, "APPROVED") {
        return Err(
            ApError::Validation(
                concat2("Invoice must be MATCHED/APPROVED to post, current: ", status),
            ),
        );
    }
    Ok(())
}

/// A payment can be processed only while `INITIATED` or `APPROVED`.
pub fn check_payment_processable(status: &str) -> (r: Result<(), ApError>)
    ensures
        r is Ok <==> (status@ == "INITIATED"@ || status@ == "APPROVED"@),
        r matches Err(e) ==> e matches ApError::Validation(m) && m@
            == "Payment must be INITIATED/APPROVED, current: "@ + status@,
{
    if !str_eq(status, "INITIATED") && !str_eq(status, "APPROVED") {
        return Err(
            ApError::Validation(concat2("Payment must be INITIATED/APPROVED, current: ", status)),
        );
    }
    Ok(())
}

// ─── Goods receipt ─────────────────────────────────────────────────────

/// An ordered line quantity and the quantity received against it so far.
#[derive(Debug, Clone, Copy, PartialEq, Eq, Structural)]
pub struct ReceiptProgress {
    pub ordered: DecimalValue,
    pub received: DecimalValue,
}

/// Every line has received at least what was ordered.
pub open spec fn all_received(lines: Seq<ReceiptProgress>) -> bool {
    forall|i: int| 0 <= i < lines.len() ==> !(#[trigger] lines[i]).received.less_than(lines[i].ordered)
}

/// The status of a purchase order after a goods receipt: fully received
/// once every line has received at least what was ordered, partially
/// received otherwise.
pub fn po_status_after_receipt(lines: &Vec<ReceiptProgress>) -> (s: PoStatus)
    requires
        forall|i: int| 0 <= i < lines@.len() ==> (#[trigger] lines@[i]).ordered.wf() && lines@[i].received.wf(),
    ensures
        s == if all_received(lines@) {
            PoStatus::FullyReceived
        } else {
            PoStatus::PartiallyReceived
        },
{
    let mut all = true;
    let mut i: usize = 0;
    while i < lines.len()
        invariant_except_break
            all,
            forall|j: int| 0 <= j < i ==> !(#[trigger] lines@[j]).received.less_than(lines@[j].ordered),
        invariant
            i <= lines@.len(),
            forall|j: int| 0 <= j < lines@.len() ==> (#[trigger] lines@[j]).ordered.wf() && lines@[j].received.wf(),
        ensures
            all == all_received(lines@),
        decreases lines@.len() - i,
    {
        let l = lines[i];
        if l.received.lt(&l.ordered) {
            all = false;
            break;
        }
        i = i + 1;
    }
    if all {
        PoStatus::FullyReceived
    } else {
        PoStatus::PartiallyReceived
    }
}

// ─── Invoice matching ──────────────────────────────────────────────────

/// The outcome of matching an invoice against its purchase order and
/// goods receipt.
#[derive(Debug, Clone, Copy, PartialEq, Eq)]
pub struct MatchDecision {
    pub matched: bool,
    /// The status code written for the invoice.
    pub status_code: &'static str,
    pub status: InvoiceStatus,
    pub matching_status: MatchingStatus,
}

/// An invoice is matched when no mismatch was found or the approver
/// accepts the mismatches; it is then stored as `MATCHED` (pending
/// approval), otherwise as `MISMATCHED` (read back as a draft).
pub fn match_decision(mismatch_count: usize, accept_mismatch: bool) -> (d: MatchDecision)
    ensures
        d.matched == (mismatch_count == 0 || accept_mismatch),
        d.matched ==> d.status_code@ == "MATCHED"@ && d.status == InvoiceStatus::PendingApproval
            && d.matching_status == MatchingStatus::Matched,
        !d.matched ==> d.status_code@ == "MISMATCHED"@ && d.status == InvoiceStatus::Draft
            && d.matching_status == MatchingStatus::Mismatch,
        d.status == InvoiceStatus::from_code(d.status_code@),
{
    let matched = mismatch_count == 0 || accept_mismatch;
    let code: &'static str = if matched { "MATCHED" } else { "MISMATCHED" };
    let status = InvoiceStatus::from_db_str(code);
    proof {
        reveal_strlit("MATCHED");
        reveal_strlit("MISMATCHED");
        reveal_strlit("APPROVED");
        reveal_strlit("POSTED");
        reveal_strlit("PAID");
        reveal_strlit("CANCELLED");
        assert("MATCHED"@.len() == 7);
        assert("MISMATCHED"@.len() == 10);
        assert("APPROVED"@.len() == 8);
        assert("POSTED"@.len() == 6);
        assert("PAID"@.len() == 4);
        assert("CANCELLED"@.len() == 9);
    }
    MatchDecision {
        matched,
        status_code: code,
        status,
        matching_status: if matched {
            MatchingStatus::Matched
        } else {
            MatchingStatus::Mismatch
        },
    }
}

// ─── Payment status of invoices ────────────────────────────────────────

/// The payment status of an invoice from what has been allocated to it in
/// total: paid once the allocations reach its net amount, partly paid with
/// some allocation, unpaid otherwise (also when no total is known).
pub open spec fn payment_status_of(total_allocated: Option<i64>, net_amount: int) -> PaymentStatus {
    match total_allocated {
        Some(t) => if t >= net_amount {
            PaymentStatus::Paid
        } else if t > 0 {
            PaymentStatus::PartiallyPaid
        } else {
            PaymentStatus::Unpaid
        },
        None => PaymentStatus::Unpaid,
    }
}

/// An invoice is paid exactly when what has been allocated to it reaches its
/// net amount, partly paid exactly when a positive allocation falls short of
/// it, and unpaid otherwise (also when no total is known).
pub proof fn lemma_payment_status_by_total(total_allocated: Option<i64>, net_amount: int)
    ensures
        (payment_status_of(total_allocated, net_amount) is Paid) <==> (total_allocated matches Some(
            t,
        ) && t >= net_amount),
        (payment_status_of(total_allocated, net_amount) is PartiallyPaid) <==> (
        total_allocated matches Some(t) && 0 < t && t < net_amount),
        (payment_status_of(total_allocated, net_amount) is Unpaid) <==> (total_allocated is None
            || (total_allocated matches Some(t) && t <= 0 && t < net_amount)),
{
}

/// Allocating more to an invoice never moves it back: with a larger total
/// allocated, a paid invoice stays paid and a partly paid one is at least
/// partly paid.
pub proof fn lemma_payment_status_monotone(t1: i64, t2: i64, net_amount: int)
    requires
        t1 <= t2,
    ensures
        payment_status_of(Some(t1), net_amount) is Paid ==> payment_status_of(
            Some(t2),
            net_amount,
        ) is Paid,
        payment_status_of(Some(t1), net_amount) is PartiallyPaid ==> !(payment_status_of(
            Some(t2),
            net_amount,
        ) is Unpaid),
{
}

/// The payment status of an invoice after a payment is processed, and
/// whether the invoice itself becomes `PAID`.
pub fn invoice_payment_status(total_allocated: Option<i64>, net_amount: i64) -> (r: (PaymentStatus, bool))
    ensures
        r.0 == payment_status_of(total_allocated, net_amount as int),
        r.1 == (r.0 == PaymentStatus::Paid),
        (r.0 is Paid) <==> (total_allocated matches Some(t) && t >= net_amount),
        (r.0 is PartiallyPaid) <==> (total_allocated matches Some(t) && 0 < t && t < net_amount),
        (r.0 is Unpaid) <==> (total_allocated is None || (total_allocated matches Some(t) && t <= 0
            && t < net_amount)),
{
    proof {
        lemma_payment_status_by_total(total_allocated, net_amount as int);
    }
    let ps = match total_allocated {
        Some(t) => if t >= net_amount {
            PaymentStatus::Paid
        } else if t > 0 {
            PaymentStatus::PartiallyPaid
        } else {
            PaymentStatus::Unpaid
        },
        None => PaymentStatus::Unpaid,
    };
    let paid = match ps {
        PaymentStatus::Paid => true,
        _ => false,
    };
    (ps, paid)
}

/// The net of a vendor payment: the amount less the TDS deducted.
pub fn payment_net_amount(amount: Money, tds_amount: Money) -> (net: Money)
    requires
        in_paise_range(amount@ - tds_amount@),
    ensures
        net@ == amount@ - tds_amount@,
{
    Money::from_paise(amount.as_paise() - tds_amount.as_paise())
}

// ─── Journals ──────────────────────────────────────────────────────────

/// An invoice line as it is posted: its amount and the expense account the
/// posting command names for its purchase order line, if any.
#[derive(Debug, Clone, Copy)]
pub struct InvoicePostingLine {
    pub amount: Money,
    pub expense_account: Option<uuid::Uuid>,
}

/// Sum of the amounts of posting lines.
pub open spec fn posting_total(lines: Seq<InvoicePostingLine>) -> int
    decreases lines.len(),
{
    if lines.len() == 0 {
        0
    } else {
        posting_total(lines.drop_last()) + lines.last().amount@
    }
}

/// The journal line for one invoice line: its amount debited to its
/// expense account, or to the payables account when none is named.
pub open spec fn is_expense_line(
    l: JournalLinePlan,
    p: InvoicePostingLine,
    ap_account: uuid::Uuid,
    invoice_number: Seq<char>,
) -> bool {
    &&& l.account_id == match p.expense_account {
        Some(a) => a,
        None => ap_account,
    }
    &&& l.debit_amount == Some(p.amount)
    &&& l.credit_amount is None
    &&& l.description matches Some(d) && d@ == "Invoice "@ + invoice_number
        + " \u{2014} line expense"@
    &&& l.reference_id matches Some(r) && r@ == invoice_number
    &&& l.reference_type matches Some(t) && t@ == "VENDOR_INVOICE"@
}

proof fn lemma_totals_push(lines: Seq<JournalLinePlan>, x: JournalLinePlan)
    ensures
        debit_total(lines.push(x)) == debit_total(lines) + line_debit(x),
        credit_total(lines.push(x)) == credit_total(lines) + line_credit(x),
{
    assert(lines.push(x).drop_last() =~= lines);
}

/// The journal that posts a vendor invoice: each invoice line's amount is
/// debited to its expense account (the payables account when none is
/// named), and the payables account is credited with the invoice amount
/// plus tax. The debits total the line amounts and the single credit is
/// invoice plus tax.
pub fn invoice_posting_journal(
    invoice_number: &str,
    lines: &Vec<InvoicePostingLine>,
    ap_account: uuid::Uuid,
    invoice_amount: Money,
    tax_amount: Money,
) -> (journal: Vec<JournalLinePlan>)
    requires
        lines@.len() < i32::MAX,
        in_paise_range(invoice_amount@ + tax_amount@),
    ensures
        journal@.len() == lines@.len() + 1,
        numbered_in_order(journal@),
        forall|i: int|
            0 <= i < lines@.len() ==> is_expense_line(
                #[trigger] journal@[i],
                lines@[i],
                ap_account,
                invoice_number@,
            ),
        journal@.last().account_id == ap_account,
        journal@.last().debit_amount is None,
        journal@.last().credit_amount matches Some(c) && c@ == invoice_amount@ + tax_amount@,
        journal@.last().description matches Some(d) && d@ == "Vendor invoice "@ + invoice_number@,
        journal@.last().reference_id matches Some(r) && r@ == invoice_number@,
        journal@.last().reference_type matches Some(t) && t@ == "VENDOR_INVOICE"@,
        debit_total(journal@) == posting_total(lines@),
        credit_total(journal@) == invoice_amount@ + tax_amount@,
{
    let mut journal: Vec<JournalLinePlan> = Vec::new();
    let mut i: usize = 0;
    assert(lines@.take(0) =~= Seq::<InvoicePostingLine>::empty());
    while i < lines.len()
        invariant
            i <= lines@.len() < i32::MAX,
            journal@.len() == i,
            numbered_in_order(journal@),
            forall|j: int|
                0 <= j < i ==> is_expense_line(
                    #[trigger] journal@[j],
                    lines@[j],
                    ap_account,
                    invoice_number@,
                ),
            debit_total(journal@) == posting_total(lines@.take(i as int)),
            credit_total(journal@) == 0,
        decreases lines@.len() - i,
    {
        let p = lines[i];
        let account = match p.expense_account {
            Some(a) => a,
            None => ap_account,
        };
        let line = JournalLinePlan {
            line_number: (i + 1) as i32,
            account_id: account,
            debit_amount: Some(p.amount),
            credit_amount: None,
            description: Some(concat3("Invoice ", invoice_number, " \u{2014} line expense")),
            reference_id: Some(owned(invoice_number)),
            reference_type: Some(owned("VENDOR_INVOICE")),
        };
        proof {
            lemma_totals_push(journal@, line);
            assert(lines@.take(i + 1).drop_last() =~= lines@.take(i as int));
            assert(lines@.take(i + 1).last() == lines@[i as int]);
        }
        journal.push(line);
        i = i + 1;
    }
    assert(lines@.take(lines@.len() as int) =~= lines@);
    let total_posting = Money::from_paise(invoice_amount.as_paise() + tax_amount.as_paise());
    let last = JournalLinePlan {
        line_number: (i + 1) as i32,
        account_id: ap_account,
        debit_amount: None,
        credit_amount: Some(total_posting),
        description: Some(concat2("Vendor invoice ", invoice_number)),
        reference_id: Some(owned(invoice_number)),
        reference_type: Some(owned("VENDOR_INVOICE")),
    };
    proof {
        lemma_totals_push(journal@, last);
    }
    journal.push(last);
    journal
}

/// The journal of a vendor payment: the payables account is debited with
/// the payment amount and the bank credited with the net paid; when TDS was
/// deducted a third line credits the TDS payable account with it. All lines
/// refer to the payment number.
pub fn payment_journal(
    payment_number: &str,
    amount: Money,
    net_amount: Money,
    tds_amount: Money,
    ap_account: uuid::Uuid,
    bank_account: uuid::Uuid,
    tds_payable_account: uuid::Uuid,
) -> (journal: Vec<JournalLinePlan>)
    ensures
        journal@.len() == if tds_amount@ == 0 { 2int } else { 3int },
        numbered_in_order(journal@),
        journal@[0].account_id == ap_account,
        journal@[0].debit_amount == Some(amount),
        journal@[0].credit_amount is None,
        journal@[0].description matches Some(d) && d@ == "Payment "@ + payment_number@
            + " \u{2014} DR AP"@,
        journal@[1].account_id == bank_account,
        journal@[1].debit_amount is None,
        journal@[1].credit_amount == Some(net_amount),
        journal@[1].description matches Some(d) && d@ == "Payment "@ + payment_number@
            + " \u{2014} CR Bank (net of TDS)"@,
        tds_amount@ != 0 ==> {
            &&& journal@[2].account_id == tds_payable_account
            &&& journal@[2].debit_amount is None
            &&& journal@[2].credit_amount == Some(tds_amount)
            &&& journal@[2].description matches Some(d) && d@ == "TDS deducted \u{2014} payment "@
                + payment_number@
            &&& journal@[2].reference_type matches Some(t) && t@ == "TDS_DEDUCTION"@
        },
        forall|i: int|
            0 <= i < 2 ==> ((#[trigger] journal@[i]).reference_type matches Some(t) && t@
                == "VENDOR_PAYMENT"@),
        forall|i: int|
            0 <= i < journal@.len() ==> ((#[trigger] journal@[i]).reference_id matches Some(r)
                && r@ == payment_number@),
        debit_total(journal@) == amount@,
        credit_total(journal@) == net_amount@ + tds_amount@,
        balanced(journal@) == (amount@ == net_amount@ + tds_amount@),
{
    let mut journal: Vec<JournalLinePlan> = Vec::new();
    let l1 = JournalLinePlan {
        line_number: 1,
        account_id: ap_account,
        debit_amount: Some(amount),
        credit_amount: None,
        description: Some(concat3("Payment ", payment_number, " \u{2014} DR AP")),
        reference_id: Some(owned(payment_number)),
        reference_type: Some(owned("VENDOR_PAYMENT")),
    };
    let l2 = JournalLinePlan {
        line_number: 2,
        account_id: bank_account,
        debit_amount: None,
        credit_amount: Some(net_amount),
        description: Some(concat3("Payment ", payment_number, " \u{2014} CR Bank (net of TDS)")),
        reference_id: Some(owned(payment_number)),
        reference_type: Some(owned("VENDOR_PAYMENT")),
    };
    proof {
        lemma_totals_push(Seq::empty(), l1);
        lemma_totals_push(seq![l1], l2);
        assert(Seq::<JournalLinePlan>::empty().push(l1) =~= seq![l1]);
        assert(seq![l1].push(l2) =~= seq![l1, l2]);
    }
    journal.push(l1);
    journal.push(l2);
    assert(journal@ =~= seq![l1, l2]);
    if !tds_amount.is_zero() {
        let l3 = JournalLinePlan {
            line_number: 3,
            account_id: tds_payable_account,
            debit_amount: None,
            credit_amount: Some(tds_amount),
            description: Some(concat2("TDS deducted \u{2014} payment ", payment_number)),
            reference_id: Some(owned(payment_number)),
            reference_type: Some(owned("TDS_DEDUCTION")),
        };
        proof {
            lemma_totals_push(journal@, l3);
        }
        journal.push(l3);
    }
    journal
}

/// The TDS journal of a vendor payment: TDS expense is debited and TDS
/// payable credited with the TDS deducted; it always balances.
pub fn tds_journal(
    payment_number: &str,
    tds_amount: Money,
    tds_expense_account: uuid::Uuid,
    tds_payable_account: uuid::Uuid,
) -> (journal: Vec<JournalLinePlan>)
    ensures
        journal@.len() == 2,
        numbered_in_order(journal@),
        journal@[0].account_id == tds_expense_account,
        journal@[0].debit_amount == Some(tds_amount),
        journal@[0].credit_amount is None,
        journal@[0].description matches Some(d) && d@ == "TDS Expense"@,
        journal@[1].account_id == tds_payable_account,
        journal@[1].debit_amount is None,
        journal@[1].credit_amount == Some(tds_amount),
        journal@[1].description matches Some(d) && d@ == "TDS Payable"@,
        forall|i: int|
            0 <= i < 2 ==> ((#[trigger] journal@[i]).reference_id matches Some(r) && r@
                == payment_number@),
        forall|i: int|
            0 <= i < 2 ==> ((#[trigger] journal@[i]).reference_type matches Some(t) && t@
                == "TDS"@),
        debit_total(journal@) == tds_amount@,
        credit_total(journal@) == tds_amount@,
        balanced(journal@),
{
    let l1 = JournalLinePlan {
        line_number: 1,
        account_id: tds_expense_account,
        debit_amount: Some(tds_amount),
        credit_amount: None,
        description: Some(owned("TDS Expense")),
        reference_id: Some(owned(payment_number)),
        reference_type: Some(owned("TDS")),
    };
    let l2 = JournalLinePlan {
        line_number: 2,
        account_id: tds_payable_account,
        debit_amount: None,
        credit_amount: Some(tds_amount),
        description: Some(owned("TDS Payable")),
        reference_id: Some(owned(payment_number)),
        reference_type: Some(owned("TDS")),
    };
    let mut journal: Vec<JournalLinePlan> = Vec::new();
    proof {
        lemma_totals_push(Seq::empty(), l1);
        lemma_totals_push(seq![l1], l2);
        assert(Seq::<JournalLinePlan>::empty().push(l1) =~= seq![l1]);
        assert(seq![l1].push(l2) =~= seq![l1, l2]);
    }
    journal.push(l1);
    journal.push(l2);
    assert(journal@ =~= seq![l1, l2]);
    journal
}

} // verus!
