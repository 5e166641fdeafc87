use sutra_erp::decimal::DecimalValue;
use sutra_erp::money::Money;
use sutra_erp::payables::commands::{
    check_invoice_matchable, check_invoice_postable, check_payment_processable,
    check_po_issuable, check_po_receivable, check_vendor_for_payment,
    check_vendor_for_purchase_order, fiscal_year_from_date, get_default_tds_rate, grn_number,
    invoice_payment_status, invoice_posting_journal, is_rcm_registration, line_tax,
    match_decision, payment_journal, payment_net_amount, payment_number, po_number,
    po_status_after_receipt, purchase_order_totals, tds_journal, vendor_invoice_totals, ApError,
    InvoicePostingLine, LineAmounts, ReceiptProgress, VendorCheck,
};
use sutra_erp::payables::models::{InvoiceStatus, MatchingStatus, PaymentStatus, PoStatus};
use sutra_erp::payables::queries::VendorFilter;
use sutra_erp::payables::requests::{default_payment_terms, default_true};
use uuid::Uuid;

fn vendor(blacklisted: bool, active: bool) -> Option<VendorCheck> {
    Some(VendorCheck {
        is_blacklisted: blacklisted,
        is_active: active,
        default_tds_section: Some("194C".to_string()),
        registration_type: "REGULAR".to_string(),
        tds_applicable: true,
    })
}

#[test]
fn vendor_checks_for_purchase_orders() {
    assert!(check_vendor_for_purchase_order(&vendor(false, true), "v1").is_ok());
    match check_vendor_for_purchase_order(&None, "v-42") {
        Err(ApError::VendorNotFound(m)) => assert_eq!(m, "v-42"),
        other => panic!("unexpected {:?}", other),
    }
    assert!(matches!(
        check_vendor_for_purchase_order(&vendor(true, true), "v1"),
        Err(ApError::VendorBlacklisted)
    ));
    match check_vendor_for_purchase_order(&vendor(false, false), "v1") {
        Err(ApError::Validation(m)) => assert_eq!(m, "Vendor is not active"),
        other => panic!("unexpected {:?}", other),
    }
}

#[test]
fn vendor_checks_for_payments() {
    assert!(check_vendor_for_payment(&vendor(false, true), "v1").is_ok());
    assert!(matches!(check_vendor_for_payment(&None, "v1"), Err(ApError::VendorNotFound(_))));
    assert!(matches!(
        check_vendor_for_payment(&vendor(false, false), "v1"),
        Err(ApError::VendorBlacklisted)
    ));
    assert!(matches!(
        check_vendor_for_payment(&vendor(true, true), "v1"),
        Err(ApError::VendorBlacklisted)
    ));
}

#[test]
fn reverse_charge_registrations() {
    assert!(is_rcm_registration("UNREGISTERED"));
    assert!(is_rcm_registration("COMPOSITION"));
    assert!(!is_rcm_registration("REGULAR"));
    assert!(!is_rcm_registration("unregistered"));
}

#[test]
fn default_tds_rates_by_section() {
    let rate = |s: &str| get_default_tds_rate(&Some(s.to_string()));
    assert_eq!(rate("194C"), Some(2));
    assert_eq!(rate("194J"), Some(10));
    assert_eq!(rate("194I"), Some(2));
    assert_eq!(rate("194H"), Some(5));
    assert_eq!(rate("194A"), Some(10));
    assert_eq!(rate("194D"), Some(10));
    assert_eq!(rate("194G"), Some(5));
    assert_eq!(rate("194Q"), None);
    assert_eq!(get_default_tds_rate(&None), None);
}

#[test]
fn fiscal_years_run_april_to_march() {
    assert_eq!(fiscal_year_from_date(2024, 4), "2024-25");
    assert_eq!(fiscal_year_from_date(2025, 3), "2024-25");
    assert_eq!(fiscal_year_from_date(2099, 12), "2099-00");
    assert_eq!(fiscal_year_from_date(2000, 1), "1999-00");
    assert_eq!(fiscal_year_from_date(2008, 7), "2008-09");
}

#[test]
fn document_numbers() {
    assert_eq!(po_number("2024-25", 7), "PO-2024-25-000007");
    assert_eq!(po_number("2024-25", 1_234_567), "PO-2024-25-1234567");
    assert_eq!(grn_number(42), "GRN-000042");
    assert_eq!(payment_number(123456), "PAY-123456");
}

fn line(total: i64, tax: Option<i64>) -> LineAmounts {
    LineAmounts { line_total: Money::from_paise(total), rated_tax: tax.map(Money::from_paise) }
}

#[test]
fn line_tax_is_zero_under_reverse_charge() {
    assert_eq!(line_tax(&line(10_000, Some(1_800)), false), Money::from_paise(1_800));
    assert_eq!(line_tax(&line(10_000, Some(1_800)), true), Money::zero());
    assert_eq!(line_tax(&line(10_000, None), false), Money::zero());
}

#[test]
fn purchase_order_and_invoice_totals() {
    let lines = vec![line(10_000, Some(1_800)), line(5_000, None), line(2_500, Some(125))];
    let t = purchase_order_totals(&lines, false);
    assert_eq!(t.total_amount, Money::from_paise(17_500));
    assert_eq!(t.tax_amount, Money::from_paise(1_925));
    assert_eq!(t.net_amount, Money::from_paise(19_425));
    let r = purchase_order_totals(&lines, true);
    assert_eq!(r.tax_amount, Money::zero());
    assert_eq!(r.net_amount, Money::from_paise(17_500));
    let v = vendor_invoice_totals(&lines, false);
    assert_eq!(v, t);
    let empty = purchase_order_totals(&Vec::new(), false);
    assert_eq!(empty.net_amount, Money::zero());
}

#[test]
fn state_checks_and_their_messages() {
    assert!(check_po_issuable("DRAFT").is_ok());
    match check_po_issuable("ISSUED") {
        Err(ApError::Validation(m)) => {
            assert_eq!(m, "PO must be in DRAFT status to issue, current: ISSUED")
        }
        other => panic!("unexpected {:?}", other),
    }
    for s in ["ISSUED", "ACKNOWLEDGED", "PARTIALLY_RECEIVED"] {
        assert!(check_po_receivable(s).is_ok());
    }
    match check_po_receivable("DRAFT") {
        Err(ApError::Validation(m)) => assert_eq!(
            m,
            "PO must be ISSUED/PARTIALLY_RECEIVED to record GRN, current: DRAFT"
        ),
        other => panic!("unexpected {:?}", other),
    }
    assert!(check_invoice_matchable("DRAFT").is_ok());
    match check_invoice_matchable("POSTED") {
        Err(ApError::Validation(m)) => assert_eq!(m, "Invoice must be DRAFT for matching"),
        other => panic!("unexpected {:?}", other),
    }
    assert!(check_invoice_postable("MATCHED").is_ok());
    assert!(check_invoice_postable("APPROVED").is_ok());
    match check_invoice_postable("DRAFT") {
        Err(ApError::Validation(m)) => {
            assert_eq!(m, "Invoice must be MATCHED/APPROVED to post, current: DRAFT")
        }
        other => panic!("unexpected {:?}", other),
    }
    assert!(check_payment_processable("INITIATED").is_ok());
    assert!(check_payment_processable("APPROVED").is_ok());
    match check_payment_processable("COMPLETED") {
        Err(ApError::Validation(m)) => {
            assert_eq!(m, "Payment must be INITIATED/APPROVED, current: COMPLETED")
        }
        other => panic!("unexpected {:?}", other),
    }
}

fn progress(ordered: (i128, u32), received: (i128, u32)) -> ReceiptProgress {
    ReceiptProgress {
        ordered: DecimalValue { mantissa: ordered.0, scale: ordered.1 },
        received: DecimalValue { mantissa: received.0, scale: received.1 },
    }
}

#[test]
fn purchase_order_status_after_a_receipt() {
    let full = vec![progress((10, 0), (1000, 2)), progress((25, 1), (3, 0))];
    assert_eq!(po_status_after_receipt(&full), PoStatus::FullyReceived);
    let partial = vec![progress((10, 0), (999, 2)), progress((25, 1), (3, 0))];
    assert_eq!(po_status_after_receipt(&partial), PoStatus::PartiallyReceived);
    assert_eq!(po_status_after_receipt(&Vec::new()), PoStatus::FullyReceived);
}

#[test]
fn invoice_match_outcomes() {
    let ok = match_decision(0, false);
    assert!(ok.matched);
    assert_eq!(ok.status_code, "MATCHED");
    assert_eq!(ok.status, InvoiceStatus::PendingApproval);
    assert_eq!(ok.matching_status, MatchingStatus::Matched);
    let accepted = match_decision(3, true);
    assert!(accepted.matched);
    let bad = match_decision(2, false);
    assert!(!bad.matched);
    assert_eq!(bad.status_code, "MISMATCHED");
    assert_eq!(bad.status, InvoiceStatus::Draft);
    assert_eq!(bad.matching_status, MatchingStatus::Mismatch);
}

#[test]
fn invoice_payment_status_from_allocations() {
    assert_eq!(invoice_payment_status(Some(10_000), 10_000), (PaymentStatus::Paid, true));
    assert_eq!(invoice_payment_status(Some(12_000), 10_000), (PaymentStatus::Paid, true));
    assert_eq!(invoice_payment_status(Some(1), 10_000), (PaymentStatus::PartiallyPaid, false));
    assert_eq!(invoice_payment_status(Some(0), 10_000), (PaymentStatus::Unpaid, false));
    assert_eq!(invoice_payment_status(None, 10_000), (PaymentStatus::Unpaid, false));
}

#[test]
fn payment_net_of_tds() {
    assert_eq!(
        payment_net_amount(Money::from_paise(100_000), Money::from_paise(1_000)),
        Money::from_paise(99_000)
    );
}

fn debits(j: &[sutra_erp::journal::JournalLinePlan]) -> i64 {
    j.iter().map(|l| l.debit_amount.map(|m| m.as_paise()).unwrap_or(0)).sum()
}

fn credits(j: &[sutra_erp::journal::JournalLinePlan]) -> i64 {
    j.iter().map(|l| l.credit_amount.map(|m| m.as_paise()).unwrap_or(0)).sum()
}

#[test]
fn invoice_posting_journal_lines() {
    let ap = Uuid::new_v4();
    let exp = Uuid::new_v4();
    let lines = vec![
        InvoicePostingLine { amount: Money::from_paise(10_000), expense_account: Some(exp) },
        InvoicePostingLine { amount: Money::from_paise(5_000), expense_account: None },
    ];
    let j = invoice_posting_journal(
        "INV-9",
        &lines,
        ap,
        Money::from_paise(15_000),
        Money::from_paise(2_700),
    );
    assert_eq!(j.len(), 3);
    assert_eq!(j[0].line_number, 1);
    assert_eq!(j[0].account_id, exp);
    assert_eq!(j[0].description.as_deref(), Some("Invoice INV-9 — line expense"));
    assert_eq!(j[1].account_id, ap);
    assert_eq!(j[2].line_number, 3);
    assert_eq!(j[2].account_id, ap);
    assert_eq!(j[2].credit_amount, Some(Money::from_paise(17_700)));
    assert_eq!(j[2].description.as_deref(), Some("Vendor invoice INV-9"));
    assert_eq!(j[2].reference_type.as_deref(), Some("VENDOR_INVOICE"));
    assert_eq!(debits(&j), 15_000);
    assert_eq!(credits(&j), 17_700);
}

#[test]
fn payment_journal_balances_when_amount_is_net_plus_tds() {
    let (ap, bank, tds) = (Uuid::new_v4(), Uuid::new_v4(), Uuid::new_v4());
    let j = payment_journal(
        "PAY-000001",
        Money::from_paise(100_000),
        Money::from_paise(98_000),
        Money::from_paise(2_000),
        ap,
        bank,
        tds,
    );
    assert_eq!(j.len(), 3);
    assert_eq!(j[0].account_id, ap);
    assert_eq!(j[0].description.as_deref(), Some("Payment PAY-000001 — DR AP"));
    assert_eq!(j[1].account_id, bank);
    assert_eq!(j[1].description.as_deref(), Some("Payment PAY-000001 — CR Bank (net of TDS)"));
    assert_eq!(j[2].account_id, tds);
    assert_eq!(j[2].description.as_deref(), Some("TDS deducted — payment PAY-000001"));
    assert_eq!(j[2].reference_type.as_deref(), Some("TDS_DEDUCTION"));
    assert_eq!(debits(&j), credits(&j));
    let no_tds = payment_journal(
        "PAY-000002",
        Money::from_paise(5_000),
        Money::from_paise(5_000),
        Money::zero(),
        ap,
        bank,
        tds,
    );
    assert_eq!(no_tds.len(), 2);
    assert_eq!(debits(&no_tds), credits(&no_tds));
}

#[test]
fn tds_journal_always_balances() {
    let (e, p) = (Uuid::new_v4(), Uuid::new_v4());
    let j = tds_journal("PAY-000003", Money::from_paise(1_500), e, p);
    assert_eq!(j.len(), 2);
    assert_eq!(j[0].description.as_deref(), Some("TDS Expense"));
    assert_eq!(j[1].description.as_deref(), Some("TDS Payable"));
    assert_eq!(j[0].reference_type.as_deref(), Some("TDS"));
    assert_eq!(debits(&j), 1_500);
    assert_eq!(credits(&j), 1_500);
}

#[test]
fn vendor_request_defaults() {
    assert_eq!(default_payment_terms(), 30);
    assert!(default_true());
    let f = VendorFilter {
        search: Some("acme".to_string()),
        vendor_type: None,
        is_active: Some(true),
        is_blacklisted: None,
        has_gstin: None,
        pan: None,
    };
    assert_eq!(f.clone().search.as_deref(), Some("acme"));
}
