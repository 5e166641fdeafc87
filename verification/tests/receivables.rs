use sutra_erp::decimal::DecimalValue;
use sutra_erp::money::Money;
use sutra_erp::receivables::commands::{
    account_after_payment, allocate_fifo, assess_fee_account, calculate_frc_refund_pct,
    check_payment_amount, check_refund_processable, check_scholarship_disbursable,
    check_scholarship_verifiable, concession_amount, fee_payment_journal,
    fixed_concession_paise, installment_after_allocation, percentages_sum_to_hundred,
    receipt_number, receipt_payment_mode, refund_journal, ArError, FeeAccountFigures,
    InstallmentDue,
};
use sutra_erp::receivables::entities::{InstallmentPlan, InstallmentSlot, StudentFeeAccount};
use sutra_erp::receivables::maha_dbt::MahaDbtClient;
use sutra_erp::receivables::models::{
    ConcessionType, FeeAccountStatus, GstClassification, InstallmentStatus, PaymentMode,
};
use uuid::Uuid;

fn due(amount: i64, paid: i64) -> InstallmentDue {
    InstallmentDue { amount, paid }
}

#[test]
fn fifo_allocation_fills_oldest_installments_first() {
    let dues = vec![due(10_000, 10_000), due(10_000, 4_000), due(10_000, 0), due(10_000, 0)];
    assert_eq!(allocate_fifo(&dues, 9_000), vec![(1, 6_000), (2, 3_000)]);
    assert_eq!(allocate_fifo(&dues, 6_000), vec![(1, 6_000)]);
    assert_eq!(allocate_fifo(&dues, 0), vec![]);
    assert_eq!(allocate_fifo(&dues, -5), vec![]);
}

#[test]
fn fifo_allocation_never_exceeds_what_is_owed() {
    let dues = vec![due(5_000, 0), due(5_000, 1_000)];
    let a = allocate_fifo(&dues, 1_000_000);
    assert_eq!(a, vec![(0, 5_000), (1, 4_000)]);
    let total: i64 = a.iter().map(|x| x.1).sum();
    assert_eq!(total, 9_000);
    let overpaid = vec![due(5_000, 6_000), due(2_000, 0)];
    assert_eq!(allocate_fifo(&overpaid, 3_000), vec![(1, 2_000)]);
}

#[test]
fn zero_payment_is_refused() {
    assert!(check_payment_amount(Money::from_paise(1)).is_ok());
    match check_payment_amount(Money::zero()) {
        Err(ArError::Validation(m)) => assert_eq!(m, "Payment amount must be positive"),
        other => panic!("unexpected {:?}", other),
    }
}

#[test]
fn receipt_payment_modes() {
    assert_eq!(receipt_payment_mode("CASH"), PaymentMode::Cash);
    assert_eq!(receipt_payment_mode("CHEQUE"), PaymentMode::Cheque);
    assert_eq!(receipt_payment_mode("DD"), PaymentMode::Dd);
    assert_eq!(receipt_payment_mode("NEFT"), PaymentMode::Neft);
    assert_eq!(receipt_payment_mode("RTGS"), PaymentMode::Rtgs);
    assert_eq!(receipt_payment_mode("IMPS"), PaymentMode::Imps);
    assert_eq!(receipt_payment_mode("UPI"), PaymentMode::Upi);
    assert_eq!(receipt_payment_mode("CREDIT_CARD"), PaymentMode::CreditCard);
    assert_eq!(receipt_payment_mode("DEBIT_CARD"), PaymentMode::DebitCard);
    assert_eq!(receipt_payment_mode("POS"), PaymentMode::Pos);
    assert_eq!(receipt_payment_mode("RAZORPAY"), PaymentMode::PaymentGateway);
}

#[test]
fn receipt_numbers() {
    assert_eq!(
        receipt_number("0191f2c4-aaaa-bbbb-cccc-000000000000", 42),
        "RCP-0191f2-000042"
    );
    assert_eq!(receipt_number("ab", 1_234_567), "RCP-ab-1234567");
}

#[test]
fn installment_and_account_after_payment() {
    assert_eq!(installment_after_allocation(due(10_000, 4_000), 6_000), (10_000, InstallmentStatus::Paid));
    assert_eq!(
        installment_after_allocation(due(10_000, 0), 3_000),
        (3_000, InstallmentStatus::PartiallyPaid)
    );
    let u = account_after_payment(50_000, 10_000, 15_000);
    assert_eq!((u.total_paid, u.outstanding, u.status), (25_000, 25_000, FeeAccountStatus::PartiallyPaid));
    let paid = account_after_payment(50_000, 40_000, 20_000);
    assert_eq!((paid.total_paid, paid.outstanding, paid.status), (60_000, 0, FeeAccountStatus::Paid));
    let none = account_after_payment(50_000, 0, 0);
    assert_eq!(none.status, FeeAccountStatus::Pending);
}

fn debits(j: &[sutra_erp::journal::JournalLinePlan]) -> i64 {
    j.iter().map(|l| l.debit_amount.map(|m| m.as_paise()).unwrap_or(0)).sum()
}

fn credits(j: &[sutra_erp::journal::JournalLinePlan]) -> i64 {
    j.iter().map(|l| l.credit_amount.map(|m| m.as_paise()).unwrap_or(0)).sum()
}

#[test]
fn fee_payment_journal_balances() {
    let bank = Uuid::new_v4();
    let income = Uuid::new_v4();
    let j = fee_payment_journal("RCP-0191f2-000042", Money::from_paise(25_000), bank, Some(income));
    assert_eq!(j.len(), 2);
    assert_eq!(j[0].account_id, bank);
    assert_eq!(j[1].account_id, income);
    assert_eq!(j[0].description.as_deref(), Some("Fee payment receipt RCP-0191f2-000042"));
    assert_eq!(j[1].description.as_deref(), Some("Fee collection — receipt RCP-0191f2-000042"));
    assert_eq!(j[1].reference_type.as_deref(), Some("RECEIPT"));
    assert_eq!(debits(&j), credits(&j));
    let fallback = fee_payment_journal("R", Money::from_paise(1), bank, None);
    assert_eq!(fallback[1].account_id, bank);
}

#[test]
fn fee_assessment_figures() {
    let lines = vec![Money::from_paise(100_000), Money::from_paise(25_000)];
    let a = assess_fee_account(&lines, Some(Money::from_paise(30_000)), None);
    assert_eq!(a.gross_fee, Money::from_paise(125_000));
    assert_eq!(a.scholarship_expected, Money::from_paise(30_000));
    assert_eq!(a.concession_amount, Money::zero());
    assert_eq!(a.net_payable, Money::from_paise(95_000));
    assert_eq!(a.total_paid, Money::zero());
    assert_eq!(a.outstanding, Money::from_paise(95_000));
    assert_eq!(a.status, FeeAccountStatus::Pending);
}

fn figures() -> FeeAccountFigures {
    FeeAccountFigures {
        gross_fee: 100_000,
        scholarship_expected: 20_000,
        concession_amount: 0,
        net_payable: 80_000,
        total_paid: 30_000,
        outstanding: 50_000,
    }
}

#[test]
fn recalculating_an_account() {
    let mut f = figures();
    f.concession_amount = 60_000;
    f.recalculate();
    assert_eq!(f.net_payable, 20_000);
    assert_eq!(f.outstanding, 0);
}

#[test]
fn concession_and_scholarship_updates() {
    let c = figures().after_concession(10_000);
    assert_eq!((c.concession_amount, c.net_payable, c.outstanding), (10_000, 70_000, 40_000));
    let s = figures().after_scholarship_applied(70_000).unwrap();
    assert_eq!((s.scholarship_expected, s.net_payable, s.outstanding), (90_000, 10_000, -20_000));
    assert!(figures().after_scholarship_applied(i64::MAX).is_none());
    let (d, over) = figures().after_disbursement(25_000);
    assert_eq!((d.scholarship_expected, d.net_payable, d.outstanding), (0, 100_000, 70_000));
    assert!(!over);
    let paid_up = FeeAccountFigures { total_paid: 90_000, ..figures() };
    let (p, over) = paid_up.after_disbursement(0);
    assert_eq!((p.net_payable, p.outstanding), (80_000, 0));
    assert!(over);
    let (_, over) = paid_up.after_disbursement(15_000);
    assert!(!over);
}

#[test]
fn concession_amounts_by_kind() {
    let v = DecimalValue { mantissa: 150_075, scale: 2 };
    assert_eq!(fixed_concession_paise(&v), 150_075);
    assert_eq!(fixed_concession_paise(&DecimalValue { mantissa: 12_345, scale: 3 }), 1_234);
    assert_eq!(fixed_concession_paise(&DecimalValue { mantissa: -12_345, scale: 3 }), -1_234);
    assert_eq!(
        concession_amount(ConcessionType::Percentage, Money::from_paise(777), &v, 5_000),
        Money::from_paise(777)
    );
    assert_eq!(
        concession_amount(ConcessionType::FixedAmount, Money::zero(), &v, 5_000),
        Money::from_paise(150_075)
    );
    assert_eq!(
        concession_amount(ConcessionType::FullWaiver, Money::zero(), &v, 5_000),
        Money::from_paise(5_000)
    );
}

#[test]
fn scholarship_and_refund_state_checks() {
    assert!(check_scholarship_verifiable("APPLIED").is_ok());
    match check_scholarship_verifiable("VERIFIED") {
        Err(ArError::Validation(m)) => assert_eq!(
            m,
            "Scholarship must be in APPLIED status to verify, current: VERIFIED"
        ),
        other => panic!("unexpected {:?}", other),
    }
    assert!(check_scholarship_disbursable("VERIFIED").is_ok());
    assert!(check_scholarship_disbursable("SANCTIONED").is_ok());
    match check_scholarship_disbursable("APPLIED") {
        Err(ArError::Validation(m)) => assert_eq!(
            m,
            "Scholarship must be VERIFIED or SANCTIONED to record disbursement, current: APPLIED"
        ),
        other => panic!("unexpected {:?}", other),
    }
    assert!(check_refund_processable("REQUESTED").is_ok());
    assert!(check_refund_processable("APPROVED").is_ok());
    match check_refund_processable("PROCESSED") {
        Err(ArError::Validation(m)) => assert_eq!(
            m,
            "Refund must be REQUESTED or APPROVED to process, current: PROCESSED"
        ),
        other => panic!("unexpected {:?}", other),
    }
}

#[test]
fn frc_refund_percentages() {
    assert_eq!(calculate_frc_refund_pct(100, 110), 100);
    assert_eq!(calculate_frc_refund_pct(110, 110), 80);
    assert_eq!(calculate_frc_refund_pct(125, 110), 80);
    assert_eq!(calculate_frc_refund_pct(126, 110), 50);
    assert_eq!(calculate_frc_refund_pct(140, 110), 50);
    assert_eq!(calculate_frc_refund_pct(141, 110), 0);
}

#[test]
fn refund_journal_balances() {
    let (income, bank) = (Uuid::new_v4(), Uuid::new_v4());
    let j = refund_journal("rf-1", Money::from_paise(4_000), income, bank);
    assert_eq!(j[0].account_id, income);
    assert_eq!(j[1].account_id, bank);
    assert_eq!(j[0].description.as_deref(), Some("Refund reversal — refund rf-1"));
    assert_eq!(j[1].description.as_deref(), Some("Refund payment — refund rf-1"));
    assert_eq!(j[0].reference_type.as_deref(), Some("REFUND"));
    assert_eq!(debits(&j), 4_000);
    assert_eq!(credits(&j), 4_000);
}

#[test]
fn installment_percentages_must_total_one_hundred() {
    let d = |m: i128, s: u32| DecimalValue { mantissa: m, scale: s };
    assert!(percentages_sum_to_hundred(&vec![d(40, 0), d(3500, 2), d(25, 0)]));
    assert!(percentages_sum_to_hundred(&vec![d(33_333, 3), d(33_333, 3), d(33_334, 3)]));
    assert!(!percentages_sum_to_hundred(&vec![d(50, 0), d(49_99, 2)]));
    assert!(!percentages_sum_to_hundred(&Vec::new()));
}

#[test]
fn gst_rates_of_fee_heads() {
    assert_eq!(GstClassification::Exempt.rate(), 0);
    assert_eq!(GstClassification::Nil.rate(), 0);
    assert_eq!(GstClassification::Taxable5.rate(), 5);
    assert_eq!(GstClassification::Taxable12.rate(), 12);
    assert_eq!(GstClassification::Taxable18.rate(), 18);
    assert_eq!(GstClassification::Taxable28.rate(), 28);
}

#[test]
fn maha_dbt_stand_in_answers() {
    let c = MahaDbtClient::default();
    let v = c.verify_student(Uuid::new_v4(), "1234", "S1").unwrap();
    assert!(v.verified && v.aadhaar_linked && v.bank_account_verified && v.scheme_eligible);
    assert_eq!(v.student_name, "Mock Student");
    let s = c.check_disbursement_status("APP-7").unwrap();
    assert_eq!(s.application_id, "APP-7");
    assert_eq!(s.status, "DISBURSED");
    assert_eq!(s.disbursed_amount, Some(Money::from_paise(2_500_000)));
    assert!(s.dbt_transaction_id.unwrap().starts_with("DBT-"));
    let n = MahaDbtClient::new("https://example.test".to_string(), Some("k".to_string()));
    assert!(n.verify_student(Uuid::new_v4(), "1", "S").is_ok());
    let big = DecimalValue { mantissa: 7_922_816_251_426_433_759_354_395_033, scale: 20 };
    assert_eq!(fixed_concession_paise(&big), 7_922_816_251);
}

fn audit() -> sutra_erp::identity::AuditInfo {
    sutra_erp::identity::AuditInfo::new(Uuid::nil())
}

#[test]
fn installment_plan_validity() {
    let date = chrono::NaiveDate::from_ymd_opt(2025, 6, 1).unwrap();
    let slot = |n: i32, m: i128, s: u32| InstallmentSlot {
        number: n,
        percentage: DecimalValue { mantissa: m, scale: s },
        due_date: date,
    };
    let mut plan = InstallmentPlan {
        installment_plan_id: sutra_erp::identity::EntityId::new(),
        tenant_id: sutra_erp::identity::TenantId::from_uuid(Uuid::nil()),
        name: "Two parts".to_string(),
        fee_structure_id: None,
        slots: vec![slot(1, 60, 0), slot(2, 400, 1)],
        audit: audit(),
    };
    assert!(plan.is_valid());
    plan.slots.push(slot(3, 1, 2));
    assert!(!plan.is_valid());
}

#[test]
fn student_fee_account_recalculation() {
    let mut acc = StudentFeeAccount {
        student_fee_account_id: sutra_erp::identity::EntityId::new(),
        tenant_id: sutra_erp::identity::TenantId::from_uuid(Uuid::nil()),
        student_id: Uuid::nil(),
        fee_structure_id: sutra_erp::identity::EntityId::new(),
        academic_year: "2025-26".to_string(),
        gross_fee: Money::from_paise(100_000),
        scholarship_expected: Money::from_paise(20_000),
        concession_amount: Money::from_paise(10_000),
        net_payable: Money::zero(),
        total_paid: Money::from_paise(30_000),
        outstanding: Money::zero(),
        status: FeeAccountStatus::PartiallyPaid,
        installments: vec![],
        transactions: vec![],
        audit: audit(),
    };
    acc.recalculate();
    assert_eq!(acc.net_payable, Money::from_paise(70_000));
    assert_eq!(acc.outstanding, Money::from_paise(40_000));
    acc.total_paid = Money::from_paise(90_000);
    acc.recalculate();
    assert_eq!(acc.outstanding, Money::zero());
    assert_eq!(acc.status, FeeAccountStatus::PartiallyPaid);
}
