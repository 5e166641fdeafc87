use sutra_erp::payables::models::{VendorType, PanStatus, GstinStatus, RegistrationType, MsmeType, BankAccountType, BankValidationStatus, TaxType, PoStatus, GrnStatus, MatchingStatus, InvoiceStatus, PaymentStatus, PaymentType, PaymentMode, VpStatus, TdsDepositStatus};

#[test]
fn vendor_type_codes_read_back() {
    let all = [VendorType::Individual, VendorType::Proprietorship, VendorType::Partnership, VendorType::Llp, VendorType::PrivateLimited, VendorType::PublicLimited, VendorType::Government, VendorType::Trust, VendorType::Society, VendorType::Huf, VendorType::Other];
    for x in all {
        assert_eq!(VendorType::from_db_str(x.to_db_str()), x);
    }
    assert_eq!(VendorType::Individual.to_db_str(), "INDIVIDUAL");
    assert_eq!(VendorType::Proprietorship.to_db_str(), "PROPRIETORSHIP");
    assert_eq!(VendorType::Partnership.to_db_str(), "PARTNERSHIP");
    assert_eq!(VendorType::Llp.to_db_str(), "LLP");
    assert_eq!(VendorType::PrivateLimited.to_db_str(), "PVT_LTD");
    assert_eq!(VendorType::PublicLimited.to_db_str(), "PUB_LTD");
    assert_eq!(VendorType::Government.to_db_str(), "GOVERNMENT");
    assert_eq!(VendorType::Trust.to_db_str(), "TRUST");
    assert_eq!(VendorType::Society.to_db_str(), "SOCIETY");
    assert_eq!(VendorType::Huf.to_db_str(), "HUF");
    assert_eq!(VendorType::Other.to_db_str(), "OTHER");
    assert_eq!(VendorType::from_db_str("no-such-code"), VendorType::Other);
}

#[test]
fn pan_status_codes_read_back() {
    let all = [PanStatus::Verified, PanStatus::Unverified, PanStatus::Invalid];
    for x in all {
        assert_eq!(PanStatus::from_db_str(x.to_db_str()), x);
    }
    assert_eq!(PanStatus::Verified.to_db_str(), "VERIFIED");
    assert_eq!(PanStatus::Unverified.to_db_str(), "UNVERIFIED");
    assert_eq!(PanStatus::Invalid.to_db_str(), "INVALID");
    assert_eq!(PanStatus::from_db_str("no-such-code"), PanStatus::Unverified);
}

#[test]
fn gstin_status_codes_read_back() {
    let all = [GstinStatus::Verified, GstinStatus::Unverified, GstinStatus::Invalid, GstinStatus::NotRegistered];
    for x in all {
        assert_eq!(GstinStatus::from_db_str(x.to_db_str()), x);
    }
    assert_eq!(GstinStatus::Verified.to_db_str(), "VERIFIED");
    assert_eq!(GstinStatus::Unverified.to_db_str(), "UNVERIFIED");
    assert_eq!(GstinStatus::Invalid.to_db_str(), "INVALID");
    assert_eq!(GstinStatus::NotRegistered.to_db_str(), "NOT_REGISTERED");
    assert_eq!(GstinStatus::from_db_str("no-such-code"), GstinStatus::Unverified);
}

#[test]
fn registration_type_codes_read_back() {
    let all = [RegistrationType::Regular, RegistrationType::Composition, RegistrationType::Unregistered, RegistrationType::NonResident];
    for x in all {
        assert_eq!(RegistrationType::from_db_str(x.to_db_str()), x);
    }
    assert_eq!(RegistrationType::Regular.to_db_str(), "REGULAR");
    assert_eq!(RegistrationType::Composition.to_db_str(), "COMPOSITION");
    assert_eq!(RegistrationType::Unregistered.to_db_str(), "UNREGISTERED");
    assert_eq!(RegistrationType::NonResident.to_db_str(), "NON_RESIDENT");
    assert_eq!(RegistrationType::from_db_str("no-such-code"), RegistrationType::Regular);
}

#[test]
fn msme_type_codes_read_back() {
    let all = [MsmeType::Micro, MsmeType::Small, MsmeType::Medium];
    for x in all {
        assert_eq!(MsmeType::from_db_str(x.to_db_str()), x);
    }
    assert_eq!(MsmeType::Micro.to_db_str(), "MICRO");
    assert_eq!(MsmeType::Small.to_db_str(), "SMALL");
    assert_eq!(MsmeType::Medium.to_db_str(), "MEDIUM");
    assert_eq!(MsmeType::from_db_str("no-such-code"), MsmeType::Micro);
}

#[test]
fn bank_account_type_codes_read_back() {
    let all = [BankAccountType::Savings, BankAccountType::Current, BankAccountType::CashCredit];
    for x in all {
        assert_eq!(BankAccountType::from_db_str(x.to_db_str()), x);
    }
    assert_eq!(BankAccountType::Savings.to_db_str(), "SAVINGS");
    assert_eq!(BankAccountType::Current.to_db_str(), "CURRENT");
    assert_eq!(BankAccountType::CashCredit.to_db_str(), "CASH_CREDIT");
    assert_eq!(BankAccountType::from_db_str("no-such-code"), BankAccountType::Current);
}

#[test]
fn bank_validation_status_codes_read_back() {
    let all = [BankValidationStatus::Unverified, BankValidationStatus::Verified, BankValidationStatus::Failed];
    for x in all {
        assert_eq!(BankValidationStatus::from_db_str(x.to_db_str()), x);
    }
    assert_eq!(BankValidationStatus::Unverified.to_db_str(), "UNVERIFIED");
    assert_eq!(BankValidationStatus::Verified.to_db_str(), "VERIFIED");
    assert_eq!(BankValidationStatus::Failed.to_db_str(), "FAILED");
    assert_eq!(BankValidationStatus::from_db_str("no-such-code"), BankValidationStatus::Unverified);
}

#[test]
fn tax_type_codes_read_back() {
    let all = [TaxType::GstExempt, TaxType::Gst5, TaxType::Gst12, TaxType::Gst18, TaxType::Gst28, TaxType::Nil];
    for x in all {
        assert_eq!(TaxType::from_db_str(x.to_db_str()), x);
    }
    assert_eq!(TaxType::GstExempt.to_db_str(), "GST_EXEMPT");
    assert_eq!(TaxType::Gst5.to_db_str(), "GST_5");
    assert_eq!(TaxType::Gst12.to_db_str(), "GST_12");
    assert_eq!(TaxType::Gst18.to_db_str(), "GST_18");
    assert_eq!(TaxType::Gst28.to_db_str(), "GST_28");
    assert_eq!(TaxType::Nil.to_db_str(), "NIL");
    assert_eq!(TaxType::from_db_str("no-such-code"), TaxType::GstExempt);
}

#[test]
fn po_status_codes_read_back() {
    let all = [PoStatus::Draft, PoStatus::Issued, PoStatus::Acknowledged, PoStatus::PartiallyReceived, PoStatus::FullyReceived, PoStatus::Closed, PoStatus::Cancelled];
    for x in all {
        assert_eq!(PoStatus::from_db_str(x.to_db_str()), x);
    }
    assert_eq!(PoStatus::Draft.to_db_str(), "DRAFT");
    assert_eq!(PoStatus::Issued.to_db_str(), "ISSUED");
    assert_eq!(PoStatus::Acknowledged.to_db_str(), "ACKNOWLEDGED");
    assert_eq!(PoStatus::PartiallyReceived.to_db_str(), "PARTIALLY_RECEIVED");
    assert_eq!(PoStatus::FullyReceived.to_db_str(), "FULLY_RECEIVED");
    assert_eq!(PoStatus::Closed.to_db_str(), "CLOSED");
    assert_eq!(PoStatus::Cancelled.to_db_str(), "CANCELLED");
    assert_eq!(PoStatus::from_db_str("no-such-code"), PoStatus::Draft);
}

#[test]
fn grn_status_codes_read_back() {
    let all = [GrnStatus::Draft, GrnStatus::Completed, GrnStatus::Cancelled];
    for x in all {
        assert_eq!(GrnStatus::from_db_str(x.to_db_str()), x);
    }
    assert_eq!(GrnStatus::Draft.to_db_str(), "DRAFT");
    assert_eq!(GrnStatus::Completed.to_db_str(), "COMPLETED");
    assert_eq!(GrnStatus::Cancelled.to_db_str(), "CANCELLED");
    assert_eq!(GrnStatus::from_db_str("no-such-code"), GrnStatus::Draft);
}

#[test]
fn matching_status_codes_read_back() {
    let all = [MatchingStatus::Pending, MatchingStatus::Matched, MatchingStatus::Mismatch, MatchingStatus::Overridden];
    for x in all {
        assert_eq!(MatchingStatus::from_db_str(x.to_db_str()), x);
    }
    assert_eq!(MatchingStatus::Pending.to_db_str(), "PENDING");
    assert_eq!(MatchingStatus::Matched.to_db_str(), "MATCHED");
    assert_eq!(MatchingStatus::Mismatch.to_db_str(), "MISMATCHED");
    assert_eq!(MatchingStatus::Overridden.to_db_str(), "OVERRIDDEN");
    assert_eq!(MatchingStatus::from_db_str("no-such-code"), MatchingStatus::Pending);
}

#[test]
fn invoice_status_codes_read_back() {
    let all = [InvoiceStatus::Draft, InvoiceStatus::PendingApproval, InvoiceStatus::Approved, InvoiceStatus::Posted, InvoiceStatus::Paid, InvoiceStatus::Cancelled];
    for x in all {
        assert_eq!(InvoiceStatus::from_db_str(x.to_db_str()), x);
    }
    assert_eq!(InvoiceStatus::Draft.to_db_str(), "DRAFT");
    assert_eq!(InvoiceStatus::PendingApproval.to_db_str(), "MATCHED");
    assert_eq!(InvoiceStatus::Approved.to_db_str(), "APPROVED");
    assert_eq!(InvoiceStatus::Posted.to_db_str(), "POSTED");
    assert_eq!(InvoiceStatus::Paid.to_db_str(), "PAID");
    assert_eq!(InvoiceStatus::Cancelled.to_db_str(), "CANCELLED");
    assert_eq!(InvoiceStatus::from_db_str("no-such-code"), InvoiceStatus::Draft);
}

#[test]
fn payment_status_codes_read_back() {
    let all = [PaymentStatus::Unpaid, PaymentStatus::PartiallyPaid, PaymentStatus::Paid];
    for x in all {
        assert_eq!(PaymentStatus::from_db_str(x.to_db_str()), x);
    }
    assert_eq!(PaymentStatus::Unpaid.to_db_str(), "UNPAID");
    assert_eq!(PaymentStatus::PartiallyPaid.to_db_str(), "PARTIALLY_PAID");
    assert_eq!(PaymentStatus::Paid.to_db_str(), "PAID");
    assert_eq!(PaymentStatus::from_db_str("no-such-code"), PaymentStatus::Unpaid);
}

#[test]
fn payment_type_codes_read_back() {
    let all = [PaymentType::VendorPayment, PaymentType::RcmPayment, PaymentType::TdsDeposit, PaymentType::Advance, PaymentType::Refund, PaymentType::Other];
    for x in all {
        assert_eq!(PaymentType::from_db_str(x.to_db_str()), x);
    }
    assert_eq!(PaymentType::VendorPayment.to_db_str(), "VENDOR_PAYMENT");
    assert_eq!(PaymentType::RcmPayment.to_db_str(), "RCM_PAYMENT");
    assert_eq!(PaymentType::TdsDeposit.to_db_str(), "TDS_DEPOSIT");
    assert_eq!(PaymentType::Advance.to_db_str(), "ADVANCE");
    assert_eq!(PaymentType::Refund.to_db_str(), "REFUND");
    assert_eq!(PaymentType::Other.to_db_str(), "OTHER");
    assert_eq!(PaymentType::from_db_str("no-such-code"), PaymentType::Other);
}

#[test]
fn vendor_payment_mode_codes_read_back() {
    let all = [PaymentMode::Neft, PaymentMode::Rtgs, PaymentMode::Imps, PaymentMode::Cheque, PaymentMode::Dd, PaymentMode::Cash];
    for x in all {
        assert_eq!(PaymentMode::from_db_str(x.to_db_str()), x);
    }
    assert_eq!(PaymentMode::Neft.to_db_str(), "NEFT");
    assert_eq!(PaymentMode::Rtgs.to_db_str(), "RTGS");
    assert_eq!(PaymentMode::Imps.to_db_str(), "IMPS");
    assert_eq!(PaymentMode::Cheque.to_db_str(), "CHEQUE");
    assert_eq!(PaymentMode::Dd.to_db_str(), "DD");
    assert_eq!(PaymentMode::Cash.to_db_str(), "CASH");
    assert_eq!(PaymentMode::from_db_str("no-such-code"), PaymentMode::Cash);
}

#[test]
fn vp_status_codes_read_back() {
    let all = [VpStatus::Initiated, VpStatus::Approved, VpStatus::Scheduled, VpStatus::Processed, VpStatus::Completed, VpStatus::Failed, VpStatus::Cancelled];
    for x in all {
        assert_eq!(VpStatus::from_db_str(x.to_db_str()), x);
    }
    assert_eq!(VpStatus::Initiated.to_db_str(), "INITIATED");
    assert_eq!(VpStatus::Approved.to_db_str(), "APPROVED");
    assert_eq!(VpStatus::Scheduled.to_db_str(), "SCHEDULED");
    assert_eq!(VpStatus::Processed.to_db_str(), "PROCESSED");
    assert_eq!(VpStatus::Completed.to_db_str(), "COMPLETED");
    assert_eq!(VpStatus::Failed.to_db_str(), "FAILED");
    assert_eq!(VpStatus::Cancelled.to_db_str(), "CANCELLED");
    assert_eq!(VpStatus::from_db_str("no-such-code"), VpStatus::Initiated);
}

#[test]
fn tds_deposit_status_codes_read_back() {
    let all = [TdsDepositStatus::Pending, TdsDepositStatus::Deposited, TdsDepositStatus::Filed];
    for x in all {
        assert_eq!(TdsDepositStatus::from_db_str(x.to_db_str()), x);
    }
    assert_eq!(TdsDepositStatus::Pending.to_db_str(), "PENDING");
    assert_eq!(TdsDepositStatus::Deposited.to_db_str(), "DEPOSITED");
    assert_eq!(TdsDepositStatus::Filed.to_db_str(), "FILED");
    assert_eq!(TdsDepositStatus::from_db_str("no-such-code"), TdsDepositStatus::Pending);
}
