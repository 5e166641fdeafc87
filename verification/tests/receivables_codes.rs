use sutra_erp::receivables::models::{ConcessionType, ConcessionStatus, FeeType, GstClassification, RefundStatus, RefundMode, ScholarshipCategory, FundingSource, ScholarshipStatus};

#[test]
fn concession_type_codes_read_back() {
    let all = [ConcessionType::Percentage, ConcessionType::FixedAmount, ConcessionType::FullWaiver];
    for x in all {
        assert_eq!(ConcessionType::from_db_str(x.to_db_str()), x);
    }
    assert_eq!(ConcessionType::Percentage.to_db_str(), "PERCENTAGE");
    assert_eq!(ConcessionType::FixedAmount.to_db_str(), "FIXED_AMOUNT");
    assert_eq!(ConcessionType::FullWaiver.to_db_str(), "FULL_WAIVER");
    assert_eq!(ConcessionType::from_db_str("no-such-code"), ConcessionType::Percentage);
}

#[test]
fn concession_status_codes_read_back() {
    let all = [ConcessionStatus::Applied, ConcessionStatus::Approved, ConcessionStatus::Rejected, ConcessionStatus::Expired];
    for x in all {
        assert_eq!(ConcessionStatus::from_db_str(x.to_db_str()), x);
    }
    assert_eq!(ConcessionStatus::Applied.to_db_str(), "APPLIED");
    assert_eq!(ConcessionStatus::Approved.to_db_str(), "APPROVED");
    assert_eq!(ConcessionStatus::Rejected.to_db_str(), "REJECTED");
    assert_eq!(ConcessionStatus::Expired.to_db_str(), "EXPIRED");
    assert_eq!(ConcessionStatus::from_db_str("no-such-code"), ConcessionStatus::Applied);
}

#[test]
fn fee_type_codes_read_back() {
    let all = [FeeType::Tuition, FeeType::Exam, FeeType::Library, FeeType::Lab, FeeType::Hostel, FeeType::Transport, FeeType::Mess, FeeType::Sports, FeeType::Development, FeeType::Other];
    for x in all {
        assert_eq!(FeeType::from_db_str(x.to_db_str()), x);
    }
    assert_eq!(FeeType::Tuition.to_db_str(), "TUITION");
    assert_eq!(FeeType::Exam.to_db_str(), "EXAM");
    assert_eq!(FeeType::Library.to_db_str(), "LIBRARY");
    assert_eq!(FeeType::Lab.to_db_str(), "LAB");
    assert_eq!(FeeType::Hostel.to_db_str(), "HOSTEL");
    assert_eq!(FeeType::Transport.to_db_str(), "TRANSPORT");
    assert_eq!(FeeType::Mess.to_db_str(), "MESS");
    assert_eq!(FeeType::Sports.to_db_str(), "SPORTS");
    assert_eq!(FeeType::Development.to_db_str(), "DEVELOPMENT");
    assert_eq!(FeeType::Other.to_db_str(), "OTHER");
    assert_eq!(FeeType::from_db_str("no-such-code"), FeeType::Other);
}

#[test]
fn gst_classification_codes_read_back() {
    let all = [GstClassification::Exempt, GstClassification::Nil, GstClassification::Taxable5, GstClassification::Taxable12, GstClassification::Taxable18, GstClassification::Taxable28];
    for x in all {
        assert_eq!(GstClassification::from_db_str(x.to_db_str()), x);
    }
    assert_eq!(GstClassification::Exempt.to_db_str(), "EXEMPT");
    assert_eq!(GstClassification::Nil.to_db_str(), "NIL");
    assert_eq!(GstClassification::Taxable5.to_db_str(), "TAXABLE_5");
    assert_eq!(GstClassification::Taxable12.to_db_str(), "TAXABLE_12");
    assert_eq!(GstClassification::Taxable18.to_db_str(), "TAXABLE_18");
    assert_eq!(GstClassification::Taxable28.to_db_str(), "TAXABLE_28");
    assert_eq!(GstClassification::from_db_str("no-such-code"), GstClassification::Exempt);
}

#[test]
fn refund_status_codes_read_back() {
    let all = [RefundStatus::Requested, RefundStatus::Approved, RefundStatus::Processed, RefundStatus::Rejected];
    for x in all {
        assert_eq!(RefundStatus::from_db_str(x.to_db_str()), x);
    }
    assert_eq!(RefundStatus::Requested.to_db_str(), "REQUESTED");
    assert_eq!(RefundStatus::Approved.to_db_str(), "APPROVED");
    assert_eq!(RefundStatus::Processed.to_db_str(), "PROCESSED");
    assert_eq!(RefundStatus::Rejected.to_db_str(), "REJECTED");
    assert_eq!(RefundStatus::from_db_str("no-such-code"), RefundStatus::Requested);
}

#[test]
fn refund_mode_codes_read_back() {
    let all = [RefundMode::NEFT, RefundMode::RTGS, RefundMode::IMPS, RefundMode::UPI, RefundMode::Cheque, RefundMode::Cash, RefundMode::CreditNote];
    for x in all {
        assert_eq!(RefundMode::from_db_str(x.to_db_str()), x);
    }
    assert_eq!(RefundMode::NEFT.to_db_str(), "NEFT");
    assert_eq!(RefundMode::RTGS.to_db_str(), "RTGS");
    assert_eq!(RefundMode::IMPS.to_db_str(), "IMPS");
    assert_eq!(RefundMode::UPI.to_db_str(), "UPI");
    assert_eq!(RefundMode::Cheque.to_db_str(), "CHEQUE");
    assert_eq!(RefundMode::Cash.to_db_str(), "CASH");
    assert_eq!(RefundMode::CreditNote.to_db_str(), "CREDIT_NOTE");
    assert_eq!(RefundMode::from_db_str("no-such-code"), RefundMode::NEFT);
}

#[test]
fn scholarship_category_codes_read_back() {
    let all = [ScholarshipCategory::SC, ScholarshipCategory::ST, ScholarshipCategory::OBC, ScholarshipCategory::VJNT, ScholarshipCategory::EBC, ScholarshipCategory::Minority, ScholarshipCategory::Merit, ScholarshipCategory::Sports, ScholarshipCategory::PhysicallyDisabled, ScholarshipCategory::Other];
    for x in all {
        assert_eq!(ScholarshipCategory::from_db_str(x.to_db_str()), x);
    }
    assert_eq!(ScholarshipCategory::SC.to_db_str(), "SC");
    assert_eq!(ScholarshipCategory::ST.to_db_str(), "ST");
    assert_eq!(ScholarshipCategory::OBC.to_db_str(), "OBC");
    assert_eq!(ScholarshipCategory::VJNT.to_db_str(), "VJNT");
    assert_eq!(ScholarshipCategory::EBC.to_db_str(), "EBC");
    assert_eq!(ScholarshipCategory::Minority.to_db_str(), "MINORITY");
    assert_eq!(ScholarshipCategory::Merit.to_db_str(), "MERIT");
    assert_eq!(ScholarshipCategory::Sports.to_db_str(), "SPORTS");
    assert_eq!(ScholarshipCategory::PhysicallyDisabled.to_db_str(), "PHYSICALLY_DISABLED");
    assert_eq!(ScholarshipCategory::Other.to_db_str(), "OTHER");
    assert_eq!(ScholarshipCategory::from_db_str("no-such-code"), ScholarshipCategory::Other);
}

#[test]
fn funding_source_codes_read_back() {
    let all = [FundingSource::CentralGovt, FundingSource::StateGovt, FundingSource::Institution, FundingSource::Private];
    for x in all {
        assert_eq!(FundingSource::from_db_str(x.to_db_str()), x);
    }
    assert_eq!(FundingSource::CentralGovt.to_db_str(), "CENTRAL_GOVT");
    assert_eq!(FundingSource::StateGovt.to_db_str(), "STATE_GOVT");
    assert_eq!(FundingSource::Institution.to_db_str(), "INSTITUTION");
    assert_eq!(FundingSource::Private.to_db_str(), "PRIVATE");
    assert_eq!(FundingSource::from_db_str("no-such-code"), FundingSource::Private);
}

#[test]
fn scholarship_status_codes_read_back() {
    let all = [ScholarshipStatus::Applied, ScholarshipStatus::Verified, ScholarshipStatus::Sanctioned, ScholarshipStatus::Disbursed, ScholarshipStatus::Rejected, ScholarshipStatus::Reconciled];
    for x in all {
        assert_eq!(ScholarshipStatus::from_db_str(x.to_db_str()), x);
    }
    assert_eq!(ScholarshipStatus::Applied.to_db_str(), "APPLIED");
    assert_eq!(ScholarshipStatus::Verified.to_db_str(), "VERIFIED");
    assert_eq!(ScholarshipStatus::Sanctioned.to_db_str(), "SANCTIONED");
    assert_eq!(ScholarshipStatus::Disbursed.to_db_str(), "DISBURSED");
    assert_eq!(ScholarshipStatus::Rejected.to_db_str(), "REJECTED");
    assert_eq!(ScholarshipStatus::Reconciled.to_db_str(), "RECONCILED");
    assert_eq!(ScholarshipStatus::from_db_str("no-such-code"), ScholarshipStatus::Applied);
}
