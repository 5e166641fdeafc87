//! Status and classification enums of the receivables aggregates, with
//! their database codes. Every `from_db_str` reads back what `to_db_str`
//! writes.

use vstd::prelude::*;
use crate::text::str_eq;

verus! {

/// The type of concession calculation.
#[derive(Debug, Clone, Copy, PartialEq, Eq, Structural)]
pub enum ConcessionType {
    Percentage,
    FixedAmount,
    FullWaiver,
}

impl ConcessionType {
    /// The database code of a value.
    pub open spec fn code(self) -> Seq<char> {
        match self {
            ConcessionType::Percentage => "PERCENTAGE"@,
            ConcessionType::FixedAmount => "FIXED_AMOUNT"@,
            ConcessionType::FullWaiver => "FULL_WAIVER"@,
        }
    }

    /// The value a database code stands for; any other code reads as `Percentage`.
    pub open spec fn from_code(s: Seq<char>) -> ConcessionType {
        if s == "PERCENTAGE"@ {
            ConcessionType::Percentage
        } else if s == "FIXED_AMOUNT"@ {
            ConcessionType::FixedAmount
        } else if s == "FULL_WAIVER"@ {
            ConcessionType::FullWaiver
        } else {
            ConcessionType::Percentage
        }
    }

    pub fn to_db_str(&self) -> (r: &'static str)
        ensures
            r@ == self.code(),
    {
        match self {
            ConcessionType::Percentage => "PERCENTAGE",
            ConcessionType::FixedAmount => "FIXED_AMOUNT",
            ConcessionType::FullWaiver => "FULL_WAIVER",
        }
    }

    pub fn from_db_str(s: &str) -> (r: Self)
        ensures
            r == Self::from_code(s@),
    {
        if str_eq(s, "PERCENTAGE") {
            ConcessionType::Percentage
        } else if str_eq(s, "FIXED_AMOUNT") {
            ConcessionType::FixedAmount
        } else if str_eq(s, "FULL_WAIVER") {
            ConcessionType::FullWaiver
        } else {
            ConcessionType::Percentage
        }
    }
}

/// Reading back the database code of any `ConcessionType` gives the same value.
pub proof fn lemma_concession_type_round_trip(x: ConcessionType)
    ensures
        ConcessionType::from_code(x.code()) == x,
{
    reveal_strlit("PERCENTAGE");
    reveal_strlit("FIXED_AMOUNT");
    reveal_strlit("FULL_WAIVER");
    assert("PERCENTAGE"@.len() == 10);
    assert("FIXED_AMOUNT"@.len() == 12);
    assert("FULL_WAIVER"@.len() == 11);
}

/// Status of the concession.
#[derive(Debug, Clone, Copy, PartialEq, Eq, Structural)]
pub enum ConcessionStatus {
    Applied,
    Approved,
    Rejected,
    Expired,
}

impl ConcessionStatus {
    /// The database code of a value.
    pub open spec fn code(self) -> Seq<char> {
        match self {
            ConcessionStatus::Applied => "APPLIED"@,
            ConcessionStatus::Approved => "APPROVED"@,
            ConcessionStatus::Rejected => "REJECTED"@,
            ConcessionStatus::Expired => "EXPIRED"@,
        }
    }

    /// The value a database code stands for; any other code reads as `Applied`.
    pub open spec fn from_code(s: Seq<char>) -> ConcessionStatus {
        if s == "APPLIED"@ {
            ConcessionStatus::Applied
        } else if s == "APPROVED"@ {
            ConcessionStatus::Approved
        } else if s == "REJECTED"@ {
            ConcessionStatus::Rejected
        } else if s == "EXPIRED"@ {
            ConcessionStatus::Expired
        } else {
            ConcessionStatus::Applied
        }
    }

    pub fn to_db_str(&self) -> (r: &'static str)
        ensures
            r@ == self.code(),
    {
        match self {
            ConcessionStatus::Applied => "APPLIED",
            ConcessionStatus::Approved => "APPROVED",
            ConcessionStatus::Rejected => "REJECTED",
            ConcessionStatus::Expired => "EXPIRED",
        }
    }

    pub fn from_db_str(s: &str) -> (r: Self)
        ensures
            r == Self::from_code(s@),
    {
        if str_eq(s, "APPLIED") {
            ConcessionStatus::Applied
        } else if str_eq(s, "APPROVED") {
            ConcessionStatus::Approved
        } else if str_eq(s, "REJECTED") {
            ConcessionStatus::Rejected
        } else if str_eq(s, "EXPIRED") {
            ConcessionStatus::Expired
        } else {
            ConcessionStatus::Applied
        }
    }
}

/// Reading back the database code of any `ConcessionStatus` gives the same value.
pub proof fn lemma_concession_status_round_trip(x: ConcessionStatus)
    ensures
        ConcessionStatus::from_code(x.code()) == x,
{
    reveal_strlit("APPLIED");
    reveal_strlit("APPROVED");
    reveal_strlit("REJECTED");
    reveal_strlit("EXPIRED");
    assert("APPLIED"@.len() == 7);
    assert("APPROVED"@.len() == 8);
    assert("REJECTED"@.len() == 8);
    assert("EXPIRED"@.len() == 7);
    assert("APPLIED"@[0] == 'A');
    assert("EXPIRED"@[0] == 'E');
    assert("APPROVED"@[0] == 'A');
    assert("REJECTED"@[0] == 'R');
}

/// The type/category of a fee head.
#[derive(Debug, Clone, Copy, PartialEq, Eq, Structural)]
pub enum FeeType {
    Tuition,
    Exam,
    Library,
    Lab,
    Hostel,
    Transport,
    Mess,
    Sports,
    Development,
    Other,
}

impl FeeType {
    /// The database code of a value.
    pub open spec fn code(self) -> Seq<char> {
        match self {
            FeeType::Tuition => "TUITION"@,
            FeeType::Exam => "EXAM"@,
            FeeType::Library => "LIBRARY"@,
            FeeType::Lab => "LAB"@,
            FeeType::Hostel => "HOSTEL"@,
            FeeType::Transport => "TRANSPORT"@,
            FeeType::Mess => "MESS"@,
            FeeType::Sports => "SPORTS"@,
            FeeType::Development => "DEVELOPMENT"@,
            FeeType::Other => "OTHER"@,
        }
    }

    /// The value a database code stands for; any other code reads as `Other`.
    pub open spec fn from_code(s: Seq<char>) -> FeeType {
        if s == "TUITION"@ {
            FeeType::Tuition
        } else if s == "EXAM"@ {
            FeeType::Exam
        } else if s == "LIBRARY"@ {
            FeeType::Library
        } else if s == "LAB"@ {
            FeeType::Lab
        } else if s == "HOSTEL"@ {
            FeeType::Hostel
        } else if s == "TRANSPORT"@ {
            FeeType::Transport
        } else if s == "MESS"@ {
            FeeType::Mess
        } else if s == "SPORTS"@ {
            FeeType::Sports
        } else if s == "DEVELOPMENT"@ {
            FeeType::Development
        } else {
            FeeType::Other
        }
    }

    pub fn to_db_str(&self) -> (r: &'static str)
        ensures
            r@ == self.code(),
    {
        match self {
            FeeType::Tuition => "TUITION",
            FeeType::Exam => "EXAM",
            FeeType::Library => "LIBRARY",
            FeeType::Lab => "LAB",
            FeeType::Hostel => "HOSTEL",
            FeeType::Transport => "TRANSPORT",
            FeeType::Mess => "MESS",
            FeeType::Sports => "SPORTS",
            FeeType::Development => "DEVELOPMENT",
            FeeType::Other => "OTHER",
        }
    }

    pub fn from_db_str(s: &str) -> (r: Self)
        ensures
            r == Self::from_code(s@),
    {
        if str_eq(s, "TUITION") {
            FeeType::Tuition
        } else if str_eq(s, "EXAM") {
            FeeType::Exam
        } else if str_eq(s, "LIBRARY") {
            FeeType::Library
        } else if str_eq(s, "LAB") {
            FeeType::Lab
        } else if str_eq(s, "HOSTEL") {
            FeeType::Hostel
        } else if str_eq(s, "TRANSPORT") {
            FeeType::Transport
        } else if str_eq(s, "MESS") {
            FeeType::Mess
        } else if str_eq(s, "SPORTS") {
            FeeType::Sports
        } else if str_eq(s, "DEVELOPMENT") {
            FeeType::Development
        } else {
            FeeType::Other
        }
    }
}

/// Reading back the database code of any `FeeType` gives the same value.
pub proof fn lemma_fee_type_round_trip(x: FeeType)
    ensures
        FeeType::from_code(x.code()) == x,
{
    reveal_strlit("TUITION");
    reveal_strlit("EXAM");
    reveal_strlit("LIBRARY");
    reveal_strlit("LAB");
    reveal_strlit("HOSTEL");
    reveal_strlit("TRANSPORT");
    reveal_strlit("MESS");
    reveal_strlit("SPORTS");
    reveal_strlit("DEVELOPMENT");
    reveal_strlit("OTHER");
    assert("TUITION"@.len() == 7);
    assert("EXAM"@.len() == 4);
    assert("LIBRARY"@.len() == 7);
    assert("LAB"@.len() == 3);
    assert("HOSTEL"@.len() == 6);
    assert("TRANSPORT"@.len() == 9);
    assert("MESS"@.len() == 4);
    assert("SPORTS"@.len() == 6);
    assert("DEVELOPMENT"@.len() == 11);
    assert("OTHER"@.len() == 5);
    assert("TUITION"@[0] == 'T');
    assert("LIBRARY"@[0] == 'L');
    assert("EXAM"@[0] == 'E');
    assert("MESS"@[0] == 'M');
    assert("HOSTEL"@[0] == 'H');
    assert("SPORTS"@[0] == 'S');
}

/// GST classification for a fee head — determines whether GST is charged.
#[derive(Debug, Clone, Copy, PartialEq, Eq, Structural)]
pub enum GstClassification {
    Exempt,
    Nil,
    Taxable5,
    Taxable12,
    Taxable18,
    Taxable28,
}

impl GstClassification {
    /// The database code of a value.
    pub open spec fn code(self) -> Seq<char> {
        match self {
            GstClassification::Exempt => "EXEMPT"@,
            GstClassification::Nil => "NIL"@,
            GstClassification::Taxable5 => "TAXABLE_5"@,
            GstClassification::Taxable12 => "TAXABLE_12"@,
            GstClassification::Taxable18 => "TAXABLE_18"@,
            GstClassification::Taxable28 => "TAXABLE_28"@,
        }
    }

    /// The value a database code stands for; any other code reads as `Exempt`.
    pub open spec fn from_code(s: Seq<char>) -> GstClassification {
        if s == "EXEMPT"@ {
            GstClassification::Exempt
        } else if s == "NIL"@ {
            GstClassification::Nil
        } else if s == "TAXABLE_5"@ {
            GstClassification::Taxable5
        } else if s == "TAXABLE_12"@ {
            GstClassification::Taxable12
        } else if s == "TAXABLE_18"@ {
            GstClassification::Taxable18
        } else if s == "TAXABLE_28"@ {
            GstClassification::Taxable28
        } else {
            GstClassification::Exempt
        }
    }

    pub fn to_db_str(&self) -> (r: &'static str)
        ensures
            r@ == self.code(),
    {
        match self {
            GstClassification::Exempt => "EXEMPT",
            GstClassification::Nil => "NIL",
            GstClassification::Taxable5 => "TAXABLE_5",
            GstClassification::Taxable12 => "TAXABLE_12",
            GstClassification::Taxable18 => "TAXABLE_18",
            GstClassification::Taxable28 => "TAXABLE_28",
        }
    }

    pub fn from_db_str(s: &str) -> (r: Self)
        ensures
            r == Self::from_code(s@),
    {
        if str_eq(s, "EXEMPT") {
            GstClassification::Exempt
        } else if str_eq(s, "NIL") {
            GstClassification::Nil
        } else if str_eq(s, "TAXABLE_5") {
            GstClassification::Taxable5
        } else if str_eq(s, "TAXABLE_12") {
            GstClassification::Taxable12
        } else if str_eq(s, "TAXABLE_18") {
            GstClassification::Taxable18
        } else if str_eq(s, "TAXABLE_28") {
            GstClassification::Taxable28
        } else {
            GstClassification::Exempt
        }
    }
}

/// Reading back the database code of any `GstClassification` gives the same value.
pub proof fn lemma_gst_classification_round_trip(x: GstClassification)
    ensures
        GstClassification::from_code(x.code()) == x,
{
    reveal_strlit("EXEMPT");
    reveal_strlit("NIL");
    reveal_strlit("TAXABLE_5");
    reveal_strlit("TAXABLE_12");
    reveal_strlit("TAXABLE_18");
    reveal_strlit("TAXABLE_28");
    assert("EXEMPT"@.len() == 6);
    assert("NIL"@.len() == 3);
    assert("TAXABLE_5"@.len() == 9);
    assert("TAXABLE_12"@.len() == 10);
    assert("TAXABLE_18"@.len() == 10);
    assert("TAXABLE_28"@.len() == 10);
    assert("TAXABLE_12"@[9] == '2');
    assert("TAXABLE_18"@[9] == '8');
    assert("TAXABLE_12"@[8] == '1');
    assert("TAXABLE_28"@[8] == '2');
    assert("TAXABLE_18"@[8] == '1');
}

/// Refund status states.
#[derive(Debug, Clone, Copy, PartialEq, Eq, Structural)]
pub enum RefundStatus {
    Requested,
    Approved,
    Processed,
    Rejected,
}

impl RefundStatus {
    /// The database code of a value.
    pub open spec fn code(self) -> Seq<char> {
        match self {
            RefundStatus::Requested => "REQUESTED"@,
            RefundStatus::Approved => "APPROVED"@,
            RefundStatus::Processed => "PROCESSED"@,
            RefundStatus::Rejected => "REJECTED"@,
        }
    }

    /// The value a database code stands for; any other code reads as `Requested`.
    pub open spec fn from_code(s: Seq<char>) -> RefundStatus {
        if s == "REQUESTED"@ {
            RefundStatus::Requested
        } else if s == "APPROVED"@ {
            RefundStatus::Approved
        } else if s == "PROCESSED"@ {
            RefundStatus::Processed
        } else if s == "REJECTED"@ {
            RefundStatus::Rejected
        } else {
            RefundStatus::Requested
        }
    }

    pub fn to_db_str(&self) -> (r: &'static str)
        ensures
            r@ == self.code(),
    {
        match self {
            RefundStatus::Requested => "REQUESTED",
            RefundStatus::Approved => "APPROVED",
            RefundStatus::Processed => "PROCESSED",
            RefundStatus::Rejected => "REJECTED",
        }
    }

    pub fn from_db_str(s: &str) -> (r: Self)
        ensures
            r == Self::from_code(s@),
    {
        if str_eq(s, "REQUESTED") {
            RefundStatus::Requested
        } else if str_eq(s, "APPROVED") {
            RefundStatus::Approved
        } else if str_eq(s, "PROCESSED") {
            RefundStatus::Processed
        } else if str_eq(s, "REJECTED") {
            RefundStatus::Rejected
        } else {
            RefundStatus::Requested
        }
    }
}

/// Reading back the database code of any `RefundStatus` gives the same value.
pub proof fn lemma_refund_status_round_trip(x: RefundStatus)
    ensures
        RefundStatus::from_code(x.code()) == x,
{
    reveal_strlit("REQUESTED");
    reveal_strlit("APPROVED");
    reveal_strlit("PROCESSED");
    reveal_strlit("REJECTED");
    assert("REQUESTED"@.len() == 9);
    assert("APPROVED"@.len() == 8);
    assert("PROCESSED"@.len() == 9);
    assert("REJECTED"@.len() == 8);
    assert("REQUESTED"@[0] == 'R');
    assert("PROCESSED"@[0] == 'P');
    assert("APPROVED"@[0] == 'A');
    assert("REJECTED"@[0] == 'R');
}

/// Refund payment mode.
#[derive(Debug, Clone, Copy, PartialEq, Eq, Structural)]
pub enum RefundMode {
    NEFT,
    RTGS,
    IMPS,
    UPI,
    Cheque,
    Cash,
    CreditNote,
}

impl RefundMode {
    /// The database code of a value.
    pub open spec fn code(self) -> Seq<char> {
        match self {
            RefundMode::NEFT => "NEFT"@,
            RefundMode::RTGS => "RTGS"@,
            RefundMode::IMPS => "IMPS"@,
            RefundMode::UPI => "UPI"@,
            RefundMode::Cheque => "CHEQUE"@,
            RefundMode::Cash => "CASH"@,
            RefundMode::CreditNote => "CREDIT_NOTE"@,
        }
    }

    /// The value a database code stands for; any other code reads as `NEFT`.
    pub open spec fn from_code(s: Seq<char>) -> RefundMode {
        if s == "NEFT"@ {
            RefundMode::NEFT
        } else if s == "RTGS"@ {
            RefundMode::RTGS
        } else if s == "IMPS"@ {
            RefundMode::IMPS
        } else if s == "UPI"@ {
            RefundMode::UPI
        } else if s == "CHEQUE"@ {
            RefundMode::Cheque
        } else if s == "CASH"@ {
            RefundMode::Cash
        } else if s == "CREDIT_NOTE"@ {
            RefundMode::CreditNote
        } else {
            RefundMode::NEFT
        }
    }

    pub fn to_db_str(&self) -> (r: &'static str)
        ensures
            r@ == self.code(),
    {
        match self {
            RefundMode::NEFT => "NEFT",
            RefundMode::RTGS => "RTGS",
            RefundMode::IMPS => "IMPS",
            RefundMode::UPI => "UPI",
            RefundMode::Cheque => "CHEQUE",
            RefundMode::Cash => "CASH",
            RefundMode::CreditNote => "CREDIT_NOTE",
        }
    }

    pub fn from_db_str(s: &str) -> (r: Self)
        ensures
            r == Self::from_code(s@),
    {
        if str_eq(s, "NEFT") {
            RefundMode::NEFT
        } else if str_eq(s, "RTGS") {
            RefundMode::RTGS
        } else if str_eq(s, "IMPS") {
            RefundMode::IMPS
        } else if str_eq(s, "UPI") {
            RefundMode::UPI
        } else if str_eq(s, "CHEQUE") {
            RefundMode::Cheque
        } else if str_eq(s, "CASH") {
            RefundMode::Cash
        } else if str_eq(s, "CREDIT_NOTE") {
            RefundMode::CreditNote
        } else {
            RefundMode::NEFT
        }
    }
}

/// Reading back the database code of any `RefundMode` gives the same value.
pub proof fn lemma_refund_mode_round_trip(x: RefundMode)
    ensures
        RefundMode::from_code(x.code()) == x,
{
    reveal_strlit("NEFT");
    reveal_strlit("RTGS");
    reveal_strlit("IMPS");
    reveal_strlit("UPI");
    reveal_strlit("CHEQUE");
    reveal_strlit("CASH");
    reveal_strlit("CREDIT_NOTE");
    assert("NEFT"@.len() == 4);
    assert("RTGS"@.len() == 4);
    assert("IMPS"@.len() == 4);
    assert("UPI"@.len() == 3);
    assert("CHEQUE"@.len() == 6);
    assert("CASH"@.len() == 4);
    assert("CREDIT_NOTE"@.len() == 11);
    assert("NEFT"@[0] == 'N');
    assert("RTGS"@[0] == 'R');
    assert("IMPS"@[0] == 'I');
    assert("CASH"@[0] == 'C');
}

/// Categories for scholarship schemes (caste/merit/sports-based, etc.).
#[derive(Debug, Clone, Copy, PartialEq, Eq, Structural)]
pub enum ScholarshipCategory {
    SC,
    ST,
    OBC,
    VJNT,
    EBC,
    Minority,
    Merit,
    Sports,
    PhysicallyDisabled,
    Other,
}

impl ScholarshipCategory {
    /// The database code of a value.
    pub open spec fn code(self) -> Seq<char> {
        match self {
            ScholarshipCategory::SC => "SC"@,
            ScholarshipCategory::ST => "ST"@,
            ScholarshipCategory::OBC => "OBC"@,
            ScholarshipCategory::VJNT => "VJNT"@,
            ScholarshipCategory::EBC => "EBC"@,
            ScholarshipCategory::Minority => "MINORITY"@,
            ScholarshipCategory::Merit => "MERIT"@,
            ScholarshipCategory::Sports => "SPORTS"@,
            ScholarshipCategory::PhysicallyDisabled => "PHYSICALLY_DISABLED"@,
            ScholarshipCategory::Other => "OTHER"@,
        }
    }

    /// The value a database code stands for; any other code reads as `Other`.
    pub open spec fn from_code(s: Seq<char>) -> ScholarshipCategory {
        if s == "SC"@ {
            ScholarshipCategory::SC
        } else if s == "ST"@ {
            ScholarshipCategory::ST
        } else if s == "OBC"@ {
            ScholarshipCategory::OBC
        } else if s == "VJNT"@ {
            ScholarshipCategory::VJNT
        } else if s == "EBC"@ {
            ScholarshipCategory::EBC
        } else if s == "MINORITY"@ {
            ScholarshipCategory::Minority
        } else if s == "MERIT"@ {
            ScholarshipCategory::Merit
        } else if s == "SPORTS"@ {
            ScholarshipCategory::Sports
        } else if s == "PHYSICALLY_DISABLED"@ {
            ScholarshipCategory::PhysicallyDisabled
        } else {
            ScholarshipCategory::Other
        }
    }

    pub fn to_db_str(&self) -> (r: &'static str)
        ensures
            r@ == self.code(),
    {
        match self {
            ScholarshipCategory::SC => "SC",
            ScholarshipCategory::ST => "ST",
            ScholarshipCategory::OBC => "OBC",
            ScholarshipCategory::VJNT => "VJNT",
            ScholarshipCategory::EBC => "EBC",
            ScholarshipCategory::Minority => "MINORITY",
            ScholarshipCategory::Merit => "MERIT",
            ScholarshipCategory::Sports => "SPORTS",
            ScholarshipCategory::PhysicallyDisabled => "PHYSICALLY_DISABLED",
            ScholarshipCategory::Other => "OTHER",
        }
    }

    pub fn from_db_str(s: &str) -> (r: Self)
        ensures
            r == Self::from_code(s@),
    {
        if str_eq(s, "SC") {
            ScholarshipCategory::SC
        } else if str_eq(s, "ST") {
            ScholarshipCategory::ST
        } else if str_eq(s, "OBC") {
            ScholarshipCategory::OBC
        } else if str_eq(s, "VJNT") {
            ScholarshipCategory::VJNT
        } else if str_eq(s, "EBC") {
            ScholarshipCategory::EBC
        } else if str_eq(s, "MINORITY") {
            ScholarshipCategory::Minority
        } else if str_eq(s, "MERIT") {
            ScholarshipCategory::Merit
        } else if str_eq(s, "SPORTS") {
            ScholarshipCategory::Sports
        } else if str_eq(s, "PHYSICALLY_DISABLED") {
            ScholarshipCategory::PhysicallyDisabled
        } else {
            ScholarshipCategory::Other
        }
    }
}

/// Reading back the database code of any `ScholarshipCategory` gives the same value.
pub proof fn lemma_scholarship_category_round_trip(x: ScholarshipCategory)
    ensures
        ScholarshipCategory::from_code(x.code()) == x,
{
    reveal_strlit("SC");
    reveal_strlit("ST");
    reveal_strlit("OBC");
    reveal_strlit("VJNT");
    reveal_strlit("EBC");
    reveal_strlit("MINORITY");
    reveal_strlit("MERIT");
    reveal_strlit("SPORTS");
    reveal_strlit("PHYSICALLY_DISABLED");
    reveal_strlit("OTHER");
    assert("SC"@.len() == 2);
    assert("ST"@.len() == 2);
    assert("OBC"@.len() == 3);
    assert("VJNT"@.len() == 4);
    assert("EBC"@.len() == 3);
    assert("MINORITY"@.len() == 8);
    assert("MERIT"@.len() == 5);
    assert("SPORTS"@.len() == 6);
    assert("PHYSICALLY_DISABLED"@.len() == 19);
    assert("OTHER"@.len() == 5);
    assert("SC"@[1] == 'C');
    assert("ST"@[1] == 'T');
    assert("OBC"@[0] == 'O');
    assert("EBC"@[0] == 'E');
    assert("MERIT"@[0] == 'M');
    assert("OTHER"@[0] == 'O');
}

/// Funding source for a scholarship scheme.
#[derive(Debug, Clone, Copy, PartialEq, Eq, Structural)]
pub enum FundingSource {
    CentralGovt,
    StateGovt,
    Institution,
    Private,
}

impl FundingSource {
    /// The database code of a value.
    pub open spec fn code(self) -> Seq<char> {
        match self {
            FundingSource::CentralGovt => "CENTRAL_GOVT"@,
            FundingSource::StateGovt => "STATE_GOVT"@,
            FundingSource::Institution => "INSTITUTION"@,
            FundingSource::Private => "PRIVATE"@,
        }
    }

    /// The value a database code stands for; any other code reads as `Private`.
    pub open spec fn from_code(s: Seq<char>) -> FundingSource {
        if s == "CENTRAL_GOVT"@ {
            FundingSource::CentralGovt
        } else if s == "STATE_GOVT"@ {
            FundingSource::StateGovt
        } else if s == "INSTITUTION"@ {
            FundingSource::Institution
        } else {
            FundingSource::Private
        }
    }

    pub fn to_db_str(&self) -> (r: &'static str)
        ensures
            r@ == self.code(),
    {
        match self {
            FundingSource::CentralGovt => "CENTRAL_GOVT",
            FundingSource::StateGovt => "STATE_GOVT",
            FundingSource::Institution => "INSTITUTION",
            FundingSource::Private => "PRIVATE",
        }
    }

    pub fn from_db_str(s: &str) -> (r: Self)
        ensures
            r == Self::from_code(s@),
    {
        if str_eq(s, "CENTRAL_GOVT") {
            FundingSource::CentralGovt
        } else if str_eq(s, "STATE_GOVT") {
            FundingSource::StateGovt
        } else if str_eq(s, "INSTITUTION") {
            FundingSource::Institution
        } else {
            FundingSource::Private
        }
    }
}

/// Reading back the database code of any `FundingSource` gives the same value.
pub proof fn lemma_funding_source_round_trip(x: FundingSource)
    ensures
        FundingSource::from_code(x.code()) == x,
{
    reveal_strlit("CENTRAL_GOVT");
    reveal_strlit("STATE_GOVT");
    reveal_strlit("INSTITUTION");
    reveal_strlit("PRIVATE");
    assert("CENTRAL_GOVT"@.len() == 12);
    assert("STATE_GOVT"@.len() == 10);
    assert("INSTITUTION"@.len() == 11);
    assert("PRIVATE"@.len() == 7);
}

/// Lifecycle of a student scholarship.
#[derive(Debug, Clone, Copy, PartialEq, Eq, Structural)]
pub enum ScholarshipStatus {
    Applied,
    Verified,
    Sanctioned,
    Disbursed,
    Rejected,
    Reconciled,
}

impl ScholarshipStatus {
    /// The database code of a value.
    pub open spec fn code(self) -> Seq<char> {
        match self {
            ScholarshipStatus::Applied => "APPLIED"@,
            ScholarshipStatus::Verified => "VERIFIED"@,
            ScholarshipStatus::Sanctioned => "SANCTIONED"@,
            ScholarshipStatus::Disbursed => "DISBURSED"@,
            ScholarshipStatus::Rejected => "REJECTED"@,
            ScholarshipStatus::Reconciled => "RECONCILED"@,
        }
    }

    /// The value a database code stands for; any other code reads as `Applied`.
    pub open spec fn from_code(s: Seq<char>) -> ScholarshipStatus {
        if s == "APPLIED"@ {
            ScholarshipStatus::Applied
        } else if s == "VERIFIED"@ {
            ScholarshipStatus::Verified
        } else if s == "SANCTIONED"@ {
            ScholarshipStatus::Sanctioned
        } else if s == "DISBURSED"@ {
            ScholarshipStatus::Disbursed
        } else if s == "REJECTED"@ {
            ScholarshipStatus::Rejected
        } else if s == "RECONCILED"@ {
            ScholarshipStatus::Reconciled
        } else {
            ScholarshipStatus::Applied
        }
    }

    pub fn to_db_str(&self) -> (r: &'static str)
        ensures
            r@ == self.code(),
    {
        match self {
            ScholarshipStatus::Applied => "APPLIED",
            ScholarshipStatus::Verified => "VERIFIED",
            ScholarshipStatus::Sanctioned => "SANCTIONED",
            ScholarshipStatus::Disbursed => "DISBURSED",
            ScholarshipStatus::Rejected => "REJECTED",
            ScholarshipStatus::Reconciled => "RECONCILED",
        }
    }

    pub fn from_db_str(s: &str) -> (r: Self)
        ensures
            r == Self::from_code(s@),
    {
        if str_eq(s, "APPLIED") {
            ScholarshipStatus::Applied
        } else if str_eq(s, "VERIFIED") {
            ScholarshipStatus::Verified
        } else if str_eq(s, "SANCTIONED") {
            ScholarshipStatus::Sanctioned
        } else if str_eq(s, "DISBURSED") {
            ScholarshipStatus::Disbursed
        } else if str_eq(s, "REJECTED") {
            ScholarshipStatus::Rejected
        } else if str_eq(s, "RECONCILED") {
            ScholarshipStatus::Reconciled
        } else {
            ScholarshipStatus::Applied
        }
    }
}

/// Reading back the database code of any `ScholarshipStatus` gives the same value.
pub proof fn lemma_scholarship_status_round_trip(x: ScholarshipStatus)
    ensures
        ScholarshipStatus::from_code(x.code()) == x,
{
    reveal_strlit("APPLIED");
    reveal_strlit("VERIFIED");
    reveal_strlit("SANCTIONED");
    reveal_strlit("DISBURSED");
    reveal_strlit("REJECTED");
    reveal_strlit("RECONCILED");
    assert("APPLIED"@.len() == 7);
    assert("VERIFIED"@.len() == 8);
    assert("SANCTIONED"@.len() == 10);
    assert("DISBURSED"@.len() == 9);
    assert("REJECTED"@.len() == 8);
    assert("RECONCILED"@.len() == 10);
    assert("VERIFIED"@[0] == 'V');
    assert("REJECTED"@[0] == 'R');
    assert("SANCTIONED"@[0] == 'S');
    assert("RECONCILED"@[0] == 'R');
}

/// Lifecycle of a fee structure.
#[derive(Debug, Clone, Copy, PartialEq, Eq, Structural)]
pub enum FeeStructureStatus {
    Draft,
    Active,
    Inactive,
}

/// Instrument of a student fee payment.
#[derive(Debug, Clone, Copy, PartialEq, Eq, Structural)]
pub enum PaymentMode {
    Cash,
    Cheque,
    Dd,
    Neft,
    Rtgs,
    Imps,
    Upi,
    CreditCard,
    DebitCard,
    Pos,
    PaymentGateway,
}

/// Lifecycle of a payment receipt.
#[derive(Debug, Clone, Copy, PartialEq, Eq, Structural)]
pub enum ReceiptStatus {
    Pending,
    Completed,
    Failed,
    Refunded,
    Cancelled,
    Uncleared,
    Bounced,
}

/// Collection state of a student fee account.
#[derive(Debug, Clone, Copy, PartialEq, Eq, Structural)]
pub enum FeeAccountStatus {
    Pending,
    PartiallyPaid,
    Paid,
    Overdue,
    Waived,
}

/// Collection state of one installment.
#[derive(Debug, Clone, Copy, PartialEq, Eq, Structural)]
pub enum InstallmentStatus {
    Pending,
    PartiallyPaid,
    Paid,
    Overdue,
    Waived,
}

/// Kind of a transaction on a student fee account.
#[derive(Debug, Clone, Copy, PartialEq, Eq, Structural)]
pub enum FeeTransactionType {
    Payment,
    Reversal,
    Adjustment,
    ScholarshipCredit,
}

impl GstClassification {
    /// The GST rate of a classification, in percentage points.
    pub open spec fn rate_spec(self) -> u32 {
        match self {
            GstClassification::Exempt | GstClassification::Nil => 0,
            GstClassification::Taxable5 => 5,
            GstClassification::Taxable12 => 12,
            GstClassification::Taxable18 => 18,
            GstClassification::Taxable28 => 28,
        }
    }

    /// The GST rate as whole percentage points (0 for exempt and nil-rated).
    pub fn rate(&self) -> (r: u32)
        ensures
            r == self.rate_spec(),
    {
        match self {
            GstClassification::Exempt | GstClassification::Nil => 0,
            GstClassification::Taxable5 => 5,
            GstClassification::Taxable12 => 12,
            GstClassification::Taxable18 => 18,
            GstClassification::Taxable28 => 28,
        }
    }
}

} // verus!
