//! Status and classification enums of the payables aggregates, with their
//! database codes. Every `from_db_str` reads back what `to_db_str` writes.

use vstd::prelude::*;
use crate::text::str_eq;

verus! {

/// Vendor type / legal constitution.
#[derive(Debug, Clone, Copy, PartialEq, Eq, Structural)]
pub enum VendorType {
    Individual,
    Proprietorship,
    Partnership,
    Llp,
    PrivateLimited,
    PublicLimited,
    Government,
    Trust,
    Society,
    Huf,
    Other,
}

impl VendorType {
    /// The database code of a value.
    pub open spec fn code(self) -> Seq<char> {
        match self {
            VendorType::Individual => "INDIVIDUAL"@,
            VendorType::Proprietorship => "PROPRIETORSHIP"@,
            VendorType::Partnership => "PARTNERSHIP"@,
            VendorType::Llp => "LLP"@,
            VendorType::PrivateLimited => "PVT_LTD"@,
            VendorType::PublicLimited => "PUB_LTD"@,
            VendorType::Government => "GOVERNMENT"@,
            VendorType::Trust => "TRUST"@,
            VendorType::Society => "SOCIETY"@,
            VendorType::Huf => "HUF"@,
            VendorType::Other => "OTHER"@,
        }
    }

    /// The value a database code stands for; any other code reads as `Other`.
    pub open spec fn from_code(s: Seq<char>) -> VendorType {
        if s == "INDIVIDUAL"@ {
            VendorType::Individual
        } else if s == "PROPRIETORSHIP"@ {
            VendorType::Proprietorship
        } else if s == "PARTNERSHIP"@ {
            VendorType::Partnership
        } else if s == "LLP"@ {
            VendorType::Llp
        } else if s == "PVT_LTD"@ {
            VendorType::PrivateLimited
        } else if s == "PUB_LTD"@ {
            VendorType::PublicLimited
        } else if s == "GOVERNMENT"@ {
            VendorType::Government
        } else if s == "TRUST"@ {
            VendorType::Trust
        } else if s == "SOCIETY"@ {
            VendorType::Society
        } else if s == "HUF"@ {
            VendorType::Huf
        } else {
            VendorType::Other
        }
    }

    pub fn to_db_str(&self) -> (r: &'static str)
        ensures
            r@ == self.code(),
    {
        match self {
            VendorType::Individual => "INDIVIDUAL",
            VendorType::Proprietorship => "PROPRIETORSHIP",
            VendorType::Partnership => "PARTNERSHIP",
            VendorType::Llp => "LLP",
            VendorType::PrivateLimited => "PVT_LTD",
            VendorType::PublicLimited => "PUB_LTD",
            VendorType::Government => "GOVERNMENT",
            VendorType::Trust => "TRUST",
            VendorType::Society => "SOCIETY",
            VendorType::Huf => "HUF",
            VendorType::Other => "OTHER",
        }
    }

    pub fn from_db_str(s: &str) -> (r: Self)
        ensures
            r == Self::from_code(s@),
    {
        if str_eq(s, "INDIVIDUAL") {
            VendorType::Individual
        } else if str_eq(s, "PROPRIETORSHIP") {
            VendorType::Proprietorship
        } else if str_eq(s, "PARTNERSHIP") {
            VendorType::Partnership
        } else if str_eq(s, "LLP") {
            VendorType::Llp
        } else if str_eq(s, "PVT_LTD") {
            VendorType::PrivateLimited
        } else if str_eq(s, "PUB_LTD") {
            VendorType::PublicLimited
        } else if str_eq(s, "GOVERNMENT") {
            VendorType::Government
        } else if str_eq(s, "TRUST") {
            VendorType::Trust
        } else if str_eq(s, "SOCIETY") {
            VendorType::Society
        } else if str_eq(s, "HUF") {
            VendorType::Huf
        } else {
            VendorType::Other
        }
    }
}

/// Reading back the database code of any `VendorType` gives the same value.
pub proof fn lemma_vendor_type_round_trip(x: VendorType)
    ensures
        VendorType::from_code(x.code()) == x,
{
    reveal_strlit("INDIVIDUAL");
    reveal_strlit("PROPRIETORSHIP");
    reveal_strlit("PARTNERSHIP");
    reveal_strlit("LLP");
    reveal_strlit("PVT_LTD");
    reveal_strlit("PUB_LTD");
    reveal_strlit("GOVERNMENT");
    reveal_strlit("TRUST");
    reveal_strlit("SOCIETY");
    reveal_strlit("HUF");
    reveal_strlit("OTHER");
    assert("INDIVIDUAL"@.len() == 10);
    assert("PROPRIETORSHIP"@.len() == 14);
    assert("PARTNERSHIP"@.len() == 11);
    assert("LLP"@.len() == 3);
    assert("PVT_LTD"@.len() == 7);
    assert("PUB_LTD"@.len() == 7);
    assert("GOVERNMENT"@.len() == 10);
    assert("TRUST"@.len() == 5);
    assert("SOCIETY"@.len() == 7);
    assert("HUF"@.len() == 3);
    assert("OTHER"@.len() == 5);
    assert("INDIVIDUAL"@[0] == 'I');
    assert("GOVERNMENT"@[0] == 'G');
    assert("LLP"@[0] == 'L');
    assert("HUF"@[0] == 'H');
    assert("PVT_LTD"@[1] == 'V');
    assert("PUB_LTD"@[1] == 'U');
    assert("PVT_LTD"@[0] == 'P');
    assert("SOCIETY"@[0] == 'S');
    assert("PUB_LTD"@[0] == 'P');
    assert("TRUST"@[0] == 'T');
    assert("OTHER"@[0] == 'O');
}

/// Verification state of a vendor's PAN.
#[derive(Debug, Clone, Copy, PartialEq, Eq, Structural)]
pub enum PanStatus {
    Verified,
    Unverified,
    Invalid,
}

impl PanStatus {
    /// The database code of a value.
    pub open spec fn code(self) -> Seq<char> {
        match self {
            PanStatus::Verified => "VERIFIED"@,
            PanStatus::Unverified => "UNVERIFIED"@,
            PanStatus::Invalid => "INVALID"@,
        }
    }

    /// The value a database code stands for; any other code reads as `Unverified`.
    pub open spec fn from_code(s: Seq<char>) -> PanStatus {
        if s == "VERIFIED"@ {
            PanStatus::Verified
        } else if s == "INVALID"@ {
            PanStatus::Invalid
        } else {
            PanStatus::Unverified
        }
    }

    pub fn to_db_str(&self) -> (r: &'static str)
        ensures
            r@ == self.code(),
    {
        match self {
            PanStatus::Verified => "VERIFIED",
            PanStatus::Unverified => "UNVERIFIED",
            PanStatus::Invalid => "INVALID",
        }
    }

    pub fn from_db_str(s: &str) -> (r: Self)
        ensures
            r == Self::from_code(s@),
    {
        if str_eq(s, "VERIFIED") {
            PanStatus::Verified
        } else if str_eq(s, "INVALID") {
            PanStatus::Invalid
        } else {
            PanStatus::Unverified
        }
    }
}

/// Reading back the database code of any `PanStatus` gives the same value.
pub proof fn lemma_pan_status_round_trip(x: PanStatus)
    ensures
        PanStatus::from_code(x.code()) == x,
{
    reveal_strlit("VERIFIED");
    reveal_strlit("UNVERIFIED");
    reveal_strlit("INVALID");
    assert("VERIFIED"@.len() == 8);
    assert("UNVERIFIED"@.len() == 10);
    assert("INVALID"@.len() == 7);
}

/// Verification state of a vendor's GSTIN.
#[derive(Debug, Clone, Copy, PartialEq, Eq, Structural)]
pub enum GstinStatus {
    Verified,
    Unverified,
    Invalid,
    NotRegistered,
}

impl GstinStatus {
    /// The database code of a value.
    pub open spec fn code(self) -> Seq<char> {
        match self {
            GstinStatus::Verified => "VERIFIED"@,
            GstinStatus::Unverified => "UNVERIFIED"@,
            GstinStatus::Invalid => "INVALID"@,
            GstinStatus::NotRegistered => "NOT_REGISTERED"@,
        }
    }

    /// The value a database code stands for; any other code reads as `Unverified`.
    pub open spec fn from_code(s: Seq<char>) -> GstinStatus {
        if s == "VERIFIED"@ {
            GstinStatus::Verified
        } else if s == "INVALID"@ {
            GstinStatus::Invalid
        } else if s == "NOT_REGISTERED"@ {
            GstinStatus::NotRegistered
        } else {
            GstinStatus::Unverified
        }
    }

    pub fn to_db_str(&self) -> (r: &'static str)
        ensures
            r@ == self.code(),
    {
        match self {
            GstinStatus::Verified => "VERIFIED",
            GstinStatus::Unverified => "UNVERIFIED",
            GstinStatus::Invalid => "INVALID",
            GstinStatus::NotRegistered => "NOT_REGISTERED",
        }
    }

    pub fn from_db_str(s: &str) -> (r: Self)
        ensures
            r == Self::from_code(s@),
    {
        if str_eq(s, "VERIFIED") {
            GstinStatus::Verified
        } else if str_eq(s, "INVALID") {
            GstinStatus::Invalid
        } else if str_eq(s, "NOT_REGISTERED") {
            GstinStatus::NotRegistered
        } else {
            GstinStatus::Unverified
        }
    }
}

/// Reading back the database code of any `GstinStatus` gives the same value.
pub proof fn lemma_gstin_status_round_trip(x: GstinStatus)
    ensures
        GstinStatus::from_code(x.code()) == x,
{
    reveal_strlit("VERIFIED");
    reveal_strlit("UNVERIFIED");
    reveal_strlit("INVALID");
    reveal_strlit("NOT_REGISTERED");
    assert("VERIFIED"@.len() == 8);
    assert("UNVERIFIED"@.len() == 10);
    assert("INVALID"@.len() == 7);
    assert("NOT_REGISTERED"@.len() == 14);
}

/// GST registration type of a vendor.
#[derive(Debug, Clone, Copy, PartialEq, Eq, Structural)]
pub enum RegistrationType {
    Regular,
    Composition,
    Unregistered,
    NonResident,
}

impl RegistrationType {
    /// The database code of a value.
    pub open spec fn code(self) -> Seq<char> {
        match self {
            RegistrationType::Regular => "REGULAR"@,
            RegistrationType::Composition => "COMPOSITION"@,
            RegistrationType::Unregistered => "UNREGISTERED"@,
            RegistrationType::NonResident => "NON_RESIDENT"@,
        }
    }

    /// The value a database code stands for; any other code reads as `Regular`.
    pub open spec fn from_code(s: Seq<char>) -> RegistrationType {
        if s == "COMPOSITION"@ {
            RegistrationType::Composition
        } else if s == "UNREGISTERED"@ {
            RegistrationType::Unregistered
        } else if s == "NON_RESIDENT"@ {
            RegistrationType::NonResident
        } else {
            RegistrationType::Regular
        }
    }

    pub fn to_db_str(&self) -> (r: &'static str)
        ensures
            r@ == self.code(),
    {
        match self {
            RegistrationType::Regular => "REGULAR",
            RegistrationType::Composition => "COMPOSITION",
            RegistrationType::Unregistered => "UNREGISTERED",
            RegistrationType::NonResident => "NON_RESIDENT",
        }
    }

    pub fn from_db_str(s: &str) -> (r: Self)
        ensures
            r == Self::from_code(s@),
    {
        if str_eq(s, "COMPOSITION") {
            RegistrationType::Composition
        } else if str_eq(s, "UNREGISTERED") {
            RegistrationType::Unregistered
        } else if str_eq(s, "NON_RESIDENT") {
            RegistrationType::NonResident
        } else {
            RegistrationType::Regular
        }
    }
}

/// Reading back the database code of any `RegistrationType` gives the same value.
pub proof fn lemma_registration_type_round_trip(x: RegistrationType)
    ensures
        RegistrationType::from_code(x.code()) == x,
{
    reveal_strlit("REGULAR");
    reveal_strlit("COMPOSITION");
    reveal_strlit("UNREGISTERED");
    reveal_strlit("NON_RESIDENT");
    assert("REGULAR"@.len() == 7);
    assert("COMPOSITION"@.len() == 11);
    assert("UNREGISTERED"@.len() == 12);
    assert("NON_RESIDENT"@.len() == 12);
    assert("UNREGISTERED"@[0] == 'U');
    assert("NON_RESIDENT"@[0] == 'N');
}

/// MSME classification of a vendor.
#[derive(Debug, Clone, Copy, PartialEq, Eq, Structural)]
pub enum MsmeType {
    Micro,
    Small,
    Medium,
}

impl MsmeType {
    /// The database code of a value.
    pub open spec fn code(self) -> Seq<char> {
        match self {
            MsmeType::Micro => "MICRO"@,
            MsmeType::Small => "SMALL"@,
            MsmeType::Medium => "MEDIUM"@,
        }
    }

    /// The value a database code stands for; any other code reads as `Micro`.
    pub open spec fn from_code(s: Seq<char>) -> MsmeType {
        if s == "SMALL"@ {
            MsmeType::Small
        } else if s == "MEDIUM"@ {
            MsmeType::Medium
        } else {
            MsmeType::Micro
        }
    }

    pub fn to_db_str(&self) -> (r: &'static str)
        ensures
            r@ == self.code(),
    {
        match self {
            MsmeType::Micro => "MICRO",
            MsmeType::Small => "SMALL",
            MsmeType::Medium => "MEDIUM",
        }
    }

    pub fn from_db_str(s: &str) -> (r: Self)
        ensures
            r == Self::from_code(s@),
    {
        if str_eq(s, "SMALL") {
            MsmeType::Small
        } else if str_eq(s, "MEDIUM") {
            MsmeType::Medium
        } else {
            MsmeType::Micro
        }
    }
}

/// Reading back the database code of any `MsmeType` gives the same value.
pub proof fn lemma_msme_type_round_trip(x: MsmeType)
    ensures
        MsmeType::from_code(x.code()) == x,
{
    reveal_strlit("MICRO");
    reveal_strlit("SMALL");
    reveal_strlit("MEDIUM");
    assert("MICRO"@.len() == 5);
    assert("SMALL"@.len() == 5);
    assert("MEDIUM"@.len() == 6);
    assert("MICRO"@[0] == 'M');
    assert("SMALL"@[0] == 'S');
}

/// Kind of a vendor bank account.
#[derive(Debug, Clone, Copy, PartialEq, Eq, Structural)]
pub enum BankAccountType {
    Savings,
    Current,
    CashCredit,
}

impl BankAccountType {
    /// The database code of a value.
    pub open spec fn code(self) -> Seq<char> {
        match self {
            BankAccountType::Savings => "SAVINGS"@,
            BankAccountType::Current => "CURRENT"@,
            BankAccountType::CashCredit => "CASH_CREDIT"@,
        }
    }

    /// The value a database code stands for; any other code reads as `Current`.
    pub open spec fn from_code(s: Seq<char>) -> BankAccountType {
        if s == "SAVINGS"@ {
            BankAccountType::Savings
        } else if s == "CASH_CREDIT"@ {
            BankAccountType::CashCredit
        } else {
            BankAccountType::Current
        }
    }

    pub fn to_db_str(&self) -> (r: &'static str)
        ensures
            r@ == self.code(),
    {
        match self {
            BankAccountType::Savings => "SAVINGS",
            BankAccountType::Current => "CURRENT",
            BankAccountType::CashCredit => "CASH_CREDIT",
        }
    }

    pub fn from_db_str(s: &str) -> (r: Self)
        ensures
            r == Self::from_code(s@),
    {
        if str_eq(s, "SAVINGS") {
            BankAccountType::Savings
        } else if str_eq(s, "CASH_CREDIT") {
            BankAccountType::CashCredit
        } else {
            BankAccountType::Current
        }
    }
}

/// Reading back the database code of any `BankAccountType` gives the same value.
pub proof fn lemma_bank_account_type_round_trip(x: BankAccountType)
    ensures
        BankAccountType::from_code(x.code()) == x,
{
    reveal_strlit("SAVINGS");
    reveal_strlit("CURRENT");
    reveal_strlit("CASH_CREDIT");
    assert("SAVINGS"@.len() == 7);
    assert("CURRENT"@.len() == 7);
    assert("CASH_CREDIT"@.len() == 11);
    assert("SAVINGS"@[0] == 'S');
    assert("CURRENT"@[0] == 'C');
}

/// Penny-drop validation state of a vendor bank account.
#[derive(Debug, Clone, Copy, PartialEq, Eq, Structural)]
pub enum BankValidationStatus {
    Unverified,
    Verified,
    Failed,
}

impl BankValidationStatus {
    /// The database code of a value.
    pub open spec fn code(self) -> Seq<char> {
        match self {
            BankValidationStatus::Unverified => "UNVERIFIED"@,
            BankValidationStatus::Verified => "VERIFIED"@,
            BankValidationStatus::Failed => "FAILED"@,
        }
    }

    /// The value a database code stands for; any other code reads as `Unverified`.
    pub open spec fn from_code(s: Seq<char>) -> BankValidationStatus {
        if s == "VERIFIED"@ {
            BankValidationStatus::Verified
        } else if s == "FAILED"@ {
            BankValidationStatus::Failed
        } else {
            BankValidationStatus::Unverified
        }
    }

    pub fn to_db_str(&self) -> (r: &'static str)
        ensures
            r@ == self.code(),
    {
        match self {
            BankValidationStatus::Unverified => "UNVERIFIED",
            BankValidationStatus::Verified => "VERIFIED",
            BankValidationStatus::Failed => "FAILED",
        }
    }

    pub fn from_db_str(s: &str) -> (r: Self)
        ensures
            r == Self::from_code(s@),
    {
        if str_eq(s, "VERIFIED") {
            BankValidationStatus::Verified
        } else if str_eq(s, "FAILED") {
            BankValidationStatus::Failed
        } else {
            BankValidationStatus::Unverified
        }
    }
}

/// Reading back the database code of any `BankValidationStatus` gives the same value.
pub proof fn lemma_bank_validation_status_round_trip(x: BankValidationStatus)
    ensures
        BankValidationStatus::from_code(x.code()) == x,
{
    reveal_strlit("UNVERIFIED");
    reveal_strlit("VERIFIED");
    reveal_strlit("FAILED");
    assert("UNVERIFIED"@.len() == 10);
    assert("VERIFIED"@.len() == 8);
    assert("FAILED"@.len() == 6);
}

/// Tax type classification for PO/Invoice lines.
#[derive(Debug, Clone, Copy, PartialEq, Eq, Structural)]
pub enum TaxType {
    GstExempt,
    Gst5,
    Gst12,
    Gst18,
    Gst28,
    Nil,
}

impl TaxType {
    /// The database code of a value.
    pub open spec fn code(self) -> Seq<char> {
        match self {
            TaxType::GstExempt => "GST_EXEMPT"@,
            TaxType::Gst5 => "GST_5"@,
            TaxType::Gst12 => "GST_12"@,
            TaxType::Gst18 => "GST_18"@,
            TaxType::Gst28 => "GST_28"@,
            TaxType::Nil => "NIL"@,
        }
    }

    /// The value a database code stands for; any other code reads as `GstExempt`.
    pub open spec fn from_code(s: Seq<char>) -> TaxType {
        if s == "GST_5"@ {
            TaxType::Gst5
        } else if s == "GST_12"@ {
            TaxType::Gst12
        } else if s == "GST_18"@ {
            TaxType::Gst18
        } else if s == "GST_28"@ {
            TaxType::Gst28
        } else if s == "NIL"@ {
            TaxType::Nil
        } else {
            TaxType::GstExempt
        }
    }

    pub fn to_db_str(&self) -> (r: &'static str)
        ensures
            r@ == self.code(),
    {
        match self {
            TaxType::GstExempt => "GST_EXEMPT",
            TaxType::Gst5 => "GST_5",
            TaxType::Gst12 => "GST_12",
            TaxType::Gst18 => "GST_18",
            TaxType::Gst28 => "GST_28",
            TaxType::Nil => "NIL",
        }
    }

    pub fn from_db_str(s: &str) -> (r: Self)
        ensures
            r == Self::from_code(s@),
    {
        if str_eq(s, "GST_5") {
            TaxType::Gst5
        } else if str_eq(s, "GST_12") {
            TaxType::Gst12
        } else if str_eq(s, "GST_18") {
            TaxType::Gst18
        } else if str_eq(s, "GST_28") {
            TaxType::Gst28
        } else if str_eq(s, "NIL") {
            TaxType::Nil
        } else {
            TaxType::GstExempt
        }
    }
}

/// Reading back the database code of any `TaxType` gives the same value.
pub proof fn lemma_tax_type_round_trip(x: TaxType)
    ensures
        TaxType::from_code(x.code()) == x,
{
    reveal_strlit("GST_EXEMPT");
    reveal_strlit("GST_5");
    reveal_strlit("GST_12");
    reveal_strlit("GST_18");
    reveal_strlit("GST_28");
    reveal_strlit("NIL");
    assert("GST_EXEMPT"@.len() == 10);
    assert("GST_5"@.len() == 5);
    assert("GST_12"@.len() == 6);
    assert("GST_18"@.len() == 6);
    assert("GST_28"@.len() == 6);
    assert("NIL"@.len() == 3);
    assert("GST_12"@[5] == '2');
    assert("GST_18"@[5] == '8');
    assert("GST_12"@[4] == '1');
    assert("GST_28"@[4] == '2');
    assert("GST_18"@[4] == '1');
}

/// PO lifecycle states.
#[derive(Debug, Clone, Copy, PartialEq, Eq, Structural)]
pub enum PoStatus {
    Draft,
    Issued,
    Acknowledged,
    PartiallyReceived,
    FullyReceived,
    Closed,
    Cancelled,
}

impl PoStatus {
    /// The database code of a value.
    pub open spec fn code(self) -> Seq<char> {
        match self {
            PoStatus::Draft => "DRAFT"@,
            PoStatus::Issued => "ISSUED"@,
            PoStatus::Acknowledged => "ACKNOWLEDGED"@,
            PoStatus::PartiallyReceived => "PARTIALLY_RECEIVED"@,
            PoStatus::FullyReceived => "FULLY_RECEIVED"@,
            PoStatus::Closed => "CLOSED"@,
            PoStatus::Cancelled => "CANCELLED"@,
        }
    }

    /// The value a database code stands for; any other code reads as `Draft`.
    pub open spec fn from_code(s: Seq<char>) -> PoStatus {
        if s == "ISSUED"@ {
            PoStatus::Issued
        } else if s == "ACKNOWLEDGED"@ {
            PoStatus::Acknowledged
        } else if s == "PARTIALLY_RECEIVED"@ {
            PoStatus::PartiallyReceived
        } else if s == "FULLY_RECEIVED"@ {
            PoStatus::FullyReceived
        } else if s == "CLOSED"@ {
            PoStatus::Closed
        } else if s == "CANCELLED"@ {
            PoStatus::Cancelled
        } else {
            PoStatus::Draft
        }
    }

    pub fn to_db_str(&self) -> (r: &'static str)
        ensures
            r@ == self.code(),
    {
        match self {
            PoStatus::Draft => "DRAFT",
            PoStatus::Issued => "ISSUED",
            PoStatus::Acknowledged => "ACKNOWLEDGED",
            PoStatus::PartiallyReceived => "PARTIALLY_RECEIVED",
            PoStatus::FullyReceived => "FULLY_RECEIVED",
            PoStatus::Closed => "CLOSED",
            PoStatus::Cancelled => "CANCELLED",
        }
    }

    pub fn from_db_str(s: &str) -> (r: Self)
        ensures
            r == Self::from_code(s@),
    {
        if str_eq(s, "ISSUED") {
            PoStatus::Issued
        } else if str_eq(s, "ACKNOWLEDGED") {
            PoStatus::Acknowledged
        } else if str_eq(s, "PARTIALLY_RECEIVED") {
            PoStatus::PartiallyReceived
        } else if str_eq(s, "FULLY_RECEIVED") {
            PoStatus::FullyReceived
        } else if str_eq(s, "CLOSED") {
            PoStatus::Closed
        } else if str_eq(s, "CANCELLED") {
            PoStatus::Cancelled
        } else {
            PoStatus::Draft
        }
    }
}

/// Reading back the database code of any `PoStatus` gives the same value.
pub proof fn lemma_po_status_round_trip(x: PoStatus)
    ensures
        PoStatus::from_code(x.code()) == x,
{
    reveal_strlit("DRAFT");
    reveal_strlit("ISSUED");
    reveal_strlit("ACKNOWLEDGED");
    reveal_strlit("PARTIALLY_RECEIVED");
    reveal_strlit("FULLY_RECEIVED");
    reveal_strlit("CLOSED");
    reveal_strlit("CANCELLED");
    assert("DRAFT"@.len() == 5);
    assert("ISSUED"@.len() == 6);
    assert("ACKNOWLEDGED"@.len() == 12);
    assert("PARTIALLY_RECEIVED"@.len() == 18);
    assert("FULLY_RECEIVED"@.len() == 14);
    assert("CLOSED"@.len() == 6);
    assert("CANCELLED"@.len() == 9);
    assert("ISSUED"@[0] == 'I');
    assert("CLOSED"@[0] == 'C');
}

/// GRN lifecycle states.
#[derive(Debug, Clone, Copy, PartialEq, Eq, Structural)]
pub enum GrnStatus {
    Draft,
    Completed,
    Cancelled,
}

impl GrnStatus {
    /// The database code of a value.
    pub open spec fn code(self) -> Seq<char> {
        match self {
            GrnStatus::Draft => "DRAFT"@,
            GrnStatus::Completed => "COMPLETED"@,
            GrnStatus::Cancelled => "CANCELLED"@,
        }
    }

    /// The value a database code stands for; any other code reads as `Draft`.
    pub open spec fn from_code(s: Seq<char>) -> GrnStatus {
        if s == "COMPLETED"@ {
            GrnStatus::Completed
        } else if s == "CANCELLED"@ {
            GrnStatus::Cancelled
        } else {
            GrnStatus::Draft
        }
    }

    pub fn to_db_str(&self) -> (r: &'static str)
        ensures
            r@ == self.code(),
    {
        match self {
            GrnStatus::Draft => "DRAFT",
            GrnStatus::Completed => "COMPLETED",
            GrnStatus::Cancelled => "CANCELLED",
        }
    }

    pub fn from_db_str(s: &str) -> (r: Self)
        ensures
            r == Self::from_code(s@),
    {
        if str_eq(s, "COMPLETED") {
            GrnStatus::Completed
        } else if str_eq(s, "CANCELLED") {
            GrnStatus::Cancelled
        } else {
            GrnStatus::Draft
        }
    }
}

/// Reading back the database code of any `GrnStatus` gives the same value.
pub proof fn lemma_grn_status_round_trip(x: GrnStatus)
    ensures
        GrnStatus::from_code(x.code()) == x,
{
    reveal_strlit("DRAFT");
    reveal_strlit("COMPLETED");
    reveal_strlit("CANCELLED");
    assert("DRAFT"@.len() == 5);
    assert("COMPLETED"@.len() == 9);
    assert("CANCELLED"@.len() == 9);
    assert("COMPLETED"@[1] == 'O');
    assert("CANCELLED"@[1] == 'A');
}

/// 3-way matching status.
#[derive(Debug, Clone, Copy, PartialEq, Eq, Structural)]
pub enum MatchingStatus {
    Pending,
    Matched,
    Mismatch,
    Overridden,
}

impl MatchingStatus {
    /// The database code of a value.
    pub open spec fn code(self) -> Seq<char> {
        match self {
            MatchingStatus::Pending => "PENDING"@,
            MatchingStatus::Matched => "MATCHED"@,
            MatchingStatus::Mismatch => "MISMATCHED"@,
            MatchingStatus::Overridden => "OVERRIDDEN"@,
        }
    }

    /// The value a database code stands for; any other code reads as `Pending`.
    pub open spec fn from_code(s: Seq<char>) -> MatchingStatus {
        if s == "MATCHED"@ {
            MatchingStatus::Matched
        } else if s == "MISMATCHED"@ {
            MatchingStatus::Mismatch
        } else if s == "OVERRIDDEN"@ {
            MatchingStatus::Overridden
        } else {
            MatchingStatus::Pending
        }
    }

    pub fn to_db_str(&self) -> (r: &'static str)
        ensures
            r@ == self.code(),
    {
        match self {
            MatchingStatus::Pending => "PENDING",
            MatchingStatus::Matched => "MATCHED",
            MatchingStatus::Mismatch => "MISMATCHED",
            MatchingStatus::Overridden => "OVERRIDDEN",
        }
    }

    pub fn from_db_str(s: &str) -> (r: Self)
        ensures
            r == Self::from_code(s@),
    {
        if str_eq(s, "MATCHED") {
            MatchingStatus::Matched
        } else if str_eq(s, "MISMATCHED") {
            MatchingStatus::Mismatch
        } else if str_eq(s, "OVERRIDDEN") {
            MatchingStatus::Overridden
        } else {
            MatchingStatus::Pending
        }
    }
}

/// Reading back the database code of any `MatchingStatus` gives the same value.
pub proof fn lemma_matching_status_round_trip(x: MatchingStatus)
    ensures
        MatchingStatus::from_code(x.code()) == x,
{
    reveal_strlit("PENDING");
    reveal_strlit("MATCHED");
    reveal_strlit("MISMATCHED");
    reveal_strlit("OVERRIDDEN");
    assert("PENDING"@.len() == 7);
    assert("MATCHED"@.len() == 7);
    assert("MISMATCHED"@.len() == 10);
    assert("OVERRIDDEN"@.len() == 10);
    assert("PENDING"@[0] == 'P');
    assert("MATCHED"@[0] == 'M');
    assert("MISMATCHED"@[0] == 'M');
    assert("OVERRIDDEN"@[0] == 'O');
}

/// Invoice lifecycle states. `PendingApproval` is stored as `MATCHED`: the state after matching, before approval.
#[derive(Debug, Clone, Copy, PartialEq, Eq, Structural)]
pub enum InvoiceStatus {
    Draft,
    PendingApproval,
    Approved,
    Posted,
    Paid,
    Cancelled,
}

impl InvoiceStatus {
    /// The database code of a value.
    pub open spec fn code(self) -> Seq<char> {
        match self {
            InvoiceStatus::Draft => "DRAFT"@,
            InvoiceStatus::PendingApproval => "MATCHED"@,
            InvoiceStatus::Approved => "APPROVED"@,
            InvoiceStatus::Posted => "POSTED"@,
            InvoiceStatus::Paid => "PAID"@,
            InvoiceStatus::Cancelled => "CANCELLED"@,
        }
    }

    /// The value a database code stands for; any other code reads as `Draft`.
    pub open spec fn from_code(s: Seq<char>) -> InvoiceStatus {
        if s == "APPROVED"@ {
            InvoiceStatus::Approved
        } else if s == "POSTED"@ {
            InvoiceStatus::Posted
        } else if s == "PAID"@ {
            InvoiceStatus::Paid
        } else if s == "CANCELLED"@ {
            InvoiceStatus::Cancelled
        } else if s == "MATCHED"@ {
            InvoiceStatus::PendingApproval
        } else if s == "MISMATCHED"@ {
            InvoiceStatus::Draft
        } else {
            InvoiceStatus::Draft
        }
    }

    pub fn to_db_str(&self) -> (r: &'static str)
        ensures
            r@ == self.code(),
    {
        match self {
            InvoiceStatus::Draft => "DRAFT",
            InvoiceStatus::PendingApproval => "MATCHED",
            InvoiceStatus::Approved => "APPROVED",
            InvoiceStatus::Posted => "POSTED",
            InvoiceStatus::Paid => "PAID",
            InvoiceStatus::Cancelled => "CANCELLED",
        }
    }

    pub fn from_db_str(s: &str) -> (r: Self)
        ensures
            r == Self::from_code(s@),
    {
        if str_eq(s, "APPROVED") {
            InvoiceStatus::Approved
        } else if str_eq(s, "POSTED") {
            InvoiceStatus::Posted
        } else if str_eq(s, "PAID") {
            InvoiceStatus::Paid
        } else if str_eq(s, "CANCELLED") {
            InvoiceStatus::Cancelled
        } else if str_eq(s, "MATCHED") {
            InvoiceStatus::PendingApproval
        } else if str_eq(s, "MISMATCHED") {
            InvoiceStatus::Draft
        } else {
            InvoiceStatus::Draft
        }
    }
}

/// Reading back the database code of any `InvoiceStatus` gives the same value.
pub proof fn lemma_invoice_status_round_trip(x: InvoiceStatus)
    ensures
        InvoiceStatus::from_code(x.code()) == x,
{
    reveal_strlit("DRAFT");
    reveal_strlit("MATCHED");
    reveal_strlit("APPROVED");
    reveal_strlit("POSTED");
    reveal_strlit("PAID");
    reveal_strlit("CANCELLED");
    reveal_strlit("MISMATCHED");
    assert("DRAFT"@.len() == 5);
    assert("MATCHED"@.len() == 7);
    assert("APPROVED"@.len() == 8);
    assert("POSTED"@.len() == 6);
    assert("PAID"@.len() == 4);
    assert("CANCELLED"@.len() == 9);
    assert("MISMATCHED"@.len() == 10);
}

/// Payment status of an invoice.
#[derive(Debug, Clone, Copy, PartialEq, Eq, Structural)]
pub enum PaymentStatus {
    Unpaid,
    PartiallyPaid,
    Paid,
}

impl PaymentStatus {
    /// The database code of a value.
    pub open spec fn code(self) -> Seq<char> {
        match self {
            PaymentStatus::Unpaid => "UNPAID"@,
            PaymentStatus::PartiallyPaid => "PARTIALLY_PAID"@,
            PaymentStatus::Paid => "PAID"@,
        }
    }

    /// The value a database code stands for; any other code reads as `Unpaid`.
    pub open spec fn from_code(s: Seq<char>) -> PaymentStatus {
        if s == "PARTIALLY_PAID"@ {
            PaymentStatus::PartiallyPaid
        } else if s == "PAID"@ {
            PaymentStatus::Paid
        } else {
            PaymentStatus::Unpaid
        }
    }

    pub fn to_db_str(&self) -> (r: &'static str)
        ensures
            r@ == self.code(),
    {
        match self {
            PaymentStatus::Unpaid => "UNPAID",
            PaymentStatus::PartiallyPaid => "PARTIALLY_PAID",
            PaymentStatus::Paid => "PAID",
        }
    }

    pub fn from_db_str(s: &str) -> (r: Self)
        ensures
            r == Self::from_code(s@),
    {
        if str_eq(s, "PARTIALLY_PAID") {
            PaymentStatus::PartiallyPaid
        } else if str_eq(s, "PAID") {
            PaymentStatus::Paid
        } else {
            PaymentStatus::Unpaid
        }
    }
}

/// Reading back the database code of any `PaymentStatus` gives the same value.
pub proof fn lemma_payment_status_round_trip(x: PaymentStatus)
    ensures
        PaymentStatus::from_code(x.code()) == x,
{
    reveal_strlit("UNPAID");
    reveal_strlit("PARTIALLY_PAID");
    reveal_strlit("PAID");
    assert("UNPAID"@.len() == 6);
    assert("PARTIALLY_PAID"@.len() == 14);
    assert("PAID"@.len() == 4);
}

/// Kind of a vendor payment.
#[derive(Debug, Clone, Copy, PartialEq, Eq, Structural)]
pub enum PaymentType {
    VendorPayment,
    RcmPayment,
    TdsDeposit,
    Advance,
    Refund,
    Other,
}

impl PaymentType {
    /// The database code of a value.
    pub open spec fn code(self) -> Seq<char> {
        match self {
            PaymentType::VendorPayment => "VENDOR_PAYMENT"@,
            PaymentType::RcmPayment => "RCM_PAYMENT"@,
            PaymentType::TdsDeposit => "TDS_DEPOSIT"@,
            PaymentType::Advance => "ADVANCE"@,
            PaymentType::Refund => "REFUND"@,
            PaymentType::Other => "OTHER"@,
        }
    }

    /// The value a database code stands for; any other code reads as `Other`.
    pub open spec fn from_code(s: Seq<char>) -> PaymentType {
        if s == "VENDOR_PAYMENT"@ {
            PaymentType::VendorPayment
        } else if s == "RCM_PAYMENT"@ {
            PaymentType::RcmPayment
        } else if s == "TDS_DEPOSIT"@ {
            PaymentType::TdsDeposit
        } else if s == "ADVANCE"@ {
            PaymentType::Advance
        } else if s == "REFUND"@ {
            PaymentType::Refund
        } else {
            PaymentType::Other
        }
    }

    pub fn to_db_str(&self) -> (r: &'static str)
        ensures
            r@ == self.code(),
    {
        match self {
            PaymentType::VendorPayment => "VENDOR_PAYMENT",
            PaymentType::RcmPayment => "RCM_PAYMENT",
            PaymentType::TdsDeposit => "TDS_DEPOSIT",
            PaymentType::Advance => "ADVANCE",
            PaymentType::Refund => "REFUND",
            PaymentType::Other => "OTHER",
        }
    }

    pub fn from_db_str(s: &str) -> (r: Self)
        ensures
            r == Self::from_code(s@),
    {
        if str_eq(s, "VENDOR_PAYMENT") {
            PaymentType::VendorPayment
        } else if str_eq(s, "RCM_PAYMENT") {
            PaymentType::RcmPayment
        } else if str_eq(s, "TDS_DEPOSIT") {
            PaymentType::TdsDeposit
        } else if str_eq(s, "ADVANCE") {
            PaymentType::Advance
        } else if str_eq(s, "REFUND") {
            PaymentType::Refund
        } else {
            PaymentType::Other
        }
    }
}

/// Reading back the database code of any `PaymentType` gives the same value.
pub proof fn lemma_payment_type_round_trip(x: PaymentType)
    ensures
        PaymentType::from_code(x.code()) == x,
{
    reveal_strlit("VENDOR_PAYMENT");
    reveal_strlit("RCM_PAYMENT");
    reveal_strlit("TDS_DEPOSIT");
    reveal_strlit("ADVANCE");
    reveal_strlit("REFUND");
    reveal_strlit("OTHER");
    assert("VENDOR_PAYMENT"@.len() == 14);
    assert("RCM_PAYMENT"@.len() == 11);
    assert("TDS_DEPOSIT"@.len() == 11);
    assert("ADVANCE"@.len() == 7);
    assert("REFUND"@.len() == 6);
    assert("OTHER"@.len() == 5);
    assert("RCM_PAYMENT"@[0] == 'R');
    assert("TDS_DEPOSIT"@[0] == 'T');
}

/// Instrument of a vendor payment.
#[derive(Debug, Clone, Copy, PartialEq, Eq, Structural)]
pub enum PaymentMode {
    Neft,
    Rtgs,
    Imps,
    Cheque,
    Dd,
    Cash,
}

impl PaymentMode {
    /// The database code of a value.
    pub open spec fn code(self) -> Seq<char> {
        match self {
            PaymentMode::Neft => "NEFT"@,
            PaymentMode::Rtgs => "RTGS"@,
            PaymentMode::Imps => "IMPS"@,
            PaymentMode::Cheque => "CHEQUE"@,
            PaymentMode::Dd => "DD"@,
            PaymentMode::Cash => "CASH"@,
        }
    }

    /// The value a database code stands for; any other code reads as `Cash`.
    pub open spec fn from_code(s: Seq<char>) -> PaymentMode {
        if s == "NEFT"@ {
            PaymentMode::Neft
        } else if s == "RTGS"@ {
            PaymentMode::Rtgs
        } else if s == "IMPS"@ {
            PaymentMode::Imps
        } else if s == "CHEQUE"@ {
            PaymentMode::Cheque
        } else if s == "DD"@ {
            PaymentMode::Dd
        } else {
            PaymentMode::Cash
        }
    }

    pub fn to_db_str(&self) -> (r: &'static str)
        ensures
            r@ == self.code(),
    {
        match self {
            PaymentMode::Neft => "NEFT",
            PaymentMode::Rtgs => "RTGS",
            PaymentMode::Imps => "IMPS",
            PaymentMode::Cheque => "CHEQUE",
            PaymentMode::Dd => "DD",
            PaymentMode::Cash => "CASH",
        }
    }

    pub fn from_db_str(s: &str) -> (r: Self)
        ensures
            r == Self::from_code(s@),
    {
        if str_eq(s, "NEFT") {
            PaymentMode::Neft
        } else if str_eq(s, "RTGS") {
            PaymentMode::Rtgs
        } else if str_eq(s, "IMPS") {
            PaymentMode::Imps
        } else if str_eq(s, "CHEQUE") {
            PaymentMode::Cheque
        } else if str_eq(s, "DD") {
            PaymentMode::Dd
        } else {
            PaymentMode::Cash
        }
    }
}

/// Reading back the database code of any `PaymentMode` gives the same value.
pub proof fn lemma_payment_mode_round_trip(x: PaymentMode)
    ensures
        PaymentMode::from_code(x.code()) == x,
{
    reveal_strlit("NEFT");
    reveal_strlit("RTGS");
    reveal_strlit("IMPS");
    reveal_strlit("CHEQUE");
    reveal_strlit("DD");
    reveal_strlit("CASH");
    assert("NEFT"@.len() == 4);
    assert("RTGS"@.len() == 4);
    assert("IMPS"@.len() == 4);
    assert("CHEQUE"@.len() == 6);
    assert("DD"@.len() == 2);
    assert("CASH"@.len() == 4);
    assert("NEFT"@[0] == 'N');
    assert("RTGS"@[0] == 'R');
    assert("IMPS"@[0] == 'I');
    assert("CASH"@[0] == 'C');
}

/// Vendor payment lifecycle states.
#[derive(Debug, Clone, Copy, PartialEq, Eq, Structural)]
pub enum VpStatus {
    Initiated,
    Approved,
    Scheduled,
    Processed,
    Completed,
    Failed,
    Cancelled,
}

impl VpStatus {
    /// The database code of a value.
    pub open spec fn code(self) -> Seq<char> {
        match self {
            VpStatus::Initiated => "INITIATED"@,
            VpStatus::Approved => "APPROVED"@,
            VpStatus::Scheduled => "SCHEDULED"@,
            VpStatus::Processed => "PROCESSED"@,
            VpStatus::Completed => "COMPLETED"@,
            VpStatus::Failed => "FAILED"@,
            VpStatus::Cancelled => "CANCELLED"@,
        }
    }

    /// The value a database code stands for; any other code reads as `Initiated`.
    pub open spec fn from_code(s: Seq<char>) -> VpStatus {
        if s == "APPROVED"@ {
            VpStatus::Approved
        } else if s == "SCHEDULED"@ {
            VpStatus::Scheduled
        } else if s == "PROCESSED"@ {
            VpStatus::Processed
        } else if s == "COMPLETED"@ {
            VpStatus::Completed
        } else if s == "FAILED"@ {
            VpStatus::Failed
        } else if s == "CANCELLED"@ {
            VpStatus::Cancelled
        } else {
            VpStatus::Initiated
        }
    }

    pub fn to_db_str(&self) -> (r: &'static str)
        ensures
            r@ == self.code(),
    {
        match self {
            VpStatus::Initiated => "INITIATED",
            VpStatus::Approved => "APPROVED",
            VpStatus::Scheduled => "SCHEDULED",
            VpStatus::Processed => "PROCESSED",
            VpStatus::Completed => "COMPLETED",
            VpStatus::Failed => "FAILED",
            VpStatus::Cancelled => "CANCELLED",
        }
    }

    pub fn from_db_str(s: &str) -> (r: Self)
        ensures
            r == Self::from_code(s@),
    {
        if str_eq(s, "APPROVED") {
            VpStatus::Approved
        } else if str_eq(s, "SCHEDULED") {
            VpStatus::Scheduled
        } else if str_eq(s, "PROCESSED") {
            VpStatus::Processed
        } else if str_eq(s, "COMPLETED") {
            VpStatus::Completed
        } else if str_eq(s, "FAILED") {
            VpStatus::Failed
        } else if str_eq(s, "CANCELLED") {
            VpStatus::Cancelled
        } else {
            VpStatus::Initiated
        }
    }
}

/// Reading back the database code of any `VpStatus` gives the same value.
pub proof fn lemma_vp_status_round_trip(x: VpStatus)
    ensures
        VpStatus::from_code(x.code()) == x,
{
    reveal_strlit("INITIATED");
    reveal_strlit("APPROVED");
    reveal_strlit("SCHEDULED");
    reveal_strlit("PROCESSED");
    reveal_strlit("COMPLETED");
    reveal_strlit("FAILED");
    reveal_strlit("CANCELLED");
    assert("INITIATED"@.len() == 9);
    assert("APPROVED"@.len() == 8);
    assert("SCHEDULED"@.len() == 9);
    assert("PROCESSED"@.len() == 9);
    assert("COMPLETED"@.len() == 9);
    assert("FAILED"@.len() == 6);
    assert("CANCELLED"@.len() == 9);
    assert("INITIATED"@[0] == 'I');
    assert("SCHEDULED"@[0] == 'S');
    assert("PROCESSED"@[0] == 'P');
    assert("COMPLETED"@[0] == 'C');
    assert("CANCELLED"@[0] == 'C');
    assert("COMPLETED"@[1] == 'O');
    assert("CANCELLED"@[1] == 'A');
}

/// Deposit state of deducted TDS.
#[derive(Debug, Clone, Copy, PartialEq, Eq, Structural)]
pub enum TdsDepositStatus {
    Pending,
    Deposited,
    Filed,
}

impl TdsDepositStatus {
    /// The database code of a value.
    pub open spec fn code(self) -> Seq<char> {
        match self {
            TdsDepositStatus::Pending => "PENDING"@,
            TdsDepositStatus::Deposited => "DEPOSITED"@,
            TdsDepositStatus::Filed => "FILED"@,
        }
    }

    /// The value a database code stands for; any other code reads as `Pending`.
    pub open spec fn from_code(s: Seq<char>) -> TdsDepositStatus {
        if s == "DEPOSITED"@ {
            TdsDepositStatus::Deposited
        } else if s == "FILED"@ {
            TdsDepositStatus::Filed
        } else {
            TdsDepositStatus::Pending
        }
    }

    pub fn to_db_str(&self) -> (r: &'static str)
        ensures
            r@ == self.code(),
    {
        match self {
            TdsDepositStatus::Pending => "PENDING",
            TdsDepositStatus::Deposited => "DEPOSITED",
            TdsDepositStatus::Filed => "FILED",
        }
    }

    pub fn from_db_str(s: &str) -> (r: Self)
        ensures
            r == Self::from_code(s@),
    {
        if str_eq(s, "DEPOSITED") {
            TdsDepositStatus::Deposited
        } else if str_eq(s, "FILED") {
            TdsDepositStatus::Filed
        } else {
            TdsDepositStatus::Pending
        }
    }
}

/// Reading back the database code of any `TdsDepositStatus` gives the same value.
pub proof fn lemma_tds_deposit_status_round_trip(x: TdsDepositStatus)
    ensures
        TdsDepositStatus::from_code(x.code()) == x,
{
    reveal_strlit("PENDING");
    reveal_strlit("DEPOSITED");
    reveal_strlit("FILED");
    assert("PENDING"@.len() == 7);
    assert("DEPOSITED"@.len() == 9);
    assert("FILED"@.len() == 5);
}

} // verus!
