//! Client for the Maharashtra Direct Benefit Transfer (MahaDBT) portal.
//! The portal calls are answered by fixed stand-in data until the real API
//! is wired in.

use vstd::prelude::*;
use crate::identity::Timestamp;
use crate::money::Money;
use crate::text::{concat2, owned};

verus! {

/// Result of verifying a student on MahaDBT.
#[derive(Debug, Clone)]
pub struct MahaDbtVerificationResult {
    pub verified: bool,
    pub student_name: String,
    pub aadhaar_linked: bool,
    pub bank_account_verified: bool,
    pub scheme_eligible: bool,
    pub remarks: Option<String>,
}

/// Status of a DBT disbursement from MahaDBT.
#[derive(Debug, Clone)]
pub struct MahaDbtDisbursementStatus {
    pub application_id: String,
    pub scheme_code: String,
    /// PENDING, SANCTIONED, DISBURSED or REJECTED.
    pub status: String,
    pub sanctioned_amount: Option<Money>,
    pub disbursed_amount: Option<Money>,
    pub dbt_transaction_id: Option<String>,
    pub dbt_date: Option<Timestamp>,
    pub bank_reference: Option<String>,
}

/// A client for the MahaDBT integration.
#[derive(Debug, Clone)]
pub struct MahaDbtClient {
    /// Base URL for the MahaDBT API.
    base_url: String,
    /// API key for authentication.
    api_key: Option<String>,
}

/// The hyphenated text of a fresh random identifier, from
/// `uuid::Uuid::new_v4` and its `Display`. Nothing is claimed of it.
#[verifier::external_body]
fn random_uuid_text() -> String {
    uuid::Uuid::new_v4().to_string()
}

impl MahaDbtClient {
    /// The base URL the client talks to.
    pub closed spec fn spec_base_url(&self) -> Seq<char> {
        self.base_url@
    }

    /// The API key the client authenticates with, if any.
    pub closed spec fn spec_api_key(&self) -> Option<Seq<char>> {
        match self.api_key {
            Some(k) => Some(k@),
            None => None,
        }
    }

    /// Create a new MahaDBT client.
    pub fn new(base_url: String, api_key: Option<String>) -> (c: Self)
        ensures
            c.spec_base_url() == base_url@,
            c.spec_api_key() == match api_key {
                Some(k) => Some(k@),
                None => None::<Seq<char>>,
            },
    {
        MahaDbtClient { base_url, api_key }
    }

    /// Verify a student's details against MahaDBT records. The stand-in
    /// answer reports the student verified, Aadhaar linked, bank account
    /// verified and scheme eligible.
    pub fn verify_student(
        &self,
        student_id: uuid::Uuid,
        aadhaar_number: &str,
        scheme_code: &str,
    ) -> (r: Result<MahaDbtVerificationResult, String>)
        ensures
            r matches Ok(v) && v.verified && v.aadhaar_linked && v.bank_account_verified
                && v.scheme_eligible && v.student_name@ == "Mock Student"@ && (v.remarks matches Some(m)
                && m@ == "Stub verification \u{2014} real API integration pending"@),
    {
        Ok(
            MahaDbtVerificationResult {
                verified: true,
                student_name: owned("Mock Student"),
                aadhaar_linked: true,
                bank_account_verified: true,
                scheme_eligible: true,
                remarks: Some(owned("Stub verification \u{2014} real API integration pending")),
            },
        )
    }

    /// Check the disbursement status of a scholarship application. The
    /// stand-in answer reports ₹25,000 sanctioned and disbursed now under a
    /// fresh DBT transaction id.
    pub fn check_disbursement_status(&self, application_id: &str) -> (r: Result<
        MahaDbtDisbursementStatus,
        String,
    >)
        ensures
            r matches Ok(s) && s.application_id@ == application_id@ && s.status@ == "DISBURSED"@
                && s.scheme_code@ == "MOCK-SCHEME"@ && (s.sanctioned_amount matches Some(a) && a@
                == 2_500_000) && (s.disbursed_amount matches Some(a) && a@ == 2_500_000)
                && (s.dbt_transaction_id matches Some(t) && t@.len() >= 4 && t@.take(4) == "DBT-"@)
                && s.dbt_date is Some && (s.bank_reference matches Some(b) && b@
                == "MOCK-BANK-REF-12345"@),
    {
        let id = random_uuid_text();
        let tx_id = concat2("DBT-", id.as_str());
        proof {
            reveal_strlit("DBT-");
            assert(tx_id@.take(4) =~= "DBT-"@);
        }
        Ok(
            MahaDbtDisbursementStatus {
                application_id: owned(application_id),
                scheme_code: owned("MOCK-SCHEME"),
                status: owned("DISBURSED"),
                sanctioned_amount: Some(Money::from_paise(2_500_000)),
                disbursed_amount: Some(Money::from_paise(2_500_000)),
                dbt_transaction_id: Some(tx_id),
                dbt_date: Some(Timestamp::now()),
                bank_reference: Some(owned("MOCK-BANK-REF-12345")),
            },
        )
    }
}

impl Default for MahaDbtClient {
    fn default() -> (c: Self)
        ensures
            c.spec_base_url() == "https://mahadbtmahait.gov.in/api"@,
            c.spec_api_key() is None,
    {
        MahaDbtClient { base_url: owned("https://mahadbtmahait.gov.in/api"), api_key: None }
    }
}

} // verus!
