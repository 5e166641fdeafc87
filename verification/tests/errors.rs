use sutra_erp::error::DomainError;
use sutra_erp::payables::commands::ApError;
use sutra_erp::receivables::commands::ArError;

#[test]
fn domain_error_constructors_keep_the_message() {
    assert!(matches!(DomainError::validation("bad input"), DomainError::Validation(m) if m == "bad input"));
    assert!(matches!(DomainError::not_found(42), DomainError::NotFound(m) if m == "42"));
    assert!(matches!(DomainError::unauthorized("no"), DomainError::Unauthorized(m) if m == "no"));
    assert!(matches!(DomainError::conflict("dup"), DomainError::Conflict(m) if m == "dup"));
    assert!(matches!(DomainError::internal("boom"), DomainError::Internal(m) if m == "boom"));
}

#[test]
fn error_texts() {
    assert_eq!(DomainError::Validation("x".into()).to_string(), "validation error: x");
    assert_eq!(DomainError::NotFound("x".into()).to_string(), "not found: x");
    assert_eq!(DomainError::Unauthorized("x".into()).to_string(), "unauthorized: x");
    assert_eq!(DomainError::Conflict("x".into()).to_string(), "conflict: x");
    assert_eq!(DomainError::Internal("x".into()).to_string(), "internal error: x");
    assert_eq!(ApError::VendorNotFound("v1".into()).to_string(), "vendor v1 not found");
    assert_eq!(ApError::PONotFound("p".into()).to_string(), "purchase order p not found");
    assert_eq!(ApError::GrnNotFound("g".into()).to_string(), "grn g not found");
    assert_eq!(ApError::InvoiceNotFound("i".into()).to_string(), "invoice i not found");
    assert_eq!(ApError::PaymentNotFound("p".into()).to_string(), "payment p not found");
    assert_eq!(ApError::VendorBlacklisted.to_string(), "vendor is blacklisted");
    assert_eq!(ApError::InvalidState("s".into()).to_string(), "invalid state transition: s");
    assert_eq!(ApError::Validation("v".into()).to_string(), "validation error: v");
    assert_eq!(ApError::Internal("e".into()).to_string(), "internal error: e");
    assert_eq!(ArError::FeeStructureNotFound("f".into()).to_string(), "fee structure f not found");
    assert_eq!(ArError::ReceiptNotFound("r".into()).to_string(), "payment receipt r not found");
    assert_eq!(ArError::ScholarshipNotFound("s".into()).to_string(), "scholarship s not found");
    assert_eq!(ArError::NotFound("n".into()).to_string(), "not found: n");
    assert_eq!(ArError::Validation("v".into()).to_string(), "validation error: v");
    assert_eq!(ArError::Internal("i".into()).to_string(), "internal error: i");
}
