//! Defaults that vendor-creation requests fall back on when a field is
//! left out.

use vstd::prelude::*;

verus! {

/// Payment terms, in days, given to a vendor when the request names none.
pub fn default_payment_terms() -> (days: i32)
    ensures
        days == 30,
{
    30
}

/// The value of a flag (TDS applicable, tax applicable) that the request
/// leaves out.
pub fn default_true() -> (b: bool)
    ensures
        b,
{
    true
}

} // verus!
