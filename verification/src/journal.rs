//! Journal lines that the payables and receivables postings hand to the
//! general ledger, and the totals by which their balance is judged.

use vstd::prelude::*;
use crate::money::Money;

verus! {

/// One line of a journal to be created in the general ledger.
#[derive(Debug, Clone)]
pub struct JournalLinePlan {
    pub line_number: i32,
    pub account_id: uuid::Uuid,
    pub debit_amount: Option<Money>,
    pub credit_amount: Option<Money>,
    pub description: Option<String>,
    pub reference_id: Option<String>,
    pub reference_type: Option<String>,
}

/// The paise a line debits (zero when it debits nothing).
pub open spec fn line_debit(l: JournalLinePlan) -> int {
    match l.debit_amount {
        Some(m) => m@,
        None => 0,
    }
}

/// The paise a line credits (zero when it credits nothing).
pub open spec fn line_credit(l: JournalLinePlan) -> int {
    match l.credit_amount {
        Some(m) => m@,
        None => 0,
    }
}

/// Total debits of a list of lines.
pub open spec fn debit_total(lines: Seq<JournalLinePlan>) -> int
    decreases lines.len(),
{
    if lines.len() == 0 {
        0
    } else {
        debit_total(lines.drop_last()) + line_debit(lines.last())
    }
}

/// Total credits of a list of lines.
pub open spec fn credit_total(lines: Seq<JournalLinePlan>) -> int
    decreases lines.len(),
{
    if lines.len() == 0 {
        0
    } else {
        credit_total(lines.drop_last()) + line_credit(lines.last())
    }
}

/// A journal balances when its debits equal its credits.
pub open spec fn balanced(lines: Seq<JournalLinePlan>) -> bool {
    debit_total(lines) == credit_total(lines)
}

/// Line numbers run 1, 2, 3, ... in order.
pub open spec fn numbered_in_order(lines: Seq<JournalLinePlan>) -> bool {
    forall|i: int| 0 <= i < lines.len() ==> (#[trigger] lines[i]).line_number == i + 1
}

} // verus!
