//! The decisions of the receivables command handlers: fee assessment,
//! FIFO allocation of fee payments to installments, fee account updates,
//! concessions, scholarship and refund state checks and the journals that
//! each posting creates. The handlers that read and write the database call
//! these functions with the rows they loaded.

use vstd::prelude::*;
use crate::money::{in_paise_range, running_totals_in_range, sum_money, total_of, Money};
use crate::decimal::{mantissa_bound, pow10_i128, DecimalValue};
use crate::receivables::models::ConcessionType;
use crate::text::pow10;
use crate::receivables::models::{FeeAccountStatus, InstallmentStatus, PaymentMode};
use crate::text::{concat2, concat3, owned, push_int_padded, push_slice, str_eq, int_text_padded};
use crate::journal::{JournalLinePlan, balanced, credit_total, debit_total, numbered_in_order};

verus! {

/// AR-specific errors (the database error of the handlers is added where
/// the database is reached).
#[derive(Debug)]
pub enum ArError {
    FeeStructureNotFound(String),
    ReceiptNotFound(String),
    ScholarshipNotFound(String),
    NotFound(String),
    Validation(String),
    Internal(String),
}

impl ArError {
    /// The error's text, naming what went wrong.
    pub fn to_string(&self) -> (s: String)
        ensures
            s@ == match self {
                ArError::FeeStructureNotFound(m) => "fee structure "@ + m@ + " not found"@,
                ArError::ReceiptNotFound(m) => "payment receipt "@ + m@ + " not found"@,
                ArError::ScholarshipNotFound(m) => "scholarship "@ + m@ + " not found"@,
                ArError::NotFound(m) => "not found: "@ + m@,
                ArError::Validation(m) => "validation error: "@ + m@,
                ArError::Internal(m) => "internal error: "@ + m@,
            },
    {
        match self {
            ArError::FeeStructureNotFound(m) => concat3("fee structure ", m.as_str(), " not found"),
            ArError::ReceiptNotFound(m) => concat3("payment receipt ", m.as_str(), " not found"),
            ArError::ScholarshipNotFound(m) => concat3("scholarship ", m.as_str(), " not found"),
            ArError::NotFound(m) => concat2("not found: ", m.as_str()),
            ArError::Validation(m) => concat2("validation error: ", m.as_str()),
            ArError::Internal(m) => concat2("internal error: ", m.as_str()),
        }
    }
}

// ─── FIFO allocation of a payment to installments ──────────────────────

/// An installment as the payment allocation reads it: its amount and what
/// has been paid towards it, in paise.
#[derive(Debug, Clone, Copy, PartialEq, Eq, Structural)]
pub struct InstallmentDue {
    pub amount: i64,
    pub paid: i64,
}

/// What is still owed on an installment.
pub open spec fn owed(d: InstallmentDue) -> int {
    d.amount - d.paid
}

/// The allocations that FIFO produces for installments `i..` with
/// `rem` paise left: installments are taken in order, each with something
/// owed receives the lesser of what is owed and what is left, until the
/// money runs out. Each entry is (installment index, allocated paise).
pub open spec fn fifo_from(dues: Seq<InstallmentDue>, i: int, rem: int) -> Seq<(int, int)>
    decreases dues.len() - i,
{
    if i >= dues.len() || i < 0 || rem <= 0 {
        Seq::empty()
    } else if owed(dues[i]) > 0 {
        let a = if rem < owed(dues[i]) { rem } else { owed(dues[i]) };
        seq![(i, a)] + fifo_from(dues, i + 1, rem - a)
    } else {
        fifo_from(dues, i + 1, rem)
    }
}

/// The FIFO allocation of `amount` paise over all installments.
pub open spec fn fifo_allocation(dues: Seq<InstallmentDue>, amount: int) -> Seq<(int, int)> {
    fifo_from(dues, 0, amount)
}

/// Whether every installment's amount owed fits in an `i64`.
pub open spec fn owed_in_range(dues: Seq<InstallmentDue>) -> bool {
    forall|i: int| 0 <= i < dues.len() ==> in_paise_range(#[trigger] owed(dues[i]))
}

/// Allocate a payment of `amount` paise to the installments in the order
/// given (oldest due first): each installment with something owed receives
/// the lesser of what it owes and what is left, until the payment is used
/// up. Returns (installment index, allocated paise) pairs in order.
pub fn allocate_fifo(dues: &Vec<InstallmentDue>, amount: i64) -> (r: Vec<(usize, i64)>)
    requires
        owed_in_range(dues@),
    ensures
        r@.len() == fifo_allocation(dues@, amount as int).len(),
        forall|k: int|
            0 <= k < r@.len() ==> (#[trigger] r@[k]).0 as int == fifo_allocation(
                dues@,
                amount as int,
            )[k].0 && r@[k].1 as int == fifo_allocation(dues@, amount as int)[k].1,
        forall|k: int|
            0 <= k < r@.len() ==> (#[trigger] r@[k]).0 < dues@.len() && 0 < r@[k].1 <= owed(
                dues@[r@[k].0 as int],
            ) && (k + 1 < r@.len() ==> r@[k].1 == owed(dues@[r@[k].0 as int])),
        forall|k: int, l: int| 0 <= k < l < r@.len() ==> (#[trigger] r@[k]).0 < (#[trigger] r@[l]).0,
        r@.len() > 0 ==> forall|m: int| 0 <= m < r@[0].0 ==> owed(#[trigger] dues@[m]) <= 0,
        forall|k: int, m: int|
            #![trigger r@[k], dues@[m]]
            0 <= k && k + 1 < r@.len() && r@[k].0 < m < r@[k + 1].0 ==> owed(dues@[m]) <= 0,
        allocated_total(as_int_pairs(r@)) == if amount <= 0 {
            0
        } else if amount < owed_from(dues@, 0) {
            amount as int
        } else {
            owed_from(dues@, 0)
        },
{
    let mut remaining = amount;
    let mut allocations: Vec<(usize, i64)> = Vec::new();
    let mut i: usize = 0;
    let ghost target = fifo_allocation(dues@, amount as int);
    while i < dues.len()
        invariant
            i <= dues@.len(),
            owed_in_range(dues@),
            target == fifo_allocation(dues@, amount as int),
            remaining <= amount,
            target.len() == allocations@.len() + fifo_from(dues@, i as int, remaining as int).len(),
            forall|k: int|
                0 <= k < allocations@.len() ==> (#[trigger] allocations@[k]).0 as int
                    == target[k].0 && allocations@[k].1 as int == target[k].1,
            forall|k: int|
                0 <= k < fifo_from(dues@, i as int, remaining as int).len() ==> target[k
                    + allocations@.len()] == #[trigger] fifo_from(
                    dues@,
                    i as int,
                    remaining as int,
                )[k],
        ensures
            i == dues@.len() || remaining <= 0,
        decreases dues@.len() - i,
    {
        if remaining <= 0 {
            break;
        }
        let d = dues[i];
        assert(in_paise_range(owed(dues@[i as int])));
        let outstanding = d.amount - d.paid;
        let ghost tail = fifo_from(dues@, i as int, remaining as int);
        if outstanding > 0 {
            let alloc = if remaining < outstanding { remaining } else { outstanding };
            assert(tail == seq![(i as int, alloc as int)] + fifo_from(
                dues@,
                i + 1,
                remaining - alloc,
            ));
            assert(tail[0] == (i as int, alloc as int));
            allocations.push((i, alloc));
            remaining = remaining - alloc;
            assert forall|k: int|
                0 <= k < fifo_from(dues@, i + 1, remaining as int).len() implies target[k
                + allocations@.len()] == #[trigger] fifo_from(dues@, i + 1, remaining as int)[k] by {
                assert(tail[k + 1] == fifo_from(dues@, i + 1, remaining as int)[k]);
            }
        } else {
            assert(tail == fifo_from(dues@, i + 1, remaining as int));
        }
        i = i + 1;
    }
    assert(fifo_from(dues@, i as int, remaining as int).len() == 0);
    proof {
        lemma_fifo_shape(dues@, 0, amount as int);
        lemma_fifo_no_skip(dues@, 0, amount as int);
        lemma_fifo_allocates_min(dues@, 0, amount as int);
        assert(as_int_pairs(allocations@) =~= target);
        assert forall|k: int| 0 <= k < allocations@.len() implies (#[trigger] allocations@[k]).0
            < dues@.len() && 0 < allocations@[k].1 <= owed(dues@[allocations@[k].0 as int]) && (k
            + 1 < allocations@.len() ==> allocations@[k].1 == owed(
            dues@[allocations@[k].0 as int],
        )) by {
            assert(target[k] == fifo_from(dues@, 0, amount as int)[k]);
        }
        assert forall|k: int, l: int| 0 <= k < l < allocations@.len() implies (
        #[trigger] allocations@[k]).0 < (#[trigger] allocations@[l]).0 by {
            assert(target[k] == fifo_from(dues@, 0, amount as int)[k]);
            assert(target[l] == fifo_from(dues@, 0, amount as int)[l]);
        }
        if allocations@.len() > 0 {
            assert(target[0] == fifo_from(dues@, 0, amount as int)[0]);
        }
        assert forall|k: int, m: int|
            #![trigger allocations@[k], dues@[m]]
            0 <= k && k + 1 < allocations@.len() && allocations@[k].0 < m < allocations@[k + 1].0
                implies owed(dues@[m]) <= 0 by {
            assert(target[k] == fifo_from(dues@, 0, amount as int)[k]);
            assert(target[k + 1] == fifo_from(dues@, 0, amount as int)[k + 1]);
        }
    }
    allocations
}

/// An allocation list read as (installment index, paise) pairs of integers.
pub open spec fn as_int_pairs(s: Seq<(usize, i64)>) -> Seq<(int, int)> {
    s.map_values(|e: (usize, i64)| (e.0 as int, e.1 as int))
}

/// Total paise of a list of allocations.
pub open spec fn allocated_total(s: Seq<(int, int)>) -> int
    decreases s.len(),
{
    if s.len() == 0 {
        0
    } else {
        s[0].1 + allocated_total(s.drop_first())
    }
}

/// What installments `i..` still owe in total, counting only those that owe
/// something.
pub open spec fn owed_from(dues: Seq<InstallmentDue>, i: int) -> int
    decreases dues.len() - i,
{
    if i >= dues.len() || i < 0 {
        0
    } else {
        (if owed(dues[i]) > 0 { owed(dues[i]) } else { 0 }) + owed_from(dues, i + 1)
    }
}

/// A FIFO allocation hands out exactly the lesser of the payment and what
/// the installments owe in total (nothing for a payment that is not
/// positive): no paisa is lost or invented.
pub proof fn lemma_fifo_allocates_min(dues: Seq<InstallmentDue>, i: int, rem: int)
    requires
        0 <= i,
    ensures
        allocated_total(fifo_from(dues, i, rem)) == if rem <= 0 {
            0
        } else if rem < owed_from(dues, i) {
            rem
        } else {
            owed_from(dues, i)
        },
    decreases dues.len() - i,
{
    if i >= dues.len() || rem <= 0 {
        if i < dues.len() {
            lemma_owed_from_nonneg(dues, i);
        }
    } else {
        lemma_owed_from_nonneg(dues, i + 1);
        let o = owed(dues[i]);
        if o > 0 {
            let a = if rem < o { rem } else { o };
            lemma_fifo_allocates_min(dues, i + 1, rem - a);
            let f = fifo_from(dues, i, rem);
            assert(f.drop_first() =~= fifo_from(dues, i + 1, rem - a));
        } else {
            lemma_fifo_allocates_min(dues, i + 1, rem);
        }
    }
}

/// What installments owe in total is never negative.
pub proof fn lemma_owed_from_nonneg(dues: Seq<InstallmentDue>, i: int)
    ensures
        owed_from(dues, i) >= 0,
    decreases dues.len() - i,
{
    if i < dues.len() && i >= 0 {
        lemma_owed_from_nonneg(dues, i + 1);
    }
}

/// Each FIFO allocation goes to an installment that owes something, is
/// positive and at most what that installment owes; installments are
/// visited in increasing order, each at most once; and every allocation but
/// the last settles its installment in full (money reaches a later
/// installment only once the earlier ones are paid).
pub proof fn lemma_fifo_shape(dues: Seq<InstallmentDue>, i: int, rem: int)
    requires
        0 <= i,
    ensures
        forall|k: int|
            0 <= k < fifo_from(dues, i, rem).len() ==> {
                let e = #[trigger] fifo_from(dues, i, rem)[k];
                &&& i <= e.0 < dues.len()
                &&& 0 < e.1 <= owed(dues[e.0])
                &&& k + 1 < fifo_from(dues, i, rem).len() ==> e.1 == owed(dues[e.0])
            },
        forall|k: int, l: int|
            0 <= k < l < fifo_from(dues, i, rem).len() ==> (#[trigger] fifo_from(dues, i, rem)[k]).0
                < (#[trigger] fifo_from(dues, i, rem)[l]).0,
    decreases dues.len() - i,
{
    if i >= dues.len() || rem <= 0 {
    } else {
        let o = owed(dues[i]);
        if o > 0 {
            let a = if rem < o { rem } else { o };
            lemma_fifo_shape(dues, i + 1, rem - a);
            let f = fifo_from(dues, i, rem);
            let t = fifo_from(dues, i + 1, rem - a);
            assert(f == seq![(i, a)] + t);
            if a < o {
                assert(t.len() == 0);
            }
            assert forall|k: int| 0 <= k < f.len() implies {
                let e = #[trigger] f[k];
                &&& i <= e.0 < dues.len()
                &&& 0 < e.1 <= owed(dues[e.0])
                &&& k + 1 < f.len() ==> e.1 == owed(dues[e.0])
            } by {
                if k > 0 {
                    assert(f[k] == t[k - 1]);
                }
            }
            assert forall|k: int, l: int| 0 <= k < l < f.len() implies (#[trigger] f[k]).0
                < (#[trigger] f[l]).0 by {
                if k > 0 {
                    assert(f[k] == t[k - 1]);
                }
                assert(f[l] == t[l - 1]);
            }
        } else {
            lemma_fifo_shape(dues, i + 1, rem);
            assert(fifo_from(dues, i, rem) == fifo_from(dues, i + 1, rem));
        }
    }
}

/// FIFO skips no installment that still owes something: before the first
/// allocation, and between any two consecutive allocations, every
/// installment owes nothing. Together with `lemma_fifo_shape` (positive,
/// increasing, all but the last settled in full) and
/// `lemma_fifo_allocates_min` (the lesser of the payment and what is owed is
/// handed out) this pins the allocation down: the oldest installments that
/// owe are paid first.
pub proof fn lemma_fifo_no_skip(dues: Seq<InstallmentDue>, i: int, rem: int)
    requires
        0 <= i,
    ensures
        fifo_from(dues, i, rem).len() > 0 ==> forall|m: int|
            i <= m < fifo_from(dues, i, rem)[0].0 ==> owed(#[trigger] dues[m]) <= 0,
        forall|k: int, m: int|
            #![trigger fifo_from(dues, i, rem)[k], dues[m]]
            0 <= k && k + 1 < fifo_from(dues, i, rem).len() && fifo_from(dues, i, rem)[k].0 < m
                < fifo_from(dues, i, rem)[k + 1].0 ==> owed(dues[m]) <= 0,
    decreases dues.len() - i,
{
    if i >= dues.len() || rem <= 0 {
    } else {
        let o = owed(dues[i]);
        if o > 0 {
            let a = if rem < o { rem } else { o };
            lemma_fifo_no_skip(dues, i + 1, rem - a);
            lemma_fifo_shape(dues, i + 1, rem - a);
            let f = fifo_from(dues, i, rem);
            let t = fifo_from(dues, i + 1, rem - a);
            assert(f == seq![(i, a)] + t);
            assert forall|k: int, m: int|
                #![trigger f[k], dues[m]]
                0 <= k && k + 1 < f.len() && f[k].0 < m < f[k + 1].0 implies owed(dues[m]) <= 0 by {
                assert(f[k + 1] == t[k]);
                if k > 0 {
                    assert(f[k] == t[k - 1]);
                } else {
                    assert(f[0].0 == i);
                    assert(i + 1 <= m < t[0].0);
                }
            }
        } else {
            lemma_fifo_no_skip(dues, i + 1, rem);
            assert(fifo_from(dues, i, rem) == fifo_from(dues, i + 1, rem));
        }
    }
}

// ─── Fee payment ───────────────────────────────────────────────────────

/// Check a fee payment amount: a zero payment is refused.
pub fn check_payment_amount(amount: Money) -> (r: Result<(), ArError>)
    ensures
        r is Ok <==> amount@ != 0,
        r matches Err(e) ==> e matches ArError::Validation(m) && m@
            == "Payment amount must be positive"@,
{
    if amount.is_zero() {
        return Err(ArError::Validation(owned("Payment amount must be positive")));
    }
    Ok(())
}

/// The payment mode a receipt's mode code stands for; any other code is a
/// payment gateway.
pub open spec fn receipt_mode_of(s: Seq<char>) -> PaymentMode {
    if s == "CASH"@ {
        PaymentMode::Cash
    } else if s == "CHEQUE"@ {
        PaymentMode::Cheque
    } else if s == "DD"@ {
        PaymentMode::Dd
    } else if s == "NEFT"@ {
        PaymentMode::Neft
    } else if s == "RTGS"@ {
        PaymentMode::Rtgs
    } else if s == "IMPS"@ {
        PaymentMode::Imps
    } else if s == "UPI"@ {
        PaymentMode::Upi
    } else if s == "CREDIT_CARD"@ {
        PaymentMode::CreditCard
    } else if s == "DEBIT_CARD"@ {
        PaymentMode::DebitCard
    } else if s == "POS"@ {
        PaymentMode::Pos
    } else {
        PaymentMode::PaymentGateway
    }
}

/// Determine the payment mode of a fee receipt from its code.
pub fn receipt_payment_mode(code: &str) -> (m: PaymentMode)
    ensures
        m == receipt_mode_of(code@),
{
    if str_eq(code, "CASH") {
        PaymentMode::Cash
    } else if str_eq(code, "CHEQUE") {
        PaymentMode::Cheque
    } else if str_eq(code, "DD") {
        PaymentMode::Dd
    } else if str_eq(code, "NEFT") {
        PaymentMode::Neft
    } else if str_eq(code, "RTGS") {
        PaymentMode::Rtgs
    } else if str_eq(code, "IMPS") {
        PaymentMode::Imps
    } else if str_eq(code, "UPI") {
        PaymentMode::Upi
    } else if str_eq(code, "CREDIT_CARD") {
        PaymentMode::CreditCard
    } else if str_eq(code, "DEBIT_CARD") {
        PaymentMode::DebitCard
    } else if str_eq(code, "POS") {
        PaymentMode::Pos
    } else {
        PaymentMode::PaymentGateway
    }
}

/// The receipt number: `RCP-`, the first six characters of the entity id's
/// text, `-`, and the sequence number zero-padded to six digits.
pub open spec fn receipt_number_text(entity: Seq<char>, seq: int) -> Seq<char> {
    let prefix = if entity.len() < 6 { entity } else { entity.take(6) };
    "RCP-"@ + prefix + "-"@ + int_text_padded(seq, 6)
}

/// Build a receipt number from the entity id text and a sequence number.
pub fn receipt_number(entity_text: &str, seq: i64) -> (r: String)
    ensures
        r@ == receipt_number_text(entity_text@, seq as int),
{
    let mut out = owned("RCP-");
    let n = entity_text.unicode_len();
    let take = if n < 6 { n } else { 6 };
    push_slice(&mut out, entity_text, 0, take);
    out.append("-");
    push_int_padded(&mut out, seq, 6);
    assert(entity_text@.subrange(0, take as int) =~= (if entity_text@.len() < 6 {
        entity_text@
    } else {
        entity_text@.take(6)
    }));
    assert(out@ =~= receipt_number_text(entity_text@, seq as int));
    out
}

/// An installment after an allocation: what has been paid towards it and
/// its status (`Paid` once the paid amount reaches the installment amount).
pub fn installment_after_allocation(due: InstallmentDue, alloc: i64) -> (r: (i64, InstallmentStatus))
    requires
        in_paise_range(due.paid + alloc),
    ensures
        r.0 == due.paid + alloc,
        r.1 == if due.paid + alloc >= due.amount {
            InstallmentStatus::Paid
        } else {
            InstallmentStatus::PartiallyPaid
        },
{
    let paid = due.paid + alloc;
    let status = if paid >= due.amount {
        InstallmentStatus::Paid
    } else {
        InstallmentStatus::PartiallyPaid
    };
    (paid, status)
}

/// A fee account's collection totals after a change.
#[derive(Debug, Clone, Copy, PartialEq, Eq, Structural)]
pub struct FeeAccountUpdate {
    pub total_paid: i64,
    pub outstanding: i64,
    pub status: FeeAccountStatus,
}

/// The collection status of an account from its outstanding amount and
/// what has been paid.
pub open spec fn collection_status(outstanding: int, total_paid: int) -> FeeAccountStatus {
    if outstanding == 0 {
        FeeAccountStatus::Paid
    } else if total_paid > 0 {
        FeeAccountStatus::PartiallyPaid
    } else {
        FeeAccountStatus::Pending
    }
}

/// Apply a payment to a fee account: the paid total grows by the payment,
/// the outstanding amount is what remains of the net payable (never below
/// zero), and the status follows.
pub fn account_after_payment(net_payable: i64, total_paid: i64, amount: i64) -> (r: FeeAccountUpdate)
    requires
        in_paise_range(total_paid + amount),
        in_paise_range(net_payable - (total_paid + amount)),
    ensures
        r.total_paid == total_paid + amount,
        r.outstanding == if net_payable - r.total_paid > 0 {
            net_payable - r.total_paid
        } else {
            0
        },
        r.status == collection_status(r.outstanding as int, r.total_paid as int),
{
    let new_total_paid = total_paid + amount;
    let diff = net_payable - new_total_paid;
    let new_outstanding = if diff > 0 { diff } else { 0 };
    let status = if new_outstanding == 0 {
        FeeAccountStatus::Paid
    } else if new_total_paid > 0 {
        FeeAccountStatus::PartiallyPaid
    } else {
        FeeAccountStatus::Pending
    };
    FeeAccountUpdate { total_paid: new_total_paid, outstanding: new_outstanding, status }
}

/// The journal of a fee payment: the bank account is debited and the fee
/// income account (the bank account when no income account is given)
/// credited with the payment, both lines referring to the receipt.
pub fn fee_payment_journal(
    receipt_number: &str,
    amount: Money,
    bank_account_id: uuid::Uuid,
    income_account_id: Option<uuid::Uuid>,
) -> (lines: Vec<JournalLinePlan>)
    ensures
        lines@.len() == 2,
        numbered_in_order(lines@),
        lines@[0].account_id == bank_account_id,
        lines@[0].debit_amount == Some(amount),
        lines@[0].credit_amount is None,
        lines@[0].description matches Some(d) && d@ == "Fee payment receipt "@ + receipt_number@,
        lines@[1].account_id == match income_account_id {
            Some(a) => a,
            None => bank_account_id,
        },
        lines@[1].debit_amount is None,
        lines@[1].credit_amount == Some(amount),
        lines@[1].description matches Some(d) && d@ == "Fee collection \u{2014} receipt "@
            + receipt_number@,
        forall|i: int|
            0 <= i < 2 ==> ((#[trigger] lines@[i]).reference_id matches Some(r) && r@
                == receipt_number@),
        forall|i: int|
            0 <= i < 2 ==> ((#[trigger] lines@[i]).reference_type matches Some(t) && t@
                == "RECEIPT"@),
        debit_total(lines@) == amount@,
        credit_total(lines@) == amount@,
        balanced(lines@),
{
    let income = match income_account_id {
        Some(a) => a,
        None => bank_account_id,
    };
    let mut lines: Vec<JournalLinePlan> = Vec::new();
    lines.push(
        JournalLinePlan {
            line_number: 1,
            account_id: bank_account_id,
            debit_amount: Some(amount),
            credit_amount: None,
            description: Some(concat2("Fee payment receipt ", receipt_number)),
            reference_id: Some(owned(receipt_number)),
            reference_type: Some(owned("RECEIPT")),
        },
    );
    lines.push(
        JournalLinePlan {
            line_number: 2,
            account_id: income,
            debit_amount: None,
            credit_amount: Some(amount),
            description: Some(concat2("Fee collection \u{2014} receipt ", receipt_number)),
            reference_id: Some(owned(receipt_number)),
            reference_type: Some(owned("RECEIPT")),
        },
    );
    proof {
        assert(lines@.drop_last().drop_last() =~= Seq::<JournalLinePlan>::empty());
        reveal_with_fuel(debit_total, 3);
        reveal_with_fuel(credit_total, 3);
    }
    lines
}

// ─── Fee assessment ────────────────────────────────────────────────────

/// The figures of a newly assessed student fee account.
#[derive(Debug, Clone, Copy, PartialEq, Eq, Structural)]
pub struct FeeAssessment {
    pub gross_fee: Money,
    pub scholarship_expected: Money,
    pub concession_amount: Money,
    pub net_payable: Money,
    pub total_paid: Money,
    pub outstanding: Money,
    pub status: FeeAccountStatus,
}

/// The paise of an optional amount, zero when absent.
pub open spec fn or_zero(m: Option<Money>) -> int {
    match m {
        Some(a) => a@,
        None => 0,
    }
}

/// Assess a student's fees: the gross fee is the sum of the fee structure
/// lines, the net payable is the gross fee less the expected scholarship and
/// the concession (each zero when not given), nothing is paid yet and the
/// whole net payable is outstanding.
pub fn assess_fee_account(
    line_amounts: &Vec<Money>,
    scholarship_expected: Option<Money>,
    concession_amount: Option<Money>,
) -> (r: FeeAssessment)
    requires
        running_totals_in_range(line_amounts@),
        in_paise_range(total_of(line_amounts@) - or_zero(scholarship_expected)),
        in_paise_range(
            total_of(line_amounts@) - or_zero(scholarship_expected) - or_zero(concession_amount),
        ),
    ensures
        r.gross_fee@ == total_of(line_amounts@),
        r.scholarship_expected@ == or_zero(scholarship_expected),
        r.concession_amount@ == or_zero(concession_amount),
        r.net_payable@ == r.gross_fee@ - r.scholarship_expected@ - r.concession_amount@,
        r.total_paid@ == 0,
        r.outstanding@ == r.net_payable@,
        r.status == FeeAccountStatus::Pending,
{
    let gross_fee = sum_money(line_amounts);
    let scholarship = match scholarship_expected {
        Some(m) => m,
        None => Money::zero(),
    };
    let concession = match concession_amount {
        Some(m) => m,
        None => Money::zero(),
    };
    let net = gross_fee.as_paise() - scholarship.as_paise() - concession.as_paise();
    let net_payable = Money::from_paise(net);
    FeeAssessment {
        gross_fee,
        scholarship_expected: scholarship,
        concession_amount: concession,
        net_payable,
        total_paid: Money::zero(),
        outstanding: net_payable,
        status: FeeAccountStatus::Pending,
    }
}

// ─── Fee account figures ───────────────────────────────────────────────

/// The money columns of a student fee account row, in paise.
#[derive(Debug, Clone, Copy, PartialEq, Eq, Structural)]
pub struct FeeAccountFigures {
    pub gross_fee: i64,
    pub scholarship_expected: i64,
    pub concession_amount: i64,
    pub net_payable: i64,
    pub total_paid: i64,
    pub outstanding: i64,
}

/// `x` or zero, whichever is larger.
pub open spec fn at_least_zero(x: int) -> int {
    if x > 0 {
        x
    } else {
        0
    }
}

impl FeeAccountFigures {
    /// Recalculate the net payable and the outstanding amount from the
    /// constituent figures: the net payable is the gross fee less the
    /// expected scholarship and the concession, and the outstanding amount
    /// is what remains of it after payments, or zero.
    pub fn recalculate(&mut self)
        requires
            in_paise_range(old(self).gross_fee - old(self).scholarship_expected),
            in_paise_range(old(self).gross_fee - old(self).scholarship_expected
                - old(self).concession_amount),
            in_paise_range(old(self).gross_fee - old(self).scholarship_expected
                - old(self).concession_amount - old(self).total_paid),
        ensures
            final(self).net_payable == old(self).gross_fee - old(self).scholarship_expected
                - old(self).concession_amount,
            final(self).outstanding == at_least_zero(final(self).net_payable - old(self).total_paid),
            final(self).gross_fee == old(self).gross_fee,
            final(self).scholarship_expected == old(self).scholarship_expected,
            final(self).concession_amount == old(self).concession_amount,
            final(self).total_paid == old(self).total_paid,
    {
        self.net_payable = self.gross_fee - self.scholarship_expected - self.concession_amount;
        self.outstanding = if self.net_payable > self.total_paid {
            self.net_payable - self.total_paid
        } else {
            0
        };
    }

    /// The account after a concession of `calc` paise: the concession grows,
    /// the net payable is recomputed from the gross fee, and the outstanding
    /// amount is what remains after payments (never below zero).
    pub fn after_concession(&self, calc: i64) -> (r: FeeAccountFigures)
        requires
            in_paise_range(self.concession_amount + calc),
            in_paise_range(self.gross_fee - self.scholarship_expected),
            in_paise_range(self.gross_fee - self.scholarship_expected - (self.concession_amount + calc)),
            in_paise_range(self.gross_fee - self.scholarship_expected - (self.concession_amount + calc)
                - self.total_paid),
        ensures
            r.concession_amount == self.concession_amount + calc,
            r.net_payable == self.gross_fee - self.scholarship_expected - r.concession_amount,
            r.outstanding == at_least_zero(r.net_payable - self.total_paid),
            r.gross_fee == self.gross_fee,
            r.scholarship_expected == self.scholarship_expected,
            r.total_paid == self.total_paid,
    {
        let new_concession = self.concession_amount + calc;
        let new_net = self.gross_fee - self.scholarship_expected - new_concession;
        let diff = new_net - self.total_paid;
        FeeAccountFigures {
            gross_fee: self.gross_fee,
            scholarship_expected: self.scholarship_expected,
            concession_amount: new_concession,
            net_payable: new_net,
            total_paid: self.total_paid,
            outstanding: if diff > 0 { diff } else { 0 },
        }
    }

    /// The account after a scholarship of `expected` paise is applied for:
    /// the expected scholarship grows, the net payable is recomputed and the
    /// outstanding amount is the net payable less payments (as the database
    /// update computes it, without a floor at zero). `None` when a figure
    /// would leave the 64-bit range, where the database refuses the update.
    pub fn after_scholarship_applied(&self, expected: i64) -> (r: Option<FeeAccountFigures>)
        ensures
            r is Some <==> {
                &&& in_paise_range(self.scholarship_expected + expected)
                &&& in_paise_range(self.gross_fee - (self.scholarship_expected + expected))
                &&& in_paise_range(self.gross_fee - (self.scholarship_expected + expected)
                    - self.concession_amount)
                &&& in_paise_range(self.gross_fee - (self.scholarship_expected + expected)
                    - self.concession_amount - self.total_paid)
            },
            r matches Some(f) ==> {
                &&& f.scholarship_expected == self.scholarship_expected + expected
                &&& f.net_payable == self.gross_fee - f.scholarship_expected - self.concession_amount
                &&& f.outstanding == f.net_payable - self.total_paid
                &&& f.gross_fee == self.gross_fee
                &&& f.concession_amount == self.concession_amount
                &&& f.total_paid == self.total_paid
            },
    {
        let sch = match self.scholarship_expected.checked_add(expected) {
            Some(v) => v,
            None => return None,
        };
        let g = match self.gross_fee.checked_sub(sch) {
            Some(v) => v,
            None => return None,
        };
        let net = match g.checked_sub(self.concession_amount) {
            Some(v) => v,
            None => return None,
        };
        let outstanding = match net.checked_sub(self.total_paid) {
            Some(v) => v,
            None => return None,
        };
        Some(
            FeeAccountFigures {
                gross_fee: self.gross_fee,
                scholarship_expected: sch,
                concession_amount: self.concession_amount,
                net_payable: net,
                total_paid: self.total_paid,
                outstanding,
            },
        )
    }

    /// The account after a scholarship disbursement of `disbursed` paise
    /// arrives: the expected scholarship falls by it (never below zero), the
    /// net payable is recomputed and the outstanding amount is what remains
    /// after payments (never below zero). The second result reports an
    /// overpayment: the new net payable has fallen below what was paid.
    pub fn after_disbursement(&self, disbursed: i64) -> (r: (FeeAccountFigures, bool))
        requires
            in_paise_range(self.scholarship_expected - disbursed),
            in_paise_range(self.gross_fee - at_least_zero(self.scholarship_expected - disbursed)),
            in_paise_range(self.gross_fee - at_least_zero(self.scholarship_expected - disbursed)
                - self.concession_amount),
            in_paise_range(self.gross_fee - at_least_zero(self.scholarship_expected - disbursed)
                - self.concession_amount - self.total_paid),
        ensures
            r.0.scholarship_expected == at_least_zero(self.scholarship_expected - disbursed),
            r.0.net_payable == self.gross_fee - r.0.scholarship_expected - self.concession_amount,
            r.0.outstanding == at_least_zero(r.0.net_payable - self.total_paid),
            r.0.gross_fee == self.gross_fee,
            r.0.concession_amount == self.concession_amount,
            r.0.total_paid == self.total_paid,
            r.1 == (r.0.net_payable - self.total_paid < 0),
    {
        let d = self.scholarship_expected - disbursed;
        let new_scholarship = if d > 0 { d } else { 0 };
        let new_net = self.gross_fee - new_scholarship - self.concession_amount;
        let diff = new_net - self.total_paid;
        let new_outstanding = if diff > 0 { diff } else { 0 };
        let overpayment = diff < 0;
        (
            FeeAccountFigures {
                gross_fee: self.gross_fee,
                scholarship_expected: new_scholarship,
                concession_amount: self.concession_amount,
                net_payable: new_net,
                total_paid: self.total_paid,
                outstanding: new_outstanding,
            },
            overpayment,
        )
    }
}

// ─── Concessions ───────────────────────────────────────────────────────

/// Division of `a` by a positive `b`, rounded toward zero.
pub open spec fn trunc_div(a: int, b: int) -> int {
    if a >= 0 {
        a / b
    } else {
        -((-a) / b)
    }
}

/// The paise of a fixed concession of `v` rupees: `v × 100` truncated to a
/// whole number, or zero when that does not fit in an `i64`.
pub open spec fn fixed_amount_paise(v: DecimalValue) -> int {
    let q = trunc_div(v.mantissa * 100, pow10(v.scale as nat) as int);
    if in_paise_range(q) {
        q
    } else {
        0
    }
}

/// Whether `rust_decimal` can multiply `v` by 100: the product's mantissa
/// must come within 2^96 once at most `v.scale` trailing zeros are dropped,
/// which fails only for scale 0 or 1 with a large mantissa.
pub open spec fn hundredfold_fits(v: DecimalValue) -> bool {
    ||| v.scale >= 2
    ||| v.scale == 1 && -mantissa_bound() < v.mantissa * 10 < mantissa_bound()
    ||| v.scale == 0 && -mantissa_bound() < v.mantissa * 100 < mantissa_bound()
}

/// The paise of a fixed-amount concession given in rupees.
pub fn fixed_concession_paise(value: &DecimalValue) -> (r: i64)
    requires
        value.wf(),
        hundredfold_fits(*value),
    ensures
        r == fixed_amount_paise(*value),
{
    let p = pow10_i128(value.scale);
    proof {
        crate::decimal::lemma_pow10_mono(0, value.scale as nat);
        assert(pow10(0) == 1);
    }
    let num = value.mantissa * 100;
    let q: i128 = if num >= 0 {
        num / p
    } else {
        -((-num) / p)
    };
    if q >= i64::MIN as i128 && q <= i64::MAX as i128 {
        q as i64
    } else {
        0
    }
}

/// The amount of a concession: a percentage concession is the amount the
/// percentage formula gave (`percentage_amount`), a fixed concession is its
/// value in paise, and a full waiver is the whole net payable.
pub fn concession_amount(
    kind: ConcessionType,
    percentage_amount: Money,
    value: &DecimalValue,
    net_payable: i64,
) -> (r: Money)
    requires
        kind == ConcessionType::FixedAmount ==> value.wf() && hundredfold_fits(*value),
    ensures
        r@ == match kind {
            ConcessionType::Percentage => percentage_amount@,
            ConcessionType::FixedAmount => fixed_amount_paise(*value),
            ConcessionType::FullWaiver => net_payable as int,
        },
{
    match kind {
        ConcessionType::Percentage => percentage_amount,
        ConcessionType::FixedAmount => Money::from_paise(fixed_concession_paise(value)),
        ConcessionType::FullWaiver => Money::from_paise(net_payable),
    }
}

// ─── Scholarship and refund state checks ───────────────────────────────

/// A scholarship can be verified only while `APPLIED`.
pub fn check_scholarship_verifiable(status: &str) -> (r: Result<(), ArError>)
    ensures
        r is Ok <==> status@ == "APPLIED"@,
        r matches Err(e) ==> e matches ArError::Validation(m) && m@
            == "Scholarship must be in APPLIED status to verify, current: "@ + status@,
{
    if !str_eq(status, "APPLIED") {
        return Err(
            ArError::Validation(
                concat2("Scholarship must be in APPLIED status to verify, current: ", status),
            ),
        );
    }
    Ok(())
}

/// A scholarship disbursement can be recorded only while the scholarship is
/// `VERIFIED` or `SANCTIONED`.
pub fn check_scholarship_disbursable(status: &str) -> (r: Result<(), ArError>)
    ensures
        r is Ok <==> (status@ == "VERIFIED"@ || status@ == "SANCTIONED"@),
        r matches Err(e) ==> e matches ArError::Validation(m) && m@
            == "Scholarship must be VERIFIED or SANCTIONED to record disbursement, current: "@
            + status@,
{
    if !str_eq(status, "VERIFIED") && !str_eq(status, "SANCTIONED") {
        return Err(
            ArError::Validation(
                concat2(
                    "Scholarship must be VERIFIED or SANCTIONED to record disbursement, current: ",
                    status,
                ),
            ),
        );
    }
    Ok(())
}

/// A refund can be processed only while `REQUESTED` or `APPROVED`.
pub fn check_refund_processable(status: &str) -> (r: Result<(), ArError>)
    ensures
        r is Ok <==> (status@ == "REQUESTED"@ || status@ == "APPROVED"@),
        r matches Err(e) ==> e matches ArError::Validation(m) && m@
            == "Refund must be REQUESTED or APPROVED to process, current: "@ + status@,
{
    if !str_eq(status, "REQUESTED") && !str_eq(status, "APPROVED") {
        return Err(
            ArError::Validation(
                concat2("Refund must be REQUESTED or APPROVED to process, current: ", status),
            ),
        );
    }
    Ok(())
}

// ─── Refunds ───────────────────────────────────────────────────────────

/// The FRC refund percentage for a withdrawal `days_after` days after the
/// course start (negative: before the start).
pub open spec fn frc_refund_pct(days_after: int) -> u32 {
    if days_after < 0 {
        100
    } else if days_after <= 15 {
        80
    } else if days_after <= 30 {
        50
    } else {
        0
    }
}

/// FRC-compliant refund percentage for a withdrawal on day
/// `withdrawal_day` of a course starting on day `course_start_day` (days
/// counted from a common origin): 100% before the course starts, 80% within
/// 15 days of the start, 50% within 30 days, 0% after that.
pub fn calculate_frc_refund_pct(withdrawal_day: i32, course_start_day: i32) -> (pct: u32)
    ensures
        pct == frc_refund_pct(withdrawal_day - course_start_day),
{
    if withdrawal_day < course_start_day {
        100
    } else {
        let days_after = withdrawal_day as i64 - course_start_day as i64;
        if days_after <= 15 {
            80
        } else if days_after <= 30 {
            50
        } else {
            0
        }
    }
}

/// The later a student withdraws, the smaller (or equal) the refund
/// percentage: it never grows with the days elapsed since the course start.
pub proof fn lemma_frc_refund_never_grows(earlier: int, later: int)
    requires
        earlier <= later,
    ensures
        frc_refund_pct(later) <= frc_refund_pct(earlier),
        frc_refund_pct(later) <= 100,
{
}

/// The reversal journal of a refund: fee income is debited and the bank
/// credited with the refund amount, both lines referring to the refund.
pub fn refund_journal(
    refund_id_text: &str,
    amount: Money,
    fee_income_account_id: uuid::Uuid,
    bank_account_id: uuid::Uuid,
) -> (lines: Vec<JournalLinePlan>)
    ensures
        lines@.len() == 2,
        numbered_in_order(lines@),
        lines@[0].account_id == fee_income_account_id,
        lines@[0].debit_amount == Some(amount),
        lines@[0].credit_amount is None,
        lines@[0].description matches Some(d) && d@ == "Refund reversal \u{2014} refund "@
            + refund_id_text@,
        lines@[1].account_id == bank_account_id,
        lines@[1].debit_amount is None,
        lines@[1].credit_amount == Some(amount),
        lines@[1].description matches Some(d) && d@ == "Refund payment \u{2014} refund "@
            + refund_id_text@,
        forall|i: int|
            0 <= i < 2 ==> ((#[trigger] lines@[i]).reference_id matches Some(r) && r@
                == refund_id_text@),
        forall|i: int|
            0 <= i < 2 ==> ((#[trigger] lines@[i]).reference_type matches Some(t) && t@
                == "REFUND"@),
        debit_total(lines@) == amount@,
        credit_total(lines@) == amount@,
        balanced(lines@),
{
    let mut lines: Vec<JournalLinePlan> = Vec::new();
    lines.push(
        JournalLinePlan {
            line_number: 1,
            account_id: fee_income_account_id,
            debit_amount: Some(amount),
            credit_amount: None,
            description: Some(concat2("Refund reversal \u{2014} refund ", refund_id_text)),
            reference_id: Some(owned(refund_id_text)),
            reference_type: Some(owned("REFUND")),
        },
    );
    lines.push(
        JournalLinePlan {
            line_number: 2,
            account_id: bank_account_id,
            debit_amount: None,
            credit_amount: Some(amount),
            description: Some(concat2("Refund payment \u{2014} refund ", refund_id_text)),
            reference_id: Some(owned(refund_id_text)),
            reference_type: Some(owned("REFUND")),
        },
    );
    proof {
        assert(lines@.drop_last().drop_last() =~= Seq::<JournalLinePlan>::empty());
        reveal_with_fuel(debit_total, 3);
        reveal_with_fuel(credit_total, 3);
    }
    lines
}

// ─── Installment plans ─────────────────────────────────────────────────

/// The largest scale among some decimals (0 for none).
pub open spec fn max_scale(ds: Seq<DecimalValue>) -> nat
    decreases ds.len(),
{
    if ds.len() == 0 {
        0
    } else {
        let m = max_scale(ds.drop_last());
        if ds.last().scale > m {
            ds.last().scale as nat
        } else {
            m
        }
    }
}

/// The sum of some decimals brought to scale `s` (that is, times `10^s`).
pub open spec fn scaled_total(ds: Seq<DecimalValue>, s: nat) -> int
    decreases ds.len(),
{
    if ds.len() == 0 {
        0
    } else {
        scaled_total(ds.drop_last(), s) + ds.last().scaled_to(s)
    }
}

/// The percentages can be added exactly as decimals: each is well formed
/// and every term and running sum, at the largest scale, stays within the
/// 96-bit decimal mantissa.
pub open spec fn percentages_addable(ds: Seq<DecimalValue>) -> bool {
    &&& forall|i: int| 0 <= i < ds.len() ==> (#[trigger] ds[i]).wf()
    &&& forall|i: int|
        0 <= i < ds.len() ==> -mantissa_bound() < (#[trigger] ds[i]).scaled_to(max_scale(ds))
            < mantissa_bound()
    &&& forall|k: int|
        0 <= k <= ds.len() ==> -mantissa_bound() < #[trigger] scaled_total(ds.take(k), max_scale(ds))
            < mantissa_bound()
}

proof fn lemma_max_scale_bounds(ds: Seq<DecimalValue>)
    requires
        forall|i: int| 0 <= i < ds.len() ==> (#[trigger] ds[i]).wf(),
    ensures
        max_scale(ds) <= 28,
        forall|i: int| 0 <= i < ds.len() ==> (#[trigger] ds[i]).scale <= max_scale(ds),
    decreases ds.len(),
{
    if ds.len() > 0 {
        let p = ds.drop_last();
        assert forall|i: int| 0 <= i < p.len() implies (#[trigger] p[i]).wf() by {
            assert(p[i] == ds[i]);
        }
        lemma_max_scale_bounds(p);
        assert forall|i: int| 0 <= i < ds.len() implies (#[trigger] ds[i]).scale <= max_scale(ds) by {
            if i < ds.len() - 1 {
                assert(ds[i] == p[i]);
            }
        }
    }
}

fn max_scale_of(ds: &Vec<DecimalValue>) -> (s: u32)
    requires
        forall|i: int| 0 <= i < ds@.len() ==> (#[trigger] ds@[i]).wf(),
    ensures
        s == max_scale(ds@),
{
    let mut m: u32 = 0;
    let mut i: usize = 0;
    assert(ds@.take(0) =~= Seq::<DecimalValue>::empty());
    while i < ds.len()
        invariant
            i <= ds@.len(),
            m == max_scale(ds@.take(i as int)),
        decreases ds@.len() - i,
    {
        assert(ds@.take(i + 1).drop_last() =~= ds@.take(i as int));
        assert(ds@.take(i + 1).last() == ds@[i as int]);
        if ds[i].scale > m {
            m = ds[i].scale;
        }
        i = i + 1;
    }
    assert(ds@.take(ds@.len() as int) =~= ds@);
    m
}

/// Whether installment percentages add up to exactly 100, as the plan's
/// `rust_decimal` sum compares with 100.
#[verifier::rlimit(30)]
pub fn percentages_sum_to_hundred(percentages: &Vec<DecimalValue>) -> (r: bool)
    requires
        percentages_addable(percentages@),
    ensures
        r == (scaled_total(percentages@, max_scale(percentages@)) == 100 * pow10(
            max_scale(percentages@),
        )),
{
    let ghost ds = percentages@;
    proof {
        lemma_max_scale_bounds(ds);
    }
    let s = max_scale_of(percentages);
    let mut total: i128 = 0;
    let mut i: usize = 0;
    assert(ds.take(0) =~= Seq::<DecimalValue>::empty());
    while i < percentages.len()
        invariant
            ds == percentages@,
            i <= ds.len(),
            s == max_scale(ds),
            s <= 28,
            percentages_addable(ds),
            forall|j: int| 0 <= j < ds.len() ==> (#[trigger] ds[j]).scale <= s,
            total == scaled_total(ds.take(i as int), s as nat),
        decreases ds.len() - i,
    {
        let d = percentages[i];
        assert(ds[i as int].wf());
        let p = pow10_i128(s - d.scale);
        assert(-mantissa_bound() < ds[i as int].scaled_to(s as nat) < mantissa_bound());
        assert(ds.take(i + 1).drop_last() =~= ds.take(i as int));
        assert(ds.take(i + 1).last() == ds[i as int]);
        assert(-mantissa_bound() < scaled_total(ds.take(i + 1), s as nat) < mantissa_bound());
        total = total + d.mantissa * p;
        i = i + 1;
    }
    assert(ds.take(ds.len() as int) =~= ds);
    let p = pow10_i128(s);
    proof {
        crate::decimal::lemma_pow10_mono(s as nat, 28);
        assert(pow10(28) == 10000000000000000000000000000) by {
            reveal_with_fuel(pow10, 29);
        }
    }
    let hundred = 100 * p;
    total == hundred
}

} // verus!
