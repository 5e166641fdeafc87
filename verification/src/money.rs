//! Money value object, stored as paise (1/100 rupee) in an `i64` so that
//! no amount is ever subject to floating-point rounding.

use vstd::prelude::*;
use crate::text::{concat2, int_text, nat_text, owned, pow10, push_int_padded, push_nat_padded, push_slice, zero_pad};
use crate::decimal::{mantissa_bound, pow10_i128, DecimalValue};
use vstd::std_specs::ops::{AddSpec, NegSpec, SubSpec};

verus! {

/// Money value object stored as paise (1/100 of ₹).
#[derive(Debug, Clone, Copy, PartialEq, Eq, PartialOrd, Ord, Hash, Structural)]
pub struct Money {
    /// Amount in paise.
    paise: i64,
}

impl View for Money {
    type V = int;

    closed spec fn view(&self) -> int {
        self.paise as int
    }
}

/// Whether an integer amount of paise fits the stored representation.
pub open spec fn in_paise_range(p: int) -> bool {
    i64::MIN <= p <= i64::MAX
}

impl Money {
    /// The money value holding `p` paise (meaningful for `p` in range).
    pub closed spec fn from_value(p: int) -> Money {
        Money { paise: p as i64 }
    }

    /// Zero amount.
    pub fn zero() -> (m: Money)
        ensures
            m@ == 0,
    {
        Money { paise: 0 }
    }

    /// Create Money from paise.
    pub fn from_paise(paise: i64) -> (m: Money)
        ensures
            m@ == paise,
    {
        Money { paise }
    }

    /// Return the amount in paise.
    pub fn as_paise(self) -> (p: i64)
        ensures
            p == self@,
    {
        self.paise
    }

    /// Check if this is zero.
    pub fn is_zero(self) -> (b: bool)
        ensures
            b == (self@ == 0),
    {
        self.paise == 0
    }
}

impl core::ops::Add for Money {
    type Output = Money;

    fn add(self, rhs: Money) -> (r: Money) {
        Money { paise: self.paise + rhs.paise }
    }
}

impl vstd::std_specs::ops::AddSpecImpl for Money {
    open spec fn obeys_add_spec() -> bool {
        true
    }

    open spec fn add_req(self, rhs: Money) -> bool {
        in_paise_range(self@ + rhs@)
    }

    open spec fn add_spec(self, rhs: Money) -> Money {
        Money::from_value(self@ + rhs@)
    }
}

impl core::ops::Sub for Money {
    type Output = Money;

    fn sub(self, rhs: Money) -> (r: Money) {
        Money { paise: self.paise - rhs.paise }
    }
}

impl vstd::std_specs::ops::SubSpecImpl for Money {
    open spec fn obeys_sub_spec() -> bool {
        true
    }

    open spec fn sub_req(self, rhs: Money) -> bool {
        in_paise_range(self@ - rhs@)
    }

    open spec fn sub_spec(self, rhs: Money) -> Money {
        Money::from_value(self@ - rhs@)
    }
}

impl core::ops::Neg for Money {
    type Output = Money;

    fn neg(self) -> (r: Money) {
        Money { paise: -self.paise }
    }
}

impl vstd::std_specs::ops::NegSpecImpl for Money {
    open spec fn obeys_neg_spec() -> bool {
        true
    }

    open spec fn neg_req(self) -> bool {
        in_paise_range(-self@)
    }

    open spec fn neg_spec(self) -> Money {
        Money::from_value(-self@)
    }
}

impl Money {
    /// The amount in rupees as a decimal: the paise with two decimal places.
    pub fn as_rupees_decimal(self) -> (d: DecimalValue)
        ensures
            d.wf(),
            d.mantissa == self@,
            d.scale == 2,
    {
        DecimalValue { mantissa: self.paise as i128, scale: 2 }
    }
}

impl From<Money> for i64 {
    fn from(m: Money) -> (p: i64) {
        m.paise
    }
}

impl vstd::std_specs::convert::FromSpecImpl<Money> for i64 {
    open spec fn obeys_from_spec() -> bool {
        true
    }

    open spec fn from_spec(m: Money) -> i64 {
        m@ as i64
    }
}

/// Adding an amount and then subtracting it again gives back the amount
/// started from, and so does negating twice.
pub proof fn lemma_add_sub_inverse(a: Money, b: Money)
    requires
        in_paise_range(a@ + b@),
    ensures
        a.add_spec(b)@ == a@ + b@,
        a.add_spec(b).sub_spec(b) == a,
        in_paise_range(-a@) ==> a.neg_spec().neg_spec() == a,
{
}

/// The view of a sum, difference or negation that fits is the integer
/// sum, difference or negation of the views; and two amounts are equal
/// exactly when their views are.
pub proof fn lemma_money_op_views(a: Money, b: Money)
    ensures
        in_paise_range(a@ + b@) ==> a.add_spec(b)@ == a@ + b@,
        in_paise_range(a@ - b@) ==> a.sub_spec(b)@ == a@ - b@,
        in_paise_range(-a@) ==> a.neg_spec()@ == -a@,
        (a@ == b@) == (a == b),
{
}

impl Money {
    /// Add `rhs` in place.
    pub fn add_assign(&mut self, rhs: Money)
        requires
            in_paise_range(old(self)@ + rhs@),
        ensures
            final(self)@ == old(self)@ + rhs@,
    {
        self.paise = self.paise + rhs.paise;
    }

    /// Subtract `rhs` in place.
    pub fn sub_assign(&mut self, rhs: Money)
        requires
            in_paise_range(old(self)@ - rhs@),
        ensures
            final(self)@ == old(self)@ - rhs@,
    {
        self.paise = self.paise - rhs.paise;
    }
}

/// Groups of two characters from the right, joined by commas.
pub open spec fn group_pairs(r: Seq<char>) -> Seq<char>
    decreases r.len(),
{
    if r.len() <= 2 {
        r
    } else {
        group_pairs(r.take(r.len() - 2)) + seq![','] + r.skip(r.len() - 2)
    }
}

/// Indian digit grouping of a numeral: the rightmost three characters form
/// one group, the rest groups of two, e.g. `1234567` becomes `12,34,567`.
pub open spec fn indian_grouping(s: Seq<char>) -> Seq<char> {
    if s.len() <= 3 {
        s
    } else {
        group_pairs(s.take(s.len() - 3)) + seq![','] + s.skip(s.len() - 3)
    }
}

/// How far from the right end of the grouped text the character `j` places
/// from the right end of a numeral stands: the last three stay put, one
/// comma precedes the rest, and one more every two characters after that.
pub open spec fn indian_offset(j: int) -> int {
    if j < 3 {
        j
    } else {
        j + 1 + (j - 3) / 2
    }
}

/// Commas of a text made of a grouped prefix, a comma and two more
/// characters, by their distance from the right end.
proof fn lemma_pair_commas(gt: Seq<char>, s2: Seq<char>, g: Seq<char>)
    requires
        g == gt + seq![','] + s2,
        s2.len() == 2,
        forall|i: int| 0 <= i < s2.len() ==> s2[i] != ',',
        forall|p: int| 0 <= p < gt.len() ==> (#[trigger] gt[p] == ',' <==> (gt.len() - 1 - p) % 3 == 2),
    ensures
        forall|p: int| 0 <= p < g.len() ==> (#[trigger] g[p] == ',' <==> (g.len() - 1 - p) % 3 == 2),
{
    let gl = gt.len() as int;
    assert forall|p: int| 0 <= p < g.len() implies (#[trigger] g[p] == ',' <==> (g.len() - 1 - p)
        % 3 == 2) by {
        if p < gl {
            assert(g[p] == gt[p]);
        } else if p == gl {
            assert(g[p] == ',');
        } else {
            assert(g[p] == s2[p - gl - 1]);
        }
    }
}

/// Where the characters land in a text made of a grouped prefix, a comma
/// and the last two characters.
proof fn lemma_pair_digits(t: Seq<char>, s2: Seq<char>, r: Seq<char>, gt: Seq<char>, g: Seq<char>)
    requires
        r == t + s2,
        s2.len() == 2,
        g == gt + seq![','] + s2,
        t.len() > 0 ==> gt.len() == t.len() + (t.len() - 1) / 2,
        forall|i: int|
            0 <= i < t.len() ==> gt[gt.len() - 1 - ((t.len() - 1 - i) + (t.len() - 1 - i) / 2)]
                == #[trigger] t[i],
    ensures
        forall|i: int|
            0 <= i < r.len() ==> g[g.len() - 1 - ((r.len() - 1 - i) + (r.len() - 1 - i) / 2)]
                == #[trigger] r[i],
{
    let gl = gt.len() as int;
    let m = r.len() as int;
    assert forall|i: int| 0 <= i < r.len() implies g[g.len() - 1 - ((r.len() - 1 - i) + (r.len()
        - 1 - i) / 2)] == #[trigger] r[i] by {
        let j = m - 1 - i;
        if i < t.len() {
            assert(r[i] == t[i]);
            let jt = t.len() - 1 - i;
            assert(jt == j - 2);
            assert(j + j / 2 == jt + jt / 2 + 3);
            assert(0 <= gl - 1 - (jt + jt / 2) < gl);
            assert(g[gl - 1 - (jt + jt / 2)] == gt[gl - 1 - (jt + jt / 2)]);
        } else {
            assert(j + j / 2 == j);
            assert(r[i] == s2[i - t.len()]);
            assert(g[g.len() - 1 - j] == s2[i - t.len()]);
        }
    }
}

/// Pairs from the right, by positions: a text of `m` characters grows by a
/// comma for every full pair but the leftmost, commas stand exactly at every
/// third place from the right starting with the third, and each character
/// keeps its order.
proof fn lemma_group_pairs_layout(r: Seq<char>)
    requires
        forall|i: int| 0 <= i < r.len() ==> r[i] != ',',
    ensures
        group_pairs(r).len() == if r.len() == 0 {
            0
        } else {
            r.len() + (r.len() - 1) / 2
        },
        forall|p: int|
            0 <= p < group_pairs(r).len() ==> (#[trigger] group_pairs(r)[p] == ',' <==> (
            group_pairs(r).len() - 1 - p) % 3 == 2),
        forall|i: int|
            0 <= i < r.len() ==> group_pairs(r)[group_pairs(r).len() - 1 - ((r.len() - 1 - i) + (
            r.len() - 1 - i) / 2)] == #[trigger] r[i],
    decreases r.len(),
{
    let m = r.len() as int;
    if m > 2 {
        let t = r.take(m - 2);
        let s2 = r.skip(m - 2);
        assert forall|i: int| 0 <= i < t.len() implies t[i] != ',' by {
            assert(t[i] == r[i]);
        }
        assert forall|i: int| 0 <= i < s2.len() implies s2[i] != ',' by {
            assert(s2[i] == r[m - 2 + i]);
        }
        assert(r =~= t + s2);
        lemma_group_pairs_layout(t);
        let gt = group_pairs(t);
        let g = group_pairs(r);
        assert(g == gt + seq![','] + s2);
        lemma_pair_commas(gt, s2, g);
        lemma_pair_digits(t, s2, r, gt, g);
    }
}

/// Commas of a text made of a grouped prefix, a comma and three more
/// characters, by their distance from the right end.
proof fn lemma_indian_commas(gt: Seq<char>, s3: Seq<char>, o: Seq<char>)
    requires
        o == gt + seq![','] + s3,
        s3.len() == 3,
        forall|i: int| 0 <= i < s3.len() ==> s3[i] != ',',
        forall|p: int| 0 <= p < gt.len() ==> (#[trigger] gt[p] == ',' <==> (gt.len() - 1 - p) % 3 == 2),
    ensures
        forall|p: int|
            0 <= p < o.len() ==> (#[trigger] o[p] == ',' <==> (o.len() - 1 - p >= 3 && (o.len() - 1
                - p) % 3 == 0)),
{
    let gl = gt.len() as int;
    assert forall|p: int| 0 <= p < o.len() implies (#[trigger] o[p] == ',' <==> (o.len() - 1 - p
        >= 3 && (o.len() - 1 - p) % 3 == 0)) by {
        if p < gl {
            assert(o[p] == gt[p]);
        } else if p == gl {
            assert(o[p] == ',');
        } else {
            assert(o[p] == s3[p - gl - 1]);
        }
    }
}

/// Where the characters of a numeral land in a text made of its grouped
/// prefix, a comma and its last three characters.
proof fn lemma_indian_digits(t: Seq<char>, s3: Seq<char>, d: Seq<char>, gt: Seq<char>, o: Seq<char>)
    requires
        d == t + s3,
        s3.len() == 3,
        o == gt + seq![','] + s3,
        t.len() > 0 ==> gt.len() == t.len() + (t.len() - 1) / 2,
        forall|i: int|
            0 <= i < t.len() ==> gt[gt.len() - 1 - ((t.len() - 1 - i) + (t.len() - 1 - i) / 2)]
                == #[trigger] t[i],
    ensures
        forall|i: int|
            0 <= i < d.len() ==> o[o.len() - 1 - indian_offset(d.len() - 1 - i)] == #[trigger] d[i],
{
    let gl = gt.len() as int;
    let n = d.len() as int;
    assert forall|i: int| 0 <= i < d.len() implies o[o.len() - 1 - indian_offset(d.len() - 1 - i)]
        == #[trigger] d[i] by {
        let j = n - 1 - i;
        if i < t.len() {
            assert(d[i] == t[i]);
            let jt = t.len() - 1 - i;
            assert(jt == j - 3);
            assert(indian_offset(j) == jt + 4 + jt / 2);
            assert(0 <= gl - 1 - (jt + jt / 2) < gl);
            assert(o[gl - 1 - (jt + jt / 2)] == gt[gl - 1 - (jt + jt / 2)]);
        } else {
            assert(d[i] == s3[i - t.len()]);
            assert(o[o.len() - 1 - j] == s3[i - t.len()]);
        }
    }
}

/// Indian grouping, by positions counted from the right end: the grouped
/// text of an `n`-character numeral (n > 3) has one comma after the last
/// three characters and one more before every further pair, so its length
/// is `n + 1 + (n - 4) / 2`; a comma stands exactly at every third place from
/// the right starting with the fourth (`1,23,45,678`, never `12,345,678`);
/// and the characters of the numeral keep their order, the one `j` places
/// from the right landing `indian_offset(j)` places from the right.
pub proof fn lemma_indian_grouping_layout(d: Seq<char>)
    requires
        forall|i: int| 0 <= i < d.len() ==> d[i] != ',',
    ensures
        indian_grouping(d).len() == if d.len() <= 3 {
            d.len() as int
        } else {
            d.len() + 1 + (d.len() - 4) / 2
        },
        forall|p: int|
            0 <= p < indian_grouping(d).len() ==> (#[trigger] indian_grouping(d)[p] == ',' <==> (
            indian_grouping(d).len() - 1 - p >= 3 && (indian_grouping(d).len() - 1 - p) % 3 == 0)),
        forall|i: int|
            0 <= i < d.len() ==> indian_grouping(d)[indian_grouping(d).len() - 1 - indian_offset(
                d.len() - 1 - i,
            )] == #[trigger] d[i],
{
    let n = d.len() as int;
    if n > 3 {
        let t = d.take(n - 3);
        let s3 = d.skip(n - 3);
        assert forall|i: int| 0 <= i < t.len() implies t[i] != ',' by {
            assert(t[i] == d[i]);
        }
        assert forall|i: int| 0 <= i < s3.len() implies s3[i] != ',' by {
            assert(s3[i] == d[n - 3 + i]);
        }
        assert(d =~= t + s3);
        lemma_group_pairs_layout(t);
        let gt = group_pairs(t);
        let o = indian_grouping(d);
        assert(o == gt + seq![','] + s3);
        lemma_indian_commas(gt, s3, o);
        lemma_indian_digits(t, s3, d, gt, o);
    }
}

/// The display text of an amount of `p` paise: `₹` and the rupees with
/// Indian grouping, a point and two paise digits, with a leading `-` for
/// negative amounts (e.g. `₹12,34,56,789.00`).
pub open spec fn display_text(p: int) -> Seq<char> {
    let mag = if p < 0 { -p } else { p };
    let body = seq!['\u{20B9}'] + indian_grouping(int_text(mag / 100)) + seq!['.'] + zero_pad(
        nat_text((mag % 100) as nat),
        2,
    );
    if p < 0 {
        seq!['-'] + body
    } else {
        body
    }
}

fn push_group_pairs(out: &mut String, t: &str, end: usize)
    requires
        end <= t@.len(),
    ensures
        final(out)@ == old(out)@ + group_pairs(t@.take(end as int)),
    decreases end,
{
    if end <= 2 {
        push_slice(out, t, 0, end);
        assert(t@.subrange(0, end as int) =~= t@.take(end as int));
    } else {
        push_group_pairs(out, t, end - 2);
        proof {
            reveal_strlit(",");
        }
        out.append(",");
        push_slice(out, t, end - 2, end);
        let ghost pre = t@.take(end as int);
        assert(pre.take(pre.len() - 2) =~= t@.take(end - 2));
        assert(pre.skip(pre.len() - 2) =~= t@.subrange(end - 2, end as int));
        assert(final(out)@ =~= old(out)@ + group_pairs(t@.take(end as int)));
    }
}

/// Format an integer rupee amount with Indian grouping: rightmost three
/// digits as a group, then groups of two.
pub fn format_rupees_indian(rupees: i64) -> (s: String)
    ensures
        s@ == indian_grouping(int_text(rupees as int)),
        s@.len() == if int_text(rupees as int).len() <= 3 {
            int_text(rupees as int).len() as int
        } else {
            int_text(rupees as int).len() + 1 + (int_text(rupees as int).len() - 4) / 2
        },
        forall|p: int|
            0 <= p < s@.len() ==> (#[trigger] s@[p] == ',' <==> (s@.len() - 1 - p >= 3 && (s@.len()
                - 1 - p) % 3 == 0)),
        forall|i: int|
            0 <= i < int_text(rupees as int).len() ==> s@[s@.len() - 1 - indian_offset(
                int_text(rupees as int).len() - 1 - i,
            )] == #[trigger] int_text(rupees as int)[i],
{
    proof {
        crate::text::lemma_int_text_no_comma(rupees as int);
        lemma_indian_grouping_layout(int_text(rupees as int));
    }
    let mut t = String::new();
    push_int_padded(&mut t, rupees, 0);
    assert(t@ =~= int_text(rupees as int)) by {
        assert(crate::text::int_text_padded(rupees as int, 0) =~= int_text(rupees as int));
    }
    let len = t.as_str().unicode_len();
    if len <= 3 {
        return t;
    }
    let mut out = String::new();
    push_group_pairs(&mut out, t.as_str(), len - 3);
    proof {
        reveal_strlit(",");
    }
    out.append(",");
    push_slice(&mut out, t.as_str(), len - 3, len);
    assert(t@.skip(len - 3) =~= t@.subrange(len - 3, len as int));
    assert(out@ =~= indian_grouping(int_text(rupees as int)));
    out
}

impl Money {
    /// Display in ₹ format with Indian numbering, e.g. `₹1,23,456.78`.
    pub fn to_string(&self) -> (s: String)
        requires
            self@ != i64::MIN,
        ensures
            s@ == display_text(self@),
    {
        let negative = self.paise < 0;
        let abs_paise: i64 = if negative { -self.paise } else { self.paise };
        let rupees = abs_paise / 100;
        let fractional = abs_paise % 100;
        let grouped = format_rupees_indian(rupees);
        let mut out = String::new();
        proof {
            reveal_strlit("-");
            reveal_strlit("\u{20B9}");
            reveal_strlit(".");
        }
        if negative {
            out.append("-");
        }
        out.append("\u{20B9}");
        out.append(grouped.as_str());
        out.append(".");
        push_nat_padded(&mut out, fractional as u64, 2);
        assert(out@ =~= display_text(self@));
        out
    }
}

/// Total paise of a sequence of amounts.
pub open spec fn total_of(s: Seq<Money>) -> int
    decreases s.len(),
{
    if s.len() == 0 {
        0
    } else {
        total_of(s.drop_last()) + s.last()@
    }
}

/// Every running total of the sequence (in order) fits in an `i64`.
pub open spec fn running_totals_in_range(s: Seq<Money>) -> bool {
    forall|k: int| 0 <= k <= s.len() ==> in_paise_range(#[trigger] total_of(s.take(k)))
}

/// Sum a list of amounts in order.
pub fn sum_money(amounts: &Vec<Money>) -> (total: Money)
    requires
        running_totals_in_range(amounts@),
    ensures
        total@ == total_of(amounts@),
{
    let mut acc: i64 = 0;
    let mut i: usize = 0;
    assert(amounts@.take(0) =~= Seq::<Money>::empty());
    while i < amounts.len()
        invariant
            i <= amounts@.len(),
            running_totals_in_range(amounts@),
            acc == total_of(amounts@.take(i as int)),
        decreases amounts@.len() - i,
    {
        assert(amounts@.take(i + 1).drop_last() =~= amounts@.take(i as int));
        assert(in_paise_range(total_of(amounts@.take(i + 1))));
        acc = acc + amounts[i].as_paise();
        i = i + 1;
    }
    assert(amounts@.take(amounts@.len() as int) =~= amounts@);
    Money::from_paise(acc)
}

/// What `str::parse::<rust_decimal::Decimal>` gives for a text: `None`
/// when the text does not parse, else whether the sign is negative, the
/// magnitude of the mantissa and the scale.
pub uninterp spec fn decimal_text_value(s: Seq<char>) -> Option<(bool, u128, u32)>;

/// Parse a decimal text with `str::parse::<rust_decimal::Decimal>`,
/// returning its sign, mantissa magnitude and scale, or the parse error's
/// text. A decimal's mantissa is below 2^96 and its scale at most 28.
#[verifier::external_body]
fn parse_decimal(s: &str) -> (r: Result<(bool, u128, u32), String>)
    ensures
        match decimal_text_value(s@) {
            None => r is Err,
            Some(v) => r matches Ok(w) && w == v,
        },
        r matches Ok(v) ==> v.1 < mantissa_bound() && v.2 <= 28,
{
    s.parse::<rust_decimal::Decimal>().map(
        |d| (d.is_sign_negative(), d.mantissa().unsigned_abs(), d.scale()),
    ).map_err(|e| e.to_string())
}

/// `v / p` rounded to a whole number, halves going to the even neighbour
/// (banker's rounding, as `rust_decimal::Decimal::round` rounds).
pub open spec fn round_half_even(v: int, p: int) -> int {
    let q = v / p;
    let r = v % p;
    if 2 * r > p || (2 * r == p && q % 2 == 1) {
        q + 1
    } else {
        q
    }
}

/// The paise that a decimal text of rupees stands for: its value times 100,
/// rounded half to even.
pub open spec fn text_paise(v: (bool, u128, u32)) -> int {
    round_half_even(v.1 * 100, pow10(v.2 as nat) as int)
}

impl Money {
    /// Create Money from a decimal string of rupees like "1234.56": the
    /// value times 100, rounded half to even, in paise.
    ///
    /// Fails with a message when the text is not a decimal (`invalid
    /// decimal: ...`), when it is negative (`money amount cannot be
    /// negative`, also for a negative zero) and when the paise do not fit
    /// (`money value out of range`).
    pub fn from_str(s: &str) -> (r: Result<Money, String>)
        ensures
            match decimal_text_value(s@) {
                None => r matches Err(m) && m@.len() >= 17 && m@.take(17) == "invalid decimal: "@,
                Some(v) => if v.0 {
                    r matches Err(m) && m@ == "money amount cannot be negative"@
                } else if text_paise(v) > i64::MAX {
                    r matches Err(m) && m@ == "money value out of range"@
                } else {
                    r matches Ok(m) && m@ == text_paise(v)
                },
            },
    {
        let (negative, mantissa, scale) = match parse_decimal(s) {
            Ok(v) => v,
            Err(e) => {
                let m = concat2("invalid decimal: ", e.as_str());
                proof {
                    reveal_strlit("invalid decimal: ");
                    assert(m@.take(17) =~= "invalid decimal: "@);
                }
                return Err(m);
            },
        };
        if negative {
            return Err(owned("money amount cannot be negative"));
        }
        let p = pow10_i128(scale) as u128;
        proof {
            crate::decimal::lemma_pow10_mono(0, scale as nat);
            assert(pow10(0) == 1);
        }
        let v = mantissa * 100;
        let q = v / p;
        let r = v % p;
        let rounded = if 2 * r > p || (2 * r == p && q % 2 == 1) {
            q + 1
        } else {
            q
        };
        if rounded > i64::MAX as u128 {
            return Err(owned("money value out of range"));
        }
        Ok(Money { paise: rounded as i64 })
    }
}

/// The value of a money amount lies in the `i64` range.
pub broadcast proof fn lemma_money_in_range(m: Money)
    ensures
        #[trigger] in_paise_range(m@),
{
}

/// `from_value` gives back the amount it was built from.
pub broadcast proof fn lemma_money_from_value(p: int)
    requires
        in_paise_range(p),
    ensures
        #[trigger] Money::from_value(p)@ == p,
{
}

/// Two amounts are equal exactly when they hold the same number of paise.
pub broadcast proof fn lemma_money_eq(a: Money, b: Money)
    ensures
        #![trigger a@, b@]
        (a@ == b@) == (a == b),
{
}

pub broadcast group group_money {
    lemma_money_in_range,
    lemma_money_from_value,
    lemma_money_eq,
}

} // verus!
