//! Small string utilities shared by the domain modules.

use vstd::prelude::*;

verus! {

/// Character-by-character equality of two string slices.
pub fn str_eq(a: &str, b: &str) -> (r: bool)
    ensures
        r == (a@ == b@),
{
    let n = a.unicode_len();
    if n != b.unicode_len() {
        return false;
    }
    let mut i: usize = 0;
    while i < n
        invariant
            n == a@.len(),
            n == b@.len(),
            i <= n,
            forall|j: int| 0 <= j < i ==> a@[j] == b@[j],
        decreases n - i,
    {
        if a.get_char(i) != b.get_char(i) {
            return false;
        }
        i = i + 1;
    }
    assert(a@ =~= b@);
    true
}

} // verus!

verus! {

/// The decimal digit character for `d` (0..=9).
pub open spec fn digit_char(d: int) -> char {
    (48 + d) as char
}

/// Decimal text of a natural number, without leading zeros.
pub open spec fn nat_text(n: nat) -> Seq<char>
    decreases n,
{
    if n < 10 {
        seq![digit_char(n as int)]
    } else {
        nat_text(n / 10).push(digit_char((n % 10) as int))
    }
}

/// Decimal text of an integer: `-` followed by the digits for negatives.
pub open spec fn int_text(n: int) -> Seq<char> {
    if n < 0 {
        seq!['-'] + nat_text((-n) as nat)
    } else {
        nat_text(n as nat)
    }
}

/// A numeral is made of digits and at most a leading `-`: it holds no comma.
pub proof fn lemma_int_text_no_comma(n: int)
    ensures
        forall|i: int| 0 <= i < int_text(n).len() ==> int_text(n)[i] != ',',
{
    if n < 0 {
        lemma_nat_text_no_comma((-n) as nat);
        assert forall|i: int| 0 <= i < int_text(n).len() implies int_text(n)[i] != ',' by {
            if i > 0 {
                assert(int_text(n)[i] == nat_text((-n) as nat)[i - 1]);
            }
        }
    } else {
        lemma_nat_text_no_comma(n as nat);
    }
}

proof fn lemma_nat_text_no_comma(n: nat)
    ensures
        forall|i: int| 0 <= i < nat_text(n).len() ==> nat_text(n)[i] != ',',
    decreases n,
{
    if n >= 10 {
        lemma_nat_text_no_comma(n / 10);
        let c = digit_char((n % 10) as int);
        assert(c != ',');
        let t = nat_text(n / 10);
        assert(nat_text(n) == t.push(c));
        assert forall|i: int| 0 <= i < nat_text(n).len() implies nat_text(n)[i] != ',' by {
            if i < t.len() {
                assert(nat_text(n)[i] == t[i]);
            }
        }
    } else {
        assert(digit_char(n as int) != ',');
    }
}

/// `s` preceded by as many `0`s as bring it to `width` characters.
pub open spec fn zero_pad(s: Seq<char>, width: int) -> Seq<char> {
    if s.len() < width {
        Seq::new((width - s.len()) as nat, |i: int| '0') + s
    } else {
        s
    }
}

/// Text of `n` zero-padded to `width` characters, the sign counted in the
/// width and the zeros placed after it (as `{:0width$}` prints integers).
pub open spec fn int_text_padded(n: int, width: int) -> Seq<char> {
    if n < 0 {
        seq!['-'] + zero_pad(nat_text((-n) as nat), width - 1)
    } else {
        zero_pad(nat_text(n as nat), width)
    }
}

/// Append one decimal digit.
pub fn push_digit(out: &mut String, d: u64)
    requires
        d < 10,
    ensures
        final(out)@ == old(out)@.push(digit_char(d as int)),
{
    let piece = match d {
        0 => "0",
        1 => "1",
        2 => "2",
        3 => "3",
        4 => "4",
        5 => "5",
        6 => "6",
        7 => "7",
        8 => "8",
        _ => "9",
    };
    proof {
        reveal_strlit("0");
        reveal_strlit("1");
        reveal_strlit("2");
        reveal_strlit("3");
        reveal_strlit("4");
        reveal_strlit("5");
        reveal_strlit("6");
        reveal_strlit("7");
        reveal_strlit("8");
        reveal_strlit("9");
        assert(piece@ =~= seq![digit_char(d as int)]);
    }
    out.append(piece);
    assert(final(out)@ =~= old(out)@.push(digit_char(d as int)));
}

/// Append the decimal text of `n`.
pub fn push_nat_text(out: &mut String, n: u64)
    ensures
        final(out)@ == old(out)@ + nat_text(n as nat),
    decreases n,
{
    if n >= 10 {
        push_nat_text(out, n / 10);
    }
    push_digit(out, n % 10);
    proof {
        if n >= 10 {
            assert(nat_text(n as nat) == nat_text((n / 10) as nat).push(digit_char((n % 10) as int)));
        }
    }
    assert(final(out)@ =~= old(out)@ + nat_text(n as nat));
}

/// Ten to the power `k`.
pub open spec fn pow10(k: nat) -> nat
    decreases k,
{
    if k == 0 {
        1
    } else {
        10 * pow10((k - 1) as nat)
    }
}

/// A number below `10^k` (k >= 1) has at most `k` digits.
proof fn lemma_nat_text_len(n: nat, k: nat)
    requires
        k >= 1,
        n < pow10(k),
    ensures
        nat_text(n).len() <= k,
    decreases n,
{
    if n >= 10 {
        assert(k >= 2) by {
            if k == 1 {
                assert(pow10(1) == 10) by {
                    reveal_with_fuel(pow10, 2);
                }
            }
        }
        assert(n / 10 < pow10((k - 1) as nat)) by (nonlinear_arith)
            requires
                n < pow10(k),
                pow10(k) == 10 * pow10((k - 1) as nat),
        ;
        lemma_nat_text_len(n / 10, (k - 1) as nat);
    }
}

/// Number of decimal digits of `n`.
pub fn count_digits(n: u64) -> (r: usize)
    ensures
        r == nat_text(n as nat).len(),
        1 <= r <= 20,
    decreases n,
{
    proof {
        assert(pow10(20) == 100000000000000000000) by {
            reveal_with_fuel(pow10, 21);
        }
        lemma_nat_text_len(n as nat, 20);
    }
    if n < 10 {
        1
    } else {
        let k = count_digits(n / 10);
        k + 1
    }
}

/// Append `count` zero characters.
pub fn push_zeros(out: &mut String, count: usize)
    ensures
        final(out)@ == old(out)@ + Seq::new(count as nat, |i: int| '0'),
{
    let mut i: usize = 0;
    while i < count
        invariant
            i <= count,
            out@ == old(out)@ + Seq::new(i as nat, |j: int| '0'),
        decreases count - i,
    {
        push_digit(out, 0);
        i = i + 1;
        assert(out@ =~= old(out)@ + Seq::new(i as nat, |j: int| '0'));
    }
}

/// Append the decimal text of `n` zero-padded to `width` characters.
pub fn push_nat_padded(out: &mut String, n: u64, width: usize)
    ensures
        final(out)@ == old(out)@ + zero_pad(nat_text(n as nat), width as int),
{
    let len = count_digits(n);
    if len < width {
        push_zeros(out, width - len);
    }
    let ghost mid = out@;
    push_nat_text(out, n);
    assert(final(out)@ =~= old(out)@ + zero_pad(nat_text(n as nat), width as int));
}

/// Append the decimal text of `n` zero-padded to `width` characters, sign
/// included in the width.
pub fn push_int_padded(out: &mut String, n: i64, width: usize)
    ensures
        final(out)@ == old(out)@ + int_text_padded(n as int, width as int),
{
    if n < 0 {
        proof {
            reveal_strlit("-");
        }
        out.append("-");
        let mag: u64 = if n == i64::MIN {
            9223372036854775808u64
        } else {
            (-n) as u64
        };
        let w: usize = if width == 0 { 0 } else { width - 1 };
        push_nat_padded(out, mag, w);
        assert(zero_pad(nat_text((-n) as nat), width - 1) =~= zero_pad(nat_text((-n) as nat), w as int));
        assert(final(out)@ =~= old(out)@ + int_text_padded(n as int, width as int));
    } else {
        push_nat_padded(out, n as u64, width);
    }
}

/// Append the characters `from..to` of `t`.
pub fn push_slice(out: &mut String, t: &str, from: usize, to: usize)
    requires
        from <= to <= t@.len(),
    ensures
        final(out)@ == old(out)@ + t@.subrange(from as int, to as int),
{
    let piece = t.substring_char(from, to);
    out.append(piece);
}

/// A new string holding `a` followed by `b`.
pub fn concat2(a: &str, b: &str) -> (r: String)
    ensures
        r@ == a@ + b@,
{
    let mut out = String::new();
    out.append(a);
    out.append(b);
    assert(out@ =~= a@ + b@);
    out
}

/// A new string holding `a`, `b` and `c` in turn.
pub fn concat3(a: &str, b: &str, c: &str) -> (r: String)
    ensures
        r@ == a@ + b@ + c@,
{
    let mut out = String::new();
    out.append(a);
    out.append(b);
    out.append(c);
    assert(out@ =~= a@ + b@ + c@);
    out
}

/// A copy of a string slice as an owned string.
pub fn owned(a: &str) -> (r: String)
    ensures
        r@ == a@,
{
    let mut out = String::new();
    out.append(a);
    assert(out@ =~= a@);
    out
}

} // verus!
