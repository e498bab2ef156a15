//! Building text: single characters in and out of a `String`, and decimal
//! numerals.

use vstd::prelude::*;

verus! {

/// Calls `String::push`: the character is appended.
#[verifier::external_body]
pub(crate) fn push_char(s: &mut String, c: char)
    ensures
        final(s)@ == old(s)@.push(c),
{
    s.push(c)
}

/// Calls `String::pop`: the last character is removed and returned, and an
/// empty string stays empty.
#[verifier::external_body]
pub(crate) fn pop_char(s: &mut String) -> (res: Option<char>)
    ensures
        old(s)@.len() == 0 ==> res is None && final(s)@ == old(s)@,
        old(s)@.len() > 0 ==> res == Some(old(s)@.last()) && final(s)@ == old(s)@.drop_last(),
{
    s.pop()
}

/// The character of a decimal digit.
pub open spec fn digit_char(d: int) -> char {
    (d + 48) as char
}

/// The decimal numeral of a natural number, without leading zeros.
pub open spec fn decimal(n: nat) -> Seq<char>
    decreases n,
{
    if n < 10 {
        seq![digit_char(n as int)]
    } else {
        decimal(n / 10).push(digit_char((n % 10) as int))
    }
}

/// The decimal numeral of an integer, with a leading `-` when negative.
pub open spec fn signed_decimal(n: int) -> Seq<char> {
    if n < 0 {
        seq!['-'] + decimal((-n) as nat)
    } else {
        decimal(n as nat)
    }
}

/// The decimal numeral of a natural number, zero-padded to `width` digits.
pub open spec fn padded(n: nat, width: nat) -> Seq<char> {
    let zeros: int = if width > decimal(n).len() {
        width - decimal(n).len()
    } else {
        0
    };
    Seq::new(zeros as nat, |_i: int| '0') + decimal(n)
}

/// The decimal numeral of a natural number, zero-padded to two digits.
pub open spec fn padded_two(n: nat) -> Seq<char> {
    if n < 10 {
        seq!['0'] + decimal(n)
    } else {
        decimal(n)
    }
}

/// The number that a text of decimal digits spells.
pub open spec fn numeral_value(s: Seq<char>) -> int
    decreases s.len(),
{
    if s.len() == 0 {
        0
    } else {
        numeral_value(s.drop_last()) * 10 + (s.last() as int - 48)
    }
}

/// Every character of the text is a decimal digit.
pub open spec fn all_digits(s: Seq<char>) -> bool {
    forall|i: int| 0 <= i < s.len() ==> '0' <= #[trigger] s[i] <= '9'
}

/// The decimal numeral of `n` is made of digits, spells `n`, and starts with
/// a zero only when it is `0`.
pub proof fn decimal_spells_the_number(n: nat)
    ensures
        all_digits(decimal(n)),
        numeral_value(decimal(n)) == n,
        decimal(n).len() >= 1,
        decimal(n)[0] == '0' ==> n == 0,
        n < 10 ==> decimal(n).len() == 1,
        n >= 10 ==> decimal(n).len() >= 2,
    decreases n,
{
    if n < 10 {
        assert(decimal(n).drop_last() =~= Seq::<char>::empty());
        assert(numeral_value(Seq::<char>::empty()) == 0);
        assert(decimal(n).last() == digit_char(n as int));
        assert(digit_char(n as int) as int == n + 48);
        assert(numeral_value(decimal(n)) == numeral_value(decimal(n).drop_last()) * 10 + (
        decimal(n).last() as int - 48));
    } else {
        decimal_spells_the_number(n / 10);
        let d = decimal(n);
        assert(d.drop_last() =~= decimal(n / 10));
        assert(digit_char((n % 10) as int) as int == n % 10 + 48);
        assert(n == (n / 10) * 10 + n % 10);
        assert(d.last() == digit_char((n % 10) as int));
        assert(numeral_value(d) == numeral_value(d.drop_last()) * 10 + (d.last() as int - 48));
        assert(d[0] == decimal(n / 10)[0]);
        assert forall|i: int| 0 <= i < d.len() implies '0' <= #[trigger] d[i] <= '9' by {
            if i < d.len() - 1 {
                assert(d[i] == decimal(n / 10)[i]);
            }
        }
    }
}

/// Zeros in front of a numeral leave the number it spells unchanged.
proof fn leading_zeros_spell_nothing(zeros: nat, s: Seq<char>)
    ensures
        numeral_value(Seq::new(zeros, |_i: int| '0') + s) == numeral_value(s),
    decreases s.len(),
{
    let z = Seq::new(zeros, |_i: int| '0');
    if s.len() == 0 {
        assert(z + s =~= z);
        zeros_spell_zero(zeros);
    } else {
        assert((z + s).drop_last() =~= z + s.drop_last());
        leading_zeros_spell_nothing(zeros, s.drop_last());
    }
}

proof fn zeros_spell_zero(zeros: nat)
    ensures
        numeral_value(Seq::new(zeros, |_i: int| '0')) == 0,
    decreases zeros,
{
    if zeros > 0 {
        assert(Seq::new(zeros, |_i: int| '0').drop_last() =~= Seq::new(
            (zeros - 1) as nat,
            |_i: int| '0',
        ));
        zeros_spell_zero((zeros - 1) as nat);
    }
}

/// A zero-padded numeral is made of digits, at least as long as asked, and
/// spells the number.
pub proof fn padded_spells_the_number(n: nat, width: nat)
    ensures
        all_digits(padded(n, width)),
        padded(n, width).len() >= width,
        numeral_value(padded(n, width)) == n,
{
    decimal_spells_the_number(n);
    let zeros: int = if width > decimal(n).len() {
        width - decimal(n).len()
    } else {
        0
    };
    leading_zeros_spell_nothing(zeros as nat, decimal(n));
    let p = padded(n, width);
    assert forall|i: int| 0 <= i < p.len() implies '0' <= #[trigger] p[i] <= '9' by {
        if i >= zeros {
            assert(p[i] == decimal(n)[i - zeros]);
        }
    }
}

/// The two-digit numeral of a month listing is two digits or more and spells
/// the month; the numeral of a year spells its magnitude, behind a `-`
/// exactly when the year is negative.
pub proof fn month_and_year_numerals(month: nat, year: int)
    ensures
        padded_two(month).len() >= 2,
        all_digits(padded_two(month)),
        numeral_value(padded_two(month)) == month,
        (signed_decimal(year)[0] == '-') == (year < 0),
        year < 0 ==> numeral_value(signed_decimal(year).drop_first()) == -year && all_digits(
            signed_decimal(year).drop_first(),
        ),
        year >= 0 ==> numeral_value(signed_decimal(year)) == year && all_digits(signed_decimal(year)),
{
    decimal_spells_the_number(month);
    assert(padded_two(month) =~= padded(month, 2));
    padded_spells_the_number(month, 2);
    if year < 0 {
        decimal_spells_the_number((-year) as nat);
        assert(signed_decimal(year).drop_first() =~= decimal((-year) as nat));
    } else {
        decimal_spells_the_number(year as nat);
    }
}

fn digit(d: u64) -> (c: char)
    requires
        d < 10,
    ensures
        c == digit_char(d as int),
{
    ((d as u8) + 48u8) as char
}

/// Appends the decimal numeral of `n`.
pub fn push_decimal(s: &mut String, n: u64)
    ensures
        final(s)@ == old(s)@ + decimal(n as nat),
    decreases n,
{
    if n >= 10 {
        push_decimal(s, n / 10);
    }
    push_char(s, digit(n % 10));
    assert(final(s)@ =~= old(s)@ + decimal(n as nat));
}

/// The decimal numeral of an integer (`to_string` of an `i32`).
pub fn signed_decimal_text(n: i32) -> (res: String)
    ensures
        res@ == signed_decimal(n as int),
{
    let mut s = String::new();
    if n < 0 {
        push_char(&mut s, '-');
        let magnitude: i64 = -(n as i64);
        push_decimal(&mut s, magnitude as u64);
    } else {
        push_decimal(&mut s, n as u64);
    }
    s
}

/// The decimal numeral of `n`, zero-padded to two digits (`format!("{:02}", n)`).
pub fn padded_two_text(n: u32) -> (res: String)
    ensures
        res@ == padded_two(n as nat),
{
    let mut s = String::new();
    if n < 10 {
        push_char(&mut s, '0');
    }
    push_decimal(&mut s, n as u64);
    s
}

} // verus!
