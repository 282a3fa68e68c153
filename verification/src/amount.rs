//! Minor-unit amounts and their decimal string form, as the DemoPay API
//! expects amounts to be sent.

use vstd::prelude::*;

use crate::errors::ConnectorError;

verus! {

/// An amount in the currency's smallest unit (cents for USD).
#[derive(Debug, Clone, Copy, PartialEq, Eq, Structural)]
pub struct MinorUnit {
    pub value: i64,
}

impl MinorUnit {
    /// Wraps a count of minor units.
    pub fn new(value: i64) -> (r: MinorUnit)
        ensures
            r.value == value,
    {
        MinorUnit { value }
    }

    /// The count of minor units.
    pub fn get_amount_as_i64(&self) -> (r: i64)
        ensures
            r == self.value,
    {
        self.value
    }
}

/// An amount in minor units, written as a decimal string.
#[derive(Debug, PartialEq, Eq)]
pub struct StringMinorUnit {
    pub value: String,
}

/// The amount converter that writes minor units as decimal strings.
#[derive(Debug, Clone, Copy)]
pub struct StringMinorUnitForConnector;

/// Whether `s` is the decimal string of the minor amount `amount`.
pub open spec fn is_minor_unit_string(s: StringMinorUnit, amount: MinorUnit) -> bool {
    s.value@ == int_decimal(amount.value as int)
}

/// The character of a decimal digit `d` (`0 <= d < 10`).
pub open spec fn digit_char(d: int) -> char {
    (d + 48) as char
}

/// The numeric value of a decimal digit character.
pub open spec fn digit_value(c: char) -> int {
    (c as int) - 48
}

/// Decimal numeral of a natural number, most significant digit first,
/// without leading zeros.
pub open spec fn nat_decimal(n: nat) -> Seq<char>
    decreases n,
{
    if n < 10 {
        seq![digit_char(n as int)]
    } else {
        nat_decimal(n / 10).push(digit_char((n % 10) as int))
    }
}

/// Decimal numeral of an integer: a leading `-` for negative values.
pub open spec fn int_decimal(n: int) -> Seq<char> {
    if n < 0 {
        seq!['-'] + nat_decimal((-n) as nat)
    } else {
        nat_decimal(n as nat)
    }
}

/// The value denoted by a string of decimal digits.
pub open spec fn digits_value(s: Seq<char>) -> int
    decreases s.len(),
{
    if s.len() == 0 {
        0
    } else {
        digits_value(s.drop_last()) * 10 + digit_value(s.last())
    }
}

/// The value denoted by an optionally signed decimal numeral.
pub open spec fn decimal_value(s: Seq<char>) -> int {
    if s.len() > 0 && s[0] == '-' {
        -digits_value(s.drop_first())
    } else {
        digits_value(s)
    }
}

/// Whether every character of `s` is a decimal digit.
pub open spec fn all_digits(s: Seq<char>) -> bool {
    forall|i: int| 0 <= i < s.len() ==> '0' <= #[trigger] s[i] <= '9'
}

/// The numeral of `n` is a non-empty string of digits that denotes `n`.
pub proof fn lemma_nat_decimal(n: nat)
    ensures
        nat_decimal(n).len() > 0,
        all_digits(nat_decimal(n)),
        digits_value(nat_decimal(n)) == n,
    decreases n,
{
    lemma_digit_round_trip((n % 10) as int);
    if n >= 10 {
        lemma_nat_decimal(n / 10);
        let s = nat_decimal(n);
        assert(s.drop_last() =~= nat_decimal(n / 10));
        assert(s.last() == digit_char((n % 10) as int));
        assert(digits_value(s) == digits_value(nat_decimal(n / 10)) * 10 + (n % 10));
        assert((n / 10) * 10 + n % 10 == n);
    } else {
        let s = nat_decimal(n);
        assert(s.drop_last() =~= Seq::<char>::empty());
        assert(s.last() == digit_char(n as int));
        assert(digits_value(s) == digits_value(s.drop_last()) * 10 + digit_value(s.last()));
    }
}

proof fn lemma_digit_round_trip(d: int)
    requires
        0 <= d < 10,
    ensures
        digit_value(digit_char(d)) == d,
        '0' <= digit_char(d) <= '9',
{
}

/// Law: the numeral of an integer denotes that integer, so reading the
/// amount string back gives the minor amount it was written from.
pub proof fn lemma_int_decimal_round_trip(n: int)
    ensures
        decimal_value(int_decimal(n)) == n,
{
    if n < 0 {
        lemma_nat_decimal((-n) as nat);
        let d = nat_decimal((-n) as nat);
        assert((seq!['-'] + d).drop_first() =~= d);
        assert((seq!['-'] + d)[0] == '-');
    } else {
        lemma_nat_decimal(n as nat);
        let d = nat_decimal(n as nat);
        assert('0' <= d[0] <= '9');
    }
}

/// Law: distinct amounts are written as distinct strings.
pub proof fn lemma_int_decimal_injective(a: int, b: int)
    requires
        int_decimal(a) == int_decimal(b),
    ensures
        a == b,
{
    lemma_int_decimal_round_trip(a);
    lemma_int_decimal_round_trip(b);
}

/// `String::push`: afterwards the string is the old one with `c` added at
/// the end.
#[verifier::external_body]
pub(crate) fn push_char(s: &mut String, c: char)
    ensures
        final(s)@ == old(s)@.push(c),
{
    s.push(c);
}

fn digit(d: u64) -> (c: char)
    requires
        d < 10,
    ensures
        c == digit_char(d as int),
{
    ((d as u8) + 48u8) as char
}

fn write_decimal(n: u64, s: &mut String)
    ensures
        final(s)@ == old(s)@ + nat_decimal(n as nat),
    decreases n,
{
    if n < 10 {
        push_char(s, digit(n));
    } else {
        write_decimal(n / 10, s);
        push_char(s, digit(n % 10));
    }
}

/// The decimal string of a signed 64-bit integer, as `i64::to_string` writes it.
pub fn i64_to_decimal_string(n: i64) -> (s: String)
    ensures
        s@ == int_decimal(n as int),
{
    let mut s = String::new();
    if n < 0 {
        push_char(&mut s, '-');
        let m: u64 = if n == i64::MIN {
            9223372036854775808u64
        } else {
            (-n) as u64
        };
        write_decimal(m, &mut s);
        assert(s@ =~= seq!['-'] + nat_decimal((-n) as nat));
    } else {
        write_decimal(n as u64, &mut s);
        assert(s@ =~= nat_decimal(n as nat));
    }
    s
}

impl StringMinorUnitForConnector {
    /// Writes `amount` as the decimal string of its minor units; the
    /// currency does not change the string.
    pub fn convert(&self, amount: MinorUnit, currency: &str) -> (r: Result<StringMinorUnit, ConnectorError>)
        ensures
            r matches Ok(s) && is_minor_unit_string(s, amount),
    {
        Ok(StringMinorUnit { value: i64_to_decimal_string(amount.value) })
    }
}

/// Converts an amount with the given converter; a conversion failure would be
/// reported as an error, which this converter never produces.
pub fn convert_amount(
    converter: &StringMinorUnitForConnector,
    amount: MinorUnit,
    currency: &str,
) -> (r: Result<StringMinorUnit, ConnectorError>)
    ensures
        r matches Ok(s) && is_minor_unit_string(s, amount),
{
    converter.convert(amount, currency)
}

} // verus!
