//! Money amounts: the amount text of the commerce model, minor units and
//! their decimal rendering.

use vstd::prelude::*;
use vstd::string::*;
use crate::error::{message_with, ErrorKind, ServiceError};
use crate::num::{decimal, decimal_value, lemma_decimal_value_nonneg, parse_i64, parse_i64_spec, push_decimal, u64_decimal};
use crate::text::{all_digits, find_char, is_all_digits, lemma_find_char_bounds, push_char, split_by, split_once, split_once_seq, split_seq, trim, trimmed};

verus! {

/// A well-formed amount text: digits, optionally followed by a point and one
/// or two more digits.
pub open spec fn money_text_ok(s: Seq<char>) -> bool {
    match split_once_seq(s, '.') {
        Some((whole, fraction)) => whole.len() > 0 && all_digits(whole) && 1 <= fraction.len() <= 2
            && all_digits(fraction),
        None => s.len() > 0 && all_digits(s),
    }
}

/// An amount of money as the commerce model exchanges it: a non-negative
/// decimal text.
#[derive(Debug, PartialEq, Eq)]
pub struct Money {
    value: String,
}

impl View for Money {
    type V = Seq<char>;

    closed spec fn view(&self) -> Seq<char> {
        self.value@
    }
}

impl Clone for Money {
    fn clone(&self) -> (r: Self)
        ensures
            r@ == self@,
    {
        proof {
            use_type_invariant(self);
        }
        Money { value: self.value.clone() }
    }
}

impl Money {
    #[verifier::type_invariant]
    closed spec fn well_formed(self) -> bool {
        money_text_ok(self.value@)
    }

    /// The amount written by `value` (surrounding white space ignored), or
    /// an error when it is not a well-formed amount.
    pub fn new(value: &str) -> (r: Result<Money, String>)
        ensures
            money_text_ok(trimmed(value@)) ==> (r matches Ok(m) && m@ == trimmed(value@)),
            !money_text_ok(trimmed(value@)) ==> (r matches Err(e) && e@
                == "invalid commerce money amount"@),
    {
        let t = trim(value);
        let ok = match split_once(t, '.') {
            Some((whole, fraction)) => {
                let fl = fraction.unicode_len();
                whole.unicode_len() > 0 && is_all_digits(whole) && 1 <= fl && fl <= 2 && is_all_digits(fraction)
            },
            None => t.unicode_len() > 0 && is_all_digits(t),
        };
        if ok {
            Ok(Money { value: t.to_owned() })
        } else {
            Err("invalid commerce money amount".to_owned())
        }
    }

    /// The amount text.
    pub fn as_str(&self) -> (r: &str)
        ensures
            r@ == self@,
            money_text_ok(self@),
    {
        proof {
            use_type_invariant(self);
        }
        self.value.as_str()
    }
}

/// The outcome of reading a smallest-unit amount: its value, or the error
/// message (all such errors are validation errors).
pub open spec fn minor_units_of(s: Seq<char>) -> Result<int, Seq<char>> {
    let t = trimmed(s);
    if t.len() == 0 || !all_digits(t) {
        Err("money amount must be a non-negative integer smallest-unit amount"@)
    } else if decimal_value(t) > i64::MAX {
        Err("money amount overflow"@)
    } else {
        Ok(decimal_value(t))
    }
}

/// Reads an amount that holds a non-negative integer count of the smallest
/// currency unit.
pub fn money_to_minor(amount: &Money) -> (r: Result<i64, ServiceError>)
    ensures
        match minor_units_of(amount@) {
            Ok(v) => r == Ok::<i64, ServiceError>(v as i64),
            Err(m) => r matches Err(e) && e.kind == ErrorKind::Validation && e.message@ == m,
        },
{
    let value = trim(amount.as_str());
    if value.unicode_len() == 0 || !is_all_digits(value) {
        return Err(ServiceError::validation(
            "money amount must be a non-negative integer smallest-unit amount",
        ));
    }
    proof {
        lemma_decimal_value_nonneg(value@);
        assert(value@.len() > 0 && value@[0] != '+' && value@[0] != '-') by {
            assert(crate::text::is_digit(value@[0]));
        }
    }
    match parse_i64(value) {
        Some(v) => Ok(v),
        None => Err(ServiceError::validation("money amount overflow")),
    }
}

/// The outcome of `money_to_minor_units` on a stored amount text.
pub open spec fn minor_units_strict(s: Seq<char>) -> Result<int, Seq<char>> {
    let t = trimmed(s);
    if t.len() == 0 {
        Err("money amount must not be empty"@)
    } else if !all_digits(t) {
        Err("money amount must be a non-negative integer smallest-unit amount"@)
    } else if decimal_value(t) > i64::MAX {
        Err("money amount overflows i64 minor units"@)
    } else {
        Ok(decimal_value(t))
    }
}

/// Parses a stored money text into integer smallest currency units.
pub fn money_to_minor_units(value: &str) -> (r: Result<i64, ServiceError>)
    ensures
        match minor_units_strict(value@) {
            Ok(v) => r == Ok::<i64, ServiceError>(v as i64),
            Err(m) => r matches Err(e) && e.kind == ErrorKind::Validation && e.message@ == m,
        },
{
    let trimmed = trim(value);
    if trimmed.unicode_len() == 0 {
        return Err(ServiceError::validation("money amount must not be empty"));
    }
    if !is_all_digits(trimmed) {
        return Err(ServiceError::validation(
            "money amount must be a non-negative integer smallest-unit amount",
        ));
    }
    proof {
        lemma_decimal_value_nonneg(trimmed@);
        assert(crate::text::is_digit(trimmed@[0]));
    }
    match parse_i64(trimmed) {
        Some(v) => Ok(v),
        None => Err(ServiceError::validation("money amount overflows i64 minor units")),
    }
}

/// Two decimal digits of `n` (`0 <= n < 100`).
pub open spec fn two_digits(n: int) -> Seq<char> {
    if n < 10 {
        seq!['0'].add(decimal(n as nat))
    } else {
        decimal(n as nat)
    }
}

/// The decimal rendering of a minor-unit amount: sign, whole units, a point
/// and two digits.
pub open spec fn minor_decimal_text(a: int) -> Seq<char> {
    let abs = if a < 0 { -a } else { a };
    (if a < 0 { seq!['-'] } else { Seq::<char>::empty() }) + decimal((abs / 100) as nat) + seq!['.']
        + two_digits(abs % 100)
}

/// Renders a minor-unit amount as a decimal text with two fraction digits
/// (`1990` is `"19.90"`).
pub fn minor_to_decimal_string(amount_minor: i64) -> (r: String)
    requires
        amount_minor != i64::MIN,
    ensures
        r@ == minor_decimal_text(amount_minor as int),
{
    let mut out = String::new();
    if amount_minor < 0 {
        push_char(&mut out, '-');
    }
    let absolute: u64 = if amount_minor < 0 { (-amount_minor) as u64 } else { amount_minor as u64 };
    push_decimal(&mut out, absolute / 100);
    push_char(&mut out, '.');
    let cents = absolute % 100;
    if cents < 10 {
        push_char(&mut out, '0');
    }
    push_decimal(&mut out, cents);
    proof {
        let sign = if amount_minor < 0 { seq!['-'] } else { Seq::<char>::empty() };
        assert(out@ =~= minor_decimal_text(amount_minor as int));
    }
    out
}

/// The same rendering, as the payment record read model names it.
pub fn format_money_minor(cents: i64) -> (r: String)
    requires
        cents != i64::MIN,
    ensures
        r@ == minor_decimal_text(cents as int),
{
    minor_to_decimal_string(cents)
}

/// The fraction digits of a decimal amount padded to two places.
pub open spec fn padded_fraction(f: Seq<char>) -> Seq<char> {
    if f.len() == 0 {
        seq!['0', '0']
    } else if f.len() == 1 {
        f.push('0')
    } else {
        f
    }
}

/// The cents of a decimal amount text read as the payment record read
/// model reads it (signs are accepted as `str::parse::<i64>` accepts them),
/// or `None` when the text is not such an amount.
pub open spec fn money_cents_spec(s: Seq<char>) -> Option<int> {
    let parts = split_seq(trimmed(s), '.');
    let fraction = if parts.len() >= 2 { parts[1] } else { Seq::<char>::empty() };
    match (parse_i64_spec(parts[0]), parse_i64_spec(padded_fraction(fraction))) {
        (Some(w), Some(c)) => if parts.len() <= 2 && fraction.len() <= 2 && i64::MIN <= w * 100
            <= i64::MAX && i64::MIN <= w * 100 + c <= i64::MAX {
            Some(w * 100 + c)
        } else {
            None
        },
        _ => None,
    }
}

pub proof fn lemma_split_nonempty(s: Seq<char>, sep: char)
    ensures
        split_seq(s, sep).len() >= 1,
    decreases s.len(),
{
    if s.len() > 0 {
        lemma_split_nonempty(s.drop_last(), sep);
    }
}

/// Reads a decimal amount text (at most two fraction digits) as cents.
pub fn money_cents(amount: &str) -> (r: Result<i64, ServiceError>)
    ensures
        match money_cents_spec(amount@) {
            Some(v) => r == Ok::<i64, ServiceError>(v as i64),
            None => r matches Err(e) && e.kind == ErrorKind::Storage && e.message@
                == "invalid commerce money amount: "@ + trimmed(amount@),
        },
{
    let value = trim(amount);
    let parts = split_by(value, '.');
    proof {
        lemma_split_nonempty(value@, '.');
        assert(parts@.map_values(|p: String| p@).len() == parts.len());
        assert(parts@.map_values(|p: String| p@)[0] == parts@[0]@);
        if parts.len() >= 2 {
            assert(parts@.map_values(|p: String| p@)[1] == parts@[1]@);
        }
    }
    let fail = message_with("invalid commerce money amount: ", value);
    let whole = match parse_i64(parts[0].as_str()) {
        Some(w) => w,
        None => return Err(ServiceError { kind: ErrorKind::Storage, message: fail }),
    };
    let mut padded = if parts.len() >= 2 { parts[1].clone() } else { String::new() };
    let flen = padded.as_str().unicode_len();
    if parts.len() > 2 || flen > 2 {
        return Err(ServiceError { kind: ErrorKind::Storage, message: fail });
    }
    if flen == 0 {
        push_char(&mut padded, '0');
        push_char(&mut padded, '0');
    } else if flen == 1 {
        push_char(&mut padded, '0');
    }
    proof {
        let fraction = if parts.len() >= 2 { parts@[1]@ } else { Seq::<char>::empty() };
        assert(padded@ =~= padded_fraction(fraction));
    }
    let cents = match parse_i64(padded.as_str()) {
        Some(c) => c,
        None => return Err(ServiceError { kind: ErrorKind::Storage, message: fail }),
    };
    let total: i128 = (whole as i128) * 100 + (cents as i128);
    if (whole as i128) * 100 < i64::MIN as i128 || (whole as i128) * 100 > i64::MAX as i128
        || total < i64::MIN as i128 || total > i64::MAX as i128 {
        return Err(ServiceError { kind: ErrorKind::Storage, message: fail });
    }
    Ok(total as i64)
}

} // verus!
