//! Text helpers: strings as sequences of characters, decimal numbers.

use std::time::Instant;
use vstd::prelude::*;

verus! {

/// The monotonic clock's instants.
#[verifier::external_type_specification]
#[verifier::external_body]
pub struct ExInstant(Instant);

/// The current instant, from `Instant::now`. Nothing is stated of it: it is
/// read from the clock.
#[verifier::external_body]
pub(crate) fn instant_now() -> (res: Instant) {
    Instant::now()
}

/// The nanoseconds elapsed since `start`, from `Instant::elapsed`, in 64
/// bits. Nothing is stated of it: it is read from the clock.
#[verifier::external_body]
pub(crate) fn nanos_since(start: &Instant) -> (res: u64) {
    start.elapsed().as_nanos() as u64
}

/// A random index below `len`, drawn with `Rng::random_range` on `rand`'s
/// thread-local generator: the contract claims only that it is below `len`.
#[verifier::external_body]
pub(crate) fn random_index(len: usize) -> (res: usize)
    requires
        len > 0,
    ensures
        res < len,
{
    rand::Rng::random_range(&mut rand::rng(), 0..len)
}

/// The characters of `s`, in order, from `str::chars`: the contract claims
/// that they are the characters of the text's view.
#[verifier::external_body]
pub fn chars_of(s: &str) -> (res: Vec<char>)
    ensures
        res@ == s@,
{
    s.chars().collect()
}

/// The string made of the characters of `chars`, in order, collected with
/// `FromIterator<&char> for String`: the contract claims that its view is
/// the sequence of characters.
#[verifier::external_body]
pub fn string_from_chars(chars: &Vec<char>) -> (res: String)
    ensures
        res@ == chars@,
{
    chars.iter().collect()
}

/// Append the characters of `s` to `out`.
pub fn push_str(out: &mut Vec<char>, s: &str)
    ensures
        final(out)@ == old(out)@ + s@,
{
    let cs = chars_of(s);
    let mut i: usize = 0;
    while i < cs.len()
        invariant
            0 <= i <= cs.len(),
            cs@ == s@,
            out@ == old(out)@ + s@.take(i as int),
        decreases cs.len() - i,
    {
        out.push(cs[i]);
        assert(s@.take(i + 1) =~= s@.take(i as int).push(s@[i as int]));
        i = i + 1;
    }
    assert(s@.take(cs.len() as int) =~= s@);
}

/// The ASCII character for a decimal digit.
pub open spec fn digit_char(d: int) -> char {
    (48 + d) as char
}

/// The decimal representation of `n`, without sign or leading zeros.
pub open spec fn decimal(n: nat) -> Seq<char>
    decreases n,
{
    if n < 10 {
        seq![digit_char(n as int)]
    } else {
        decimal(n / 10).push(digit_char((n % 10) as int))
    }
}

/// The decimal form of a number reads back as that number: it is a
/// non-empty run of digits, without sign, whose value is the number.
pub proof fn lemma_decimal_digits(n: nat)
    ensures
        decimal(n).len() > 0,
        forall|i: int| 0 <= i < decimal(n).len() ==> is_digit(#[trigger] decimal(n)[i]),
        digits_value(decimal(n)) == n,
    decreases n,
{
    let k = (n % 10) as int;
    assert(digit_char(k) as int == 48 + k);
    if n >= 10 {
        lemma_decimal_digits(n / 10);
        let d = decimal(n);
        assert(d.drop_last() =~= decimal(n / 10));
        assert(d.last() == digit_char(k));
        assert(digits_value(d) == digits_value(decimal(n / 10)) * 10 + k);
        assert forall|i: int| 0 <= i < d.len() implies is_digit(#[trigger] d[i]) by {
            if i < d.len() - 1 {
                assert(d[i] == decimal(n / 10)[i]);
            }
        }
    } else {
        let d = decimal(n);
        assert(d.drop_last() =~= Seq::<char>::empty());
        assert(digits_value(d) == digits_value(d.drop_last()) * 10 + (d.last() as int - 48));
    }
}

/// `str::parse` reads the decimal form of a `u64` back as that number.
pub proof fn lemma_parse_decimal(n: u64)
    ensures
        parse_u64_spec(decimal(n as nat)) == Some(n),
        n != 0 ==> parse_nonzero_u64_spec(decimal(n as nat)) == Some(n),
{
    lemma_decimal_digits(n as nat);
    let d = decimal(n as nat);
    assert(is_digit(d[0]));
    assert(unsigned_digits(d) == d);
}

/// Format a `u64` in decimal with `itoa::Buffer::format`: the contract claims
/// the decimal digits of the number, without sign or leading zeros.
#[verifier::external_body]
pub fn format_u64(n: u64) -> (res: String)
    ensures
        res@ == decimal(n as nat),
{
    let mut buffer = itoa::Buffer::new();
    buffer.format(n).to_string()
}

/// `c` is an ASCII decimal digit.
pub open spec fn is_digit(c: char) -> bool {
    '0' <= c <= '9'
}

/// The value of a run of decimal digits.
pub open spec fn digits_value(s: Seq<char>) -> nat
    decreases s.len(),
{
    if s.len() == 0 {
        0
    } else {
        digits_value(s.drop_last()) * 10 + ((s.last() as int - 48) as nat)
    }
}

/// The digits that `str::parse` reads for an unsigned integer: the text with
/// one leading `+` removed.
pub open spec fn unsigned_digits(s: Seq<char>) -> Seq<char> {
    if s.len() > 0 && s[0] == '+' {
        s.drop_first()
    } else {
        s
    }
}

/// What `str::parse::<u64>` gives: an optional `+` followed by at least one
/// decimal digit and nothing else, whose value fits in a `u64`.
pub open spec fn parse_u64_spec(s: Seq<char>) -> Option<u64> {
    let d = unsigned_digits(s);
    if d.len() > 0 && (forall|i: int| 0 <= i < d.len() ==> is_digit(#[trigger] d[i]))
        && digits_value(d) <= u64::MAX {
        Some(digits_value(d) as u64)
    } else {
        None
    }
}

/// What `str::parse::<NonZeroU64>` gives: as for `u64`, and zero is refused.
pub open spec fn parse_nonzero_u64_spec(s: Seq<char>) -> Option<u64> {
    match parse_u64_spec(s) {
        Some(n) => if n != 0 {
            Some(n)
        } else {
            None
        },
        None => None,
    }
}

/// What `str::parse::<u8>` gives: as for `u64`, with a value that fits in a
/// `u8`.
pub open spec fn parse_u8_spec(s: Seq<char>) -> Option<u8> {
    let d = unsigned_digits(s);
    if d.len() > 0 && (forall|i: int| 0 <= i < d.len() ==> is_digit(#[trigger] d[i]))
        && digits_value(d) <= u8::MAX {
        Some(digits_value(d) as u8)
    } else {
        None
    }
}

/// Parse a decimal `u8` with `str::parse`: the contract claims the result
/// that `FromStr for u8` documents, an optional `+` then digits whose value
/// fits. The error is the text of the `ParseIntError`, of which nothing is
/// stated.
#[verifier::external_body]
pub fn parse_u8(s: &str) -> (res: Result<u8, String>)
    ensures
        match res {
            Ok(n) => parse_u8_spec(s@) == Some(n),
            Err(_) => parse_u8_spec(s@) is None,
        },
{
    match s.parse::<u8>() {
        Ok(n) => Ok(n),
        Err(e) => Err(e.to_string()),
    }
}

/// What `str::parse::<usize>` gives: as for `u64`, with a value that fits
/// in a `usize`.
pub open spec fn parse_usize_spec(s: Seq<char>) -> Option<usize> {
    let d = unsigned_digits(s);
    if d.len() > 0 && (forall|i: int| 0 <= i < d.len() ==> is_digit(#[trigger] d[i]))
        && digits_value(d) <= usize::MAX {
        Some(digits_value(d) as usize)
    } else {
        None
    }
}

/// Parse a decimal `usize` with `str::parse`: the contract claims the result
/// that `FromStr for usize` documents, an optional `+` then digits whose
/// value fits.
#[verifier::external_body]
pub fn parse_usize(s: &str) -> (res: Option<usize>)
    ensures
        res == parse_usize_spec(s@),
{
    s.parse::<usize>().ok()
}

/// Parse a decimal `u64` with `str::parse`: the contract claims the result
/// that `FromStr for u64` documents, an optional `+` then digits whose value
/// fits.
#[verifier::external_body]
pub fn parse_u64(s: &str) -> (res: Option<u64>)
    ensures
        res == parse_u64_spec(s@),
{
    s.parse::<u64>().ok()
}

/// Parse a nonzero decimal `u64` with `str::parse::<NonZeroU64>`: the
/// contract claims the `u64` result with zero refused.
#[verifier::external_body]
pub fn parse_nonzero_u64(s: &str) -> (res: Option<u64>)
    ensures
        res == parse_nonzero_u64_spec(s@),
{
    s.parse::<std::num::NonZeroU64>().ok().map(|n| n.get())
}

/// `c` with an ASCII upper-case letter made lower-case.
pub open spec fn ascii_lower(c: char) -> char {
    if 'A' <= c <= 'Z' {
        ((c as u32) + 32) as char
    } else {
        c
    }
}

/// `a` and `b` are equal when ASCII letters are compared without case.
pub open spec fn eq_ignore_ascii_case(a: Seq<char>, b: Seq<char>) -> bool {
    a.len() == b.len() && forall|i: int| 0 <= i < a.len() ==> ascii_lower(#[trigger] a[i]) == ascii_lower(b[i])
}

/// Lower-case an ASCII letter.
pub fn to_ascii_lowercase(c: char) -> (res: char)
    ensures
        res == ascii_lower(c),
{
    if 'A' <= c && c <= 'Z' {
        ((c as u8) + 32) as char
    } else {
        c
    }
}

/// Compare two texts, ASCII letters without case.
pub fn str_eq_ignore_ascii_case(a: &str, b: &str) -> (res: bool)
    ensures
        res == eq_ignore_ascii_case(a@, b@),
{
    let ac = chars_of(a);
    let bc = chars_of(b);
    if ac.len() != bc.len() {
        return false;
    }
    let mut i: usize = 0;
    while i < ac.len()
        invariant
            0 <= i <= ac.len(),
            ac.len() == bc.len(),
            ac@ == a@,
            bc@ == b@,
            forall|j: int| 0 <= j < i ==> ascii_lower(#[trigger] a@[j]) == ascii_lower(b@[j]),
        decreases ac.len() - i,
    {
        if to_ascii_lowercase(ac[i]) != to_ascii_lowercase(bc[i]) {
            return false;
        }
        i = i + 1;
    }
    true
}

/// Compare two texts character by character.
pub fn str_eq(a: &str, b: &str) -> (res: bool)
    ensures
        res == (a@ == b@),
{
    let ac = chars_of(a);
    let bc = chars_of(b);
    if ac.len() != bc.len() {
        return false;
    }
    let mut i: usize = 0;
    while i < ac.len()
        invariant
            0 <= i <= ac.len(),
            ac.len() == bc.len(),
            ac@ == a@,
            bc@ == b@,
            forall|j: int| 0 <= j < i ==> a@[j] == b@[j],
        decreases ac.len() - i,
    {
        if ac[i] != bc[i] {
            return false;
        }
        i = i + 1;
    }
    assert(a@ =~= b@);
    true
}

} // verus!
