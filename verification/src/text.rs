use vstd::prelude::*;

verus! {

/// `s` ends with the characters of `suffix`.
pub open spec fn spec_ends_with(s: Seq<char>, suffix: Seq<char>) -> bool {
    suffix.len() <= s.len() && s.subrange(s.len() - suffix.len(), s.len() as int) == suffix
}

/// `s` starts with the characters of `prefix`.
pub open spec fn spec_starts_with(s: Seq<char>, prefix: Seq<char>) -> bool {
    prefix.len() <= s.len() && s.subrange(0, prefix.len() as int) == prefix
}

/// The decimal digits of `n`, most significant first.
pub open spec fn spec_decimal(n: nat) -> Seq<char>
    decreases n,
{
    if n < 10 {
        seq![spec_digit(n)]
    } else {
        spec_decimal(n / 10).push(spec_digit(n % 10))
    }
}

/// The character for a single decimal digit.
pub open spec fn spec_digit(d: nat) -> char
    recommends
        d < 10,
{
    (('0' as u8) + d as u8) as char
}

/// Relies on str::ends_with: true exactly when the character sequence of
/// `s` ends with the character sequence of `suffix`.
#[verifier::external_body]
pub fn str_ends_with(s: &str, suffix: &str) -> (r: bool)
    ensures
        r == spec_ends_with(s@, suffix@),
{
    s.ends_with(suffix)
}

/// Relies on str::starts_with: true exactly when the character sequence of
/// `s` starts with the character sequence of `prefix`.
#[verifier::external_body]
pub fn str_starts_with(s: &str, prefix: &str) -> (r: bool)
    ensures
        r == spec_starts_with(s@, prefix@),
{
    s.starts_with(prefix)
}

/// Relies on the std format! macro: concatenation of two string slices.
#[verifier::external_body]
pub fn str_concat(a: &str, b: &str) -> (r: String)
    ensures
        r@ == a@ + b@,
{
    format!("{}{}", a, b)
}

/// Relies on the std format! macro: a `u32` is rendered as its decimal
/// digits, most significant first, without padding or sign.
#[verifier::external_body]
pub fn format_minutes_seconds(minutes: u32, seconds: u32) -> (r: String)
    ensures
        r@ == spec_decimal(minutes as nat) + seq!['m', ' '] + spec_decimal(seconds as nat)
            + seq!['s'],
{
    format!("{}m {}s", minutes, seconds)
}

} // verus!
