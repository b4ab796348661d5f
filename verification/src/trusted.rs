//! The contracts this library takes on trust from outside crates.
//!
//! Each wrapper here makes exactly one outside call; everything the rest
//! of the library concludes about these calls rests on the contracts
//! below, checked by review against the crates' sources.

use vstd::prelude::*;

verus! {

/// Whether `c` lies between `lo` and `hi` as a code point.
pub open spec fn char_between(c: char, lo: char, hi: char) -> bool {
    (lo as u32) <= (c as u32) && (c as u32) <= (hi as u32)
}

/// A character the email pattern accepts before the `@`.
pub open spec fn is_email_local_char(c: char) -> bool {
    char_between(c, 'a', 'z') || char_between(c, 'A', 'Z') || char_between(c, '0', '9') || c == '.'
        || c == '_' || c == '%' || c == '+' || c == '-'
}

/// A character the email pattern accepts between the `@` and the last dot.
pub open spec fn is_email_domain_char(c: char) -> bool {
    char_between(c, 'a', 'z') || char_between(c, 'A', 'Z') || char_between(c, '0', '9') || c == '.'
        || c == '-'
}

/// An ASCII letter.
pub open spec fn is_alpha_char(c: char) -> bool {
    char_between(c, 'a', 'z') || char_between(c, 'A', 'Z')
}

/// The language of the email pattern: a non-empty local part, `@`, a
/// non-empty domain part, a dot, and a final part of at least two letters.
pub open spec fn email_matches(s: Seq<char>) -> bool {
    exists|a: int, b: int|
        {
            &&& 1 <= a
            &&& a + 2 <= b
            &&& b + 3 <= s.len()
            &&& #[trigger] s[a] == '@'
            &&& #[trigger] s[b] == '.'
            &&& (forall|i: int| 0 <= i < a ==> is_email_local_char(#[trigger] s[i]))
            &&& (forall|i: int| a < i < b ==> is_email_domain_char(#[trigger] s[i]))
            &&& (forall|i: int| b < i < s.len() ==> is_alpha_char(#[trigger] s[i]))
        }
}

/// Relies on regex: `is_match` of the anchored email pattern
/// `^[a-zA-Z0-9._%+-]+@[a-zA-Z0-9.-]+\.[a-zA-Z]{2,}$` decides exactly the
/// language written out in [`email_matches`].
#[verifier::external_body]
pub(crate) fn email_regex_match(s: &str) -> (r: bool)
    ensures
        r == email_matches(s@),
{
    regex::Regex::new(r"^[a-zA-Z0-9._%+-]+@[a-zA-Z0-9.-]+\.[a-zA-Z]{2,}$").unwrap().is_match(s)
}

/// The ASCII lowering of one character.
pub open spec fn ascii_lower_char(c: char) -> char {
    if char_between(c, 'A', 'Z') {
        (((c as u32) + 32) as char)
    } else {
        c
    }
}

/// Whether `s` ends with `suffix` up to ASCII case.
pub open spec fn ends_with_ascii_ci(s: Seq<char>, suffix: Seq<char>) -> bool {
    suffix.len() <= s.len() && (forall|i: int|
        0 <= i < suffix.len() ==> ascii_lower_char(
            #[trigger] s[s.len() - suffix.len() + i],
        ) == ascii_lower_char(suffix[i]))
}

/// Whether `s` ends in one of the image extensions, up to ASCII case.
pub open spec fn ascii_image_suffix(s: Seq<char>) -> bool {
    ||| ends_with_ascii_ci(s, ".jpg"@)
    ||| ends_with_ascii_ci(s, ".jpeg"@)
    ||| ends_with_ascii_ci(s, ".png"@)
    ||| ends_with_ascii_ci(s, ".gif"@)
    ||| ends_with_ascii_ci(s, ".bmp"@)
}

/// What the case-insensitive image-extension pattern accepts.
pub uninterp spec fn image_url_match(s: Seq<char>) -> bool;

/// Relies on regex: `is_match` of `(?i)\.(jpg|jpeg|png|gif|bmp)$`. Its
/// case folding goes beyond ASCII, so the result is named; on ASCII
/// input it is exactly an ASCII case-insensitive suffix test.
#[verifier::external_body]
pub(crate) fn image_regex_match(s: &str) -> (r: bool)
    ensures
        r == image_url_match(s@),
        vstd::utf8::is_ascii_chars(s@) ==> r == ascii_image_suffix(s@),
{
    regex::Regex::new(r"(?i)\.(jpg|jpeg|png|gif|bmp)$").unwrap().is_match(s)
}

/// The lowercase hexadecimal digest of a byte sequence.
pub uninterp spec fn md5_hex_of(bytes: Seq<u8>) -> Seq<char>;

/// Relies on md5: `compute` depends on the bytes alone, and the digest
/// formats as exactly 32 lowercase hexadecimal characters.
#[verifier::external_body]
pub(crate) fn md5_hex(bytes: &[u8]) -> (r: String)
    ensures
        r@ == md5_hex_of(bytes@),
        r@.len() == 32,
{
    format!("{:x}", md5::compute(bytes))
}

/// Relies on rand: `Rng::gen_range` over an inclusive range returns a
/// value inside it.
#[verifier::external_body]
pub(crate) fn random_six_digit_code() -> (r: u64)
    ensures
        100000 <= r <= 999999,
{
    rand::Rng::gen_range(&mut rand::thread_rng(), 100_000..=999_999)
}

/// Relies on rand: `seq::index::sample` returns exactly `amount` distinct
/// indices from `0..length`, and panics when `amount > length`.
#[verifier::external_body]
pub(crate) fn sample_indices(length: usize, amount: usize) -> (r: Vec<usize>)
    requires
        amount <= length,
    ensures
        r@.len() == amount,
        forall|i: int| 0 <= i < r@.len() ==> #[trigger] r@[i] < length,
        forall|i: int, j: int| 0 <= i < j < r@.len() ==> r@[i] != r@[j],
{
    rand::seq::index::sample(&mut rand::thread_rng(), length, amount).into_vec()
}

/// What `str::trim` returns: a function of the characters alone.
pub uninterp spec fn trimmed_of(s: Seq<char>) -> Seq<char>;

/// Relies on str::trim: the result depends on the characters alone, is
/// no longer than the input, and an empty string stays empty.
#[verifier::external_body]
pub(crate) fn str_trim<'a>(s: &'a str) -> (r: &'a str)
    ensures
        r@ == trimmed_of(s@),
        r@.len() <= s@.len(),
{
    s.trim()
}

/// What `str::to_lowercase` returns: a function of the characters alone.
pub uninterp spec fn lower_of(s: Seq<char>) -> Seq<char>;

/// Relies on str::to_lowercase: the result depends on the characters
/// alone, and an empty string stays empty.
#[verifier::external_body]
pub(crate) fn to_lowercase(s: &str) -> (r: String)
    ensures
        r@ == lower_of(s@),
        s@.len() == 0 ==> r@.len() == 0,
{
    s.to_lowercase()
}

} // verus!
