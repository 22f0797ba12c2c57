//! Small string helpers: ASCII case-insensitive comparison, a case-insensitive
//! suffix test, and decimal rendering of signed 64-bit integers.

use vstd::prelude::*;

verus! {

/// The code of `c` with an ASCII capital letter folded to its small letter;
/// every other character is left as it is.
pub open spec fn ascii_lower_code(c: char) -> u32 {
    if 65 <= (c as u32) && (c as u32) <= 90 {
        ((c as u32) + 32) as u32
    } else {
        c as u32
    }
}

/// Whether two texts match after ASCII letters are folded to one case.
pub open spec fn ascii_eq_ci(a: Seq<char>, b: Seq<char>) -> bool {
    a.len() == b.len() && (forall|i: int|
        0 <= i < a.len() ==> ascii_lower_code(a[i]) == ascii_lower_code(b[i]))
}

/// Relies on `str::eq_ignore_ascii_case`: true exactly when the two strings
/// are equal after ASCII letters are folded to one case.
#[verifier::external_body]
pub fn str_eq_ignore_ascii_case(a: &str, b: &str) -> (r: bool)
    ensures
        r == ascii_eq_ci(a@, b@),
{
    a.eq_ignore_ascii_case(b)
}

/// Whether `s` ends with `suffix`, ASCII case-insensitively.
pub open spec fn ends_with_ci(s: Seq<char>, suffix: Seq<char>) -> bool {
    s.len() >= suffix.len() && ascii_eq_ci(
        s.subrange(s.len() - suffix.len(), s.len() as int),
        suffix,
    )
}

/// Whether `path` ends in `.png`, in any mixture of letter cases.
pub fn has_png_extension(path: &str) -> (r: bool)
    ensures
        r == ends_with_ci(path@, ".png"@),
{
    proof {
        reveal_strlit(".png");
    }
    let n = path.unicode_len();
    if n < 4 {
        false
    } else {
        let tail = path.substring_char(n - 4, n);
        str_eq_ignore_ascii_case(tail, ".png")
    }
}

/// The ten decimal digits, as one-character strings.
pub const DIGITS: [&'static str; 10] = ["0", "1", "2", "3", "4", "5", "6", "7", "8", "9"];

/// The decimal digits of a non-negative number, most significant first.
pub open spec fn dec_digits(n: int) -> Seq<char>
    decreases n,
{
    if n < 10 {
        DIGITS@[n]@
    } else {
        dec_digits(n / 10) + DIGITS@[n % 10]@
    }
}

/// The decimal rendering of an integer: a minus sign for negative numbers,
/// then the digits of its magnitude.
pub open spec fn dec_str(n: int) -> Seq<char> {
    if n < 0 {
        "-"@ + dec_digits(-n)
    } else {
        dec_digits(n)
    }
}

/// The digits of `n`, most significant first.
fn u64_digits(n: u64) -> (r: String)
    ensures
        r@ == dec_digits(n as int),
    decreases n,
{
    if n < 10 {
        DIGITS[n as usize].to_owned()
    } else {
        let mut s = u64_digits(n / 10);
        s.append(DIGITS[(n % 10) as usize]);
        s
    }
}

/// Renders `n` in decimal.
pub fn i64_dec_string(n: i64) -> (r: String)
    ensures
        r@ == dec_str(n as int),
{
    if n >= 0 {
        u64_digits(n as u64)
    } else {
        let mag: u64 = if n == i64::MIN {
            9223372036854775808
        } else {
            (-n) as u64
        };
        assert(mag as int == -(n as int));
        let mut s = "-".to_owned();
        let digits = u64_digits(mag);
        s.append(digits.as_str());
        s
    }
}

} // verus!
