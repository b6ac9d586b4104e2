//! One-time codes: six decimal digits from a secure random source.

use vstd::prelude::*;

verus! {

/// The smallest code.
pub const OTP_MIN: u32 = 100000;

/// The bound that every code stays below.
pub const OTP_END: u32 = 999999;

/// `Rng::gen_range` on `rand::thread_rng()` with the half-open range from
/// `low` to `high`: some number of that range, and no more can be said.
#[verifier::external_body]
fn random_below(low: u32, high: u32) -> (n: u32)
    requires
        low < high,
    ensures
        low <= n < high,
{
    rand::Rng::gen_range(&mut rand::thread_rng(), low..high)
}

/// The decimal digit for a value below ten.
pub open spec fn decimal_digit(v: int) -> char {
    if v == 0 {
        '0'
    } else if v == 1 {
        '1'
    } else if v == 2 {
        '2'
    } else if v == 3 {
        '3'
    } else if v == 4 {
        '4'
    } else if v == 5 {
        '5'
    } else if v == 6 {
        '6'
    } else if v == 7 {
        '7'
    } else if v == 8 {
        '8'
    } else {
        '9'
    }
}

/// The six digits of a code.
pub open spec fn code_text(n: int) -> Seq<char> {
    seq![
        decimal_digit(n / 100000 % 10),
        decimal_digit(n / 10000 % 10),
        decimal_digit(n / 1000 % 10),
        decimal_digit(n / 100 % 10),
        decimal_digit(n / 10 % 10),
        decimal_digit(n % 10),
    ]
}

/// Whether `text` is a code that can be generated.
pub open spec fn is_otp(text: Seq<char>) -> bool {
    exists|n: int| OTP_MIN <= n < OTP_END && text == #[trigger] code_text(n)
}

/// Every code has six decimal digits, the first of them not zero.
pub proof fn lemma_otp_shape(text: Seq<char>)
    requires
        is_otp(text),
    ensures
        text.len() == 6,
        forall|i: int| 0 <= i < 6 ==> '0' <= #[trigger] text[i] <= '9',
        text[0] != '0',
{
    let n = choose|n: int| OTP_MIN <= n < OTP_END && text == #[trigger] code_text(n);
    assert(1 <= n / 100000 % 10 <= 9);
}

fn digit(v: u32) -> (c: char)
    requires
        v < 10,
    ensures
        c == decimal_digit(v as int),
{
    if v == 0 {
        '0'
    } else if v == 1 {
        '1'
    } else if v == 2 {
        '2'
    } else if v == 3 {
        '3'
    } else if v == 4 {
        '4'
    } else if v == 5 {
        '5'
    } else if v == 6 {
        '6'
    } else if v == 7 {
        '7'
    } else if v == 8 {
        '8'
    } else {
        '9'
    }
}

/// The text of the code `n`.
pub fn otp_text(n: u32) -> (text: String)
    requires
        OTP_MIN <= n < OTP_END,
    ensures
        text@ == code_text(n as int),
        text@.len() == 6,
{
    let mut text = String::new();
    text.push(digit(n / 100000 % 10));
    text.push(digit(n / 10000 % 10));
    text.push(digit(n / 1000 % 10));
    text.push(digit(n / 100 % 10));
    text.push(digit(n / 10 % 10));
    text.push(digit(n % 10));
    assert(text@ =~= code_text(n as int));
    text
}

/// A fresh code: six digits, the first not zero.
pub fn generate_otp() -> (otp: String)
    ensures
        is_otp(otp@),
        otp@.len() == 6,
{
    let n = random_below(OTP_MIN, OTP_END);
    otp_text(n)
}

} // verus!
