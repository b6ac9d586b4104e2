//! Lower-case hexadecimal text for byte strings, with the proof that decoding
//! undoes encoding.

use vstd::prelude::*;

verus! {

/// The digit for a value below 16.
pub open spec fn hex_digit(v: int) -> char {
    if v == 0 {
        '0'
    } else if v == 1 {
        '1'
    } else if v == 2 {
        '2'
    } else if v == 3 {
        '3'
    } else if v == 4 {
        '4'
    } else if v == 5 {
        '5'
    } else if v == 6 {
        '6'
    } else if v == 7 {
        '7'
    } else if v == 8 {
        '8'
    } else if v == 9 {
        '9'
    } else if v == 10 {
        'a'
    } else if v == 11 {
        'b'
    } else if v == 12 {
        'c'
    } else if v == 13 {
        'd'
    } else if v == 14 {
        'e'
    } else {
        'f'
    }
}

/// The value of a digit; `None` for any other character. Upper-case digits
/// are not accepted, so that every byte string has one text only.
pub open spec fn hex_value(c: char) -> Option<int> {
    if c == '0' {
        Some(0)
    } else if c == '1' {
        Some(1)
    } else if c == '2' {
        Some(2)
    } else if c == '3' {
        Some(3)
    } else if c == '4' {
        Some(4)
    } else if c == '5' {
        Some(5)
    } else if c == '6' {
        Some(6)
    } else if c == '7' {
        Some(7)
    } else if c == '8' {
        Some(8)
    } else if c == '9' {
        Some(9)
    } else if c == 'a' {
        Some(10)
    } else if c == 'b' {
        Some(11)
    } else if c == 'c' {
        Some(12)
    } else if c == 'd' {
        Some(13)
    } else if c == 'e' {
        Some(14)
    } else if c == 'f' {
        Some(15)
    } else {
        None
    }
}

/// The text of `bytes`: two digits for each byte, the high half first.
#[verifier::opaque]
pub open spec fn hex_of_bytes(bytes: Seq<u8>) -> Seq<char> {
    Seq::new(
        2 * bytes.len(),
        |i: int|
            if i % 2 == 0 {
                hex_digit(bytes[i / 2] as int / 16)
            } else {
                hex_digit(bytes[i / 2] as int % 16)
            },
    )
}

/// Whether `text` is the text of some byte string.
pub open spec fn is_hex_text(text: Seq<char>) -> bool {
    text.len() % 2 == 0 && forall|i: int| 0 <= i < text.len() ==> hex_value(#[trigger] text[i]) is Some
}

/// The byte string that `text` stands for, if any.
#[verifier::opaque]
pub open spec fn bytes_of_hex(text: Seq<char>) -> Option<Seq<u8>> {
    if is_hex_text(text) {
        Some(
            Seq::new(
                text.len() / 2,
                |i: int| (hex_value(text[2 * i])->0 * 16 + hex_value(text[2 * i + 1])->0) as u8,
            ),
        )
    } else {
        None
    }
}

/// Decoding the text of a byte string gives the byte string back, and the
/// text holds digits only.
pub proof fn lemma_hex_round_trip(bytes: Seq<u8>)
    ensures
        hex_of_bytes(bytes).len() == 2 * bytes.len(),
        bytes_of_hex(hex_of_bytes(bytes)) == Some(bytes),
        forall|i: int|
            0 <= i < hex_of_bytes(bytes).len() ==> hex_value(#[trigger] hex_of_bytes(bytes)[i])
                is Some,
{
    reveal(hex_of_bytes);
    reveal(bytes_of_hex);
    let text = hex_of_bytes(bytes);
    assert forall|i: int| 0 <= i < text.len() implies hex_value(#[trigger] text[i]) is Some by {
        let b = bytes[i / 2] as int;
        assert(0 <= b / 16 < 16 && 0 <= b % 16 < 16);
    }
    assert(is_hex_text(text));
    let back = bytes_of_hex(text)->0;
    assert(back.len() == bytes.len());
    assert forall|k: int| 0 <= k < bytes.len() implies back[k] == bytes[k] by {
        let b = bytes[k] as int;
        assert((2 * k) % 2 == 0 && (2 * k) / 2 == k);
        assert((2 * k + 1) % 2 == 1 && (2 * k + 1) / 2 == k);
        assert(text[2 * k] == hex_digit(b / 16));
        assert(text[2 * k + 1] == hex_digit(b % 16));
        assert(0 <= b / 16 < 16 && 0 <= b % 16 < 16);
        assert(hex_value(hex_digit(b / 16)) == Some(b / 16));
        assert(hex_value(hex_digit(b % 16)) == Some(b % 16));
        assert((b / 16) * 16 + b % 16 == b);
    }
    assert(back =~= bytes);
}

fn digit_char(v: u8) -> (c: char)
    requires
        v < 16,
    ensures
        c == hex_digit(v as int),
{
    if v == 0 {
        '0'
    } else if v == 1 {
        '1'
    } else if v == 2 {
        '2'
    } else if v == 3 {
        '3'
    } else if v == 4 {
        '4'
    } else if v == 5 {
        '5'
    } else if v == 6 {
        '6'
    } else if v == 7 {
        '7'
    } else if v == 8 {
        '8'
    } else if v == 9 {
        '9'
    } else if v == 10 {
        'a'
    } else if v == 11 {
        'b'
    } else if v == 12 {
        'c'
    } else if v == 13 {
        'd'
    } else if v == 14 {
        'e'
    } else {
        'f'
    }
}

fn digit_value(c: char) -> (v: Option<u8>)
    ensures
        match v {
            Some(d) => hex_value(c) == Some(d as int) && d < 16,
            None => hex_value(c) is None,
        },
{
    if c >= '0' && c <= '9' {
        Some((c as u32 - '0' as u32) as u8)
    } else if c >= 'a' && c <= 'f' {
        Some((c as u32 - 'a' as u32 + 10) as u8)
    } else {
        None
    }
}

/// Appends the text of `bytes` to `out`.
pub(crate) fn push_hex(out: &mut String, bytes: &[u8])
    ensures
        final(out)@ == old(out)@ + hex_of_bytes(bytes@),
{
    reveal(hex_of_bytes);
    let n = bytes.len();
    let mut i: usize = 0;
    let ghost text = hex_of_bytes(bytes@);
    assert(out@ =~= old(out)@ + text.take(0));
    while i < n
        invariant
            i <= n == bytes@.len(),
            text == hex_of_bytes(bytes@),
            out@ == old(out)@ + text.take(2 * i),
        decreases n - i,
    {
        let b = bytes[i];
        proof {
            reveal(hex_of_bytes);
            assert((2 * i) % 2 == 0 && (2 * i) / 2 == i as int);
            assert((2 * i + 1) % 2 == 1 && (2 * i + 1) / 2 == i as int);
        }
        out.push(digit_char(b / 16));
        out.push(digit_char(b % 16));
        assert(text.take(2 * (i + 1)) =~= text.take(2 * i).push(text[2 * i]).push(text[2 * i + 1]));
        i += 1;
        assert(out@ =~= old(out)@ + text.take(2 * i));
    }
    assert(text.take(2 * n) =~= text);
}

/// The byte string that `chars[from..to]` stands for, if any.
pub(crate) fn parse_hex(chars: &Vec<char>, from: usize, to: usize) -> (out: Option<Vec<u8>>)
    requires
        from <= to <= chars@.len(),
    ensures
        match out {
            Some(bytes) => bytes_of_hex(chars@.subrange(from as int, to as int)) == Some(bytes@)
                && 2 * bytes@.len() == to - from,
            None => bytes_of_hex(chars@.subrange(from as int, to as int)) is None,
        },
{
    reveal(bytes_of_hex);
    let ghost text = chars@.subrange(from as int, to as int);
    let len = to - from;
    if len % 2 != 0 {
        return None;
    }
    let mut out: Vec<u8> = Vec::new();
    let mut k: usize = 0;
    while k < len / 2
        invariant
            from <= to <= chars@.len(),
            len == to - from,
            len % 2 == 0,
            text == chars@.subrange(from as int, to as int),
            k <= len / 2,
            out@.len() == k,
            forall|i: int| 0 <= i < 2 * k ==> hex_value(#[trigger] text[i]) is Some,
            forall|j: int|
                0 <= j < k ==> #[trigger] out@[j] == (hex_value(text[2 * j])->0 * 16 + hex_value(
                    text[2 * j + 1],
                )->0) as u8,
        decreases len / 2 - k,
    {
        let hi = digit_value(chars[from + 2 * k]);
        let lo = digit_value(chars[from + 2 * k + 1]);
        assert(text[2 * k] == chars@[from + 2 * k]);
        assert(text[2 * k + 1] == chars@[from + 2 * k + 1]);
        match (hi, lo) {
            (Some(h), Some(l)) => {
                out.push(h * 16 + l);
            },
            _ => {
                proof {
                    reveal(bytes_of_hex);
                }
                assert(!is_hex_text(text));
                return None;
            },
        }
        k += 1;
    }
    proof {
        reveal(bytes_of_hex);
    }
    assert(is_hex_text(text));
    assert(out@ =~= bytes_of_hex(text)->0);
    Some(out)
}

} // verus!
