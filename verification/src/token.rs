//! Signed, self-contained session tokens.
//!
//! A token is the text `<expiry>.<subject>.<tag>`: the expiry as sixteen
//! hexadecimal digits, the subject as it is, and the tag, in hexadecimal, of
//! a keyed hash over everything before the last dot. Nothing is stored on the
//! server: a token is valid while its tag matches and its expiry lies ahead.

use vstd::prelude::*;
use vstd::utf8::encode_utf8;
use crate::hex::{bytes_of_hex, hex_of_bytes, hex_value, lemma_hex_round_trip, parse_hex, push_hex};
use crate::text::{chars_of, string_of_range};

verus! {

/// What a valid token says: the account it was issued to and the second at
/// which it stops being valid.
#[derive(Debug, Clone)]
pub struct Claims {
    pub sub: String,
    pub exp: i64,
}

/// Why no token was issued, or why one was refused.
#[derive(Debug, Clone, Copy, PartialEq, Eq, Structural)]
pub enum TokenError {
    /// Malformed, forged, or past its expiry.
    InvalidToken,
    /// The expiry does not fit the clock's range.
    ExpiryOutOfRange,
}

/// HMAC-SHA-256 of `message` under `key`.
pub uninterp spec fn hmac_sha256(key: Seq<u8>, message: Seq<u8>) -> Seq<u8>;

/// `hmac::Mac::finalize` on an `Hmac<Sha256>` keyed with `key` and fed
/// `message`: the tag depends on the two alone; this library names it.
#[verifier::external_body]
fn mac_tag(key: &[u8], message: &[u8]) -> (tag: Vec<u8>)
    ensures
        tag@ == hmac_sha256(key@, message@),
{
    let mut mac = <hmac::Hmac<sha2::Sha256> as hmac::Mac>::new_from_slice(key)
        .expect("a key of any length is accepted");
    hmac::Mac::update(&mut mac, message);
    hmac::Mac::finalize(mac).into_bytes().to_vec()
}

/// `hmac::Mac::verify_slice` on an `Hmac<Sha256>` keyed with `key` and fed
/// `message`: succeeds exactly when `tag` is the whole tag of the message,
/// compared in constant time.
#[verifier::external_body]
fn mac_matches(key: &[u8], message: &[u8], tag: &[u8]) -> (ok: bool)
    ensures
        ok == (hmac_sha256(key@, message@) == tag@),
{
    let mut mac = <hmac::Hmac<sha2::Sha256> as hmac::Mac>::new_from_slice(key)
        .expect("a key of any length is accepted");
    hmac::Mac::update(&mut mac, message);
    hmac::Mac::verify_slice(mac, tag).is_ok()
}

/// The expiry moved into the unsigned range, so that it has sixteen digits.
pub open spec fn expiry_word(exp: i64) -> int {
    exp + 0x8000_0000_0000_0000
}

/// The eight bytes of the expiry, the most significant first.
#[verifier::opaque]
pub open spec fn expiry_bytes(exp: i64) -> Seq<u8> {
    let w = expiry_word(exp);
    seq![
        (w / 0x100_0000_0000_0000) as u8,
        (w / 0x1_0000_0000_0000 % 256) as u8,
        (w / 0x100_0000_0000 % 256) as u8,
        (w / 0x1_0000_0000 % 256) as u8,
        (w / 0x100_0000 % 256) as u8,
        (w / 0x1_0000 % 256) as u8,
        (w / 0x100 % 256) as u8,
        (w % 256) as u8,
    ]
}

/// The expiry that eight bytes stand for.
#[verifier::opaque]
pub open spec fn expiry_of_bytes(b: Seq<u8>) -> i64
    recommends
        b.len() == 8,
{
    (b[0] * 0x100_0000_0000_0000 + b[1] * 0x1_0000_0000_0000 + b[2] * 0x100_0000_0000 + b[3]
        * 0x1_0000_0000 + b[4] * 0x100_0000 + b[5] * 0x1_0000 + b[6] * 0x100 + b[7]
        - 0x8000_0000_0000_0000) as i64
}

/// The eight bytes of an expiry stand for that expiry.
pub proof fn lemma_expiry_round_trip(exp: i64)
    ensures
        expiry_bytes(exp).len() == 8,
        expiry_of_bytes(expiry_bytes(exp)) == exp,
{
    reveal(expiry_bytes);
    reveal(expiry_of_bytes);
    let w = expiry_word(exp);
    assert(0 <= w < 0x1_0000_0000_0000_0000);
    let w1 = w / 256;
    let w2 = w1 / 256;
    let w3 = w2 / 256;
    let w4 = w3 / 256;
    let w5 = w4 / 256;
    let w6 = w5 / 256;
    let w7 = w6 / 256;
    assert(w1 == w / 0x100);
    assert(w2 == w / 0x1_0000);
    assert(w3 == w / 0x100_0000);
    assert(w4 == w / 0x1_0000_0000);
    assert(w5 == w / 0x100_0000_0000);
    assert(w6 == w / 0x1_0000_0000_0000);
    assert(w7 == w / 0x100_0000_0000_0000);
    assert(w == w1 * 256 + w % 256);
    assert(w1 == w2 * 256 + w1 % 256);
    assert(w2 == w3 * 256 + w2 % 256);
    assert(w3 == w4 * 256 + w3 % 256);
    assert(w4 == w5 * 256 + w4 % 256);
    assert(w5 == w6 * 256 + w5 % 256);
    assert(w6 == w7 * 256 + w6 % 256);
    assert(0 <= w7 < 256);
}

/// What the tag is computed over: the expiry's digits, a dot, the subject.
pub open spec fn token_payload(subject: Seq<char>, exp: i64) -> Seq<char> {
    hex_of_bytes(expiry_bytes(exp)) + seq!['.'] + subject
}

/// The token for `subject` that expires at `exp`, signed with `secret`.
pub open spec fn token_text(subject: Seq<char>, exp: i64, secret: Seq<char>) -> Seq<char> {
    let payload = token_payload(subject, exp);
    payload + seq!['.'] + hex_of_bytes(hmac_sha256(encode_utf8(secret), encode_utf8(payload)))
}

/// The position of the last dot of `s`, or -1 where it has none.
pub open spec fn last_dot(s: Seq<char>) -> int
    decreases s.len(),
{
    if s.len() == 0 {
        -1
    } else if s.last() == '.' {
        s.len() - 1
    } else {
        last_dot(s.drop_last())
    }
}

/// The parts of a well-formed token.
pub struct TokenParts {
    pub subject: Seq<char>,
    pub exp: i64,
    pub payload: Seq<char>,
    pub tag: Seq<u8>,
}

/// The parts of `token`, where it is well formed: sixteen digits, a dot, the
/// subject, a last dot and the digits of the tag.
pub open spec fn token_parts(token: Seq<char>) -> Option<TokenParts> {
    let p = last_dot(token);
    if token.len() < 17 || token[16] != '.' || p <= 16 {
        None
    } else {
        match (
            bytes_of_hex(token.subrange(0, 16)),
            bytes_of_hex(token.subrange(p + 1, token.len() as int)),
        ) {
            (Some(e), Some(tag)) => Some(
                TokenParts {
                    subject: token.subrange(17, p),
                    exp: expiry_of_bytes(e),
                    payload: token.subrange(0, p),
                    tag,
                },
            ),
            _ => None,
        }
    }
}

/// The claims that `token` proves at time `now` under `secret`: those of a
/// well-formed token whose tag is that of its payload and whose expiry lies
/// after `now`.
pub open spec fn token_claims(token: Seq<char>, secret: Seq<char>, now: i64) -> Option<
    (Seq<char>, i64),
> {
    match token_parts(token) {
        Some(parts) => if hmac_sha256(encode_utf8(secret), encode_utf8(parts.payload))
            == parts.tag && now < parts.exp {
            Some((parts.subject, parts.exp))
        } else {
            None
        },
        None => None,
    }
}

/// The second at which a token issued at `now` for `ttl_hours` hours expires.
pub open spec fn expiry_after(now: i64, ttl_hours: u64) -> int {
    now + ttl_hours * 3600
}

proof fn lemma_last_dot_bounds(s: Seq<char>)
    ensures
        -1 <= last_dot(s) < s.len(),
        last_dot(s) >= 0 ==> s[last_dot(s)] == '.',
        forall|i: int| last_dot(s) < i < s.len() ==> s[i] != '.',
    decreases s.len(),
{
    if s.len() > 0 && s.last() != '.' {
        let front = s.drop_last();
        lemma_last_dot_bounds(front);
        assert forall|i: int| last_dot(s) < i < s.len() implies s[i] != '.' by {
            if i < front.len() {
                assert(front[i] == s[i]);
            }
        }
    }
}

proof fn lemma_last_dot_before_dotless_tail(head: Seq<char>, tail: Seq<char>)
    requires
        forall|i: int| 0 <= i < tail.len() ==> tail[i] != '.',
    ensures
        last_dot(head + seq!['.'] + tail) == head.len(),
    decreases tail.len(),
{
    let s = head + seq!['.'] + tail;
    if tail.len() == 0 {
        assert(s.last() == '.');
    } else {
        assert(s.last() == tail.last());
        assert(s.drop_last() =~= head + seq!['.'] + tail.drop_last());
        lemma_last_dot_before_dotless_tail(head, tail.drop_last());
    }
}

proof fn lemma_split_at_dots(digits: Seq<char>, subject: Seq<char>, tail: Seq<char>)
    requires
        digits.len() == 16,
        forall|i: int| 0 <= i < tail.len() ==> tail[i] != '.',
    ensures
        ({
            let payload = digits + seq!['.'] + subject;
            let token = payload + seq!['.'] + tail;
            let p = last_dot(token);
            &&& p == 17 + subject.len()
            &&& token.len() >= 17
            &&& token[16] == '.'
            &&& token.subrange(0, 16) == digits
            &&& token.subrange(17, p) == subject
            &&& token.subrange(0, p) == payload
            &&& token.subrange(p + 1, token.len() as int) == tail
        }),
{
    let payload = digits + seq!['.'] + subject;
    let token = payload + seq!['.'] + tail;
    lemma_last_dot_before_dotless_tail(payload, tail);
    let p = last_dot(token);
    assert(token.subrange(0, 16) =~= digits);
    assert(token.subrange(p + 1, token.len() as int) =~= tail);
    assert(token.subrange(17, p) =~= subject);
    assert(token.subrange(0, p) =~= payload);
}

/// The parts of an issued token are those it was issued with.
pub proof fn lemma_parts_of_issued_token(subject: Seq<char>, exp: i64, secret: Seq<char>)
    ensures
        token_parts(token_text(subject, exp, secret)) == Some(
            TokenParts {
                subject,
                exp,
                payload: token_payload(subject, exp),
                tag: hmac_sha256(encode_utf8(secret), encode_utf8(token_payload(subject, exp))),
            },
        ),
{
    let digits = hex_of_bytes(expiry_bytes(exp));
    let payload = token_payload(subject, exp);
    let tag = hmac_sha256(encode_utf8(secret), encode_utf8(payload));
    let tail = hex_of_bytes(tag);
    lemma_expiry_round_trip(exp);
    lemma_hex_round_trip(expiry_bytes(exp));
    lemma_hex_round_trip(tag);
    assert forall|i: int| 0 <= i < tail.len() implies tail[i] != '.' by {
        assert(hex_value(tail[i]) is Some);
    }
    lemma_split_at_dots(digits, subject, tail);
    let token = token_text(subject, exp, secret);
    assert(token == payload + seq!['.'] + tail);
    assert(payload == digits + seq!['.'] + subject);
    let p = last_dot(token);
    assert(bytes_of_hex(token.subrange(0, 16)) == Some(expiry_bytes(exp)));
    assert(bytes_of_hex(token.subrange(p + 1, token.len() as int)) == Some(tag));
}

/// A token that was just issued proves its subject: validating it before its
/// expiry gives back the subject and the expiry it was issued with.
pub proof fn lemma_issued_token_validates(
    subject: Seq<char>,
    exp: i64,
    secret: Seq<char>,
    now: i64,
)
    requires
        now < exp,
    ensures
        token_claims(token_text(subject, exp, secret), secret, now) == Some((subject, exp)),
{
    lemma_parts_of_issued_token(subject, exp, secret);
}

/// A token proves nothing from its expiry on, though its tag is the right
/// one.
pub proof fn lemma_expired_token_is_refused(
    subject: Seq<char>,
    exp: i64,
    secret: Seq<char>,
    now: i64,
)
    requires
        now >= exp,
    ensures
        token_claims(token_text(subject, exp, secret), secret, now) is None,
{
    lemma_parts_of_issued_token(subject, exp, secret);
}

fn encode_expiry(exp: i64) -> (bytes: Vec<u8>)
    ensures
        bytes@ == expiry_bytes(exp),
{
    let w: u64 = if exp >= 0 {
        exp as u64 + 0x8000_0000_0000_0000u64
    } else {
        (exp + i64::MAX + 1) as u64
    };
    reveal(expiry_bytes);
    assert(w == expiry_word(exp));
    let mut bytes: Vec<u8> = Vec::new();
    bytes.push((w / 0x100_0000_0000_0000) as u8);
    bytes.push((w / 0x1_0000_0000_0000 % 256) as u8);
    bytes.push((w / 0x100_0000_0000 % 256) as u8);
    bytes.push((w / 0x1_0000_0000 % 256) as u8);
    bytes.push((w / 0x100_0000 % 256) as u8);
    bytes.push((w / 0x1_0000 % 256) as u8);
    bytes.push((w / 0x100 % 256) as u8);
    bytes.push((w % 256) as u8);
    assert(bytes@ =~= expiry_bytes(exp));
    bytes
}

fn decode_expiry(b: &Vec<u8>) -> (exp: i64)
    requires
        b@.len() == 8,
    ensures
        exp == expiry_of_bytes(b@),
{
    reveal(expiry_of_bytes);
    let w: u64 = b[0] as u64 * 0x100_0000_0000_0000 + b[1] as u64 * 0x1_0000_0000_0000 + b[2] as u64
        * 0x100_0000_0000 + b[3] as u64 * 0x1_0000_0000 + b[4] as u64 * 0x100_0000 + b[5] as u64
        * 0x1_0000 + b[6] as u64 * 0x100 + b[7] as u64;
    if w >= 0x8000_0000_0000_0000 {
        (w - 0x8000_0000_0000_0000) as i64
    } else {
        w as i64 - i64::MAX - 1
    }
}

/// Issues a token for `subject` that is valid from `now` for `ttl_hours`
/// hours, signed with `secret`. Fails only where the expiry is out of range.
pub fn issue_token(subject: &str, secret: &str, ttl_hours: u64, now: i64) -> (r: Result<
    String,
    TokenError,
>)
    ensures
        match r {
            Ok(token) => expiry_after(now, ttl_hours) <= i64::MAX && token@ == token_text(
                subject@,
                expiry_after(now, ttl_hours) as i64,
                secret@,
            ),
            Err(e) => expiry_after(now, ttl_hours) > i64::MAX && e == TokenError::ExpiryOutOfRange,
        },
{
    let wide: i128 = now as i128 + ttl_hours as i128 * 3600;
    if wide > i64::MAX as i128 {
        return Err(TokenError::ExpiryOutOfRange);
    }
    let exp: i64 = wide as i64;
    let mut token = String::new();
    push_hex(&mut token, encode_expiry(exp).as_slice());
    token.push('.');
    let subject_chars = chars_of(subject);
    let mut i: usize = 0;
    let ghost head = token@;
    assert(token@ =~= head + subject@.take(0));
    while i < subject_chars.len()
        invariant
            i <= subject_chars@.len(),
            subject_chars@ == subject@,
            token@ == head + subject@.take(i as int),
        decreases subject_chars@.len() - i,
    {
        token.push(subject_chars[i]);
        i += 1;
        assert(token@ =~= head + subject@.take(i as int));
    }
    assert(subject@.take(subject@.len() as int) =~= subject@);
    assert(token@ =~= token_payload(subject@, exp));
    let tag = mac_tag(secret.as_bytes(), token.as_str().as_bytes());
    token.push('.');
    push_hex(&mut token, tag.as_slice());
    assert(token@ =~= token_text(subject@, exp, secret@));
    Ok(token)
}

fn find_last_dot(chars: &Vec<char>) -> (p: Option<usize>)
    ensures
        match p {
            Some(i) => i == last_dot(chars@),
            None => last_dot(chars@) == -1,
        },
{
    let mut j: usize = chars.len();
    assert(chars@.take(j as int) =~= chars@);
    while j > 0
        invariant
            j <= chars@.len(),
            last_dot(chars@) == last_dot(chars@.take(j as int)),
        decreases j,
    {
        if chars[j - 1] == '.' {
            return Some(j - 1);
        }
        assert(chars@.take(j as int).drop_last() =~= chars@.take(j - 1));
        j -= 1;
    }
    None
}

/// Checks `token` at time `now` under `secret`, and returns what it claims.
/// Every failure is `InvalidToken`: a malformed text, a tag that is not that
/// of the payload, an expiry that is not after `now`.
pub fn validate_token(token: &str, secret: &str, now: i64) -> (r: Result<Claims, TokenError>)
    ensures
        match r {
            Ok(claims) => token_claims(token@, secret@, now) == Some((claims.sub@, claims.exp)),
            Err(e) => token_claims(token@, secret@, now) is None && e == TokenError::InvalidToken,
        },
{
    let chars = chars_of(token);
    let n = chars.len();
    if n < 17 || chars[16] != '.' {
        return Err(TokenError::InvalidToken);
    }
    let p = match find_last_dot(&chars) {
        Some(p) => p,
        None => { return Err(TokenError::InvalidToken); },
    };
    if p <= 16 {
        return Err(TokenError::InvalidToken);
    }
    proof {
        lemma_last_dot_bounds(chars@);
    }
    let expiry = match parse_hex(&chars, 0, 16) {
        Some(e) => e,
        None => { return Err(TokenError::InvalidToken); },
    };
    let tag = match parse_hex(&chars, p + 1, n) {
        Some(t) => t,
        None => { return Err(TokenError::InvalidToken); },
    };
    let exp = decode_expiry(&expiry);
    let payload = string_of_range(&chars, 0, p);
    if !mac_matches(secret.as_bytes(), payload.as_str().as_bytes(), tag.as_slice()) {
        return Err(TokenError::InvalidToken);
    }
    if now >= exp {
        return Err(TokenError::InvalidToken);
    }
    Ok(Claims { sub: string_of_range(&chars, 17, p), exp })
}

} // verus!
