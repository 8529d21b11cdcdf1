//! Session tokens: what they say, and when they are accepted.

use vstd::prelude::*;
use crate::outside::accepted_at;
use crate::outside::check_token;
use crate::outside::json_claims;
use crate::outside::read_claims;
use crate::outside::signed_token;
use crate::outside::DecodedClaims;
use crate::text::chars_of;
use crate::text::pieces;
use crate::text::split;

verus! {

/// The seconds for which a token is accepted beyond its expiry.
pub const LEEWAY_SECONDS: u64 = 60;

/// The six bits that a symbol of the base-64 alphabet for addresses stands for.
pub open spec fn six_bits(c: char) -> Option<int> {
    if 'A' <= c <= 'Z' {
        Some(c as int - 65)
    } else if 'a' <= c <= 'z' {
        Some(c as int - 71)
    } else if '0' <= c <= '9' {
        Some(c as int + 4)
    } else if c == '-' {
        Some(62)
    } else if c == '_' {
        Some(63)
    } else {
        None
    }
}

/// The byte at place `k` of what the six bits in a row come to.
pub open spec fn byte_at(bits: Seq<int>, k: int) -> int {
    let i = k / 3 * 4;
    if k % 3 == 0 {
        bits[i] * 4 + bits[i + 1] / 16
    } else if k % 3 == 1 {
        bits[i + 1] % 16 * 16 + bits[i + 2] / 4
    } else {
        bits[i + 2] % 4 * 64 + bits[i + 3]
    }
}

/// The bytes that a text stands for in base 64 without padding, if it holds nothing but symbols.
pub open spec fn base64_bytes(s: Seq<char>) -> Option<Seq<u8>> {
    if forall|i: int| 0 <= i < s.len() ==> six_bits(#[trigger] s[i]) is Some {
        let bits = s.map_values(|c: char| six_bits(c)->0);
        Some(Seq::new((s.len() * 3 / 4) as nat, |k: int| byte_at(bits, k) as u8))
    } else {
        None
    }
}

fn read_symbol(c: char) -> (r: Option<u8>)
    ensures
        match r {
            Some(n) => six_bits(c) == Some(n as int) && n < 64,
            None => six_bits(c) is None,
        },
{
    let n: u32 = c as u32;
    if 'A' <= c && c <= 'Z' {
        Some((n - 65) as u8)
    } else if 'a' <= c && c <= 'z' {
        Some((n - 71) as u8)
    } else if '0' <= c && c <= '9' {
        Some((n + 4) as u8)
    } else if c == '-' {
        Some(62)
    } else if c == '_' {
        Some(63)
    } else {
        None
    }
}

fn read_symbols(s: &str) -> (r: Option<Vec<u8>>)
    ensures
        match r {
            Some(v) => v@.len() == s@.len() && forall|i: int|
                0 <= i < s@.len() ==> six_bits(#[trigger] s@[i]) == Some(v@[i] as int) && v@[i]
                    < 64,
            None => exists|i: int| 0 <= i < s@.len() && six_bits(#[trigger] s@[i]) is None,
        },
{
    let symbols = chars_of(s);
    let mut v: Vec<u8> = Vec::new();
    let mut i: usize = 0;
    while i < symbols.len()
        invariant
            symbols@ == s@,
            i == v@.len(),
            i <= symbols@.len(),
            forall|j: int|
                0 <= j < i ==> six_bits(#[trigger] s@[j]) == Some(v@[j] as int) && v@[j] < 64,
        decreases symbols@.len() - i,
    {
        match read_symbol(symbols[i]) {
            Some(n) => v.push(n),
            None => {
                assert(six_bits(s@[i as int]) is None);
                return None;
            },
        }
        i += 1;
    }
    Some(v)
}

/// Decodes a text in base 64 without padding.
pub fn decode_base64(s: &str) -> (r: Option<Vec<u8>>)
    ensures
        r.deep_view() == base64_bytes(s@),
{
    let v = match read_symbols(s) {
        Some(v) => v,
        None => return None,
    };
    let ghost bits = s@.map_values(|c: char| six_bits(c)->0);
    let n: usize = v.len();
    let count: usize = n / 4 * 3 + n % 4 * 3 / 4;
    let mut bytes: Vec<u8> = Vec::new();
    let mut k: usize = 0;
    assert(count == n * 3 / 4);
    while k < count
        invariant
            n == v@.len() == s@.len(),
            count == n * 3 / 4,
            k == bytes@.len(),
            k <= count,
            bits == s@.map_values(|c: char| six_bits(c)->0),
            forall|i: int|
                0 <= i < s@.len() ==> six_bits(#[trigger] s@[i]) == Some(v@[i] as int) && v@[i]
                    < 64,
            forall|j: int| 0 <= j < k ==> #[trigger] bytes@[j] == byte_at(bits, j) as u8,
        decreases count - k,
    {
        let i: usize = k / 3 * 4;
        assert(forall|j: int| 0 <= j < n ==> #[trigger] bits[j] == six_bits(s@[j])->0);
        let byte: u8 = if k % 3 == 0 {
            assert(bits[i as int] == v@[i as int] && bits[i + 1] == v@[i + 1]);
            v[i] * 4 + v[i + 1] / 16
        } else if k % 3 == 1 {
            assert(bits[i + 1] == v@[i + 1] && bits[i + 2] == v@[i + 2]);
            v[i + 1] % 16 * 16 + v[i + 2] / 4
        } else {
            assert(bits[i + 2] == v@[i + 2] && bits[i + 3] == v@[i + 3]);
            v[i + 2] % 4 * 64 + v[i + 3]
        };
        bytes.push(byte);
        k += 1;
    }
    assert(bytes.deep_view() =~= base64_bytes(s@)->0);
    Some(bytes)
}

/// The payload of a token: the second of its three parts.
pub open spec fn payload(token: Seq<char>) -> Option<Seq<u8>> {
    let parts = pieces(token, '.');
    if parts.len() == 3 {
        base64_bytes(parts[1])
    } else {
        None
    }
}

/// The subject and the expiry that a token claims, each if it is there as a text and as a number.
pub open spec fn claims_in(token: Seq<char>) -> (Option<Seq<char>>, Option<u64>) {
    match payload(token) {
        Some(bytes) => json_claims(bytes),
        None => (None, None),
    }
}

/// What is decoded of a token under a secret at a second since 1970, if the token is accepted.
pub open spec fn decoded_at(token: Seq<char>, secret: Seq<char>, now: u64) -> Option<
    (Option<Seq<char>>, Option<u64>),
> {
    if accepted_at(token, secret, now) {
        Some(claims_in(token))
    } else {
        None
    }
}

/// Whether a token speaks for a subject until an expiry under a secret: it claims these two; it is
/// accepted exactly until the expiry and the leeway have passed; and it is accepted under another
/// secret only where that secret signs the same token.
pub open spec fn speaks_for(
    token: Seq<char>,
    sub: Seq<char>,
    exp: usize,
    secret: Seq<char>,
) -> bool {
    &&& claims_in(token) == (Some(sub), Some(exp as u64))
    &&& forall|now: u64|
        LEEWAY_SECONDS <= now ==> (#[trigger] accepted_at(token, secret, now) <==> now
            - LEEWAY_SECONDS <= exp)
    &&& forall|other: Seq<char>, now: u64| #[trigger]
        accepted_at(token, other, now) ==> signed_token(sub, exp, other) == token
}

fn read_payload(token: &str) -> (r: Option<Vec<u8>>)
    ensures
        r.deep_view() == payload(token@),
{
    let parts = split(token, '.');
    if parts.len() != 3 {
        return None;
    }
    assert(parts.deep_view()[1] == parts@[1]@);
    decode_base64(parts[1].as_str())
}

/// The claims of a token, accepted or not.
pub fn read_token(token: &str) -> (r: DecodedClaims)
    ensures
        r.deep_view() == claims_in(token@),
{
    match read_payload(token) {
        Some(bytes) => {
            assert(bytes.deep_view() =~= bytes@);
            read_claims(bytes.as_slice())
        },
        None => DecodedClaims { sub: None, exp: None },
    }
}

/// Decodes a token, at whatever second the machine's clock shows.
pub fn decode_token(token: &str, secret: &str) -> (r: Option<DecodedClaims>)
    ensures
        exists|now: u64| #[trigger] decoded_at(token@, secret@, now) == r.deep_view(),
{
    let checked = check_token(token, secret);
    let ghost now = choose|now: u64|
        #[trigger] accepted_at(token@, secret@, now) == (checked is Ok);
    let r: Option<DecodedClaims> = if checked.is_ok() {
        Some(read_token(token))
    } else {
        None
    };
    assert(decoded_at(token@, secret@, now) == r.deep_view());
    r
}

} // verus!
