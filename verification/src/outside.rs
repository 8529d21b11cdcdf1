//! The calls into other crates, each with the contract that the rest of the library relies on.

use rand::Rng;
use serde_json::value::RawValue;
use std::cmp::Reverse;
use std::collections::BTreeMap;
use vstd::arithmetic::power::pow;
use vstd::prelude::*;
use vstd::utf8::{decode_utf8, valid_utf8};
use argon2::password_hash::{PasswordHasher, PasswordVerifier};
use crate::models::Claims;
use crate::password::lanes_fit;
use crate::text::byte_length;
use crate::token::speaks_for;

verus! {

/// `rand::Rng::gen_range` over `1..=sides`, on the thread's generator: some number of that range.
#[verifier::external_body]
pub(crate) fn random_die(sides: u32) -> (r: u32)
    requires
        sides >= 1,
    ensures
        1 <= r <= sides,
{
    rand::rngs::ThreadRng::default().gen_range(1..=sides)
}

/// The hexadecimal digit at place `k` of the 32 that write `id`, counted from the front.
pub open spec fn nibble(id: u128, k: int) -> int {
    (id as int / pow(16, (31 - k) as nat)) % 16
}

/// The lower-case hexadecimal digit for a value below sixteen.
pub open spec fn hex_digit(d: int) -> char {
    if d < 10 {
        (48 + d) as char
    } else {
        (87 + d) as char
    }
}

/// How many hyphens stand before place `i` of a hyphenated identifier.
pub open spec fn hyphens_before(i: int) -> int {
    if i <= 8 {
        0
    } else if i <= 13 {
        1
    } else if i <= 18 {
        2
    } else if i <= 23 {
        3
    } else {
        4
    }
}

/// The 36 characters that write an identifier: 32 hexadecimal digits in five groups.
pub open spec fn hyphenated(id: u128) -> Seq<char> {
    Seq::new(
        36,
        |i: int|
            if i == 8 || i == 13 || i == 18 || i == 23 {
                '-'
            } else {
                hex_digit(nibble(id, i - hyphens_before(i)))
            },
    )
}

/// Whether `id` has the version and the variant of a random identifier.
pub open spec fn random_identifier(id: u128) -> bool {
    &&& nibble(id, 12) == 4
    &&& 8 <= nibble(id, 16) <= 11
}

/// `uuid::Uuid::new_v4`: some identifier of version 4.
#[verifier::external_body]
pub(crate) fn random_uuid() -> (id: u128)
    ensures
        random_identifier(id),
{
    uuid::Uuid::new_v4().as_u128()
}

/// `uuid::Uuid`'s `to_string`: the hyphenated lower-case form.
#[verifier::external_body]
pub(crate) fn uuid_text(id: u128) -> (r: String)
    ensures
        r@ == hyphenated(id),
{
    uuid::Uuid::from_u128(id).to_string()
}

/// The last second that the clock can show.
pub const LATEST_SECOND: i64 = 8_210_266_876_799;

/// `chrono::Utc::now` and `timestamp`: the seconds since 1970 on the machine's clock, never before
/// that year and never behind the last date that chrono represents.
#[verifier::external_body]
pub(crate) fn clock_seconds() -> (r: i64)
    ensures
        0 <= r <= LATEST_SECOND,
{
    chrono::Utc::now().timestamp()
}

/// The moment that chrono reads in a text, as seconds since 1970 and nanoseconds.
pub uninterp spec fn moment_of(text: Seq<char>) -> Option<(i64, u32)>;

/// Whether chrono reads a moment in a text that the clock can show.
pub open spec fn is_clock_text(text: Seq<char>) -> bool {
    match moment_of(text) {
        Some((seconds, nanoseconds)) => 0 <= seconds <= LATEST_SECOND && nanoseconds
            < 1_000_000_000,
        None => false,
    }
}

/// `chrono::Utc::now` and `to_rfc3339`: the present moment as a text that chrono can read back.
#[verifier::external_body]
pub(crate) fn clock_text() -> (r: String)
    ensures
        is_clock_text(r@),
{
    chrono::Utc::now().to_rfc3339()
}

/// chrono's error on a text that is no date.
#[verifier::external_type_specification]
#[verifier::external_body]
pub struct ExDateError(chrono::format::ParseError);

/// `str::parse::<chrono::DateTime<chrono::Utc>>`, with `timestamp` and `timestamp_subsec_nanos` of
/// what it reads.
#[verifier::external_body]
pub(crate) fn read_moment(text: &str) -> (r: Result<(i64, u32), chrono::format::ParseError>)
    ensures
        match r {
            Ok(moment) => moment_of(text@) == Some(moment),
            Err(_) => moment_of(text@) is None,
        },
{
    let date = text.parse::<chrono::DateTime<chrono::Utc>>()?;
    Ok((date.timestamp(), date.timestamp_subsec_nanos()))
}

/// Whether `c` is a symbol of the base-64 alphabet.
pub open spec fn base64_symbol(c: char) -> bool {
    ||| 'A' <= c <= 'Z'
    ||| 'a' <= c <= 'z'
    ||| '0' <= c <= '9'
    ||| c == '+'
    ||| c == '/'
}

/// Whether a text is the unpadded base-64 form of sixteen bytes.
pub open spec fn is_salt(s: Seq<char>) -> bool {
    &&& s.len() == 22
    &&& forall|i: int| 0 <= i < 22 ==> base64_symbol(#[trigger] s[i])
    &&& s[21] == 'A' || s[21] == 'Q' || s[21] == 'g' || s[21] == 'w'
}

/// `argon2::password_hash::SaltString::generate`: sixteen random bytes in base 64.
#[verifier::external_body]
pub(crate) fn random_salt() -> (r: String)
    ensures
        is_salt(r@),
{
    let rng = argon2::password_hash::rand_core::OsRng;
    argon2::password_hash::SaltString::generate(rng).to_string()
}

/// The error of the password hashing functions.
#[verifier::external_type_specification]
#[verifier::external_body]
pub struct ExPasswordError(argon2::password_hash::Error);

/// The hash text that Argon2 with its default parameters makes of a password and a salt.
pub uninterp spec fn argon2_text(password: Seq<char>, salt: Seq<char>) -> Option<Seq<char>>;

/// Whether a text has the form of a password hash.
pub uninterp spec fn is_hash_text(stored: Seq<char>) -> bool;

/// Whether Argon2 confirms a password against a stored text.
pub uninterp spec fn argon2_confirms(password: Seq<char>, stored: Seq<char>) -> bool;

/// Whether a text is what Argon2 makes of a password and a salt, and is confirmed as that: it has
/// the form of a hash, it names few enough lanes, and exactly the passwords that give the same text
/// with this salt are confirmed against it.
pub open spec fn is_hash_of(hash: Seq<char>, password: Seq<char>, salt: Seq<char>) -> bool {
    &&& argon2_text(password, salt) == Some(hash)
    &&& is_hash_text(hash)
    &&& lanes_fit(hash)
    &&& forall|other: Seq<char>| #[trigger]
        argon2_confirms(other, hash) <==> argon2_text(other, salt) == Some(hash)
}

/// `argon2::Argon2::hash_password` with the default parameters, written as a text. It succeeds on a
/// salt of sixteen bytes and a password below four gibibytes. What it made is read back as a hash
/// with one lane, and checking a password against it hashes that password with the same salt and
/// the same parameters and compares.
#[verifier::external_body]
pub(crate) fn argon2_hash(password: &str, salt: &str) -> (r: Result<
    String,
    argon2::password_hash::Error,
>)
    ensures
        match r {
            Ok(hash) => is_hash_of(hash@, password@, salt@),
            Err(_) => argon2_text(password@, salt@) is None,
        },
        is_salt(salt@) && byte_length(password@) <= 0xFFFF_FFFF ==> r is Ok,
{
    let salt = argon2::password_hash::SaltString::from_b64(salt)?;
    let hash = argon2::Argon2::default().hash_password(password.as_bytes(), &salt)?;
    Ok(hash.to_string())
}

/// `argon2::password_hash::PasswordHash::new`: whether it reads the text as a hash.
#[verifier::external_body]
pub(crate) fn read_hash(stored: &str) -> (r: Result<(), argon2::password_hash::Error>)
    ensures
        r is Ok <==> is_hash_text(stored@),
{
    argon2::password_hash::PasswordHash::new(stored)?;
    Ok(())
}

/// `argon2::Argon2::verify_password` on what `PasswordHash::new` reads in the stored text. The text
/// names its own costs, and they are spent; a number of lanes whose eightfold does not fit in 32
/// bits makes the arithmetic on the costs overflow.
#[verifier::external_body]
pub(crate) fn argon2_check(password: &str, stored: &str) -> (r: Result<
    (),
    argon2::password_hash::Error,
>)
    requires
        lanes_fit(stored@),
    ensures
        r is Ok <==> argon2_confirms(password@, stored@),
{
    let hash = argon2::password_hash::PasswordHash::new(stored)?;
    argon2::Argon2::default().verify_password(password.as_bytes(), &hash)
}

/// The error of the token functions.
#[verifier::external_type_specification]
#[verifier::external_body]
pub struct ExTokenError(jsonwebtoken::errors::Error);

/// The token that jsonwebtoken signs with HS256 for a subject and an expiry under a secret.
pub uninterp spec fn signed_token(sub: Seq<char>, exp: usize, secret: Seq<char>) -> Seq<char>;

/// Whether jsonwebtoken accepts a token under a secret at a second since 1970.
pub uninterp spec fn accepted_at(token: Seq<char>, secret: Seq<char>, now: u64) -> bool;

/// The subject and the expiry that serde_json finds in a JSON object, each if it is there as a text
/// and as a number.
pub uninterp spec fn json_claims(payload: Seq<u8>) -> (Option<Seq<char>>, Option<u64>);

/// `jsonwebtoken::encode` with the default header and the secret as key, on the subject and then the
/// expiry. HS256 signs every text. The payload, the second part, is the JSON of both in base 64. A
/// check forms the signature anew, and refuses a token whose expiry lies more than the leeway before
/// the second on the clock; in the first minute of 1970 that difference is not formed, and nothing
/// is stated of when the token is accepted.
#[verifier::external_body]
pub(crate) fn sign_claims(claims: &Claims, secret: &str) -> (r: Result<
    String,
    jsonwebtoken::errors::Error,
>)
    ensures
        r is Ok,
        r->Ok_0@ == signed_token(claims.sub@, claims.exp, secret@),
        speaks_for(r->Ok_0@, claims.sub@, claims.exp, secret@),
{
    let mut object = BTreeMap::new();
    object.insert(Reverse("sub"), serde_json::Value::from(claims.sub.as_str()));
    object.insert(Reverse("exp"), serde_json::Value::from(claims.exp));
    let key = jsonwebtoken::EncodingKey::from_secret(secret.as_bytes());
    jsonwebtoken::encode(&jsonwebtoken::Header::default(), &object, &key)
}

/// The claims of a decoded token that the server reads: each if it is there as a text and as a
/// number.
#[derive(Debug)]
pub struct DecodedClaims {
    pub sub: Option<String>,
    pub exp: Option<u64>,
}

impl DeepView for DecodedClaims {
    type V = (Option<Seq<char>>, Option<u64>);

    open spec fn deep_view(&self) -> (Option<Seq<char>>, Option<u64>) {
        (self.sub.deep_view(), self.exp)
    }
}

/// `jsonwebtoken::decode` for HS256 with the default validation, at whatever second the machine's
/// clock shows, with nothing taken from the payload.
#[verifier::external_body]
pub(crate) fn check_token(token: &str, secret: &str) -> (r: Result<
    (),
    jsonwebtoken::errors::Error,
>)
    ensures
        exists|now: u64| #[trigger] accepted_at(token@, secret@, now) == (r is Ok),
{
    let key = jsonwebtoken::DecodingKey::from_secret(secret.as_bytes());
    let rules = jsonwebtoken::Validation::new(jsonwebtoken::Algorithm::HS256);
    jsonwebtoken::decode::<serde::de::IgnoredAny>(token, &key, &rules)?;
    Ok(())
}

/// `serde_json::from_str` into the members of an object, each as it is written, then
/// `serde_json::from_slice` and `from_str` on the two that are read. Every byte of the payload is
/// taken for one character first, and turned back in the subject, so that a member which is not read
/// may hold any bytes. What is no object has neither member.
#[verifier::external_body]
pub(crate) fn read_claims(payload: &[u8]) -> (r: DecodedClaims)
    ensures
        r.deep_view() == json_claims(payload@),
{
    let text: String = payload.iter().map(|byte| char::from(*byte)).collect();
    let found = serde_json::from_str::<BTreeMap<String, Box<RawValue>>>(&text);
    let members = found.unwrap_or_default();
    let written = members.get("sub").map(|raw| raw.get().chars().map(|c| c as u8));
    let sub = written.and_then(|bytes| serde_json::from_slice(&bytes.collect::<Vec<u8>>()).ok());
    let exp = members.get("exp").and_then(|raw| serde_json::from_str(raw.get()).ok());
    DecodedClaims { sub, exp }
}

/// The field name and the file name without its extension that a `Content-Disposition` header gives.
pub uninterp spec fn disposition_parts(header: Seq<char>) -> (Option<Seq<char>>, Option<Seq<char>>);

/// `content_disposition::parse_content_disposition`, with `name` and the first part of `filename`.
#[verifier::external_body]
pub(crate) fn read_disposition(header: &str) -> (r: (Option<String>, Option<String>))
    ensures
        (r.0.deep_view(), r.1.deep_view()) == disposition_parts(header@),
{
    let parsed = content_disposition::parse_content_disposition(header);
    (parsed.name(), parsed.filename().map(|parts| parts.0))
}

/// The media type that mime_guess gives for a file name.
pub uninterp spec fn media_type(file_name: Seq<char>) -> Seq<char>;

/// Whether `c` parts a path on some platform.
pub open spec fn parts_paths(c: char) -> bool {
    c == '/' || c == '\\' || c == ':'
}

/// Whether a file name starts as a path on a server does on some platform.
pub open spec fn starts_on_server(file_name: Seq<char>) -> bool {
    &&& file_name.len() >= 2
    &&& file_name[0] == '/' || file_name[0] == '\\'
    &&& file_name[1] == '/' || file_name[1] == '\\'
}

/// Whether a file name ends in a dot and an extension behind at least one character that is neither
/// a dot nor parts a path, with nothing that parts a path behind the dot.
pub open spec fn ends_in_extension(file_name: Seq<char>) -> bool {
    exists|dot: int|
        0 < dot < file_name.len() && #[trigger] file_name[dot] == '.' && file_name[dot - 1] != '.'
            && !parts_paths(file_name[dot - 1]) && (forall|i: int|
            dot < i < file_name.len() ==> #[trigger] file_name[i] != '.' && !parts_paths(
                file_name[i],
            ))
}

/// Whether every platform finds the same extension in a file name: there is no dot in it; or it does
/// not start as a path on a server does, and it either holds nothing that only some platforms part
/// paths with or plainly ends in an extension.
pub open spec fn portable_name(file_name: Seq<char>) -> bool {
    ||| !file_name.contains('.')
    ||| {
        &&& !starts_on_server(file_name)
        &&& {
            ||| !file_name.contains('\\') && !file_name.contains(':')
            ||| ends_in_extension(file_name)
        }
    }
}

/// `mime_guess::from_path` and `first_or` with `application/octet-stream`. The name is taken as a
/// path of the platform, and its extension decides; of a name in which platforms find different
/// extensions nothing is stated.
#[verifier::external_body]
pub(crate) fn guess_media_type(file_name: &str) -> (r: String)
    ensures
        portable_name(file_name@) ==> r@ == media_type(file_name@),
{
    mime_guess::from_path(file_name).first_or(mime::APPLICATION_OCTET_STREAM).to_string()
}

/// A text in lower case, as Unicode maps it.
pub uninterp spec fn lower_case(s: Seq<char>) -> Seq<char>;

/// `str::to_lowercase`.
#[verifier::external_body]
pub(crate) fn to_lower(s: &str) -> (r: String)
    ensures
        r@ == lower_case(s@),
{
    s.to_lowercase()
}

/// The text that bytes stand for in UTF-8, with a mark in the place of what is malformed.
pub uninterp spec fn lossy_text(bytes: Seq<u8>) -> Seq<char>;

/// `String::from_utf8_lossy`: well-formed bytes are decoded as they are.
#[verifier::external_body]
pub(crate) fn read_lossy(bytes: &[u8]) -> (r: String)
    ensures
        r@ == lossy_text(bytes@),
        valid_utf8(bytes@) ==> r@ == decode_utf8(bytes@),
{
    String::from_utf8_lossy(bytes).to_string()
}

} // verus!
