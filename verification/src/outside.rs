//! The calls into std and outside crates that the service's rules rely on, each
//! with the contract that the called code's source or documentation shows.
use vstd::prelude::*;

use argon2::password_hash::rand_core::OsRng;
use argon2::password_hash::{PasswordHasher, Salt, SaltString};

use crate::smtp::Recipient;
use rand::distributions::{Alphanumeric, DistString};

verus! {

/// `String::push` from std: appends one character.
#[verifier::external_body]
pub(crate) fn push_char(s: &mut String, c: char)
    ensures
        final(s)@ == old(s)@.push(c),
{
    s.push(c)
}

/// The error type of the `password-hash` crate, which `argon2` reports.
#[verifier::external_type_specification]
#[verifier::external_body]
pub struct ExPasswordHashError(argon2::password_hash::Error);

/// `$argon2id$v=19$m=19456,t=2,p=1$`: how a PHC string made by the default Argon2
/// context starts (its algorithm, version, memory, time and lanes).
pub open spec fn argon2id_default_prefix() -> Seq<char> {
    seq![
        '$', 'a', 'r', 'g', 'o', 'n', '2', 'i', 'd', '$', 'v', '=', '1', '9', '$', 'm', '=',
        '1', '9', '4', '5', '6', ',', 't', '=', '2', ',', 'p', '=', '1', '$',
    ]
}

/// The number of characters of a 32-byte Argon2 output in unpadded Base64.
pub open spec fn argon2_digest_len() -> nat {
    43
}

/// `s` is a PHC string of the default Argon2 context for `salt`: the prefix with
/// the algorithm and parameters, the salt, a `$`, and a 43-character digest.
pub open spec fn is_default_argon2id_phc(s: Seq<char>, salt: Seq<char>) -> bool {
    let p: int = argon2id_default_prefix().len() as int;
    &&& s.len() == p + salt.len() + 1 + argon2_digest_len()
    &&& s.take(p) == argon2id_default_prefix()
    &&& s.subrange(p, p + salt.len()) == salt
    &&& s[p + salt.len()] == '$'
}

/// A salt as `SaltString::generate` draws it: 16 random bytes in standard Base64
/// without padding, so 22 characters from `A-Z`, `a-z`, `0-9`, `+` and `/`.
pub open spec fn is_salt(salt: Seq<char>) -> bool {
    &&& salt.len() == 22
    &&& forall|i: int|
        0 <= i < salt.len() ==> is_ascii_alnum(#[trigger] salt[i]) || salt[i] == '+' || salt[i]
            == '/'
}

/// `SaltString::generate(&mut OsRng)` from `password-hash`, as text: sixteen bytes
/// from the operating system's random source, Base64-encoded without padding.
/// Which salt comes out is random.
#[verifier::external_body]
pub(crate) fn random_salt() -> (salt: String)
    ensures
        is_salt(salt@),
{
    SaltString::generate(&mut OsRng).as_str().to_string()
}

/// The PHC string that `Argon2::default().hash_password` makes of a password
/// with a given Base64 salt, or `None` when it reports an error. The default
/// context (Argon2id, version 19, default parameters, no secret) is
/// deterministic, so this depends on the password and the salt alone.
pub uninterp spec fn argon2id_phc(password: Seq<char>, salt: Seq<char>) -> Option<Seq<char>>;

/// `Argon2::default().hash_password(password.as_bytes(), Salt::from_b64(salt)?)`,
/// rendered by `PasswordHash`'s `Display`. Its result is named `argon2id_phc`.
/// The source also fixes its shape: `$argon2id` (the default algorithm), `$v=19`
/// (the default version), `$m=19456,t=2,p=1` (the default parameters, no key id
/// or data), `$` and the salt as given, `$` and the 32-byte default output in
/// unpadded Base64 (43 characters). The digest's characters are left unsaid.
#[verifier::external_body]
pub(crate) fn hash_password(password: &str, salt: &str) -> (hashed: Result<
    String,
    argon2::password_hash::Error,
>)
    ensures
        hashed is Err <==> argon2id_phc(password@, salt@) is None,
        hashed matches Ok(s) ==> argon2id_phc(password@, salt@) == Some(s@),
        hashed matches Ok(s) ==> is_default_argon2id_phc(s@, salt@),
{
    let salt = match Salt::from_b64(salt) {
        Ok(salt) => salt,
        Err(e) => return Err(e),
    };
    match argon2::Argon2::default().hash_password(password.as_bytes(), salt) {
        Ok(hash) => Ok(hash.to_string()),
        Err(e) => Err(e),
    }
}

/// The version nibble of a UUID held as a big-endian `u128` is 4 (random), and its
/// variant bits are `10` (RFC 4122).
pub open spec fn is_uuid_v4(id: u128) -> bool {
    (id >> 76u128) & 0xfu128 == 4u128 && (id >> 62u128) & 0x3u128 == 2u128
}

/// `uuid::Uuid::new_v4().as_u128()`: random bits, with the version and variant bits
/// set as the source masks them in.
#[verifier::external_body]
pub(crate) fn random_uuid() -> (id: u128)
    ensures
        is_uuid_v4(id),
{
    uuid::Uuid::new_v4().as_u128()
}

/// `chrono::Utc::now().timestamp_micros()`: the current time, in microseconds since
/// the Unix epoch. It depends on the clock, so nothing is stated of it.
#[verifier::external_body]
pub(crate) fn now_micros() -> (micros: i64) {
    chrono::Utc::now().timestamp_micros()
}

/// An ASCII letter or decimal digit, `[A-Za-z0-9]`.
pub open spec fn is_ascii_alnum(c: char) -> bool {
    ||| ('A' <= c && c <= 'Z')
    ||| ('a' <= c && c <= 'z')
    ||| ('0' <= c && c <= '9')
}

/// `Alphanumeric.sample_string(&mut rand::thread_rng(), len)`: `len` characters,
/// each drawn from `A-Z`, `a-z` and `0-9`, as the source's character set and its
/// `take(len)` show. Which characters come out is random.
#[verifier::external_body]
pub(crate) fn random_alphanumeric(len: usize) -> (s: String)
    ensures
        s@.len() == len,
        forall|i: int| 0 <= i < s@.len() ==> is_ascii_alnum(#[trigger] s@[i]),
{
    Alphanumeric.sample_string(&mut rand::thread_rng(), len)
}

/// `lettre`'s address error type.
#[verifier::external_type_specification]
#[verifier::external_body]
pub struct ExAddressError(lettre::address::AddressError);

/// The parts of the mailbox that `lettre` parses the text into (the display
/// name, when there is one, and the address), or `None` when the text does not
/// parse as a mailbox (`Name <user@domain>` or a bare address). The parse depends
/// on the text alone.
pub uninterp spec fn mailbox_parts(text: Seq<char>) -> Option<(Option<Seq<char>>, Seq<char>)>;

/// The text of an optional string.
pub open spec fn optional_view(name: Option<String>) -> Option<Seq<char>> {
    match name {
        Some(n) => Some(n@),
        None => None,
    }
}

/// `text.parse::<lettre::message::Mailbox>()`, its display name and its address
/// (rendered by `Address`'s `Display`, which writes the address as it was
/// parsed) handed out as plain strings. The parts are named `mailbox_parts`.
#[verifier::external_body]
pub(crate) fn parse_mailbox(text: &str) -> (mailbox: Result<Recipient, lettre::address::AddressError>)
    ensures
        mailbox is Ok <==> mailbox_parts(text@) is Some,
        mailbox matches Ok(m) ==> mailbox_parts(text@) == Some((optional_view(m.name), m.address@)),
{
    match text.parse::<lettre::message::Mailbox>() {
        Ok(m) => Ok(Recipient { name: m.name, address: m.email.to_string() }),
        Err(e) => Err(e),
    }
}

} // verus!
