//! One-way hashing of secrets and their verification.
//!
//! A secret is hashed with Argon2 under a fresh random salt and stored as an
//! encoded string (see [`crate::phc`]). Verification reads such a string back,
//! hashes the candidate with the parameters and salt found in it, and
//! compares. The hashing itself is the work of the `argon2` crate; what this
//! module adds is the layout check in front of it, the typed errors, and the
//! contracts that tie `gen_hash` to `verify`.

use crate::phc::{has_layout, layout, lemma_layout_begins_with_separator, FIELD_SEPARATOR};
use argon2::password_hash::rand_core::OsRng;
use argon2::password_hash::{PasswordHash, PasswordHasher, PasswordVerifier, SaltString};
use argon2::Argon2;
use rand::distributions::{Alphanumeric, DistString};
use vstd::prelude::*;
use vstd::string::StringSliceAdditionalSpecFns;
use vstd::utf8::{
    char_is_scalar, char_u32_cast, encode_scalar, encode_utf8, has_width_1_encoding,
    has_width_2_encoding, has_width_3_encoding, is_ascii_chars, is_ascii_chars_encode_utf8,
};

verus! {

/// The error type of the `password_hash` traits that `argon2` implements.
#[verifier::external_type_specification]
#[verifier::external_body]
pub struct ExPasswordHashError(argon2::password_hash::Error);

/// The most bytes a secret may have: `argon2::MAX_PWD_LEN`.
pub const MAX_SECRET_BYTES: usize = 0xFFFF_FFFF;

/// The number of characters in a generated secret.
pub const SECRET_LENGTH: usize = 16;

/// A stored hash that cannot be read.
#[derive(Debug, Clone, Copy, PartialEq, Eq, Structural)]
pub enum MalformedHashError {
    /// The string is not laid out as `$id$v=..$params$salt$hash`.
    Layout,
    /// The layout is right, but the parser rejects what a field holds.
    Field,
}

/// The hasher rejected the secret.
#[derive(Debug, Clone, Copy, PartialEq, Eq, Structural)]
pub struct HashGenerationFailure;

/// Whether `PasswordHash::new` of the `password_hash` crate parses `stored`.
pub uninterp spec fn phc_parses(stored: Seq<char>) -> bool;

/// Whether `Argon2::default().verify_password` accepts the bytes of
/// `candidate` against the parsed form of `stored`. It has a meaning only
/// where `phc_parses(stored)`.
pub uninterp spec fn argon2_accepts(stored: Seq<char>, candidate: Seq<char>) -> bool;

/// A stored hash that `verify` can read.
pub open spec fn is_stored_hash(stored: Seq<char>) -> bool {
    layout(encode_utf8(stored)) && phc_parses(stored)
}

/// What verifying `candidate` against `stored` comes to.
pub open spec fn verify_outcome(stored: Seq<char>, candidate: Seq<char>) -> Result<
    bool,
    MalformedHashError,
> {
    if !layout(encode_utf8(stored)) {
        Err(MalformedHashError::Layout)
    } else if !phc_parses(stored) {
        Err(MalformedHashError::Field)
    } else {
        Ok(argon2_accepts(stored, candidate))
    }
}

/// Whether `candidate` is accepted against `stored`: the stored hash can be
/// read, and the candidate's hash equals it.
pub open spec fn verifies(stored: Seq<char>, candidate: Seq<char>) -> bool {
    verify_outcome(stored, candidate) == Ok::<bool, MalformedHashError>(true)
}

/// A letter or digit of ASCII.
pub open spec fn is_alphanumeric(c: char) -> bool {
    ||| '0' <= c <= '9'
    ||| 'A' <= c <= 'Z'
    ||| 'a' <= c <= 'z'
}

/// A string of `len` ASCII letters and digits.
pub open spec fn is_secret(s: Seq<char>, len: nat) -> bool {
    &&& s.len() == len
    &&& forall|i: int| 0 <= i < s.len() ==> is_alphanumeric(#[trigger] s[i])
}

/// Calls `PasswordHash::new` on `stored` and, where that parses, the
/// `verify_password` of `Argon2::default()` on the bytes of `candidate`.
/// The parsed hash borrows from `stored` and goes straight from the one to
/// the other.
///
/// Both are functions of their arguments alone. The outer result is the
/// parser's: `Err` exactly where it rejects `stored`. The inner result is the
/// verifier's: `Ok` exactly where the hash recomputed from `candidate` equals
/// the stored one. Nothing is claimed of the error values.
///
/// Argon2 works with the memory and the number of passes that `stored`
/// names. Neither path panics; a machine that cannot give the memory aborts
/// in the allocator, as on any allocation.
#[verifier::external_body]
fn parse_and_check(stored: &str, candidate: &str) -> (r: Result<
    Result<(), argon2::password_hash::Error>,
    argon2::password_hash::Error,
>)
    ensures
        r is Ok <==> phc_parses(stored@),
        r matches Ok(inner) ==> (inner is Ok <==> argon2_accepts(stored@, candidate@)),
{
    match PasswordHash::new(stored) {
        Ok(parsed) => Ok(Argon2::default().verify_password(candidate.as_bytes(), &parsed)),
        Err(e) => Err(e),
    }
}

/// Calls `SaltString::generate` on the operating system's random source,
/// then `hash_password` of `Argon2::default()` on the bytes of `secret`
/// with that salt, and encodes what it returns with `to_string`.
///
/// The salt is random, so the hash is no function of the secret, and two
/// calls on one secret differ. The salt never leaves this function, so what
/// follows is said of the salts of `generate` only. Of every outcome this is
/// assumed:
/// - With a salt of 16 bytes and the default parameters the only check in
///   `hash_password` that can fail is the one on the secret's length, against
///   `argon2::MAX_PWD_LEN`.
/// - The encoded hash has all five fields: `Argon2::default()` sets a
///   version, three parameters, the salt and a digest, and `Display` writes
///   each behind a `$`.
/// - `PasswordHash::new` reads that string back, and `verify_password`
///   accepts the same secret against it, as the crate's documentation shows.
///
/// Where the operating system gives no random bytes, `generate` panics.
#[verifier::external_body]
fn hash_with_fresh_salt(secret: &str) -> (r: Result<String, argon2::password_hash::Error>)
    ensures
        r is Ok <==> secret.spec_bytes().len() <= MAX_SECRET_BYTES,
        r matches Ok(h) ==> layout(encode_utf8(h@)),
        r matches Ok(h) ==> phc_parses(h@),
        r matches Ok(h) ==> argon2_accepts(h@, secret@),
{
    let salt = SaltString::generate(&mut OsRng);
    match Argon2::default().hash_password(secret.as_bytes(), &salt) {
        Ok(hash) => Ok(hash.to_string()),
        Err(e) => Err(e),
    }
}

/// Calls `sample_string` of `rand`'s `Alphanumeric` on the thread's random
/// generator. The string is random; it always has `len` characters, each one
/// of `A`-`Z`, `a`-`z`, `0`-`9`. No string is longer than `isize::MAX` bytes:
/// beyond that the reservation inside panics.
#[verifier::external_body]
fn sample_alphanumeric(len: usize) -> (s: String)
    requires
        len <= isize::MAX,
    ensures
        is_secret(s@, len as nat),
{
    Alphanumeric.sample_string(&mut rand::thread_rng(), len)
}

/// Generates a secret of `length` random letters and digits. The length is
/// one that a string can have.
pub fn generate_secret(length: usize) -> (secret: String)
    requires
        length <= isize::MAX,
    ensures
        is_secret(secret@, length as nat),
{
    sample_alphanumeric(length)
}

/// Reads what the parser and the verifier returned: a stored hash that did
/// not parse is malformed; one that parsed matches the candidate or does not.
pub fn verdict(
    checked: Result<Result<(), argon2::password_hash::Error>, argon2::password_hash::Error>,
) -> (r: Result<bool, MalformedHashError>)
    ensures
        checked is Err ==> r == Err::<bool, MalformedHashError>(MalformedHashError::Field),
        checked matches Ok(inner) ==> r == Ok::<bool, MalformedHashError>(inner is Ok),
{
    match checked {
        Err(_) => Err(MalformedHashError::Field),
        Ok(Ok(_)) => Ok(true),
        Ok(Err(_)) => Ok(false),
    }
}

/// Verifies `password` against the stored `password_hash`.
///
/// Returns `Ok(true)` where the hash of `password` under the parameters and
/// salt of `password_hash` equals the stored digest, `Ok(false)` where it does
/// not, and an error where `password_hash` is not an encoded hash.
pub fn verify(password_hash: &str, password: &str) -> (r: Result<bool, MalformedHashError>)
    ensures
        r == verify_outcome(password_hash@, password@),
{
    if !has_layout(password_hash.as_bytes()) {
        return Err(MalformedHashError::Layout);
    }
    verdict(parse_and_check(password_hash, password))
}

/// Reads what the hasher returned: the encoded hash, or a failure.
pub fn hashed(outcome: Result<String, argon2::password_hash::Error>) -> (r: Result<
    String,
    HashGenerationFailure,
>)
    ensures
        outcome is Err ==> r == Err::<String, HashGenerationFailure>(HashGenerationFailure),
        outcome matches Ok(h) ==> r == Ok::<String, HashGenerationFailure>(h),
{
    match outcome {
        Ok(h) => Ok(h),
        Err(_) => Err(HashGenerationFailure),
    }
}

/// Hashes `password` under a fresh random salt.
///
/// Fails only on a secret of more than `MAX_SECRET_BYTES` bytes. The hash
/// that comes back is one that `verify` reads and accepts `password` against.
pub fn gen_hash(password: &str) -> (r: Result<String, HashGenerationFailure>)
    ensures
        r is Ok <==> password.spec_bytes().len() <= MAX_SECRET_BYTES,
        r matches Ok(h) ==> verifies(h@, password@),
{
    hashed(hash_with_fresh_salt(password))
}

/// A secret of letters and digits is as many bytes long as it has characters.
pub proof fn lemma_secret_bytes(s: Seq<char>, len: nat)
    requires
        is_secret(s, len),
    ensures
        encode_utf8(s).len() == len,
{
    assert(is_ascii_chars(s)) by {
        assert forall|i: int| 0 <= i < s.len() implies '\0' <= #[trigger] s[i] <= '\u{7f}' by {
            assert(is_alphanumeric(s[i]));
        }
    }
    is_ascii_chars_encode_utf8(s);
}

/// The encoding of a string begins with `$` only where the string does.
pub proof fn lemma_leading_separator(s: Seq<char>)
    requires
        encode_utf8(s).len() > 0,
        encode_utf8(s)[0] == FIELD_SEPARATOR,
    ensures
        s.len() > 0,
        s[0] == '$',
{
    let c = s[0] as u32;
    char_is_scalar(s[0]);
    assert(encode_utf8(s)[0] == encode_scalar(c)[0]);
    if has_width_1_encoding(c) {
        assert(c == 0x24) by (bit_vector)
            requires
                c <= 0x7f,
                (c & 0x7f) as u8 == 0x24u8,
        ;
        char_u32_cast(s[0], c);
        char_u32_cast('$', c);
    } else if has_width_2_encoding(c) {
        assert(0xC0u8 | ((c >> 6) & 0x1F) as u8 != 0x24u8) by (bit_vector);
    } else if has_width_3_encoding(c) {
        assert(0xE0u8 | ((c >> 12) & 0x0F) as u8 != 0x24u8) by (bit_vector);
    } else {
        assert(0xF0u8 | ((c >> 18) & 0x7) as u8 != 0x24u8) by (bit_vector);
    }
}

/// Malformed input is an error: against a stored string that does not begin
/// with `$`, every candidate gives `MalformedHashError::Layout`.
pub proof fn lemma_no_leading_separator_is_malformed(stored: Seq<char>, candidate: Seq<char>)
    requires
        stored.len() == 0 || stored[0] != '$',
    ensures
        verify_outcome(stored, candidate) == Err::<bool, MalformedHashError>(
            MalformedHashError::Layout,
        ),
{
    let bytes = encode_utf8(stored);
    if layout(bytes) {
        lemma_layout_begins_with_separator(bytes);
        lemma_leading_separator(stored);
    }
}

/// A generated secret is never taken for a hash: it holds no `$`.
pub proof fn lemma_secret_is_no_hash(s: Seq<char>, len: nat)
    requires
        is_secret(s, len),
    ensures
        !is_stored_hash(s),
{
    if s.len() > 0 {
        assert(is_alphanumeric(s[0]));
    }
    lemma_no_leading_separator_is_malformed(s, s);
}

} // verus!
