//! The password policy, and hashing and checking of passwords with Argon2id.

use argon2::password_hash::SaltString;
use vstd::prelude::*;
use vstd::utf8::encode_utf8;
use crate::error::{ApiError, ApiErrorKind};
use crate::decimal::is_digit;
use crate::text::chars_of;

verus! {

/// Least number of bytes in a password.
pub const MIN_PASSWORD_LENGTH: usize = 8;

/// Greatest number of bytes in a password.
pub const MAX_PASSWORD_LENGTH: usize = 128;

/// A salt of the `password-hash` crate. Opaque here.
#[verifier::external_type_specification]
#[verifier::external_body]
pub struct ExSaltString(argon2::password_hash::SaltString);

/// The error of the `password-hash` crate. Opaque here.
#[verifier::external_type_specification]
#[verifier::external_body]
pub struct ExPasswordHashError(argon2::password_hash::Error);

/// Whether a character has the Unicode property `Alphabetic`, as
/// `char::is_alphabetic` decides it.
pub uninterp spec fn is_alphabetic(c: char) -> bool;

/// What checking a password against a stored hash comes to.
#[derive(Debug, Clone, Copy, PartialEq, Eq, Structural)]
pub enum PasswordCheck {
    /// The password is the one that was hashed.
    Match,
    /// The hash is well formed, and of another password.
    Mismatch,
    /// The stored hash cannot be read or checked.
    Failed,
}

/// What Argon2 finds when it checks `password` against the stored `hash`.
pub uninterp spec fn password_check(password: Seq<char>, hash: Seq<char>) -> PasswordCheck;

/// The ways in which a password can fall short of the policy.
#[derive(Debug, Clone, Copy, PartialEq, Eq, Structural)]
pub enum PasswordFault {
    TooShort,
    TooLong,
    MissingLetterOrDigit,
}

/// Whether some character of `s` is alphabetic.
pub open spec fn has_letter(s: Seq<char>) -> bool {
    exists|i: int| 0 <= i < s.len() && is_alphabetic(#[trigger] s[i])
}

/// Whether some character of `s` is one of the digits `0` to `9`.
pub open spec fn has_digit(s: Seq<char>) -> bool {
    exists|i: int| 0 <= i < s.len() && is_digit(#[trigger] s[i])
}

/// The policy: eight to 128 bytes of UTF-8, with at least one letter and at
/// least one digit. Gives the first fault, or `None` for a good password.
pub open spec fn password_fault(s: Seq<char>) -> Option<PasswordFault> {
    let n = encode_utf8(s).len();
    if n < 8 {
        Some(PasswordFault::TooShort)
    } else if n > 128 {
        Some(PasswordFault::TooLong)
    } else if !has_letter(s) || !has_digit(s) {
        Some(PasswordFault::MissingLetterOrDigit)
    } else {
        None
    }
}

/// The message that tells a client of a fault.
pub open spec fn fault_message(fault: PasswordFault) -> Seq<char> {
    match fault {
        PasswordFault::TooShort => "Password must be at least 8 characters"@,
        PasswordFault::TooLong => "Password must be at most 128 characters"@,
        PasswordFault::MissingLetterOrDigit => "Password must contain at least one letter and one number"@,
    }
}

/// Calls `char::is_alphabetic`. Trusted: the result is the Unicode property.
#[verifier::external_body]
fn char_is_alphabetic(c: char) -> (r: bool)
    ensures
        r == is_alphabetic(c),
{
    c.is_alphabetic()
}

/// Calls `SaltString::generate` with the operating system's random number
/// generator. Trusted: nothing is claimed of the salt.
#[verifier::external_body]
fn fresh_salt() -> (salt: SaltString) {
    SaltString::generate(&mut argon2::password_hash::rand_core::OsRng)
}

/// Calls `Argon2::hash_password` with the default parameters and writes the
/// hash as a PHC string. Trusted: a hash that comes back is one that the
/// same password checks against.
#[verifier::external_body]
fn argon2_hash(password: &str, salt: &SaltString) -> (r: Result<
    String,
    argon2::password_hash::Error,
>)
    ensures
        r matches Ok(hash) ==> password_check(password@, hash@) == PasswordCheck::Match,
{
    argon2::PasswordHasher::hash_password(&argon2::Argon2::default(), password.as_bytes(), salt)
        .map(|h| h.to_string())
}

/// Calls `PasswordHash::new` and `Argon2::verify_password`. Trusted: the
/// result is what Argon2 finds, where a hash that cannot be parsed and any
/// error other than a wrong password count as failed.
#[verifier::external_body]
fn argon2_verify(password: &str, hash: &str) -> (r: PasswordCheck)
    ensures
        r == password_check(password@, hash@),
{
    let parsed = argon2::PasswordHash::new(hash);
    match parsed.and_then(
        |p| argon2::PasswordVerifier::verify_password(&argon2::Argon2::default(), password.as_bytes(), &p),
    ) {
        Ok(()) => PasswordCheck::Match,
        Err(argon2::password_hash::Error::Password) => PasswordCheck::Mismatch,
        Err(_) => PasswordCheck::Failed,
    }
}

/// Finds the first fault of a password, if it has one.
pub fn check_password_policy(password: &str) -> (fault: Option<PasswordFault>)
    ensures
        fault == password_fault(password@),
{
    let byte_len = password.as_bytes().len();
    if byte_len < MIN_PASSWORD_LENGTH {
        return Some(PasswordFault::TooShort);
    }
    if byte_len > MAX_PASSWORD_LENGTH {
        return Some(PasswordFault::TooLong);
    }
    let s = chars_of(password);
    let mut letter = false;
    let mut digit = false;
    let mut i: usize = 0;
    while i < s.len()
        invariant
            i <= s.len(),
            letter == has_letter(s@.take(i as int)),
            digit == has_digit(s@.take(i as int)),
        decreases s.len() - i,
    {
        let c = s[i];
        let is_letter = char_is_alphabetic(c);
        let is_number = '0' <= c && c <= '9';
        proof {
            let before = s@.take(i as int);
            let after = s@.take(i + 1);
            assert(after =~= before.push(c));
            assert(forall|j: int| 0 <= j < before.len() ==> before[j] == after[j]);
            if has_letter(before) || is_letter {
                if has_letter(before) {
                    let j = choose|j: int| 0 <= j < before.len() && is_alphabetic(#[trigger] before[j]);
                    assert(is_alphabetic(after[j]));
                } else {
                    assert(is_alphabetic(after[i as int]));
                }
            }
            if has_digit(before) || is_number {
                if has_digit(before) {
                    let j = choose|j: int| 0 <= j < before.len() && is_digit(#[trigger] before[j]);
                    assert(is_digit(after[j]));
                } else {
                    assert(is_digit(after[i as int]));
                }
            }
        }
        letter = letter || is_letter;
        digit = digit || is_number;
        i += 1;
    }
    assert(s@.take(i as int) =~= s@);
    if !letter || !digit {
        Some(PasswordFault::MissingLetterOrDigit)
    } else {
        None
    }
}

/// Holds a password to the policy, and says what is wrong with one that
/// falls short.
pub fn validate_password_strength(password: &str) -> (r: Result<(), ApiError>)
    ensures
        password_fault(password@) is None <==> r is Ok,
        password_fault(password@) matches Some(fault) ==> r is Err && r->Err_0.has(
            ApiErrorKind::BadRequest,
            fault_message(fault),
        ),
{
    match check_password_policy(password) {
        None => Ok(()),
        Some(PasswordFault::TooShort) => Err(
            ApiError::BadRequest("Password must be at least 8 characters".to_owned()),
        ),
        Some(PasswordFault::TooLong) => Err(
            ApiError::BadRequest("Password must be at most 128 characters".to_owned()),
        ),
        Some(PasswordFault::MissingLetterOrDigit) => Err(
            ApiError::BadRequest(
                "Password must contain at least one letter and one number".to_owned(),
            ),
        ),
    }
}

/// What a client is told when the hashing backend fails.
fn hashing_failure(error: &argon2::password_hash::Error) -> (r: ApiError)
    ensures
        r.has(ApiErrorKind::InternalError, "Password hashing failed"@),
{
    ApiError::InternalError("Password hashing failed".to_owned())
}

/// Hashes a password with Argon2id under a fresh random salt, after holding
/// it to the policy. A password that breaks the policy is never hashed.
pub fn hash_password(password: &str) -> (r: Result<String, ApiError>)
    ensures
        password_fault(password@) matches Some(fault) ==> r is Err && r->Err_0.has(
            ApiErrorKind::BadRequest,
            fault_message(fault),
        ),
        password_fault(password@) is None && r is Err ==> r->Err_0.has(
            ApiErrorKind::InternalError,
            "Password hashing failed"@,
        ),
        r matches Ok(hash) ==> password_check(password@, hash@) == PasswordCheck::Match,
{
    match validate_password_strength(password) {
        Err(e) => Err(e),
        Ok(()) => {
            let salt = fresh_salt();
            match argon2_hash(password, &salt) {
                Ok(hash) => Ok(hash),
                Err(e) => Err(hashing_failure(&e)),
            }
        },
    }
}

/// The answer for each outcome of a check: a wrong password is an answer,
/// not an error; a stored hash that cannot be checked is an error.
pub open spec fn check_answer(check: PasswordCheck) -> Option<bool> {
    match check {
        PasswordCheck::Match => Some(true),
        PasswordCheck::Mismatch => Some(false),
        PasswordCheck::Failed => None,
    }
}

/// Turns the outcome of a check into the answer for the caller.
pub fn answer_of(check: PasswordCheck) -> (r: Result<bool, ApiError>)
    ensures
        match check_answer(check) {
            Some(b) => r == Ok::<bool, ApiError>(b),
            None => r is Err && r->Err_0.has(
                ApiErrorKind::InternalError,
                "Password verification failed"@,
            ),
        },
{
    match check {
        PasswordCheck::Match => Ok(true),
        PasswordCheck::Mismatch => Ok(false),
        PasswordCheck::Failed => Err(
            ApiError::InternalError("Password verification failed".to_owned()),
        ),
    }
}

/// A password checks against every hash that was made of it: where
/// `hash_password` returned `hash` for `password`, `verify_password` answers
/// `true` for the two.
pub proof fn lemma_hash_verifies(password: Seq<char>, hash: Seq<char>)
    requires
        password_check(password, hash) == PasswordCheck::Match,
    ensures
        check_answer(password_check(password, hash)) == Some(true),
{
}

/// Checks a password against a stored PHC string.
pub fn verify_password(password: &str, hash: &str) -> (r: Result<bool, ApiError>)
    ensures
        match check_answer(password_check(password@, hash@)) {
            Some(b) => r == Ok::<bool, ApiError>(b),
            None => r is Err && r->Err_0.has(
                ApiErrorKind::InternalError,
                "Password verification failed"@,
            ),
        },
{
    answer_of(argon2_verify(password, hash))
}

} // verus!
