//! Password hashing and verification with Argon2id.
//!
//! [`hash_password`] runs once at registration, [`verify_password`] on every
//! login.  The stored value is the self-describing PHC string that Argon2
//! produces (`$argon2id$v=19$m=…,t=…,p=…$<salt>$<hash>`).
use argon2::password_hash::rand_core::{OsRng, RngCore};
use argon2::password_hash::{PasswordHash, PasswordHasher, PasswordVerifier, SaltString};
use argon2::Argon2;
use vstd::prelude::*;

use crate::utils::errors::AuthError;
use crate::utils::text::utf8_len;

verus! {

/// The start of every PHC string that `Argon2::default()` produces: the
/// algorithm identifier and version 19.
pub open spec fn argon2id_phc_prefix() -> Seq<char> {
    "$argon2id$v=19$"@
}

/// Whether `password_hash::PasswordHash::new` accepts `s` as a PHC string.
pub uninterp spec fn phc_parses(s: Seq<char>) -> bool;

/// What `PasswordVerifier::verify_password` of `Argon2::default()` answers
/// for `password` against the hash that `PasswordHash::new` parses from
/// `phc`: `Some(true)` when it accepts, `Some(false)` when it rejects the
/// password (`Error::Password`), `None` when it fails with another error.
pub uninterp spec fn argon2_verdict(password: Seq<char>, phc: Seq<char>) -> Option<bool>;

/// The longest password, in bytes, that Argon2 hashes (`argon2::MAX_PWD_LEN`).
pub const MAX_PASSWORD_BYTES: u64 = 0xFFFF_FFFF;

/// Argon2 gives an answer, match or mismatch, for every password checked
/// against `h`, and a mismatch for one longer than it hashes.
pub open spec fn answers_every_password(h: Seq<char>) -> bool {
    forall|q: Seq<char>|
        #![trigger argon2_verdict(q, h)]
        argon2_verdict(q, h) is Some && (utf8_len(q) > MAX_PASSWORD_BYTES ==> argon2_verdict(q, h)
            == Some(false))
}

/// Sixteen bytes from the operating system's RNG (`RngCore::fill_bytes` on
/// `OsRng`), the recommended salt length of `password_hash`.  Nothing is
/// stated of their value.
#[verifier::external_body]
fn fresh_salt() -> [u8; 16] {
    let mut bytes = [0u8; 16];
    OsRng.fill_bytes(&mut bytes);
    bytes
}

/// `PasswordHasher::hash_password` of `Argon2::default()` (Argon2id, version
/// 19, default parameters), with the salt bytes in the B64 form
/// (`SaltString::encode_b64`) it takes, rendered as a PHC string; an error
/// rendered with its `Display`.  The source fails only on a password longer
/// than `MAX_PWD_LEN` bytes or a salt outside 8..=`MAX_SALT_LEN` bytes, and
/// the salt here has 16.  The string starts with the algorithm and version
/// fields, as `PasswordHash`'s `Display` writes them, and it is a PHC string
/// against which verification recomputes the hash with the parameters and
/// salt it records: the same password matches, every password within the
/// limit gets a match or a mismatch, and a longer one a mismatch (argon2
/// turns `PwdTooLong` into `Error::Password`).  Which string comes out
/// beyond that, and what an error says, are not stated.
#[verifier::external_body]
fn argon2id_hash(plaintext: &str, salt: &[u8; 16]) -> (r: Result<String, String>)
    ensures
        (r is Ok) == (utf8_len(plaintext@) <= MAX_PASSWORD_BYTES),
        r matches Ok(h) ==> argon2id_phc_prefix().is_prefix_of(h@) && phc_parses(h@) && argon2_verdict(
            plaintext@,
            h@,
        ) == Some(true) && answers_every_password(h@),
{
    let salt = SaltString::encode_b64(salt).map_err(|e| e.to_string())?;
    Argon2::default().hash_password(plaintext.as_bytes(), &salt).map(|h| h.to_string()).map_err(
        |e| e.to_string(),
    )
}

/// The outcome of checking a password against a stored hash.
enum PasswordCheck {
    /// The stored value is not a PHC string; the parse error's message.
    Malformed(String),
    /// The password matches.
    Matches,
    /// The password does not match.
    Mismatch,
    /// Verification failed otherwise; the error's message.
    Failed(String),
}

/// `PasswordVerifier::verify_password` of `Argon2::default()`, after
/// `PasswordHash::new` turns the stored string into the hash it takes.  The
/// source rejects an empty string and one whose first character is not `$`
/// as a PHC string, and never accepts a password longer than Argon2
/// hashes: recomputing the hash fails for it.  Errors are rendered with
/// their `Display`; what they say is not stated.
#[verifier::external_body]
fn argon2id_verify(plaintext: &str, stored: &str) -> (r: PasswordCheck)
    ensures
        utf8_len(plaintext@) > MAX_PASSWORD_BYTES ==> !(r is Matches),
        (r is Malformed) == !phc_parses(stored@),
        phc_parses(stored@) ==> match argon2_verdict(plaintext@, stored@) {
            Some(true) => r is Matches,
            Some(false) => r is Mismatch,
            None => r is Failed,
        },
        stored@.len() == 0 || stored@[0] != '$' ==> r is Malformed,
{
    let parsed = match PasswordHash::new(stored) {
        Ok(p) => p,
        Err(e) => return PasswordCheck::Malformed(e.to_string()),
    };
    match Argon2::default().verify_password(plaintext.as_bytes(), &parsed) {
        Ok(()) => PasswordCheck::Matches,
        Err(argon2::password_hash::Error::Password) => PasswordCheck::Mismatch,
        Err(e) => PasswordCheck::Failed(e.to_string()),
    }
}

/// `h` is an Argon2id PHC string (version 19) that `password` verifies
/// against, and that answers every password, refusing those longer than
/// Argon2 hashes.
pub open spec fn is_argon2id_hash_of(password: Seq<char>, h: Seq<char>) -> bool {
    &&& argon2id_phc_prefix().is_prefix_of(h)
    &&& phc_parses(h)
    &&& argon2_verdict(password, h) == Some(true)
    &&& answers_every_password(h)
}

/// What `verify_password` answers: `Some(b)` for `Ok(b)`, `None` for an
/// error.
pub open spec fn verify_answer(password: Seq<char>, stored: Seq<char>) -> Option<bool> {
    if phc_parses(stored) {
        argon2_verdict(password, stored)
    } else {
        None
    }
}

/// `stored` is a PHC string and `password` matches it.
pub open spec fn verifies(password: Seq<char>, stored: Seq<char>) -> bool {
    phc_parses(stored) && argon2_verdict(password, stored) == Some(true)
}

/// Hash a plaintext password with Argon2id and a fresh random salt.
///
/// Each call draws its own salt.  Succeeds for every password of at most
/// `MAX_PASSWORD_BYTES` bytes; a longer one fails with
/// `AuthError::HashingError`.
pub fn hash_password(plaintext: &str) -> (r: Result<String, AuthError>)
    ensures
        (r is Ok) == (utf8_len(plaintext@) <= MAX_PASSWORD_BYTES),
        match r {
            Ok(h) => is_argon2id_hash_of(plaintext@, h@),
            Err(e) => e is HashingError,
        },
{
    let salt = fresh_salt();
    match argon2id_hash(plaintext, &salt) {
        Ok(h) => Ok(h),
        Err(msg) => Err(AuthError::HashingError(msg)),
    }
}

/// The error a malformed stored hash is reported with.
pub open spec fn is_malformed_hash_error(e: AuthError) -> bool {
    match e {
        AuthError::HashingError(m) => "malformed hash in database: "@.is_prefix_of(m@),
        _ => false,
    }
}

/// Verify a plaintext password against a stored Argon2 hash.
///
/// `Ok(true)` when the password matches, `Ok(false)` when it does not, and
/// `AuthError::HashingError` when the stored value is not a valid PHC string
/// (message prefixed with `malformed hash in database: `) or verification
/// itself fails.
pub fn verify_password(plaintext: &str, stored_hash: &str) -> (r: Result<bool, AuthError>)
    ensures
        match verify_answer(plaintext@, stored_hash@) {
            Some(b) => r == Ok::<bool, AuthError>(b),
            None => r matches Err(e) && e is HashingError,
        },
        !phc_parses(stored_hash@) ==> (r is Err && is_malformed_hash_error(r->Err_0)),
        (r == Ok::<bool, AuthError>(true)) == verifies(plaintext@, stored_hash@),
        utf8_len(plaintext@) > MAX_PASSWORD_BYTES ==> r != Ok::<bool, AuthError>(true),
{
    match argon2id_verify(plaintext, stored_hash) {
        PasswordCheck::Malformed(msg) => {
            let mut m = String::from_str("malformed hash in database: ");
            m.append(msg.as_str());
            Err(AuthError::HashingError(m))
        },
        PasswordCheck::Matches => Ok(true),
        PasswordCheck::Mismatch => Ok(false),
        PasswordCheck::Failed(msg) => Err(AuthError::HashingError(msg)),
    }
}

/// A hash that `hash_password` returns for a password verifies that
/// password, so storing the hash is all a later login needs; checking any
/// other password against it gives an answer, never an error, and a
/// password longer than Argon2 hashes is refused.
pub proof fn stored_hash_verifies(password: Seq<char>, h: Seq<char>)
    requires
        is_argon2id_hash_of(password, h),
    ensures
        verifies(password, h),
        verify_answer(password, h) == Some(true),
        forall|q: Seq<char>| #[trigger] verify_answer(q, h) is Some,
        forall|q: Seq<char>| utf8_len(q) > MAX_PASSWORD_BYTES ==> #[trigger] verify_answer(q, h) == Some(false),
{
    assert forall|q: Seq<char>| #[trigger] verify_answer(q, h) is Some by {
        assert(argon2_verdict(q, h) is Some);
    }
    assert forall|q: Seq<char>| utf8_len(q) > MAX_PASSWORD_BYTES implies #[trigger] verify_answer(q, h) == Some(false) by {
        assert(argon2_verdict(q, h) == Some(false));
    }
}

} // verus!
