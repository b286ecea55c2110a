//! Credential validation: store records, the error taxonomy, and the
//! password verifier backed by Argon2.

use argon2::PasswordVerifier;
use vstd::prelude::*;

verus! {

use crate::secret::SecretString;

/// A username / password pair extracted from a request.
pub struct Credentials {
    pub username: String,
    pub password: SecretString,
}

/// The stored identity and password hash for one username. The store keeps
/// at most one record per username.
pub struct StoredCredentialRecord {
    pub user_id: u128,
    pub password_hash: SecretString,
}

/// An opaque store failure: the lookup itself could not be performed.
/// "Not found" is an empty result, never this error.
pub struct StoreUnavailable {
    pub context: String,
}

/// Why credential validation failed.
#[derive(Debug)]
pub enum AuthError {
    /// Unknown username or wrong password; callers never learn which.
    InvalidCredentials(String),
    /// Store failure, hash-parse failure, or worker-dispatch failure.
    UnexpectedError(String),
}

pub const STATUS_OK: u16 = 200;

pub const STATUS_UNAUTHORIZED: u16 = 401;

pub const STATUS_INTERNAL_SERVER_ERROR: u16 = 500;

/// The parts of the HTTP response an error maps to; the shell turns them
/// into an actual response.
pub struct ResponseParts {
    pub status: u16,
    pub www_authenticate: Option<String>,
}

impl AuthError {
    /// The status code each failure kind maps to: a uniform 401 for bad
    /// credentials, 500 for everything unexpected.
    pub fn status_code(&self) -> (status: u16)
        ensures
            self is InvalidCredentials ==> status == STATUS_UNAUTHORIZED,
            self is UnexpectedError ==> status == STATUS_INTERNAL_SERVER_ERROR,
    {
        match self {
            AuthError::InvalidCredentials(_) => STATUS_UNAUTHORIZED,
            AuthError::UnexpectedError(_) => STATUS_INTERNAL_SERVER_ERROR,
        }
    }

    /// The full response mapping: 401 carries the `WWW-Authenticate`
    /// challenge for the publish realm, 500 carries no extra header.
    pub fn error_response(&self) -> (r: ResponseParts)
        ensures
            self is InvalidCredentials ==> r.status == STATUS_UNAUTHORIZED && (r.www_authenticate
                matches Some(h) && h@ == "Basic realm=\"publish\""@),
            self is UnexpectedError ==> r.status == STATUS_INTERNAL_SERVER_ERROR
                && r.www_authenticate is None,
    {
        match self {
            AuthError::InvalidCredentials(_) => ResponseParts {
                status: STATUS_UNAUTHORIZED,
                www_authenticate: Some("Basic realm=\"publish\"".to_owned()),
            },
            AuthError::UnexpectedError(_) => ResponseParts {
                status: STATUS_INTERNAL_SERVER_ERROR,
                www_authenticate: None,
            },
        }
    }
}

/// Whether `argon2::PasswordHash::new` accepts the string as a PHC-format
/// password hash.
pub uninterp spec fn phc_hash_parses(hash: Seq<char>) -> bool;

/// Whether Argon2 verification of the candidate against the stored hash
/// succeeds; a function of the two strings alone (the parameters and salt
/// are embedded in the hash).
pub uninterp spec fn argon2_matches(hash: Seq<char>, password: Seq<char>) -> bool;

/// Outcome of one password-hash check.
enum HashCheck {
    Match,
    Mismatch,
    BadHash,
}

/// Relies on `argon2::PasswordHash::new` to parse the stored hash and on
/// `Argon2::default().verify_password` (the crate's `PasswordVerifier` impl)
/// to recompute the hash over the candidate and compare in constant time.
/// Both are functions of their arguments alone.
#[verifier::external_body]
fn argon2_check(expected_hash: &str, candidate: &str) -> (r: HashCheck)
    ensures
        r is BadHash <==> !phc_hash_parses(expected_hash@),
        phc_hash_parses(expected_hash@) ==> ((r is Match) <==> argon2_matches(
            expected_hash@,
            candidate@,
        )),
{
    match argon2::PasswordHash::new(expected_hash) {
        Ok(parsed) => match argon2::Argon2::default().verify_password(
            candidate.as_bytes(),
            &parsed,
        ) {
            Ok(()) => HashCheck::Match,
            Err(_) => HashCheck::Mismatch,
        },
        Err(_) => HashCheck::BadHash,
    }
}

/// Check a candidate password against a stored hash.
///
/// A hash that does not parse is an unexpected error, never a credential
/// failure; a parse success with a wrong password is `InvalidCredentials`.
/// This computation is deliberately expensive: the shell runs it on a
/// blocking worker, off the request-serving path.
pub fn verify_password_hash(
    expected_password_hash: SecretString,
    password_candidate: SecretString,
) -> (r: Result<(), AuthError>)
    ensures
        r is Ok <==> phc_hash_parses(expected_password_hash@) && argon2_matches(
            expected_password_hash@,
            password_candidate@,
        ),
        !phc_hash_parses(expected_password_hash@) ==> (r matches Err(e) && e matches
            AuthError::UnexpectedError(m) && m@ == "Failed to parse password hash."@),
        phc_hash_parses(expected_password_hash@) && !argon2_matches(
            expected_password_hash@,
            password_candidate@,
        ) ==> (r matches Err(e) && e matches AuthError::InvalidCredentials(m) && m@
            == "Invalid password."@),
{
    match argon2_check(expected_password_hash.expose_secret(), password_candidate.expose_secret()) {
        HashCheck::Match => Ok(()),
        HashCheck::Mismatch => Err(
            AuthError::InvalidCredentials("Invalid password.".to_owned()),
        ),
        HashCheck::BadHash => Err(
            AuthError::UnexpectedError("Failed to parse password hash.".to_owned()),
        ),
    }
}

/// Validate credentials against the outcome of the store lookup for
/// `credentials.username`.
///
/// The `user_id` comes back only when the username was found and the stored
/// hash matched the candidate. A missing user and a wrong password both map
/// to `InvalidCredentials`; a store failure or an unparsable stored hash is
/// `UnexpectedError`. On the missing-user branch one fallback verification is
/// still performed, for uniform timing.
pub fn validate_credentials(
    credentials: Credentials,
    lookup: Result<Option<StoredCredentialRecord>, StoreUnavailable>,
) -> (r: Result<u128, AuthError>)
    ensures
        lookup is Err ==> (r matches Err(e) && e matches AuthError::UnexpectedError(m) && m@
            == "Failed to perform a query to validate auth credentials."@),
        (lookup matches Ok(None)) ==> (r matches Err(e) && e matches AuthError::InvalidCredentials(
            m,
        ) && m@ == "Invalid username."@),
        lookup matches Ok(Some(rec)) ==> ((r == Ok::<u128, AuthError>(rec.user_id)) <==> (
        phc_hash_parses(rec.password_hash@) && argon2_matches(
            rec.password_hash@,
            credentials.password@,
        ))),
        r is Ok ==> lookup matches Ok(Some(_)),
        lookup matches Ok(Some(rec)) && !phc_hash_parses(rec.password_hash@) ==> (r matches Err(e)
            && e is UnexpectedError),
        lookup matches Ok(Some(rec)) && phc_hash_parses(rec.password_hash@) && !argon2_matches(
            rec.password_hash@,
            credentials.password@,
        ) ==> (r matches Err(e) && e is InvalidCredentials),
{
    match lookup {
        Err(_) => Err(
            AuthError::UnexpectedError(
                "Failed to perform a query to validate auth credentials.".to_owned(),
            ),
        ),
        Ok(Some(record)) => match verify_password_hash(record.password_hash, credentials.password) {
            Ok(()) => Ok(record.user_id),
            Err(e) => Err(e),
        },
        Ok(None) => {
            // A valid PHC hash of a phony password: the unknown-username
            // branch still pays for one full verification, so it cannot be
            // told from the wrong-password branch by timing.
            let fallback = SecretString::new(
                "$argon2id$v=19$m=15000,t=2,p=1$gZiV/M1gPc22ElAH/Jh1Hw$CWOrkoo7oJBQ/iyh7uJ0LO2aLEfrHwTWllSAxT0zRno".to_owned(),
            );
            let _ = verify_password_hash(fallback, credentials.password);
            Err(AuthError::InvalidCredentials("Invalid username.".to_owned()))
        },
    }
}

} // verus!
