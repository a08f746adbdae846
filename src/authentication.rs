use vstd::prelude::*;

verus! {

/// Whether a string parses as a password hash in the PHC string format.
pub uninterp spec fn phc_well_formed(hash: Seq<char>) -> bool;

/// Whether Argon2, run with the algorithm, version, parameters and salt that the
/// PHC string `hash` carries, gives back the hash output of that string for
/// `password`.
pub uninterp spec fn argon2_verifies(hash: Seq<char>, password: Seq<char>) -> bool;

/// Relies on password_hash::PasswordHash::new, which parses a PHC string, and on
/// argon2's PasswordVerifier::verify_password, which hashes the candidate with the
/// parsed parameters and salt and compares the outputs. `None` when the string does
/// not parse; else whether the candidate matches.
#[verifier::external_body]
fn verify_password_hash(hash: &str, password: &str) -> (r: Option<bool>)
    ensures
        r is None <==> !phc_well_formed(hash@),
        r matches Some(ok) ==> ok == argon2_verifies(hash@, password@),
{
    match argon2::PasswordHash::new(hash) {
        Ok(parsed) => Some(
            argon2::PasswordVerifier::verify_password(
                &argon2::Argon2::default(),
                password.as_bytes(),
                &parsed,
            ).is_ok(),
        ),
        Err(_) => None,
    }
}

/// The identifier of an operator allowed to publish.
#[derive(Debug, Clone, Copy, PartialEq, Eq, Structural)]
pub struct UserId(pub u128);

/// A username and a password candidate, as presented.
pub struct Credentials {
    pub username: String,
    pub password: String,
}

/// The row stored for a username: its operator and salted password hash.
pub struct StoredCredentials {
    pub user_id: UserId,
    pub password_hash: String,
}

/// Why a credential check failed; each carries its cause, for the logs only.
#[derive(Debug)]
pub enum AuthError {
    InvalidCredentials(String),
    UnexpectedError(String),
}

/// A well-formed Argon2id hash that no stored user has: checked against when the
/// username is unknown, so that both failures cost the same.
pub const DUMMY_PASSWORD_HASH: &'static str = "$argon2id$v=19$m=15000,t=2,p=1$gZiV/M1gPc22ElAH/Jh1Hw$CWOrkoo7oJBQ/iyh7uJ0LO2aLEfrHwTWllSAxT0zRno";

/// How a credential check ends.
pub enum AuthOutcome {
    Accepted(UserId),
    Rejected,
    Unexpected,
}

/// The outcome of checking `password` against what the store holds for the username
/// (`None`: unknown username). An unknown username is always rejected; a stored
/// hash that does not parse is an unexpected failure.
pub open spec fn auth_outcome(stored: Option<StoredCredentials>, password: Seq<char>) -> AuthOutcome {
    match stored {
        None => AuthOutcome::Rejected,
        Some(c) => if !phc_well_formed(c.password_hash@) {
            AuthOutcome::Unexpected
        } else if argon2_verifies(c.password_hash@, password) {
            AuthOutcome::Accepted(c.user_id)
        } else {
            AuthOutcome::Rejected
        },
    }
}

/// The result of a credential check agrees with `outcome`.
pub open spec fn auth_result_is(r: Result<UserId, AuthError>, outcome: AuthOutcome) -> bool {
    match outcome {
        AuthOutcome::Accepted(id) => r == Ok::<UserId, AuthError>(id),
        AuthOutcome::Rejected => r matches Err(AuthError::InvalidCredentials(_)),
        AuthOutcome::Unexpected => r matches Err(AuthError::UnexpectedError(_)),
    }
}

/// Checks a password candidate against the stored hash of its username, or against
/// `DUMMY_PASSWORD_HASH` when the username is unknown, so that an unknown username
/// and a wrong password take the same work and give the same error. The work is
/// CPU- and memory-heavy: callers run it away from request handling.
pub fn validate_credentials(stored: Option<StoredCredentials>, password: &str) -> (r: Result<
    UserId,
    AuthError,
>)
    ensures
        auth_result_is(r, auth_outcome(stored, password@)),
{
    match stored {
        None => {
            let _ = verify_password_hash(DUMMY_PASSWORD_HASH, password);
            Err(AuthError::InvalidCredentials(String::from_str("Unknown username.")))
        },
        Some(c) => match verify_password_hash(c.password_hash.as_str(), password) {
            None => Err(
                AuthError::UnexpectedError(String::from_str("Failed to parse hash in PHC string format.")),
            ),
            Some(true) => Ok(c.user_id),
            Some(false) => Err(AuthError::InvalidCredentials(String::from_str("Invalid password."))),
        },
    }
}

} // verus!
