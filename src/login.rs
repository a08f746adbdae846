use vstd::prelude::*;
use crate::authentication::{AuthError, UserId};

verus! {

/// Why a login failed; the cause is for the logs only.
#[derive(Debug)]
pub enum LoginError {
    AuthError(String),
    UnexpectedError(String),
}

pub open spec fn login_error_of(e: AuthError) -> LoginError {
    match e {
        AuthError::InvalidCredentials(c) => LoginError::AuthError(c),
        AuthError::UnexpectedError(c) => LoginError::UnexpectedError(c),
    }
}

pub open spec fn login_status(e: LoginError) -> u16 {
    match e {
        LoginError::AuthError(_) => 401,
        LoginError::UnexpectedError(_) => 500,
    }
}

pub open spec fn login_message(e: LoginError) -> Seq<char> {
    match e {
        LoginError::AuthError(_) => "Authentication failed"@,
        LoginError::UnexpectedError(_) => "Something went wrong"@,
    }
}

/// Where a successful login sends the browser.
pub open spec fn login_redirect() -> Seq<char> {
    "/"@
}

impl LoginError {
    /// A refused credential check becomes `AuthError`, any other failure
    /// `UnexpectedError`.
    pub fn from_auth(e: AuthError) -> (r: LoginError)
        ensures
            r == login_error_of(e),
    {
        match e {
            AuthError::InvalidCredentials(c) => LoginError::AuthError(c),
            AuthError::UnexpectedError(c) => LoginError::UnexpectedError(c),
        }
    }

    /// 401 for refused credentials, 500 otherwise.
    pub fn status_code(&self) -> (r: u16)
        ensures
            r == login_status(*self),
    {
        match self {
            LoginError::AuthError(_) => 401,
            LoginError::UnexpectedError(_) => 500,
        }
    }

    /// The message shown for the error.
    pub fn message(&self) -> (r: String)
        ensures
            r@ == login_message(*self),
    {
        match self {
            LoginError::AuthError(_) => String::from_str("Authentication failed"),
            LoginError::UnexpectedError(_) => String::from_str("Something went wrong"),
        }
    }

    /// The cause kept for the logs.
    pub fn source(&self) -> (r: &String)
        ensures
            (*self matches LoginError::AuthError(c) && r == c) || (*self matches LoginError::UnexpectedError(c) && r == c),
    {
        match self {
            LoginError::AuthError(c) => c,
            LoginError::UnexpectedError(c) => c,
        }
    }
}

/// The answer to a login once the credentials were checked: the location to
/// redirect to, or the login error.
pub fn login_outcome(checked: Result<UserId, AuthError>) -> (r: Result<String, LoginError>)
    ensures
        checked is Ok <==> r is Ok,
        r matches Ok(l) ==> l@ == login_redirect(),
        checked matches Err(e) ==> r == Err::<String, LoginError>(login_error_of(e)),
{
    match checked {
        Ok(_) => Ok(String::from_str("/")),
        Err(e) => Err(LoginError::from_auth(e)),
    }
}

} // verus!
