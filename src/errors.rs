use vstd::prelude::*;

verus! {

/// Every way a request can be turned away by the engine.
#[derive(PartialEq, Eq, Structural, Debug, Clone, Copy)]
pub enum AuthError {
    /// The personnel number is not a number.
    MalformedPersonnelNumber,
    /// The authorization header is not `Token <token>`.
    MalformedAuthorizationHeader,
    /// No user has the personnel number.
    UserNotFound,
    /// The password does not match, or the stored credentials are unreadable.
    InvalidCredentials,
    /// The password expired before today.
    PasswordExpired,
    /// The account is disabled.
    AccountDisabled,
    /// The employee was dismissed.
    AccountDismissed,
    /// The token is malformed or names no session.
    InvalidToken,
    /// The session was last authenticated more than twelve hours ago.
    SessionExpired,
    /// A protected route was reached without a valid session.
    Unauthenticated,
    /// A freshly drawn token is already in use.
    TokenCollision,
}

/// How an error is reported to the caller.
#[derive(PartialEq, Eq, Structural, Debug, Clone, Copy)]
pub enum ErrorKind {
    /// The request itself is malformed.
    BadRequest,
    /// The credentials or the account do not allow a login.
    AuthenticationFailure,
    /// The request carries no valid session.
    AuthorizationFailure,
    /// The engine could not complete the request.
    Internal,
}

impl AuthError {
    /// The category under which the error is reported.
    pub open spec fn spec_kind(self) -> ErrorKind {
        match self {
            AuthError::MalformedPersonnelNumber | AuthError::MalformedAuthorizationHeader =>
                ErrorKind::BadRequest,
            AuthError::UserNotFound | AuthError::InvalidCredentials | AuthError::PasswordExpired
            | AuthError::AccountDisabled | AuthError::AccountDismissed =>
                ErrorKind::AuthenticationFailure,
            AuthError::InvalidToken | AuthError::SessionExpired | AuthError::Unauthenticated =>
                ErrorKind::AuthorizationFailure,
            AuthError::TokenCollision => ErrorKind::Internal,
        }
    }

    /// The category under which the error is reported.
    pub fn kind(&self) -> (r: ErrorKind)
        ensures
            r == self.spec_kind(),
    {
        match self {
            AuthError::MalformedPersonnelNumber | AuthError::MalformedAuthorizationHeader =>
                ErrorKind::BadRequest,
            AuthError::UserNotFound | AuthError::InvalidCredentials | AuthError::PasswordExpired
            | AuthError::AccountDisabled | AuthError::AccountDismissed =>
                ErrorKind::AuthenticationFailure,
            AuthError::InvalidToken | AuthError::SessionExpired | AuthError::Unauthenticated =>
                ErrorKind::AuthorizationFailure,
            AuthError::TokenCollision => ErrorKind::Internal,
        }
    }
}

} // verus!
