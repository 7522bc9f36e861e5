//! Sessions: who is logged in, under which token, since when; and the two
//! request stages that read them.
pub mod auth_token;
pub mod authorization;
pub mod clock;
pub mod credentials;
pub mod personnel;
pub mod service;
pub mod table;
pub mod token;



pub use auth_token::{AuthTokenMiddleware, AuthTokenMiddlewareFactory};
pub use authorization::{Authorization, AuthorizationMiddleware};
pub use service::Identity;

use vstd::prelude::*;
use crate::domain::{copy_resources, copy_roles, User, UserResource, UserRole};

verus! {

/// What the first request stage leaves for the second: the raw token text.
pub struct AuthTokenContext {
    pub token: String,
}

impl AuthTokenContext {
    /// A context that carries `token`.
    pub fn new(token: String) -> (r: Self)
        ensures
            r.token@ == token@,
    {
        AuthTokenContext { token }
    }
}

/// What the second request stage leaves for handlers: the resolved session.
pub struct AuthenticattionInfoContext {
    pub auth_info: AuthenticatedUser,
}

impl AuthenticattionInfoContext {
    /// A context that carries `auth_info`.
    pub fn new(auth_info: AuthenticatedUser) -> (r: Self)
        ensures
            r.auth_info@ == auth_info@,
    {
        AuthenticattionInfoContext { auth_info }
    }
}

/// A logged-in user: the record, roles and resources loaded at login, and the
/// time of the last successful authentication, in seconds since the Unix epoch.
pub struct AuthenticatedUser {
    pub user: User,
    pub roles: Vec<UserRole>,
    pub resources: Vec<UserResource>,
    pub authenticated: i64,
}

/// The mathematical value of a session.
pub struct SessionInfo {
    pub user: User,
    pub roles: Seq<UserRole>,
    pub resources: Seq<UserResource>,
    pub authenticated: int,
}

impl View for AuthenticatedUser {
    type V = SessionInfo;

    open spec fn view(&self) -> SessionInfo {
        SessionInfo {
            user: self.user,
            roles: self.roles@,
            resources: self.resources@,
            authenticated: self.authenticated as int,
        }
    }
}

impl AuthenticatedUser {
    /// A copy with the same value.
    pub fn duplicate(&self) -> (r: AuthenticatedUser)
        ensures
            r@ == self@,
    {
        AuthenticatedUser {
            user: self.user.duplicate(),
            roles: copy_roles(&self.roles),
            resources: copy_resources(&self.resources),
            authenticated: self.authenticated,
        }
    }

    /// The personnel number of the session's user.
    pub fn personnel_nr(&self) -> (r: i16)
        ensures
            r == self.user.personnel_nr,
    {
        self.user.personnel_nr
    }
}

/// A session together with the token that names it.
pub struct AuthenticationResponse {
    pub token: u128,
    pub auth_info: AuthenticatedUser,
}

/// The mathematical value of a session with its token.
pub struct SessionRecord {
    pub token: u128,
    pub session: SessionInfo,
}

impl View for AuthenticationResponse {
    type V = SessionRecord;

    open spec fn view(&self) -> SessionRecord {
        SessionRecord { token: self.token, session: self.auth_info@ }
    }
}

impl AuthenticationResponse {
    /// A copy with the same value.
    pub fn duplicate(&self) -> (r: AuthenticationResponse)
        ensures
            r@ == self@,
    {
        AuthenticationResponse { token: self.token, auth_info: self.auth_info.duplicate() }
    }

    /// The token as text, the form in which callers present it.
    pub fn token_string(&self) -> (r: String)
        ensures
            r@ == token::uuid_text(self.token),
            token::uuid_parsed(r@) == Some(self.token),
    {
        token::token_text(self.token)
    }
}

} // verus!
