//! Second request stage: resolve the token into the session it names.
use vstd::prelude::*;
use crate::errors::AuthError;
use super::{AuthTokenContext, AuthenticattionInfoContext};
use super::clock::now_seconds;
use super::service::Identity;

verus! {

/// What the second stage hands on for a request with this token context.
pub open spec fn authorization_outcome(
    identity: Identity,
    context: Option<&AuthTokenContext>,
    now: int,
    r: Result<AuthenticattionInfoContext, AuthError>,
) -> bool {
    match context {
        None => r == Err::<AuthenticattionInfoContext, AuthError>(AuthError::Unauthenticated),
        Some(c) => match identity@.resolve_text(c.token@, now) {
            Ok(s) => r matches Ok(ctx) && ctx.auth_info@ == s,
            Err(_) => r == Err::<AuthenticattionInfoContext, AuthError>(
                AuthError::Unauthenticated,
            ),
        },
    }
}

/// Marks routes as protected by the second stage.
#[derive(Clone, Copy)]
pub struct Authorization {}

impl Authorization {
    /// Protection for a group of routes.
    pub fn enable() -> (r: Self) {
        Authorization {  }
    }

    /// The stage that guards the routes.
    pub fn new_transform(&self) -> (r: AuthorizationMiddleware) {
        AuthorizationMiddleware {  }
    }
}

/// The second stage, applied to protected routes only.
pub struct AuthorizationMiddleware {}

impl AuthorizationMiddleware {
    /// Resolves the token that the first stage left at time `now`. No token,
    /// or one that names no live unexpired session: unauthenticated.
    /// Otherwise a context holding the session.
    pub fn authorize_at(
        &self,
        identity: &Identity,
        context: Option<&AuthTokenContext>,
        now: i64,
    ) -> (r: Result<AuthenticattionInfoContext, AuthError>)
        requires
            identity.wf(),
        ensures
            authorization_outcome(
                *identity,
                context,
                now as int,
                r,
            ),
    {
        let c = match context {
            None => return Err(AuthError::Unauthenticated),
            Some(c) => c,
        };
        match identity.resolve_at(c.token.as_str(), now) {
            Ok(info) => Ok(AuthenticattionInfoContext::new(info.duplicate())),
            Err(_) => Err(AuthError::Unauthenticated),
        }
    }

    /// `authorize_at` at the current time.
    pub fn authorize(&self, identity: &Identity, context: Option<&AuthTokenContext>) -> (r:
        Result<AuthenticattionInfoContext, AuthError>)
        requires
            identity.wf(),
        ensures
            exists|now: i64|
                #[trigger] authorization_outcome(
                    *identity,
                    context,
                    now as int,
                    r,
                ),
    {
        let now = now_seconds();
        self.authorize_at(identity, context, now)
    }
}

} // verus!
