//! The session directory and the login policy around it.
use std::collections::HashMap;
use vstd::prelude::*;
use vstd::string::StringSliceAdditionalSpecFns;
use crate::domain::{User, UserResource, UserRole};
use crate::errors::AuthError;
use super::{AuthenticatedUser, AuthenticationResponse, SessionInfo, SessionRecord};
use super::clock::{now_seconds, today};
use super::credentials::{derive_password_hash, password_matches, verify_password, can_derive, is_derived_hash};
use super::table::{SessionTable, SESSION_TTL_SECONDS};
use super::token::{parse_token, random_token, uuid_parsed};

verus! {

broadcast use vstd::std_specs::hash::group_hash_axioms;

/// The value of an issue result.
pub open spec fn record_result(r: Result<AuthenticationResponse, AuthError>) -> Result<
    SessionRecord,
    AuthError,
> {
    match r {
        Ok(rec) => Ok(rec@),
        Err(e) => Err(e),
    }
}

/// The value of a resolve result.
pub open spec fn session_result(r: Result<&AuthenticatedUser, AuthError>) -> Result<
    SessionInfo,
    AuthError,
> {
    match r {
        Ok(s) => Ok(s@),
        Err(e) => Err(e),
    }
}

/// The login policy: the password must match, then the password must not have
/// expired before `today`, the account must be enabled, and the employee must
/// not be dismissed; the first check that fails decides.
pub open spec fn login_check(user: User, password: Seq<u8>, today: int) -> Result<(), AuthError> {
    if !password_matches(user.salt@, user.password@, password) {
        Err(AuthError::InvalidCredentials)
    } else if user.password_expiration_date < today {
        Err(AuthError::PasswordExpired)
    } else if user.account_disabled {
        Err(AuthError::AccountDisabled)
    } else if user.date_dismiss is Some {
        Err(AuthError::AccountDismissed)
    } else {
        Ok(())
    }
}

/// The in-memory session directory: sessions by personnel number, and the
/// personnel number of each live token. One instance serves the process.
pub struct Identity {
    users_by_uuid: HashMap<u128, i16>,
    users_by_personnel_nr: HashMap<i16, AuthenticationResponse>,
}

impl View for Identity {
    type V = SessionTable;

    closed spec fn view(&self) -> SessionTable {
        SessionTable {
            by_nr: self.users_by_personnel_nr@.map_values(|r: AuthenticationResponse| r@),
            by_token: self.users_by_uuid@,
        }
    }
}

impl Identity {
    /// The indices agree.
    pub open spec fn wf(&self) -> bool {
        self@.wf()
    }

    /// An empty directory.
    pub fn new() -> (r: Identity)
        ensures
            r.wf(),
            r@ == SessionTable::empty(),
    {
        let r = Identity { users_by_uuid: HashMap::new(), users_by_personnel_nr: HashMap::new() };
        assert(r@.by_nr =~= Map::empty());
        r
    }

    /// Issues a session for `user` filed under `candidate`, or renews the
    /// user's existing session at `now`; see `SessionTable::issue`.
    pub fn issue_or_renew(
        &mut self,
        user: User,
        roles: Vec<UserRole>,
        resources: Vec<UserResource>,
        now: i64,
        candidate: u128,
    ) -> (r: Result<AuthenticationResponse, AuthError>)
        requires
            old(self).wf(),
        ensures
            final(self).wf(),
            (final(self)@, record_result(r)) == old(self)@.issue(
                user,
                roles@,
                resources@,
                now as int,
                candidate,
            ),
    {
        let ghost before = self@;
        proof {
            super::table::lemma_issue_keeps_wf(before, user, roles@, resources@, now as int, candidate);
        }
        let p = user.personnel_nr;
        match self.users_by_personnel_nr.remove(&p) {
            Some(mut rec) => {
                rec.auth_info.authenticated = now;
                let out = rec.duplicate();
                self.users_by_personnel_nr.insert(p, rec);
                assert(self@.by_nr =~= before.issue(user, roles@, resources@, now as int, candidate).0.by_nr);
                Ok(out)
            },
            None => {
                assert(self.users_by_personnel_nr@ =~= old(self).users_by_personnel_nr@);
                if self.users_by_uuid.contains_key(&candidate) {
                    return Err(AuthError::TokenCollision);
                }
                let rec = AuthenticationResponse {
                    token: candidate,
                    auth_info: AuthenticatedUser { user, roles, resources, authenticated: now },
                };
                let out = rec.duplicate();
                self.users_by_personnel_nr.insert(p, rec);
                self.users_by_uuid.insert(candidate, p);
                assert(self@.by_nr =~= before.issue(user, roles@, resources@, now as int, candidate).0.by_nr);
                Ok(out)
            },
        }
    }

    /// Issues or renews the session of `user` at the current time, drawing a
    /// random token for a new session.
    pub fn authenticate(
        &mut self,
        user: User,
        roles: Vec<UserRole>,
        resources: Vec<UserResource>,
    ) -> (r: Result<AuthenticationResponse, AuthError>)
        requires
            old(self).wf(),
        ensures
            final(self).wf(),
            exists|now: i64, candidate: u128|
                (final(self)@, record_result(r)) == #[trigger] old(self)@.issue(
                    user,
                    roles@,
                    resources@,
                    now as int,
                    candidate,
                ),
    {
        let now = now_seconds();
        let candidate = random_token();
        let ghost (u, ro, re) = (user, roles@, resources@);
        let r = self.issue_or_renew(user, roles, resources, now, candidate);
        assert((self@, record_result(r)) == old(self)@.issue(u, ro, re, now as int, candidate));
        r
    }

    /// The session that `token` names at time `now`: the token must be UUID
    /// text naming a live session that has not expired.
    pub fn resolve_at(&self, token: &str, now: i64) -> (r: Result<&AuthenticatedUser, AuthError>)
        requires
            self.wf(),
        ensures
            session_result(r) == self@.resolve_text(token@, now as int),
    {
        let t = match parse_token(token) {
            Some(t) => t,
            None => return Err(AuthError::InvalidToken),
        };
        let p = match self.users_by_uuid.get(&t) {
            Some(p) => *p,
            None => return Err(AuthError::InvalidToken),
        };
        match self.users_by_personnel_nr.get(&p) {
            Some(rec) => {
                let info = &rec.auth_info;
                if (now as i128) - (info.authenticated as i128) > SESSION_TTL_SECONDS as i128 {
                    Err(AuthError::SessionExpired)
                } else {
                    Ok(info)
                }
            },
            None => {
                assert(self@.by_nr.contains_key(p));
                Err(AuthError::InvalidToken)
            },
        }
    }

    /// The session that `token` names at the current time.
    pub fn authorization_info(&self, token: &str) -> (r: Result<&AuthenticatedUser, AuthError>)
        requires
            self.wf(),
        ensures
            exists|now: i64| session_result(r) == #[trigger] self@.resolve_text(token@, now as int),
    {
        let now = now_seconds();
        self.resolve_at(token, now)
    }

    /// Removes the session that `token` names from both indices; text that is
    /// no token, or a token that names no session, is reported.
    pub fn invalidate(&mut self, token: &str) -> (r: Result<(), AuthError>)
        requires
            old(self).wf(),
        ensures
            final(self).wf(),
            (match uuid_parsed(token@) {
                Some(t) => (final(self)@, r) == old(self)@.invalidate(t),
                None => final(self)@ == old(self)@ && r == Err::<(), AuthError>(
                    AuthError::InvalidToken,
                ),
            }),
    {
        let t = match parse_token(token) {
            Some(t) => t,
            None => return Err(AuthError::InvalidToken),
        };
        let ghost before = self@;
        proof {
            super::table::lemma_invalidate_keeps_wf(before, t);
        }
        match self.users_by_uuid.remove(&t) {
            Some(p) => {
                self.users_by_personnel_nr.remove(&p);
                assert(self@.by_nr =~= before.invalidate(t).0.by_nr);
                assert(self@.by_token =~= before.invalidate(t).0.by_token);
                Ok(())
            },
            None => {
                assert(self.users_by_uuid@ =~= before.by_token);
                Err(AuthError::InvalidToken)
            },
        }
    }

    /// Ends the session that `token` names, if any. Logging out never fails:
    /// an unknown or malformed token leaves the directory as it is.
    pub fn logout(&mut self, token: &str) -> (r: Result<(), AuthError>)
        requires
            old(self).wf(),
        ensures
            final(self).wf(),
            r is Ok,
            (match uuid_parsed(token@) {
                Some(t) => final(self)@ == old(self)@.invalidate(t).0,
                None => final(self)@ == old(self)@,
            }),
    {
        let _ = self.invalidate(token);
        Ok(())
    }

    /// The login policy for `user` on day `today`; see `login_check`.
    pub fn verify_authentication_on(&self, user: &User, attempted_password: &str, today: i32) -> (r:
        Result<(), AuthError>)
        ensures
            r == login_check(*user, attempted_password.spec_bytes(), today as int),
    {
        verify_password(user.salt.as_str(), user.password.as_str(), attempted_password)?;
        if user.password_expiration_date < today {
            return Err(AuthError::PasswordExpired);
        }
        if user.account_disabled {
            return Err(AuthError::AccountDisabled);
        }
        if user.date_dismiss.is_some() {
            return Err(AuthError::AccountDismissed);
        }
        Ok(())
    }

    /// The login policy for `user` on the current day.
    pub fn verify_authentication(&self, user: &User, attempted_password: &str) -> (r: Result<
        (),
        AuthError,
    >)
        ensures
            exists|day: i32| r == #[trigger] login_check(*user, attempted_password.spec_bytes(), day as int),
    {
        let day = today();
        self.verify_authentication_on(user, attempted_password, day)
    }

    /// The login policy for a user looked up by personnel number, who may not
    /// exist; see `verify_authentication_on`.
    pub fn check_login_on(&self, found: Option<&User>, attempted_password: &str, today: i32) -> (r:
        Result<(), AuthError>)
        ensures
            self.check_login_outcome(found, attempted_password.spec_bytes(), today as int, r),
    {
        match found {
            None => Err(AuthError::UserNotFound),
            Some(u) => self.verify_authentication_on(u, attempted_password, today),
        }
    }

    /// The login policy for a user looked up by personnel number, on the
    /// current day.
    pub fn check_login(&self, found: Option<&User>, attempted_password: &str) -> (r: Result<
        (),
        AuthError,
    >)
        ensures
            exists|day: i32|
                #[trigger] self.check_login_outcome(found, attempted_password.spec_bytes(), day as int, r),
    {
        let day = today();
        self.check_login_on(found, attempted_password, day)
    }

    /// What `check_login_on` returns on day `today`.
    pub open spec fn check_login_outcome(
        &self,
        found: Option<&User>,
        password: Seq<u8>,
        today: int,
        r: Result<(), AuthError>,
    ) -> bool {
        match found {
            None => r == Err::<(), AuthError>(AuthError::UserNotFound),
            Some(u) => r == login_check(*u, password, today),
        }
    }

    /// The stored form of `password` under the base64 `salt`, for provisioning
    /// credentials; `None` where the salt is not base64.
    pub fn generate_password_hash(&self, password: &str, salt: &str) -> (r: Option<String>)
        ensures
            r is Some <==> can_derive(password.spec_bytes(), salt@),
            r matches Some(h) ==> is_derived_hash(password.spec_bytes(), salt@, h@),
    {
        derive_password_hash(password, salt)
    }
}

} // verus!
