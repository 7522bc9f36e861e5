//! The session directory as a mathematical value: what each operation does to
//! it, and the laws that follow.
use vstd::prelude::*;
use crate::domain::{User, UserResource, UserRole};
use crate::errors::AuthError;
use super::{SessionInfo, SessionRecord};
use super::token::uuid_parsed;

verus! {

/// Seconds of inactivity after which a session expires: twelve hours.
pub const SESSION_TTL_SECONDS: i64 = 43200;

/// Both indices of the directory: sessions by personnel number, and the
/// personnel number that each live token belongs to.
pub struct SessionTable {
    pub by_nr: Map<i16, SessionRecord>,
    pub by_token: Map<u128, i16>,
}

/// More than the allowed inactivity has passed since the last authentication.
pub open spec fn expired(session: SessionInfo, now: int) -> bool {
    now - session.authenticated > SESSION_TTL_SECONDS
}

impl SessionTable {
    /// The directory with no session.
    pub open spec fn empty() -> SessionTable {
        SessionTable { by_nr: Map::empty(), by_token: Map::empty() }
    }

    /// The indices agree: each token names a session that carries it, each
    /// session's token is indexed back to it, and each session is filed under
    /// its user's personnel number.
    pub open spec fn wf(self) -> bool {
        &&& forall|t: u128| #[trigger]
            self.by_token.contains_key(t) ==> {
                &&& self.by_nr.contains_key(self.by_token[t])
                &&& self.by_nr[self.by_token[t]].token == t
            }
        &&& forall|p: i16| #[trigger]
            self.by_nr.contains_key(p) ==> {
                &&& self.by_token.contains_key(self.by_nr[p].token)
                &&& self.by_token[self.by_nr[p].token] == p
                &&& self.by_nr[p].session.user.personnel_nr == p
            }
    }

    /// The session that a token names, if it is live and not expired at `now`.
    pub open spec fn resolve(self, t: u128, now: int) -> Result<SessionInfo, AuthError> {
        if !self.by_token.contains_key(t) {
            Err(AuthError::InvalidToken)
        } else {
            let s = self.by_nr[self.by_token[t]].session;
            if expired(s, now) {
                Err(AuthError::SessionExpired)
            } else {
                Ok(s)
            }
        }
    }

    /// `resolve` on a token given as text; text that is no token names nothing.
    pub open spec fn resolve_text(self, token: Seq<char>, now: int) -> Result<
        SessionInfo,
        AuthError,
    > {
        match uuid_parsed(token) {
            Some(t) => self.resolve(t, now),
            None => Err(AuthError::InvalidToken),
        }
    }

    /// Issue or renew the session of `user` at `now`. An existing session keeps
    /// its token and contents and has its time set to `now`; otherwise a new
    /// session is filed under `candidate`, unless that token is taken.
    pub open spec fn issue(
        self,
        user: User,
        roles: Seq<UserRole>,
        resources: Seq<UserResource>,
        now: int,
        candidate: u128,
    ) -> (SessionTable, Result<SessionRecord, AuthError>) {
        let p = user.personnel_nr;
        if self.by_nr.contains_key(p) {
            let prev = self.by_nr[p];
            let rec = SessionRecord {
                token: prev.token,
                session: SessionInfo {
                    user: prev.session.user,
                    roles: prev.session.roles,
                    resources: prev.session.resources,
                    authenticated: now,
                },
            };
            (SessionTable { by_nr: self.by_nr.insert(p, rec), by_token: self.by_token }, Ok(rec))
        } else if self.by_token.contains_key(candidate) {
            (self, Err(AuthError::TokenCollision))
        } else {
            let rec = SessionRecord {
                token: candidate,
                session: SessionInfo { user, roles, resources, authenticated: now },
            };
            (
                SessionTable {
                    by_nr: self.by_nr.insert(p, rec),
                    by_token: self.by_token.insert(candidate, p),
                },
                Ok(rec),
            )
        }
    }

    /// Remove the session that a token names from both indices; a token that
    /// names none is reported.
    pub open spec fn invalidate(self, t: u128) -> (SessionTable, Result<(), AuthError>) {
        if self.by_token.contains_key(t) {
            let p = self.by_token[t];
            (
                SessionTable { by_nr: self.by_nr.remove(p), by_token: self.by_token.remove(t) },
                Ok(()),
            )
        } else {
            (self, Err(AuthError::InvalidToken))
        }
    }
}

/// Issuing or renewing keeps the indices in agreement.
pub proof fn lemma_issue_keeps_wf(
    table: SessionTable,
    user: User,
    roles: Seq<UserRole>,
    resources: Seq<UserResource>,
    now: int,
    candidate: u128,
)
    requires
        table.wf(),
    ensures
        table.issue(user, roles, resources, now, candidate).0.wf(),
{
}

/// Invalidating keeps the indices in agreement.
pub proof fn lemma_invalidate_keeps_wf(table: SessionTable, t: u128)
    requires
        table.wf(),
    ensures
        table.invalidate(t).0.wf(),
{
    let next = table.invalidate(t).0;
    if table.by_token.contains_key(t) {
        let p = table.by_token[t];
        assert forall|q: i16| #[trigger] next.by_nr.contains_key(q) implies {
            &&& next.by_token.contains_key(next.by_nr[q].token)
            &&& next.by_token[next.by_nr[q].token] == q
            &&& next.by_nr[q].session.user.personnel_nr == q
        } by {
            assert(table.by_nr.contains_key(q));
            assert(table.by_nr[q].token != t);
        }
    }
}

/// In a well-formed directory a personnel number has at most one live token.
pub proof fn lemma_one_token_per_personnel_nr(table: SessionTable, a: u128, b: u128)
    requires
        table.wf(),
        table.by_token.contains_key(a),
        table.by_token.contains_key(b),
        table.by_token[a] == table.by_token[b],
    ensures
        a == b,
{
}

/// Two logins of the same personnel number, one after the other (as the
/// directory's lock orders concurrent ones), yield the same token: the second
/// reuses the session that the first issued or renewed, and the personnel
/// number still has one live token.
pub proof fn lemma_logins_share_token(
    table: SessionTable,
    user1: User,
    roles1: Seq<UserRole>,
    resources1: Seq<UserResource>,
    now1: int,
    candidate1: u128,
    user2: User,
    roles2: Seq<UserRole>,
    resources2: Seq<UserResource>,
    now2: int,
    candidate2: u128,
)
    requires
        table.wf(),
        user1.personnel_nr == user2.personnel_nr,
    ensures
        ({
            let (t1, r1) = table.issue(user1, roles1, resources1, now1, candidate1);
            let (t2, r2) = t1.issue(user2, roles2, resources2, now2, candidate2);
            &&& t2.wf()
            &&& r1 is Ok ==> r2 is Ok && r2->Ok_0.token == r1->Ok_0.token
            &&& forall|a: u128, b: u128|
                t2.by_token.contains_key(a) && t2.by_token.contains_key(b) && t2.by_token[a]
                    == user1.personnel_nr && t2.by_token[b] == user1.personnel_nr ==> a == b
        }),
{
    let (t1, r1) = table.issue(user1, roles1, resources1, now1, candidate1);
    lemma_issue_keeps_wf(table, user1, roles1, resources1, now1, candidate1);
    lemma_issue_keeps_wf(t1, user2, roles2, resources2, now2, candidate2);
}

/// Right after a session is issued or renewed at `now`, its token resolves at
/// `now` to that session, whose time is `now`.
pub proof fn lemma_resolve_after_issue(
    table: SessionTable,
    user: User,
    roles: Seq<UserRole>,
    resources: Seq<UserResource>,
    now: int,
    candidate: u128,
)
    requires
        table.wf(),
    ensures
        ({
            let (next, r) = table.issue(user, roles, resources, now, candidate);
            r is Ok ==> {
                &&& next.resolve(r->Ok_0.token, now) == Ok::<SessionInfo, AuthError>(
                    r->Ok_0.session,
                )
                &&& r->Ok_0.session.authenticated == now
            }
        }),
{
}

/// A session last authenticated twelve hours and one second ago is expired;
/// one authenticated eleven hours and fifty-nine minutes ago is not.
pub proof fn lemma_expiry_boundary(table: SessionTable, t: u128, now: int)
    requires
        table.wf(),
        table.by_token.contains_key(t),
    ensures
        ({
            let s = table.by_nr[table.by_token[t]].session;
            &&& s.authenticated == now - 12 * 3600 - 1 ==> table.resolve(t, now) == Err::<
                SessionInfo,
                AuthError,
            >(AuthError::SessionExpired)
            &&& s.authenticated == now - 11 * 3600 - 59 * 60 ==> table.resolve(t, now) == Ok::<
                SessionInfo,
                AuthError,
            >(s)
        }),
{
}

/// After a token is invalidated it resolves to nothing, and invalidating it
/// again changes nothing.
pub proof fn lemma_logout_then_resolve(table: SessionTable, t: u128, now: int)
    requires
        table.wf(),
    ensures
        ({
            let next = table.invalidate(t).0;
            &&& next.resolve(t, now) == Err::<SessionInfo, AuthError>(AuthError::InvalidToken)
            &&& next.invalidate(t).0 == next
        }),
{
}

} // verus!
