//! Gateway session bookkeeping: lazy login and single-flight renewal.
//!
//! The gateway issues ephemeral bearer tokens (`POST /api/v1/session`, Basic
//! auth) with a short idle timeout. One [`SessionState`] owns the token for
//! the whole server; every request borrows it. A 401 on an authorized
//! request triggers exactly one re-login even when several requests failed
//! with the same token: renewal is serialized by the caller (one lock around
//! each step), and late arrivals that raced on the same stale session reuse
//! the session the winner obtained. Sessions are told apart by the serial
//! number each login assigns.

use vstd::prelude::*;
use crate::gateway::error::GatewayError;
use crate::gateway::models::SessionCreated;

verus! {

/// An authenticated gateway session. No `Debug`: the token must not end up
/// in logs.
pub struct Session {
    /// Serial number of the login that created it; later logins get larger
    /// ones.
    pub serial: u64,
    /// The bearer token.
    pub token: String,
    /// Idle timeout in seconds.
    pub expires_in: u64,
    /// GMP protocol version.
    pub gmp_version: String,
}

impl Session {
    /// The bearer token, for the `Authorization` header.
    pub fn bearer_token(&self) -> (r: &str)
        ensures
            r@ == self.token@,
    {
        self.token.as_str()
    }

    /// A copy of the session.
    pub fn duplicate(&self) -> (r: Session)
        ensures
            r == *self,
    {
        Session {
            serial: self.serial,
            token: self.token.clone(),
            expires_in: self.expires_in,
            gmp_version: self.gmp_version.clone(),
        }
    }
}

/// What a request has to do before it can be sent.
pub enum SessionStep {
    /// Send it with this session.
    Use(Session),
    /// Log in first, then report the outcome with
    /// [`SessionState::login_finished`].
    Login,
}

/// The session held for the whole server.
pub struct SessionState {
    current: Option<Session>,
    next_serial: u64,
}

/// What the next request does when `held` is the held session: use it, or
/// log in (`None`).
pub open spec fn current_spec(held: Option<Session>) -> Option<Session> {
    held
}

/// A renewal after a 401 with the session numbered `stale`, when `held` is
/// the held session: the session then held, and the session to reuse
/// (`None`: log in). A session other than the stale one is reused and kept;
/// otherwise nothing is held any more.
pub open spec fn renew_spec(held: Option<Session>, stale: u64) -> (Option<Session>, Option<Session>) {
    match held {
        Some(s) => if s.serial != stale {
            (Some(s), Some(s))
        } else {
            (None, None)
        },
        None => (None, None),
    }
}

/// The session a successful login creates, numbered `serial`.
pub open spec fn created_session(created: SessionCreated, serial: u64) -> Session {
    Session {
        serial,
        token: created.session_token,
        expires_in: created.expires_in,
        gmp_version: created.gmp_version,
    }
}

impl SessionState {
    /// The held session, if any.
    pub closed spec fn held(&self) -> Option<Session> {
        self.current
    }

    /// The serial the next login gets; every serial handed out so far is
    /// smaller.
    pub closed spec fn next_serial(&self) -> u64 {
        self.next_serial
    }

    /// The held session was handed out before.
    pub closed spec fn wf(&self) -> bool {
        self.current matches Some(s) ==> s.serial < self.next_serial
    }

    /// Whether a login can still be numbered (serials are not reused).
    pub fn can_log_in(&self) -> (r: bool)
        ensures
            r == (self.next_serial() < u64::MAX),
    {
        self.next_serial < u64::MAX
    }

    /// No session yet: the first request logs in.
    pub fn new() -> (r: SessionState)
        ensures
            r.wf(),
            r.held() is None,
            r.next_serial() == 0,
    {
        SessionState { current: None, next_serial: 0 }
    }

    /// The session for a new request: the held one, or a login when there
    /// is none.
    pub fn current(&self) -> (r: SessionStep)
        ensures
            match current_spec(self.held()) {
                Some(s) => r == SessionStep::Use(s),
                None => r is Login,
            },
    {
        match &self.current {
            Some(s) => SessionStep::Use(s.duplicate()),
            None => SessionStep::Login,
        }
    }

    /// A request failed with 401 while using the session numbered `stale`.
    /// If another request already replaced that session, reuse the
    /// replacement; otherwise drop the stale session, so that a failed login
    /// leaves no known-bad session behind, and log in.
    pub fn renew(&mut self, stale: u64) -> (r: SessionStep)
        requires
            old(self).wf(),
        ensures
            final(self).wf(),
            final(self).next_serial() == old(self).next_serial(),
            final(self).held() == renew_spec(old(self).held(), stale).0,
            match renew_spec(old(self).held(), stale).1 {
                Some(s) => r == SessionStep::Use(s),
                None => r is Login,
            },
    {
        let reuse = match &self.current {
            Some(s) => s.serial != stale,
            None => false,
        };
        if reuse {
            match &self.current {
                Some(s) => SessionStep::Use(s.duplicate()),
                None => SessionStep::Login,
            }
        } else {
            self.current = None;
            SessionStep::Login
        }
    }

    /// Record the outcome of a login: a created session is held and handed
    /// out under the next serial; a failure leaves the state as it was.
    pub fn login_finished(&mut self, outcome: Result<SessionCreated, GatewayError>) -> (r: Result<Session, GatewayError>)
        requires
            old(self).wf(),
            old(self).next_serial() < u64::MAX,
        ensures
            final(self).wf(),
            match outcome {
                Ok(created) => r == Ok::<Session, GatewayError>(created_session(created, old(self).next_serial()))
                    && final(self).held() == Some(created_session(created, old(self).next_serial()))
                    && final(self).next_serial() == old(self).next_serial() + 1,
                Err(e) => r == Err::<Session, GatewayError>(e) && *final(self) == *old(self),
            },
    {
        match outcome {
            Ok(created) => {
                let session = Session {
                    serial: self.next_serial,
                    token: created.session_token,
                    expires_in: created.expires_in,
                    gmp_version: created.gmp_version,
                };
                let handed = session.duplicate();
                self.current = Some(session);
                self.next_serial = self.next_serial + 1;
                Ok(handed)
            },
            Err(e) => Err(e),
        }
    }
}

/// Once a login succeeded, later requests use its session: no second login.
pub proof fn law_login_is_reused(created: SessionCreated, serial: u64)
    ensures
        current_spec(Some(created_session(created, serial))) == Some(created_session(created, serial)),
{
}

/// Single flight: when two requests failed with the same session, the
/// first renewal drops it and logs in; once that login succeeded, the
/// second renewal reuses the new session instead of logging in again.
pub proof fn law_renewal_is_single_flight(stale: Session, created: SessionCreated, next: u64)
    requires
        stale.serial < next,
    ensures
        renew_spec(Some(stale), stale.serial) == (None::<Session>, None::<Session>),
        renew_spec(Some(created_session(created, next)), stale.serial) == (
            Some(created_session(created, next)),
            Some(created_session(created, next)),
        ),
{
}

/// A renewal never hands back the session that failed.
pub proof fn law_renewal_never_reuses_the_stale_session(held: Option<Session>, stale: u64)
    ensures
        renew_spec(held, stale).1 matches Some(s) ==> s.serial != stale,
        renew_spec(held, stale).0 matches Some(s) ==> s.serial != stale,
{
}

} // verus!
