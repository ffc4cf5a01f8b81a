//! Principals and per-request authorization guards.
//!
//! A guard converts a session token (plus the current session-store state and
//! the current time) into a typed principal or a capability value, or rejects
//! the request with [`Forbidden`]. Every guard is a pure function of that
//! triple; the only side effect is the lazy deletion of an expired entry,
//! which the session store performs during the lookup.

use crate::session::SessionStore;
use crate::session::lookup_result;
use crate::session::store_after_lookup;
use vstd::prelude::*;

verus! {

/// Name of the request header on which the client replays its session token.
pub const SESSION_TOKEN_HEADER_NAME: &'static str = "X-Session-Token";

/// The principal behind an authenticated request: an applicant or a
/// professor identified by their numeric id, or the (id-less) administrator
/// role. The variant is fixed when the session is created and never changes
/// for the life of the token.
#[derive(Clone, Copy, Debug, PartialEq, Eq, Structural)]
pub enum SessionType {
    Applicant(i32),
    Professor(i32),
    Administrator,
}

/// Rejection produced by every guard: the request carries no valid session
/// for the required role. Deliberately carries no detail, so a caller cannot
/// distinguish "never logged in" from "expired" from "wrong role".
#[derive(Clone, Copy, Debug, PartialEq, Eq, Structural)]
pub struct Forbidden;

/// The session token as transported on a request, extracted from the
/// `X-Session-Token` header by the boundary layer.
pub struct SessionTokenHeader {
    pub session_token: String,
}

/// Witness that a request was made by the administrator.
#[derive(Clone, Copy, Debug, PartialEq, Eq, Structural)]
pub struct Administrator {}

/// Witness that a request was made by the applicant with this id.
#[derive(Clone, Copy, Debug, PartialEq, Eq, Structural)]
pub struct Applicant {
    pub applicant_id: i32,
}

/// Witness that a request was made by the professor with this id.
#[derive(Clone, Copy, Debug, PartialEq, Eq, Structural)]
pub struct Professor {
    pub professor_id: i32,
}

/// Witness that a request carries some valid session, of any principal kind.
#[derive(Clone, Copy, Debug, PartialEq, Eq, Structural)]
pub struct LoggedIn {}

/// Capability: the administrator, or one specific applicant.
#[derive(Clone, Copy, Debug, PartialEq, Eq, Structural)]
pub enum AdminOrApplicant {
    Admin,
    Applicant(i32),
}

/// Capability: the administrator, or one specific professor.
#[derive(Clone, Copy, Debug, PartialEq, Eq, Structural)]
pub enum AdminOrProfessor {
    Admin,
    Professor(i32),
}

impl AdminOrApplicant {
    /// Whether this capability may act on the applicant resource with the
    /// given id: the administrator may act on any, an applicant only on
    /// their own.
    pub open spec fn spec_can_access_applicant(self, id: i32) -> bool {
        match self {
            AdminOrApplicant::Admin => true,
            AdminOrApplicant::Applicant(v) => v == id,
        }
    }

    pub fn can_access_applicant(&self, id: i32) -> (r: bool)
        ensures
            r == self.spec_can_access_applicant(id),
    {
        match *self {
            AdminOrApplicant::Admin => true,
            AdminOrApplicant::Applicant(v) => v == id,
        }
    }
}

impl AdminOrProfessor {
    /// Whether this capability may act on the professor resource with the
    /// given id: the administrator may act on any, a professor only on
    /// their own.
    pub open spec fn spec_can_access_prof(self, id: i32) -> bool {
        match self {
            AdminOrProfessor::Admin => true,
            AdminOrProfessor::Professor(v) => v == id,
        }
    }

    pub fn can_access_prof(&self, id: i32) -> (r: bool)
        ensures
            r == self.spec_can_access_prof(id),
    {
        match *self {
            AdminOrProfessor::Admin => true,
            AdminOrProfessor::Professor(v) => v == id,
        }
    }
}

impl Administrator {
    /// Guard: succeeds exactly when the token resolves, at time `now`, to
    /// the administrator; an expired entry is deleted by the lookup.
    pub fn from_session(sessions: &mut SessionStore, token: &str, now: i64) -> (r: Result<
        Administrator,
        Forbidden,
    >)
        ensures
            final(sessions)@ == store_after_lookup(old(sessions)@, token@, now),
            r == (match lookup_result(old(sessions)@, token@, now) {
                Some(SessionType::Administrator) => Ok::<Administrator, Forbidden>(
                    Administrator {  },
                ),
                _ => Err::<Administrator, Forbidden>(Forbidden),
            }),
    {
        match sessions.authenticate(token, now) {
            Some(SessionType::Administrator) => Ok(Administrator {  }),
            _ => Err(Forbidden),
        }
    }
}

impl Applicant {
    /// Guard: succeeds exactly when the token resolves, at time `now`, to an
    /// applicant, and extracts that applicant's id; an expired entry is
    /// deleted by the lookup.
    pub fn from_session(sessions: &mut SessionStore, token: &str, now: i64) -> (r: Result<
        Applicant,
        Forbidden,
    >)
        ensures
            final(sessions)@ == store_after_lookup(old(sessions)@, token@, now),
            r == (match lookup_result(old(sessions)@, token@, now) {
                Some(SessionType::Applicant(id)) => Ok::<Applicant, Forbidden>(
                    Applicant { applicant_id: id },
                ),
                _ => Err::<Applicant, Forbidden>(Forbidden),
            }),
    {
        match sessions.authenticate(token, now) {
            Some(SessionType::Applicant(applicant_id)) => Ok(Applicant { applicant_id }),
            _ => Err(Forbidden),
        }
    }
}

impl Professor {
    /// Guard: succeeds exactly when the token resolves, at time `now`, to a
    /// professor, and extracts that professor's id; an expired entry is
    /// deleted by the lookup.
    pub fn from_session(sessions: &mut SessionStore, token: &str, now: i64) -> (r: Result<
        Professor,
        Forbidden,
    >)
        ensures
            final(sessions)@ == store_after_lookup(old(sessions)@, token@, now),
            r == (match lookup_result(old(sessions)@, token@, now) {
                Some(SessionType::Professor(id)) => Ok::<Professor, Forbidden>(
                    Professor { professor_id: id },
                ),
                _ => Err::<Professor, Forbidden>(Forbidden),
            }),
    {
        match sessions.authenticate(token, now) {
            Some(SessionType::Professor(professor_id)) => Ok(Professor { professor_id }),
            _ => Err(Forbidden),
        }
    }
}

impl LoggedIn {
    /// Guard: succeeds exactly when the token resolves, at time `now`, to
    /// any principal; it produces nothing beyond "authenticated".
    pub fn from_session(sessions: &mut SessionStore, token: &str, now: i64) -> (r: Result<
        LoggedIn,
        Forbidden,
    >)
        ensures
            final(sessions)@ == store_after_lookup(old(sessions)@, token@, now),
            r == (match lookup_result(old(sessions)@, token@, now) {
                Some(_) => Ok::<LoggedIn, Forbidden>(LoggedIn {  }),
                None => Err::<LoggedIn, Forbidden>(Forbidden),
            }),
    {
        match sessions.authenticate(token, now) {
            Some(_) => Ok(LoggedIn {  }),
            None => Err(Forbidden),
        }
    }
}

impl AdminOrApplicant {
    /// Composite guard: the administrator role if the token resolves to it,
    /// otherwise the applicant role with its id, otherwise rejection.
    pub fn from_session(sessions: &mut SessionStore, token: &str, now: i64) -> (r: Result<
        AdminOrApplicant,
        Forbidden,
    >)
        ensures
            final(sessions)@ == store_after_lookup(old(sessions)@, token@, now),
            r == (match lookup_result(old(sessions)@, token@, now) {
                Some(SessionType::Administrator) => Ok::<AdminOrApplicant, Forbidden>(
                    AdminOrApplicant::Admin,
                ),
                Some(SessionType::Applicant(id)) => Ok::<AdminOrApplicant, Forbidden>(
                    AdminOrApplicant::Applicant(id),
                ),
                _ => Err::<AdminOrApplicant, Forbidden>(Forbidden),
            }),
    {
        match sessions.authenticate(token, now) {
            Some(SessionType::Administrator) => Ok(AdminOrApplicant::Admin),
            Some(SessionType::Applicant(applicant_id)) => Ok(
                AdminOrApplicant::Applicant(applicant_id),
            ),
            _ => Err(Forbidden),
        }
    }
}

impl AdminOrProfessor {
    /// Composite guard: the administrator role if the token resolves to it,
    /// otherwise the professor role with its id, otherwise rejection.
    pub fn from_session(sessions: &mut SessionStore, token: &str, now: i64) -> (r: Result<
        AdminOrProfessor,
        Forbidden,
    >)
        ensures
            final(sessions)@ == store_after_lookup(old(sessions)@, token@, now),
            r == (match lookup_result(old(sessions)@, token@, now) {
                Some(SessionType::Administrator) => Ok::<AdminOrProfessor, Forbidden>(
                    AdminOrProfessor::Admin,
                ),
                Some(SessionType::Professor(id)) => Ok::<AdminOrProfessor, Forbidden>(
                    AdminOrProfessor::Professor(id),
                ),
                _ => Err::<AdminOrProfessor, Forbidden>(Forbidden),
            }),
    {
        match sessions.authenticate(token, now) {
            Some(SessionType::Administrator) => Ok(AdminOrProfessor::Admin),
            Some(SessionType::Professor(professor_id)) => Ok(
                AdminOrProfessor::Professor(professor_id),
            ),
            _ => Err(Forbidden),
        }
    }
}

/// Boundary-policy marker: the HTTP layer attaches permissive cross-origin
/// response headers for every route.
pub struct CORS {}

impl CORS {
    pub fn fairing() -> CORS {
        CORS {  }
    }
}

/// Law: the administrator capability may act on every applicant resource; a
/// non-admin capability may act exactly on the resource whose id equals its
/// own.
pub proof fn lemma_admin_or_applicant_access(g: AdminOrApplicant, id: i32)
    ensures
        g is Admin ==> g.spec_can_access_applicant(id),
        forall|v: i32|
            g == AdminOrApplicant::Applicant(v) ==> (g.spec_can_access_applicant(id) <==> v == id),
{
}

/// Law: the administrator capability may act on every professor resource; a
/// non-admin capability may act exactly on the resource whose id equals its
/// own.
pub proof fn lemma_admin_or_professor_access(g: AdminOrProfessor, id: i32)
    ensures
        g is Admin ==> g.spec_can_access_prof(id),
        forall|v: i32|
            g == AdminOrProfessor::Professor(v) ==> (g.spec_can_access_prof(id) <==> v == id),
{
}

} // verus!
