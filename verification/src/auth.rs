//! The authenticator: credential lookup in the order applicant, professor,
//! administrator; bcrypt password verification; session minting; and the
//! account-provisioning rules, including the one-time unauthenticated
//! administrator bootstrap.

use crate::guards::Administrator;
use crate::guards::SessionTokenHeader;
use crate::guards::SessionType;
use crate::models::NewAdminLogin;
use crate::models::NewApplicantLogin;
use crate::models::NewProfessorLogin;
use crate::models::str_eq;
use crate::password::VerificationError;
use crate::password::bcrypt_check;
use crate::password::hash;
use crate::password::verify;
use crate::session::SessionStore;
use crate::token::create_session_token;
use vstd::prelude::*;

verus! {

/// Why a login failed. `CredentialError` covers every wrong
/// username/password combination, with no detail about which table matched
/// or why verification failed, so valid usernames cannot be enumerated.
/// `DatabaseError` is reserved for an infrastructure fault of a persistent
/// credential store, which the boundary layer maps to a server fault rather
/// than an authorization denial; an in-memory store never raises it.
#[derive(Clone, Copy, Debug, PartialEq, Eq, Structural)]
pub enum LoginError {
    CredentialError,
    DatabaseError,
}

/// A username/password pair as submitted on a login or account-creation
/// request.
#[derive(Clone, Debug, PartialEq)]
pub struct Login {
    pub username: String,
    pub password: String,
}

/// The credential tables, one per principal kind. Usernames are not required
/// to be unique across tables — nor within one; a lookup returns the first
/// record with the requested username, and [`validate_login`] fixes the
/// cross-table order.
pub struct CredentialStore {
    applicant_logins: Vec<NewApplicantLogin>,
    professor_logins: Vec<NewProfessorLogin>,
    admin_logins: Vec<NewAdminLogin>,
}

/// The first applicant credential record with the given username, if any.
pub open spec fn find_applicant_login(
    s: Seq<NewApplicantLogin>,
    username: Seq<char>,
) -> Option<NewApplicantLogin>
    decreases s.len(),
{
    if s.len() == 0 {
        None
    } else if s[0].username@ == username {
        Some(s[0])
    } else {
        find_applicant_login(s.subrange(1, s.len() as int), username)
    }
}

/// The first professor credential record with the given username, if any.
pub open spec fn find_professor_login(
    s: Seq<NewProfessorLogin>,
    username: Seq<char>,
) -> Option<NewProfessorLogin>
    decreases s.len(),
{
    if s.len() == 0 {
        None
    } else if s[0].username@ == username {
        Some(s[0])
    } else {
        find_professor_login(s.subrange(1, s.len() as int), username)
    }
}

/// The first administrator credential record with the given username, if any.
pub open spec fn find_admin_login(
    s: Seq<NewAdminLogin>,
    username: Seq<char>,
) -> Option<NewAdminLogin>
    decreases s.len(),
{
    if s.len() == 0 {
        None
    } else if s[0].username@ == username {
        Some(s[0])
    } else {
        find_admin_login(s.subrange(1, s.len() as int), username)
    }
}

/// The administrator step of login validation: a matching password yields the
/// administrator principal; a missing record, a mismatch and a malformed
/// stored hash all yield the same undifferentiated error.
pub open spec fn validate_admin_spec(
    admins: Seq<NewAdminLogin>,
    username: Seq<char>,
    password: Seq<char>,
) -> Result<SessionType, LoginError> {
    match find_admin_login(admins, username) {
        Some(rec) => match bcrypt_check(password, rec.bcrypt_hash@) {
            Some(true) => Ok(SessionType::Administrator),
            Some(false) => Err(LoginError::CredentialError),
            None => Err(LoginError::CredentialError),
        },
        None => Err(LoginError::CredentialError),
    }
}

/// The professor step of login validation: a matching password yields that
/// professor's principal; a password mismatch or a missing record falls
/// through to the administrator table; a malformed stored hash fails.
pub open spec fn validate_professor_spec(
    professors: Seq<NewProfessorLogin>,
    admins: Seq<NewAdminLogin>,
    username: Seq<char>,
    password: Seq<char>,
) -> Result<SessionType, LoginError> {
    match find_professor_login(professors, username) {
        Some(rec) => match bcrypt_check(password, rec.bcrypt_hash@) {
            Some(true) => Ok(SessionType::Professor(rec.id)),
            Some(false) => validate_admin_spec(admins, username, password),
            None => Err(LoginError::CredentialError),
        },
        None => validate_admin_spec(admins, username, password),
    }
}

/// What validating a username/password pair returns: the tables are tried in
/// the fixed order applicant, professor, administrator, so a username that
/// collides across tables always resolves to the earliest table whose
/// password matches.
pub open spec fn validate_login_spec(
    applicants: Seq<NewApplicantLogin>,
    professors: Seq<NewProfessorLogin>,
    admins: Seq<NewAdminLogin>,
    username: Seq<char>,
    password: Seq<char>,
) -> Result<SessionType, LoginError> {
    match find_applicant_login(applicants, username) {
        Some(rec) => match bcrypt_check(password, rec.bcrypt_hash@) {
            Some(true) => Ok(SessionType::Applicant(rec.id)),
            Some(false) => validate_professor_spec(professors, admins, username, password),
            None => Err(LoginError::CredentialError),
        },
        None => validate_professor_spec(professors, admins, username, password),
    }
}

impl CredentialStore {
    /// The applicant credential table.
    pub closed spec fn applicants(&self) -> Seq<NewApplicantLogin> {
        self.applicant_logins@
    }

    /// The professor credential table.
    pub closed spec fn professors(&self) -> Seq<NewProfessorLogin> {
        self.professor_logins@
    }

    /// The administrator credential table.
    pub closed spec fn admins(&self) -> Seq<NewAdminLogin> {
        self.admin_logins@
    }

    /// A store with no accounts at all, the bootstrap state.
    pub fn new() -> (r: CredentialStore)
        ensures
            r.applicants() == Seq::<NewApplicantLogin>::empty(),
            r.professors() == Seq::<NewProfessorLogin>::empty(),
            r.admins() == Seq::<NewAdminLogin>::empty(),
    {
        CredentialStore {
            applicant_logins: Vec::new(),
            professor_logins: Vec::new(),
            admin_logins: Vec::new(),
        }
    }

    /// Whether at least one administrator account exists; while none does,
    /// the administrator bootstrap is open.
    pub fn admin_exists(&self) -> (r: bool)
        ensures
            r == (self.admins().len() > 0),
    {
        self.admin_logins.len() > 0
    }

    /// First applicant credential record with this username, if any.
    fn lookup_applicant(&self, username: &str) -> (r: Option<&NewApplicantLogin>)
        ensures
            (match r {
                Some(rec) => find_applicant_login(self.applicants(), username@) == Some(*rec),
                None => find_applicant_login(self.applicants(), username@) is None,
            }),
    {
        let n = self.applicant_logins.len();
        proof {
            assert(self.applicants().subrange(0, n as int) =~= self.applicants());
        }
        for i in 0..n
            invariant
                n == self.applicant_logins.len(),
                find_applicant_login(self.applicants(), username@) == find_applicant_login(
                    self.applicants().subrange(i as int, n as int),
                    username@,
                ),
        {
            let ghost rest = self.applicants().subrange(i as int, n as int);
            if str_eq(self.applicant_logins[i].username.as_str(), username) {
                assert(rest[0] == self.applicants()[i as int]);
                return Some(&self.applicant_logins[i]);
            }
            proof {
                assert(rest.subrange(1, rest.len() as int) =~= self.applicants().subrange(
                    i + 1,
                    n as int,
                ));
            }
        }
        None
    }

    /// First professor credential record with this username, if any.
    fn lookup_professor(&self, username: &str) -> (r: Option<&NewProfessorLogin>)
        ensures
            (match r {
                Some(rec) => find_professor_login(self.professors(), username@) == Some(*rec),
                None => find_professor_login(self.professors(), username@) is None,
            }),
    {
        let n = self.professor_logins.len();
        proof {
            assert(self.professors().subrange(0, n as int) =~= self.professors());
        }
        for i in 0..n
            invariant
                n == self.professor_logins.len(),
                find_professor_login(self.professors(), username@) == find_professor_login(
                    self.professors().subrange(i as int, n as int),
                    username@,
                ),
        {
            let ghost rest = self.professors().subrange(i as int, n as int);
            if str_eq(self.professor_logins[i].username.as_str(), username) {
                assert(rest[0] == self.professors()[i as int]);
                return Some(&self.professor_logins[i]);
            }
            proof {
                assert(rest.subrange(1, rest.len() as int) =~= self.professors().subrange(
                    i + 1,
                    n as int,
                ));
            }
        }
        None
    }

    /// First administrator credential record with this username, if any.
    fn lookup_admin(&self, username: &str) -> (r: Option<&NewAdminLogin>)
        ensures
            (match r {
                Some(rec) => find_admin_login(self.admins(), username@) == Some(*rec),
                None => find_admin_login(self.admins(), username@) is None,
            }),
    {
        let n = self.admin_logins.len();
        proof {
            assert(self.admins().subrange(0, n as int) =~= self.admins());
        }
        for i in 0..n
            invariant
                n == self.admin_logins.len(),
                find_admin_login(self.admins(), username@) == find_admin_login(
                    self.admins().subrange(i as int, n as int),
                    username@,
                ),
        {
            let ghost rest = self.admins().subrange(i as int, n as int);
            if str_eq(self.admin_logins[i].username.as_str(), username) {
                assert(rest[0] == self.admins()[i as int]);
                return Some(&self.admin_logins[i]);
            }
            proof {
                assert(rest.subrange(1, rest.len() as int) =~= self.admins().subrange(
                    i + 1,
                    n as int,
                ));
            }
        }
        None
    }
}

/// Validates a username/password pair against the three credential tables in
/// the fixed order applicant, professor, administrator. Wrong username,
/// wrong password and malformed stored hash all yield the same
/// undifferentiated `CredentialError`.
pub fn validate_login(creds: &CredentialStore, username: String, password: String) -> (r: Result<
    SessionType,
    LoginError,
>)
    ensures
        r == validate_login_spec(
            creds.applicants(),
            creds.professors(),
            creds.admins(),
            username@,
            password@,
        ),
{
    if let Some(rec) = creds.lookup_applicant(username.as_str()) {
        match verify(password.as_str(), rec.bcrypt_hash.as_str()) {
            Ok(true) => {
                return Ok(SessionType::Applicant(rec.id));
            },
            Ok(false) => {
            },
            Err(VerificationError) => {
                return Err(LoginError::CredentialError);
            },
        }
    }
    if let Some(rec) = creds.lookup_professor(username.as_str()) {
        match verify(password.as_str(), rec.bcrypt_hash.as_str()) {
            Ok(true) => {
                return Ok(SessionType::Professor(rec.id));
            },
            Ok(false) => {
            },
            Err(VerificationError) => {
                return Err(LoginError::CredentialError);
            },
        }
    }
    if let Some(rec) = creds.lookup_admin(username.as_str()) {
        match verify(password.as_str(), rec.bcrypt_hash.as_str()) {
            Ok(true) => {
                return Ok(SessionType::Administrator);
            },
            Ok(false) => {
                return Err(LoginError::CredentialError);
            },
            Err(VerificationError) => {
                return Err(LoginError::CredentialError);
            },
        }
    }
    Err(LoginError::CredentialError)
}

/// How long a session lives, in seconds: thirty days from login.
pub const SESSION_LIFETIME_SECONDS: i64 = 30 * 24 * 60 * 60;

/// The freshly minted session token returned to a client on login, to be
/// replayed on each subsequent request.
#[derive(Clone, Debug, PartialEq)]
pub struct LoginResponse {
    pub session_token: String,
}

/// Validates the submitted credentials and, on success, mints a fresh
/// session token, registers it with an expiration thirty days from `now`,
/// and returns it; on failure the session store is untouched and the
/// undifferentiated error is passed through.
pub fn login(
    creds: &CredentialStore,
    sessions: &mut SessionStore,
    login_data: Login,
    now: i64,
) -> (r: Result<LoginResponse, LoginError>)
    requires
        now <= i64::MAX - SESSION_LIFETIME_SECONDS,
    ensures
        match validate_login_spec(
            creds.applicants(),
            creds.professors(),
            creds.admins(),
            login_data.username@,
            login_data.password@,
        ) {
            Ok(session_type) => {
                &&& r is Ok
                &&& r matches Ok(resp) ==> {
                    &&& resp.session_token@.len() == 44
                    &&& final(sessions)@ == old(sessions)@.insert(
                        resp.session_token@,
                        (session_type, (now + SESSION_LIFETIME_SECONDS) as i64),
                    )
                }
            },
            Err(e) => {
                &&& r == Err::<LoginResponse, LoginError>(e)
                &&& final(sessions)@ == old(sessions)@
            },
        },
{
    match validate_login(creds, login_data.username, login_data.password) {
        Ok(session_type) => {
            let token = create_session_token();
            let expiry: i64 = now + SESSION_LIFETIME_SECONDS;
            sessions.insert(token.clone(), session_type, expiry);
            Ok(LoginResponse { session_token: token })
        },
        Err(e) => Err(e),
    }
}

impl CredentialStore {
    /// Persistence-level primitive: hashes the password and appends the
    /// administrator credential record. The authorization gating belongs to
    /// [`create_admin_login`]; this primitive fails only when hashing does.
    pub fn create_admin_account(&mut self, login_data: Login) -> (r: Result<(), VerificationError>)
        ensures
            final(self).applicants() == old(self).applicants(),
            final(self).professors() == old(self).professors(),
            match r {
                Ok(_) => {
                    &&& final(self).admins().len() == old(self).admins().len() + 1
                    &&& final(self).admins().drop_last() == old(self).admins()
                    &&& final(self).admins().last().username@ == login_data.username@
                    &&& bcrypt_check(
                        login_data.password@,
                        final(self).admins().last().bcrypt_hash@,
                    ) == Some(true)
                },
                Err(_) => final(self).admins() == old(self).admins(),
            },
    {
        let bcrypt_hash = match hash(login_data.password.as_str()) {
            Ok(h) => h,
            Err(e) => {
                return Err(e);
            },
        };
        self.admin_logins.push(NewAdminLogin { username: login_data.username, bcrypt_hash });
        proof {
            assert(self.admin_logins@.drop_last() =~= old(self).admin_logins@);
        }
        Ok(())
    }

    /// Persistence-level primitive: hashes the password and appends the
    /// applicant credential record bound to the given applicant id; it fails
    /// only when hashing does.
    pub fn create_applicant_account(&mut self, applicant_id: i32, login_data: Login) -> (r: Result<
        (),
        VerificationError,
    >)
        ensures
            final(self).professors() == old(self).professors(),
            final(self).admins() == old(self).admins(),
            match r {
                Ok(_) => {
                    &&& final(self).applicants().len() == old(self).applicants().len() + 1
                    &&& final(self).applicants().drop_last() == old(self).applicants()
                    &&& final(self).applicants().last().id == applicant_id
                    &&& final(self).applicants().last().username@ == login_data.username@
                    &&& bcrypt_check(
                        login_data.password@,
                        final(self).applicants().last().bcrypt_hash@,
                    ) == Some(true)
                },
                Err(_) => final(self).applicants() == old(self).applicants(),
            },
    {
        let bcrypt_hash = match hash(login_data.password.as_str()) {
            Ok(h) => h,
            Err(e) => {
                return Err(e);
            },
        };
        self.applicant_logins.push(
            NewApplicantLogin { id: applicant_id, username: login_data.username, bcrypt_hash },
        );
        proof {
            assert(self.applicant_logins@.drop_last() =~= old(self).applicant_logins@);
        }
        Ok(())
    }

    /// Persistence-level primitive: hashes the password and appends the
    /// professor credential record bound to the given professor id; it fails
    /// only when hashing does.
    pub fn create_professor_account(&mut self, professor_id: i32, login_data: Login) -> (r: Result<
        (),
        VerificationError,
    >)
        ensures
            final(self).applicants() == old(self).applicants(),
            final(self).admins() == old(self).admins(),
            match r {
                Ok(_) => {
                    &&& final(self).professors().len() == old(self).professors().len() + 1
                    &&& final(self).professors().drop_last() == old(self).professors()
                    &&& final(self).professors().last().id == professor_id
                    &&& final(self).professors().last().username@ == login_data.username@
                    &&& bcrypt_check(
                        login_data.password@,
                        final(self).professors().last().bcrypt_hash@,
                    ) == Some(true)
                },
                Err(_) => final(self).professors() == old(self).professors(),
            },
    {
        let bcrypt_hash = match hash(login_data.password.as_str()) {
            Ok(h) => h,
            Err(e) => {
                return Err(e);
            },
        };
        self.professor_logins.push(
            NewProfessorLogin { id: professor_id, username: login_data.username, bcrypt_hash },
        );
        proof {
            assert(self.professor_logins@.drop_last() =~= old(self).professor_logins@);
        }
        Ok(())
    }
}

/// Why an account-creation request was refused: the caller lacked the
/// required role, or the credential store could not produce the record.
#[derive(Clone, Copy, Debug, PartialEq, Eq, Structural)]
pub enum ProvisionError {
    Forbidden,
    StoreError,
}

/// The bootstrap rule: creating an administrator account is allowed exactly
/// when the caller is an authenticated administrator, or no administrator
/// account exists yet.
pub open spec fn admin_creation_allowed(
    caller_is_admin: bool,
    admins: Seq<NewAdminLogin>,
) -> bool {
    caller_is_admin || admins.len() == 0
}

/// Creates an administrator account under the bootstrap rule: an
/// unauthenticated caller may create one if and only if no administrator
/// account exists yet; once any exists, only an authenticated administrator
/// may create another, and an unauthenticated attempt is refused with
/// `Forbidden` — never silently accepted.
pub fn create_admin_login(
    creds: &mut CredentialStore,
    login_data: Login,
    administrator: Option<&Administrator>,
) -> (r: Result<(), ProvisionError>)
    ensures
        final(creds).applicants() == old(creds).applicants(),
        final(creds).professors() == old(creds).professors(),
        !admin_creation_allowed(administrator is Some, old(creds).admins()) ==> {
            &&& r == Err::<(), ProvisionError>(ProvisionError::Forbidden)
            &&& final(creds).admins() == old(creds).admins()
        },
        admin_creation_allowed(administrator is Some, old(creds).admins()) ==> match r {
            Ok(_) => {
                &&& final(creds).admins().len() == old(creds).admins().len() + 1
                &&& final(creds).admins().drop_last() == old(creds).admins()
                &&& final(creds).admins().last().username@ == login_data.username@
                &&& bcrypt_check(
                    login_data.password@,
                    final(creds).admins().last().bcrypt_hash@,
                ) == Some(true)
            },
            Err(e) => {
                &&& e == ProvisionError::StoreError
                &&& final(creds).admins() == old(creds).admins()
            },
        },
{
    match administrator {
        Some(_) => match creds.create_admin_account(login_data) {
            Ok(_) => Ok(()),
            Err(_) => Err(ProvisionError::StoreError),
        },
        None => {
            if !creds.admin_exists() {
                match creds.create_admin_account(login_data) {
                    Ok(_) => Ok(()),
                    Err(_) => Err(ProvisionError::StoreError),
                }
            } else {
                Err(ProvisionError::Forbidden)
            }
        },
    }
}

/// Creates an applicant login account; never self-service, the caller must
/// hold the administrator witness.
pub fn create_applicant_login(
    creds: &mut CredentialStore,
    login_data: Login,
    applicant_id: i32,
    _administrator: &Administrator,
) -> (r: Result<(), ProvisionError>)
    ensures
        final(creds).professors() == old(creds).professors(),
        final(creds).admins() == old(creds).admins(),
        match r {
            Ok(_) => {
                &&& final(creds).applicants().len() == old(creds).applicants().len() + 1
                &&& final(creds).applicants().drop_last() == old(creds).applicants()
                &&& final(creds).applicants().last().id == applicant_id
                &&& final(creds).applicants().last().username@ == login_data.username@
                &&& bcrypt_check(
                    login_data.password@,
                    final(creds).applicants().last().bcrypt_hash@,
                ) == Some(true)
            },
            Err(e) => {
                &&& e == ProvisionError::StoreError
                &&& final(creds).applicants() == old(creds).applicants()
            },
        },
{
    match creds.create_applicant_account(applicant_id, login_data) {
        Ok(_) => Ok(()),
        Err(_) => Err(ProvisionError::StoreError),
    }
}

/// Creates a professor login account; never self-service, the caller must
/// hold the administrator witness.
pub fn create_professor_login(
    creds: &mut CredentialStore,
    login_data: Login,
    professor_id: i32,
    _administrator: &Administrator,
) -> (r: Result<(), ProvisionError>)
    ensures
        final(creds).applicants() == old(creds).applicants(),
        final(creds).admins() == old(creds).admins(),
        match r {
            Ok(_) => {
                &&& final(creds).professors().len() == old(creds).professors().len() + 1
                &&& final(creds).professors().drop_last() == old(creds).professors()
                &&& final(creds).professors().last().id == professor_id
                &&& final(creds).professors().last().username@ == login_data.username@
                &&& bcrypt_check(
                    login_data.password@,
                    final(creds).professors().last().bcrypt_hash@,
                ) == Some(true)
            },
            Err(e) => {
                &&& e == ProvisionError::StoreError
                &&& final(creds).professors() == old(creds).professors()
            },
        },
{
    match creds.create_professor_account(professor_id, login_data) {
        Ok(_) => Ok(()),
        Err(_) => Err(ProvisionError::StoreError),
    }
}

/// Whether any administrator account exists, as reported to clients probing
/// for the bootstrap state.
#[derive(Clone, Copy, Debug, PartialEq, Eq, Structural)]
pub struct AdminExistsResult {
    pub result: bool,
}

/// Reports whether the administrator bootstrap has happened.
pub fn get_admin_exists(creds: &CredentialStore) -> (r: AdminExistsResult)
    ensures
        r.result == (creds.admins().len() > 0),
{
    AdminExistsResult { result: creds.admin_exists() }
}

/// A client's own role, as reported by session introspection; `None` when no
/// token was sent or the token is unknown.
#[derive(Clone, Copy, Debug, PartialEq, Eq, Structural)]
pub struct SessionTypeResponse {
    pub session_type: Option<SessionType>,
}

/// Session introspection: the principal the presented token is bound to,
/// ignoring expiry, so a client can discover its own role without triggering
/// a guard rejection.
pub fn get_login_type(
    sessions: &SessionStore,
    session_token: Option<SessionTokenHeader>,
) -> (r: SessionTypeResponse)
    ensures
        r.session_type == (match session_token {
            Some(header) => (if sessions@.contains_key(header.session_token@) {
                Some(sessions@[header.session_token@].0)
            } else {
                None::<SessionType>
            }),
            None => None::<SessionType>,
        }),
{
    match session_token {
        Some(header) => SessionTypeResponse {
            session_type: sessions.session_type_of(header.session_token.as_str()),
        },
        None => SessionTypeResponse { session_type: None },
    }
}

/// Appending a record leaves every earlier first-match untouched: the first
/// applicant record with a username is unchanged if one existed, and becomes
/// the appended record exactly when none existed and the new record carries
/// that username.
proof fn lemma_find_applicant_push(
    s: Seq<NewApplicantLogin>,
    rec: NewApplicantLogin,
    username: Seq<char>,
)
    ensures
        find_applicant_login(s.push(rec), username) == (match find_applicant_login(s, username) {
            Some(found) => Some(found),
            None => (if rec.username@ == username {
                Some(rec)
            } else {
                None::<NewApplicantLogin>
            }),
        }),
    decreases s.len(),
{
    if s.len() == 0 {
        assert(s.push(rec)[0] == rec);
        assert(s.push(rec).subrange(1, 1) =~= Seq::<NewApplicantLogin>::empty());
    } else {
        assert(s.push(rec)[0] == s[0]);
        assert(s.push(rec).subrange(1, s.len() as int + 1) =~= s.subrange(1, s.len() as int).push(rec));
        lemma_find_applicant_push(s.subrange(1, s.len() as int), rec, username);
    }
}

/// Appending a record leaves every earlier first-match untouched, professor
/// table version.
proof fn lemma_find_professor_push(
    s: Seq<NewProfessorLogin>,
    rec: NewProfessorLogin,
    username: Seq<char>,
)
    ensures
        find_professor_login(s.push(rec), username) == (match find_professor_login(s, username) {
            Some(found) => Some(found),
            None => (if rec.username@ == username {
                Some(rec)
            } else {
                None::<NewProfessorLogin>
            }),
        }),
    decreases s.len(),
{
    if s.len() == 0 {
        assert(s.push(rec)[0] == rec);
        assert(s.push(rec).subrange(1, 1) =~= Seq::<NewProfessorLogin>::empty());
    } else {
        assert(s.push(rec)[0] == s[0]);
        assert(s.push(rec).subrange(1, s.len() as int + 1) =~= s.subrange(1, s.len() as int).push(rec));
        lemma_find_professor_push(s.subrange(1, s.len() as int), rec, username);
    }
}

/// Appending a record leaves every earlier first-match untouched,
/// administrator table version.
proof fn lemma_find_admin_push(s: Seq<NewAdminLogin>, rec: NewAdminLogin, username: Seq<char>)
    ensures
        find_admin_login(s.push(rec), username) == (match find_admin_login(s, username) {
            Some(found) => Some(found),
            None => (if rec.username@ == username {
                Some(rec)
            } else {
                None::<NewAdminLogin>
            }),
        }),
    decreases s.len(),
{
    if s.len() == 0 {
        assert(s.push(rec)[0] == rec);
        assert(s.push(rec).subrange(1, 1) =~= Seq::<NewAdminLogin>::empty());
    } else {
        assert(s.push(rec)[0] == s[0]);
        assert(s.push(rec).subrange(1, s.len() as int + 1) =~= s.subrange(1, s.len() as int).push(rec));
        lemma_find_admin_push(s.subrange(1, s.len() as int), rec, username);
    }
}

/// Law: an applicant account just created under a username that no
/// credential table knew logs in with its own password and resolves to that
/// applicant's principal; with a password the stored hash rejects, login
/// fails with the undifferentiated credential error.
pub proof fn lemma_created_applicant_account_logs_in(
    applicants: Seq<NewApplicantLogin>,
    professors: Seq<NewProfessorLogin>,
    admins: Seq<NewAdminLogin>,
    rec: NewApplicantLogin,
    password: Seq<char>,
    wrong: Seq<char>,
)
    requires
        find_applicant_login(applicants, rec.username@) is None,
        find_professor_login(professors, rec.username@) is None,
        find_admin_login(admins, rec.username@) is None,
        bcrypt_check(password, rec.bcrypt_hash@) == Some(true),
    ensures
        validate_login_spec(applicants.push(rec), professors, admins, rec.username@, password)
            == Ok::<SessionType, LoginError>(SessionType::Applicant(rec.id)),
        bcrypt_check(wrong, rec.bcrypt_hash@) == Some(false) ==> validate_login_spec(
            applicants.push(rec),
            professors,
            admins,
            rec.username@,
            wrong,
        ) == Err::<SessionType, LoginError>(LoginError::CredentialError),
{
    lemma_find_applicant_push(applicants, rec, rec.username@);
}

/// Law: a professor account just created under a username that no credential
/// table knew logs in with its own password and resolves to that professor's
/// principal; with a password the stored hash rejects, login fails with the
/// undifferentiated credential error.
pub proof fn lemma_created_professor_account_logs_in(
    applicants: Seq<NewApplicantLogin>,
    professors: Seq<NewProfessorLogin>,
    admins: Seq<NewAdminLogin>,
    rec: NewProfessorLogin,
    password: Seq<char>,
    wrong: Seq<char>,
)
    requires
        find_applicant_login(applicants, rec.username@) is None,
        find_professor_login(professors, rec.username@) is None,
        find_admin_login(admins, rec.username@) is None,
        bcrypt_check(password, rec.bcrypt_hash@) == Some(true),
    ensures
        validate_login_spec(applicants, professors.push(rec), admins, rec.username@, password)
            == Ok::<SessionType, LoginError>(SessionType::Professor(rec.id)),
        bcrypt_check(wrong, rec.bcrypt_hash@) == Some(false) ==> validate_login_spec(
            applicants,
            professors.push(rec),
            admins,
            rec.username@,
            wrong,
        ) == Err::<SessionType, LoginError>(LoginError::CredentialError),
{
    lemma_find_professor_push(professors, rec, rec.username@);
}

/// Law: an administrator account just created under a username that no
/// credential table knew logs in with its own password and resolves to the
/// administrator principal; with a password the stored hash rejects, login
/// fails with the undifferentiated credential error.
pub proof fn lemma_created_admin_account_logs_in(
    applicants: Seq<NewApplicantLogin>,
    professors: Seq<NewProfessorLogin>,
    admins: Seq<NewAdminLogin>,
    rec: NewAdminLogin,
    password: Seq<char>,
    wrong: Seq<char>,
)
    requires
        find_applicant_login(applicants, rec.username@) is None,
        find_professor_login(professors, rec.username@) is None,
        find_admin_login(admins, rec.username@) is None,
        bcrypt_check(password, rec.bcrypt_hash@) == Some(true),
    ensures
        validate_login_spec(applicants, professors, admins.push(rec), rec.username@, password)
            == Ok::<SessionType, LoginError>(SessionType::Administrator),
        bcrypt_check(wrong, rec.bcrypt_hash@) == Some(false) ==> validate_login_spec(
            applicants,
            professors,
            admins.push(rec),
            rec.username@,
            wrong,
        ) == Err::<SessionType, LoginError>(LoginError::CredentialError),
{
    lemma_find_admin_push(admins, rec, rec.username@);
}

/// Law: the administrator bootstrap is a one-way door. From the empty
/// credential store an unauthenticated creation is allowed; as soon as any
/// administrator record exists — in particular right after a successful
/// creation — an unauthenticated attempt is not, and [`create_admin_login`]
/// then returns `Forbidden` and leaves the store unchanged; an authenticated
/// administrator may always create another.
pub proof fn lemma_admin_bootstrap_one_way(admins: Seq<NewAdminLogin>, rec: NewAdminLogin)
    ensures
        admin_creation_allowed(false, Seq::<NewAdminLogin>::empty()),
        !admin_creation_allowed(false, admins.push(rec)),
        admin_creation_allowed(true, admins),
{
}

/// Law: a username collision resolves to the applicant table first — when
/// the first applicant record under the username accepts the password, login
/// yields that applicant, whatever the professor and administrator tables
/// hold under the same username.
pub proof fn lemma_applicant_wins_collision(
    applicants: Seq<NewApplicantLogin>,
    professors: Seq<NewProfessorLogin>,
    admins: Seq<NewAdminLogin>,
    rec: NewApplicantLogin,
    username: Seq<char>,
    password: Seq<char>,
)
    requires
        find_applicant_login(applicants, username) == Some(rec),
        bcrypt_check(password, rec.bcrypt_hash@) == Some(true),
    ensures
        validate_login_spec(applicants, professors, admins, username, password) == Ok::<
            SessionType,
            LoginError,
        >(SessionType::Applicant(rec.id)),
{
}

/// Law: when no applicant record carries the username, a collision between
/// the professor and administrator tables resolves to the professor — when
/// the first professor record under the username accepts the password, login
/// yields that professor, whatever the administrator table holds.
pub proof fn lemma_professor_beats_admin(
    applicants: Seq<NewApplicantLogin>,
    professors: Seq<NewProfessorLogin>,
    admins: Seq<NewAdminLogin>,
    rec: NewProfessorLogin,
    username: Seq<char>,
    password: Seq<char>,
)
    requires
        find_applicant_login(applicants, username) is None,
        find_professor_login(professors, username) == Some(rec),
        bcrypt_check(password, rec.bcrypt_hash@) == Some(true),
    ensures
        validate_login_spec(applicants, professors, admins, username, password) == Ok::<
            SessionType,
            LoginError,
        >(SessionType::Professor(rec.id)),
{
}

} // verus!
