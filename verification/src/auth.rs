//! Sign-up and log-in: the user record that sign-up stores, the check of a
//! password against a stored hash, and the answers of the two handlers.
use crate::http::Status;
use crate::ids::{is_random_uuid, new_random_id};
use vstd::prelude::*;

verus! {

/// What a client sends to sign up or to log in.
#[derive(Clone, Debug)]
pub struct Credentials {
    pub email: String,
    pub password: String,
}

/// A user of the API, as the `users` table holds it: its id, its email and the
/// PHC string of its password's hash.
#[derive(Clone, Debug)]
pub struct User {
    pub user_id: u128,
    pub email: String,
    pub password_hash: String,
}

/// Whether `password_auth::verify_password` accepts `password` against the
/// PHC string `hash`.
pub uninterp spec fn password_verifies(password: Seq<char>, hash: Seq<char>) -> bool;

/// Calls `password_auth::generate_hash`, which hashes the password with Argon2
/// under a fresh random salt. The salt comes from the operating system, so the
/// hash itself is not determined; what holds of every outcome is that
/// `verify_password` accepts the same password against it. Argon2 refuses a
/// password of more than `u32::MAX` bytes, on which `generate_hash` panics.
#[verifier::external_body]
fn hash_password(password: &str) -> (hash: String)
    requires
        vstd::utf8::encode_utf8(password@).len() <= 0xFFFF_FFFF,
    ensures
        password_verifies(password@, hash@),
{
    password_auth::generate_hash(password)
}

/// Calls `password_auth::verify_password`: `true` where it returns `Ok(())`,
/// `false` where the hash does not parse or the password does not match.
#[verifier::external_body]
fn password_matches(password: &str, hash: &str) -> (ok: bool)
    ensures
        ok == password_verifies(password@, hash@),
{
    password_auth::verify_password(password, hash).is_ok()
}

/// `user` is a record that sign-up made from `creds`.
pub open spec fn signed_up_as(creds: Credentials, user: User) -> bool {
    &&& user.email@ == creds.email@
    &&& password_verifies(creds.password@, user.password_hash@)
    &&& is_random_uuid(user.user_id)
}

/// The password is short enough for Argon2 to hash.
pub open spec fn hashable(password: Seq<char>) -> bool {
    vstd::utf8::encode_utf8(password).len() <= 0xFFFF_FFFF
}

/// The record that sign-up stores for `creds`, given the id and the password
/// hash drawn for it: that id, the email as given and that hash.
pub fn new_user(creds: &Credentials, user_id: u128, password_hash: String) -> (user: User)
    ensures
        user.user_id == user_id,
        user.email@ == creds.email@,
        user.password_hash == password_hash,
{
    User { user_id, email: creds.email.clone(), password_hash }
}

/// The record that sign-up stores for new credentials: a fresh random id, the
/// email as given and a hash of the password.
pub fn prepare_signup(creds: &Credentials) -> (user: User)
    requires
        hashable(creds.password@),
    ensures
        signed_up_as(*creds, user),
        user.email@ == creds.email@,
        password_verifies(creds.password@, user.password_hash@),
        is_random_uuid(user.user_id),
{
    let user_id = new_random_id();
    let password_hash = hash_password(creds.password.as_str());
    new_user(creds, user_id, password_hash)
}

/// The answer to a sign-up once the insert of the user has been tried.
pub open spec fn signup_reply(inserted: bool) -> Status {
    if inserted {
        Status::Created
    } else {
        Status::InternalServerError
    }
}

pub fn signup_status(inserted: bool) -> (s: Status)
    ensures
        s == signup_reply(inserted),
        inserted ==> s == Status::Created,
        !inserted ==> s == Status::InternalServerError,
{
    if inserted {
        Status::Created
    } else {
        Status::InternalServerError
    }
}

/// The user that a log-in authenticates, given the user found under the email:
/// that user if the password verifies against its hash, else none.
pub open spec fn authenticated(candidate: Option<User>, password: Seq<char>) -> Option<User> {
    match candidate {
        Some(user) => if password_verifies(password, user.password_hash@) {
            Some(user)
        } else {
            None
        },
        None => None,
    }
}

pub fn authenticate(candidate: Option<User>, password: &str) -> (r: Option<User>)
    ensures
        r == authenticated(candidate, password@),
        candidate is None ==> r is None,
        candidate matches Some(u) ==> (password_verifies(password@, u.password_hash@) ==> r == Some(u)),
        candidate matches Some(u) ==> (!password_verifies(password@, u.password_hash@) ==> r is None),
{
    match candidate {
        Some(user) => {
            if password_matches(password, user.password_hash.as_str()) {
                Some(user)
            } else {
                None
            }
        },
        None => None,
    }
}

/// The authentication backend could not answer (its store failed).
#[derive(Clone, Copy, Debug)]
pub struct BackendError;

/// What the log-in handler does once the backend has authenticated (or not).
#[derive(Clone, Debug)]
pub enum LoginStep {
    /// Answer with this status and stop.
    Reply(Status),
    /// Store a session for this user.
    StartSession(User),
}

pub open spec fn login_step(result: Result<Option<User>, BackendError>) -> LoginStep {
    match result {
        Ok(Some(user)) => LoginStep::StartSession(user),
        Ok(None) => LoginStep::Reply(Status::Unauthorized),
        Err(_) => LoginStep::Reply(Status::InternalServerError),
    }
}

pub fn login_after_authenticate(result: Result<Option<User>, BackendError>) -> (step: LoginStep)
    ensures
        step == login_step(result),
        result matches Ok(Some(u)) ==> step == LoginStep::StartSession(u),
        result == Ok::<Option<User>, BackendError>(None) ==> step == LoginStep::Reply(Status::Unauthorized),
        result is Err ==> step == LoginStep::Reply(Status::InternalServerError),
{
    match result {
        Ok(Some(user)) => LoginStep::StartSession(user),
        Ok(None) => LoginStep::Reply(Status::Unauthorized),
        Err(_) => LoginStep::Reply(Status::InternalServerError),
    }
}

/// The answer to a log-in once storing the session has been tried.
pub open spec fn session_reply(stored: bool) -> Status {
    if stored {
        Status::Success
    } else {
        Status::InternalServerError
    }
}

pub fn login_after_session(stored: bool) -> (s: Status)
    ensures
        s == session_reply(stored),
        stored ==> s == Status::Success,
        !stored ==> s == Status::InternalServerError,
{
    if stored {
        Status::Success
    } else {
        Status::InternalServerError
    }
}

/// Logging in with the password a user signed up with authenticates that very
/// user, starts a session for it, and is answered 200 once the session is stored.
pub proof fn signup_then_login(creds: Credentials, user: User)
    requires
        signed_up_as(creds, user),
    ensures
        authenticated(Some(user), creds.password@) == Some(user),
        login_step(Ok(authenticated(Some(user), creds.password@))) == LoginStep::StartSession(user),
        session_reply(true) == Status::Success,
{
}

/// A log-in for an email under which no user is found is answered 401,
/// whatever the password.
pub proof fn unknown_user_is_refused(password: Seq<char>)
    ensures
        login_step(Ok(authenticated(None, password))) == LoginStep::Reply(Status::Unauthorized),
{
}

/// The user a log-in authenticates is the user found under the email, and
/// it is authenticated exactly when the password verifies against that user's
/// stored hash; with no user found, nobody is authenticated.
pub proof fn authenticated_is_the_found_user(candidate: Option<User>, password: Seq<char>)
    ensures
        authenticated(None, password) is None,
        candidate matches Some(u) ==> (authenticated(candidate, password) is Some
            <==> password_verifies(password, u.password_hash@)),
        authenticated(candidate, password) matches Some(v) ==> candidate == Some(v),
{
}

/// The log-in handler starts a session for the very user that was
/// authenticated, answers 401 when nobody was, and 500 when the backend
/// failed; once the session is stored it answers 200, else 500.
pub proof fn login_steps(user: User, stored: bool)
    ensures
        login_step(Ok(Some(user))) matches LoginStep::StartSession(v) && {
            &&& v.user_id == user.user_id
            &&& v.email@ == user.email@
            &&& v.password_hash@ == user.password_hash@
        },
        login_step(Ok(None)) == LoginStep::Reply(Status::Unauthorized),
        login_step(Err(BackendError)) == LoginStep::Reply(Status::InternalServerError),
        (session_reply(stored) == Status::Success) == stored,
        !stored ==> session_reply(stored) == Status::InternalServerError,
{
}

/// Sign-up is answered 201 exactly when the user was inserted, else 500.
pub proof fn signup_reply_follows_the_insert(inserted: bool)
    ensures
        (signup_reply(inserted) == Status::Created) == inserted,
        !inserted ==> signup_reply(inserted) == Status::InternalServerError,
{
}

/// A record that sign-up made from credentials carries their email, a hash
/// that the password verifies against, and a version 4 id.
pub proof fn signup_record_fields(creds: Credentials, user: User)
    requires
        signed_up_as(creds, user),
    ensures
        user.email@ == creds.email@,
        password_verifies(creds.password@, user.password_hash@),
        user.user_id & 0xF000_C000_0000_0000_0000u128 == 0x4000_8000_0000_0000_0000u128,
{
}

} // verus!
