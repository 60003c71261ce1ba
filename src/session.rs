use crate::models::User;
use crate::store::{ExpiringStore, Stamped, swept};
use crate::tokens::{new_token, parse_token, parsed_token};
use vstd::prelude::*;

verus! {

/// How long a session stays valid: seven days, in milliseconds.
pub const SESSION_RETENTION_MS: u64 = 604_800_000;

/// The identity that a session token stands for.
pub struct ActiveSession {
    pub email: String,
}

/// Sessions by token.
pub type SessionStore = ExpiringStore<ActiveSession>;

/// Why a request could not be tied to a user.
#[derive(Debug, Clone, Copy, PartialEq, Eq, Structural)]
pub enum AuthenticationError {
    /// No valid session, or its user is gone.
    Unauthenticated,
    /// A collaborator failed.
    ServerError,
}

/// The email that the session cookie `cookie` stands for, if the cookie is
/// present, is a well-formed token, and names a live session.
pub open spec fn session_email_spec(m: Map<u128, Stamped<ActiveSession>>, cookie: Option<Seq<char>>) -> Option<Seq<char>> {
    match cookie {
        None => None,
        Some(text) => match parsed_token(text) {
            None => None,
            Some(token) => if m.contains_key(token) {
                Some(m[token].value.email@)
            } else {
                None
            },
        },
    }
}

/// Resolves the session cookie of a request to the email of its user.
pub fn session_email(sessions: &SessionStore, cookie: Option<&str>) -> (r: Result<
    String,
    AuthenticationError,
>)
    ensures
        match (r, session_email_spec(sessions@, match cookie { Some(c) => Some(c@), None => None })) {
            (Ok(email), Some(expected)) => email@ == expected,
            (Err(e), None) => e == AuthenticationError::Unauthenticated,
            _ => false,
        },
{
    let text = match cookie {
        Some(c) => c,
        None => return Err(AuthenticationError::Unauthenticated),
    };
    let token = match parse_token(text) {
        Some(t) => t,
        None => return Err(AuthenticationError::Unauthenticated),
    };
    match sessions.get(token) {
        Some(entry) => Ok(entry.value.email.clone()),
        None => Err(AuthenticationError::Unauthenticated),
    }
}

/// Completes authentication with the user collaborator's answer for the
/// session's email: a failed lookup is a server error, a user that no
/// longer exists leaves the request unauthenticated.
pub fn authenticated_user(lookup: Result<Option<User>, ()>) -> (r: Result<User, AuthenticationError>)
    ensures
        match lookup {
            Err(()) => r == Err::<User, AuthenticationError>(AuthenticationError::ServerError),
            Ok(None) => r == Err::<User, AuthenticationError>(AuthenticationError::Unauthenticated),
            Ok(Some(u)) => r == Ok::<User, AuthenticationError>(u),
        },
{
    match lookup {
        Err(()) => Err(AuthenticationError::ServerError),
        Ok(None) => Err(AuthenticationError::Unauthenticated),
        Ok(Some(u)) => Ok(u),
    }
}

/// Records a session for `email` under `token`, started at `now`.
pub fn start_session_with_token(sessions: &mut SessionStore, token: u128, email: String, now: u64)
    ensures
        final(sessions)@ == old(sessions)@.insert(
            token,
            (Stamped { value: ActiveSession { email }, created: now }),
        ),
{
    sessions.insert(token, ActiveSession { email }, now);
}

/// Records a session for `email` under a fresh random token, and returns
/// the token.
pub fn start_session(sessions: &mut SessionStore, email: String, now: u64) -> (token: u128)
    ensures
        final(sessions)@ == old(sessions)@.insert(
            token,
            (Stamped { value: ActiveSession { email }, created: now }),
        ),
{
    let token = new_token();
    start_session_with_token(sessions, token, email, now);
    token
}

/// Evicts the sessions that are a week old or older at `now`.
pub fn remove_old_sessions(sessions: &mut SessionStore, now: u64)
    ensures
        final(sessions)@ == swept(old(sessions)@, now as int, SESSION_RETENTION_MS as int),
{
    sessions.sweep(now, SESSION_RETENTION_MS);
}

} // verus!
