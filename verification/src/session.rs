//! The identity that a session carries.

use vstd::prelude::*;
use vstd::string::StringExecFns;
use crate::errors::{AuthError, ErrorKind};
use crate::models::{SessionUser, SessionUserView};

verus! {

/// What a session holds under the key of the signed-in user.
#[derive(Debug)]
pub enum Identity {
    /// The session could not be read.
    Unreadable,
    /// Nothing is stored.
    Absent,
    /// What is stored is not a user.
    Malformed,
    /// The signed-in user.
    Present(SessionUser),
}

/// The state of one session, handed to every call that needs it.
#[derive(Debug)]
pub struct Session {
    pub identity: Identity,
}

/// The key under which a session holds its user.
pub const SESSION_KEY: &'static str = "user";

pub open spec fn no_session_user() -> (ErrorKind, Seq<char>) {
    (ErrorKind::Authentication, "Could not retrieve user from session"@)
}

/// The user of a session, where it holds one.
pub open spec fn current_user(identity: Identity) -> Option<SessionUserView> {
    match identity {
        Identity::Present(u) => Some(u@),
        _ => None,
    }
}

impl Session {
    /// A session that holds nothing: it could be read, and nothing is stored
    /// under the user's key.
    pub fn new() -> (s: Session)
        ensures
            s.identity is Absent,
            current_user(s.identity) is None,
    {
        Session { identity: Identity::Absent }
    }
}

/// The user that is signed in, or an authentication failure where the
/// session holds none that can be read.
pub fn get_current_user(session: &Session) -> (r: Result<SessionUser, AuthError>)
    ensures
        match current_user(session.identity) {
            Some(u) => r is Ok && r->Ok_0@ == u,
            None => r is Err && r->Err_0@ == no_session_user(),
        },
{
    match &session.identity {
        Identity::Present(u) => Ok(u.duplicate()),
        _ => Err(
            AuthError::AuthenticationError(
                String::from_str("Could not retrieve user from session"),
            ),
        ),
    }
}

/// Whether a user is signed in: whether [`get_current_user`] succeeds.
pub fn is_signed_in(session: &Session) -> (b: bool)
    ensures
        b == current_user(session.identity) is Some,
{
    match get_current_user(session) {
        Ok(_) => true,
        _ => false,
    }
}

/// Signs a user in: from now on the session holds this user.
pub fn set_current_user(session: &mut Session, user: &SessionUser)
    ensures
        current_user(final(session).identity) == Some(user@),
{
    session.identity = Identity::Present(user.duplicate());
}

} // verus!
