//! What the service answers: the reply to each request, decided from the
//! session and from the outcome of the work that the request asked for.

use vstd::prelude::*;
use vstd::string::StringExecFns;
use crate::clock::local_now;
use crate::confirmation::confirmation_outcome;
use crate::errors::{message_of, status_of, AuthError, ErrorKind};
use crate::models::{expired, Confirmation, ConfirmationView, SessionUser, SessionUserView};
use crate::session::{current_user, is_signed_in, set_current_user, Session};

verus! {

/// A reply, before it is put on the wire.
#[derive(Debug)]
pub enum Reply {
    /// 200 with an empty body.
    Done,
    /// 400 with an empty body.
    Refused,
    /// 201 with the signed-in user as JSON.
    Created(SessionUser),
    /// 200 with the form in which the password is set.
    PasswordForm { path_id: String, email: String },
    /// 302 to the signed-in user's page.
    Home,
    /// 301 to the start of registration.
    Restart,
    /// A failure's status with its message as JSON.
    Failure { status: u16, message: String },
}

pub enum ReplyView {
    Done,
    Refused,
    Created(SessionUserView),
    PasswordForm { path_id: Seq<char>, email: Seq<char> },
    Home,
    Restart,
    Failure { status: u16, message: Seq<char> },
}

impl View for Reply {
    type V = ReplyView;

    open spec fn view(&self) -> ReplyView {
        match self {
            Reply::Done => ReplyView::Done,
            Reply::Refused => ReplyView::Refused,
            Reply::Created(u) => ReplyView::Created(u@),
            Reply::PasswordForm { path_id, email } => ReplyView::PasswordForm {
                path_id: path_id@,
                email: email@,
            },
            Reply::Home => ReplyView::Home,
            Reply::Restart => ReplyView::Restart,
            Reply::Failure { status, message } => ReplyView::Failure {
                status: *status,
                message: message@,
            },
        }
    }
}

/// The status line of a reply.
pub open spec fn reply_status(r: ReplyView) -> u16 {
    match r {
        ReplyView::Done => 200,
        ReplyView::Refused => 400,
        ReplyView::Created(_) => 201,
        ReplyView::PasswordForm { .. } => 200,
        ReplyView::Home => 302,
        ReplyView::Restart => 301,
        ReplyView::Failure { status, .. } => status,
    }
}

/// Where a reply sends the client on, if anywhere.
pub open spec fn reply_location(r: ReplyView) -> Option<Seq<char>> {
    match r {
        ReplyView::Home => Some("/me"@),
        ReplyView::Restart => Some("/register"@),
        _ => None,
    }
}

/// Work that was handed off: it finished with a result, or was dropped
/// before it could.
#[derive(Debug)]
pub enum TaskOutcome<T> {
    Finished(Result<T, AuthError>),
    Canceled,
}

pub open spec fn canceled() -> (ErrorKind, Seq<char>) {
    (ErrorKind::Generic, "Could not complete the process"@)
}

/// The reply to a request for the password form.
pub open spec fn form_reply(
    signed_in: bool,
    path_id: Seq<char>,
    lookup: Result<ConfirmationView, (ErrorKind, Seq<char>)>,
    now: i64,
) -> ReplyView {
    if signed_in {
        ReplyView::Home
    } else {
        match lookup {
            Ok(c) => if expired(c, now) {
                ReplyView::Restart
            } else {
                ReplyView::PasswordForm { path_id, email: c.email }
            },
            Err(_) => ReplyView::Restart,
        }
    }
}

impl Reply {
    pub fn status(&self) -> (code: u16)
        ensures
            code == reply_status(self@),
    {
        match self {
            Reply::Done => 200,
            Reply::Refused => 400,
            Reply::Created(_) => 201,
            Reply::PasswordForm { .. } => 200,
            Reply::Home => 302,
            Reply::Restart => 301,
            Reply::Failure { status, .. } => *status,
        }
    }

    pub fn location(&self) -> (target: Option<String>)
        ensures
            match target {
                Some(t) => reply_location(self@) == Some(t@),
                None => reply_location(self@) is None,
            },
    {
        match self {
            Reply::Home => Some(String::from_str("/me")),
            Reply::Restart => Some(String::from_str("/register")),
            _ => None,
        }
    }
}

/// The reply that sends a signed-in user to their page.
pub fn to_home() -> (r: Reply)
    ensures
        r@ == ReplyView::Home,
{
    Reply::Home
}

/// The reply that reports a failure: its status and its message.
pub fn error_response(error: &AuthError) -> (r: Reply)
    ensures
        r@ == (ReplyView::Failure { status: status_of(error@.0), message: message_of(error@) }),
{
    Reply::Failure { status: error.status_code(), message: error.message() }
}

/// Whether a request declares a JSON body: its content type is there and is
/// exactly `application/json`.
pub fn is_json_request(content_type: Option<&str>) -> (b: bool)
    ensures
        b == (content_type is Some && content_type->0@ == "application/json"@),
{
    match content_type {
        Some(value) => String::from_str(value) == String::from_str("application/json"),
        None => false,
    }
}

/// Registration is for those who are not signed in: the refusal for one who
/// is, and nothing for one who is not.
pub fn signed_in_refusal(session: &Session) -> (r: Option<Reply>)
    ensures
        match r {
            Some(reply) => current_user(session.identity) is Some && reply@ == ReplyView::Refused,
            None => current_user(session.identity) is None,
        },
{
    if is_signed_in(session) {
        Some(Reply::Refused)
    } else {
        None
    }
}

/// The result of handed-off work; work that was dropped is a generic failure.
pub fn task_result<T>(outcome: TaskOutcome<T>) -> (r: Result<T, AuthError>)
    ensures
        match outcome {
            TaskOutcome::Finished(Ok(v)) => r == Ok::<T, AuthError>(v),
            TaskOutcome::Finished(Err(e)) => r == Err::<T, AuthError>(e),
            TaskOutcome::Canceled => r is Err && r->Err_0@ == canceled(),
        },
{
    match outcome {
        TaskOutcome::Finished(r) => r,
        TaskOutcome::Canceled => Err(
            AuthError::GenericError(String::from_str("Could not complete the process")),
        ),
    }
}

/// The reply to a registration. One who is signed in is refused, whatever
/// became of the work. For one who is not, the reply says whether the
/// confirmation was stored and mailed.
pub fn send_confirmation(session: &Session, outcome: TaskOutcome<()>) -> (r: Result<
    Reply,
    AuthError,
>)
    ensures
        current_user(session.identity) is Some ==> r is Ok && r->Ok_0@ == ReplyView::Refused,
        current_user(session.identity) is None ==> match outcome {
            TaskOutcome::Finished(Ok(_)) => r is Ok && r->Ok_0@ == ReplyView::Done,
            TaskOutcome::Finished(Err(e)) => r == Err::<Reply, AuthError>(e),
            TaskOutcome::Canceled => r is Err && r->Err_0@ == canceled(),
        },
{
    if is_signed_in(session) {
        return Ok(Reply::Refused);
    }
    match task_result(outcome) {
        Ok(_) => Ok(Reply::Done),
        Err(e) => Err(e),
    }
}

/// The reply to a redemption. One who is signed in is refused and the
/// session left as it was. For one who is not, the new user is signed in
/// and returned, or the failure is passed on and the session left as it was.
pub fn create_account(session: &mut Session, outcome: TaskOutcome<SessionUser>) -> (r: Result<
    Reply,
    AuthError,
>)
    ensures
        current_user(old(session).identity) is Some ==> r is Ok && r->Ok_0@ == ReplyView::Refused
            && *final(session) == *old(session),
        current_user(old(session).identity) is None ==> match outcome {
            TaskOutcome::Finished(Ok(user)) => r is Ok && r->Ok_0@ == ReplyView::Created(user@)
                && current_user(final(session).identity) == Some(user@),
            TaskOutcome::Finished(Err(e)) => r == Err::<Reply, AuthError>(e) && *final(session)
                == *old(session),
            TaskOutcome::Canceled => r is Err && r->Err_0@ == canceled() && *final(session)
                == *old(session),
        },
{
    if is_signed_in(session) {
        return Ok(Reply::Refused);
    }
    match task_result(outcome) {
        Ok(user) => {
            set_current_user(session, &user);
            Ok(Reply::Created(user))
        },
        Err(e) => Err(e),
    }
}

/// The reply to a request for the password form at the given moment: one
/// who is signed in is sent home; a token that is stored and has not expired
/// gets the form; any other token is sent back to the start of registration.
pub fn password_form_at(
    session: &Session,
    path_id: String,
    lookup: Result<Confirmation, AuthError>,
    now: i64,
) -> (r: Reply)
    ensures
        r@ == form_reply(
            current_user(session.identity) is Some,
            path_id@,
            confirmation_outcome(lookup),
            now,
        ),
{
    if is_signed_in(session) {
        to_home()
    } else {
        match lookup {
            Ok(c) => {
                if c.is_expired(now) {
                    Reply::Restart
                } else {
                    Reply::PasswordForm { path_id, email: c.email }
                }
            },
            Err(_) => Reply::Restart,
        }
    }
}

/// The reply to a request for the password form at the wall clock's reading:
/// for some moment, that of [`password_form_at`].
pub fn show_password_form(
    session: &Session,
    path_id: String,
    lookup: Result<Confirmation, AuthError>,
) -> (r: Reply)
    ensures
        exists|now: i64|
            r@ == #[trigger] form_reply(
                current_user(session.identity) is Some,
                path_id@,
                confirmation_outcome(lookup),
                now,
            ),
{
    let now = local_now();
    password_form_at(session, path_id, lookup, now)
}

/// A token that has expired and a token that is not stored get the same
/// reply to a request for the password form, whatever the lookup's failure.
pub proof fn law_form_hides_expiry(
    signed_in: bool,
    path_id: Seq<char>,
    stored: ConfirmationView,
    failure: (ErrorKind, Seq<char>),
    now: i64,
)
    requires
        expired(stored, now),
    ensures
        form_reply(signed_in, path_id, Ok(stored), now) == form_reply(
            signed_in,
            path_id,
            Err(failure),
            now,
        ),
{
}

/// No failure of a lookup or of a redemption is answered with a status of
/// 500: a bad identifier gives 400, an unknown token 404, an expired one 401
/// and a duplicate 400.
pub proof fn law_token_failures_are_client_errors(kind: ErrorKind)
    requires
        kind != ErrorKind::Process,
    ensures
        400 <= status_of(kind) < 500,
{
}

} // verus!
