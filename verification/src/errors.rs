//! The closed set of failures that every component reports.

use vstd::prelude::*;
use vstd::string::StringExecFns;

verus! {

/// Which variant of [`AuthError`] a value is.
#[derive(Clone, Copy, Debug, PartialEq, Eq, Structural)]
pub enum ErrorKind {
    Authentication,
    BadId,
    Duplicate,
    Generic,
    NotFound,
    Process,
}

/// A failure of registration or sign-in.
#[derive(Clone, Debug)]
pub enum AuthError {
    AuthenticationError(String),
    BadId,
    DuplicateValue(String),
    GenericError(String),
    /// A resource that was asked for does not exist.
    NotFound(String),
    ProcessError(String),
}

impl View for AuthError {
    type V = (ErrorKind, Seq<char>);

    open spec fn view(&self) -> (ErrorKind, Seq<char>) {
        match self {
            AuthError::AuthenticationError(m) => (ErrorKind::Authentication, m@),
            AuthError::BadId => (ErrorKind::BadId, Seq::<char>::empty()),
            AuthError::DuplicateValue(m) => (ErrorKind::Duplicate, m@),
            AuthError::GenericError(m) => (ErrorKind::Generic, m@),
            AuthError::NotFound(m) => (ErrorKind::NotFound, m@),
            AuthError::ProcessError(m) => (ErrorKind::Process, m@),
        }
    }
}

/// The HTTP status that a failure of the given kind is answered with.
pub open spec fn status_of(kind: ErrorKind) -> u16 {
    match kind {
        ErrorKind::Authentication => 401,
        ErrorKind::BadId => 400,
        ErrorKind::Duplicate => 400,
        ErrorKind::Generic => 400,
        ErrorKind::NotFound => 404,
        ErrorKind::Process => 500,
    }
}

/// The message that the reply's JSON body carries.
pub open spec fn message_of(e: (ErrorKind, Seq<char>)) -> Seq<char> {
    if e.0 == ErrorKind::BadId {
        "Invalid ID"@
    } else {
        e.1
    }
}

/// The word that leads the printed form of a failure.
pub open spec fn label_of(kind: ErrorKind) -> Seq<char> {
    match kind {
        ErrorKind::Authentication => "AuthenticationError"@,
        ErrorKind::BadId => "BadId"@,
        ErrorKind::Duplicate => "DuplicateValue"@,
        ErrorKind::Generic => "GenericError"@,
        ErrorKind::NotFound => "NotFound"@,
        ErrorKind::Process => "ProcessFailed"@,
    }
}

/// The printed form of a failure: the label alone for a bad identifier,
/// else the label, a colon, a space and the detail.
pub open spec fn text_of(e: (ErrorKind, Seq<char>)) -> Seq<char> {
    if e.0 == ErrorKind::BadId {
        label_of(e.0)
    } else {
        label_of(e.0) + ": "@ + e.1
    }
}

impl AuthError {
    pub fn kind(&self) -> (k: ErrorKind)
        ensures
            k == self@.0,
    {
        match self {
            AuthError::AuthenticationError(_) => ErrorKind::Authentication,
            AuthError::BadId => ErrorKind::BadId,
            AuthError::DuplicateValue(_) => ErrorKind::Duplicate,
            AuthError::GenericError(_) => ErrorKind::Generic,
            AuthError::NotFound(_) => ErrorKind::NotFound,
            AuthError::ProcessError(_) => ErrorKind::Process,
        }
    }

    /// The HTTP status of the reply that reports this failure.
    pub fn status_code(&self) -> (code: u16)
        ensures
            code == status_of(self@.0),
    {
        match self {
            AuthError::AuthenticationError(_) => 401,
            AuthError::BadId => 400,
            AuthError::DuplicateValue(_) => 400,
            AuthError::GenericError(_) => 400,
            AuthError::NotFound(_) => 404,
            AuthError::ProcessError(_) => 500,
        }
    }

    /// The message of the reply that reports this failure.
    pub fn message(&self) -> (m: String)
        ensures
            m@ == message_of(self@),
    {
        match self {
            AuthError::BadId => String::from_str("Invalid ID"),
            AuthError::AuthenticationError(m) => m.clone(),
            AuthError::DuplicateValue(m) => m.clone(),
            AuthError::GenericError(m) => m.clone(),
            AuthError::NotFound(m) => m.clone(),
            AuthError::ProcessError(m) => m.clone(),
        }
    }

    /// The printed form of this failure.
    pub fn describe(&self) -> (text: String)
        ensures
            text@ == text_of(self@),
    {
        match self {
            AuthError::BadId => String::from_str("BadId"),
            AuthError::AuthenticationError(m) => labelled("AuthenticationError", m),
            AuthError::DuplicateValue(m) => labelled("DuplicateValue", m),
            AuthError::GenericError(m) => labelled("GenericError", m),
            AuthError::NotFound(m) => labelled("NotFound", m),
            AuthError::ProcessError(m) => labelled("ProcessFailed", m),
        }
    }

    /// A copy with the same kind and detail.
    pub fn duplicate(&self) -> (copy: AuthError)
        ensures
            copy@ == self@,
    {
        match self {
            AuthError::BadId => AuthError::BadId,
            AuthError::AuthenticationError(m) => AuthError::AuthenticationError(m.clone()),
            AuthError::DuplicateValue(m) => AuthError::DuplicateValue(m.clone()),
            AuthError::GenericError(m) => AuthError::GenericError(m.clone()),
            AuthError::NotFound(m) => AuthError::NotFound(m.clone()),
            AuthError::ProcessError(m) => AuthError::ProcessError(m.clone()),
        }
    }
}

fn labelled(label: &str, detail: &String) -> (text: String)
    ensures
        text@ == label@ + ": "@ + detail@,
{
    let mut text = String::from_str(label);
    text.append(": ");
    text.append(detail.as_str());
    text
}

/// What the persistence store reports of a rejected statement.
#[derive(Clone, Debug)]
pub enum StoreError {
    /// The database refused the statement. `unique` says that a uniqueness
    /// constraint was violated.
    Database { unique: bool, message: String, details: Option<String> },
    /// Any other failure of the store.
    Other,
}

/// The text that a rejected statement is reported with: its details where it
/// has any, else its message.
pub open spec fn store_text(message: Seq<char>, details: Option<Seq<char>>) -> Seq<char> {
    match details {
        Some(d) => d,
        None => message,
    }
}

/// The failure that stands for a store error.
pub open spec fn store_error_view(e: StoreError) -> (ErrorKind, Seq<char>) {
    match e {
        StoreError::Database { unique, message, details } => {
            let text = match details {
                Some(d) => store_text(message@, Some(d@)),
                None => store_text(message@, None),
            };
            if unique {
                (ErrorKind::Duplicate, text)
            } else {
                (ErrorKind::Generic, text)
            }
        },
        StoreError::Other => (ErrorKind::Generic, "Some database error occurred"@),
    }
}

/// Maps a store error: a uniqueness violation is a duplicate value, all else
/// is generic.
pub fn from_store_error(error: StoreError) -> (e: AuthError)
    ensures
        e@ == store_error_view(error),
{
    match error {
        StoreError::Database { unique, message, details } => {
            let text = match details {
                Some(d) => d,
                None => message,
            };
            if unique {
                AuthError::DuplicateValue(text)
            } else {
                AuthError::GenericError(text)
            }
        },
        StoreError::Other => AuthError::GenericError(
            String::from_str("Some database error occurred"),
        ),
    }
}

/// The failure that a malformed identifier is reported with.
pub fn from_uuid_error(error: uuid::Error) -> (e: AuthError)
    ensures
        e@ == (ErrorKind::BadId, Seq::<char>::empty()),
{
    let _ = error;
    AuthError::BadId
}

/// What is read from an error of the database layer: for a statement that
/// the database refused, whether a uniqueness constraint was violated, its
/// message and its details; `Other` for every other error.
pub uninterp spec fn db_error_read(error: diesel::result::Error) -> StoreError;

/// The failure that stands for an error of the database layer: that of what
/// is read from it.
pub fn from_db_error(error: diesel::result::Error) -> (e: AuthError)
    ensures
        e@ == store_error_view(db_error_read(error)),
{
    from_store_error(store_error(error))
}

/// `uuid::Error`, carried through as it came.
#[verifier::external_type_specification]
#[verifier::external_body]
pub struct ExUuidError(uuid::Error);

/// `diesel::result::Error`, carried through as it came.
#[verifier::external_type_specification]
#[verifier::external_body]
pub struct ExDbError(diesel::result::Error);

/// Reads a `diesel::result::Error`: for its variant `DatabaseError`, whether
/// the kind is `UniqueViolation`, and what `message()` and `details()` of the
/// attached information return; `Other` for every other variant. The result
/// is a function of the error alone, named [`db_error_read`].
#[verifier::external_body]
fn store_error(error: diesel::result::Error) -> (r: StoreError)
    ensures
        r == db_error_read(error),
{
    match error {
        diesel::result::Error::DatabaseError(kind, info) => StoreError::Database {
            unique: match kind {
                diesel::result::DatabaseErrorKind::UniqueViolation => true,
                _ => false,
            },
            message: String::from(info.message()),
            details: info.details().map(String::from),
        },
        _ => StoreError::Other,
    }
}

} // verus!
