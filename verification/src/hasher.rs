//! Password credentials. The keyed, memory-hard hash itself is computed
//! outside this library; here its outcome becomes the service's answer.

use vstd::prelude::*;
use vstd::string::StringExecFns;
use crate::errors::{AuthError, ErrorKind};

verus! {

pub open spec fn hash_failure() -> (ErrorKind, Seq<char>) {
    (ErrorKind::Authentication, "Could not hash password"@)
}

pub open spec fn verify_failure() -> (ErrorKind, Seq<char>) {
    (ErrorKind::Authentication, "Could not verify the password"@)
}

/// The storable hash where hashing gave one; where it gave none, an
/// authentication failure.
pub fn hash_password(hashed: Option<String>) -> (r: Result<String, AuthError>)
    ensures
        match hashed {
            Some(h) => r is Ok && r->Ok_0@ == h@,
            None => r is Err && r->Err_0@ == hash_failure(),
        },
{
    match hashed {
        Some(h) => Ok(h),
        None => Err(AuthError::AuthenticationError(String::from_str("Could not hash password"))),
    }
}

/// Whether the password matched, where the comparison was made: a mismatch
/// is an answer, not a failure. Where it could not be made, an
/// authentication failure.
pub fn verify(matched: Option<bool>) -> (r: Result<bool, AuthError>)
    ensures
        match matched {
            Some(b) => r is Ok && r->Ok_0 == b,
            None => r is Err && r->Err_0@ == verify_failure(),
        },
{
    match matched {
        Some(b) => Ok(b),
        None => Err(
            AuthError::AuthenticationError(String::from_str("Could not verify the password")),
        ),
    }
}

} // verus!
