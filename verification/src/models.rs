//! The records of the service.

use vstd::prelude::*;
use crate::clock::{expires_after, expiry_after};

verus! {

/// A pending registration: a token, the address it was mailed to and the
/// moment after which it can no longer be redeemed.
#[derive(Debug)]
pub struct Confirmation {
    pub id: u128,
    pub email: String,
    pub expires_at: i64,
}

pub struct ConfirmationView {
    pub id: u128,
    pub email: Seq<char>,
    pub expires_at: i64,
}

impl View for Confirmation {
    type V = ConfirmationView;

    open spec fn view(&self) -> ConfirmationView {
        ConfirmationView { id: self.id, email: self.email@, expires_at: self.expires_at }
    }
}

/// An account.
#[derive(Debug)]
pub struct User {
    pub id: u128,
    pub email: String,
    pub password_hash: String,
}

pub struct UserView {
    pub id: u128,
    pub email: Seq<char>,
    pub password_hash: Seq<char>,
}

impl View for User {
    type V = UserView;

    open spec fn view(&self) -> UserView {
        UserView { id: self.id, email: self.email@, password_hash: self.password_hash@ }
    }
}

/// What a session keeps of an account: never the password hash.
#[derive(Debug)]
pub struct SessionUser {
    pub id: u128,
    pub email: String,
}

pub struct SessionUserView {
    pub id: u128,
    pub email: Seq<char>,
}

impl View for SessionUser {
    type V = SessionUserView;

    open spec fn view(&self) -> SessionUserView {
        SessionUserView { id: self.id, email: self.email@ }
    }
}

/// The confirmation that is issued at `now` under the given token.
pub open spec fn issued(id: u128, email: Seq<char>, now: i64) -> ConfirmationView {
    ConfirmationView { id, email, expires_at: expiry_after(now) }
}

/// A confirmation can be redeemed strictly before its expiry.
pub open spec fn expired(c: ConfirmationView, now: i64) -> bool {
    c.expires_at <= now
}

/// The part of an account that a session may hold.
pub open spec fn projection(u: UserView) -> SessionUserView {
    SessionUserView { id: u.id, email: u.email }
}

impl Confirmation {
    /// Issues a confirmation at `now`.
    pub fn issue(id: u128, email: String, now: i64) -> (c: Confirmation)
        ensures
            c@ == issued(id, email@, now),
    {
        Confirmation { id, email, expires_at: expires_after(now) }
    }

    pub fn is_expired(&self, now: i64) -> (b: bool)
        ensures
            b == expired(self@, now),
    {
        self.expires_at <= now
    }

    /// A copy with the same fields.
    pub fn duplicate(&self) -> (c: Confirmation)
        ensures
            c@ == self@,
    {
        Confirmation { id: self.id, email: self.email.clone(), expires_at: self.expires_at }
    }
}

impl User {
    pub fn new(id: u128, email: String, password_hash: String) -> (u: User)
        ensures
            u@ == (UserView { id, email: email@, password_hash: password_hash@ }),
    {
        User { id, email, password_hash }
    }

    /// A copy with the same fields.
    pub fn duplicate(&self) -> (u: User)
        ensures
            u@ == self@,
    {
        User {
            id: self.id,
            email: self.email.clone(),
            password_hash: self.password_hash.clone(),
        }
    }

    /// The projection that a session holds.
    pub fn session_user(&self) -> (s: SessionUser)
        ensures
            s@ == projection(self@),
    {
        SessionUser { id: self.id, email: self.email.clone() }
    }
}

impl SessionUser {
    /// A copy with the same fields.
    pub fn duplicate(&self) -> (s: SessionUser)
        ensures
            s@ == self@,
    {
        SessionUser { id: self.id, email: self.email.clone() }
    }
}

} // verus!
