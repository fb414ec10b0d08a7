//! The life of a confirmation token: issued with an expiry, looked up,
//! redeemed once for an account.
//!
//! Three choices are made here. Looking a token up does not test its expiry:
//! the caller sees what is stored. Redeeming a token withdraws it, so a
//! second redemption finds nothing. And redemption answers an unknown token
//! and an expired one differently: the first is not found (404), the second
//! is an invalid confirmation (401); only the password form hides which of
//! the two it was.

use vstd::prelude::*;
use vstd::pervasive::unreached;
use vstd::string::StringExecFns;
use crate::clock::{local_now, CONFIRMATION_TTL};
use crate::errors::{
    db_error_read, from_db_error, from_store_error, store_error_view, AuthError, ErrorKind,
    StoreError,
};
use crate::redemption::{redeem_advance_at, RedeemEvent, RedeemStep};
use crate::models::{expired, issued, Confirmation, ConfirmationView, User, UserView};
use crate::store::{
    duplicate_text, find, lemma_without_keeps_distinct, without, Registry, RegistryView,
};
use crate::token::{parse_token, random_uuid, uuid_parse};

verus! {

pub open spec fn bad_id() -> (ErrorKind, Seq<char>) {
    (ErrorKind::BadId, Seq::<char>::empty())
}

pub open spec fn not_found() -> (ErrorKind, Seq<char>) {
    (ErrorKind::NotFound, "Confirmation not found"@)
}

pub open spec fn invalid_confirmation() -> (ErrorKind, Seq<char>) {
    (ErrorKind::Authentication, "Invalid confirmation"@)
}

pub open spec fn duplicate_value() -> (ErrorKind, Seq<char>) {
    (ErrorKind::Duplicate, duplicate_text())
}

pub open spec fn confirmation_outcome(r: Result<Confirmation, AuthError>) -> Result<
    ConfirmationView,
    (ErrorKind, Seq<char>),
> {
    match r {
        Ok(c) => Ok(c@),
        Err(e) => Err(e@),
    }
}

pub open spec fn record_view(record: Option<Confirmation>) -> Option<ConfirmationView> {
    match record {
        Some(c) => Some(c@),
        None => None,
    }
}

pub open spec fn user_outcome(r: Result<User, AuthError>) -> Result<
    UserView,
    (ErrorKind, Seq<char>),
> {
    match r {
        Ok(u) => Ok(u@),
        Err(e) => Err(e@),
    }
}

pub open spec fn hash_outcome(r: Result<String, AuthError>) -> Result<
    Seq<char>,
    (ErrorKind, Seq<char>),
> {
    match r {
        Ok(h) => Ok(h@),
        Err(e) => Err(e@),
    }
}

/// What registering an address under a token at `now` returns.
pub open spec fn create_result(reg: RegistryView, email: Seq<char>, id: u128, now: i64) -> Result<
    ConfirmationView,
    (ErrorKind, Seq<char>),
> {
    if reg.admits_confirmation(issued(id, email, now)) {
        Ok(issued(id, email, now))
    } else {
        Err(duplicate_value())
    }
}

/// What is stored after registering an address under a token at `now`.
pub open spec fn create_state(reg: RegistryView, email: Seq<char>, id: u128, now: i64)
    -> RegistryView {
    if reg.admits_confirmation(issued(id, email, now)) {
        reg.with_confirmation(issued(id, email, now))
    } else {
        reg
    }
}

/// What a query by token gives: the record, or that there is none.
pub open spec fn found(record: Option<ConfirmationView>) -> Result<
    ConfirmationView,
    (ErrorKind, Seq<char>),
> {
    match record {
        Some(c) => Ok(c),
        None => Err(not_found()),
    }
}

/// What looking up a token by its text returns.
pub open spec fn lookup_result(reg: RegistryView, token: Seq<char>) -> Result<
    ConfirmationView,
    (ErrorKind, Seq<char>),
> {
    match uuid_parse(token) {
        None => Err(bad_id()),
        Some(id) => found(find(reg.confirmations, id)),
    }
}

/// Whether the record under a token can be redeemed at `now`: it exists and
/// `now` is before its expiry.
pub open spec fn redeemable(record: Option<ConfirmationView>, now: i64) -> Result<
    ConfirmationView,
    (ErrorKind, Seq<char>),
> {
    match record {
        None => Err(not_found()),
        Some(c) => if expired(c, now) {
            Err(invalid_confirmation())
        } else {
            Ok(c)
        },
    }
}

/// The account that a confirmation is redeemed for.
pub open spec fn account_for(c: ConfirmationView, user_id: u128, hash: Seq<char>) -> UserView {
    UserView { id: user_id, email: c.email, password_hash: hash }
}

/// What redeeming a token at `now` returns, given the outcome of hashing the
/// password and the identifier of the new account.
pub open spec fn redeem_result(
    reg: RegistryView,
    id: u128,
    now: i64,
    hashed: Result<Seq<char>, (ErrorKind, Seq<char>)>,
    user_id: u128,
) -> Result<UserView, (ErrorKind, Seq<char>)> {
    match redeemable(find(reg.confirmations, id), now) {
        Err(e) => Err(e),
        Ok(c) => match hashed {
            Err(e) => Err(e),
            Ok(h) => if reg.admits_user(account_for(c, user_id, h)) {
                Ok(account_for(c, user_id, h))
            } else {
                Err(duplicate_value())
            },
        },
    }
}

/// What is stored after redeeming a token: on success the account is added
/// and the token withdrawn; on failure nothing changes.
pub open spec fn redeem_state(
    reg: RegistryView,
    id: u128,
    now: i64,
    hashed: Result<Seq<char>, (ErrorKind, Seq<char>)>,
    user_id: u128,
) -> RegistryView {
    match redeem_result(reg, id, now, hashed, user_id) {
        Ok(u) => reg.with_user(u).without_confirmation(id),
        Err(_) => reg,
    }
}

/// What redeeming a token by its text returns.
pub open spec fn redeem_text_result(
    reg: RegistryView,
    token: Seq<char>,
    now: i64,
    hashed: Result<Seq<char>, (ErrorKind, Seq<char>)>,
    user_id: u128,
) -> Result<UserView, (ErrorKind, Seq<char>)> {
    match uuid_parse(token) {
        None => Err(bad_id()),
        Some(id) => redeem_result(reg, id, now, hashed, user_id),
    }
}

/// What is stored after redeeming a token by its text.
pub open spec fn redeem_text_state(
    reg: RegistryView,
    token: Seq<char>,
    now: i64,
    hashed: Result<Seq<char>, (ErrorKind, Seq<char>)>,
    user_id: u128,
) -> RegistryView {
    match uuid_parse(token) {
        None => reg,
        Some(id) => redeem_state(reg, id, now, hashed, user_id),
    }
}

/// Registers an address under the given token at the given moment.
pub fn create_confirmation_at(reg: &mut Registry, email: String, id: u128, now: i64) -> (r: Result<
    Confirmation,
    AuthError,
>)
    requires
        old(reg).wf(),
    ensures
        final(reg).wf(),
        confirmation_outcome(r) == create_result(old(reg)@, email@, id, now),
        final(reg)@ == create_state(old(reg)@, email@, id, now),
{
    let c = Confirmation::issue(id, email, now);
    let copy = c.duplicate();
    match reg.insert_confirmation(c) {
        Ok(_) => Ok(copy),
        Err(e) => Err(from_store_error(e)),
    }
}

/// Registers an address under a token drawn at random, at the wall clock's
/// reading: for some token and some moment, the outcome is that of
/// [`create_confirmation_at`].
pub fn create_confirmation(reg: &mut Registry, email: String) -> (r: Result<
    Confirmation,
    AuthError,
>)
    requires
        old(reg).wf(),
    ensures
        final(reg).wf(),
        exists|id: u128, now: i64|
            confirmation_outcome(r) == #[trigger] create_result(old(reg)@, email@, id, now)
                && final(reg)@ == create_state(old(reg)@, email@, id, now),
{
    let id = random_uuid();
    let now = local_now();
    create_confirmation_at(reg, email, id, now)
}

/// What the database holds under a token, given what it loaded for it. A
/// token is stored at most once: no row is no record, one row is the record,
/// and more rows than one are a failure of the store, as a failed query is.
pub open spec fn loaded_record(loaded: Result<Vec<Confirmation>, diesel::result::Error>) -> Result<
    Option<ConfirmationView>,
    (ErrorKind, Seq<char>),
> {
    match loaded {
        Err(e) => Err(store_error_view(db_error_read(e))),
        Ok(rows) => if rows@.len() == 0 {
            Ok(None)
        } else if rows@.len() == 1 {
            Ok(Some(rows@[0]@))
        } else {
            Err(store_error_view(StoreError::Other))
        },
    }
}

/// Reads the answer of a query by token: computes [`loaded_record`].
pub fn loaded_confirmation(loaded: Result<Vec<Confirmation>, diesel::result::Error>) -> (r: Result<
    Option<Confirmation>,
    AuthError,
>)
    ensures
        match r {
            Ok(record) => loaded_record(loaded) == Ok::<
                Option<ConfirmationView>,
                (ErrorKind, Seq<char>),
            >(record_view(record)),
            Err(e) => loaded_record(loaded) == Err::<
                Option<ConfirmationView>,
                (ErrorKind, Seq<char>),
            >(e@),
        },
{
    match loaded {
        Err(e) => Err(from_db_error(e)),
        Ok(rows) => {
            let mut rows = rows;
            if rows.len() > 1 {
                Err(from_store_error(StoreError::Other))
            } else {
                Ok(rows.pop())
            }
        },
    }
}

/// Turns the answer of a query by token into the record or `NotFound`.
pub fn found_confirmation(record: Option<Confirmation>) -> (r: Result<Confirmation, AuthError>)
    ensures
        confirmation_outcome(r) == found(
            record_view(record),
        ),
{
    match record {
        Some(c) => Ok(c),
        None => Err(AuthError::NotFound(String::from_str("Confirmation not found"))),
    }
}

/// Tests the answer of a query by token for redemption at `now`.
pub fn redeemable_confirmation(record: Option<Confirmation>, now: i64) -> (r: Result<
    Confirmation,
    AuthError,
>)
    ensures
        confirmation_outcome(r) == redeemable(
            record_view(record),
            now,
        ),
{
    match record {
        None => Err(AuthError::NotFound(String::from_str("Confirmation not found"))),
        Some(c) => {
            if c.is_expired(now) {
                Err(AuthError::AuthenticationError(String::from_str("Invalid confirmation")))
            } else {
                Ok(c)
            }
        },
    }
}

/// A confirmation for an address, under a token drawn at random and issued
/// at the wall clock's reading.
pub fn new_confirmation(email: String) -> (c: Confirmation)
    ensures
        exists|id: u128, now: i64| c@ == #[trigger] issued(id, email@, now),
{
    let id = random_uuid();
    let now = local_now();
    Confirmation::issue(id, email, now)
}

/// Looks up the confirmation stored under a token, expired or not.
pub fn lookup_confirmation(reg: &Registry, token_id: &str) -> (r: Result<Confirmation, AuthError>)
    ensures
        confirmation_outcome(r) == lookup_result(reg@, token_id@),
{
    match parse_token(token_id) {
        Err(e) => Err(e),
        Ok(id) => found_confirmation(reg.find_confirmation(id)),
    }
}

/// Redeems a token at the given moment for an account with the given
/// identifier and password hash, by taking the steps of a redemption
/// against what is stored.
pub fn redeem_confirmation_at(
    reg: &mut Registry,
    id: u128,
    now: i64,
    hashed: Result<String, AuthError>,
    user_id: u128,
) -> (r: Result<User, AuthError>)
    requires
        old(reg).wf(),
    ensures
        final(reg).wf(),
        user_outcome(r) == redeem_result(old(reg)@, id, now, hash_outcome(hashed), user_id),
        final(reg)@ == redeem_state(old(reg)@, id, now, hash_outcome(hashed), user_id),
{
    let found = reg.find_confirmation(id);
    let step = redeem_advance_at(
        RedeemStep::Load { token: id },
        RedeemEvent::Loaded(Ok(found)),
        now,
        user_id,
    );
    let step = match step {
        RedeemStep::Hash { token, confirmation } => redeem_advance_at(
            RedeemStep::Hash { token, confirmation },
            RedeemEvent::Hashed(hashed),
            now,
            user_id,
        ),
        other => other,
    };
    let step = match step {
        RedeemStep::Insert { token, user } => {
            let stored = match reg.insert_user(user.duplicate()) {
                Ok(_) => Ok(user.duplicate()),
                Err(e) => Err(from_store_error(e)),
            };
            redeem_advance_at(
                RedeemStep::Insert { token, user },
                RedeemEvent::Inserted(stored),
                now,
                user_id,
            )
        },
        other => other,
    };
    let step = match step {
        RedeemStep::Withdraw { token, user } => {
            reg.remove_confirmation(token);
            redeem_advance_at(
                RedeemStep::Withdraw { token, user },
                RedeemEvent::Withdrawn(Ok(())),
                now,
                user_id,
            )
        },
        other => other,
    };
    match step {
        RedeemStep::Done(r) => r,
        _ => unreached(),
    }
}

/// Redeems a token, given by its text, at the wall clock's reading for an
/// account with an identifier drawn at random: for some moment and some
/// identifier, the outcome is that of [`redeem_confirmation_at`] on the
/// parsed token, and `BadId` where the text is no token.
pub fn redeem_confirmation(reg: &mut Registry, token_id: &str, hashed: Result<String, AuthError>)
    -> (r: Result<User, AuthError>)
    requires
        old(reg).wf(),
    ensures
        final(reg).wf(),
        exists|now: i64, user_id: u128|
            user_outcome(r) == #[trigger] redeem_text_result(
                old(reg)@,
                token_id@,
                now,
                hash_outcome(hashed),
                user_id,
            ) && final(reg)@ == redeem_text_state(
                old(reg)@,
                token_id@,
                now,
                hash_outcome(hashed),
                user_id,
            ),
{
    let now = local_now();
    let user_id = random_uuid();
    match parse_token(token_id) {
        Err(e) => {
            assert(user_outcome(Err(e)) == redeem_text_result(
                old(reg)@,
                token_id@,
                now,
                hash_outcome(hashed),
                user_id,
            ));
            Err(e)
        },
        Ok(id) => {
            let r = redeem_confirmation_at(reg, id, now, hashed, user_id);
            assert(user_outcome(r) == redeem_text_result(
                old(reg)@,
                token_id@,
                now,
                hash_outcome(hashed),
                user_id,
            ));
            r
        },
    }
}

/// A token that nothing is stored under stays so when any token is withdrawn.
pub proof fn lemma_withdrawn_is_gone(cs: Seq<ConfirmationView>, id: u128)
    ensures
        find(without(cs, id), id) is None,
    decreases cs.len(),
{
    if cs.len() > 0 {
        lemma_withdrawn_is_gone(cs.drop_last(), id);
        if cs.last().id != id {
            let rest = without(cs.drop_last(), id);
            assert(rest.push(cs.last()).drop_last() =~= rest);
        }
    }
}

/// A confirmation that was just created is found under its token, with an
/// expiry exactly the time to live after the moment of creation.
pub proof fn law_created_then_found(
    reg: RegistryView,
    email: Seq<char>,
    id: u128,
    now: i64,
    token: Seq<char>,
)
    requires
        reg.admits_confirmation(issued(id, email, now)),
        uuid_parse(token) == Some(id),
        now + CONFIRMATION_TTL <= i64::MAX,
    ensures
        lookup_result(create_state(reg, email, id, now), token) == create_result(
            reg,
            email,
            id,
            now,
        ),
        lookup_result(create_state(reg, email, id, now), token)->Ok_0.expires_at == now
            + CONFIRMATION_TTL,
        lookup_result(create_state(reg, email, id, now), token)->Ok_0.email == email,
{
    let c = issued(id, email, now);
    assert(reg.confirmations.push(c).last() == c);
}

/// A token is redeemed exactly once. Where it is stored and has not expired,
/// the password was hashed and the address has no account yet, redemption
/// gives the account for the confirmation's address. Every further
/// redemption of the same token then fails with `NotFound` and changes
/// nothing, and no two accounts share an address.
pub proof fn law_redeemed_once(
    reg: RegistryView,
    id: u128,
    now: i64,
    hash: Seq<char>,
    user_id: u128,
    later: i64,
    hashed_again: Result<Seq<char>, (ErrorKind, Seq<char>)>,
    other_id: u128,
)
    requires
        reg.wf(),
        find(reg.confirmations, id) is Some,
        !expired(find(reg.confirmations, id)->0, now),
        reg.admits_user(account_for(find(reg.confirmations, id)->0, user_id, hash)),
    ensures
        redeem_result(reg, id, now, Ok(hash), user_id) == Ok::<UserView, (ErrorKind, Seq<char>)>(
            account_for(find(reg.confirmations, id)->0, user_id, hash),
        ),
        redeem_state(reg, id, now, Ok(hash), user_id).wf(),
        redeem_result(
            redeem_state(reg, id, now, Ok(hash), user_id),
            id,
            later,
            hashed_again,
            other_id,
        ) == Err::<UserView, (ErrorKind, Seq<char>)>(not_found()),
        redeem_state(
            redeem_state(reg, id, now, Ok(hash), user_id),
            id,
            later,
            hashed_again,
            other_id,
        ) == redeem_state(reg, id, now, Ok(hash), user_id),
{
    lemma_withdrawn_is_gone(reg.confirmations, id);
    lemma_without_keeps_distinct(reg.confirmations, id);
}

/// Redeeming an expired token and redeeming an unknown token both fail, and
/// neither changes what is stored.
pub proof fn law_expired_and_unknown_fail(
    reg: RegistryView,
    expired_id: u128,
    unknown_id: u128,
    now: i64,
    hashed: Result<Seq<char>, (ErrorKind, Seq<char>)>,
    user_id: u128,
)
    requires
        find(reg.confirmations, expired_id) is Some,
        expired(find(reg.confirmations, expired_id)->0, now),
        find(reg.confirmations, unknown_id) is None,
    ensures
        redeem_result(reg, expired_id, now, hashed, user_id) == Err::<
            UserView,
            (ErrorKind, Seq<char>),
        >(invalid_confirmation()),
        redeem_result(reg, unknown_id, now, hashed, user_id) == Err::<
            UserView,
            (ErrorKind, Seq<char>),
        >(not_found()),
        redeem_state(reg, expired_id, now, hashed, user_id) == reg,
        redeem_state(reg, unknown_id, now, hashed, user_id) == reg,
{
}

/// Of two registrations of one address, the second is rejected as a duplicate
/// and leaves stored what the first left: one confirmation for the address.
pub proof fn law_second_registration_rejected(
    reg: RegistryView,
    email: Seq<char>,
    first_id: u128,
    first_now: i64,
    second_id: u128,
    second_now: i64,
)
    requires
        reg.admits_confirmation(issued(first_id, email, first_now)),
    ensures
        create_result(reg, email, first_id, first_now) is Ok,
        create_result(
            create_state(reg, email, first_id, first_now),
            email,
            second_id,
            second_now,
        ) == Err::<ConfirmationView, (ErrorKind, Seq<char>)>(duplicate_value()),
        create_state(
            create_state(reg, email, first_id, first_now),
            email,
            second_id,
            second_now,
        ) == create_state(reg, email, first_id, first_now),
        create_state(reg, email, first_id, first_now).confirmations
            == reg.confirmations.push(issued(first_id, email, first_now)),
{
    let c = issued(first_id, email, first_now);
    let after = reg.confirmations.push(c);
    assert(after[after.len() - 1].email == email);
}

} // verus!
