//! Redemption step by step: what the service asks of the store and of the
//! hasher, and what it makes of each answer. Whoever holds the store and the
//! hasher performs the step that is asked for and hands the answer back.

use vstd::prelude::*;
use crate::clock::local_now;
use crate::confirmation::{
    account_for, duplicate_value, hash_outcome, redeem_result, redeemable,
    redeemable_confirmation, user_outcome,
};
use crate::errors::{AuthError, ErrorKind};
use crate::models::{Confirmation, ConfirmationView, User, UserView};
use crate::store::{find, RegistryView};
use crate::token::{parse_token, parsed_token, random_uuid};

verus! {

/// What is to be done next while a token is redeemed.
#[derive(Debug)]
pub enum RedeemStep {
    /// Query the store for the confirmation under the token.
    Load { token: u128 },
    /// Hash the password.
    Hash { token: u128, confirmation: Confirmation },
    /// Insert the account and report the stored row.
    Insert { token: u128, user: User },
    /// Withdraw the token.
    Withdraw { token: u128, user: User },
    /// Answer the request.
    Done(Result<User, AuthError>),
}

/// The answer to a step.
#[derive(Debug)]
pub enum RedeemEvent {
    Loaded(Result<Option<Confirmation>, AuthError>),
    Hashed(Result<String, AuthError>),
    Inserted(Result<User, AuthError>),
    Withdrawn(Result<(), AuthError>),
}

pub enum StepView {
    Load { token: u128 },
    Hash { token: u128, confirmation: ConfirmationView },
    Insert { token: u128, user: UserView },
    Withdraw { token: u128, user: UserView },
    Done(Result<UserView, (ErrorKind, Seq<char>)>),
}

pub enum EventView {
    Loaded(Result<Option<ConfirmationView>, (ErrorKind, Seq<char>)>),
    Hashed(Result<Seq<char>, (ErrorKind, Seq<char>)>),
    Inserted(Result<UserView, (ErrorKind, Seq<char>)>),
    Withdrawn(Result<(), (ErrorKind, Seq<char>)>),
}

impl View for RedeemStep {
    type V = StepView;

    open spec fn view(&self) -> StepView {
        match self {
            RedeemStep::Load { token } => StepView::Load { token: *token },
            RedeemStep::Hash { token, confirmation } => StepView::Hash {
                token: *token,
                confirmation: confirmation@,
            },
            RedeemStep::Insert { token, user } => StepView::Insert { token: *token, user: user@ },
            RedeemStep::Withdraw { token, user } => StepView::Withdraw {
                token: *token,
                user: user@,
            },
            RedeemStep::Done(r) => StepView::Done(user_outcome(*r)),
        }
    }
}

impl View for RedeemEvent {
    type V = EventView;

    open spec fn view(&self) -> EventView {
        match self {
            RedeemEvent::Loaded(Ok(Some(c))) => EventView::Loaded(Ok(Some(c@))),
            RedeemEvent::Loaded(Ok(None)) => EventView::Loaded(Ok(None)),
            RedeemEvent::Loaded(Err(e)) => EventView::Loaded(Err(e@)),
            RedeemEvent::Hashed(r) => EventView::Hashed(hash_outcome(*r)),
            RedeemEvent::Inserted(r) => EventView::Inserted(user_outcome(*r)),
            RedeemEvent::Withdrawn(Ok(_)) => EventView::Withdrawn(Ok(())),
            RedeemEvent::Withdrawn(Err(e)) => EventView::Withdrawn(Err(e@)),
        }
    }
}

/// The first step for a token given by its text: the query, or the answer
/// `BadId` where the text is no token.
pub open spec fn first_step(token: Seq<char>) -> StepView {
    match parsed_token(token) {
        Ok(id) => StepView::Load { token: id },
        Err(e) => StepView::Done(Err(e)),
    }
}

/// The step that follows a step and its answer, at the moment `now` and with
/// `user_id` for a new account. A failure ends the redemption with that
/// failure. An answer to another step than the one asked for changes
/// nothing.
pub open spec fn next_step(step: StepView, event: EventView, now: i64, user_id: u128) -> StepView {
    match step {
        StepView::Load { token } => match event {
            EventView::Loaded(Err(e)) => StepView::Done(Err(e)),
            EventView::Loaded(Ok(record)) => match redeemable(record, now) {
                Err(e) => StepView::Done(Err(e)),
                Ok(c) => StepView::Hash { token, confirmation: c },
            },
            _ => step,
        },
        StepView::Hash { token, confirmation } => match event {
            EventView::Hashed(Err(e)) => StepView::Done(Err(e)),
            EventView::Hashed(Ok(h)) => StepView::Insert {
                token,
                user: account_for(confirmation, user_id, h),
            },
            _ => step,
        },
        StepView::Insert { token, user } => match event {
            EventView::Inserted(Err(e)) => StepView::Done(Err(e)),
            EventView::Inserted(Ok(stored)) => StepView::Withdraw { token, user: stored },
            _ => step,
        },
        StepView::Withdraw { token, user } => match event {
            EventView::Withdrawn(Err(e)) => StepView::Done(Err(e)),
            EventView::Withdrawn(Ok(_)) => StepView::Done(Ok(user)),
            _ => step,
        },
        StepView::Done(_) => step,
    }
}

/// Begins the redemption of a token given by its text.
pub fn redeem_begin(token_id: &str) -> (step: RedeemStep)
    ensures
        step@ == first_step(token_id@),
{
    match parse_token(token_id) {
        Ok(id) => RedeemStep::Load { token: id },
        Err(e) => RedeemStep::Done(Err(e)),
    }
}

/// Takes the answer to a step at the given moment.
pub fn redeem_advance_at(step: RedeemStep, event: RedeemEvent, now: i64, user_id: u128) -> (next:
    RedeemStep)
    ensures
        next@ == next_step(step@, event@, now, user_id),
{
    match step {
        RedeemStep::Load { token } => match event {
            RedeemEvent::Loaded(Err(e)) => RedeemStep::Done(Err(e)),
            RedeemEvent::Loaded(Ok(record)) => match redeemable_confirmation(record, now) {
                Err(e) => RedeemStep::Done(Err(e)),
                Ok(c) => RedeemStep::Hash { token, confirmation: c },
            },
            _ => RedeemStep::Load { token },
        },
        RedeemStep::Hash { token, confirmation } => match event {
            RedeemEvent::Hashed(Err(e)) => RedeemStep::Done(Err(e)),
            RedeemEvent::Hashed(Ok(h)) => RedeemStep::Insert {
                token,
                user: User::new(user_id, confirmation.email, h),
            },
            _ => RedeemStep::Hash { token, confirmation },
        },
        RedeemStep::Insert { token, user } => match event {
            RedeemEvent::Inserted(Err(e)) => RedeemStep::Done(Err(e)),
            RedeemEvent::Inserted(Ok(stored)) => RedeemStep::Withdraw { token, user: stored },
            _ => RedeemStep::Insert { token, user },
        },
        RedeemStep::Withdraw { token, user } => match event {
            RedeemEvent::Withdrawn(Err(e)) => RedeemStep::Done(Err(e)),
            RedeemEvent::Withdrawn(Ok(_)) => RedeemStep::Done(Ok(user)),
            _ => RedeemStep::Withdraw { token, user },
        },
        RedeemStep::Done(r) => RedeemStep::Done(r),
    }
}

/// Takes the answer to a step at the wall clock's reading, with an
/// identifier drawn at random for a new account: for some moment and some
/// identifier, the step is that of [`redeem_advance_at`].
pub fn redeem_advance(step: RedeemStep, event: RedeemEvent) -> (next: RedeemStep)
    ensures
        exists|now: i64, user_id: u128| next@ == #[trigger] next_step(step@, event@, now, user_id),
{
    let now = local_now();
    let user_id = random_uuid();
    redeem_advance_at(step, event, now, user_id)
}

/// What the store answers to the insertion of an account: the stored row,
/// or a duplicate value where the uniqueness constraint rejects it.
pub open spec fn insert_answer(reg: RegistryView, step: StepView) -> EventView {
    match step {
        StepView::Insert { token, user } => if reg.admits_user(user) {
            EventView::Inserted(Ok(user))
        } else {
            EventView::Inserted(Err(duplicate_value()))
        },
        _ => EventView::Inserted(Err(duplicate_value())),
    }
}

/// The steps of a redemption, each answered by what is stored and by the
/// given outcome of hashing, end with the result of redeeming the token; and
/// the token is withdrawn exactly where that result is an account.
pub proof fn law_steps_redeem(
    reg: RegistryView,
    id: u128,
    now: i64,
    hashed: Result<Seq<char>, (ErrorKind, Seq<char>)>,
    user_id: u128,
)
    ensures
        ({
            let loaded = next_step(
                StepView::Load { token: id },
                EventView::Loaded(Ok(find(reg.confirmations, id))),
                now,
                user_id,
            );
            let hashed_step = next_step(loaded, EventView::Hashed(hashed), now, user_id);
            let inserted = next_step(hashed_step, insert_answer(reg, hashed_step), now, user_id);
            let done = next_step(inserted, EventView::Withdrawn(Ok(())), now, user_id);
            &&& done == StepView::Done(redeem_result(reg, id, now, hashed, user_id))
            &&& inserted is Withdraw <==> redeem_result(reg, id, now, hashed, user_id) is Ok
            &&& inserted is Withdraw ==> inserted->Withdraw_token == id
        }),
{
}

} // verus!
