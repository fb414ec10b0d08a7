use auth_service::clock::CONFIRMATION_TTL;
use auth_service::errors::{AuthError, ErrorKind};
use auth_service::models::{Confirmation, User};
use auth_service::redemption::{
    redeem_advance, redeem_advance_at, redeem_begin, RedeemEvent, RedeemStep,
};

const TOKEN: &str = "67e55044-10b1-426f-9247-bb680e5fe0c8";
const TOKEN_ID: u128 = 0x67e55044_10b1_426f_9247_bb680e5fe0c8;

fn stored() -> Confirmation {
    Confirmation::issue(TOKEN_ID, String::from("a@x.com"), 0)
}

#[test]
fn redemption_begins_with_the_query() {
    assert!(matches!(redeem_begin(TOKEN), RedeemStep::Load { token: TOKEN_ID }));
    assert!(matches!(redeem_begin("nope"), RedeemStep::Done(Err(AuthError::BadId))));
}

#[test]
fn redemption_step_by_step() {
    let step = redeem_begin(TOKEN);
    let step = redeem_advance_at(step, RedeemEvent::Loaded(Ok(Some(stored()))), 10, 42);
    match &step {
        RedeemStep::Hash { token, confirmation } => {
            assert_eq!(*token, TOKEN_ID);
            assert_eq!(confirmation.email, "a@x.com");
        }
        other => panic!("{:?}", other),
    }
    let step = redeem_advance_at(step, RedeemEvent::Hashed(Ok(String::from("hash"))), 10, 42);
    let account = match &step {
        RedeemStep::Insert { token, user } => {
            assert_eq!(*token, TOKEN_ID);
            assert_eq!(user.id, 42);
            assert_eq!(user.email, "a@x.com");
            assert_eq!(user.password_hash, "hash");
            user.duplicate()
        }
        other => panic!("{:?}", other),
    };
    let step = redeem_advance_at(step, RedeemEvent::Inserted(Ok(account)), 10, 43);
    assert!(matches!(step, RedeemStep::Withdraw { token: TOKEN_ID, .. }));
    let step = redeem_advance_at(step, RedeemEvent::Withdrawn(Ok(())), 10, 44);
    match step {
        RedeemStep::Done(Ok(user)) => {
            assert_eq!(user.id, 42);
            assert_eq!(user.email, "a@x.com");
        }
        other => panic!("{:?}", other),
    }
}

#[test]
fn a_failed_step_ends_the_redemption() {
    let failure = || AuthError::GenericError(String::from("down"));
    let step = redeem_advance_at(redeem_begin(TOKEN), RedeemEvent::Loaded(Err(failure())), 0, 1);
    assert!(matches!(step, RedeemStep::Done(Err(AuthError::GenericError(ref m))) if m == "down"));

    let step = redeem_advance_at(redeem_begin(TOKEN), RedeemEvent::Loaded(Ok(None)), 0, 1);
    assert!(matches!(step, RedeemStep::Done(Err(AuthError::NotFound(_)))));

    let late = RedeemEvent::Loaded(Ok(Some(stored())));
    let step = redeem_advance_at(redeem_begin(TOKEN), late, CONFIRMATION_TTL, 1);
    match step {
        RedeemStep::Done(Err(e)) => {
            assert_eq!(e.kind(), ErrorKind::Authentication);
            assert_eq!(e.message(), "Invalid confirmation");
        }
        other => panic!("{:?}", other),
    }

    let hash = RedeemStep::Hash { token: TOKEN_ID, confirmation: stored() };
    let step = redeem_advance_at(hash, RedeemEvent::Hashed(Err(failure())), 0, 1);
    assert!(matches!(step, RedeemStep::Done(Err(AuthError::GenericError(_)))));

    let user = User::new(1, String::from("a@x.com"), String::from("h"));
    let insert = RedeemStep::Insert { token: TOKEN_ID, user: user.duplicate() };
    let taken = AuthError::DuplicateValue(String::from("taken"));
    let step = redeem_advance_at(insert, RedeemEvent::Inserted(Err(taken)), 0, 1);
    assert!(matches!(step, RedeemStep::Done(Err(AuthError::DuplicateValue(_)))));

    let withdraw = RedeemStep::Withdraw { token: TOKEN_ID, user };
    let step = redeem_advance_at(withdraw, RedeemEvent::Withdrawn(Err(failure())), 0, 1);
    assert!(matches!(step, RedeemStep::Done(Err(AuthError::GenericError(_)))));
}

#[test]
fn an_answer_to_another_step_changes_nothing() {
    let step = redeem_advance_at(redeem_begin(TOKEN), RedeemEvent::Withdrawn(Ok(())), 0, 1);
    assert!(matches!(step, RedeemStep::Load { token: TOKEN_ID }));
    let step = redeem_advance_at(step, RedeemEvent::Hashed(Ok(String::from("h"))), 0, 1);
    assert!(matches!(step, RedeemStep::Load { token: TOKEN_ID }));
    let done = RedeemStep::Done(Err(AuthError::BadId));
    let step = redeem_advance_at(done, RedeemEvent::Loaded(Ok(None)), 0, 1);
    assert!(matches!(step, RedeemStep::Done(Err(AuthError::BadId))));
}

#[test]
fn steps_at_the_wall_clock() {
    let fresh = Confirmation { id: TOKEN_ID, email: String::from("a@x.com"), expires_at: i64::MAX };
    let step = redeem_advance(redeem_begin(TOKEN), RedeemEvent::Loaded(Ok(Some(fresh))));
    assert!(matches!(step, RedeemStep::Hash { .. }));
    let old = Confirmation { id: TOKEN_ID, email: String::from("a@x.com"), expires_at: 0 };
    let step = redeem_advance(redeem_begin(TOKEN), RedeemEvent::Loaded(Ok(Some(old))));
    assert!(matches!(step, RedeemStep::Done(Err(AuthError::AuthenticationError(_)))));
    let a = redeem_advance(
        RedeemStep::Hash { token: TOKEN_ID, confirmation: stored() },
        RedeemEvent::Hashed(Ok(String::from("h"))),
    );
    let b = redeem_advance(
        RedeemStep::Hash { token: TOKEN_ID, confirmation: stored() },
        RedeemEvent::Hashed(Ok(String::from("h"))),
    );
    match (a, b) {
        (RedeemStep::Insert { user: ua, .. }, RedeemStep::Insert { user: ub, .. }) => {
            assert_ne!(ua.id, ub.id);
            assert_eq!(ua.email, "a@x.com");
        }
        other => panic!("{:?}", other),
    }
}
