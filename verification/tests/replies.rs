use auth_service::confirmation::{
    create_confirmation, create_confirmation_at, loaded_confirmation, lookup_confirmation,
    new_confirmation, redeem_confirmation_at,
};
use auth_service::token::{parse_token, token_text};
use auth_service::errors::{from_db_error, from_store_error, AuthError, ErrorKind, StoreError};
use auth_service::hasher::{hash_password, verify};
use auth_service::http::{
    create_account, error_response, is_json_request, password_form_at, send_confirmation,
    show_password_form, signed_in_refusal, task_result, to_home, Reply, TaskOutcome,
};
use auth_service::mail::{
    compose_mail, confirmation_mail, deliverable_mail, send_confirmation_mail,
};
use auth_service::models::{Confirmation, SessionUser, User};
use auth_service::session::{get_current_user, is_signed_in, set_current_user, Identity, Session};
use auth_service::store::Registry;

const TOKEN: &str = "67e55044-10b1-426f-9247-bb680e5fe0c8";
const TOKEN_ID: u128 = 0x67e55044_10b1_426f_9247_bb680e5fe0c8;

#[test]
fn each_failure_has_its_status() {
    assert_eq!(AuthError::AuthenticationError(String::from("m")).status_code(), 401);
    assert_eq!(AuthError::BadId.status_code(), 400);
    assert_eq!(AuthError::DuplicateValue(String::from("m")).status_code(), 400);
    assert_eq!(AuthError::GenericError(String::from("m")).status_code(), 400);
    assert_eq!(AuthError::NotFound(String::from("m")).status_code(), 404);
    assert_eq!(AuthError::ProcessError(String::from("m")).status_code(), 500);
}

#[test]
fn each_failure_has_its_message_and_text() {
    assert_eq!(AuthError::BadId.message(), "Invalid ID");
    assert_eq!(AuthError::BadId.describe(), "BadId");
    assert_eq!(AuthError::NotFound(String::from("gone")).message(), "gone");
    assert_eq!(AuthError::NotFound(String::from("gone")).describe(), "NotFound: gone");
    assert_eq!(
        AuthError::AuthenticationError(String::from("no")).describe(),
        "AuthenticationError: no"
    );
    assert_eq!(AuthError::DuplicateValue(String::from("d")).describe(), "DuplicateValue: d");
    assert_eq!(AuthError::GenericError(String::from("g")).describe(), "GenericError: g");
    assert_eq!(AuthError::ProcessError(String::from("p")).describe(), "ProcessFailed: p");
    let copy = AuthError::ProcessError(String::from("p")).duplicate();
    assert_eq!(copy.kind(), ErrorKind::Process);
    assert_eq!(copy.message(), "p");
}

#[test]
fn error_response_carries_status_and_message() {
    match error_response(&AuthError::NotFound(String::from("gone"))) {
        Reply::Failure { status, message } => {
            assert_eq!(status, 404);
            assert_eq!(message, "gone");
        }
        other => panic!("{:?}", other),
    }
    let reply = error_response(&AuthError::BadId);
    assert_eq!(reply.status(), 400);
    assert!(matches!(reply, Reply::Failure { ref message, .. } if message == "Invalid ID"));
}

#[test]
fn store_errors_map_to_duplicate_or_generic() {
    let e = from_store_error(StoreError::Database {
        unique: true,
        message: String::from("msg"),
        details: Some(String::from("Key (email) already exists.")),
    });
    assert_eq!(e.kind(), ErrorKind::Duplicate);
    assert_eq!(e.message(), "Key (email) already exists.");
    let e = from_store_error(StoreError::Database {
        unique: true,
        message: String::from("msg"),
        details: None,
    });
    assert_eq!(e.kind(), ErrorKind::Duplicate);
    assert_eq!(e.message(), "msg");
    let e = from_store_error(StoreError::Database {
        unique: false,
        message: String::from("msg"),
        details: None,
    });
    assert_eq!(e.kind(), ErrorKind::Generic);
    assert_eq!(e.message(), "msg");
    let e = from_store_error(StoreError::Other);
    assert_eq!(e.kind(), ErrorKind::Generic);
    assert_eq!(e.message(), "Some database error occurred");
}

#[test]
fn database_errors_map_to_duplicate_or_generic() {
    let e = from_db_error(diesel::result::Error::DatabaseError(
        diesel::result::DatabaseErrorKind::UniqueViolation,
        Box::new(String::from("email taken")),
    ));
    assert_eq!(e.kind(), ErrorKind::Duplicate);
    assert_eq!(e.message(), "email taken");
    let e = from_db_error(diesel::result::Error::DatabaseError(
        diesel::result::DatabaseErrorKind::ForeignKeyViolation,
        Box::new(String::from("no such row")),
    ));
    assert_eq!(e.kind(), ErrorKind::Generic);
    assert_eq!(e.message(), "no such row");
    let e = from_db_error(diesel::result::Error::NotFound);
    assert_eq!(e.kind(), ErrorKind::Generic);
    assert_eq!(e.message(), "Some database error occurred");
    assert_eq!(e.status_code(), 400);
}

#[test]
fn hashing_outcomes() {
    assert_eq!(hash_password(Some(String::from("$argon2id$abc"))).unwrap(), "$argon2id$abc");
    let e = hash_password(None).unwrap_err();
    assert_eq!(e.kind(), ErrorKind::Authentication);
    assert_eq!(e.message(), "Could not hash password");
}

#[test]
fn a_mismatch_is_an_answer_not_a_failure() {
    assert!(verify(Some(true)).unwrap());
    assert!(!verify(Some(false)).unwrap());
    let e = verify(None).unwrap_err();
    assert_eq!(e.kind(), ErrorKind::Authentication);
    assert_eq!(e.message(), "Could not verify the password");
}

#[test]
fn session_without_a_user() {
    for identity in [Identity::Absent, Identity::Unreadable, Identity::Malformed] {
        let session = Session { identity };
        let e = get_current_user(&session).unwrap_err();
        assert_eq!(e.kind(), ErrorKind::Authentication);
        assert_eq!(e.message(), "Could not retrieve user from session");
        assert!(!is_signed_in(&session));
    }
    assert!(!is_signed_in(&Session::new()));
}

#[test]
fn session_recovers_the_user_that_was_set() {
    let mut session = Session::new();
    set_current_user(&mut session, &SessionUser { id: 5, email: String::from("a@x.com") });
    assert!(is_signed_in(&session));
    let user = get_current_user(&session).unwrap();
    assert_eq!(user.id, 5);
    assert_eq!(user.email, "a@x.com");
    set_current_user(&mut session, &SessionUser { id: 6, email: String::from("b@x.com") });
    assert_eq!(get_current_user(&session).unwrap().id, 6);
}

#[test]
fn session_user_leaves_the_hash_out() {
    let user = User::new(3, String::from("a@x.com"), String::from("secret-hash"));
    let seen = user.session_user();
    assert_eq!(seen.id, 3);
    assert_eq!(seen.email, "a@x.com");
    assert!(!format!("{:?}", seen).contains("secret-hash"));
}

#[test]
fn json_requests_are_told_by_their_content_type() {
    assert!(is_json_request(Some("application/json")));
    assert!(!is_json_request(Some("application/json; charset=utf-8")));
    assert!(!is_json_request(Some("text/html")));
    assert!(!is_json_request(Some("")));
    assert!(!is_json_request(None));
}

#[test]
fn home_is_a_redirect() {
    let reply = to_home();
    assert_eq!(reply.status(), 302);
    assert_eq!(reply.location().unwrap(), "/me");
    assert_eq!(Reply::Restart.status(), 301);
    assert_eq!(Reply::Restart.location().unwrap(), "/register");
    assert!(Reply::Done.location().is_none());
    assert_eq!(Reply::Done.status(), 200);
    assert_eq!(Reply::Refused.status(), 400);
}

#[test]
fn dropped_work_is_a_generic_failure() {
    let e = task_result::<u8>(TaskOutcome::Canceled).unwrap_err();
    assert_eq!(e.kind(), ErrorKind::Generic);
    assert_eq!(e.message(), "Could not complete the process");
    assert_eq!(task_result(TaskOutcome::Finished(Ok(4u8))).unwrap(), 4);
    let e = task_result::<u8>(TaskOutcome::Finished(Err(AuthError::BadId))).unwrap_err();
    assert_eq!(e.kind(), ErrorKind::BadId);
    let e = send_confirmation(&Session::new(), TaskOutcome::Canceled).unwrap_err();
    assert_eq!(e.message(), "Could not complete the process");
}

#[test]
fn signed_in_users_are_refused_registration() {
    let mut session = Session::new();
    assert!(signed_in_refusal(&session).is_none());
    set_current_user(&mut session, &SessionUser { id: 5, email: String::from("a@x.com") });
    let reply = signed_in_refusal(&session).unwrap();
    assert_eq!(reply.status(), 400);
    assert!(matches!(reply, Reply::Refused));
}

#[test]
fn password_form_replies() {
    let mut session = Session::new();
    let stored = Confirmation { id: 1, email: String::from("a@x.com"), expires_at: 100 };
    let reply = password_form_at(&session, String::from("p"), Ok(stored.duplicate()), 99);
    assert_eq!(reply.status(), 200);
    match reply {
        Reply::PasswordForm { path_id, email } => {
            assert_eq!(path_id, "p");
            assert_eq!(email, "a@x.com");
        }
        other => panic!("{:?}", other),
    }
    let expired = password_form_at(&session, String::from("p"), Ok(stored.duplicate()), 100);
    let unknown = password_form_at(
        &session,
        String::from("p"),
        Err(AuthError::NotFound(String::from("Confirmation not found"))),
        100,
    );
    let malformed = password_form_at(&session, String::from("p"), Err(AuthError::BadId), 100);
    for reply in [expired, unknown, malformed] {
        assert_eq!(reply.status(), 301);
        assert_eq!(reply.location().unwrap(), "/register");
    }
    set_current_user(&mut session, &SessionUser { id: 5, email: String::from("a@x.com") });
    let reply = password_form_at(&session, String::from("p"), Ok(stored), 99);
    assert!(matches!(reply, Reply::Home));
}

#[test]
fn mail_text_is_exact() {
    let mail = compose_mail("a@x.com", "http://h", "tok", "noon");
    assert_eq!(mail.to, "a@x.com");
    assert_eq!(mail.subject, "Complete your registration");
    assert_eq!(
        mail.text,
        "Please visit the link below to complete your registration:\n\n        http://h/register/tok\n\n        This link expires on noon."
    );
    assert_eq!(
        mail.html,
        "Please click on the link below to complete registration.<br/>\n        <a href=\"http://h/register/tok\">Complete registration</a> <br/>\n        This link expires on <strong>noon</strong>"
    );
}

#[test]
fn confirmation_mail_prints_token_and_expiry() {
    let c = Confirmation {
        id: TOKEN_ID,
        email: String::from("a@x.com"),
        expires_at: 1_662_921_288_000_000,
    };
    let mail = confirmation_mail(&c, "https://example.org").unwrap();
    assert_eq!(mail.to, "a@x.com");
    assert_eq!(
        mail.text,
        "Please visit the link below to complete your registration:\n\n        https://example.org/register/67e55044-10b1-426f-9247-bb680e5fe0c8\n\n        This link expires on 06:34 PM Sunday, 11 September, 2022."
    );
    assert!(mail.html.contains(
        "<a href=\"https://example.org/register/67e55044-10b1-426f-9247-bb680e5fe0c8\">"
    ));
    assert!(mail.html.ends_with("<strong>06:34 PM Sunday, 11 September, 2022</strong>"));
}

#[test]
fn confirmation_mail_needs_an_expiry_that_can_be_printed() {
    let c = Confirmation { id: 1, email: String::from("a@x.com"), expires_at: i64::MAX };
    assert!(confirmation_mail(&c, "https://example.org").is_none());
    let c = Confirmation { id: 1, email: String::from("a@x.com"), expires_at: 0 };
    let mail = confirmation_mail(&c, "d").unwrap();
    assert!(mail.text.ends_with("This link expires on 12:00 AM Thursday, 1 January, 1970."));
    assert!(mail.text.contains("d/register/00000000-0000-0000-0000-000000000001\n"));
}

#[test]
fn failed_delivery_is_a_failed_process() {
    assert!(send_confirmation_mail(true).is_ok());
    let e = send_confirmation_mail(false).unwrap_err();
    assert_eq!(e.kind(), ErrorKind::Process);
    assert_eq!(e.message(), "Could not send confirmation email");
    assert_eq!(e.status_code(), 500);
}

#[test]
fn registration_from_request_to_account() {
    let mut reg = Registry::new();
    let mut session = Session::new();

    assert!(signed_in_refusal(&session).is_none());
    let made = create_confirmation_at(&mut reg, String::from("a@x.com"), TOKEN_ID, 0);
    let outcome = TaskOutcome::Finished(made.map(|_| ()));
    assert_eq!(send_confirmation(&session, outcome).unwrap().status(), 200);

    let lookup = lookup_confirmation(&reg, TOKEN);
    let form = password_form_at(&session, String::from(TOKEN), lookup, 10);
    assert_eq!(form.status(), 200);
    assert!(matches!(form, Reply::PasswordForm { ref email, .. } if email == "a@x.com"));

    let hashed = hash_password(Some(String::from("hash-of-secret")));
    let user = redeem_confirmation_at(&mut reg, TOKEN_ID, 20, hashed, 42);
    let outcome = TaskOutcome::Finished(user.map(|u| u.session_user()));
    let reply = create_account(&mut session, outcome).unwrap();
    assert_eq!(reply.status(), 201);
    match reply {
        Reply::Created(u) => {
            assert_eq!(u.id, 42);
            assert_eq!(u.email, "a@x.com");
        }
        other => panic!("{:?}", other),
    }
    assert_eq!(get_current_user(&session).unwrap().email, "a@x.com");

    let mut other_session = Session::new();
    let hashed = hash_password(Some(String::from("hash-of-secret")));
    let again = redeem_confirmation_at(&mut reg, TOKEN_ID, 30, hashed, 43);
    let outcome = TaskOutcome::Finished(again.map(|u| u.session_user()));
    let e = create_account(&mut other_session, outcome).unwrap_err();
    assert_eq!(e.kind(), ErrorKind::NotFound);
    assert!(!is_signed_in(&other_session));
    assert_eq!(reg.user_count(), 1);
}

#[test]
fn redemption_of_a_random_unknown_token_is_answered_with_404() {
    let mut reg = Registry::new();
    let mut session = Session::new();
    let text = uuid::Uuid::new_v4().to_string();
    let id = uuid::Uuid::parse_str(&text).unwrap().as_u128();
    let hashed = hash_password(Some(String::from("x")));
    let user = redeem_confirmation_at(&mut reg, id, 0, hashed, 1);
    let outcome = TaskOutcome::Finished(user.map(|u| u.session_user()));
    let e = create_account(&mut session, outcome).unwrap_err();
    assert_eq!(error_response(&e).status(), 404);
    let lookup = lookup_confirmation(&reg, &text);
    assert_eq!(show_password_form(&session, text, lookup).status(), 301);
}

#[test]
fn password_form_at_the_wall_clock() {
    let mut reg = Registry::new();
    let session = Session::new();
    let made = create_confirmation(&mut reg, String::from("a@x.com")).unwrap();
    let text = token_text(made.id);
    let lookup = lookup_confirmation(&reg, &text);
    let reply = show_password_form(&session, text, lookup);
    assert!(matches!(reply, Reply::PasswordForm { ref email, .. } if email == "a@x.com"));
    let old = Confirmation { id: 1, email: String::from("a@x.com"), expires_at: 0 };
    let reply = show_password_form(&session, String::from("p"), Ok(old));
    assert!(matches!(reply, Reply::Restart));
}

#[test]
fn token_text_is_read_back() {
    assert_eq!(token_text(TOKEN_ID), TOKEN);
    assert_eq!(parse_token(&token_text(TOKEN_ID)).unwrap(), TOKEN_ID);
    assert_eq!(token_text(0), "00000000-0000-0000-0000-000000000000");
    assert_eq!(parse_token(&token_text(u128::MAX)).unwrap(), u128::MAX);
}

#[test]
fn new_confirmation_at_the_wall_clock() {
    let before = chrono::Local::now().naive_local().and_utc().timestamp_micros();
    let c = new_confirmation(String::from("a@x.com"));
    let d = new_confirmation(String::from("a@x.com"));
    assert_eq!(c.email, "a@x.com");
    assert!(c.expires_at >= before + 86_400_000_000);
    assert!(!c.is_expired(before));
    assert_ne!(c.id, d.id);
}

#[test]
fn a_token_is_loaded_at_most_once() {
    let first = Confirmation { id: 1, email: String::from("a@x.com"), expires_at: 1 };
    let second = Confirmation { id: 1, email: String::from("b@x.com"), expires_at: 2 };
    let picked = loaded_confirmation(Ok(vec![first.duplicate()])).unwrap().unwrap();
    assert_eq!(picked.email, "a@x.com");
    assert_eq!(picked.expires_at, 1);
    assert!(loaded_confirmation(Ok(vec![])).unwrap().is_none());
    let e = loaded_confirmation(Ok(vec![first, second])).unwrap_err();
    assert_eq!(e.kind(), ErrorKind::Generic);
    assert_eq!(e.message(), "Some database error occurred");
    let e = loaded_confirmation(Err(diesel::result::Error::NotFound)).unwrap_err();
    assert_eq!(e.kind(), ErrorKind::Generic);
    assert_eq!(e.message(), "Some database error occurred");
    assert_eq!(e.status_code(), 400);
    let e = loaded_confirmation(Err(diesel::result::Error::DatabaseError(
        diesel::result::DatabaseErrorKind::UnableToSendCommand,
        Box::new(String::from("connection lost")),
    )))
    .unwrap_err();
    assert_eq!(e.kind(), ErrorKind::Generic);
    assert_eq!(e.message(), "connection lost");
}

#[test]
fn signed_in_users_get_no_confirmation_and_no_account() {
    let mut session = Session::new();
    set_current_user(&mut session, &SessionUser { id: 5, email: String::from("a@x.com") });
    let reply = send_confirmation(&session, TaskOutcome::Finished(Ok(()))).unwrap();
    assert!(matches!(reply, Reply::Refused));
    assert_eq!(reply.status(), 400);
    let reply = send_confirmation(&session, TaskOutcome::Canceled).unwrap();
    assert!(matches!(reply, Reply::Refused));
    let other = SessionUser { id: 6, email: String::from("b@x.com") };
    let reply = create_account(&mut session, TaskOutcome::Finished(Ok(other))).unwrap();
    assert!(matches!(reply, Reply::Refused));
    assert_eq!(reply.status(), 400);
    assert_eq!(get_current_user(&session).unwrap().id, 5);
    let reply = create_account(&mut session, TaskOutcome::Finished(Err(AuthError::BadId)));
    assert!(matches!(reply, Ok(Reply::Refused)));
    let reply = create_account(&mut session, TaskOutcome::Canceled);
    assert!(matches!(reply, Ok(Reply::Refused)));
    assert_eq!(get_current_user(&session).unwrap().email, "a@x.com");
}

#[test]
fn a_new_session_holds_nothing() {
    let session = Session::new();
    assert!(matches!(session.identity, Identity::Absent));
    assert!(get_current_user(&session).is_err());
}

#[test]
fn a_confirmation_that_cannot_be_mailed_is_a_failed_process() {
    let c = Confirmation { id: 1, email: String::from("a@x.com"), expires_at: i64::MAX };
    let e = deliverable_mail(&c, "https://example.org").unwrap_err();
    assert_eq!(e.kind(), ErrorKind::Process);
    assert_eq!(e.message(), "Could not send confirmation email");
    let c = Confirmation { id: 1, email: String::from("a@x.com"), expires_at: 0 };
    let mail = deliverable_mail(&c, "d").unwrap();
    assert_eq!(mail.to, "a@x.com");
    assert!(mail.text.ends_with("This link expires on 12:00 AM Thursday, 1 January, 1970."));
}
