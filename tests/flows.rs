use argon2::password_hash::SaltString;
use argon2::{Algorithm, Argon2, Params, PasswordHasher, Version};
use newsletter::authentication::{
    validate_credentials, AuthError, Credentials, StoredCredentials, UserId, DUMMY_PASSWORD_HASH,
};
use newsletter::email::DeliveryOutcome;
use newsletter::login::{login_outcome, LoginError};
use newsletter::new_subscriber::{NewSubscriber, SubscriberId};
use newsletter::newsletters::{
    accept_publish_request, BodyData, Content, Dispatch, DispatchReport, DispatchStep,
    PublishError, StoredSubscriber,
};
use newsletter::subscriptions::{
    confirmation_link_for, FormData, Registration, SubscribeAction, SubscribeError,
};
use newsletter::subscriptions_confirm::{
    confirm_response_code, confirmation_result, requested_token, resolve_token, ConfirmError,
    Parameters,
};

fn form(name: &str, email: &str) -> FormData {
    FormData { name: name.to_string(), email: email.to_string() }
}

/// Drives a registration, answering each action with the given result; returns the
/// actions asked for, in order, and the final answer.
fn drive(
    mut g: Registration,
    mut answer: impl FnMut(SubscribeAction) -> Result<(), String>,
) -> (Vec<SubscribeAction>, Result<(), SubscribeError>) {
    let mut actions = Vec::new();
    loop {
        let a = g.next_action();
        actions.push(a);
        if a == SubscribeAction::Respond {
            break;
        }
        g.record(answer(a));
    }
    (actions, g.finish())
}

#[test]
fn subscriptions_subscribe_returns_200_for_valid_form_data() {
    let g = Registration::start(form("arine", "peppydays@gmail.com"), "http://127.0.0.1:8000".to_string())
        .unwrap();
    assert_eq!(g.subscriber().email.as_str(), "peppydays@gmail.com");
    assert_eq!(g.subscriber().name.as_str(), "arine");
    let (actions, result) = drive(g, |_| Ok(()));
    assert_eq!(
        actions,
        vec![
            SubscribeAction::BeginTransaction,
            SubscribeAction::InsertSubscriber,
            SubscribeAction::StoreToken,
            SubscribeAction::Commit,
            SubscribeAction::SendEmail,
            SubscribeAction::Respond,
        ]
    );
    assert!(result.is_ok());
}

#[test]
fn subscribe_sends_confirmation_email_with_link() {
    let g = Registration::start(form("arine", "peppydays@gmail.com"), "http://127.0.0.1".to_string())
        .unwrap();
    let email = g.confirmation_email();
    let link = format!("http://127.0.0.1/subscriptions/confirm?subscription_token={}", g.token());
    assert_eq!(email.recipient.as_str(), "peppydays@gmail.com");
    assert_eq!(email.subject, "Welcome!");
    assert_eq!(
        email.html_body,
        format!(
            "Welcome to our newsletter!<br />Click <a href=\"{}\">here</a> to confirm your subscription.",
            link
        )
    );
    assert_eq!(
        email.text_body,
        format!("Welcome to our newsletter!\nVisit {} to confirm your subscription.", link)
    );
    let mut sends = 0;
    let (_, result) = drive(g, |a| {
        if a == SubscribeAction::SendEmail {
            sends += 1;
        }
        Ok(())
    });
    assert!(result.is_ok());
    assert_eq!(sends, 1);
}

#[test]
fn subscribe_sends_confirmation_email_for_valid_data() {
    let g = Registration::start(form("arine", "peppydays@gmail.com"), "http://127.0.0.1".to_string())
        .unwrap();
    let mut sends = Vec::new();
    let (_, result) = drive(g, |a| {
        sends.push(a);
        Ok(())
    });
    assert!(result.is_ok());
    assert_eq!(sends.iter().filter(|a| **a == SubscribeAction::SendEmail).count(), 1);
    // the email goes out only after the commit
    assert_eq!(sends[sends.len() - 2], SubscribeAction::Commit);
}

#[test]
fn link_returned_by_subscribe_returns_200_if_called() {
    let g = Registration::start(form("arine", "peppydays@gmail.com"), "http://127.0.0.1".to_string())
        .unwrap();
    let stored_token = g.token().to_string();
    let stored_id = g.subscriber().id;
    let email = g.confirmation_email();
    let prefix = "Visit ";
    let start = email.text_body.find(prefix).unwrap() + prefix.len();
    let link = email.text_body[start..].split(' ').next().unwrap().to_string();
    assert!(link.starts_with("http://127.0.0.1/"));
    assert!(email.html_body.contains(&link));
    let token = link.split("subscription_token=").nth(1).unwrap().to_string();
    let token = requested_token(Parameters { subscription_token: Some(token) }).unwrap();
    let lookup = if token == stored_token { Ok(Some(stored_id)) } else { Ok(None) };
    let id = resolve_token(lookup).unwrap();
    assert_eq!(id, stored_id);
    assert_eq!(confirm_response_code(&confirmation_result(Ok(()))), 200);
}

#[test]
fn confirmation_link_layout() {
    assert_eq!(
        confirmation_link_for("http://localhost:8000", "abc"),
        "http://localhost:8000/subscriptions/confirm?subscription_token=abc"
    );
}

#[test]
fn subscriptions_subscribe_returns_400_when_fields_are_present_but_empty() {
    for (name, email) in [("arine", ""), ("", "pepppydays@gmail.com"), ("arine", "definitely-not-an-email")] {
        let err = Registration::start(form(name, email), "http://x".to_string()).err().unwrap();
        assert_eq!(err.status_code(), 400);
        assert!(matches!(err, SubscribeError::ValidationError(_)));
    }
}

#[test]
fn name_is_checked_before_email() {
    let err = NewSubscriber::try_from(form("", "nope")).err().unwrap();
    assert_eq!(err.message(), " is not a valid subscriber name");
}

#[test]
fn new_subscribers_get_fresh_version_4_ids() {
    let a = NewSubscriber::try_from(form("arine", "peppydays@gmail.com")).unwrap();
    let b = NewSubscriber::try_from(form("arine", "peppydays@gmail.com")).unwrap();
    assert_ne!(a.id, b.id);
    assert_eq!((a.id.0 >> 76) & 0xf, 4);
}

#[test]
fn subscribe_fails_if_there_is_fatal_database_error() {
    let g = Registration::start(form("arine", "peppydays@gmail.com"), "http://x".to_string()).unwrap();
    let (actions, result) = drive(g, |a| {
        if a == SubscribeAction::StoreToken {
            Err("column \"subscription_token\" does not exist".to_string())
        } else {
            Ok(())
        }
    });
    // no commit and no email after the failed insert
    assert_eq!(
        actions,
        vec![
            SubscribeAction::BeginTransaction,
            SubscribeAction::InsertSubscriber,
            SubscribeAction::StoreToken,
            SubscribeAction::Respond,
        ]
    );
    let err = result.unwrap_err();
    assert!(matches!(err, SubscribeError::StoreTokenError(_)));
    assert_eq!(err.status_code(), 500);
    assert_eq!(err.message(), "Failed to store the confirmation token for a new subscriber");
    assert_eq!(
        err.report(),
        "Failed to store the confirmation token for a new subscriber\n\nCaused by:\n\tcolumn \"subscription_token\" does not exist\n"
    );
}

#[test]
fn validation_error_report_has_a_blank_line() {
    let err = NewSubscriber::try_from(form("arine", "nope")).err().unwrap();
    assert_eq!(err.report(), "nope is not a valid subscriber email\n\n");
    assert_eq!(err.source(), None);
}

#[test]
fn publish_error_causes_are_kept() {
    assert_eq!(PublishError::MissingCredentials.cause(), None);
    assert_eq!(PublishError::InvalidBody("missing field `title`".to_string()).cause(), Some("missing field `title`".to_string()));
    assert_eq!(PublishError::AuthError("Invalid password.".to_string()).cause(), Some("Invalid password.".to_string()));
    assert_eq!(PublishError::UnexpectedError("db down".to_string()).cause(), Some("db down".to_string()));
    let body = PublishError::UnexpectedError("db down".to_string()).response().body;
    assert_eq!(body, "Something went wrong");
}

#[test]
fn missing_title_without_credentials_is_a_client_error() {
    let err = accept_publish_request(None, None, Some("h".to_string()), Some("t".to_string())).err().unwrap();
    assert_eq!(err.status_code(), 400);
}

#[test]
fn each_step_maps_to_its_error() {
    let steps = [
        (SubscribeAction::BeginTransaction, "Failed to acquire a Postgres connection from the pool"),
        (SubscribeAction::InsertSubscriber, "Failed to insert new subscriber in the database"),
        (SubscribeAction::Commit, "Failed to commit SQL transaction to store a new subscriber"),
        (SubscribeAction::SendEmail, "Failed to send a confirmation email"),
    ];
    for (failing, message) in steps {
        let g = Registration::start(form("arine", "peppydays@gmail.com"), "http://x".to_string()).unwrap();
        let (_, result) = drive(g, |a| if a == failing { Err("boom".to_string()) } else { Ok(()) });
        let err = result.unwrap_err();
        assert_eq!(err.message(), message);
        assert_eq!(err.source(), Some("boom".to_string()));
        assert_eq!(err.status_code(), 500);
    }
}

#[test]
fn confirmations_without_toekn_are_rejected_with_400() {
    let err = requested_token(Parameters { subscription_token: None }).unwrap_err();
    assert!(matches!(err, ConfirmError::MissingToken));
    assert_eq!(err.status_code(), 400);
}

#[test]
fn clicking_on_confirmation_link_confirms_a_subscriber() {
    // a store with one token of one subscriber
    let id = SubscriberId(42);
    let mut confirmed = false;
    for _ in 0..2 {
        let token = requested_token(Parameters { subscription_token: Some("abc".to_string()) }).unwrap();
        let lookup = if token == "abc" { Ok(Some(id)) } else { Ok(None) };
        let who = resolve_token(lookup).unwrap();
        assert_eq!(who, id);
        confirmed = true;
        let r = confirmation_result(Ok(()));
        assert_eq!(confirm_response_code(&r), 200);
    }
    assert!(confirmed);
}

#[test]
fn unknown_tokens_are_unauthorized() {
    let r = resolve_token(Ok(None)).map(|_| ());
    assert_eq!(confirm_response_code(&r), 401);
    let r = resolve_token(Err("connection lost".to_string())).map(|_| ());
    assert_eq!(confirm_response_code(&r), 500);
    let r = confirmation_result(Err("connection lost".to_string()));
    assert!(matches!(r, Err(ConfirmError::PersistenceError(_))));
}

fn issue() -> BodyData {
    BodyData {
        title: "Newsletter title".to_string(),
        content: Content {
            html: "<p>Newsletter body as HTML</p>".to_string(),
            text: "Newsletter body as plain text".to_string(),
        },
    }
}

fn row(email: &str, status: &str) -> StoredSubscriber {
    StoredSubscriber { email: email.to_string(), status: status.to_string() }
}

/// Runs a dispatch, answering every send with `answer`; returns the recipients in
/// order, the skip warnings and the result.
fn run_dispatch(
    rows: Vec<StoredSubscriber>,
    mut answer: impl FnMut(&str) -> DeliveryOutcome,
) -> (Vec<String>, Vec<String>, Result<DispatchReport, PublishError>) {
    let mut d = Dispatch::new(rows, issue());
    let mut sent = Vec::new();
    let mut skipped = Vec::new();
    loop {
        match d.next_step() {
            DispatchStep::Send(m) => {
                assert_eq!(m.subject, "Newsletter title");
                assert_eq!(m.html_body, "<p>Newsletter body as HTML</p>");
                assert_eq!(m.text_body, "Newsletter body as plain text");
                let to = m.recipient.as_str().to_string();
                let outcome = answer(&to);
                sent.push(to);
                d.record(outcome, "gateway down".to_string());
            }
            DispatchStep::Skip(w) => skipped.push(w),
            DispatchStep::Done => break,
        }
    }
    (sent, skipped, d.finish())
}

#[test]
fn newsletters_are_not_delivered_to_unconfirmed_subscribers() {
    let (sent, _, result) = run_dispatch(vec![row("peppydays@gmail.com", "pending_confirmation")], |_| {
        DeliveryOutcome::Delivered
    });
    assert!(sent.is_empty());
    assert_eq!(result.unwrap(), DispatchReport { delivered: 0, rejected: 0 });
}

#[test]
fn newsletters_are_delivered_to_confirmed_subscribers() {
    let (sent, _, result) =
        run_dispatch(vec![row("peppydays@gmail.com", "confirmed")], |_| DeliveryOutcome::Delivered);
    assert_eq!(sent, vec!["peppydays@gmail.com".to_string()]);
    assert_eq!(result.unwrap(), DispatchReport { delivered: 1, rejected: 0 });
}

#[test]
fn dispatch_sends_once_per_confirmed_subscriber_and_skips_bad_addresses() {
    let rows = vec![
        row("a@example.com", "confirmed"),
        row("b@example.com", "pending_confirmation"),
        row("not-an-email", "confirmed"),
        row("c@example.com", "confirmed"),
        row("a@example.com", "pending_confirmation"),
    ];
    let (sent, skipped, result) = run_dispatch(rows, |to| {
        if to == "c@example.com" { DeliveryOutcome::Rejected } else { DeliveryOutcome::Delivered }
    });
    assert_eq!(sent, vec!["a@example.com".to_string(), "c@example.com".to_string()]);
    assert_eq!(skipped, vec!["not-an-email is not a valid subscriber email".to_string()]);
    assert_eq!(result.unwrap(), DispatchReport { delivered: 1, rejected: 1 });
}

#[test]
fn unreachable_gateway_aborts_the_batch() {
    let rows = vec![row("a@example.com", "confirmed"), row("b@example.com", "confirmed")];
    let (sent, _, result) = run_dispatch(rows, |_| DeliveryOutcome::Unreachable);
    assert_eq!(sent, vec!["a@example.com".to_string()]);
    let err = result.unwrap_err();
    assert_eq!(err.status_code(), 500);
    match err {
        PublishError::UnexpectedError(m) => {
            assert_eq!(m, "Failed to send newsletter issue to a@example.com: gateway down")
        }
        _ => panic!("expected an unexpected error"),
    }
}

fn creds() -> Option<Credentials> {
    Some(Credentials { username: "operator".to_string(), password: "secret".to_string() })
}

#[test]
fn newsletters_returns_422_for_invalid_data() {
    let cases = [
        (None, Some("There".to_string()), Some("Hi".to_string())),
        (Some("hi".to_string()), None, None),
    ];
    for (title, html, text) in cases {
        let err = accept_publish_request(creds(), title, html, text).err().unwrap();
        assert_eq!(err.status_code(), 422);
        assert!(matches!(err, PublishError::InvalidBody(_)));
    }
    let err = accept_publish_request(creds(), None, None, None).err().unwrap();
    assert_eq!(err.response().body, "missing field `title`");
}

#[test]
fn requests_missing_authorization_are_rejected() {
    let err = accept_publish_request(
        None,
        Some("newsletter".to_string()),
        Some("there".to_string()),
        Some("hi".to_string()),
    )
    .err()
    .unwrap();
    assert_eq!(err.status_code(), 400);
    assert!(err.response().challenge.is_none());
}

#[test]
fn complete_publish_requests_are_accepted() {
    let (c, body) = accept_publish_request(
        creds(),
        Some("newsletter".to_string()),
        Some("there".to_string()),
        Some("hi".to_string()),
    )
    .ok()
    .unwrap();
    assert_eq!(c.username, "operator");
    assert_eq!(body.title, "newsletter");
    assert_eq!(body.content.html, "there");
    assert_eq!(body.content.text, "hi");
}

fn test_hash(password: &str) -> String {
    let salt = SaltString::encode_b64(b"a fixed test salt").unwrap();
    Argon2::new(Algorithm::Argon2id, Version::V0x13, Params::new(64, 1, 1, None).unwrap())
        .hash_password(password.as_bytes(), &salt)
        .unwrap()
        .to_string()
}

#[test]
fn valid_credentials_are_accepted() {
    let stored = StoredCredentials { user_id: UserId(7), password_hash: test_hash("correct horse") };
    assert_eq!(validate_credentials(Some(stored), "correct horse").unwrap(), UserId(7));
}

#[test]
fn non_existing_user_is_rejected() {
    let err = validate_credentials(None, "whatever").unwrap_err();
    assert!(matches!(err, AuthError::InvalidCredentials(_)));
    let response = PublishError::from_auth(err).response();
    assert_eq!(response.status, 401);
    assert_eq!(response.challenge.as_deref(), Some("Basic realm=\"publish\""));
}

#[test]
fn invalid_password_is_rejected() {
    let stored = StoredCredentials { user_id: UserId(7), password_hash: test_hash("correct horse") };
    let err = validate_credentials(Some(stored), "123").unwrap_err();
    assert!(matches!(err, AuthError::InvalidCredentials(_)));
    let response = PublishError::from_auth(err).response();
    assert_eq!(response.status, 401);
    assert_eq!(response.challenge.as_deref(), Some("Basic realm=\"publish\""));
}

#[test]
fn unknown_user_and_wrong_password_get_identical_responses() {
    let stored = StoredCredentials { user_id: UserId(7), password_hash: test_hash("correct horse") };
    let a = PublishError::from_auth(validate_credentials(None, "123").unwrap_err()).response();
    let b = PublishError::from_auth(validate_credentials(Some(stored), "123").unwrap_err()).response();
    assert_eq!(a.status, b.status);
    assert_eq!(a.challenge, b.challenge);
    assert_eq!(a.body, b.body);
    assert_eq!(a.body, "Authentication failed");
}

#[test]
fn malformed_stored_hash_is_an_unexpected_error() {
    let stored = StoredCredentials { user_id: UserId(7), password_hash: "not a phc string".to_string() };
    let err = validate_credentials(Some(stored), "123").unwrap_err();
    assert!(matches!(err, AuthError::UnexpectedError(_)));
    assert_eq!(PublishError::from_auth(err).response().status, 500);
}

#[test]
fn dummy_hash_is_well_formed() {
    assert!(argon2::PasswordHash::new(DUMMY_PASSWORD_HASH).is_ok());
}

#[test]
fn login_outcomes() {
    assert_eq!(login_outcome(Ok(UserId(1))).ok().unwrap(), "/");
    let e = login_outcome(Err(AuthError::InvalidCredentials("Invalid password.".to_string())))
        .err()
        .unwrap();
    assert_eq!(e.status_code(), 401);
    assert_eq!(e.message(), "Authentication failed");
    assert_eq!(e.source(), "Invalid password.");
    let e = LoginError::from_auth(AuthError::UnexpectedError("db".to_string()));
    assert_eq!(e.status_code(), 500);
}
