use zero2prod::authentication::{
    validate_credentials, AuthError, Credentials, StoredCredentialRecord, StoreUnavailable,
    STATUS_INTERNAL_SERVER_ERROR, STATUS_OK, STATUS_UNAUTHORIZED,
};
use zero2prod::routes::newsletter::{
    basic_authentication, build_basic_header, email_request, get_confirmed_subscribers,
    transport_failure, BodyData, Content, EmailRequest, FanoutPlan, MalformedAuthHeader,
};
use zero2prod::secret::SecretString;

fn newsletter_body() -> BodyData {
    BodyData {
        title: "Newsletter title".to_string(),
        content: Content {
            text: "Newsletter body as plain text".to_string(),
            html: "<p>Newsletter body as HTML</p>".to_string(),
        },
    }
}

/// Drive the fan-out the way the shell does: one send per recipient in
/// order, aborting at the first transport failure. Returns the response
/// status and the requests the transport accepted.
fn run_fanout<F>(plan: &mut FanoutPlan, body: &BodyData, mut transport: F) -> (u16, Vec<EmailRequest>)
where
    F: FnMut(&EmailRequest) -> Result<(), String>,
{
    let mut delivered = Vec::new();
    loop {
        let request = match plan.next_recipient() {
            None => break,
            Some(recipient) => email_request(body, recipient),
        };
        match transport(&request) {
            Ok(()) => {
                delivered.push(request);
                plan.record_sent();
            }
            Err(_) => {
                let error = transport_failure(plan.next_recipient().unwrap());
                return (error.status_code(), delivered);
            }
        }
    }
    (STATUS_OK, delivered)
}

#[test]
fn newsletters_are_delivered_to_confirmed_subscribers() {
    let rows = vec!["ursula_le_guin@gmail.com".to_string()];
    let subscribers = get_confirmed_subscribers(rows);
    let mut plan = FanoutPlan::new(subscribers);
    let body = newsletter_body();
    let (status, delivered) = run_fanout(&mut plan, &body, |_| Ok(()));
    assert_eq!(status, 200);
    assert_eq!(delivered.len(), 1);
    assert_eq!(delivered[0].recipient, "ursula_le_guin@gmail.com");
    assert_eq!(delivered[0].subject, "Newsletter title");
    assert_eq!(delivered[0].text_body, "Newsletter body as plain text");
    assert_eq!(delivered[0].html_body, "<p>Newsletter body as HTML</p>");
    assert!(plan.is_complete());
}

#[test]
fn newsletters_are_not_delivered_to_unconfirmed_subscribers() {
    // Unconfirmed subscribers never reach the dispatcher: the store hands
    // over confirmed rows only. With none, nothing is sent and the publish
    // still succeeds.
    let subscribers = get_confirmed_subscribers(Vec::new());
    let mut plan = FanoutPlan::new(subscribers);
    let body = newsletter_body();
    let (status, delivered) = run_fanout(&mut plan, &body, |_| Ok(()));
    assert_eq!(status, 200);
    assert_eq!(delivered.len(), 0);
}

#[test]
fn fanout_skips_rows_with_invalid_stored_email() {
    let rows = vec![
        "a@x.com".to_string(),
        "not-an-email".to_string(),
        "b@x.com".to_string(),
    ];
    let subscribers = get_confirmed_subscribers(rows);
    assert!(subscribers[0].is_ok());
    assert!(subscribers[1].is_err());
    assert!(subscribers[2].is_ok());
    let mut plan = FanoutPlan::new(subscribers);
    assert_eq!(plan.recipient_count(), 2);
    assert_eq!(plan.skipped_count(), 1);
    let body = newsletter_body();
    let (status, delivered) = run_fanout(&mut plan, &body, |_| Ok(()));
    assert_eq!(status, 200);
    assert_eq!(delivered.len(), 2);
    assert_eq!(delivered[0].recipient, "a@x.com");
    assert_eq!(delivered[1].recipient, "b@x.com");
}

#[test]
fn fanout_aborts_on_first_transport_failure() {
    let rows = vec!["a@x.com".to_string(), "b@x.com".to_string()];
    let subscribers = get_confirmed_subscribers(rows);
    let mut plan = FanoutPlan::new(subscribers);
    let body = newsletter_body();
    let mut attempted = Vec::new();
    let (status, delivered) = run_fanout(&mut plan, &body, |request| {
        attempted.push(request.recipient.clone());
        Err("the mail transport is down".to_string())
    });
    assert_eq!(status, 500);
    assert_eq!(delivered.len(), 0);
    // The first recipient's send was attempted; the second was never contacted.
    assert_eq!(attempted, vec!["a@x.com".to_string()]);
    assert_eq!(plan.sent_count(), 0);
}

#[test]
fn transport_failure_names_the_recipient() {
    let subscribers = get_confirmed_subscribers(vec!["a@x.com".to_string()]);
    let plan = FanoutPlan::new(subscribers);
    let recipient = plan.next_recipient().expect("one recipient");
    match transport_failure(recipient) {
        AuthError::UnexpectedError(message) => {
            assert_eq!(message, "Failed to send email to subscriber a@x.com");
        }
        AuthError::InvalidCredentials(_) => panic!("a transport failure is unexpected, not 401"),
    }
}

#[test]
fn basic_header_round_trips() {
    let header = build_basic_header("username", "secret-password").expect("no colon in username");
    let credentials = basic_authentication(Some(&header)).expect("round trip");
    assert_eq!(credentials.username, "username");
    assert_eq!(credentials.password.expose_secret(), "secret-password");
}

#[test]
fn basic_header_round_trips_with_colons_in_the_password() {
    // Only the first ':' separates the two halves.
    let header = build_basic_header("user", "p:ass:word").expect("no colon in username");
    let credentials = basic_authentication(Some(&header)).expect("round trip");
    assert_eq!(credentials.username, "user");
    assert_eq!(credentials.password.expose_secret(), "p:ass:word");
}

#[test]
fn username_with_colon_cannot_be_encoded() {
    assert!(build_basic_header("user:name", "pw").is_none());
}

#[test]
fn empty_halves_round_trip() {
    // Only the separator is required: either half may be empty.
    let header = build_basic_header("", "pw").expect("no colon in username");
    let credentials = basic_authentication(Some(&header)).expect("round trip");
    assert_eq!(credentials.username, "");
    assert_eq!(credentials.password.expose_secret(), "pw");

    let header = build_basic_header("user", "").expect("no colon in username");
    let credentials = basic_authentication(Some(&header)).expect("round trip");
    assert_eq!(credentials.username, "user");
    assert_eq!(credentials.password.expose_secret(), "");
}

#[test]
fn missing_header_is_rejected() {
    assert_eq!(
        basic_authentication(None).err().unwrap(),
        MalformedAuthHeader::Missing
    );
}

#[test]
fn non_basic_scheme_is_rejected() {
    let header = b"Bearer abcdef".to_vec();
    assert_eq!(
        basic_authentication(Some(&header)).err().unwrap(),
        MalformedAuthHeader::SchemeNotBasic
    );
    let empty = Vec::new();
    assert_eq!(
        basic_authentication(Some(&empty)).err().unwrap(),
        MalformedAuthHeader::SchemeNotBasic
    );
}

#[test]
fn invalid_base64_is_rejected() {
    let header = b"Basic %%%not-base64%%%".to_vec();
    assert_eq!(
        basic_authentication(Some(&header)).err().unwrap(),
        MalformedAuthHeader::InvalidBase64
    );
}

#[test]
fn credentials_without_colon_are_rejected() {
    let token = base64::Engine::encode(&base64::engine::general_purpose::STANDARD, b"nocolon");
    let mut header = b"Basic ".to_vec();
    header.extend_from_slice(token.as_bytes());
    assert_eq!(
        basic_authentication(Some(&header)).err().unwrap(),
        MalformedAuthHeader::MissingPassword
    );
}

#[test]
fn non_utf8_credentials_are_rejected() {
    let payload: Vec<u8> = vec![0xff, 0xfe, b':', b'p', b'w'];
    let token = base64::Engine::encode(&base64::engine::general_purpose::STANDARD, &payload);
    let mut header = b"Basic ".to_vec();
    header.extend_from_slice(token.as_bytes());
    assert_eq!(
        basic_authentication(Some(&header)).err().unwrap(),
        MalformedAuthHeader::NotUtf8
    );
}

#[test]
fn publish_succeeds_end_to_end_for_one_confirmed_subscriber() {
    // A stored record for the operator, hashed with the live parameters.
    let salt = argon2::password_hash::SaltString::from_b64("c2FsdHNhbHRzYWx0").unwrap();
    let hash = argon2::PasswordHasher::hash_password(
        &argon2::Argon2::default(),
        b"everythinghastostartsomewhere",
        &salt,
    )
    .unwrap()
    .to_string();

    let header =
        build_basic_header("admin", "everythinghastostartsomewhere").expect("no colon in username");
    let credentials = basic_authentication(Some(&header)).expect("well-formed header");
    assert_eq!(credentials.username, "admin");

    let record = StoredCredentialRecord {
        user_id: 7,
        password_hash: SecretString::new(hash),
    };
    let user_id = validate_credentials(credentials, Ok(Some(record))).expect("valid credentials");
    assert_eq!(user_id, 7);

    let subscribers = get_confirmed_subscribers(vec!["ursula_le_guin@gmail.com".to_string()]);
    let mut plan = FanoutPlan::new(subscribers);
    let body = newsletter_body();
    let (status, delivered) = run_fanout(&mut plan, &body, |_| Ok(()));
    assert_eq!(status, 200);
    assert_eq!(delivered.len(), 1);
    assert_eq!(delivered[0].recipient, "ursula_le_guin@gmail.com");
    assert_eq!(delivered[0].subject, "Newsletter title");
    assert_eq!(delivered[0].html_body, "<p>Newsletter body as HTML</p>");
    assert_eq!(delivered[0].text_body, "Newsletter body as plain text");
}

#[test]
fn malformed_header_maps_to_the_uniform_401() {
    let error = basic_authentication(None).err().unwrap().into_auth_error();
    assert_eq!(error.status_code(), STATUS_UNAUTHORIZED);
    let parts = error.error_response();
    assert_eq!(parts.status, 401);
    assert_eq!(parts.www_authenticate.as_deref(), Some("Basic realm=\"publish\""));
}

#[test]
fn unexpected_errors_map_to_500_without_a_challenge() {
    let credentials = Credentials {
        username: "admin".to_string(),
        password: SecretString::new("pw".to_string()),
    };
    let error = validate_credentials(
        credentials,
        Err(StoreUnavailable {
            context: "connection refused".to_string(),
        }),
    )
    .unwrap_err();
    assert_eq!(error.status_code(), STATUS_INTERNAL_SERVER_ERROR);
    let parts = error.error_response();
    assert_eq!(parts.status, 500);
    assert!(parts.www_authenticate.is_none());
}
