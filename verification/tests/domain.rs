use zero2prod::domain::{NewSubscriber, SubscriberEmail, SubscriberName};
use zero2prod::routes::error_chain_fmt;
use zero2prod::routes::subscriptions_confirm::{confirm, Parameters};

#[test]
fn a_valid_name_is_accepted_unchanged() {
    let name = SubscriberName::parse("Ursula Le Guin".to_string()).unwrap();
    assert_eq!(name.inner_ref(), "Ursula Le Guin");
}

#[test]
fn empty_and_whitespace_only_names_are_rejected() {
    assert!(SubscriberName::parse("".to_string()).is_err());
    assert!(SubscriberName::parse("   ".to_string()).is_err());
    assert!(SubscriberName::parse("\t\n \u{a0}".to_string()).is_err());
}

#[test]
fn a_256_grapheme_long_name_is_valid() {
    let name = "a".repeat(256);
    assert!(SubscriberName::parse(name).is_ok());
}

#[test]
fn a_name_longer_than_256_graphemes_is_rejected() {
    let name = "a".repeat(257);
    assert!(SubscriberName::parse(name).is_err());
}

#[test]
fn names_containing_forbidden_characters_are_rejected() {
    for c in ['/', '(', ')', '"', '<', '>', '\\', '{', '}'] {
        let name = format!("Ursula{}Le Guin", c);
        assert!(SubscriberName::parse(name).is_err());
    }
}

#[test]
fn a_rejected_name_reports_the_fixed_message() {
    let error = SubscriberName::parse(" ".to_string()).err().unwrap();
    assert_eq!(error, "Invalid subscriber name.");
}

#[test]
fn a_new_subscriber_carries_the_parsed_name() {
    let subscriber = NewSubscriber {
        email: "ursula@x.com".to_string(),
        name: SubscriberName::parse("Ursula".to_string()).unwrap(),
    };
    assert_eq!(subscriber.email, "ursula@x.com");
    assert_eq!(subscriber.name.inner_ref(), "Ursula");
}

#[test]
fn a_valid_email_is_accepted_unchanged() {
    let email = SubscriberEmail::parse("ursula_le_guin@gmail.com".to_string()).unwrap();
    assert_eq!(email.inner_ref(), "ursula_le_guin@gmail.com");
}

#[test]
fn emails_without_an_interior_at_sign_are_rejected() {
    assert!(SubscriberEmail::parse("not-an-email".to_string()).is_err());
    assert!(SubscriberEmail::parse("@domain.com".to_string()).is_err());
    assert!(SubscriberEmail::parse("user@".to_string()).is_err());
    assert!(SubscriberEmail::parse("".to_string()).is_err());
}

#[test]
fn a_rejected_email_reports_the_offending_value() {
    let error = SubscriberEmail::parse("not-an-email".to_string()).err().unwrap();
    assert_eq!(error, "not-an-email is not a valid subscriber email.");
}

#[test]
fn error_chains_render_outermost_message_first() {
    let messages = vec![
        "Failed to send email to subscriber a@x.com".to_string(),
        "connection refused".to_string(),
        "os error 111".to_string(),
    ];
    let rendered = error_chain_fmt(&messages);
    assert_eq!(
        rendered,
        "Failed to send email to subscriber a@x.com\n\n\
         Caused by:\n\tconnection refused\n\
         Caused by:\n\tos error 111\n"
    );
}

#[test]
fn an_empty_error_chain_renders_nothing() {
    assert_eq!(error_chain_fmt(&Vec::new()), "");
}

#[test]
fn confirm_acknowledges_every_request() {
    let parameters = Parameters {
        subscription_token: "abc123".to_string(),
    };
    assert_eq!(confirm(&parameters), 200);
}
