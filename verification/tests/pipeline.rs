use reminder_mail::address::{parse_mailbox, Mailbox};
use reminder_mail::error::{AddressError, ConfigKey, SendError};
use reminder_mail::message::{build_request, load_config, message_step, transport_step};

#[test]
fn parse_bare_address_round_trips() {
    let mailbox = parse_mailbox("a@example.com").unwrap();
    assert_eq!(mailbox.user(), "a");
    assert_eq!(mailbox.domain(), "example.com");
    assert!(mailbox.name().is_none());
    assert_eq!(mailbox.address_string(), "a@example.com");
}

#[test]
fn parse_display_name_form() {
    let mailbox = parse_mailbox("Alice Smith <alice@example.org>").unwrap();
    assert_eq!(mailbox.name().as_deref(), Some("Alice Smith"));
    assert_eq!(mailbox.user(), "alice");
    assert_eq!(mailbox.domain(), "example.org");
    assert_eq!(mailbox.address_string(), "alice@example.org");
}

#[test]
fn parse_trims_spaces_after_display_name() {
    let mailbox = parse_mailbox("Bob   <bob@example.com>").unwrap();
    assert_eq!(mailbox.name().as_deref(), Some("Bob"));
    assert_eq!(mailbox.user(), "bob");
    assert_eq!(mailbox.domain(), "example.com");
}

#[test]
fn parse_empty_display_name_is_dropped() {
    let mailbox = parse_mailbox("<alice@example.org>").unwrap();
    assert!(mailbox.name().is_none());
    assert_eq!(mailbox.user(), "alice");
}

#[test]
fn parse_rejects_text_without_at() {
    assert_eq!(parse_mailbox("not-an-email").err(), Some(AddressError::MissingParts));
}

#[test]
fn parse_rejects_empty_local_part() {
    assert_eq!(parse_mailbox("@example.com").err(), Some(AddressError::InvalidUser));
}

#[test]
fn parse_rejects_local_part_with_stray_at() {
    assert_eq!(parse_mailbox("a@b@c.com").err(), Some(AddressError::InvalidUser));
}

#[test]
fn parse_rejects_bad_domain() {
    assert_eq!(parse_mailbox("a@-x.com").err(), Some(AddressError::InvalidDomain));
}

#[test]
fn parse_rejects_unclosed_bracket() {
    assert_eq!(parse_mailbox("Alice <alice@example.org").err(), Some(AddressError::Unbalanced));
}

#[test]
fn mailbox_new_validates_parts() {
    let mailbox = Mailbox::new(None, String::from("b"), String::from("example.org")).unwrap();
    assert_eq!(mailbox.address_string(), "b@example.org");
    assert_eq!(
        Mailbox::new(None, String::new(), String::from("example.org")).err(),
        Some(AddressError::InvalidUser)
    );
}

#[test]
fn request_assembles_and_derives_auth_identity() {
    let config = load_config(
        Some(String::from("b@example.org")),
        Some(String::from("relay.example.org")),
        Some(String::from("hunter2")),
    )
    .unwrap();
    let message = build_request(
        "a@example.com",
        String::from("Reminder"),
        String::from("Pay rent"),
        config,
    )
    .unwrap();
    assert_eq!(message.recipient.user(), "a");
    assert_eq!(message.recipient.domain(), "example.com");
    assert_eq!(message.auth_username(), "b@example.org");
    assert_eq!(message.subject, "Reminder");
    assert_eq!(message.body, "Pay rent");
    assert_eq!(message.server, "relay.example.org");
    assert_eq!(message.password, "hunter2");
}

#[test]
fn request_rejects_bad_recipient() {
    let config = load_config(
        Some(String::from("b@example.org")),
        Some(String::from("relay.example.org")),
        Some(String::from("hunter2")),
    )
    .unwrap();
    let result = build_request(
        "not-an-email",
        String::from("Reminder"),
        String::from("Pay rent"),
        config,
    );
    assert_eq!(result.err(), Some(SendError::Input(AddressError::MissingParts)));
}

#[test]
fn config_requires_sender() {
    let result = load_config(None, Some(String::from("relay")), Some(String::from("pw")));
    assert_eq!(
        result.err(),
        Some(SendError::MissingConfig(ConfigKey::SenderAddress))
    );
}

#[test]
fn config_requires_server_before_any_transport_exists() {
    let result = load_config(Some(String::from("b@example.org")), None, Some(String::from("pw")));
    let error = result.err().unwrap();
    assert_eq!(error, SendError::MissingConfig(ConfigKey::ServerHost));
    assert_eq!(error.describe(), "missing SMTP_MAIL_SERVER variable");
}

#[test]
fn config_requires_password() {
    let result = load_config(
        Some(String::from("b@example.org")),
        Some(String::from("relay.example.org")),
        None,
    );
    assert_eq!(result.err(), Some(SendError::MissingConfig(ConfigKey::Password)));
}

#[test]
fn config_rejects_malformed_sender() {
    let result = load_config(
        Some(String::from("not-an-email")),
        Some(String::from("relay.example.org")),
        Some(String::from("pw")),
    );
    assert_eq!(
        result.err(),
        Some(SendError::Config(AddressError::MissingParts))
    );
}

#[test]
fn stage_errors_carry_their_context_lines() {
    assert_eq!(SendError::MessageBuild.describe(), "unable to build email");
    assert_eq!(SendError::TransportInit.describe(), "unable to create mailer");
    assert_eq!(SendError::Delivery.describe(), "unable to send email");
    assert_eq!(
        SendError::MissingConfig(ConfigKey::SenderAddress).describe(),
        "missing SMTP_MAIL_USER variable"
    );
    assert_eq!(
        SendError::MissingConfig(ConfigKey::Password).describe(),
        "missing SMTP_MAIL_PASSWORD variable"
    );
    assert_eq!(
        SendError::Config(AddressError::MissingParts).describe(),
        "unable to parse SMTP_MAIL_USER variable"
    );
    assert_eq!(
        SendError::Input(AddressError::MissingParts).describe(),
        "unable to parse recipient"
    );
}

#[test]
fn message_step_passes_built_message_and_names_build_failures() {
    let built = lettre::Message::builder()
        .to("a@example.com".parse().unwrap())
        .from("b@example.org".parse().unwrap())
        .subject("Reminder")
        .body(String::from("Pay rent"));
    assert!(message_step(built).is_ok());

    let unbuildable = lettre::Message::builder().subject("x").body(String::from("y"));
    let out = message_step(unbuildable);
    assert_eq!(out.err(), Some(SendError::MessageBuild));
}

#[test]
fn transport_step_passes_transport_and_names_setup_failures() {
    let good = lettre::SmtpTransport::starttls_relay("relay.example.org")
        .map(|builder| builder.build());
    assert!(transport_step(good).is_ok());

    let bad = lettre::SmtpTransport::from_url("::not a url::");
    assert!(bad.is_err());
    let out = transport_step(bad.map(|builder| builder.build()));
    assert_eq!(out.err(), Some(SendError::TransportInit));
}

#[test]
fn prepare_stages_a_delivery_without_touching_the_network() {
    let config = load_config(
        Some(String::from("b@example.org")),
        Some(String::from("relay.example.org")),
        Some(String::from("hunter2")),
    )
    .unwrap();
    let message = build_request(
        "a@example.com",
        String::from("Reminder"),
        String::from("Pay rent"),
        config,
    )
    .unwrap();
    let prepared = message.prepare();
    assert!(prepared.is_ok());
}
