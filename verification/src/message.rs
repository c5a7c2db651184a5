//! The outbound message and its build-then-send pipeline.
//!
//! A [`ReminderMessage`] carries everything one delivery needs. Preparing it
//! builds the mail library's message value, derives the authentication
//! identity from the sender address, and configures the STARTTLS relay
//! transport with plain-mechanism credentials and a bounded connection
//! pool. The steps run in order and the first failure aborts the rest; the
//! network connection itself is opened by the caller, outside this crate.

use vstd::prelude::*;

use crate::address::{spec_parse_mailbox, Mailbox, MailboxView, parse_mailbox};
use crate::error::{AddressError, ConfigKey, SendError};

verus! {

/// Cap on the transport's connection pool. A single delivery never grows
/// the pool past one connection; the cap is a transport-level default.
pub const POOL_MAX_SIZE: u32 = 20;

#[verifier::external_type_specification]
#[verifier::external_body]
pub struct ExLettreMessage(lettre::Message);

#[verifier::external_type_specification]
#[verifier::external_body]
pub struct ExSmtpTransport(lettre::SmtpTransport);

#[verifier::external_type_specification]
#[verifier::external_body]
pub struct ExEmailError(lettre::error::Error);

#[verifier::external_type_specification]
#[verifier::external_body]
pub struct ExSmtpError(lettre::transport::smtp::Error);

/// Relies on lettre's `MessageBuilder` (`to`, `from`, `subject`, `body`): a
/// message with exactly one recipient, one sender, the given subject and
/// the given plain-text body. The mailbox parts are reassembled through
/// `lettre::Address::new` and `lettre::message::Mailbox::new`; the grammar
/// requirements are exactly what makes the address checks succeed, so
/// neither call can fail. lettre picks the transfer encoding and stamps the
/// date, so nothing is promised of the returned value.
#[verifier::external_body]
fn build_message(
    to_name: Option<&String>,
    to_user: &str,
    to_domain: &str,
    from_name: Option<&String>,
    from_user: &str,
    from_domain: &str,
    subject: &str,
    body: &str,
) -> Result<lettre::Message, lettre::error::Error>
    requires
        crate::address::local_part_ok(to_user@),
        crate::address::domain_part_ok(to_domain@),
        crate::address::local_part_ok(from_user@),
        crate::address::domain_part_ok(from_domain@),
{
    let to = lettre::message::Mailbox::new(
        to_name.cloned(),
        lettre::Address::new(to_user, to_domain).unwrap(),
    );
    let from = lettre::message::Mailbox::new(
        from_name.cloned(),
        lettre::Address::new(from_user, from_domain).unwrap(),
    );
    lettre::Message::builder().to(to).from(from).subject(subject).body(body.to_owned())
}

/// Relies on lettre's `SmtpTransport` builder: a STARTTLS relay on the
/// standard submission port against `server`, credentials
/// `username`/`password` restricted to the plain mechanism, and a
/// connection pool capped at `pool_max`. `starttls_relay` fails when the
/// hostname cannot be turned into a TLS configuration; nothing further is
/// promised of either outcome.
#[verifier::external_body]
fn build_transport(
    server: &str,
    username: String,
    password: String,
    pool_max: u32,
) -> Result<lettre::SmtpTransport, lettre::transport::smtp::Error> {
    let builder = lettre::SmtpTransport::starttls_relay(server)?;
    Ok(
        builder.credentials(
            lettre::transport::smtp::authentication::Credentials::new(username, password),
        ).authentication(
            vec![lettre::transport::smtp::authentication::Mechanism::Plain],
        ).pool_config(lettre::transport::smtp::PoolConfig::new().max_size(pool_max)).build(),
    )
}

/// How a message-build outcome is surfaced: the built message passes
/// through untouched, any failure becomes [`SendError::MessageBuild`].
pub fn message_step(r: Result<lettre::Message, lettre::error::Error>) -> (out: Result<
    lettre::Message,
    SendError,
>)
    ensures
        r matches Ok(m) ==> out matches Ok(m2) && m2 == m,
        r is Err ==> out == Err::<lettre::Message, SendError>(SendError::MessageBuild),
{
    match r {
        Ok(m) => Ok(m),
        Err(_) => Err(SendError::MessageBuild),
    }
}

/// How a transport-setup outcome is surfaced: the configured transport
/// passes through untouched, any failure becomes
/// [`SendError::TransportInit`].
pub fn transport_step(r: Result<lettre::SmtpTransport, lettre::transport::smtp::Error>) -> (out:
    Result<lettre::SmtpTransport, SendError>)
    ensures
        r matches Ok(t) ==> out matches Ok(t2) && t2 == t,
        r is Err ==> out == Err::<lettre::SmtpTransport, SendError>(SendError::TransportInit),
{
    match r {
        Ok(t) => Ok(t),
        Err(_) => Err(SendError::TransportInit),
    }
}

/// The configuration a delivery needs beyond the caller-supplied fields,
/// collected once at startup and passed by value.
pub struct Config {
    /// The sender mailbox, parsed from the configured address.
    pub sender: Mailbox,
    /// The relay hostname.
    pub server: String,
    /// The relay account password.
    pub password: String,
}

/// Check the values read from the environment, in the order the program
/// reads them: the sender address must be present and must parse, then the
/// relay host and the password must be present. The first absent or
/// malformed value is the error; nothing later runs, and in particular no
/// transport exists yet when this fails.
pub fn load_config(sender: Option<String>, server: Option<String>, password: Option<String>) -> (r:
    Result<Config, SendError>)
    ensures
        match r {
            Ok(c) => {
                &&& sender matches Some(s) && spec_parse_mailbox(s@) == Ok::<
                    MailboxView,
                    AddressError,
                >(c.sender@)
                &&& server matches Some(h) && c.server@ == h@
                &&& password matches Some(p) && c.password@ == p@
            },
            Err(e) => {
                ||| sender is None && e == SendError::MissingConfig(ConfigKey::SenderAddress)
                ||| sender matches Some(s) && spec_parse_mailbox(s@) matches Err(ae) && e
                    == SendError::Config(ae)
                ||| sender matches Some(s) && spec_parse_mailbox(s@) is Ok && server is None && e
                    == SendError::MissingConfig(ConfigKey::ServerHost)
                ||| sender matches Some(s) && spec_parse_mailbox(s@) is Ok && server is Some
                    && password is None && e == SendError::MissingConfig(ConfigKey::Password)
            },
        },
{
    let sender_text = match sender {
        Some(s) => s,
        None => {
            return Err(SendError::MissingConfig(ConfigKey::SenderAddress));
        },
    };
    let sender_mailbox = match parse_mailbox(sender_text.as_str()) {
        Ok(m) => m,
        Err(ae) => {
            return Err(SendError::Config(ae));
        },
    };
    let server_text = match server {
        Some(h) => h,
        None => {
            return Err(SendError::MissingConfig(ConfigKey::ServerHost));
        },
    };
    let password_text = match password {
        Some(p) => p,
        None => {
            return Err(SendError::MissingConfig(ConfigKey::Password));
        },
    };
    Ok(Config { sender: sender_mailbox, server: server_text, password: password_text })
}

/// One outbound message together with everything its delivery needs.
pub struct ReminderMessage {
    /// Who the message goes to.
    pub recipient: Mailbox,
    /// Who the message comes from; also the authentication identity.
    pub sender: Mailbox,
    /// The subject line.
    pub subject: String,
    /// The plain-text body.
    pub body: String,
    /// The relay hostname.
    pub server: String,
    /// The relay account password.
    pub password: String,
}

/// Assemble a message from the caller-supplied fields and the
/// configuration. The recipient string must parse as a mailbox; a rejected
/// recipient is the error, and nothing later runs.
pub fn build_request(recipient: &str, subject: String, body: String, config: Config) -> (r: Result<
    ReminderMessage,
    SendError,
>)
    ensures
        match r {
            Ok(m) => {
                &&& spec_parse_mailbox(recipient@) == Ok::<MailboxView, AddressError>(m.recipient@)
                &&& m.sender@ == config.sender@
                &&& m.subject@ == subject@
                &&& m.body@ == body@
                &&& m.server@ == config.server@
                &&& m.password@ == config.password@
            },
            Err(e) => spec_parse_mailbox(recipient@) matches Err(ae) && e == SendError::Input(ae),
        },
{
    match parse_mailbox(recipient) {
        Ok(mailbox) => Ok(
            ReminderMessage {
                recipient: mailbox,
                sender: config.sender,
                subject,
                body,
                server: config.server,
                password: config.password,
            },
        ),
        Err(ae) => Err(SendError::Input(ae)),
    }
}

/// A message built and a transport configured, ready for one delivery.
pub struct PreparedSend {
    /// The message as the mail library represents it.
    pub email: lettre::Message,
    /// The relay transport, already holding the credentials.
    pub mailer: lettre::SmtpTransport,
}

impl ReminderMessage {
    /// The authentication identity: always the sender address itself, local
    /// part and domain joined by `@`; no separate login name exists.
    pub fn auth_username(&self) -> (r: String)
        ensures
            r@ == self.sender@.user + seq!['@'] + self.sender@.domain,
    {
        self.sender.address_string()
    }

    /// Run the fallible build steps in order: construct the message, then
    /// derive the credentials and configure the relay transport. The first
    /// failure aborts the rest and names its stage; on success the delivery
    /// is staged and only the network call remains.
    pub fn prepare(&self) -> (r: Result<PreparedSend, SendError>)
        ensures
            r matches Err(e) ==> e == SendError::MessageBuild || e == SendError::TransportInit,
    {
        let to = self.recipient.checked_parts();
        let from = self.sender.checked_parts();
        let email = match message_step(
            build_message(
                to.0,
                to.1,
                to.2,
                from.0,
                from.1,
                from.2,
                self.subject.as_str(),
                self.body.as_str(),
            ),
        ) {
            Ok(m) => m,
            Err(e) => {
                return Err(e);
            },
        };
        let username = self.auth_username();
        let mailer = match transport_step(
            build_transport(self.server.as_str(), username, self.password.clone(), POOL_MAX_SIZE),
        ) {
            Ok(t) => t,
            Err(e) => {
                return Err(e);
            },
        };
        Ok(PreparedSend { email, mailer })
    }
}

} // verus!
