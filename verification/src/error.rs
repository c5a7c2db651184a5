//! Error taxonomy: every stage of the build-then-send pipeline fails with a
//! distinct kind, and each kind carries a fixed human-readable context line.

use vstd::prelude::*;

verus! {

/// Why an address string was rejected.
#[derive(Clone, Copy, Debug, PartialEq, Eq, Structural)]
pub enum AddressError {
    /// No `@` separates a local part from a domain.
    MissingParts,
    /// A display-name form opens with `<` but the text does not end in `>`.
    Unbalanced,
    /// The local part fails the address grammar.
    InvalidUser,
    /// The domain fails the address grammar.
    InvalidDomain,
}

/// A configuration value that must be supplied before anything is sent.
#[derive(Clone, Copy, Debug, PartialEq, Eq, Structural)]
pub enum ConfigKey {
    /// The sender mailbox address.
    SenderAddress,
    /// The relay hostname.
    ServerHost,
    /// The relay account password.
    Password,
}

/// What went wrong, by stage. Every failure is fatal: the first failing
/// stage aborts the remaining ones and is surfaced to the caller as one of
/// these, never retried.
#[derive(Clone, Copy, Debug, PartialEq, Eq, Structural)]
pub enum SendError {
    /// A required configuration value is absent.
    MissingConfig(ConfigKey),
    /// The configured sender address does not parse.
    Config(AddressError),
    /// The caller-supplied recipient address does not parse.
    Input(AddressError),
    /// The message fields could not be assembled into a message.
    MessageBuild,
    /// The relay host could not be turned into a transport configuration.
    TransportInit,
    /// The relay refused the connection, the credentials or the message.
    Delivery,
}

impl SendError {
    /// The context line that identifies the failing stage.
    pub open spec fn spec_describe(self) -> Seq<char> {
        match self {
            SendError::MissingConfig(ConfigKey::SenderAddress) => "missing SMTP_MAIL_USER variable"@,
            SendError::MissingConfig(ConfigKey::ServerHost) => "missing SMTP_MAIL_SERVER variable"@,
            SendError::MissingConfig(ConfigKey::Password) => "missing SMTP_MAIL_PASSWORD variable"@,
            SendError::Config(_) => "unable to parse SMTP_MAIL_USER variable"@,
            SendError::Input(_) => "unable to parse recipient"@,
            SendError::MessageBuild => "unable to build email"@,
            SendError::TransportInit => "unable to create mailer"@,
            SendError::Delivery => "unable to send email"@,
        }
    }

    /// The context line that identifies the failing stage.
    pub fn describe(&self) -> (r: String)
        ensures
            r@ == self.spec_describe(),
    {
        match self {
            SendError::MissingConfig(ConfigKey::SenderAddress) => {
                String::from_str("missing SMTP_MAIL_USER variable")
            },
            SendError::MissingConfig(ConfigKey::ServerHost) => {
                String::from_str("missing SMTP_MAIL_SERVER variable")
            },
            SendError::MissingConfig(ConfigKey::Password) => {
                String::from_str("missing SMTP_MAIL_PASSWORD variable")
            },
            SendError::Config(_) => String::from_str("unable to parse SMTP_MAIL_USER variable"),
            SendError::Input(_) => String::from_str("unable to parse recipient"),
            SendError::MessageBuild => String::from_str("unable to build email"),
            SendError::TransportInit => String::from_str("unable to create mailer"),
            SendError::Delivery => String::from_str("unable to send email"),
        }
    }
}

} // verus!
