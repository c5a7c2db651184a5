//! Build one reminder e-mail and stage it for delivery through an
//! authenticated, encrypted SMTP relay.
//!
//! The crate models mailboxes (a validated address with an optional display
//! name), assembles an outbound message from caller-supplied fields, derives
//! the authentication identity from the sender address, and configures the
//! relay transport. Opening the network connection itself is left to the
//! program around the library.

pub mod address;
pub mod error;
pub mod message;
