//! The closed set of failure kinds of the dispatcher. Every lower-layer
//! failure is wrapped into exactly one of these, carrying the underlying
//! lettre error as context; nothing is retried or logged here.

use vstd::prelude::*;

verus! {

/// Declares lettre's message-construction error type (`lettre::error::Error`)
/// so that it can be carried as a payload; its contents stay opaque.
#[verifier::external_type_specification]
#[verifier::external_body]
pub struct ExEmailError(lettre::error::Error);

/// Declares lettre's SMTP transport error type
/// (`lettre::transport::smtp::Error`); its contents stay opaque.
#[verifier::external_type_specification]
#[verifier::external_body]
pub struct ExSmtpError(lettre::transport::smtp::Error);

/// Declares lettre's mail-address parse error type
/// (`lettre::address::AddressError`); its contents stay opaque.
#[verifier::external_type_specification]
#[verifier::external_body]
pub struct ExAddressError(lettre::address::AddressError);

/// Everything that can go wrong in a send or connection test. Each variant
/// but `ConfigurationMissing` keeps the underlying cause for diagnostics.
#[derive(Debug)]
pub enum MailerError {
    /// One or more of the five required tenant SMTP fields is absent;
    /// raised before any message or transport work.
    ConfigurationMissing,
    /// Message construction failed for a reason other than address parsing.
    BuildError(lettre::error::Error),
    /// Transport-level failure: TLS setup, connection, authentication,
    /// timeout or SMTP protocol rejection.
    SendError(lettre::transport::smtp::Error),
    /// The sender or recipient is not a syntactically valid mail address.
    AddressError(lettre::address::AddressError),
}

impl MailerError {
    /// Wraps a message-construction failure.
    pub fn from_email_error(e: lettre::error::Error) -> (r: MailerError)
        ensures
            r matches MailerError::BuildError(inner) && inner == e,
    {
        MailerError::BuildError(e)
    }

    /// Wraps a transport-level failure.
    pub fn from_smtp_error(e: lettre::transport::smtp::Error) -> (r: MailerError)
        ensures
            r matches MailerError::SendError(inner) && inner == e,
    {
        MailerError::SendError(e)
    }

    /// Wraps an address parse failure.
    pub fn from_address_error(e: lettre::address::AddressError) -> (r: MailerError)
        ensures
            r matches MailerError::AddressError(inner) && inner == e,
    {
        MailerError::AddressError(e)
    }
}

} // verus!
