//! Builds the concrete lettre message and transport that a plan calls for.
//! Every call into lettre stands behind a trusted item; the decision which
//! construction to use, and which error kind each failure maps to, is
//! verified here. The caller performs the actual network transaction on the
//! prepared transport.

use vstd::prelude::*;
use std::time::Duration;
use lettre::AsyncSmtpTransport;
use lettre::Tokio1Executor;
use lettre::message::Mailbox;
use lettre::message::SinglePart;
use lettre::message::header::ContentType;
use lettre::transport::smtp::authentication::Credentials;
use lettre::transport::smtp::client::Tls;
use lettre::transport::smtp::client::TlsParameters;
use crate::config::Tenant;
use crate::config::config_complete;
use crate::error::MailerError;
use crate::plan::TlsMode;
use crate::plan::TransportPlan;
use crate::plan::plan_for_send;
use crate::plan::plan_for_test;
use crate::plan::plan_of_tenant;
use crate::plan::test_plan_matches;

verus! {

/// Declares lettre's parsed mailbox type (`lettre::message::Mailbox`); its
/// contents stay opaque.
#[verifier::external_type_specification]
#[verifier::external_body]
pub struct ExMailbox(Mailbox);

/// Declares lettre's built message type (`lettre::Message`); its contents
/// stay opaque.
#[verifier::external_type_specification]
#[verifier::external_body]
pub struct ExMessage(lettre::Message);

/// Carries lettre's async SMTP transport
/// (`AsyncSmtpTransport<Tokio1Executor>`) opaquely. The transport type
/// itself cannot be declared here, since its type parameter is bounded by
/// lettre's `Executor` trait; the caller reaches the transport through the
/// public field.
#[verifier::external_body]
pub struct MailTransport(pub AsyncSmtpTransport<Tokio1Executor>);

/// Whether lettre's mailbox grammar accepts a string (`"user@domain"` or
/// `"Name <user@domain>"`); a function of the string alone.
pub uninterp spec fn mailbox_ok(s: Seq<char>) -> bool;

/// Relies on lettre's `Mailbox` parser (`str::parse::<Mailbox>`, i.e.
/// `Mailbox::from_str`): whether the input is a syntactically valid mail
/// address depends on the input string alone, and a malformed input is
/// rejected with an `AddressError`.
#[verifier::external_body]
fn parse_mailbox(s: &str) -> (r: Result<Mailbox, lettre::address::AddressError>)
    ensures
        r is Ok <==> mailbox_ok(s@),
{
    s.parse()
}

/// Relies on lettre's `MessageBuilder` (`Message::builder`, `from`, `to`,
/// `subject`, `singlepart`) and `SinglePart::builder`: the setters are
/// infallible, and with exactly one `From` mailbox and one `To` mailbox set
/// the final build step always succeeds, since `MissingFrom`, `TooManyFrom`
/// and `MissingTo` are its only failures on this path. The body is typed
/// `text/html`, a single MIME part with no alternatives.
#[verifier::external_body]
fn build_html_message(
    from: Mailbox,
    to: Mailbox,
    subject: &str,
    body: &str,
) -> (r: Result<lettre::Message, lettre::error::Error>)
    ensures
        r is Ok,
{
    lettre::Message::builder()
        .from(from)
        .to(to)
        .subject(subject)
        .singlepart(
            SinglePart::builder()
                .header(ContentType::TEXT_HTML)
                .body(body.to_string()),
        )
}

/// Relies on lettre's `AsyncSmtpTransport::builder_dangerous` and its
/// builder setters (`port`, `credentials`, `tls`, `timeout`, `build`), all
/// infallible, and on `TlsParameters::new`, whose only fallible step is
/// setting up the machine's TLS stack — an outcome of the environment, so
/// nothing is promised of it. TLS wraps the connection from the first byte
/// (`Tls::Wrapper`).
#[verifier::external_body]
fn build_transport_implicit(
    host: &str,
    port: u16,
    username: &str,
    password: &str,
    timeout_secs: u64,
) -> (r: Result<MailTransport, lettre::transport::smtp::Error>)
{
    let params = TlsParameters::new(host.to_string())?;
    Ok(MailTransport(AsyncSmtpTransport::<Tokio1Executor>::builder_dangerous(host)
        .port(port)
        .credentials(Credentials::new(username.to_string(), password.to_string()))
        .tls(Tls::Wrapper(params))
        .timeout(Some(Duration::from_secs(timeout_secs)))
        .build()))
}

/// Relies on the same lettre builder chain as the implicit variant, again
/// with the TLS-stack setup in `TlsParameters::new` as the only fallible
/// step, of which nothing is promised; the connection starts in plaintext
/// and an upgrade to TLS is required before anything sensitive is sent
/// (`Tls::Required`).
#[verifier::external_body]
fn build_transport_starttls(
    host: &str,
    port: u16,
    username: &str,
    password: &str,
    timeout_secs: u64,
) -> (r: Result<MailTransport, lettre::transport::smtp::Error>)
{
    let params = TlsParameters::new(host.to_string())?;
    Ok(MailTransport(AsyncSmtpTransport::<Tokio1Executor>::builder_dangerous(host)
        .port(port)
        .credentials(Credentials::new(username.to_string(), password.to_string()))
        .tls(Tls::Required(params))
        .timeout(Some(Duration::from_secs(timeout_secs)))
        .build()))
}

/// Relies on lettre's `AsyncSmtpTransport::builder_dangerous` and its
/// builder setters, all infallible; the connection stays unencrypted
/// (`Tls::None`).
#[verifier::external_body]
fn build_transport_plain(
    host: &str,
    port: u16,
    username: &str,
    password: &str,
    timeout_secs: u64,
) -> (r: MailTransport)
{
    MailTransport(AsyncSmtpTransport::<Tokio1Executor>::builder_dangerous(host)
        .port(port)
        .credentials(Credentials::new(username.to_string(), password.to_string()))
        .tls(Tls::None)
        .timeout(Some(Duration::from_secs(timeout_secs)))
        .build())
}

/// Builds the transport a plan describes: TLS from the first byte for
/// `Implicit`, required STARTTLS for `StartTls`, plaintext for
/// `NoEncryption`, always on the plan's host, port, credentials and
/// timeout. A plan that needs no encryption always succeeds; on the two
/// TLS modes the machine's TLS stack decides whether client parameters
/// can be set up.
pub fn build_transport(plan: &TransportPlan) -> (r: Result<
    MailTransport,
    lettre::transport::smtp::Error,
>)
    ensures
        plan.tls_mode is NoEncryption ==> r is Ok,
{
    match plan.tls_mode {
        TlsMode::Implicit => build_transport_implicit(
            plan.host.as_str(),
            plan.port,
            plan.username.as_str(),
            plan.password.as_str(),
            plan.timeout_secs,
        ),
        TlsMode::StartTls => build_transport_starttls(
            plan.host.as_str(),
            plan.port,
            plan.username.as_str(),
            plan.password.as_str(),
            plan.timeout_secs,
        ),
        TlsMode::NoEncryption => Ok(build_transport_plain(
            plan.host.as_str(),
            plan.port,
            plan.username.as_str(),
            plan.password.as_str(),
            plan.timeout_secs,
        )),
    }
}

/// A fully prepared send: the resolved plan, the built message and the
/// transport to hand it to.
pub struct PreparedSend {
    pub plan: TransportPlan,
    pub message: lettre::Message,
    pub transport: MailTransport,
}

/// A fully prepared connection test: the plan and the transport whose
/// connection and authentication are to be verified.
pub struct PreparedTest {
    pub plan: TransportPlan,
    pub transport: MailTransport,
}

/// Resolves the tenant configuration, parses the sender and recipient
/// addresses, builds the single-part HTML message and the transport the
/// decision table calls for. Fails with `ConfigurationMissing` before any
/// other work when a required field is absent, and with `AddressError`
/// when either address is malformed; after that the only possible failure
/// is `SendError`, when the machine's TLS stack cannot set up client
/// parameters, and a plan that needs no encryption always succeeds. No
/// network activity happens here.
pub fn prepare_send(
    tenant: &Tenant,
    to: &str,
    subject: &str,
    body: &str,
) -> (r: Result<PreparedSend, MailerError>)
    ensures
        r is Ok ==> config_complete(*tenant) && mailbox_ok(tenant.smtp_from->0@)
            && mailbox_ok(to@),
        !config_complete(*tenant) ==> (r matches Err(e) && e is ConfigurationMissing),
        config_complete(*tenant) && !(mailbox_ok(tenant.smtp_from->0@) && mailbox_ok(to@))
            ==> (r matches Err(e) && e is AddressError),
        config_complete(*tenant) && mailbox_ok(tenant.smtp_from->0@) && mailbox_ok(to@)
            && r is Err
            ==> (r matches Err(e) && e is SendError),
        config_complete(*tenant) && mailbox_ok(tenant.smtp_from->0@) && mailbox_ok(to@)
            && plan_of_tenant(*tenant).tls_mode is NoEncryption
            ==> r is Ok,
        r matches Ok(ps) ==> ps.plan == plan_of_tenant(*tenant),
{
    let from_s = match &tenant.smtp_from {
        Some(f) => f,
        None => {
            return Err(MailerError::ConfigurationMissing);
        },
    };
    let plan = match plan_for_send(tenant) {
        Ok(p) => p,
        Err(e) => {
            return Err(e);
        },
    };
    let from_mb = match parse_mailbox(from_s.as_str()) {
        Ok(m) => m,
        Err(e) => {
            return Err(MailerError::from_address_error(e));
        },
    };
    let to_mb = match parse_mailbox(to) {
        Ok(m) => m,
        Err(e) => {
            return Err(MailerError::from_address_error(e));
        },
    };
    let message = match build_html_message(from_mb, to_mb, subject, body) {
        Ok(m) => m,
        Err(e) => {
            return Err(MailerError::from_email_error(e));
        },
    };
    let transport = match build_transport(&plan) {
        Ok(t) => t,
        Err(e) => {
            return Err(MailerError::from_smtp_error(e));
        },
    };
    Ok(PreparedSend { plan, message, transport })
}

/// Builds the transport for a credentials test from raw settings: the same
/// decision table as a send, the shorter test timeout, and no message. The
/// only failure is `SendError`, when the machine's TLS stack cannot set up
/// client parameters; with the secure flag cleared the preparation always
/// succeeds. Connection and authentication are verified by the caller on
/// the prepared transport.
pub fn prepare_test_connection(
    host: &str,
    port: i32,
    username: &str,
    password: &str,
    secure: bool,
) -> (r: Result<PreparedTest, MailerError>)
    ensures
        !secure ==> r is Ok,
        r matches Err(e) ==> e is SendError,
        r matches Ok(pt) ==> test_plan_matches(pt.plan, host@, port, username@, password@, secure),
{
    let plan = plan_for_test(host, port, username, password, secure);
    let transport = match build_transport(&plan) {
        Ok(t) => t,
        Err(e) => {
            return Err(MailerError::from_smtp_error(e));
        },
    };
    Ok(PreparedTest { plan, transport })
}

} // verus!
