//! The configuration-to-transport decision logic: which TLS mode a call
//! uses, which port, and which timeout. A plan is a transient, per-call
//! value; it is computed before any message or transport is built and is
//! discarded after the call completes.

use vstd::prelude::*;
use vstd::arithmetic::div_mod::lemma_mod_multiples_vanish;
use crate::config::Tenant;
use crate::config::config_complete;
use crate::config::effective_secure;
use crate::error::MailerError;

verus! {

/// Connection timeout for a send operation, in seconds.
pub const SEND_TIMEOUT_SECS: u64 = 10;

/// Connection timeout for a credentials test, in seconds.
pub const TEST_TIMEOUT_SECS: u64 = 5;

/// How the connection is encrypted.
#[derive(Clone, Copy, Debug, PartialEq, Eq, Structural)]
pub enum TlsMode {
    /// TLS from the first byte of the connection (legacy SMTPS convention).
    Implicit,
    /// Start in plaintext, then require an in-protocol upgrade to TLS
    /// before anything sensitive is exchanged (STARTTLS).
    StartTls,
    /// No encryption at all: an explicit operator opt-out, e.g. for a
    /// trusted local relay.
    NoEncryption,
}

/// The wire port the transport is given: a stored port is an arbitrary
/// integer, and only its low 16 bits fit on the wire. This narrowing is
/// for the wire alone; the decision table reads the stored port as given.
pub open spec fn effective_port(port: i32) -> u16 {
    ((port as int) % 0x10000) as u16
}

/// The decision table, read on the stored port as given: port 465 with
/// the secure flag set means implicit TLS, any other port with the secure
/// flag set means required STARTTLS, and a cleared secure flag means no
/// encryption.
pub open spec fn spec_tls_mode(port: i32, secure: bool) -> TlsMode {
    if !secure {
        TlsMode::NoEncryption
    } else if port == 465 {
        TlsMode::Implicit
    } else {
        TlsMode::StartTls
    }
}

/// Narrows a stored port to the wire port, keeping the low 16 bits.
pub fn port_to_u16(port: i32) -> (r: u16)
    ensures
        r == effective_port(port),
{
    let wide: i64 = port as i64;
    let shifted: i64 = wide + 0x8000_0000;
    let rem: i64 = shifted % 0x1_0000;
    proof {
        lemma_mod_multiples_vanish(0x8000, wide as int, 0x1_0000);
    }
    rem as u16
}

/// Selects the TLS mode for a stored port and an effective secure flag.
pub fn select_tls_mode(port: i32, secure: bool) -> (r: TlsMode)
    ensures
        r == spec_tls_mode(port, secure),
        port == 465 && secure ==> r is Implicit,
        port != 465 && secure ==> r is StartTls,
        !secure ==> r is NoEncryption,
{
    if port == 465 && secure {
        TlsMode::Implicit
    } else if secure {
        TlsMode::StartTls
    } else {
        TlsMode::NoEncryption
    }
}

/// Everything the transport is built from: host, wire port, credentials,
/// TLS mode and timeout. Created fresh for every send or test call.
#[derive(Debug, PartialEq)]
pub struct TransportPlan {
    pub host: String,
    pub port: u16,
    pub username: String,
    pub password: String,
    pub tls_mode: TlsMode,
    pub timeout_secs: u64,
}

/// The plan a complete tenant configuration resolves to for a send: the
/// tenant's own host and credentials, the TLS mode from the decision table
/// on the stored port, that port narrowed to 16 bits for the wire, and the
/// send timeout.
pub open spec fn plan_of_tenant(t: Tenant) -> TransportPlan {
    TransportPlan {
        host: t.smtp_host->0,
        port: effective_port(t.smtp_port->0),
        username: t.smtp_username->0,
        password: t.smtp_password->0,
        tls_mode: spec_tls_mode(t.smtp_port->0, effective_secure(t)),
        timeout_secs: SEND_TIMEOUT_SECS,
    }
}

/// The plan a credentials test uses: the given settings, the same decision
/// table, and the shorter test timeout.
pub open spec fn test_plan_matches(
    p: TransportPlan,
    host: Seq<char>,
    port: i32,
    username: Seq<char>,
    password: Seq<char>,
    secure: bool,
) -> bool {
    &&& p.host@ == host
    &&& p.port == effective_port(port)
    &&& p.username@ == username
    &&& p.password@ == password
    &&& p.tls_mode == spec_tls_mode(port, secure)
    &&& p.timeout_secs == TEST_TIMEOUT_SECS
}

/// Resolves a tenant configuration into a send plan, or reports the
/// configuration as unset when any of the five required fields is absent.
/// No partial configuration is acted upon.
pub fn plan_for_send(tenant: &Tenant) -> (r: Result<TransportPlan, MailerError>)
    ensures
        r is Ok <==> config_complete(*tenant),
        !config_complete(*tenant) ==> (r matches Err(e) && e is ConfigurationMissing),
        r matches Ok(p) ==> p == plan_of_tenant(*tenant),
{
    let (host, port, username, password) = match (
        &tenant.smtp_host,
        &tenant.smtp_port,
        &tenant.smtp_username,
        &tenant.smtp_password,
        &tenant.smtp_from,
    ) {
        (Some(h), Some(p), Some(u), Some(pw), Some(_f)) => (h, *p, u, pw),
        _ => {
            return Err(MailerError::ConfigurationMissing);
        },
    };
    let secure = match tenant.smtp_secure {
        Some(b) => b,
        None => true,
    };
    Ok(TransportPlan {
        host: host.clone(),
        port: port_to_u16(port),
        username: username.clone(),
        password: password.clone(),
        tls_mode: select_tls_mode(port, secure),
        timeout_secs: SEND_TIMEOUT_SECS,
    })
}

/// Builds the plan for a credentials test from raw settings; a test has
/// no required-field check and uses the shorter timeout.
pub fn plan_for_test(
    host: &str,
    port: i32,
    username: &str,
    password: &str,
    secure: bool,
) -> (r: TransportPlan)
    ensures
        test_plan_matches(r, host@, port, username@, password@, secure),
{
    TransportPlan {
        host: host.to_string(),
        port: port_to_u16(port),
        username: username.to_string(),
        password: password.to_string(),
        tls_mode: select_tls_mode(port, secure),
        timeout_secs: TEST_TIMEOUT_SECS,
    }
}

/// A tenant that leaves `smtp_secure` unset behaves exactly as one that
/// sets it to `true`: completeness, the effective flag and the whole
/// resolved send plan coincide.
pub proof fn lemma_secure_unset_is_secure_true(t_unset: Tenant, t_true: Tenant)
    requires
        t_unset.smtp_secure is None,
        t_true == (Tenant { smtp_secure: Some(true), ..t_unset }),
    ensures
        effective_secure(t_unset) == effective_secure(t_true),
        config_complete(t_unset) == config_complete(t_true),
        plan_of_tenant(t_unset) == plan_of_tenant(t_true),
{
}

} // verus!
