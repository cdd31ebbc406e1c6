//! Tenant mail configuration: six optional fields read from the tenant
//! record. All five of host, port, username, password and from-address must
//! be present at once for the configuration to count as set; `smtp_secure`
//! defaults to `true` when absent.

use vstd::prelude::*;

verus! {

/// The per-tenant SMTP settings, every field optional as stored.
pub struct Tenant {
    pub smtp_host: Option<String>,
    pub smtp_port: Option<i32>,
    pub smtp_username: Option<String>,
    pub smtp_password: Option<String>,
    pub smtp_from: Option<String>,
    pub smtp_secure: Option<bool>,
}

/// All five required fields are present; a partial configuration is never
/// acted upon.
pub open spec fn config_complete(t: Tenant) -> bool {
    &&& t.smtp_host is Some
    &&& t.smtp_port is Some
    &&& t.smtp_username is Some
    &&& t.smtp_password is Some
    &&& t.smtp_from is Some
}

/// The effective secure flag: `true` when the stored flag is unset.
pub open spec fn effective_secure(t: Tenant) -> bool {
    match t.smtp_secure {
        Some(b) => b,
        None => true,
    }
}

} // verus!
