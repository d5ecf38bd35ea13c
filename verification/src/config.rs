//! Resolution of the process configuration from environment values.
//!
//! The caller reads the raw `PORT`, `HOST` and `SAPI_URL` variables and hands
//! them in as plain optional strings; everything that can be decided about
//! them — defaults, the shape of the bind address, which absences are fatal —
//! is decided here.  A [`ConfigError`] is fatal: the process must not begin
//! serving.

use vstd::prelude::*;
use crate::text::{parse_u16, spec_dec_digits, spec_dec_value, spec_digits_part,
    spec_parses_as_u16, u16_to_dec};

verus! {

/// The port used when `PORT` is not set.
pub const DEFAULT_PORT: u16 = 3000;

/// A fatal startup problem.
#[derive(Clone, Copy, PartialEq, Eq, Structural, Debug)]
pub enum ConfigError {
    /// `PORT` is set but does not denote an unsigned 16-bit integer.
    MalformedPort,
    /// `SAPI_URL` is not set; every request depends on it.
    MissingUpstreamUrl,
}

/// The listening port, and whether it came from the built-in default rather
/// than from the environment (worth an informational notice, nothing more).
#[derive(Clone, Copy, PartialEq, Eq, Structural, Debug)]
pub struct ResolvedPort {
    pub port: u16,
    pub defaulted: bool,
}

/// Resolve the listening port from the `PORT` variable: absent means the
/// default, malformed means the process must not start.
pub fn resolve_port(var: Option<&str>) -> (r: Result<ResolvedPort, ConfigError>)
    ensures
        match var {
            Option::None => r == Ok::<ResolvedPort, ConfigError>(
                ResolvedPort { port: DEFAULT_PORT, defaulted: true },
            ),
            Option::Some(s) => if spec_parses_as_u16(s@) {
                r matches Ok(p) && p.port as nat == spec_dec_value(spec_digits_part(s@))
                    && !p.defaulted
            } else {
                r == Err::<ResolvedPort, ConfigError>(ConfigError::MalformedPort)
            },
        },
{
    match var {
        Option::None => Ok(ResolvedPort { port: DEFAULT_PORT, defaulted: true }),
        Option::Some(s) => match parse_u16(s) {
            Option::Some(port) => Ok(ResolvedPort { port, defaulted: false }),
            Option::None => Err(ConfigError::MalformedPort),
        },
    }
}

/// The socket-address text the server will bind, and whether the host part
/// fell back to the loopback default.
pub struct BindTarget {
    pub addr: String,
    pub host_defaulted: bool,
}

/// The bind-address text: the configured host joined with the port by a
/// colon, or the IPv6 loopback form when no host is configured.
pub fn bind_target(host: Option<&str>, port: u16) -> (r: BindTarget)
    ensures
        match host {
            Option::Some(h) => r.addr@ == h@ + ":"@ + spec_dec_digits(port as nat)
                && !r.host_defaulted,
            Option::None => r.addr@ == "[::1]:"@ + spec_dec_digits(port as nat)
                && r.host_defaulted,
        },
{
    let port_text = u16_to_dec(port);
    match host {
        Option::Some(h) => {
            let mut addr = String::from_str(h);
            addr.append(":");
            addr.append(port_text.as_str());
            BindTarget { addr, host_defaulted: false }
        },
        Option::None => {
            let mut addr = String::from_str("[::1]:");
            addr.append(port_text.as_str());
            BindTarget { addr, host_defaulted: true }
        },
    }
}

/// `SAPI_URL` is required: without it no upstream call could ever be made,
/// so its absence is fatal.
pub fn resolve_upstream_url(var: Option<String>) -> (r: Result<String, ConfigError>)
    ensures
        match var {
            Option::Some(u) => r matches Ok(s) && s@ == u@,
            Option::None => r == Err::<String, ConfigError>(ConfigError::MissingUpstreamUrl),
        },
{
    match var {
        Option::Some(u) => Ok(u),
        Option::None => Err(ConfigError::MissingUpstreamUrl),
    }
}

} // verus!
