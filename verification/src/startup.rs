//! What a server starts with: which of its two control endpoints it
//! serves, or why it cannot start.

use vstd::prelude::*;

verus! {

/// The lowest port that a server allocates to tunnels unless told otherwise.
pub const DEFAULT_PORT_START: u16 = 10000;

/// The highest port that a server allocates to tunnels unless told
/// otherwise.
pub const DEFAULT_PORT_END: u16 = 20000;

/// The port of the plaintext control endpoint unless told otherwise.
pub const DEFAULT_WS_PORT: u16 = 9998;

/// The port of the TLS control endpoint unless told otherwise.
pub const DEFAULT_WSS_PORT: u16 = 9999;

/// The control endpoints that a server serves.
#[derive(Debug, Clone, Copy, PartialEq, Eq, Structural)]
pub struct StartupPlan {
    /// Whether the plaintext endpoint is served.
    pub ws: bool,
    /// Whether the TLS endpoint is served.
    pub wss: bool,
}

/// Why a server cannot start.
#[derive(Debug, Clone, Copy, PartialEq, Eq, Structural)]
pub enum StartupError {
    /// Neither endpoint is enabled.
    NothingEnabled,
    /// Only the TLS endpoint is enabled, and its certificate or key is
    /// missing.
    TlsMissing,
}

/// The endpoints to serve, given which are enabled and whether the
/// certificate and the key for TLS are there.
///
/// At least one endpoint has to be enabled.  The TLS endpoint is served
/// only with its certificate and key; without them the server falls back
/// to the plaintext endpoint, if that is enabled, and does not start
/// otherwise.
pub open spec fn planned(enable_ws: bool, enable_wss: bool, has_tls: bool) -> Result<
    StartupPlan,
    StartupError,
> {
    if !enable_ws && !enable_wss {
        Err(StartupError::NothingEnabled)
    } else if enable_wss && !has_tls && !enable_ws {
        Err(StartupError::TlsMissing)
    } else {
        Ok(StartupPlan { ws: enable_ws, wss: enable_wss && has_tls })
    }
}

/// Decides which endpoints to serve.
pub fn startup_plan(enable_ws: bool, enable_wss: bool, has_tls: bool) -> (plan: Result<
    StartupPlan,
    StartupError,
>)
    ensures
        plan == planned(enable_ws, enable_wss, has_tls),
{
    if !enable_ws && !enable_wss {
        Err(StartupError::NothingEnabled)
    } else if enable_wss && !has_tls && !enable_ws {
        Err(StartupError::TlsMissing)
    } else {
        Ok(StartupPlan { ws: enable_ws, wss: enable_wss && has_tls })
    }
}

/// A plan serves at least one endpoint, and none that is not enabled.
pub proof fn law_plan_serves_something(enable_ws: bool, enable_wss: bool, has_tls: bool)
    ensures
        planned(enable_ws, enable_wss, has_tls) matches Ok(plan) ==> (plan.ws || plan.wss) && (
        plan.ws ==> enable_ws) && (plan.wss ==> enable_wss && has_tls),
{
}

/// The process exit code for a server that cannot start.
pub fn exit_code(error: StartupError) -> (code: i32)
    ensures
        code == 1,
{
    match error {
        StartupError::NothingEnabled => 1,
        StartupError::TlsMissing => 1,
    }
}

/// The port of the plaintext endpoint: the one given by the older `port`
/// option where that is set, `ws_port` otherwise.
pub fn plaintext_port(port: Option<u16>, ws_port: u16) -> (chosen: u16)
    ensures
        chosen == match port {
            Some(p) => p,
            None => ws_port,
        },
{
    match port {
        Some(p) => p,
        None => ws_port,
    }
}

} // verus!
