use vstd::prelude::*;

verus! {

/// How traffic is routed through the proxy core.
#[derive(PartialEq, Eq, Structural, Clone, Copy, Debug)]
pub enum ProxyMode {
    /// The system HTTP/HTTPS/SOCKS proxy points at the core.
    SystemProxy,
    /// The core runs as root with a TUN device (transparent proxy).
    Tun,
    /// No routing through the core.
    Off,
}

impl Default for ProxyMode {
    fn default() -> (r: Self)
        ensures
            r == ProxyMode::Off,
    {
        ProxyMode::Off
    }
}

/// What the application remembers between runs.
#[derive(Clone, Debug)]
pub struct AppState {
    pub proxy_mode: ProxyMode,
    /// The name of the profile whose configuration is running.
    pub active_profile: Option<String>,
    /// Whether the application starts at login.
    pub auto_start: bool,
}

impl Default for AppState {
    fn default() -> (r: Self)
        ensures
            r.proxy_mode == ProxyMode::Off,
            r.active_profile is None,
            !r.auto_start,
    {
        AppState { proxy_mode: ProxyMode::Off, active_profile: Option::None, auto_start: false }
    }
}

} // verus!
