//! Runtime configuration: the headless-Chrome executable and arguments, the
//! navigation timeout, and the SSRF policy.

use vstd::prelude::*;

verus! {

/// Default navigation timeout (milliseconds) for `web_read` / `web_screenshot`.
pub const DEFAULT_NAV_TIMEOUT_MS: u64 = 30_000;

/// Browser settings and safety policy.
#[derive(Debug, Clone)]
pub struct WebConfig {
    /// Path to the Chrome/Chromium executable. When `None`, a system install
    /// is auto-detected (`google-chrome-stable`, `chromium`, ...).
    pub chrome_executable: Option<String>,
    /// Extra command-line arguments passed to Chrome (e.g. `--no-sandbox` in a
    /// restricted/container environment).
    pub chrome_args: Vec<String>,
    /// When false (default), `web_read`/`web_screenshot` refuse URLs that
    /// resolve to loopback, private, link-local, or unique-local addresses.
    /// This is the SSRF guard; set true only for trusted/offline use.
    pub allow_private_hosts: bool,
    /// Navigation timeout in milliseconds.
    pub nav_timeout_ms: u64,
}

impl WebConfig {
    /// The built-in defaults: no explicit Chrome path, no extra arguments,
    /// the SSRF guard on, and the default navigation timeout.
    pub open spec fn is_default(&self) -> bool {
        &&& self.chrome_executable is None
        &&& self.chrome_args@.len() == 0
        &&& !self.allow_private_hosts
        &&& self.nav_timeout_ms == DEFAULT_NAV_TIMEOUT_MS
    }
}

impl Default for WebConfig {
    fn default() -> (c: Self)
        ensures
            c.is_default(),
    {
        WebConfig {
            chrome_executable: None,
            chrome_args: Vec::new(),
            allow_private_hosts: false,
            nav_timeout_ms: DEFAULT_NAV_TIMEOUT_MS,
        }
    }
}

} // verus!
