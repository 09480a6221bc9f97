//! web-mcp: read-only web access for LLM agents, behind a small tool surface
//! (`web_read`, `web_screenshot`).
//!
//! This crate is the verified core: the SSRF guard that vets every URL before
//! the headless browser may open it, the tools' schemas and argument reading,
//! the shaping of what a page read returns, and the reading of a search
//! engine's results page. Driving Chrome, resolving host names and speaking
//! the MCP protocol are left to the host program.

pub mod arguments;
pub mod config;
pub mod error;
pub mod operations;
pub mod protocol;
pub mod server;
pub mod service;
pub mod text;
pub mod tools;
pub mod url_guard;
pub mod web_url;

pub use service::{server_config, WebService};

use vstd::prelude::*;

verus! {

/// Construct the service with built-in defaults for in-process hosting.
///
/// The SSRF guard is on (private/loopback/link-local hosts are refused), the
/// navigation timeout is the built-in default, no extra Chrome arguments are
/// passed, and no explicit Chrome path is set. Construction touches no
/// network, filesystem or configuration, and cannot fail.
pub fn build_service() -> (s: WebService)
    ensures
        s.configuration().is_default(),
        !s.allows_private(),
{
    WebService::new()
}

} // verus!
