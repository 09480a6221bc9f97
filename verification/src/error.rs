//! Error types: web operations, the MCP protocol, the transport, and the union
//! of all of them together with the errors of the I/O crates.

use vstd::prelude::*;

verus! {

/// Declares `std::io::Error`, carried opaquely.
#[verifier::external_type_specification]
#[verifier::external_body]
pub struct ExIoError(std::io::Error);

/// Declares `serde_json::Error`, carried opaquely.
#[verifier::external_type_specification]
#[verifier::external_body]
pub struct ExJsonError(serde_json::Error);

/// Declares `reqwest::Error`, carried opaquely.
#[verifier::external_type_specification]
#[verifier::external_body]
pub struct ExHttpError(reqwest::Error);

/// Declares `chromiumoxide::error::CdpError`, carried opaquely.
#[verifier::external_type_specification]
#[verifier::external_body]
pub struct ExCdpError(chromiumoxide::error::CdpError);

/// `s` followed by `t`, as a new string.
pub fn joined(s: &str, t: &str) -> (r: String)
    ensures
        r@ == s@ + t@,
{
    let mut r = String::from_str(s);
    r.append(t);
    r
}

/// Which kind of web operation error.
#[derive(Clone, Copy, Debug, PartialEq, Eq, Structural)]
pub enum WebErrorKind {
    SearchFailed,
    Blocked,
    InvalidParameters,
    Navigation,
    Timeout,
}

/// Web operation errors.
///
/// Structured so callers can distinguish a refused (guard-blocked) URL from a
/// genuine navigation failure or an empty search.
#[derive(Debug)]
pub enum WebError {
    /// The search backend returned an error or unparseable response.
    SearchFailed(String),
    /// A URL was refused by the SSRF guard (private/loopback/link-local host).
    Blocked(String),
    /// The caller supplied invalid parameters.
    InvalidParameters(String),
    /// Navigation or content extraction failed.
    Navigation(String),
    /// An operation exceeded its time budget.
    Timeout(String),
}

impl View for WebError {
    type V = (WebErrorKind, Seq<char>);

    open spec fn view(&self) -> (WebErrorKind, Seq<char>) {
        match self {
            WebError::SearchFailed(m) => (WebErrorKind::SearchFailed, m@),
            WebError::Blocked(m) => (WebErrorKind::Blocked, m@),
            WebError::InvalidParameters(m) => (WebErrorKind::InvalidParameters, m@),
            WebError::Navigation(m) => (WebErrorKind::Navigation, m@),
            WebError::Timeout(m) => (WebErrorKind::Timeout, m@),
        }
    }
}

/// The display prefix of each kind of web error.
pub open spec fn web_error_prefix(k: WebErrorKind) -> Seq<char> {
    match k {
        WebErrorKind::SearchFailed => "Search failed: "@,
        WebErrorKind::Blocked => "Refused to fetch URL: "@,
        WebErrorKind::InvalidParameters => "Invalid parameters: "@,
        WebErrorKind::Navigation => "Navigation failed: "@,
        WebErrorKind::Timeout => "Timed out: "@,
    }
}

impl WebError {
    /// The human-readable text of the error.
    pub open spec fn text(&self) -> Seq<char> {
        web_error_prefix(self@.0) + self@.1
    }

    /// The human-readable text of the error.
    pub fn message(&self) -> (r: String)
        ensures
            r@ == self.text(),
    {
        match self {
            WebError::SearchFailed(m) => joined("Search failed: ", m.as_str()),
            WebError::Blocked(m) => joined("Refused to fetch URL: ", m.as_str()),
            WebError::InvalidParameters(m) => joined("Invalid parameters: ", m.as_str()),
            WebError::Navigation(m) => joined("Navigation failed: ", m.as_str()),
            WebError::Timeout(m) => joined("Timed out: ", m.as_str()),
        }
    }
}

/// MCP protocol errors.
#[derive(Debug)]
pub enum McpError {
    /// Invalid protocol version.
    InvalidProtocolVersion(String),
    /// Invalid JSON-RPC message.
    InvalidJsonRpc(String),
    /// Tool not found.
    ToolNotFound(String),
    /// Invalid tool parameters.
    InvalidToolParameters(String),
}

/// Which kind of MCP protocol error.
#[derive(Clone, Copy, Debug, PartialEq, Eq, Structural)]
pub enum McpErrorKind {
    InvalidProtocolVersion,
    InvalidJsonRpc,
    ToolNotFound,
    InvalidToolParameters,
}

impl View for McpError {
    type V = (McpErrorKind, Seq<char>);

    open spec fn view(&self) -> (McpErrorKind, Seq<char>) {
        match self {
            McpError::InvalidProtocolVersion(m) => (McpErrorKind::InvalidProtocolVersion, m@),
            McpError::InvalidJsonRpc(m) => (McpErrorKind::InvalidJsonRpc, m@),
            McpError::ToolNotFound(m) => (McpErrorKind::ToolNotFound, m@),
            McpError::InvalidToolParameters(m) => (McpErrorKind::InvalidToolParameters, m@),
        }
    }
}

impl McpError {
    /// The human-readable text of the error.
    pub open spec fn text(&self) -> Seq<char> {
        match self {
            McpError::InvalidProtocolVersion(m) => "Unsupported protocol version: "@ + m@,
            McpError::InvalidJsonRpc(m) => "Invalid JSON-RPC message: "@ + m@,
            McpError::ToolNotFound(m) => "Tool not found: "@ + m@,
            McpError::InvalidToolParameters(m) => "Invalid tool parameters: "@ + m@,
        }
    }

    /// The human-readable text of the error.
    pub fn message(&self) -> (r: String)
        ensures
            r@ == self.text(),
    {
        match self {
            McpError::InvalidProtocolVersion(m) => joined("Unsupported protocol version: ", m.as_str()),
            McpError::InvalidJsonRpc(m) => joined("Invalid JSON-RPC message: ", m.as_str()),
            McpError::ToolNotFound(m) => joined("Tool not found: ", m.as_str()),
            McpError::InvalidToolParameters(m) => joined("Invalid tool parameters: ", m.as_str()),
        }
    }
}

/// Calls `<std::io::Error as Display>`; the text depends on the error alone and
/// nothing is claimed of it.
#[verifier::external_body]
fn io_error_text(e: &std::io::Error) -> String {
    e.to_string()
}

/// Calls `<serde_json::Error as Display>`; nothing is claimed of the text.
#[verifier::external_body]
fn json_error_text(e: &serde_json::Error) -> String {
    e.to_string()
}

/// Calls `<reqwest::Error as Display>`; nothing is claimed of the text.
#[verifier::external_body]
fn http_error_text(e: &reqwest::Error) -> String {
    e.to_string()
}

/// Calls `<chromiumoxide::error::CdpError as Display>`; nothing is claimed of
/// the text.
#[verifier::external_body]
fn cdp_error_text(e: &chromiumoxide::error::CdpError) -> String {
    e.to_string()
}

/// Transport layer errors.
#[derive(Debug)]
pub enum TransportError {
    /// WebSocket connection error.
    WebSocket(String),
    /// Invalid message format.
    InvalidMessage(String),
    /// Connection closed.
    ConnectionClosed,
    /// IO error in transport.
    Io(std::io::Error),
}

impl TransportError {
    /// The human-readable text of the error, where this library gives all of
    /// it: for every variant but `Io`, whose text comes from the I/O error.
    pub open spec fn known_text(&self) -> Option<Seq<char>> {
        match self {
            TransportError::WebSocket(m) => Some("WebSocket connection error: "@ + m@),
            TransportError::InvalidMessage(m) => Some("Invalid message format: "@ + m@),
            TransportError::ConnectionClosed => Some("Connection closed"@),
            TransportError::Io(_) => None,
        }
    }

    /// The human-readable text of the error; for an I/O error, it begins with
    /// the transport prefix.
    pub fn message(&self) -> (r: String)
        ensures
            self.known_text() is Some ==> r@ == self.known_text()->Some_0,
            self is Io ==> exists|t: Seq<char>| r@ == "Transport IO error: "@ + t,
    {
        match self {
            TransportError::WebSocket(m) => joined("WebSocket connection error: ", m.as_str()),
            TransportError::InvalidMessage(m) => joined("Invalid message format: ", m.as_str()),
            TransportError::ConnectionClosed => String::from_str("Connection closed"),
            TransportError::Io(e) => {
                let t = io_error_text(e);
                joined("Transport IO error: ", t.as_str())
            },
        }
    }
}

/// Main error type: every failure of a tool call or of the server.
#[derive(Debug)]
pub enum WebMcpError {
    /// Web operation errors (search / browse).
    Web(WebError),
    /// JSON serialization/deserialization errors.
    Json(serde_json::Error),
    /// MCP protocol errors.
    Mcp(McpError),
    /// Transport layer errors.
    Transport(TransportError),
    /// IO errors.
    Io(std::io::Error),
    /// HTTP client errors (search backend).
    Http(reqwest::Error),
    /// Headless-browser (Chrome DevTools Protocol) errors.
    Browser(chromiumoxide::error::CdpError),
}

impl WebMcpError {
    /// The human-readable text of the error. For the errors of this library it
    /// is given exactly; for the others it begins with the variant's prefix.
    pub fn message(&self) -> (r: String)
        ensures
            self matches WebMcpError::Web(e) ==> r@ == "Web error: "@ + e.text(),
            self matches WebMcpError::Mcp(e) ==> r@ == "MCP protocol error: "@ + e.text(),
            self is Transport && self->Transport_0.known_text() is Some ==> r@ == "Transport error: "@
                + self->Transport_0.known_text()->Some_0,
            self is Transport && self->Transport_0 is Io ==> exists|t: Seq<char>| r@ == "Transport error: "@
                + ("Transport IO error: "@ + t),
            self is Json ==> exists|t: Seq<char>| r@ == "JSON error: "@ + t,
            self is Io ==> exists|t: Seq<char>| r@ == "IO error: "@ + t,
            self is Http ==> exists|t: Seq<char>| r@ == "HTTP error: "@ + t,
            self is Browser ==> exists|t: Seq<char>| r@ == "Browser error: "@ + t,
    {
        let (prefix, inner) = match self {
            WebMcpError::Web(e) => ("Web error: ", e.message()),
            WebMcpError::Json(e) => ("JSON error: ", json_error_text(e)),
            WebMcpError::Mcp(e) => ("MCP protocol error: ", e.message()),
            WebMcpError::Transport(e) => ("Transport error: ", e.message()),
            WebMcpError::Io(e) => ("IO error: ", io_error_text(e)),
            WebMcpError::Http(e) => ("HTTP error: ", http_error_text(e)),
            WebMcpError::Browser(e) => ("Browser error: ", cdp_error_text(e)),
        };
        joined(prefix, inner.as_str())
    }
}

} // verus!
