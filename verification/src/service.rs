//! The web-mcp service: the two browsing tools, `web_read` and
//! `web_screenshot`, their schemas, and what a call to one of them asks of the
//! browser once its arguments and its URL have been vetted.
//!
//! There is intentionally no `web_search`: keyless search-engine results pages
//! block automated access even through a real headless browser, so discovery
//! is done by pointing `web_read` at a search engine's results URL.

use vstd::prelude::*;
use crate::arguments::{arg_bool, arg_text, arg_u64, get_bool, get_str, get_u64, nonempty_text, ArgValue, ToolArgs};
use crate::config::WebConfig;
use crate::error::{joined, WebError, WebErrorKind, WebMcpError};
use crate::protocol::{base64_decode, base64_standard, png_image_block, property, Content, SchemaProperty, ToolDef, ToolReply};
use crate::text::str_equals;
use crate::url_guard::{guard_outcome, verdict_outcome, GuardOutcome, GuardVerdict, UrlGuard};

verus! {

/// Default cap on extracted page text, in characters.
pub const DEFAULT_MAX_CHARS: u64 = 50_000;

/// The name this server reports to MCP clients.
pub const SERVER_NAME: &'static str = "web-mcp";

/// The model-facing description of `web_read`.
pub const WEB_READ_DESCRIPTION: &'static str = "Open a URL in a headless browser (full JavaScript rendering) and return the page's content. Use 'text' format for the rendered, human-readable text (best for reading/summarizing) or 'html' for the raw rendered DOM. Set include_links=true to get the page's outbound links as {href, text}.\n\nDISCOVERY (there is no separate search tool): to find pages, point this tool at a search engine's results URL with include_links=true, then read the page's text and follow the relevant result links. Build the URL by URL-encoding your query (spaces as '+'), e.g. 'https://www.bing.com/search?q=YOUR+QUERY' or 'https://duckduckgo.com/html/?q=YOUR+QUERY'. If one engine returns a bot-challenge / few links (some block automated access), try another engine or read the result page's visible text for leads, then web_read the destination URLs you find. Prefer navigating directly to a known authoritative URL when you already know one.\n\nRefuses non-http(s) URLs and, by default, private/loopback/link-local hosts.";

pub const READ_URL_DESCRIPTION: &'static str = "The absolute http(s) URL to open. To read an article: 'https://example.com/article'. To search: a results URL like 'https://duckduckgo.com/html/?q=rust+async+runtime' (then use include_links to harvest result links).";

pub const READ_FORMAT_DESCRIPTION: &'static str = "Output format: 'text' (rendered visible text, default) or 'html' (full rendered DOM).";

pub const READ_LINKS_DESCRIPTION: &'static str = "If true, also return the page's outbound links as {href, text}. Default: false. Set this when reading a search-engine results page so you can follow the result links.";

pub const READ_MAX_CHARS_DESCRIPTION: &'static str = "Truncate returned content to this many characters (0 = no limit). Default: 50000. A 'truncated' flag indicates if content was cut.";

/// The model-facing description of `web_screenshot`.
pub const WEB_SCREENSHOT_DESCRIPTION: &'static str = "Open a URL in a headless browser and capture a PNG screenshot, returned as an image. Use to see how a page looks or to capture visual content that text extraction misses. Same URL safety rules as web_read.";

pub const SCREENSHOT_URL_DESCRIPTION: &'static str = "The absolute http(s) URL to capture. Example: 'https://example.com'.";

pub const SCREENSHOT_FULL_PAGE_DESCRIPTION: &'static str = "If true, capture the entire scrollable page; if false (default), capture just the viewport.";

/// The instructions this server gives to models.
pub const SERVER_INSTRUCTIONS: &'static str = "web-mcp gives read-only web access through a headless Chrome browser. Use web_read to open a URL and get its rendered text (or HTML with format='html'), and include_links=true to also get its outbound links; use web_screenshot to capture a PNG of a page. There is no search tool: to find pages, web_read a search engine's results URL (for example https://duckduckgo.com/html/?q=YOUR+QUERY) with include_links=true and follow the result links. Only http(s) URLs are opened, and private, loopback and link-local hosts are refused unless the server was started with --allow-private-hosts.";

/// The texts of a sequence of strings.
pub open spec fn string_texts(v: Seq<String>) -> Seq<Seq<char>> {
    v.map_values(|s: String| s@)
}

/// Name, type and description of each property.
pub open spec fn property_texts(v: Seq<SchemaProperty>) -> Seq<(Seq<char>, Seq<char>, Seq<char>)> {
    v.map_values(|p: SchemaProperty| (p.name@, p.value_type@, p.description@))
}

/// `t` is the `web_read` tool.
pub open spec fn is_read_tool(t: ToolDef) -> bool {
    &&& t.name@ == "web_read"@
    &&& t.description@ == WEB_READ_DESCRIPTION@
    &&& property_texts(t.properties@) == seq![
        ("url"@, "string"@, READ_URL_DESCRIPTION@),
        ("format"@, "string"@, READ_FORMAT_DESCRIPTION@),
        ("include_links"@, "boolean"@, READ_LINKS_DESCRIPTION@),
        ("max_chars"@, "number"@, READ_MAX_CHARS_DESCRIPTION@),
    ]
    &&& string_texts(t.properties@[1].allowed@) == seq!["text"@, "html"@]
    &&& t.properties@[0].allowed@.len() == 0
    &&& t.properties@[2].allowed@.len() == 0
    &&& t.properties@[3].allowed@.len() == 0
    &&& string_texts(t.required@) == seq!["url"@]
}

/// `t` is the `web_screenshot` tool.
pub open spec fn is_screenshot_tool(t: ToolDef) -> bool {
    &&& t.name@ == "web_screenshot"@
    &&& t.description@ == WEB_SCREENSHOT_DESCRIPTION@
    &&& property_texts(t.properties@) == seq![
        ("url"@, "string"@, SCREENSHOT_URL_DESCRIPTION@),
        ("full_page"@, "boolean"@, SCREENSHOT_FULL_PAGE_DESCRIPTION@),
    ]
    &&& t.properties@[0].allowed@.len() == 0
    &&& t.properties@[1].allowed@.len() == 0
    &&& string_texts(t.required@) == seq!["url"@]
}

pub(crate) fn single(s: &str) -> (v: Vec<String>)
    ensures
        string_texts(v@) == seq![s@],
{
    let mut v = Vec::new();
    v.push(String::from_str(s));
    assert(string_texts(v@) =~= seq![s@]);
    v
}

/// The `web_read` tool definition.
pub fn read_tool() -> (t: ToolDef)
    ensures
        is_read_tool(t),
{
    let mut format = property("format", "string", READ_FORMAT_DESCRIPTION);
    format.allowed.push(String::from_str("text"));
    format.allowed.push(String::from_str("html"));
    assert(string_texts(format.allowed@) =~= seq!["text"@, "html"@]);
    let mut props = Vec::new();
    props.push(property("url", "string", READ_URL_DESCRIPTION));
    props.push(format);
    props.push(property("include_links", "boolean", READ_LINKS_DESCRIPTION));
    props.push(property("max_chars", "number", READ_MAX_CHARS_DESCRIPTION));
    let t = ToolDef {
        name: String::from_str("web_read"),
        description: String::from_str(WEB_READ_DESCRIPTION),
        properties: props,
        required: single("url"),
    };
    assert(property_texts(t.properties@) =~= seq![
        ("url"@, "string"@, READ_URL_DESCRIPTION@),
        ("format"@, "string"@, READ_FORMAT_DESCRIPTION@),
        ("include_links"@, "boolean"@, READ_LINKS_DESCRIPTION@),
        ("max_chars"@, "number"@, READ_MAX_CHARS_DESCRIPTION@),
    ]);
    t
}

/// The `web_screenshot` tool definition.
pub fn screenshot_tool() -> (t: ToolDef)
    ensures
        is_screenshot_tool(t),
{
    let mut props = Vec::new();
    props.push(property("url", "string", SCREENSHOT_URL_DESCRIPTION));
    props.push(property("full_page", "boolean", SCREENSHOT_FULL_PAGE_DESCRIPTION));
    let t = ToolDef {
        name: String::from_str("web_screenshot"),
        description: String::from_str(WEB_SCREENSHOT_DESCRIPTION),
        properties: props,
        required: single("url"),
    };
    assert(property_texts(t.properties@) =~= seq![
        ("url"@, "string"@, SCREENSHOT_URL_DESCRIPTION@),
        ("full_page"@, "boolean"@, SCREENSHOT_FULL_PAGE_DESCRIPTION@),
    ]);
    t
}

/// A transport the server can be served over.
#[derive(Debug, Clone, Copy, PartialEq, Eq, Structural)]
pub enum Transport {
    Stdio,
    Unix,
}

/// The server's identity, the transports it offers, and the instructions it
/// gives to models.
#[derive(Debug)]
pub struct ServerConfig {
    pub name: String,
    pub transports: Vec<Transport>,
    pub instructions: Option<String>,
}

/// The server configuration: named `web-mcp`, served over stdio or a unix
/// socket, with model-facing instructions.
pub fn server_config() -> (c: ServerConfig)
    ensures
        c.name@ == SERVER_NAME@,
        c.transports@ == seq![Transport::Stdio, Transport::Unix],
        c.instructions is Some && c.instructions->Some_0@ == SERVER_INSTRUCTIONS@,
{
    let mut transports = Vec::new();
    transports.push(Transport::Stdio);
    transports.push(Transport::Unix);
    assert(transports@ =~= seq![Transport::Stdio, Transport::Unix]);
    ServerConfig {
        name: String::from_str(SERVER_NAME),
        transports,
        instructions: Some(String::from_str(SERVER_INSTRUCTIONS)),
    }
}

/// Require a non-empty string argument.
pub fn require_str<'a>(args: &'a ToolArgs, key: &str) -> (r: Result<&'a str, WebMcpError>)
    ensures
        nonempty_text(args, key@) is Some ==> r is Ok && r->Ok_0@ == nonempty_text(args, key@)->Some_0,
        nonempty_text(args, key@) is None ==> r is Err && (r->Err_0 matches WebMcpError::Web(e)
            && e@ == (WebErrorKind::InvalidParameters, "Missing required parameter: "@ + key@)),
{
    match get_str(args, key) {
        Some(s) => {
            if s.unicode_len() > 0 {
                return Ok(s);
            }
        },
        None => {},
    }
    Err(WebMcpError::Web(WebError::InvalidParameters(joined("Missing required parameter: ", key))))
}

/// The PNG bytes `png` as a reply holding one `image` content block.
pub fn image_reply(png: &[u8]) -> (r: ToolReply)
    ensures
        !r.is_error,
        r.content@.len() == 1,
        r.content@[0] matches Content::Image(b) && b.block_type@ == "image"@ && b.data@ == base64_standard(png@)
            && base64_decode(b.data@) == png@ && b.mime_type@ == "image/png"@,
{
    let mut content = Vec::new();
    content.push(Content::Image(png_image_block(png)));
    ToolReply { content, is_error: false }
}

/// What a tool call asks of the browser, once its arguments are read and its
/// URL has passed the guard's first step.
#[derive(Debug)]
pub enum ToolPlan {
    /// Read the page at `target` (rendered text, or the DOM when `format` is
    /// `html`), cut to `max_chars` characters (0 = no limit).
    Read { target: GuardVerdict, format: String, include_links: bool, max_chars: usize },
    /// Capture a PNG of the page at `target`, the whole scrollable page when
    /// `full_page`.
    Screenshot { target: GuardVerdict, full_page: bool },
}

/// Why a tool call failed before it reached the browser.
#[derive(Debug)]
pub enum CallRejection {
    /// No tool has this name.
    ToolNotFound(String),
    /// The arguments or the URL were refused.
    Failed(WebMcpError),
}

impl CallRejection {
    /// The text of the tool-level error the caller receives.
    pub fn message(&self) -> (r: String)
        ensures
            self matches CallRejection::ToolNotFound(n) ==> r@ == "Tool not found: "@ + n@,
            self matches CallRejection::Failed(WebMcpError::Web(e)) ==> r@ == "Web error: "@ + e.text(),
    {
        match self {
            CallRejection::ToolNotFound(n) => joined("Tool not found: ", n.as_str()),
            CallRejection::Failed(e) => e.message(),
        }
    }
}

/// The meaning of a tool call's planning.
pub enum CallOutcome {
    NotFound(Seq<char>),
    Refused(WebErrorKind, Seq<char>),
    Read(GuardOutcome, Seq<char>, bool, usize),
    Screenshot(GuardOutcome, bool),
    Other,
}

/// What a call of the tool `name` with `args` comes to, before the browser.
pub open spec fn call_outcome(allow_private: bool, name: Seq<char>, args: &ToolArgs) -> CallOutcome {
    if name == "web_read"@ || name == "web_screenshot"@ {
        match nonempty_text(args, "url"@) {
            None => CallOutcome::Refused(WebErrorKind::InvalidParameters, "Missing required parameter: "@ + "url"@),
            Some(u) => match guard_outcome(allow_private, u) {
                GuardOutcome::Refused(k, m) => CallOutcome::Refused(k, m),
                g => if name == "web_read"@ {
                    CallOutcome::Read(
                        g,
                        match arg_text(args, "format"@) { Some(f) => f, None => "text"@ },
                        match arg_bool(args, "include_links"@) { Some(b) => b, None => false },
                        (match arg_u64(args, "max_chars"@) { Some(n) => n, None => DEFAULT_MAX_CHARS }) as usize,
                    )
                } else {
                    CallOutcome::Screenshot(g, match arg_bool(args, "full_page"@) { Some(b) => b, None => false })
                },
            },
        }
    } else {
        CallOutcome::NotFound(name)
    }
}

/// The meaning of a result of [`WebService::plan_call`].
pub open spec fn plan_outcome(r: Result<ToolPlan, CallRejection>) -> CallOutcome {
    match r {
        Ok(ToolPlan::Read { target, format, include_links, max_chars }) => CallOutcome::Read(
            verdict_outcome(Ok(target)),
            format@,
            include_links,
            max_chars,
        ),
        Ok(ToolPlan::Screenshot { target, full_page }) => CallOutcome::Screenshot(verdict_outcome(Ok(target)), full_page),
        Err(CallRejection::ToolNotFound(n)) => CallOutcome::NotFound(n@),
        Err(CallRejection::Failed(WebMcpError::Web(e))) => CallOutcome::Refused(e@.0, e@.1),
        Err(_) => CallOutcome::Other,
    }
}

/// The web-mcp service: its configuration and the SSRF guard built from it.
/// The browser itself is driven by the host that runs the plans.
#[derive(Debug)]
pub struct WebService {
    config: WebConfig,
    guard: UrlGuard,
}

impl WebService {
    /// The configuration the service was built with.
    pub closed spec fn configuration(&self) -> WebConfig {
        self.config
    }

    /// Private and loopback hosts are let through.
    pub closed spec fn allows_private(&self) -> bool {
        self.guard.allows_private()
    }

    /// Create a service using default configuration.
    pub fn new() -> (s: Self)
        ensures
            s.configuration().is_default(),
            !s.allows_private(),
    {
        Self::with_config(WebConfig::default())
    }

    /// Create a service with a specific configuration.
    pub fn with_config(config: WebConfig) -> (s: Self)
        ensures
            s.configuration() == config,
            s.allows_private() == config.allow_private_hosts,
    {
        let guard = UrlGuard::new(config.allow_private_hosts);
        WebService { config, guard }
    }

    /// The configuration the service was built with.
    pub fn config(&self) -> (c: &WebConfig)
        ensures
            *c == self.configuration(),
    {
        &self.config
    }

    /// The guard that vets every URL before the browser opens it.
    pub fn guard(&self) -> (g: &UrlGuard)
        ensures
            g.allows_private() == self.allows_private(),
    {
        &self.guard
    }

    /// The tools: `web_read` and `web_screenshot`, and deliberately no
    /// `web_search`.
    pub fn tools(&self) -> (t: Vec<ToolDef>)
        ensures
            t@.len() == 2,
            is_read_tool(t@[0]),
            is_screenshot_tool(t@[1]),
    {
        let mut t = Vec::new();
        t.push(read_tool());
        t.push(screenshot_tool());
        t
    }

    /// Read the arguments of a call of the tool `name` and vet its URL.
    ///
    /// Bad arguments, a guard-refused URL, or an unknown tool name are
    /// tool-level failures, given back as a [`CallRejection`].
    pub fn plan_call(&self, name: &str, args: &ToolArgs) -> (r: Result<ToolPlan, CallRejection>)
        ensures
            plan_outcome(r) == call_outcome(self.allows_private(), name@, args),
    {
        proof {
            reveal_strlit("web_read");
            reveal_strlit("web_screenshot");
        }
        let is_read = str_equals(name, "web_read");
        if !is_read && !str_equals(name, "web_screenshot") {
            return Err(CallRejection::ToolNotFound(String::from_str(name)));
        }
        let raw_url = match require_str(args, "url") {
            Ok(u) => u,
            Err(e) => return Err(CallRejection::Failed(e)),
        };
        let target = match self.guard.check(raw_url) {
            Ok(v) => v,
            Err(e) => return Err(CallRejection::Failed(WebMcpError::Web(e))),
        };
        if is_read {
            let format = match get_str(args, "format") {
                Some(f) => String::from_str(f),
                None => String::from_str("text"),
            };
            let include_links = match get_bool(args, "include_links") {
                Some(b) => b,
                None => false,
            };
            let max_chars = match get_u64(args, "max_chars") {
                Some(n) => n,
                None => DEFAULT_MAX_CHARS,
            };
            Ok(ToolPlan::Read { target, format, include_links, max_chars: #[verifier::truncate] (max_chars as usize) })
        } else {
            let full_page = match get_bool(args, "full_page") {
                Some(b) => b,
                None => false,
            };
            Ok(ToolPlan::Screenshot { target, full_page })
        }
    }
}

/// A call of `web_read` or `web_screenshot` whose URL the guard refuses never
/// reaches the browser: it fails as a tool-level error carrying the guard's
/// refusal, whatever the other arguments.
pub proof fn law_refused_url_is_tool_error(allow_private: bool, name: Seq<char>, args: &ToolArgs)
    requires
        name == "web_read"@ || name == "web_screenshot"@,
        nonempty_text(args, "url"@) is Some,
        guard_outcome(allow_private, nonempty_text(args, "url"@)->Some_0) is Refused,
    ensures
        call_outcome(allow_private, name, args) matches CallOutcome::Refused(k, m) && guard_outcome(
            allow_private,
            nonempty_text(args, "url"@)->Some_0,
        ) == GuardOutcome::Refused(k, m),
{
}

/// Only `web_read` and `web_screenshot` are tools of the service: a call of
/// any other name (`web_search` among them) fails as "tool not found".
pub proof fn law_only_browsing_tools(allow_private: bool, name: Seq<char>, args: &ToolArgs)
    ensures
        !(name == "web_read"@ || name == "web_screenshot"@) ==> call_outcome(allow_private, name, args)
            == CallOutcome::NotFound(name),
{
}

impl Default for WebService {
    fn default() -> (s: Self)
        ensures
            s.configuration().is_default(),
            !s.allows_private(),
    {
        Self::new()
    }
}

/// A `web_read` call whose URL the guard does not refuse is cut to exactly
/// the `max_chars` the caller passed as a number (0 among them, which means
/// no limit), and to the default only when no `max_chars` was passed; its
/// format is the `format` text the caller passed (`text` when none was), and
/// it lists links exactly when the caller passed `include_links: true`.
pub proof fn law_read_plan_follows_arguments(allow_private: bool, args: &ToolArgs)
    requires
        nonempty_text(args, "url"@) is Some,
        !(guard_outcome(allow_private, nonempty_text(args, "url"@)->Some_0) is Refused),
    ensures
        call_outcome(allow_private, "web_read"@, args) matches CallOutcome::Read(_, fmt, links, m) && (args.value_of("max_chars"@) matches Some(
            ArgValue::Number(n),
        ) ==> m == n as usize) && (args.value_of("max_chars"@) is None ==> m == DEFAULT_MAX_CHARS as usize) && (
        args.value_of("format"@) matches Some(ArgValue::Text(f)) ==> fmt == f@) && (args.value_of("format"@) is None
            ==> fmt == "text"@) && (links <==> args.value_of("include_links"@) == Some(ArgValue::Bool(true))),
{
    reveal_strlit("web_read");
    reveal_strlit("web_screenshot");
    reveal_strlit("web_search");
    assert("web_read"@.len() == 8 && "web_screenshot"@.len() == 14 && "web_search"@.len() == 10);
    assert("web_screenshot"@ != "web_read"@ && "web_screenshot"@ != "web_search"@ && "web_read"@ != "web_search"@);
}

/// A `web_screenshot` call whose URL the guard does not refuse captures the
/// whole scrollable page exactly when the caller passed `full_page: true`; a
/// `full_page: false`, or none at all, keeps to the viewport.
pub proof fn law_screenshot_full_page_is_callers(allow_private: bool, args: &ToolArgs)
    requires
        nonempty_text(args, "url"@) is Some,
        !(guard_outcome(allow_private, nonempty_text(args, "url"@)->Some_0) is Refused),
    ensures
        call_outcome(allow_private, "web_screenshot"@, args) matches CallOutcome::Screenshot(_, full) && (full <==> args.value_of(
            "full_page"@,
        ) == Some(ArgValue::Bool(true))),
{
    reveal_strlit("web_read");
    reveal_strlit("web_screenshot");
    reveal_strlit("web_search");
    assert("web_read"@.len() == 8 && "web_screenshot"@.len() == 14 && "web_search"@.len() == 10);
    assert("web_screenshot"@ != "web_read"@ && "web_screenshot"@ != "web_search"@ && "web_read"@ != "web_search"@);
}

} // verus!
