//! The tool registry: the three tools `web_search`, `web_read` and
//! `web_screenshot`, and what a call to one of them asks of the search
//! backend or the browser once its arguments and its URL have been vetted.

use vstd::prelude::*;
use crate::arguments::{arg_bool, arg_text, arg_u64, get_bool, get_str, get_u64, nonempty_text, ArgValue, ToolArgs};
use crate::config::WebConfig;
use crate::error::{joined, McpError, McpErrorKind, WebErrorKind, WebMcpError};
use crate::operations::browser::PageContent;
use crate::operations::search::SearchResult;
use crate::protocol::{base64_decode, base64_standard, png_image_block, property, ImageBlock, ToolDef};
use crate::service::{
    is_screenshot_tool, property_texts, screenshot_tool, single, string_texts, CallOutcome, ToolPlan, DEFAULT_MAX_CHARS,
};
use crate::text::str_equals;
use crate::url_guard::{guard_outcome, verdict_outcome, GuardOutcome, UrlGuard};

verus! {

/// Default number of search results.
pub const DEFAULT_SEARCH_COUNT: u64 = 8;

/// The model-facing description of `web_search`.
pub const WEB_SEARCH_DESCRIPTION: &'static str = "Search the web (via DuckDuckGo) and return ranked results as a list of {title, url, snippet}. Use this to discover relevant pages; follow up with web_read to fetch a result's content.";

pub const SEARCH_QUERY_DESCRIPTION: &'static str = "The search query. Plain keywords work best, e.g. 'rust async runtime comparison'.";

pub const SEARCH_COUNT_DESCRIPTION: &'static str = "Maximum number of results to return. Range: 1-25 (default: 8).";

/// The registry's description of `web_read`.
pub const REGISTRY_READ_DESCRIPTION: &'static str = "Open a URL in a headless browser (full JavaScript rendering) and return the page's content. Use 'text' format for the rendered, human-readable text (best for reading/summarizing) or 'html' for the raw rendered DOM. Optionally include the page's outbound links. Refuses non-http(s) URLs and, by default, private/loopback/link-local hosts.";

pub const REGISTRY_READ_URL_DESCRIPTION: &'static str = "The absolute http(s) URL to open. Example: 'https://example.com/article'.";

pub const REGISTRY_READ_FORMAT_DESCRIPTION: &'static str = "Output format: 'text' (rendered visible text, default) or 'html' (full rendered DOM).";

pub const REGISTRY_READ_LINKS_DESCRIPTION: &'static str = "If true, also return the page's outbound links as {href, text}. Default: false.";

pub const REGISTRY_READ_MAX_CHARS_DESCRIPTION: &'static str = "Truncate returned content to this many characters (0 = no limit). Default: 50000. A 'truncated' flag indicates if content was cut.";

/// `t` is the registry's `web_search` tool.
pub open spec fn is_search_tool(t: ToolDef) -> bool {
    &&& t.name@ == "web_search"@
    &&& t.description@ == WEB_SEARCH_DESCRIPTION@
    &&& property_texts(t.properties@) == seq![
        ("query"@, "string"@, SEARCH_QUERY_DESCRIPTION@),
        ("count"@, "number"@, SEARCH_COUNT_DESCRIPTION@),
    ]
    &&& t.properties@[0].allowed@.len() == 0
    &&& t.properties@[1].allowed@.len() == 0
    &&& string_texts(t.required@) == seq!["query"@]
}

/// `t` is the registry's `web_read` tool.
pub open spec fn is_registry_read_tool(t: ToolDef) -> bool {
    &&& t.name@ == "web_read"@
    &&& t.description@ == REGISTRY_READ_DESCRIPTION@
    &&& property_texts(t.properties@) == seq![
        ("url"@, "string"@, REGISTRY_READ_URL_DESCRIPTION@),
        ("format"@, "string"@, REGISTRY_READ_FORMAT_DESCRIPTION@),
        ("include_links"@, "boolean"@, REGISTRY_READ_LINKS_DESCRIPTION@),
        ("max_chars"@, "number"@, REGISTRY_READ_MAX_CHARS_DESCRIPTION@),
    ]
    &&& string_texts(t.properties@[1].allowed@) == seq!["text"@, "html"@]
    &&& t.properties@[0].allowed@.len() == 0
    &&& t.properties@[2].allowed@.len() == 0
    &&& t.properties@[3].allowed@.len() == 0
    &&& string_texts(t.required@) == seq!["url"@]
}

fn search_tool() -> (t: ToolDef)
    ensures
        is_search_tool(t),
{
    let mut props = Vec::new();
    props.push(property("query", "string", SEARCH_QUERY_DESCRIPTION));
    props.push(property("count", "number", SEARCH_COUNT_DESCRIPTION));
    let t = ToolDef {
        name: String::from_str("web_search"),
        description: String::from_str(WEB_SEARCH_DESCRIPTION),
        properties: props,
        required: single("query"),
    };
    assert(property_texts(t.properties@) =~= seq![
        ("query"@, "string"@, SEARCH_QUERY_DESCRIPTION@),
        ("count"@, "number"@, SEARCH_COUNT_DESCRIPTION@),
    ]);
    t
}

fn registry_read_tool() -> (t: ToolDef)
    ensures
        is_registry_read_tool(t),
{
    let mut format = property("format", "string", REGISTRY_READ_FORMAT_DESCRIPTION);
    format.allowed.push(String::from_str("text"));
    format.allowed.push(String::from_str("html"));
    assert(string_texts(format.allowed@) =~= seq!["text"@, "html"@]);
    let mut props = Vec::new();
    props.push(property("url", "string", REGISTRY_READ_URL_DESCRIPTION));
    props.push(format);
    props.push(property("include_links", "boolean", REGISTRY_READ_LINKS_DESCRIPTION));
    props.push(property("max_chars", "number", REGISTRY_READ_MAX_CHARS_DESCRIPTION));
    let t = ToolDef {
        name: String::from_str("web_read"),
        description: String::from_str(REGISTRY_READ_DESCRIPTION),
        properties: props,
        required: single("url"),
    };
    assert(property_texts(t.properties@) =~= seq![
        ("url"@, "string"@, REGISTRY_READ_URL_DESCRIPTION@),
        ("format"@, "string"@, REGISTRY_READ_FORMAT_DESCRIPTION@),
        ("include_links"@, "boolean"@, REGISTRY_READ_LINKS_DESCRIPTION@),
        ("max_chars"@, "number"@, REGISTRY_READ_MAX_CHARS_DESCRIPTION@),
    ]);
    t
}

/// Require a non-empty string argument.
pub fn require_str<'a>(args: &'a ToolArgs, key: &str) -> (r: Result<&'a str, WebMcpError>)
    ensures
        nonempty_text(args, key@) is Some ==> r is Ok && r->Ok_0@ == nonempty_text(args, key@)->Some_0,
        nonempty_text(args, key@) is None ==> r is Err && (r->Err_0 matches WebMcpError::Mcp(e)
            && e@ == (McpErrorKind::InvalidToolParameters, "Missing required parameter: "@ + key@)),
{
    match get_str(args, key) {
        Some(s) => {
            if s.unicode_len() > 0 {
                return Ok(s);
            }
        },
        None => {},
    }
    Err(WebMcpError::Mcp(McpError::InvalidToolParameters(joined("Missing required parameter: ", key))))
}

/// What a tool returns in its content envelope.
#[derive(Debug)]
pub enum ToolPayload {
    SearchResults(Vec<SearchResult>),
    Page(PageContent),
}

/// One entry of a tool result's content envelope.
#[derive(Debug)]
pub enum EnvelopeEntry {
    /// A `json` entry carrying a payload.
    Json(ToolPayload),
    /// An `image` entry.
    Image(ImageBlock),
}

/// The MCP tool-result content envelope.
#[derive(Debug)]
pub struct ToolEnvelope {
    pub content: Vec<EnvelopeEntry>,
}

/// Wrap a payload in the MCP tool-result content envelope, as its one `json`
/// entry.
pub fn mcp_tool_result_json(value: ToolPayload) -> (r: ToolEnvelope)
    ensures
        r.content@ == seq![EnvelopeEntry::Json(value)],
{
    let mut content = Vec::new();
    content.push(EnvelopeEntry::Json(value));
    assert(content@ =~= seq![EnvelopeEntry::Json(value)]);
    ToolEnvelope { content }
}

/// Wrap PNG bytes in the MCP image content envelope (base64-encoded).
pub fn mcp_tool_result_image(png: &[u8]) -> (r: ToolEnvelope)
    ensures
        r.content@.len() == 1,
        r.content@[0] matches EnvelopeEntry::Image(b) && b.block_type@ == "image"@ && b.data@ == base64_standard(png@)
            && base64_decode(b.data@) == png@ && b.mime_type@ == "image/png"@,
{
    let mut content = Vec::new();
    content.push(EnvelopeEntry::Image(png_image_block(png)));
    ToolEnvelope { content }
}

/// What a registry call asks of the search backend or the browser.
#[derive(Debug)]
pub enum RegistryPlan {
    /// Search for `query`, returning at most `count` results.
    Search { query: String, count: usize },
    /// Read or capture a page.
    Browse(ToolPlan),
}

/// The meaning of a registry call's planning.
pub enum RegistryOutcome {
    Search(Seq<char>, usize),
    Browse(CallOutcome),
    Mcp(McpErrorKind, Seq<char>),
    Web(WebErrorKind, Seq<char>),
    Other,
}

/// What a registry call of the tool `name` with `args` comes to.
pub open spec fn registry_call_outcome(allow_private: bool, name: Seq<char>, args: &ToolArgs) -> RegistryOutcome {
    if name == "web_search"@ {
        match nonempty_text(args, "query"@) {
            None => RegistryOutcome::Mcp(McpErrorKind::InvalidToolParameters, "Missing required parameter: "@ + "query"@),
            Some(q) => RegistryOutcome::Search(
                q,
                (match arg_u64(args, "count"@) { Some(n) => n, None => DEFAULT_SEARCH_COUNT }) as usize,
            ),
        }
    } else if name == "web_read"@ || name == "web_screenshot"@ {
        match nonempty_text(args, "url"@) {
            None => RegistryOutcome::Mcp(McpErrorKind::InvalidToolParameters, "Missing required parameter: "@ + "url"@),
            Some(u) => match guard_outcome(allow_private, u) {
                GuardOutcome::Refused(k, m) => RegistryOutcome::Web(k, m),
                g => RegistryOutcome::Browse(
                    if name == "web_read"@ {
                        CallOutcome::Read(
                            g,
                            match arg_text(args, "format"@) { Some(f) => f, None => "text"@ },
                            match arg_bool(args, "include_links"@) { Some(b) => b, None => false },
                            (match arg_u64(args, "max_chars"@) { Some(n) => n, None => DEFAULT_MAX_CHARS }) as usize,
                        )
                    } else {
                        CallOutcome::Screenshot(g, match arg_bool(args, "full_page"@) { Some(b) => b, None => false })
                    },
                ),
            },
        }
    } else {
        RegistryOutcome::Mcp(McpErrorKind::ToolNotFound, name)
    }
}

/// The meaning of a result of [`ToolRegistry::execute_tool`].
pub open spec fn registry_plan_outcome(r: Result<RegistryPlan, WebMcpError>) -> RegistryOutcome {
    match r {
        Ok(RegistryPlan::Search { query, count }) => RegistryOutcome::Search(query@, count),
        Ok(RegistryPlan::Browse(ToolPlan::Read { target, format, include_links, max_chars })) => RegistryOutcome::Browse(
            CallOutcome::Read(verdict_outcome(Ok(target)), format@, include_links, max_chars),
        ),
        Ok(RegistryPlan::Browse(ToolPlan::Screenshot { target, full_page })) => RegistryOutcome::Browse(
            CallOutcome::Screenshot(verdict_outcome(Ok(target)), full_page),
        ),
        Err(WebMcpError::Mcp(e)) => RegistryOutcome::Mcp(e@.0, e@.1),
        Err(WebMcpError::Web(e)) => RegistryOutcome::Web(e@.0, e@.1),
        Err(_) => RegistryOutcome::Other,
    }
}

/// Tool registry: owns the configuration and the SSRF guard, and dispatches
/// MCP tool calls. The HTTP client and the browser are driven by the host
/// that runs the plans.
#[derive(Debug)]
pub struct ToolRegistry {
    config: WebConfig,
    guard: UrlGuard,
}

impl ToolRegistry {
    /// The configuration the registry was built with.
    pub closed spec fn configuration(&self) -> WebConfig {
        self.config
    }

    /// Private and loopback hosts are let through.
    pub closed spec fn allows_private(&self) -> bool {
        self.guard.allows_private()
    }

    /// Create a registry using default configuration.
    pub fn new() -> (r: Self)
        ensures
            r.configuration().is_default(),
            !r.allows_private(),
    {
        Self::with_config(WebConfig::default())
    }

    /// Create a registry with a specific configuration.
    pub fn with_config(config: WebConfig) -> (r: Self)
        ensures
            r.configuration() == config,
            r.allows_private() == config.allow_private_hosts,
    {
        let guard = UrlGuard::new(config.allow_private_hosts);
        ToolRegistry { config, guard }
    }

    /// The configuration the registry was built with.
    pub fn config(&self) -> (c: &WebConfig)
        ensures
            *c == self.configuration(),
    {
        &self.config
    }

    /// The guard that vets every URL before the browser opens it.
    pub fn guard(&self) -> (g: &UrlGuard)
        ensures
            g.allows_private() == self.allows_private(),
    {
        &self.guard
    }

    /// Get all tools: `web_search`, `web_read` and `web_screenshot`.
    pub fn list_tools(&self) -> (t: Vec<ToolDef>)
        ensures
            t@.len() == 3,
            is_search_tool(t@[0]),
            is_registry_read_tool(t@[1]),
            is_screenshot_tool(t@[2]),
    {
        let mut t = Vec::new();
        t.push(search_tool());
        t.push(registry_read_tool());
        t.push(screenshot_tool());
        t
    }

    /// Read the arguments of a call of the tool `name` and vet its URL.
    pub fn execute_tool(&self, tool_name: &str, arguments: &ToolArgs) -> (r: Result<RegistryPlan, WebMcpError>)
        ensures
            registry_plan_outcome(r) == registry_call_outcome(self.allows_private(), tool_name@, arguments),
    {
        proof {
            reveal_strlit("web_search");
            reveal_strlit("web_read");
            reveal_strlit("web_screenshot");
        }
        if str_equals(tool_name, "web_search") {
            let query = require_str(arguments, "query")?;
            let count = match get_u64(arguments, "count") {
                Some(n) => n,
                None => DEFAULT_SEARCH_COUNT,
            };
            return Ok(RegistryPlan::Search { query: String::from_str(query), count: #[verifier::truncate] (count as usize) });
        }
        let is_read = str_equals(tool_name, "web_read");
        if !is_read && !str_equals(tool_name, "web_screenshot") {
            return Err(WebMcpError::Mcp(McpError::ToolNotFound(String::from_str(tool_name))));
        }
        let raw_url = require_str(arguments, "url")?;
        let target = match self.guard.check(raw_url) {
            Ok(v) => v,
            Err(e) => return Err(WebMcpError::Web(e)),
        };
        if is_read {
            let format = match get_str(arguments, "format") {
                Some(f) => String::from_str(f),
                None => String::from_str("text"),
            };
            let include_links = match get_bool(arguments, "include_links") {
                Some(b) => b,
                None => false,
            };
            let max_chars = match get_u64(arguments, "max_chars") {
                Some(n) => n,
                None => DEFAULT_MAX_CHARS,
            };
            Ok(RegistryPlan::Browse(ToolPlan::Read {
                target,
                format,
                include_links,
                max_chars: #[verifier::truncate] (max_chars as usize),
            }))
        } else {
            let full_page = match get_bool(arguments, "full_page") {
                Some(b) => b,
                None => false,
            };
            Ok(RegistryPlan::Browse(ToolPlan::Screenshot { target, full_page }))
        }
    }
}

impl Default for ToolRegistry {
    fn default() -> (r: Self)
        ensures
            r.configuration().is_default(),
            !r.allows_private(),
    {
        Self::new()
    }
}

/// A `web_read` call whose URL the guard does not refuse is cut to exactly
/// the `max_chars` the caller passed as a number (0 among them, which means
/// no limit), and to the default only when no `max_chars` was passed; its
/// format is the `format` text the caller passed (`text` when none was), and
/// it lists links exactly when the caller passed `include_links: true`.
pub proof fn law_registry_read_plan_follows_arguments(allow_private: bool, args: &ToolArgs)
    requires
        nonempty_text(args, "url"@) is Some,
        !(guard_outcome(allow_private, nonempty_text(args, "url"@)->Some_0) is Refused),
    ensures
        registry_call_outcome(allow_private, "web_read"@, args) matches RegistryOutcome::Browse(CallOutcome::Read(_, fmt, links, m)) && (args.value_of("max_chars"@) matches Some(
            ArgValue::Number(n),
        ) ==> m == n as usize) && (args.value_of("max_chars"@) is None ==> m == DEFAULT_MAX_CHARS as usize) && (
        args.value_of("format"@) matches Some(ArgValue::Text(f)) ==> fmt == f@) && (args.value_of("format"@) is None
            ==> fmt == "text"@) && (links <==> args.value_of("include_links"@) == Some(ArgValue::Bool(true))),
{
    reveal_strlit("web_read");
    reveal_strlit("web_screenshot");
    reveal_strlit("web_search");
    assert("web_read"@.len() == 8 && "web_screenshot"@.len() == 14 && "web_search"@.len() == 10);
    assert("web_screenshot"@ != "web_read"@ && "web_screenshot"@ != "web_search"@ && "web_read"@ != "web_search"@);
}

/// A `web_screenshot` call whose URL the guard does not refuse captures the
/// whole scrollable page exactly when the caller passed `full_page: true`; a
/// `full_page: false`, or none at all, keeps to the viewport.
pub proof fn law_registry_screenshot_full_page_is_callers(allow_private: bool, args: &ToolArgs)
    requires
        nonempty_text(args, "url"@) is Some,
        !(guard_outcome(allow_private, nonempty_text(args, "url"@)->Some_0) is Refused),
    ensures
        registry_call_outcome(allow_private, "web_screenshot"@, args) matches RegistryOutcome::Browse(CallOutcome::Screenshot(_, full)) && (full <==> args.value_of(
            "full_page"@,
        ) == Some(ArgValue::Bool(true))),
{
    reveal_strlit("web_read");
    reveal_strlit("web_screenshot");
    reveal_strlit("web_search");
    assert("web_read"@.len() == 8 && "web_screenshot"@.len() == 14 && "web_search"@.len() == 10);
    assert("web_screenshot"@ != "web_read"@ && "web_screenshot"@ != "web_search"@ && "web_read"@ != "web_search"@);
}

/// A registry `web_search` call with a non-empty `query` searches for exactly
/// the query text the caller passed, for the `count` the caller passed as a
/// number, or for the default count when no `count` was passed.
pub proof fn law_search_plan_follows_arguments(allow_private: bool, args: &ToolArgs)
    requires
        nonempty_text(args, "query"@) is Some,
    ensures
        registry_call_outcome(allow_private, "web_search"@, args) matches RegistryOutcome::Search(q, c) && (args.value_of(
            "query"@,
        ) matches Some(ArgValue::Text(t)) && q == t@) && (args.value_of("count"@) matches Some(ArgValue::Number(n))
            ==> c == n as usize) && (args.value_of("count"@) is None ==> c == DEFAULT_SEARCH_COUNT as usize),
{
}

} // verus!
