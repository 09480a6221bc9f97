# web-mcp

Read-only web access for LLM agents over MCP: `web_read` opens a URL in
headless Chrome and returns its rendered text (or HTML) and links;
`web_screenshot` returns a PNG of the page.

## Layout

- `src/` — the verified library (Verus). It holds the SSRF guard
  (`url_guard.rs`: which addresses and host names are refused, and how a
  resolved host is judged), URL parsing (`web_url.rs`, through the `url`
  crate), the tools' schemas and the reading of their arguments
  (`service.rs`, `tools.rs`, `arguments.rs`), the MCP handshake state
  (`server.rs`), the shaping of a read page and of Chrome's launch arguments
  (`operations/browser.rs`), the reading of a search engine's results page
  (`operations/search.rs`, through `scraper`), and the error types
  (`error.rs`). Each public function states its result in its contract; the
  library's laws are public proof functions named `law_*`.
- `app/` — the program around it: the command line, the MCP stdio server,
  driving Chrome, resolving host names, and the HTTP search request.
- `tests/` — tests of the library on concrete values.
