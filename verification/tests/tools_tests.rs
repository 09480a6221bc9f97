use web_mcp::arguments::{ArgValue, ToolArgs};
use web_mcp::error::{McpError, WebMcpError};
use web_mcp::service::ToolPlan;
use web_mcp::tools::{mcp_tool_result_image, require_str, EnvelopeEntry, RegistryPlan, ToolRegistry};

fn with(pairs: &[(&str, &str)]) -> ToolArgs {
    let mut a = ToolArgs::new();
    for (k, v) in pairs {
        a.set(k, ArgValue::Text(v.to_string()));
    }
    a
}

#[test]
fn tools_require_str_rejects_empty_and_missing() {
    assert!(require_str(&with(&[("url", "")]), "url").is_err());
    assert!(require_str(&with(&[]), "url").is_err());
    assert_eq!(require_str(&with(&[("url", "x")]), "url").unwrap(), "x");
}

#[test]
fn list_tools_exposes_three_tools() {
    let names: Vec<String> = ToolRegistry::new().list_tools().into_iter().map(|t| t.name).collect();
    for expected in ["web_search", "web_read", "web_screenshot"] {
        assert!(names.iter().any(|n| n == expected), "missing {expected}");
    }
}

#[test]
fn image_envelope_is_base64_png() {
    let env = mcp_tool_result_image(&[0x89, 0x50, 0x4e, 0x47]);
    let EnvelopeEntry::Image(entry) = &env.content[0] else {
        panic!("expected an image entry");
    };
    assert_eq!(entry.block_type, "image");
    assert_eq!(entry.mime_type, "image/png");
    assert_eq!(entry.data, "iVBORw==");
}

#[test]
fn registry_search_reads_query_and_count() {
    let reg = ToolRegistry::new();
    match reg.execute_tool("web_search", &with(&[("query", "rust")])) {
        Ok(RegistryPlan::Search { query, count }) => {
            assert_eq!(query, "rust");
            assert_eq!(count, 8);
        },
        other => panic!("unexpected {other:?}"),
    }
    let mut a = with(&[("query", "rust")]);
    a.set("count", ArgValue::Number(5));
    match reg.execute_tool("web_search", &a) {
        Ok(RegistryPlan::Search { count, .. }) => assert_eq!(count, 5),
        other => panic!("unexpected {other:?}"),
    }
    match reg.execute_tool("web_search", &with(&[])) {
        Err(WebMcpError::Mcp(McpError::InvalidToolParameters(m))) => assert_eq!(m, "Missing required parameter: query"),
        other => panic!("unexpected {other:?}"),
    }
}

#[test]
fn registry_unknown_tool_and_guard() {
    let reg = ToolRegistry::new();
    match reg.execute_tool("nope", &with(&[])) {
        Err(e) => assert_eq!(e.message(), "MCP protocol error: Tool not found: nope"),
        other => panic!("unexpected {other:?}"),
    }
    match reg.execute_tool("web_read", &with(&[("url", "http://10.0.0.1/")])) {
        Err(e) => assert_eq!(
            e.message(),
            "Web error: Refused to fetch URL: host 10.0.0.1 is a private/loopback/link-local address"
        ),
        other => panic!("unexpected {other:?}"),
    }
    match reg.execute_tool("web_screenshot", &with(&[("url", "https://example.com/")])) {
        Ok(RegistryPlan::Browse(ToolPlan::Screenshot { full_page, .. })) => assert!(!full_page),
        other => panic!("unexpected {other:?}"),
    }
}
