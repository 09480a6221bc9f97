use base64::Engine;
use web_mcp::arguments::{ArgValue, ToolArgs};
use web_mcp::protocol::Content;
use web_mcp::service::{image_reply, require_str, ToolPlan, WebService};
use web_mcp::url_guard::GuardVerdict;
use web_mcp::config::WebConfig;

fn args(pairs: &[(&str, ArgValue)]) -> ToolArgs {
    let mut a = ToolArgs::new();
    for (k, v) in pairs {
        let v = match v {
            ArgValue::Null => ArgValue::Null,
            ArgValue::Bool(b) => ArgValue::Bool(*b),
            ArgValue::Number(n) => ArgValue::Number(*n),
            ArgValue::Text(t) => ArgValue::Text(t.clone()),
            ArgValue::Array => ArgValue::Array,
            ArgValue::Object => ArgValue::Object,
        };
        a.set(k, v);
    }
    a
}

fn text(s: &str) -> ArgValue {
    ArgValue::Text(s.to_string())
}

#[test]
fn service_require_str_rejects_empty_and_missing() {
    assert!(require_str(&args(&[("url", text(""))]), "url").is_err());
    assert!(require_str(&args(&[]), "url").is_err());
    assert_eq!(require_str(&args(&[("url", text("x"))]), "url").unwrap(), "x");
}

#[test]
fn tools_exposes_browser_tools_and_no_search() {
    let names: Vec<String> = WebService::new().tools().into_iter().map(|t| t.name).collect();
    for expected in ["web_read", "web_screenshot"] {
        assert!(names.iter().any(|n| n == expected), "missing {expected}");
    }
    assert!(!names.iter().any(|n| n == "web_search"), "web_search must not be exposed");
}

#[test]
fn image_reply_is_base64_png() {
    let reply = image_reply(&[0x89, 0x50, 0x4e, 0x47]);
    assert!(!reply.is_error);
    assert_eq!(reply.content.len(), 1);
    let Content::Image(block) = &reply.content[0] else {
        panic!("expected an image content block");
    };
    assert_eq!(block.block_type, "image");
    assert_eq!(block.mime_type, "image/png");
    assert_eq!(block.data, "iVBORw==");
}

#[test]
fn unknown_tool_is_tool_error() {
    let svc = WebService::new();
    match svc.plan_call("does_not_exist", &args(&[])) {
        Err(rejection) => {
            let msg = rejection.message();
            assert!(msg.to_lowercase().contains("not found"), "{msg}");
            assert_eq!(msg, "Tool not found: does_not_exist");
        },
        Ok(plan) => panic!("expected a tool error, got {plan:?}"),
    }
    assert!(svc.plan_call("web_search", &args(&[("query", text("rust"))])).is_err());
}

#[test]
fn blocked_url_is_tool_error() {
    let svc = WebService::new();
    match svc.plan_call("web_read", &args(&[("url", text("http://127.0.0.1/"))])) {
        Err(rejection) => {
            let lower = rejection.message().to_lowercase();
            assert!(lower.contains("private") || lower.contains("refused"), "{lower}");
        },
        Ok(plan) => panic!("expected a tool error, got {plan:?}"),
    }
}

#[test]
fn missing_required_param_is_tool_error() {
    let svc = WebService::new();
    match svc.plan_call("web_read", &args(&[])) {
        Err(rejection) => assert_eq!(
            rejection.message(),
            "Web error: Invalid parameters: Missing required parameter: url"
        ),
        Ok(plan) => panic!("expected a tool error, got {plan:?}"),
    }
}

#[test]
fn screenshot_blocks_metadata_and_local_hosts() {
    let svc = WebService::new();
    for url in ["http://169.254.169.254/latest/meta-data/", "http://127.0.0.1/"] {
        let msg = svc.plan_call("web_screenshot", &args(&[("url", text(url))])).unwrap_err().message();
        assert!(msg.contains("private"), "{msg}");
    }
    let msg = svc.plan_call("web_read", &args(&[("url", text("http://[fd00::1]/"))])).unwrap_err().message();
    assert!(msg.starts_with("Web error: Refused to fetch URL: "), "{msg}");
    let msg = svc.plan_call("web_read", &args(&[("url", text("http://localhost:8080/"))])).unwrap_err().message();
    assert!(msg.contains("local"), "{msg}");
    let msg = svc.plan_call("web_read", &args(&[("url", text("file:///etc/passwd"))])).unwrap_err().message();
    assert!(msg.contains("scheme"), "{msg}");
}

#[test]
fn read_plan_takes_defaults_and_arguments() {
    let svc = WebService::with_config(WebConfig { allow_private_hosts: true, ..WebConfig::default() });
    match svc.plan_call("web_read", &args(&[("url", text("http://127.0.0.1:8080/"))])) {
        Ok(ToolPlan::Read { target: GuardVerdict::Allowed(u), format, include_links, max_chars }) => {
            assert_eq!(u.serialization, "http://127.0.0.1:8080/");
            assert_eq!(format, "text");
            assert!(!include_links);
            assert_eq!(max_chars, 50000);
        },
        other => panic!("unexpected {other:?}"),
    }
    let a = args(&[
        ("url", text("http://127.0.0.1/")),
        ("format", text("html")),
        ("include_links", ArgValue::Bool(true)),
        ("max_chars", text("+120")),
    ]);
    match svc.plan_call("web_read", &a) {
        Ok(ToolPlan::Read { format, include_links, max_chars, .. }) => {
            assert_eq!(format, "html");
            assert!(include_links);
            assert_eq!(max_chars, 120);
        },
        other => panic!("unexpected {other:?}"),
    }
    match svc.plan_call("web_screenshot", &args(&[("url", text("http://127.0.0.1/")), ("full_page", ArgValue::Bool(true))])) {
        Ok(ToolPlan::Screenshot { full_page, .. }) => assert!(full_page),
        other => panic!("unexpected {other:?}"),
    }
}

#[test]
fn malformed_max_chars_falls_back_to_default() {
    let svc = WebService::with_config(WebConfig { allow_private_hosts: true, ..WebConfig::default() });
    for bad in ["-3", "", "12a", "+", "18446744073709551616"] {
        match svc.plan_call("web_read", &args(&[("url", text("http://127.0.0.1/")), ("max_chars", text(bad))])) {
            Ok(ToolPlan::Read { max_chars, .. }) => assert_eq!(max_chars, 50000, "{bad}"),
            other => panic!("unexpected {other:?}"),
        }
    }
    match svc.plan_call("web_read", &args(&[("url", text("http://127.0.0.1/")), ("max_chars", ArgValue::Number(0))])) {
        Ok(ToolPlan::Read { max_chars, .. }) => assert_eq!(max_chars, 0),
        other => panic!("unexpected {other:?}"),
    }
}

#[test]
fn image_reply_data_decodes_to_the_png_bytes() {
    for png in [vec![], vec![0x89u8], vec![0x89, 0x50], vec![0x89, 0x50, 0x4e, 0x47, 0x0d, 0x0a, 0x1a, 0x0a, 0xff]] {
        let reply = image_reply(&png);
        let Content::Image(block) = &reply.content[0] else {
            panic!("expected an image content block");
        };
        let decoded = base64::engine::general_purpose::STANDARD.decode(&block.data).unwrap();
        assert_eq!(decoded, png);
    }
}
