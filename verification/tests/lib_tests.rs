use web_mcp::arguments::{ArgValue, ToolArgs};
use web_mcp::service::Transport;
use web_mcp::{build_service, server_config};

#[test]
fn build_service_exposes_default_browser_tools() {
    let names: Vec<String> = build_service().tools().into_iter().map(|t| t.name).collect();
    for expected in ["web_read", "web_screenshot"] {
        assert!(names.iter().any(|n| n == expected), "missing {expected}");
    }
    assert!(!names.iter().any(|n| n == "web_search"), "web_search must not be exposed");
}

#[test]
fn build_service_defaults_keep_ssrf_guard_on() {
    let svc = build_service();
    let mut args = ToolArgs::new();
    args.set("url", ArgValue::Text("http://127.0.0.1/".to_string()));
    match svc.plan_call("web_read", &args) {
        Err(rejection) => {
            let lower = rejection.message().to_lowercase();
            assert!(lower.contains("private") || lower.contains("refused"), "{lower}");
        },
        Ok(plan) => panic!("expected a tool error, got {plan:?}"),
    }
}

#[test]
fn server_config_reachable_at_crate_root() {
    let cfg = server_config();
    assert_eq!(cfg.name, "web-mcp");
    let instructions = cfg.instructions.expect("advertises MCP instructions");
    assert!(!instructions.trim().is_empty());
}

#[test]
fn server_config_offers_stdio_and_unix() {
    assert_eq!(server_config().transports, vec![Transport::Stdio, Transport::Unix]);
}
