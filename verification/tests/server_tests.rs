use web_mcp::error::{McpError, WebMcpError};
use web_mcp::server::McpServer;

#[test]
fn initialize_accepts_supported_versions() {
    let server = McpServer::new();
    for v in ["2024-11-05", "2025-06-18", "2025-11-25"] {
        let r = server.handle_initialize(v, &serde_json::Value::Null).unwrap();
        assert_eq!(r.protocol_version, v);
        assert_eq!(r.server_name, "web-mcp");
        assert!(!r.tools_list_changed);
    }
}

#[test]
fn initialize_rejects_other_versions() {
    let server = McpServer::new();
    match server.handle_initialize("1999-01-01", &serde_json::Value::Null) {
        Err(WebMcpError::Mcp(McpError::InvalidProtocolVersion(v))) => assert_eq!(v, "1999-01-01"),
        other => panic!("unexpected {other:?}"),
    }
}

#[test]
fn handshake_and_shutdown_toggle_initialized() {
    let mut server = McpServer::new();
    assert!(!server.is_initialized());
    server.handle_initialized().unwrap();
    assert!(server.is_initialized());
    server.handle_shutdown().unwrap();
    assert!(!server.is_initialized());
}

#[test]
fn server_lists_three_tools() {
    let names: Vec<String> = McpServer::new().list_tools().into_iter().map(|t| t.name).collect();
    assert_eq!(names, vec!["web_search", "web_read", "web_screenshot"]);
}
