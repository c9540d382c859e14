use alacritty_mcp::alacritty_manager::AlacrittyManager;
use alacritty_mcp::mcp_server::{GatewayEvent, HandleOutcome, McpServer};

fn create_test_server() -> McpServer {
    let manager = AlacrittyManager::new();
    McpServer::new(manager)
}

fn send_request(server: &mut McpServer, request: &str) -> serde_json::Value {
    let response = match server.handle_request(request) {
        HandleOutcome::Response(text) => text,
        HandleOutcome::Pending(_, _) => panic!("expected a finished response"),
    };
    serde_json::from_str(&response).expect("response is one JSON document")
}

fn initialize_server(server: &mut McpServer) {
    let init_request = r#"{
        "jsonrpc": "2.0",
        "method": "initialize",
        "params": {
            "protocolVersion": "2024-11-05",
            "capabilities": {},
            "clientInfo": {
                "name": "test-client",
                "version": "1.0.0"
            }
        },
        "id": 1
    }"#;
    let response = send_request(server, init_request);
    assert!(response["error"].is_null());
}

#[test]
fn test_initialize() {
    let mut server = create_test_server();

    let init_request = r#"{
        "jsonrpc": "2.0",
        "method": "initialize",
        "params": {
            "protocolVersion": "2024-11-05",
            "capabilities": {},
            "clientInfo": {
                "name": "test-client",
                "version": "1.0.0"
            }
        },
        "id": 1
    }"#;

    let response = send_request(&mut server, init_request);

    assert_eq!(response["jsonrpc"], "2.0");
    assert_eq!(response["id"], 1);
    assert!(response["result"]["protocolVersion"].is_string());
    assert!(response["result"]["capabilities"]["tools"].is_array());
    assert!(response["error"].is_null());
}

#[test]
fn test_tools_list() {
    let mut server = create_test_server();
    initialize_server(&mut server);

    let tools_request = r#"{"jsonrpc": "2.0", "method": "tools/list", "id": 2}"#;
    let response = send_request(&mut server, tools_request);

    assert_eq!(response["jsonrpc"], "2.0");
    assert_eq!(response["id"], 2);

    let tools = &response["result"]["tools"];
    assert!(tools.is_array());

    let tool_names: Vec<String> = tools
        .as_array()
        .unwrap()
        .iter()
        .map(|tool| tool["name"].as_str().unwrap().to_string())
        .collect();

    assert!(tool_names.contains(&"list_instances".to_string()));
    assert!(tool_names.contains(&"spawn_instance".to_string()));
    assert!(tool_names.contains(&"send_keys".to_string()));
    assert!(tool_names.contains(&"screenshot_instance".to_string()));
}

#[test]
fn test_list_instances_empty() {
    let mut server = create_test_server();
    initialize_server(&mut server);

    let list_request = r#"{
        "jsonrpc": "2.0",
        "method": "tools/call",
        "params": {"name": "list_instances", "arguments": {}},
        "id": 2
    }"#;

    let (pending, _action) = match server.handle_request(list_request) {
        HandleOutcome::Pending(pending, action) => (pending, action),
        HandleOutcome::Response(text) => panic!("expected pending gateway work, got {}", text),
    };
    let response_text = server.resume(
        pending,
        GatewayEvent::Processes { live: Vec::new(), procs: Vec::new() },
    );
    let response: serde_json::Value = serde_json::from_str(&response_text).unwrap();

    assert_eq!(response["jsonrpc"], "2.0");
    assert_eq!(response["id"], 2);
    assert!(response["result"]["content"].is_array());

    let content = &response["result"]["content"][0]["text"];
    assert!(
        content.as_str().unwrap().contains("Found")
            && content.as_str().unwrap().contains("Alacritty instances")
    );
}

#[test]
fn test_spawn_instance() {
    let mut server = create_test_server();
    initialize_server(&mut server);

    let spawn_request = r#"{
        "jsonrpc": "2.0",
        "method": "tools/call",
        "params": {
            "name": "spawn_instance",
            "arguments": {
                "title": "test-terminal",
                "command": "echo",
                "args": ["hello world"]
            }
        },
        "id": 2
    }"#;

    let (pending, _action) = match server.handle_request(spawn_request) {
        HandleOutcome::Pending(pending, action) => (pending, action),
        HandleOutcome::Response(text) => panic!("expected a launch, got {}", text),
    };
    let response_text = server.resume(
        pending,
        GatewayEvent::Launched { pid: 4242, timestamp: 1_700_000_000 },
    );
    let response: serde_json::Value = serde_json::from_str(&response_text).unwrap();

    assert_eq!(response["jsonrpc"], "2.0");
    assert_eq!(response["id"], 2);
    assert!(response["result"]["content"].is_array());
    let content = &response["result"]["content"][0]["text"];
    assert!(content.as_str().unwrap().contains("Spawned new Alacritty instance"));
}

#[test]
fn test_invalid_method() {
    let mut server = create_test_server();

    let invalid_request = r#"{"jsonrpc": "2.0", "method": "invalid_method", "id": 1}"#;
    let response = send_request(&mut server, invalid_request);

    assert_eq!(response["jsonrpc"], "2.0");
    assert_eq!(response["id"], 1);
    assert!(!response["error"].is_null());
    assert_eq!(response["error"]["code"], -32601);
}

#[test]
fn test_send_keys_invalid_instance() {
    let mut server = create_test_server();
    initialize_server(&mut server);

    let send_keys_request = r#"{
        "jsonrpc": "2.0",
        "method": "tools/call",
        "params": {
            "name": "send_keys",
            "arguments": {"instance_id": "invalid-id", "keys": "ctrl+c"}
        },
        "id": 2
    }"#;

    let response = send_request(&mut server, send_keys_request);

    assert_eq!(response["jsonrpc"], "2.0");
    assert_eq!(response["id"], 2);
    assert!(!response["error"].is_null());
    assert!(response["error"]["message"].as_str().unwrap().contains("Instance not found"));
}

#[test]
fn test_screenshot_invalid_instance() {
    let mut server = create_test_server();
    initialize_server(&mut server);

    let screenshot_request = r#"{
        "jsonrpc": "2.0",
        "method": "tools/call",
        "params": {
            "name": "screenshot_instance",
            "arguments": {"instance_id": "invalid-id", "format": "text"}
        },
        "id": 2
    }"#;

    let response = send_request(&mut server, screenshot_request);

    assert_eq!(response["jsonrpc"], "2.0");
    assert_eq!(response["id"], 2);
    assert!(!response["error"].is_null());
    assert!(response["error"]["message"].as_str().unwrap().contains("Instance not found"));
}

#[test]
fn test_malformed_json_request() {
    let mut server = create_test_server();

    let response = send_request(&mut server, "invalid json");
    assert!(!response["error"].is_null());
    assert_eq!(response["error"]["code"], -32700);
    assert!(response["id"].is_null());
}
