use alacritty_mcp::alacritty_manager::AlacrittyManager;
use alacritty_mcp::mcp_server::{GatewayEvent, HandleOutcome, McpServer};
use alacritty_mcp::neovim_context::NeovimContextExtractor;

fn create_test_server() -> McpServer {
    let manager = AlacrittyManager::new();
    McpServer::new(manager)
}

fn send_request(server: &mut McpServer, request: &str) -> serde_json::Value {
    let response = match server.handle_request(request) {
        HandleOutcome::Response(text) => text,
        HandleOutcome::Pending(_, _) => panic!("expected a finished response"),
    };
    serde_json::from_str(&response).expect("response is one JSON document")
}

fn initialize_server(server: &mut McpServer) {
    let init_request = r#"{
        "jsonrpc": "2.0",
        "method": "initialize",
        "params": {
            "protocolVersion": "2024-11-05",
            "capabilities": {},
            "clientInfo": {"name": "test-client", "version": "1.0.0"}
        },
        "id": 1
    }"#;
    let response = send_request(server, init_request);
    assert!(response["error"].is_null());
}

#[test]
fn test_neovim_context_tool_available() {
    let mut server = create_test_server();
    initialize_server(&mut server);

    let tools_request = r#"{"jsonrpc": "2.0", "method": "tools/list", "id": 2}"#;
    let response = send_request(&mut server, tools_request);

    assert_eq!(response["jsonrpc"], "2.0");
    assert_eq!(response["id"], 2);

    let tools = &response["result"]["tools"];
    assert!(tools.is_array());

    let tool_names: Vec<String> = tools
        .as_array()
        .unwrap()
        .iter()
        .map(|tool| tool["name"].as_str().unwrap().to_string())
        .collect();

    assert!(tool_names.contains(&"get_neovim_context".to_string()));

    let neovim_tool = tools
        .as_array()
        .unwrap()
        .iter()
        .find(|tool| tool["name"] == "get_neovim_context")
        .unwrap();

    assert!(neovim_tool["description"].as_str().unwrap().contains("Neovim context"));
    assert!(neovim_tool["input_schema"]["properties"]["instance_id"].is_object());
    assert!(neovim_tool["input_schema"]["properties"]["include_diagnostics"].is_object());
    assert!(neovim_tool["input_schema"]["properties"]["include_buffers"].is_object());
    assert!(neovim_tool["input_schema"]["properties"]["context_lines"].is_object());
}

#[test]
fn test_neovim_context_invalid_instance() {
    let mut server = create_test_server();
    initialize_server(&mut server);

    let neovim_context_request = r#"{
        "jsonrpc": "2.0",
        "method": "tools/call",
        "params": {
            "name": "get_neovim_context",
            "arguments": {"instance_id": "invalid-id"}
        },
        "id": 2
    }"#;

    let response = send_request(&mut server, neovim_context_request);

    assert_eq!(response["jsonrpc"], "2.0");
    assert_eq!(response["id"], 2);
    assert!(!response["error"].is_null());
    assert!(response["error"]["message"].as_str().unwrap().contains("Instance not found"));
}

#[test]
fn test_spawn_neovim_and_extract_context() {
    let mut server = create_test_server();
    initialize_server(&mut server);

    let spawn_request = r#"{
        "jsonrpc": "2.0",
        "method": "tools/call",
        "params": {
            "name": "spawn_instance",
            "arguments": {
                "title": "neovim-context-test",
                "command": "nvim",
                "args": ["+set", "number", "/tmp/test.txt"],
                "working_directory": "/tmp"
            }
        },
        "id": 2
    }"#;

    let (pending, _action) = match server.handle_request(spawn_request) {
        HandleOutcome::Pending(pending, action) => (pending, action),
        HandleOutcome::Response(text) => panic!("expected a launch, got {}", text),
    };
    let spawn_text = server.resume(
        pending,
        GatewayEvent::Launched { pid: 5150, timestamp: 1_700_000_000 },
    );
    let spawn_response: serde_json::Value = serde_json::from_str(&spawn_text).unwrap();
    let content = spawn_response["result"]["content"][0]["text"].as_str().unwrap();
    let entry_json = content.split_once('\n').unwrap().1;
    let entry: serde_json::Value = serde_json::from_str(entry_json).unwrap();
    let instance_id = entry["id"].as_str().unwrap().to_string();

    let context_request = format!(
        r#"{{
            "jsonrpc": "2.0",
            "method": "tools/call",
            "params": {{
                "name": "get_neovim_context",
                "arguments": {{
                    "instance_id": "{}",
                    "include_diagnostics": true,
                    "include_buffers": true,
                    "context_lines": 10
                }}
            }},
            "id": 3
        }}"#,
        instance_id
    );

    let (pending, _action) = match server.handle_request(&context_request) {
        HandleOutcome::Pending(pending, action) => (pending, action),
        HandleOutcome::Response(text) => panic!("expected an inspection, got {}", text),
    };
    let context_text = server.resume(
        pending,
        GatewayEvent::Inspected { content: "{\"vim_mode\":\"n\"}".to_string() },
    );
    let context_response: serde_json::Value = serde_json::from_str(&context_text).unwrap();

    assert!(context_response["error"].is_null());
    let context_content = context_response["result"]["content"][0]["text"].as_str().unwrap();
    assert!(context_content.contains("Neovim context for instance"));
    assert!(context_content.contains(&instance_id));
}

#[test]
fn test_neovim_context_extractor_creation() {
    let extractor = NeovimContextExtractor::new();

    // Test basic functionality
    let test_content_with_nvim = "-- INSERT -- some text here";
    assert!(extractor.detect_neovim_in_terminal(test_content_with_nvim));

    let test_content_without_nvim = "regular bash terminal $ ls -la";
    assert!(!extractor.detect_neovim_in_terminal(test_content_without_nvim));
}

#[test]
fn test_neovim_detection_patterns() {
    let extractor = NeovimContextExtractor::new();

    let nvim_patterns = vec![
        "-- INSERT --",
        "-- VISUAL --",
        "-- NORMAL --",
        "-- COMMAND --",
        ":set number",
        ":help",
        ":q!",
        "~vim: some config",
        "[No Name] - nvim",
    ];

    for pattern in nvim_patterns {
        assert!(
            extractor.detect_neovim_in_terminal(pattern),
            "Failed to detect Neovim pattern: {}",
            pattern
        );
    }

    let non_nvim_patterns = vec![
        "bash-5.1$ ls",
        "$ npm install",
        "gcc -o main main.c",
        "python3 script.py",
        "regular terminal output",
    ];

    for pattern in non_nvim_patterns {
        assert!(
            !extractor.detect_neovim_in_terminal(pattern),
            "False positive for pattern: {}",
            pattern
        );
    }
}
