use alacritty_mcp::alacritty_manager::AlacrittyManager;
use alacritty_mcp::mcp_server::{GatewayEvent, HandleOutcome, McpServer, PendingInvoke};

fn server() -> McpServer {
    McpServer::new(AlacrittyManager::new())
}

fn respond(server: &mut McpServer, request: &str) -> serde_json::Value {
    match server.handle_request(request) {
        HandleOutcome::Response(text) => serde_json::from_str(&text).unwrap(),
        HandleOutcome::Pending(_, _) => panic!("expected a finished response"),
    }
}

fn initialize(server: &mut McpServer) {
    let request = r#"{
        "jsonrpc": "2.0",
        "method": "initialize",
        "params": {
            "protocolVersion": "2024-11-05",
            "capabilities": {},
            "clientInfo": {"name": "scenario-client", "version": "0.1"}
        },
        "id": 0
    }"#;
    let response = respond(server, request);
    assert!(response["error"].is_null());
}

/// A whole session: handshake, an empty listing, a spawn, and a listing
/// that shows exactly the spawned instance under its given title.
#[test]
fn end_to_end_scenario_spawn_then_list() {
    let mut s = server();
    initialize(&mut s);

    // Listing against an empty live process set reports zero instances.
    let list = r#"{"jsonrpc":"2.0","method":"tools/call",
        "params":{"name":"list_instances","arguments":{}},"id":1}"#;
    let (pending, _) = match s.handle_request(list) {
        HandleOutcome::Pending(p, a) => (p, a),
        HandleOutcome::Response(t) => panic!("unexpected response {}", t),
    };
    let text = s.resume(pending, GatewayEvent::Processes { live: vec![], procs: vec![] });
    let response: serde_json::Value = serde_json::from_str(&text).unwrap();
    let content = response["result"]["content"][0]["text"].as_str().unwrap();
    assert!(content.starts_with("Found 0 Alacritty instances:"));

    // Spawning returns a fresh id and the literal title.
    let spawn = r#"{"jsonrpc":"2.0","method":"tools/call",
        "params":{"name":"spawn_instance","arguments":{"title":"t1"}},"id":2}"#;
    let (pending, _) = match s.handle_request(spawn) {
        HandleOutcome::Pending(p, a) => (p, a),
        HandleOutcome::Response(t) => panic!("unexpected response {}", t),
    };
    let text = s.resume(pending, GatewayEvent::Launched { pid: 777, timestamp: 12345 });
    let response: serde_json::Value = serde_json::from_str(&text).unwrap();
    let content = response["result"]["content"][0]["text"].as_str().unwrap();
    let entry: serde_json::Value =
        serde_json::from_str(content.split_once('\n').unwrap().1).unwrap();
    let id = entry["id"].as_str().unwrap().to_string();
    assert_eq!(id.len(), 36);
    assert_eq!(entry["title"], "t1");

    // The next listing, with the pid alive, reports exactly that instance.
    let (pending, _) = match s.handle_request(list) {
        HandleOutcome::Pending(p, a) => (p, a),
        HandleOutcome::Response(t) => panic!("unexpected response {}", t),
    };
    let text = s.resume(pending, GatewayEvent::Processes { live: vec![777], procs: vec![] });
    let response: serde_json::Value = serde_json::from_str(&text).unwrap();
    let content = response["result"]["content"][0]["text"].as_str().unwrap();
    assert!(content.starts_with("Found 1 Alacritty instances:"));
    let entries: serde_json::Value =
        serde_json::from_str(content.split_once('\n').unwrap().1).unwrap();
    assert_eq!(entries.as_array().unwrap().len(), 1);
    assert_eq!(entries[0]["title"], "t1");
    assert_eq!(entries[0]["id"], id.as_str());
}

#[test]
fn tools_list_before_handshake_is_not_ready() {
    let mut s = server();
    let response = respond(&mut s, r#"{"jsonrpc":"2.0","method":"tools/list","id":7}"#);
    assert_eq!(response["error"]["code"], -32002);
    assert_eq!(response["error"]["message"], "Server not initialized");
}

#[test]
fn tools_call_before_handshake_is_not_ready() {
    let mut s = server();
    let request = r#"{"jsonrpc":"2.0","method":"tools/call",
        "params":{"name":"list_instances","arguments":{}},"id":7}"#;
    let response = respond(&mut s, request);
    assert_eq!(response["error"]["code"], -32002);
}

#[test]
fn handshake_with_malformed_body_is_rejected() {
    let mut s = server();
    // The client description lacks its version.
    let request = r#"{"jsonrpc":"2.0","method":"initialize",
        "params":{"protocolVersion":"2024-11-05","capabilities":{},
        "clientInfo":{"name":"x"}},"id":1}"#;
    let response = respond(&mut s, request);
    assert_eq!(response["error"]["code"], -32602);
    assert_eq!(response["error"]["message"], "Invalid initialize params");

    // The failed handshake left the session unusable.
    let listing = respond(&mut s, r#"{"jsonrpc":"2.0","method":"tools/list","id":2}"#);
    assert_eq!(listing["error"]["code"], -32002);
}

#[test]
fn send_keys_with_empty_arguments_is_rejected() {
    let mut s = server();
    initialize(&mut s);
    let request = r#"{"jsonrpc":"2.0","method":"tools/call",
        "params":{"name":"send_keys","arguments":{}},"id":3}"#;
    let response = respond(&mut s, request);
    assert_eq!(response["error"]["code"], -32602);
    assert_eq!(response["error"]["message"], "Invalid send keys parameters");
}

#[test]
fn send_keys_with_unknown_id_embeds_the_id() {
    let mut s = server();
    initialize(&mut s);
    let request = r#"{"jsonrpc":"2.0","method":"tools/call",
        "params":{"name":"send_keys",
        "arguments":{"instance_id":"does-not-exist","keys":"Return"}},"id":3}"#;
    let response = respond(&mut s, request);
    assert_eq!(response["error"]["code"], -32603);
    assert_eq!(response["error"]["message"], "Instance not found: does-not-exist");
}

#[test]
fn unknown_method_code_is_stable_across_states() {
    let mut s = server();
    let before = respond(&mut s, r#"{"jsonrpc":"2.0","method":"nonexistent","id":1}"#);
    assert_eq!(before["error"]["code"], -32601);
    assert_eq!(before["error"]["message"], "Method not found: nonexistent");
    initialize(&mut s);
    let after = respond(&mut s, r#"{"jsonrpc":"2.0","method":"nonexistent","id":2}"#);
    assert_eq!(after["error"]["code"], -32601);
}

#[test]
fn unknown_tool_is_reported_by_name() {
    let mut s = server();
    initialize(&mut s);
    let request = r#"{"jsonrpc":"2.0","method":"tools/call",
        "params":{"name":"mystery","arguments":{}},"id":3}"#;
    let response = respond(&mut s, request);
    assert_eq!(response["error"]["code"], -32603);
    assert_eq!(response["error"]["message"], "Unknown tool: mystery");
}

#[test]
fn call_without_params_or_name_is_rejected() {
    let mut s = server();
    initialize(&mut s);
    let no_params = respond(&mut s, r#"{"jsonrpc":"2.0","method":"tools/call","id":3}"#);
    assert_eq!(no_params["error"]["code"], -32602);
    assert_eq!(no_params["error"]["message"], "Missing call parameters");

    let no_name = respond(
        &mut s,
        r#"{"jsonrpc":"2.0","method":"tools/call","params":{"arguments":{}},"id":4}"#,
    );
    assert_eq!(no_name["error"]["code"], -32602);
    assert_eq!(no_name["error"]["message"], "Missing tool name");
}

#[test]
fn screenshot_format_outside_enumeration_is_rejected() {
    let mut s = server();
    initialize(&mut s);
    let request = r#"{"jsonrpc":"2.0","method":"tools/call",
        "params":{"name":"screenshot_instance",
        "arguments":{"instance_id":"x","format":"pdf"}},"id":3}"#;
    let response = respond(&mut s, request);
    assert_eq!(response["error"]["code"], -32602);
    assert_eq!(response["error"]["message"], "Unsupported format: pdf");
}

#[test]
fn context_lines_bounds_are_enforced() {
    let mut s = server();
    initialize(&mut s);
    let over = r#"{"jsonrpc":"2.0","method":"tools/call",
        "params":{"name":"get_neovim_context",
        "arguments":{"instance_id":"x","context_lines":51}},"id":3}"#;
    let response = respond(&mut s, over);
    assert_eq!(response["error"]["code"], -32602);
    assert_eq!(response["error"]["message"], "Invalid neovim context parameters");

    // At the bound the arguments pass the schema; only the unknown id fails.
    let at_bound = r#"{"jsonrpc":"2.0","method":"tools/call",
        "params":{"name":"get_neovim_context",
        "arguments":{"instance_id":"x","context_lines":50}},"id":4}"#;
    let response = respond(&mut s, at_bound);
    assert_eq!(response["error"]["code"], -32603);
    assert!(response["error"]["message"].as_str().unwrap().contains("Instance not found"));
}

#[test]
fn launch_failure_reports_the_launcher_diagnostic() {
    let mut s = server();
    initialize(&mut s);
    let spawn = r#"{"jsonrpc":"2.0","method":"tools/call",
        "params":{"name":"spawn_instance","arguments":{}},"id":5}"#;
    let (pending, _) = match s.handle_request(spawn) {
        HandleOutcome::Pending(p, a) => (p, a),
        HandleOutcome::Response(t) => panic!("unexpected response {}", t),
    };
    let text = s.resume(
        pending,
        GatewayEvent::LaunchFailed { message: "No such file or directory".to_string() },
    );
    let response: serde_json::Value = serde_json::from_str(&text).unwrap();
    assert_eq!(response["error"]["code"], -32603);
    assert_eq!(response["error"]["message"], "No such file or directory");
    assert_eq!(response["id"], 5);
}

#[test]
fn mismatched_gateway_outcome_is_a_failed_execution() {
    let mut s = server();
    initialize(&mut s);
    let pending = PendingInvoke::List { id: None };
    let text = s.resume(pending, GatewayEvent::Injected);
    let response: serde_json::Value = serde_json::from_str(&text).unwrap();
    assert_eq!(response["error"]["code"], -32603);
    assert_eq!(response["error"]["message"], "Tool execution failed");
}

/// The request id is carried through decoding and re-encoding untouched,
/// whatever JSON value it is.
#[test]
fn request_id_survives_the_round_trip() {
    let mut s = server();
    let request = r#"{"jsonrpc":"2.0","method":"nonexistent",
        "id":{"a":[1,"x",null,true,2.5],"b":{"c":[]}}}"#;
    let response = respond(&mut s, request);
    let expected: serde_json::Value =
        serde_json::from_str(r#"{"a":[1,"x",null,true,2.5],"b":{"c":[]}}"#).unwrap();
    assert_eq!(response["id"], expected);
}

/// Text that needs escaping survives the trip into the registry and back
/// out through the rendered report.
#[test]
fn titles_are_escaped_in_reports() {
    let mut s = server();
    initialize(&mut s);
    let spawn = r#"{"jsonrpc":"2.0","method":"tools/call",
        "params":{"name":"spawn_instance",
        "arguments":{"title":"a\"b\\c\nd\te"}},"id":6}"#;
    let (pending, _) = match s.handle_request(spawn) {
        HandleOutcome::Pending(p, a) => (p, a),
        HandleOutcome::Response(t) => panic!("unexpected response {}", t),
    };
    let text = s.resume(pending, GatewayEvent::Launched { pid: 9, timestamp: 1 });
    let response: serde_json::Value = serde_json::from_str(&text).unwrap();
    let content = response["result"]["content"][0]["text"].as_str().unwrap();
    let entry: serde_json::Value =
        serde_json::from_str(content.split_once('\n').unwrap().1).unwrap();
    assert_eq!(entry["title"], "a\"b\\c\nd\te");
}

#[test]
fn send_keys_reaches_a_tracked_instance() {
    let mut s = server();
    initialize(&mut s);
    let spawn = r#"{"jsonrpc":"2.0","method":"tools/call",
        "params":{"name":"spawn_instance","arguments":{"title":"typing"}},"id":7}"#;
    let (pending, _) = match s.handle_request(spawn) {
        HandleOutcome::Pending(p, a) => (p, a),
        HandleOutcome::Response(t) => panic!("unexpected response {}", t),
    };
    let text = s.resume(pending, GatewayEvent::Launched { pid: 31, timestamp: 2 });
    let response: serde_json::Value = serde_json::from_str(&text).unwrap();
    let content = response["result"]["content"][0]["text"].as_str().unwrap();
    let entry: serde_json::Value =
        serde_json::from_str(content.split_once('\n').unwrap().1).unwrap();
    let id = entry["id"].as_str().unwrap();

    let request = format!(
        r#"{{"jsonrpc":"2.0","method":"tools/call",
        "params":{{"name":"send_keys",
        "arguments":{{"instance_id":"{}","keys":"echo hi Return"}}}},"id":8}}"#,
        id
    );
    let (pending, _) = match s.handle_request(&request) {
        HandleOutcome::Pending(p, a) => (p, a),
        HandleOutcome::Response(t) => panic!("unexpected response {}", t),
    };
    let text = s.resume(pending, GatewayEvent::Injected);
    let response: serde_json::Value = serde_json::from_str(&text).unwrap();
    let content = response["result"]["content"][0]["text"].as_str().unwrap();
    assert_eq!(content, format!("Sent keys 'echo hi Return' to instance {}", id));
}
