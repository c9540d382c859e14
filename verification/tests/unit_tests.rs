use alacritty_mcp::alacritty_manager::AlacrittyManager;
use alacritty_mcp::json::JsonValue;
use alacritty_mcp::mcp_server::{
    build_instance_doc, parse_screenshot_params, parse_send_keys_params, parse_spawn_params,
    render_response,
};
use alacritty_mcp::base64;
use alacritty_mcp::types::{AlacrittyInstance, JsonRpcError, JsonRpcResponse};

fn obj(members: Vec<(&str, JsonValue)>) -> JsonValue {
    JsonValue::Obj(
        members.into_iter().map(|(k, v)| (k.to_string(), v)).collect(),
    )
}

fn text(s: &str) -> JsonValue {
    JsonValue::Str(s.to_string())
}

#[test]
fn test_alacritty_manager_creation() {
    let _manager = AlacrittyManager::new();
    // Test passes if no panic occurs
}

#[test]
fn test_alacritty_instance_serialization() {
    let instance = AlacrittyInstance {
        id: "test-id".to_string(),
        pid: 12345,
        window_id: Some(67890),
        title: "test-title".to_string(),
        command: "test-command".to_string(),
        created_at: 1234567890,
    };

    let json_str = alacritty_mcp::json::to_text(&build_instance_doc(&instance));
    let deserialized: serde_json::Value = serde_json::from_str(&json_str).unwrap();

    assert_eq!(deserialized["id"], "test-id");
    assert_eq!(deserialized["pid"], 12345);
    assert_eq!(deserialized["window_id"], 67890);
    assert_eq!(deserialized["title"], "test-title");
    assert_eq!(deserialized["command"], "test-command");
    assert_eq!(deserialized["created_at"], 1234567890u64);
}

#[test]
fn test_spawn_params_deserialization() {
    let json_data = obj(vec![
        ("command", text("bash")),
        ("args", JsonValue::Arr(vec![text("-c"), text("echo hello")])),
        ("working_directory", text("/tmp")),
        ("title", text("Test Terminal")),
    ]);

    let params = parse_spawn_params(&json_data).unwrap();

    assert_eq!(params.command, Some("bash".to_string()));
    assert_eq!(params.args, Some(vec!["-c".to_string(), "echo hello".to_string()]));
    assert_eq!(params.working_directory, Some("/tmp".to_string()));
    assert_eq!(params.title, Some("Test Terminal".to_string()));
}

#[test]
fn test_spawn_params_minimal() {
    let json_data = obj(vec![]);

    let params = parse_spawn_params(&json_data).unwrap();

    assert_eq!(params.command, None);
    assert_eq!(params.args, None);
    assert_eq!(params.working_directory, None);
    assert_eq!(params.title, None);
}

#[test]
fn test_send_keys_params() {
    let json_data = obj(vec![("instance_id", text("test-id")), ("keys", text("ctrl+c"))]);

    let params = parse_send_keys_params(&json_data).unwrap();

    assert_eq!(params.instance_id, "test-id");
    assert_eq!(params.keys, "ctrl+c");
}

#[test]
fn test_screenshot_params() {
    let json_data = obj(vec![("instance_id", text("test-id")), ("format", text("text"))]);

    let params = parse_screenshot_params(&json_data).unwrap();

    assert_eq!(params.instance_id, "test-id");
    assert_eq!(params.format, Some("text".to_string()));
}

#[test]
fn test_screenshot_params_default_format() {
    let json_data = obj(vec![("instance_id", text("test-id"))]);

    let params = parse_screenshot_params(&json_data).unwrap();

    assert_eq!(params.instance_id, "test-id");
    assert_eq!(params.format, None);
}

#[test]
fn test_json_rpc_request_deserialization() {
    let request_text =
        r#"{"jsonrpc": "2.0", "method": "test_method", "params": {"key": "value"}, "id": 42}"#;

    let doc = alacritty_mcp::json::parse_json(request_text).unwrap();
    let request = alacritty_mcp::mcp_server::decode_request(&doc).unwrap();

    assert_eq!(request.jsonrpc, "2.0");
    assert_eq!(request.method, "test_method");
    assert!(request.params.is_some());
    let id_text = alacritty_mcp::json::to_text(&request.id.unwrap());
    assert_eq!(id_text, "42");
}

#[test]
fn test_json_rpc_response_serialization() {
    let response = JsonRpcResponse {
        jsonrpc: "2.0".to_string(),
        result: Some(obj(vec![("success", JsonValue::Bool(true))])),
        error: None,
        id: Some(JsonValue::Num("1".to_string())),
    };

    let json_str = render_response(&response);
    let parsed: serde_json::Value = serde_json::from_str(&json_str).unwrap();

    assert_eq!(parsed["jsonrpc"], "2.0");
    assert_eq!(parsed["result"]["success"], true);
    assert!(parsed["error"].is_null());
    assert_eq!(parsed["id"], 1);
}

#[test]
fn test_json_rpc_error_response() {
    let error = JsonRpcError {
        code: -32601,
        message: "Method not found".to_string(),
        data: None,
    };

    let response = JsonRpcResponse {
        jsonrpc: "2.0".to_string(),
        result: None,
        error: Some(error),
        id: Some(JsonValue::Num("1".to_string())),
    };

    let json_str = render_response(&response);
    let parsed: serde_json::Value = serde_json::from_str(&json_str).unwrap();

    assert_eq!(parsed["jsonrpc"], "2.0");
    assert!(parsed["result"].is_null());
    assert_eq!(parsed["error"]["code"], -32601);
    assert_eq!(parsed["error"]["message"], "Method not found");
    assert_eq!(parsed["id"], 1);
}

#[test]
fn test_base64_encoding() {
    // Test our custom base64 implementation
    let test_data = b"Hello, World!";
    let encoded = base64::encode(test_data);

    // This should match the standard base64 encoding
    assert_eq!(encoded, "SGVsbG8sIFdvcmxkIQ==");

    let empty_data = b"";
    let encoded_empty = base64::encode(empty_data);
    assert_eq!(encoded_empty, "");

    let single_byte = b"A";
    let encoded_single = base64::encode(single_byte);
    assert_eq!(encoded_single, "QQ==");
}
