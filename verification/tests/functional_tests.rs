use alacritty_mcp::alacritty_manager::AlacrittyManager;
use alacritty_mcp::mcp_server::{Action, GatewayEvent, HandleOutcome, McpServer};

fn server() -> McpServer {
    McpServer::new(AlacrittyManager::new())
}

fn initialize(server: &mut McpServer) {
    let request = r#"{
        "jsonrpc": "2.0",
        "method": "initialize",
        "params": {
            "protocolVersion": "2024-11-05",
            "capabilities": {},
            "clientInfo": {"name": "functional-client", "version": "0.1"}
        },
        "id": 0
    }"#;
    match server.handle_request(request) {
        HandleOutcome::Response(text) => {
            let response: serde_json::Value = serde_json::from_str(&text).unwrap();
            assert!(response["error"].is_null());
        }
        HandleOutcome::Pending(_, _) => panic!("handshake needs no gateway work"),
    }
}

fn pend(server: &mut McpServer, request: &str) -> (alacritty_mcp::mcp_server::PendingInvoke, Action)
{
    match server.handle_request(request) {
        HandleOutcome::Pending(pending, action) => (pending, action),
        HandleOutcome::Response(text) => panic!("expected gateway work, got {}", text),
    }
}

fn spawn_instance(server: &mut McpServer, title: &str, pid: u32) -> String {
    let request = format!(
        r#"{{"jsonrpc":"2.0","method":"tools/call",
        "params":{{"name":"spawn_instance","arguments":{{"title":"{}"}}}},"id":1}}"#,
        title
    );
    let (pending, _) = pend(server, &request);
    let text = server.resume(pending, GatewayEvent::Launched { pid, timestamp: 1000 });
    let response: serde_json::Value = serde_json::from_str(&text).unwrap();
    let content = response["result"]["content"][0]["text"].as_str().unwrap();
    let entry: serde_json::Value =
        serde_json::from_str(content.split_once('\n').unwrap().1).unwrap();
    entry["id"].as_str().unwrap().to_string()
}

fn list_snapshot(server: &mut McpServer, live: Vec<u32>) -> String {
    let request = r#"{"jsonrpc":"2.0","method":"tools/call",
        "params":{"name":"list_instances","arguments":{}},"id":9}"#;
    let (pending, _) = pend(server, request);
    let text = server.resume(pending, GatewayEvent::Processes { live, procs: vec![] });
    let response: serde_json::Value = serde_json::from_str(&text).unwrap();
    response["result"]["content"][0]["text"].as_str().unwrap().to_string()
}

#[test]
fn test_spawn_with_custom_command() {
    let mut s = server();
    initialize(&mut s);

    let request = r#"{
        "jsonrpc": "2.0",
        "method": "tools/call",
        "params": {
            "name": "spawn_instance",
            "arguments": {
                "title": "custom-command-test",
                "command": "bash",
                "args": ["-c", "echo 'Custom command executed'; sleep 5"],
                "working_directory": "/tmp"
            }
        },
        "id": 2
    }"#;

    let (pending, action) = pend(&mut s, request);

    // The launch carries the whole argument list, in grammar order.
    let argv = match action {
        Action::Launch { argv } => argv,
        _ => panic!("a spawn asks for a launch"),
    };
    assert_eq!(argv[0], "--title");
    assert_eq!(argv[1], "custom-command-test");
    assert_eq!(argv[2], "--working-directory");
    assert_eq!(argv[3], "/tmp");
    assert_eq!(argv[4], "--command");
    assert_eq!(argv[5], "bash");
    assert_eq!(argv[6], "-c");
    assert_eq!(argv[7], "echo 'Custom command executed'; sleep 5");
    assert_eq!(argv[8], "--class");
    assert!(argv[9].starts_with("alacritty-mcp-"));

    let text = s.resume(pending, GatewayEvent::Launched { pid: 808, timestamp: 99 });
    let response: serde_json::Value = serde_json::from_str(&text).unwrap();
    assert!(response["error"].is_null());
    let content = response["result"]["content"][0]["text"].as_str().unwrap();
    assert!(content.contains("Spawned new Alacritty instance"));
}

#[test]
fn test_terminal_lifecycle_management() {
    let mut s = server();
    initialize(&mut s);

    assert!(list_snapshot(&mut s, vec![]).starts_with("Found 0 Alacritty instances"));

    let id1 = spawn_instance(&mut s, "lifecycle-test-1", 101);
    let id2 = spawn_instance(&mut s, "lifecycle-test-2", 102);
    let id3 = spawn_instance(&mut s, "lifecycle-test-3", 103);
    assert_ne!(id1, id2);
    assert_ne!(id2, id3);

    let all = list_snapshot(&mut s, vec![101, 102, 103]);
    assert!(all.starts_with("Found 3 Alacritty instances"));
    assert!(all.contains("lifecycle-test-1"));
    assert!(all.contains("lifecycle-test-2"));
    assert!(all.contains("lifecycle-test-3"));

    // Two of the processes exit; the next listing drops exactly those.
    let remaining = list_snapshot(&mut s, vec![102]);
    assert!(remaining.starts_with("Found 1 Alacritty instances"));
    assert!(!remaining.contains("lifecycle-test-1"));
    assert!(remaining.contains("lifecycle-test-2"));
    assert!(!remaining.contains("lifecycle-test-3"));
    assert!(remaining.contains(&id2));
}

#[test]
fn capture_reports_both_formats() {
    let mut s = server();
    initialize(&mut s);
    let id = spawn_instance(&mut s, "capture-me", 77);

    let text_request = format!(
        r#"{{"jsonrpc":"2.0","method":"tools/call",
        "params":{{"name":"screenshot_instance",
        "arguments":{{"instance_id":"{}"}}}},"id":3}}"#,
        id
    );
    let (pending, action) = pend(&mut s, &text_request);
    assert!(matches!(action, Action::Capture { image: false, pid: 77, .. }));
    let text = s.resume(pending, GatewayEvent::Captured { content: "prompt$".to_string() });
    let response: serde_json::Value = serde_json::from_str(&text).unwrap();
    let content = response["result"]["content"][0]["text"].as_str().unwrap();
    assert_eq!(content, format!("Screenshot text from instance {}:\nprompt$", id));

    let image_request = format!(
        r#"{{"jsonrpc":"2.0","method":"tools/call",
        "params":{{"name":"screenshot_instance",
        "arguments":{{"instance_id":"{}","format":"image"}}}},"id":4}}"#,
        id
    );
    let (pending, action) = pend(&mut s, &image_request);
    assert!(matches!(action, Action::Capture { image: true, .. }));
    let text = s.resume(
        pending,
        GatewayEvent::Captured { content: "data:image/png;base64,QQ==".to_string() },
    );
    let response: serde_json::Value = serde_json::from_str(&text).unwrap();
    let content = response["result"]["content"][0]["text"].as_str().unwrap();
    assert_eq!(
        content,
        format!("Screenshot image from instance {} (base64): data:image/png;base64,QQ==", id)
    );
}
