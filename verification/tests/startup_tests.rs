use datalens_mcp::startup::{error_chain_contains, startup_failure_message};

fn chain(messages: &[&str]) -> Vec<String> {
    messages.iter().map(|m| m.to_string()).collect()
}

#[test]
fn error_chain_contains_looks_at_every_cause() {
    let messages = chain(&["failed to serve", "connection closed: initialized request", "eof"]);
    assert!(error_chain_contains(&messages, "initialized request"));
    assert!(error_chain_contains(&messages, "connection closed"));
    assert!(error_chain_contains(&messages, "eof"));
    assert!(error_chain_contains(&messages, "failed"));
    assert!(!error_chain_contains(&messages, "timeout"));
    assert!(!error_chain_contains(&chain(&[]), "anything"));
    assert!(!error_chain_contains(&chain(&[]), ""));
    assert!(error_chain_contains(&chain(&["x"]), ""));
}

#[test]
fn startup_failure_message_tells_a_missing_client_apart() {
    let not_connected = "MCP client is not connected: this binary is a stdio MCP server and must be launched by an MCP host, not directly from a shell.";
    assert_eq!(
        startup_failure_message(&chain(&["serve failed", "connection closed: initialized request"])),
        not_connected
    );
    assert_eq!(
        startup_failure_message(&chain(&["expected initialized request, got ping"])),
        not_connected
    );
    assert_eq!(
        startup_failure_message(&chain(&["broken pipe"])),
        "failed to start MCP stdio service"
    );
    assert_eq!(startup_failure_message(&chain(&[])), "failed to start MCP stdio service");
}
