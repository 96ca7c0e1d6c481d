//! Tick transitions for successful, failed, and disconnected requests.

use stellar_tui::app::{App, PollOutcome};
use stellar_tui::rpc::types::RpcError;
use stellar_tui::settings::Settings;

#[test]
fn tick_handles_success_response_and_sets_completed_status() {
    let mut app = App::new(Settings::default_settings());
    app.pending_request = true;
    app.status = "Calling...".to_string();

    let formatted = "{\n  \"jsonrpc\": \"2.0\",\n  \"id\": 1,\n  \"result\": {\n    \"ok\": true\n  }\n}";
    app.tick(PollOutcome::Received {
        error: None,
        formatted: formatted.to_string(),
    });

    assert!(!app.pending_request);
    assert_eq!(app.status, "Ready");
    assert_eq!(
        app.timed_status
            .as_ref()
            .expect("timed status should be set")
            .message,
        "Completed"
    );
    assert!(app.last_response.contains("\"ok\": true"));
    assert!(app.paginated_response.is_some());
}

#[test]
fn tick_handles_rpc_error_payload() {
    let mut app = App::new(Settings::default_settings());
    app.pending_request = true;

    let formatted = "{\n  \"jsonrpc\": \"2.0\",\n  \"id\": 1,\n  \"error\": {\n    \"code\": -32602,\n    \"message\": \"Invalid params\"\n  }\n}";
    app.tick(PollOutcome::Received {
        error: Some(RpcError {
            code: -32602,
            message: "Invalid params".to_string(),
        }),
        formatted: formatted.to_string(),
    });

    assert_eq!(app.status, "Ready");
    assert!(app
        .timed_status
        .as_ref()
        .expect("timed status should be set")
        .message
        .contains("Error -32602: Invalid params"));
    assert!(app.last_response.contains("Invalid params"));
}

#[test]
fn tick_handles_request_transport_error_and_clears_response_state() {
    let mut app = App::new(Settings::default_settings());
    app.pending_request = true;
    app.last_response = "previous response".to_string();
    app.response_search_query = "prev".to_string();
    app.response_search_matches = vec![0];
    app.response_page = 2;
    app.response_scroll = 5;

    app.tick(PollOutcome::Failed("network down".to_string()));

    assert!(!app.pending_request);
    assert_eq!(app.status, "Ready");
    assert!(app.last_response.is_empty());
    assert!(app.response_search_query.is_empty());
    assert!(app.response_search_matches.is_empty());
    assert_eq!(app.response_page, 0);
    assert_eq!(app.response_scroll, 0);
    assert!(app
        .timed_status
        .as_ref()
        .expect("timed status should be set")
        .message
        .contains("Request failed: network down"));
}

#[test]
fn tick_handles_disconnected_channel() {
    let mut app = App::new(Settings::default_settings());
    app.pending_request = true;

    app.tick(PollOutcome::Disconnected);

    assert!(!app.pending_request);
    assert_eq!(app.status, "Ready");
    assert_eq!(
        app.timed_status
            .as_ref()
            .expect("timed status should be set")
            .message,
        "Request failed: channel closed"
    );
}
