use llmrc::dispatch::{
    dispatch_request, extract_body, generate_id, handle_chat_completion, handle_request,
    parse_request_tokens, request_first_line, select_route, ChatReply, RequestOutcome, Route,
    chat_id, select_chat_reply,
};

fn status_of(outcome: &RequestOutcome) -> u16 {
    match outcome {
        RequestOutcome::Reply { status, .. } => *status,
        RequestOutcome::ReplyThenStop { status, .. } => *status,
    }
}

fn body_of(outcome: &RequestOutcome) -> String {
    let response = match outcome {
        RequestOutcome::Reply { response, .. } => response,
        RequestOutcome::ReplyThenStop { response, .. } => response,
    };
    let pos = response.find("\r\n\r\n").expect("header separator");
    response[pos + 4..].to_string()
}

#[test]
fn test_request_line_parsing() {
    assert_eq!(request_first_line("GET /health HTTP/1.1\r\nHost: x\r\n\r\n"), "GET /health HTTP/1.1");
    assert_eq!(request_first_line("abc"), "abc");
    assert_eq!(request_first_line(""), "");
    let (method, path) = parse_request_tokens("GET /health HTTP/1.1").unwrap();
    assert_eq!(method, "GET");
    assert_eq!(path, "/health");
    assert!(parse_request_tokens("GET").is_none());
    assert!(parse_request_tokens("   ").is_none());
    assert!(parse_request_tokens("").is_none());
}

#[test]
fn test_route_table() {
    assert_eq!(select_route("GET", "/health"), Route::Health);
    assert_eq!(select_route("GET", "/v1/models"), Route::Models);
    assert_eq!(select_route("POST", "/v1/chat/completions"), Route::Chat);
    assert_eq!(select_route("POST", "/stop"), Route::Stop);
    assert_eq!(select_route("GET", "/stop"), Route::Stop);
    assert_eq!(select_route("GET", "/shutdown"), Route::Shutdown);
    assert_eq!(select_route("PUT", "/stop"), Route::NotFound);
    assert_eq!(select_route("POST", "/health"), Route::NotFound);
    assert_eq!(select_route("GET", "/nope"), Route::NotFound);
}

#[test]
fn test_health_scenario() {
    let outcome = dispatch_request("GET /health HTTP/1.1\r\nHost: localhost\r\n\r\n", 1, 2);
    assert_eq!(status_of(&outcome), 200);
    let body = body_of(&outcome);
    assert_eq!(body, "{\"status\": \"ok\", \"message\": \"LLM API Server is running\"}");
    let parsed: serde_json::Value = serde_json::from_str(&body).unwrap();
    assert_eq!(parsed["status"], "ok");
}

#[test]
fn test_chat_hello_scenario() {
    let req = "POST /v1/chat/completions HTTP/1.1\r\nContent-Type: application/json\r\n\r\n{\"messages\":[{\"role\":\"user\",\"content\":\"hello\"}]}";
    let outcome = dispatch_request(req, 1700000000, 123456);
    assert_eq!(status_of(&outcome), 200);
    let body = body_of(&outcome);
    let parsed: serde_json::Value = serde_json::from_str(&body).unwrap();
    let content = parsed["choices"][0]["message"]["content"].as_str().unwrap();
    assert!(!content.is_empty());
    assert!(content.contains("Hello"));
    assert_eq!(parsed["id"], "chatcmpl-chat-123456");
    assert_eq!(parsed["created"], 1700000000);
}

#[test]
fn test_not_found_scenario() {
    let outcome = dispatch_request("GET /nope HTTP/1.1\r\n\r\n", 1, 2);
    assert_eq!(status_of(&outcome), 404);
    assert_eq!(body_of(&outcome), "{\"error\": \"Not found\"}");
}

#[test]
fn test_chat_valid_json_always_ok() {
    for body in [
        "{}",
        "{\"messages\": []}",
        "[1, 2, 3]",
        "{\"text\": \"tell me about config\"}",
        "\"just a string\"",
    ] {
        let req = format!("POST /v1/chat/completions HTTP/1.1\r\n\r\n{}", body);
        let outcome = dispatch_request(&req, 7, 8);
        assert_eq!(status_of(&outcome), 200);
        let reply: serde_json::Value = serde_json::from_str(&body_of(&outcome)).unwrap();
        let content = reply["choices"][0]["message"]["content"].as_str().unwrap();
        assert!(!content.is_empty());
    }
}

#[test]
fn test_chat_empty_body_is_400() {
    let outcome = dispatch_request("POST /v1/chat/completions HTTP/1.1\r\n\r\n", 1, 2);
    assert_eq!(status_of(&outcome), 400);
    assert_eq!(body_of(&outcome), "{\"error\": \"Request body is empty\"}");
    let outcome = dispatch_request("POST /v1/chat/completions HTTP/1.1\r\n\r\n   \t  ", 1, 2);
    assert_eq!(status_of(&outcome), 400);
    let outcome = dispatch_request("POST /v1/chat/completions HTTP/1.1\r\nNoSeparator", 1, 2);
    assert_eq!(status_of(&outcome), 400);
    assert_eq!(body_of(&outcome), "{\"error\": \"Invalid request format\"}");
}

#[test]
fn test_chat_invalid_json_is_400() {
    let req = "POST /v1/chat/completions HTTP/1.1\r\n\r\nnot json at all";
    let outcome = dispatch_request(req, 1, 2);
    assert_eq!(status_of(&outcome), 400);
    assert_eq!(body_of(&outcome), "{\"error\": \"Invalid JSON format\"}");
    let req = "POST /v1/chat/completions HTTP/1.1\r\n\r\n{\"unterminated\": ";
    let outcome = dispatch_request(req, 1, 2);
    assert_eq!(status_of(&outcome), 400);
}

#[test]
fn test_chat_simulated_error_is_500() {
    let req = "POST /v1/chat/completions HTTP/1.1\r\n\r\n{\"content\": \"error\"}";
    let outcome = dispatch_request(req, 1, 2);
    assert_eq!(status_of(&outcome), 500);
    assert_eq!(
        body_of(&outcome),
        "{\"error\": \"Internal server error\", \"message\": \"Simulated processing error\"}"
    );
}

#[test]
fn test_fault_paths_forced_to_500() {
    for req in [
        "GET /v1/models/error HTTP/1.1\r\n\r\n",
        "POST /jobs/fail HTTP/1.1\r\n\r\n",
        "DELETE /error HTTP/1.1\r\n\r\n",
        "GET /health/fail HTTP/1.1\r\n\r\n",
    ] {
        let outcome = dispatch_request(req, 1, 2);
        assert_eq!(status_of(&outcome), 500);
        assert_eq!(
            body_of(&outcome),
            "{\"error\": \"Internal server error\", \"message\": \"Simulated server error\"}"
        );
    }
}

#[test]
fn test_stop_asks_for_termination() {
    let outcome = dispatch_request("POST /stop HTTP/1.1\r\n\r\n", 1234, 0);
    assert!(matches!(outcome, RequestOutcome::ReplyThenStop { status: 200, .. }));
    assert_eq!(
        body_of(&outcome),
        "{\"message\": \"Server shutdown initiated\", \"status\": \"stopping\", \"timestamp\": \"1234\"}"
    );
    let outcome = dispatch_request("GET /stop HTTP/1.1\r\n\r\n", 1234, 0);
    assert!(matches!(outcome, RequestOutcome::ReplyThenStop { .. }));
}

#[test]
fn test_shutdown_endpoint_is_informational() {
    let outcome = dispatch_request("GET /shutdown HTTP/1.1\r\n\r\n", 1, 2);
    assert!(matches!(outcome, RequestOutcome::Reply { status: 200, .. }));
    assert_eq!(
        body_of(&outcome),
        "{\"message\": \"Alternative shutdown endpoint triggered\", \"status\": \"stopping\", \"note\": \"Use /stop for primary shutdown\"}"
    );
}

#[test]
fn test_models_listing() {
    let outcome = dispatch_request("GET /v1/models HTTP/1.1\r\n\r\n", 1700000001, 0);
    assert_eq!(status_of(&outcome), 200);
    let parsed: serde_json::Value = serde_json::from_str(&body_of(&outcome)).unwrap();
    assert_eq!(parsed["object"], "list");
    assert_eq!(parsed["data"][0]["id"], "llm-rust");
    assert_eq!(parsed["data"][0]["created"], 1700000001);
}

#[test]
fn test_malformed_request_line_gets_400() {
    for req in ["", "GET\r\n\r\n", "   \r\n\r\n", "justoneword"] {
        let outcome = dispatch_request(req, 1, 2);
        assert!(matches!(outcome, RequestOutcome::Reply { status: 400, .. }));
        assert_eq!(body_of(&outcome), "{\"error\": \"Invalid request format\"}");
    }
}

#[test]
fn test_chat_reply_priority() {
    assert_eq!(select_chat_reply("Hello and error"), ChatReply::Greeting);
    assert_eq!(select_chat_reply("this one"), ChatReply::Greeting);
    assert_eq!(select_chat_reply("about config and error"), ChatReply::ConfigInfo);
    assert_eq!(select_chat_reply("an error case"), ChatReply::SimulatedFailure);
    assert_eq!(select_chat_reply("{\"messages\": []}"), ChatReply::Generic);
}

#[test]
fn test_extract_body() {
    assert_eq!(extract_body("a\r\n\r\nrest\r\n\r\nmore"), Some("rest\r\n\r\nmore".to_string()));
    assert_eq!(extract_body("no separator"), None);
    assert_eq!(extract_body("head\r\n\r\n"), Some("".to_string()));
}

#[test]
fn test_chat_identifiers() {
    assert_eq!(chat_id(123456789), "chat-456789");
    assert_eq!(chat_id(42), "chat-42");
    let id = generate_id();
    assert!(id.starts_with("chat-"));
    assert!(id.len() > 5);
}

#[test]
fn test_handle_chat_completion_direct() {
    let (response, status) = handle_chat_completion("{\"q\": \"hi\"}", 9, 9);
    assert_eq!(status, 200);
    assert!(response.starts_with("HTTP/1.1 200 OK\r\n"));
    let (response, status) = handle_chat_completion("{\"q\": \"error\"}", 9, 9);
    assert_eq!(status, 500);
    assert!(response.starts_with("HTTP/1.1 500 Internal Server Error\r\n"));
}

#[test]
fn test_handle_request_reads_clock() {
    let outcome = handle_request("GET /v1/models HTTP/1.1\r\n\r\n");
    assert_eq!(status_of(&outcome), 200);
    let parsed: serde_json::Value = serde_json::from_str(&body_of(&outcome)).unwrap();
    assert!(parsed["data"][0]["created"].as_u64().unwrap() > 0);
}
