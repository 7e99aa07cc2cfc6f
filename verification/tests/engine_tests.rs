use datalens_mcp::config::AppConfig;
use datalens_mcp::engine::{
    build_request, classify_parsed, classify_response, legacy_auth_header, parse_response_data,
    response_data_from, rpc_url, transport_failure, RpcRequest,
};
use datalens_mcp::json::{JsonNumber, JsonObject, JsonValue};
use datalens_mcp::outcome::{
    CallOutcome, ErrorCategory, MissingSetting, RequestError, ToolError,
};
use datalens_mcp::args::ListDirectoryArgs;
use datalens_mcp::tools::datalens_list_directory;

fn test_config(base_url: &str) -> AppConfig {
    AppConfig {
        base_url: base_url.to_owned(),
        api_version: "0".to_owned(),
        org_id: Some("org-123".to_owned()),
        subject_token: Some("token-abc".to_owned()),
        timeout_seconds: 5,
    }
}

fn text(s: &str) -> JsonValue {
    JsonValue::String(s.to_owned())
}

fn object(entries: Vec<(&str, JsonValue)>) -> JsonObject {
    JsonObject { entries: entries.into_iter().map(|(k, v)| (k.to_owned(), v)).collect() }
}

fn header<'a>(request: &'a RpcRequest, name: &str) -> Option<&'a str> {
    request.headers.iter().find(|(n, _)| n == name).map(|(_, v)| v.as_str())
}

#[test]
fn parse_response_data_returns_json_when_valid() {
    let value = parse_response_data(r#"{"ok":true,"n":1}"#);
    let JsonValue::Object(read) = value else {
        panic!("the body is an object");
    };
    assert_eq!(read.entries.len(), 2);
    assert_eq!(read.get("ok"), Some(&JsonValue::Bool(true)));
    assert_eq!(read.get("n"), Some(&JsonValue::Number(JsonNumber { literal: "1".to_owned() })));
}

#[test]
fn parse_response_data_falls_back_on_the_text() {
    assert_eq!(parse_response_data("Bad Gateway"), text("Bad Gateway"));
    assert_eq!(parse_response_data(""), text(""));
    let long = "x".repeat(2500);
    let JsonValue::String(kept) = parse_response_data(&long) else {
        panic!("the body is no JSON");
    };
    assert_eq!(kept, format!("{}...(truncated)", "x".repeat(2000)));
}

#[test]
fn response_data_from_prefers_what_was_parsed() {
    assert_eq!(response_data_from("ignored", Ok(JsonValue::Null)), JsonValue::Null);
    assert_eq!(response_data_from("raw", Err("bad".to_owned())), text("raw"));
}

#[test]
fn call_rpc_validates_payload_object() {
    let cfg = test_config("http://127.0.0.1");
    let err = match build_request(
        &cfg,
        "listDirectory",
        JsonValue::Array(vec![text("not-an-object")]),
    ) {
        Ok(_) => panic!("must reject non-object payload"),
        Err(err) => err,
    };
    assert_eq!(err.into_tool_error().message, "payload must be a JSON object");
}

#[test]
fn call_rpc_sends_expected_request_shape() {
    let cfg = test_config("http://127.0.0.1:8080");
    let mut payload = JsonObject::new();
    payload.insert("path".to_owned(), text("/"));
    let request = build_request(&cfg, "listDirectory", JsonValue::Object(payload))
        .expect("request must succeed");
    assert_eq!(request.url, "http://127.0.0.1:8080/rpc/listDirectory");
    assert_eq!(header(&request, "accept"), Some("application/json"));
    assert_eq!(header(&request, "content-type"), Some("application/json"));
    assert_eq!(header(&request, "x-dl-api-version"), Some("0"));
    assert_eq!(header(&request, "x-dl-org-id"), Some("org-123"));
    assert_eq!(header(&request, "x-yacloud-subjecttoken"), Some("token-abc"));
    assert_eq!(header(&request, "x-dl-auth-token"), Some("OAuth token-abc"));
    assert_eq!(request.headers.len(), 6);
    assert_eq!(request.body, object(vec![("path", text("/"))]));
    assert_eq!(request.timeout_seconds, 5);

    let outcome = classify_response("listDirectory", 200, "{\"entries\": []}");
    assert_eq!(
        outcome,
        CallOutcome::ObjectSuccess(object(vec![("entries", JsonValue::Array(vec![]))]))
    );
}

#[test]
fn list_directory_without_arguments_posts_the_root_path() {
    let args = ListDirectoryArgs::from_arguments(&JsonObject::new()).expect("no field is required");
    let call = datalens_list_directory(args);
    assert_eq!(call.method, "listDirectory");
    let cfg = test_config("https://api.datalens.tech/");
    let request = build_request(&cfg, &call.method, call.payload).expect("the request is complete");
    assert_eq!(request.url, "https://api.datalens.tech/rpc/listDirectory");
    assert_eq!(request.body, object(vec![("path", text("/"))]));
    assert_eq!(header(&request, "x-dl-org-id"), Some("org-123"));
    let outcome = classify_response(&call.method, 200, "{\"entries\": []}");
    assert_eq!(
        outcome.into_result(),
        Ok(object(vec![("entries", JsonValue::Array(vec![]))]))
    );
}

#[test]
fn missing_organization_id_is_a_configuration_error() {
    let mut cfg = test_config("http://127.0.0.1");
    cfg.org_id = None;
    let error = build_request(&cfg, "getDataset", JsonValue::Object(JsonObject::new()))
        .expect_err("nothing may be sent");
    assert_eq!(
        error,
        RequestError::Configuration {
            method: "getDataset".to_owned(),
            missing: MissingSetting::OrganizationId,
        }
    );
    let report = error.into_tool_error();
    assert_eq!(report.category, ErrorCategory::Configuration);
    assert_eq!(report.message, "DATALENS_ORG_ID environment variable is required");
    assert_eq!(report.detail, object(vec![("method", text("getDataset"))]));
}

#[test]
fn missing_credential_is_a_configuration_error() {
    let mut cfg = test_config("http://127.0.0.1");
    cfg.subject_token = None;
    let error = build_request(&cfg, "getDataset", JsonValue::Object(JsonObject::new()))
        .expect_err("nothing may be sent");
    assert_eq!(
        error,
        RequestError::Configuration {
            method: "getDataset".to_owned(),
            missing: MissingSetting::Credential,
        }
    );
    assert_eq!(
        error.into_tool_error().message,
        "YC_IAM_TOKEN (or DATALENS_IAM_TOKEN) environment variable is required"
    );
}

#[test]
fn the_organization_id_is_checked_before_the_credential() {
    let mut cfg = test_config("http://127.0.0.1");
    cfg.org_id = None;
    cfg.subject_token = None;
    let error = build_request(&cfg, "m", JsonValue::Object(JsonObject::new())).unwrap_err();
    assert_eq!(
        error,
        RequestError::Configuration { method: "m".to_owned(), missing: MissingSetting::OrganizationId }
    );
    let error = build_request(&cfg, "m", JsonValue::Null).unwrap_err();
    assert!(matches!(error, RequestError::InvalidArguments { .. }));
}

#[test]
fn a_header_value_with_a_line_break_is_refused() {
    let mut cfg = test_config("http://127.0.0.1");
    cfg.subject_token = Some("token\nabc".to_owned());
    let error = build_request(&cfg, "getDataset", JsonValue::Object(JsonObject::new())).unwrap_err();
    assert_eq!(
        error,
        RequestError::InvalidArguments {
            method: "getDataset".to_owned(),
            message: "invalid header value for `x-yacloud-subjecttoken`: failed to parse header value"
                .to_owned(),
        }
    );
    cfg.subject_token = Some("token-abc".to_owned());
    cfg.org_id = Some("org\u{7f}".to_owned());
    let error = build_request(&cfg, "getDataset", JsonValue::Object(JsonObject::new())).unwrap_err();
    assert_eq!(
        error.into_tool_error().message,
        "invalid header value for `x-dl-org-id`: failed to parse header value"
    );
    cfg.org_id = Some("org-123".to_owned());
    cfg.api_version = "\u{0}".to_owned();
    let error = build_request(&cfg, "getDataset", JsonValue::Object(JsonObject::new())).unwrap_err();
    assert_eq!(
        error.into_tool_error().message,
        "invalid header value for `x-dl-api-version`: failed to parse header value"
    );
}

#[test]
fn a_header_value_may_hold_tabs_and_letters_beyond_ascii() {
    let mut cfg = test_config("http://127.0.0.1");
    cfg.org_id = Some("org\t\u{e9}\u{1F642}".to_owned());
    let request = build_request(&cfg, "getDataset", JsonValue::Object(JsonObject::new()))
        .expect("every byte may stand in a header");
    assert_eq!(header(&request, "x-dl-org-id"), Some("org\t\u{e9}\u{1F642}"));
}

#[test]
fn legacy_auth_header_prefixes_once() {
    assert_eq!(legacy_auth_header("abc"), "OAuth abc");
    assert_eq!(legacy_auth_header("OAuth abc"), "OAuth abc");
    assert_eq!(legacy_auth_header(&legacy_auth_header("abc")), "OAuth abc");
    assert_eq!(legacy_auth_header("oauth abc"), "OAuth oauth abc");
    assert_eq!(legacy_auth_header("OAuth"), "OAuth OAuth");
    assert_eq!(legacy_auth_header(""), "OAuth ");
    assert_eq!(legacy_auth_header("OAuth "), "OAuth ");
}

#[test]
fn rpc_url_strips_trailing_slashes() {
    assert_eq!(rpc_url("https://api.datalens.tech", "getDataset"), "https://api.datalens.tech/rpc/getDataset");
    assert_eq!(rpc_url("https://api.datalens.tech/", "getDataset"), "https://api.datalens.tech/rpc/getDataset");
    assert_eq!(rpc_url("https://api.datalens.tech//", "x"), "https://api.datalens.tech/rpc/x");
}

#[test]
fn an_error_status_yields_an_upstream_error_with_the_parsed_body() {
    let outcome = classify_response("getDataset", 500, "{\"error\":\"boom\"}");
    assert_eq!(
        outcome,
        CallOutcome::UpstreamError {
            method: "getDataset".to_owned(),
            status: 500,
            detail: JsonValue::Object(object(vec![("error", text("boom"))])),
        }
    );
    let report = outcome.into_result().expect_err("an upstream error is a failure");
    assert_eq!(report.category, ErrorCategory::Upstream);
    assert_eq!(
        report.message,
        "DataLens API returned 500 Internal Server Error for method getDataset"
    );
    assert_eq!(report.detail.get("method"), Some(&text("getDataset")));
    assert_eq!(
        report.detail.get("status"),
        Some(&JsonValue::Number(JsonNumber { literal: "500".to_owned() }))
    );
    assert_eq!(
        report.detail.get("response"),
        Some(&JsonValue::Object(object(vec![("error", text("boom"))])))
    );
    assert_eq!(report.detail.entries.len(), 3);
}

#[test]
fn an_error_status_with_a_text_body_keeps_the_text() {
    let outcome = classify_response("getDataset", 404, "not found");
    assert_eq!(
        outcome,
        CallOutcome::UpstreamError {
            method: "getDataset".to_owned(),
            status: 404,
            detail: text("not found"),
        }
    );
    let outcome = classify_response("getDataset", 302, "");
    assert_eq!(
        outcome,
        CallOutcome::UpstreamError { method: "getDataset".to_owned(), status: 302, detail: text("") }
    );
    let outcome = classify_response("getDataset", 199, "{}");
    assert!(matches!(outcome, CallOutcome::UpstreamError { status: 199, .. }));
    let outcome = classify_response("getDataset", 300, "{}");
    assert!(matches!(outcome, CallOutcome::UpstreamError { status: 300, .. }));
}

#[test]
fn a_blank_body_is_an_empty_success() {
    assert_eq!(classify_response("m", 200, ""), CallOutcome::EmptySuccess);
    assert_eq!(classify_response("m", 204, " \r\n\t "), CallOutcome::EmptySuccess);
    assert_eq!(classify_response("m", 299, "\u{a0}"), CallOutcome::EmptySuccess);
    assert_eq!(CallOutcome::EmptySuccess.into_result(), Ok(JsonObject::new()));
}

#[test]
fn a_body_that_is_no_object_is_a_decode_error() {
    let outcome = classify_response("m", 200, "[1, 2]");
    assert_eq!(
        outcome,
        CallOutcome::DecodeError {
            method: "m".to_owned(),
            cause: "the response is not a JSON object".to_owned(),
            body: "[1, 2]".to_owned(),
        }
    );
    let report = outcome.into_result().unwrap_err();
    assert_eq!(report.category, ErrorCategory::Decode);
    assert_eq!(
        report.message,
        "DataLens API returned invalid or non-object JSON: the response is not a JSON object"
    );
    assert_eq!(report.detail, object(vec![("method", text("m")), ("body", text("[1, 2]"))]));

    let outcome = classify_response("m", 200, "42");
    assert!(matches!(outcome, CallOutcome::DecodeError { .. }));
    let outcome = classify_response("m", 200, "<html>");
    let CallOutcome::DecodeError { method, cause, body } = outcome else {
        panic!("the body is no JSON");
    };
    assert_eq!(method, "m");
    assert!(!cause.is_empty());
    assert_eq!(body, "<html>");
}

#[test]
fn a_decode_error_carries_a_truncated_body() {
    let body = format!("<{}", "y".repeat(3000));
    let CallOutcome::DecodeError { body: kept, .. } = classify_response("m", 200, &body) else {
        panic!("the body is no JSON");
    };
    assert_eq!(kept, format!("<{}...(truncated)", "y".repeat(1999)));
}

#[test]
fn classify_parsed_goes_by_the_given_reading() {
    let parsed = Ok(JsonValue::Object(object(vec![("a", JsonValue::Null)])));
    assert_eq!(
        classify_parsed("m", 200, "anything", parsed),
        CallOutcome::ObjectSuccess(object(vec![("a", JsonValue::Null)]))
    );
    assert_eq!(
        classify_parsed("m", 200, "anything", Err("broken".to_owned())),
        CallOutcome::DecodeError {
            method: "m".to_owned(),
            cause: "broken".to_owned(),
            body: "anything".to_owned(),
        }
    );
    assert_eq!(classify_parsed("m", 200, "  ", Err("broken".to_owned())), CallOutcome::EmptySuccess);
    assert_eq!(
        classify_parsed("m", 503, "down", Err("broken".to_owned())),
        CallOutcome::UpstreamError { method: "m".to_owned(), status: 503, detail: text("down") }
    );
}

#[test]
fn a_transport_failure_carries_method_and_cause() {
    let outcome = transport_failure("getDataset", "connection refused");
    assert_eq!(
        outcome,
        CallOutcome::TransportError {
            method: "getDataset".to_owned(),
            cause: "connection refused".to_owned(),
        }
    );
    assert_eq!(
        outcome.into_result(),
        Err(ToolError {
            category: ErrorCategory::Transport,
            message: "failed to reach DataLens API: connection refused".to_owned(),
            detail: object(vec![("method", text("getDataset"))]),
        })
    );
}

#[test]
fn an_upstream_error_is_worded_with_the_given_status_line() {
    let outcome = CallOutcome::UpstreamError {
        method: "m".to_owned(),
        status: 418,
        detail: JsonValue::Null,
    };
    let report = outcome.into_result_with(Some("418 I'm a teapot".to_owned())).unwrap_err();
    assert_eq!(report.message, "DataLens API returned 418 I'm a teapot for method m");
    let outcome = CallOutcome::UpstreamError {
        method: "m".to_owned(),
        status: 42,
        detail: JsonValue::Null,
    };
    let report = outcome.into_result_with(None).unwrap_err();
    assert_eq!(report.message, "DataLens API returned 42 for method m");
    let outcome = CallOutcome::UpstreamError {
        method: "m".to_owned(),
        status: 42,
        detail: JsonValue::Null,
    };
    let report = outcome.into_result().unwrap_err();
    assert_eq!(report.message, "DataLens API returned 42 for method m");
    let outcome = CallOutcome::UpstreamError {
        method: "m".to_owned(),
        status: 404,
        detail: JsonValue::Null,
    };
    let report = outcome.into_result().unwrap_err();
    assert_eq!(report.message, "DataLens API returned 404 Not Found for method m");
}
