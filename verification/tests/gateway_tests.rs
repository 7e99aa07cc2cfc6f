use datalens_mcp::catalog::{datalens_list_methods, method_catalog};
use datalens_mcp::config::AppConfig;
use datalens_mcp::engine::{build_request, classify_response};
use datalens_mcp::gateway::{dispatch, ToolAction};
use datalens_mcp::json::{parse_json, JsonNumber, JsonObject, JsonValue};
use datalens_mcp::outcome::{ErrorCategory, RequestError};
use datalens_mcp::tools::RpcCall;

fn text(s: &str) -> JsonValue {
    JsonValue::String(s.to_owned())
}

fn object(entries: Vec<(&str, JsonValue)>) -> JsonObject {
    JsonObject { entries: entries.into_iter().map(|(k, v)| (k.to_owned(), v)).collect() }
}

fn arguments(json: &str) -> JsonObject {
    match parse_json(json) {
        Ok(JsonValue::Object(object)) => object,
        other => panic!("the arguments must be an object: {:?}", other),
    }
}

fn call(method: &str, payload: Vec<(&str, JsonValue)>) -> Result<ToolAction, RequestError> {
    Ok(ToolAction::Call(RpcCall {
        method: method.to_owned(),
        payload: JsonValue::Object(object(payload)),
    }))
}

fn refused(method: &str, message: &str) -> Result<ToolAction, RequestError> {
    Err(RequestError::InvalidArguments { method: method.to_owned(), message: message.to_owned() })
}

#[test]
fn dispatch_turns_a_tool_call_into_the_call_to_send() {
    assert_eq!(
        dispatch("datalens_list_directory", &JsonObject::new()),
        call("listDirectory", vec![("path", text("/"))])
    );
    assert_eq!(
        dispatch("datalens_get_dataset", &arguments("{\"datasetId\": \"ds-1\", \"revId\": \"r\"}")),
        call("getDataset", vec![("datasetId", text("ds-1")), ("rev_id", text("r"))])
    );
    assert_eq!(
        dispatch("datalens_get_ql_chart", &arguments("{\"chartId\": \"c\"}")),
        call("getQLChart", vec![("chartId", text("c"))])
    );
    assert_eq!(
        dispatch("datalens_delete_wizard_chart", &arguments("{\"chart_id\": \"c\"}")),
        call("deleteWizardChart", vec![("chartId", text("c"))])
    );
    assert_eq!(
        dispatch("datalens_update_dataset", &arguments("{\"dataset_id\": \"d\"}")),
        call(
            "updateDataset",
            vec![("datasetId", text("d")), ("data", JsonValue::Object(JsonObject::new()))]
        )
    );
}

#[test]
fn dispatch_reaches_every_tool_of_the_catalog() {
    let everything = arguments(
        "{\"datasetId\": \"d\", \"connectionId\": \"c\", \"dashboardId\": \"b\", \
         \"chartId\": \"h\", \"entryIds\": [\"e\"], \"entry\": {}, \"mode\": \"save\", \
         \"dataset\": {}, \"data\": {}, \"type\": \"t\", \"from\": \"2026-01-01\"}",
    );
    for item in method_catalog() {
        match dispatch(item.tool, &everything) {
            Ok(ToolAction::Call(call)) => {
                assert_eq!(call.method, item.method);
                assert!(matches!(call.payload, JsonValue::Object(_)));
            }
            other => panic!("{} must make a call: {:?}", item.tool, other),
        }
        match dispatch(item.tool, &JsonObject::new()) {
            Ok(ToolAction::Call(call)) => {
                assert!(item.tool == "datalens_list_directory" || item.tool == "datalens_get_entries");
                assert_eq!(call.method, item.method);
            }
            Err(RequestError::InvalidArguments { method, message }) => {
                assert_eq!(method, item.method);
                assert!(message.starts_with("missing field `"), "{}", message);
            }
            other => panic!("{} without arguments: {:?}", item.tool, other),
        }
    }
}

#[test]
fn dispatch_refuses_a_missing_required_field_before_any_call() {
    assert_eq!(
        dispatch("datalens_get_dataset", &JsonObject::new()),
        refused("getDataset", "missing field `dataset_id`")
    );
    assert_eq!(
        dispatch("datalens_get_dataset", &arguments("{\"workbookId\": \"w\"}")),
        refused("getDataset", "missing field `dataset_id`")
    );
    assert_eq!(
        dispatch("datalens_update_connection", &arguments("{\"connectionId\": \"c\"}")),
        refused("updateConnection", "missing field `data`")
    );
    assert_eq!(
        dispatch("datalens_rpc", &JsonObject::new()),
        refused("datalens_rpc", "missing field `method`")
    );
    assert_eq!(
        dispatch("datalens_get_method_schema", &JsonObject::new()),
        refused("datalens_get_method_schema", "missing field `method`")
    );
    let error = dispatch("datalens_get_dataset", &JsonObject::new()).unwrap_err().into_tool_error();
    assert_eq!(error.category, ErrorCategory::InvalidArguments);
    assert_eq!(error.detail, object(vec![("method", text("getDataset"))]));
}

#[test]
fn dispatch_refuses_wrong_types_and_broken_json() {
    assert_eq!(
        dispatch("datalens_get_entries", &arguments("{\"page\": \"one\"}")),
        refused("getEntries", "invalid type for field `page`: expected a number")
    );
    let Err(RequestError::InvalidArguments { method, message }) =
        dispatch("datalens_create_dashboard", &arguments("{\"entry\": \"{\", \"mode\": \"save\"}"))
    else {
        panic!("the entry looks like JSON and is none");
    };
    assert_eq!(method, "createDashboard");
    assert!(message.starts_with("invalid JSON in field `entry`: "), "{}", message);
}

#[test]
fn dispatch_of_the_generic_tool_takes_method_and_payload_from_the_arguments() {
    assert_eq!(
        dispatch(
            "datalens_rpc",
            &object(vec![("method", text("listDirectory")), ("payload", text("{\"path\":\"/\"}"))])
        ),
        call("listDirectory", vec![("path", text("/"))])
    );
    assert_eq!(
        dispatch("datalens_rpc", &object(vec![("method", text("getEntries"))])),
        call("getEntries", vec![])
    );
    assert_eq!(
        dispatch(
            "datalens_rpc",
            &object(vec![("method", text("anything")), ("payload", text("plain-text"))])
        ),
        Ok(ToolAction::Call(RpcCall { method: "anything".to_owned(), payload: text("plain-text") }))
    );
}

#[test]
fn dispatch_answers_catalog_queries_at_once() {
    assert_eq!(
        dispatch("datalens_list_methods", &JsonObject::new()),
        Ok(ToolAction::Answer(datalens_list_methods()))
    );
    assert_eq!(
        dispatch("datalens_list_methods", &arguments("{\"ignored\": 1}")),
        Ok(ToolAction::Answer(datalens_list_methods()))
    );
    assert_eq!(
        dispatch("datalens_get_method_schema", &arguments("{\"method\": \"GETDATASET\"}")),
        Ok(ToolAction::Answer(object(vec![
            ("method", text("getDataset")),
            ("mcpTool", text("datalens_get_dataset")),
            ("category", text("read")),
            ("experimental", JsonValue::Bool(false)),
        ])))
    );
    assert_eq!(
        dispatch("datalens_get_method_schema", &arguments("{\"method\": \"nope\"}")),
        refused(
            "nope",
            "unknown method `nope`: call datalens_list_methods to see the methods that this server knows"
        )
    );
}

#[test]
fn dispatch_refuses_a_tool_that_does_not_exist() {
    assert_eq!(
        dispatch("datalens_drop_everything", &JsonObject::new()),
        refused("datalens_drop_everything", "unknown tool `datalens_drop_everything`")
    );
    assert_eq!(dispatch("", &JsonObject::new()), refused("", "unknown tool ``"));
    assert_eq!(
        dispatch("DATALENS_RPC", &JsonObject::new()),
        refused("DATALENS_RPC", "unknown tool `DATALENS_RPC`")
    );
}

#[test]
fn a_dispatched_call_runs_through_the_engine() {
    let cfg = AppConfig {
        base_url: "https://api.datalens.tech/".to_owned(),
        api_version: "0".to_owned(),
        org_id: Some("org-123".to_owned()),
        subject_token: Some("OAuth token-abc".to_owned()),
        timeout_seconds: 30,
    };
    let Ok(ToolAction::Call(call)) =
        dispatch("datalens_get_entries", &arguments("{\"page\": 1, \"tenant\": \"t\"}"))
    else {
        panic!("nothing is required");
    };
    let request = build_request(&cfg, &call.method, call.payload).expect("the request is complete");
    assert_eq!(request.url, "https://api.datalens.tech/rpc/getEntries");
    assert_eq!(request.headers[5], ("x-dl-auth-token".to_owned(), "OAuth token-abc".to_owned()));
    assert_eq!(
        request.body.get("page"),
        Some(&JsonValue::Number(JsonNumber { literal: "1".to_owned() }))
    );
    assert_eq!(request.body.get("tenant"), Some(&text("t")));
    let report = classify_response(&call.method, 200, "{\"entries\": [], \"hasNextPage\": false}")
        .into_result()
        .expect("the answer is an object");
    assert_eq!(report.get("hasNextPage"), Some(&JsonValue::Bool(false)));
}
