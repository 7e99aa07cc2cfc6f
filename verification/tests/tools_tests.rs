use datalens_mcp::fields::{ArgumentError, Problem};
use datalens_mcp::engine::{build_request, classify_response};
use datalens_mcp::config::AppConfig;
use datalens_mcp::json::{parse_json, JsonNumber, JsonObject, JsonValue};
use datalens_mcp::outcome::{CallOutcome, RequestError};
use datalens_mcp::args::{
    default_root_path, empty_json_object, AuditEntriesUpdatesArgs, CreateConnectionArgs,
    CreateDashboardArgs, CreateDatasetArgs, CreateEditorChartArgs, DatalensRpcArgs,
    DeleteChartArgs, DeleteConnectionArgs, DeleteDashboardArgs, DeleteDatasetArgs,
    EntriesPermissionsArgs, GetChartArgs, GetConnectionArgs, GetDashboardArgs, GetDatasetArgs,
    GetEntriesArgs, GetEntriesRelationsArgs, ListDirectoryArgs, UpdateConnectionArgs,
    UpdateDashboardArgs, UpdateDatasetArgs, UpdateEditorChartArgs, ValidateDatasetArgs,
};
use datalens_mcp::tools::{
    build_get_chart_payload, datalens_create_connection, datalens_create_dashboard,
    datalens_create_dataset, datalens_create_editor_chart, datalens_delete_connection,
    datalens_delete_dashboard, datalens_delete_dataset, datalens_delete_editor_chart,
    datalens_delete_ql_chart, datalens_delete_wizard_chart, datalens_get_audit_entries_updates,
    datalens_get_connection, datalens_get_dashboard, datalens_get_dataset,
    datalens_get_editor_chart, datalens_get_entries, datalens_get_entries_permissions,
    datalens_get_entries_relations, datalens_get_ql_chart, datalens_get_wizard_chart,
    datalens_list_directory, datalens_rpc, datalens_update_connection,
    datalens_update_dashboard, datalens_update_dataset, datalens_update_editor_chart,
    datalens_validate_dataset, RpcCall,
};

fn text(s: &str) -> JsonValue {
    JsonValue::String(s.to_owned())
}

fn number(literal: &str) -> JsonValue {
    JsonValue::Number(JsonNumber { literal: literal.to_owned() })
}

fn object(entries: Vec<(&str, JsonValue)>) -> JsonObject {
    JsonObject { entries: entries.into_iter().map(|(k, v)| (k.to_owned(), v)).collect() }
}

fn arguments(json: &str) -> JsonObject {
    match parse_json(json) {
        Ok(JsonValue::Object(object)) => object,
        other => panic!("the arguments must be an object: {:?}", other),
    }
}

fn payload(call: &RpcCall) -> &JsonObject {
    match &call.payload {
        JsonValue::Object(object) => object,
        other => panic!("the payload must be an object: {:?}", other),
    }
}

/// The keys of an object, each once, in alphabetical order.
fn keys(object: &JsonObject) -> Vec<String> {
    let mut keys: Vec<String> = object.entries.iter().map(|(k, _)| k.clone()).collect();
    keys.sort();
    keys.dedup();
    keys
}

fn missing(field: &str) -> ArgumentError {
    ArgumentError { field: field.to_owned(), problem: Problem::Missing }
}

fn wrong_type(field: &str, expected: &'static str) -> ArgumentError {
    ArgumentError { field: field.to_owned(), problem: Problem::WrongType { expected } }
}

#[test]
fn get_dashboard_args_accept_legacy_include_permissions_info_alias() {
    let args = GetDashboardArgs::from_arguments(&object(vec![
        ("dashboardId", text("dash-1")),
        ("includePermissionsInfo", JsonValue::Bool(true)),
    ]))
    .expect("deserialization must succeed");

    assert_eq!(args.include_permissions, Some(true));
}

#[test]
fn datalens_get_dataset_uses_rev_id_as_rev_id_field() {
    let call = datalens_get_dataset(GetDatasetArgs {
        dataset_id: "ds-1".to_owned(),
        workbook_id: Some("wb-1".to_owned()),
        rev_id: Some("r-1".to_owned()),
        extra: JsonObject::new(),
    });
    assert_eq!(call.method, "getDataset");
    assert_eq!(
        call.payload,
        JsonValue::Object(object(vec![
            ("datasetId", text("ds-1")),
            ("workbookId", text("wb-1")),
            ("rev_id", text("r-1")),
        ]))
    );
    let outcome = classify_response(&call.method, 200, "{\"ok\": true}");
    assert_eq!(outcome, CallOutcome::ObjectSuccess(object(vec![("ok", JsonValue::Bool(true))])));
}

#[test]
fn datalens_create_dataset_calls_create_dataset_rpc_method() {
    let call = datalens_create_dataset(CreateDatasetArgs {
        dataset: JsonValue::Object(JsonObject::new()),
        created_via: None,
        dir_path: None,
        name: Some("my-dataset".to_owned()),
        options: None,
        preview: None,
        workbook_id: Some("wb-1".to_owned()),
        extra: JsonObject::new(),
    });
    assert_eq!(call.method, "createDataset");
    assert_eq!(
        call.payload,
        JsonValue::Object(object(vec![
            ("dataset", JsonValue::Object(JsonObject::new())),
            ("name", text("my-dataset")),
            ("workbook_id", text("wb-1")),
        ]))
    );
    let outcome = classify_response(&call.method, 200, "{\"datasetId\": \"ds-1\"}");
    assert_eq!(outcome, CallOutcome::ObjectSuccess(object(vec![("datasetId", text("ds-1"))])));
}

#[test]
fn a_missing_required_field_is_refused_by_every_tool() {
    let none = JsonObject::new();
    assert_eq!(DatalensRpcArgs::from_arguments(&none), Err(missing("method")));
    assert_eq!(GetDatasetArgs::from_arguments(&none), Err(missing("dataset_id")));
    assert_eq!(GetConnectionArgs::from_arguments(&none), Err(missing("connection_id")));
    assert_eq!(GetDashboardArgs::from_arguments(&none), Err(missing("dashboard_id")));
    assert_eq!(GetChartArgs::from_arguments(&none), Err(missing("chart_id")));
    assert_eq!(CreateConnectionArgs::from_arguments(&none), Err(missing("type")));
    assert_eq!(UpdateConnectionArgs::from_arguments(&none), Err(missing("connection_id")));
    assert_eq!(DeleteConnectionArgs::from_arguments(&none), Err(missing("connection_id")));
    assert_eq!(CreateDashboardArgs::from_arguments(&none), Err(missing("entry")));
    assert_eq!(UpdateDashboardArgs::from_arguments(&none), Err(missing("entry")));
    assert_eq!(DeleteDashboardArgs::from_arguments(&none), Err(missing("dashboard_id")));
    assert_eq!(CreateDatasetArgs::from_arguments(&none), Err(missing("dataset")));
    assert_eq!(UpdateDatasetArgs::from_arguments(&none), Err(missing("dataset_id")));
    assert_eq!(DeleteDatasetArgs::from_arguments(&none), Err(missing("dataset_id")));
    assert_eq!(ValidateDatasetArgs::from_arguments(&none), Err(missing("dataset_id")));
    assert_eq!(GetEntriesRelationsArgs::from_arguments(&none), Err(missing("entry_ids")));
    assert_eq!(DeleteChartArgs::from_arguments(&none), Err(missing("chart_id")));
    assert_eq!(CreateEditorChartArgs::from_arguments(&none), Err(missing("entry")));
    assert_eq!(UpdateEditorChartArgs::from_arguments(&none), Err(missing("entry")));
    assert_eq!(EntriesPermissionsArgs::from_arguments(&none), Err(missing("entry_ids")));
    assert_eq!(AuditEntriesUpdatesArgs::from_arguments(&none), Err(missing("from")));
}

#[test]
fn a_second_required_field_is_refused_when_the_first_is_there() {
    assert_eq!(
        UpdateConnectionArgs::from_arguments(&arguments("{\"connectionId\": \"c\"}")),
        Err(missing("data"))
    );
    assert_eq!(
        CreateDashboardArgs::from_arguments(&arguments("{\"entry\": {}}")),
        Err(missing("mode"))
    );
    assert_eq!(
        UpdateEditorChartArgs::from_arguments(&arguments("{\"entry\": {}}")),
        Err(missing("mode"))
    );
}

#[test]
fn a_refused_argument_becomes_an_invalid_arguments_error() {
    let error = GetDatasetArgs::from_arguments(&JsonObject::new()).unwrap_err();
    assert_eq!(error.message(), "missing field `dataset_id`");
    assert_eq!(
        error.into_request_error("getDataset"),
        RequestError::InvalidArguments {
            method: "getDataset".to_owned(),
            message: "missing field `dataset_id`".to_owned(),
        }
    );
    let error = wrong_type("page", "a number");
    assert_eq!(error.message(), "invalid type for field `page`: expected a number");
    let error = ArgumentError {
        field: "data".to_owned(),
        problem: Problem::InvalidJson { cause: "EOF".to_owned() },
    };
    assert_eq!(error.message(), "invalid JSON in field `data`: EOF");
}

#[test]
fn tools_without_required_fields_accept_no_arguments() {
    let none = JsonObject::new();
    let listing = ListDirectoryArgs::from_arguments(&none).expect("nothing is required");
    assert_eq!(listing.path, "/");
    assert_eq!(listing.page, None);
    assert_eq!(listing.extra, JsonObject::new());
    let entries = GetEntriesArgs::from_arguments(&none).expect("nothing is required");
    assert_eq!(payload(&datalens_get_entries(entries)), &JsonObject::new());
}

#[test]
fn a_field_is_read_under_its_own_name_before_its_alias() {
    let args = GetDatasetArgs::from_arguments(&arguments(
        "{\"datasetId\": \"alias\", \"dataset_id\": \"own\", \"revId\": \"r\"}",
    ))
    .expect("both names are known");
    assert_eq!(args.dataset_id, "own");
    assert_eq!(args.rev_id, Some("r".to_owned()));
    assert_eq!(args.extra, JsonObject::new());

    let args = GetDashboardArgs::from_arguments(&arguments(
        "{\"dashboard_id\": \"d\", \"includePermissionsInfo\": false, \"includePermissions\": true}",
    ))
    .expect("both aliases are known");
    assert_eq!(args.include_permissions, Some(true));
    let args = GetChartArgs::from_arguments(&arguments(
        "{\"chartId\": \"c\", \"include_permissions\": false, \"includePermissions\": true}",
    ))
    .expect("both names are known");
    assert_eq!(args.include_permissions, Some(false));
}

#[test]
fn unknown_fields_are_kept_and_known_names_are_not() {
    let args = GetDatasetArgs::from_arguments(&arguments(
        "{\"datasetId\": \"ds\", \"workbook_id\": null, \"custom\": [1], \"other\": {\"a\": 1}}",
    ))
    .expect("the required field is there");
    assert_eq!(args.workbook_id, None);
    assert_eq!(keys(&args.extra), vec!["custom", "other"]);
    assert_eq!(args.extra.get("custom"), Some(&JsonValue::Array(vec![number("1")])));
    let call = datalens_get_dataset(args);
    assert_eq!(keys(payload(&call)), vec!["custom", "datasetId", "other"]);
}

#[test]
fn a_kept_field_replaces_a_known_field_of_the_same_key() {
    let call = datalens_get_dataset(GetDatasetArgs {
        dataset_id: "typed".to_owned(),
        workbook_id: None,
        rev_id: None,
        extra: object(vec![("datasetId", text("override")), ("limit", number("5"))]),
    });
    assert_eq!(payload(&call).get("datasetId"), Some(&text("override")));
    assert_eq!(payload(&call).get("limit"), Some(&number("5")));
    assert_eq!(keys(payload(&call)), vec!["datasetId", "limit"]);

    let args = GetDatasetArgs::from_arguments(&arguments(
        "{\"dataset_id\": \"ds\", \"rev_id\": \"r1\", \"rev\": 2}",
    ))
    .unwrap();
    let call = datalens_get_dataset(args);
    assert_eq!(payload(&call).get("rev_id"), Some(&text("r1")));
    assert_eq!(payload(&call).get("rev"), Some(&number("2")));
}

#[test]
fn optional_fields_that_are_absent_or_null_are_left_out() {
    let args = GetConnectionArgs::from_arguments(&arguments(
        "{\"connectionId\": \"c-1\", \"workbookId\": null, \"bindedDatasetId\": \"b\"}",
    ))
    .unwrap();
    let call = datalens_get_connection(args);
    assert_eq!(call.method, "getConnection");
    assert_eq!(
        call.payload,
        JsonValue::Object(object(vec![("connectionId", text("c-1")), ("bindedDatasetId", text("b"))]))
    );
    let args = ListDirectoryArgs::from_arguments(&arguments(
        "{\"filters\": null, \"orderBy\": {\"field\": \"name\"}, \"page\": null}",
    ))
    .unwrap();
    assert_eq!(args.filters, None);
    assert_eq!(args.page, None);
    let call = datalens_list_directory(args);
    assert_eq!(keys(payload(&call)), vec!["orderBy", "path"]);
}

#[test]
fn fields_of_the_wrong_type_are_refused() {
    assert_eq!(
        GetDatasetArgs::from_arguments(&arguments("{\"datasetId\": 5}")),
        Err(wrong_type("dataset_id", "a string"))
    );
    assert_eq!(
        GetDatasetArgs::from_arguments(&arguments("{\"datasetId\": null}")),
        Err(wrong_type("dataset_id", "a string"))
    );
    assert_eq!(
        GetDatasetArgs::from_arguments(&arguments("{\"datasetId\": \"d\", \"workbookId\": true}")),
        Err(wrong_type("workbook_id", "a string"))
    );
    assert_eq!(
        ListDirectoryArgs::from_arguments(&arguments("{\"page\": \"1\"}")),
        Err(wrong_type("page", "a number"))
    );
    assert_eq!(
        ListDirectoryArgs::from_arguments(&arguments("{\"path\": 1, \"page\": \"1\"}")),
        Err(wrong_type("path", "a string"))
    );
    assert_eq!(
        GetEntriesArgs::from_arguments(&arguments("{\"excludeLocked\": \"yes\"}")),
        Err(wrong_type("exclude_locked", "a boolean"))
    );
    assert_eq!(
        EntriesPermissionsArgs::from_arguments(&arguments("{\"entryIds\": \"a\"}")),
        Err(wrong_type("entry_ids", "an array of strings"))
    );
    assert_eq!(
        EntriesPermissionsArgs::from_arguments(&arguments("{\"entryIds\": [\"a\", 1]}")),
        Err(wrong_type("entry_ids", "an array of strings"))
    );
}

#[test]
fn a_string_that_looks_like_json_is_read_as_json() {
    let args = DatalensRpcArgs::from_arguments(&object(vec![
        ("method", text("listDirectory")),
        ("payload", text("{\"path\":\"/\"}")),
    ]))
    .unwrap();
    assert_eq!(args.payload, JsonValue::Object(object(vec![("path", text("/"))])));
    let call = datalens_rpc(args);
    assert_eq!(call.method, "listDirectory");
    assert_eq!(call.payload, JsonValue::Object(object(vec![("path", text("/"))])));

    let args = DatalensRpcArgs::from_arguments(&object(vec![
        ("method", text("listDirectory")),
        ("payload", text("plain-text")),
    ]))
    .unwrap();
    assert_eq!(args.payload, text("plain-text"));

    let args = UpdateConnectionArgs::from_arguments(&object(vec![
        ("connectionId", text("c")),
        ("data", text("  [1, 2] \n")),
    ]))
    .unwrap();
    assert_eq!(args.data, JsonValue::Array(vec![number("1"), number("2")]));

    let args = CreateDatasetArgs::from_arguments(&object(vec![
        ("dataset", text(" { \"name\": \"n\" } ")),
        ("options", text("{\"a\": 1}")),
    ]))
    .unwrap();
    assert_eq!(args.dataset, JsonValue::Object(object(vec![("name", text("n"))])));
    assert_eq!(args.options, Some(text("{\"a\": 1}")));

    let args = CreateEditorChartArgs::from_arguments(&object(vec![("entry", text("{}"))])).unwrap();
    assert_eq!(args.entry, JsonValue::Object(JsonObject::new()));
    let args = CreateEditorChartArgs::from_arguments(&object(vec![("entry", text(""))])).unwrap();
    assert_eq!(args.entry, text(""));
    let args = CreateEditorChartArgs::from_arguments(&object(vec![("entry", text("x{}"))])).unwrap();
    assert_eq!(args.entry, text("x{}"));
    let args = CreateEditorChartArgs::from_arguments(&object(vec![("entry", number("1"))])).unwrap();
    assert_eq!(args.entry, number("1"));
}

#[test]
fn a_string_that_looks_like_json_and_is_none_is_refused() {
    let error = UpdateConnectionArgs::from_arguments(&object(vec![
        ("connectionId", text("c")),
        ("data", text("{\"a\": ")),
    ]))
    .expect_err("the string looks like JSON");
    assert_eq!(error.field, "data");
    assert!(matches!(error.problem, Problem::InvalidJson { .. }));
    assert!(error.message().starts_with("invalid JSON in field `data`: "));

    let error = UpdateDatasetArgs::from_arguments(&object(vec![
        ("datasetId", text("d")),
        ("data", text("[1,")),
    ]))
    .expect_err("the string looks like JSON");
    assert_eq!(error.field, "data");
    let error = DatalensRpcArgs::from_arguments(&object(vec![
        ("method", text("m")),
        ("payload", text("{oops}")),
    ]))
    .expect_err("the string looks like JSON");
    assert_eq!(error.field, "payload");
}

#[test]
fn datalens_rpc_defaults_to_the_empty_object() {
    let args = DatalensRpcArgs::from_arguments(&object(vec![("method", text("getEntries"))])).unwrap();
    assert_eq!(args.payload, JsonValue::Object(JsonObject::new()));
    let args = DatalensRpcArgs::from_arguments(&object(vec![
        ("method", text("getEntries")),
        ("payload", JsonValue::Null),
    ]))
    .unwrap();
    assert_eq!(args.payload, JsonValue::Object(JsonObject::new()));
    assert_eq!(empty_json_object(), JsonValue::Object(JsonObject::new()));
    assert_eq!(default_root_path(), "/");
}

#[test]
fn a_tool_call_without_organization_id_is_not_sent() {
    let cfg = AppConfig {
        base_url: "http://127.0.0.1".to_owned(),
        api_version: "0".to_owned(),
        org_id: None,
        subject_token: Some("token".to_owned()),
        timeout_seconds: 5,
    };
    let call = datalens_delete_dataset(DeleteDatasetArgs {
        dataset_id: "d".to_owned(),
        extra: JsonObject::new(),
    });
    let error = build_request(&cfg, &call.method, call.payload).expect_err("nothing may be sent");
    assert!(matches!(error, RequestError::Configuration { .. }));
}

#[test]
fn update_and_validate_dataset_default_data_to_the_empty_object() {
    let call = datalens_update_dataset(UpdateDatasetArgs {
        dataset_id: "d".to_owned(),
        data: None,
        extra: JsonObject::new(),
    });
    assert_eq!(call.method, "updateDataset");
    assert_eq!(
        call.payload,
        JsonValue::Object(object(vec![
            ("datasetId", text("d")),
            ("data", JsonValue::Object(JsonObject::new())),
        ]))
    );
    let call = datalens_update_dataset(UpdateDatasetArgs {
        dataset_id: "d".to_owned(),
        data: Some(number("1")),
        extra: JsonObject::new(),
    });
    assert_eq!(payload(&call).get("data"), Some(&number("1")));
    let call = datalens_validate_dataset(ValidateDatasetArgs {
        dataset_id: "d".to_owned(),
        workbook_id: Some("w".to_owned()),
        data: None,
        extra: JsonObject::new(),
    });
    assert_eq!(call.method, "validateDataset");
    assert_eq!(
        call.payload,
        JsonValue::Object(object(vec![
            ("datasetId", text("d")),
            ("workbookId", text("w")),
            ("data", JsonValue::Object(JsonObject::new())),
        ]))
    );
}

#[test]
fn get_entries_sends_every_field_under_its_key() {
    let args = GetEntriesArgs::from_arguments(&arguments(
        "{\"exclude_locked\": true, \"includeData\": false, \"include_links\": true, \
         \"filters\": {\"name\": \"x\"}, \"order_by\": [\"name\"], \"createdBy\": \"me\", \
         \"page\": 2, \"page_size\": 50, \"includePermissionsInfo\": true, \
         \"ignoreWorkbookEntries\": false, \"scope\": \"dataset\", \"ids\": [\"a\"]}",
    ))
    .unwrap();
    assert_eq!(args.extra, JsonObject::new());
    let call = datalens_get_entries(args);
    assert_eq!(call.method, "getEntries");
    assert_eq!(
        call.payload,
        JsonValue::Object(object(vec![
            ("excludeLocked", JsonValue::Bool(true)),
            ("includeData", JsonValue::Bool(false)),
            ("includeLinks", JsonValue::Bool(true)),
            ("filters", JsonValue::Object(object(vec![("name", text("x"))]))),
            ("orderBy", JsonValue::Array(vec![text("name")])),
            ("createdBy", text("me")),
            ("page", number("2")),
            ("pageSize", number("50")),
            ("includePermissionsInfo", JsonValue::Bool(true)),
            ("ignoreWorkbookEntries", JsonValue::Bool(false)),
            ("scope", text("dataset")),
            ("ids", JsonValue::Array(vec![text("a")])),
        ]))
    );
}

#[test]
fn list_directory_sends_every_field_under_its_key() {
    let args = ListDirectoryArgs::from_arguments(&arguments(
        "{\"path\": \"/reports\", \"created_by\": \"me\", \"orderBy\": \"name\", \"filters\": 1, \
         \"page\": 0, \"pageSize\": 10, \"include_permissions_info\": false}",
    ))
    .unwrap();
    let call = datalens_list_directory(args);
    assert_eq!(call.method, "listDirectory");
    assert_eq!(
        call.payload,
        JsonValue::Object(object(vec![
            ("path", text("/reports")),
            ("createdBy", text("me")),
            ("orderBy", text("name")),
            ("filters", number("1")),
            ("page", number("0")),
            ("pageSize", number("10")),
            ("includePermissionsInfo", JsonValue::Bool(false)),
        ]))
    );
}

#[test]
fn get_dashboard_and_chart_send_every_field_under_its_key() {
    let args = GetDashboardArgs::from_arguments(&arguments(
        "{\"dashboardId\": \"d\", \"revId\": \"r\", \"includePermissions\": true, \
         \"includeLinks\": false, \"includeFavorite\": true, \"branch\": \"saved\", \
         \"workbookId\": \"w\"}",
    ))
    .unwrap();
    let call = datalens_get_dashboard(args);
    assert_eq!(call.method, "getDashboard");
    assert_eq!(
        call.payload,
        JsonValue::Object(object(vec![
            ("dashboardId", text("d")),
            ("revId", text("r")),
            ("includePermissions", JsonValue::Bool(true)),
            ("includeLinks", JsonValue::Bool(false)),
            ("includeFavorite", JsonValue::Bool(true)),
            ("branch", text("saved")),
            ("workbookId", text("w")),
        ]))
    );
    let chart = || GetChartArgs {
        chart_id: "c".to_owned(),
        workbook_id: Some("w".to_owned()),
        rev_id: Some("r".to_owned()),
        include_permissions: Some(true),
        include_links: None,
        include_favorite: Some(false),
        branch: Some("published".to_owned()),
        extra: object(vec![("x", JsonValue::Null)]),
    };
    let expected = object(vec![
        ("chartId", text("c")),
        ("workbookId", text("w")),
        ("revId", text("r")),
        ("includePermissions", JsonValue::Bool(true)),
        ("includeFavorite", JsonValue::Bool(false)),
        ("branch", text("published")),
        ("x", JsonValue::Null),
    ]);
    assert_eq!(build_get_chart_payload(chart()), expected);
    let call = datalens_get_ql_chart(chart());
    assert_eq!(call.method, "getQLChart");
    assert_eq!(payload(&call), &expected);
    let call = datalens_get_wizard_chart(chart());
    assert_eq!(call.method, "getWizardChart");
    assert_eq!(payload(&call), &expected);
    let call = datalens_get_editor_chart(chart());
    assert_eq!(call.method, "getEditorChart");
    assert_eq!(payload(&call), &expected);
}

#[test]
fn the_delete_tools_send_the_identifier() {
    let chart = || DeleteChartArgs { chart_id: "c".to_owned(), extra: JsonObject::new() };
    let expected = JsonValue::Object(object(vec![("chartId", text("c"))]));
    let call = datalens_delete_ql_chart(chart());
    assert_eq!((call.method.as_str(), &call.payload), ("deleteQLChart", &expected));
    let call = datalens_delete_wizard_chart(chart());
    assert_eq!((call.method.as_str(), &call.payload), ("deleteWizardChart", &expected));
    let call = datalens_delete_editor_chart(chart());
    assert_eq!((call.method.as_str(), &call.payload), ("deleteEditorChart", &expected));
    let call = datalens_delete_connection(DeleteConnectionArgs {
        connection_id: "c".to_owned(),
        extra: JsonObject::new(),
    });
    assert_eq!(call.method, "deleteConnection");
    assert_eq!(call.payload, JsonValue::Object(object(vec![("connectionId", text("c"))])));
    let call = datalens_delete_dataset(DeleteDatasetArgs {
        dataset_id: "d".to_owned(),
        extra: JsonObject::new(),
    });
    assert_eq!(call.method, "deleteDataset");
    assert_eq!(call.payload, JsonValue::Object(object(vec![("datasetId", text("d"))])));
    let call = datalens_delete_dashboard(DeleteDashboardArgs {
        dashboard_id: "d".to_owned(),
        lock_token: Some("t".to_owned()),
        extra: JsonObject::new(),
    });
    assert_eq!(call.method, "deleteDashboard");
    assert_eq!(
        call.payload,
        JsonValue::Object(object(vec![("dashboardId", text("d")), ("lockToken", text("t"))]))
    );
}

#[test]
fn the_create_and_update_tools_send_their_documents() {
    let call = datalens_create_connection(
        CreateConnectionArgs::from_arguments(&arguments(
            "{\"type\": \"postgres\", \"host\": \"db\", \"port\": 5432}",
        ))
        .unwrap(),
    );
    assert_eq!(call.method, "createConnection");
    assert_eq!(
        call.payload,
        JsonValue::Object(object(vec![
            ("type", text("postgres")),
            ("host", text("db")),
            ("port", number("5432")),
        ]))
    );
    let call = datalens_update_connection(UpdateConnectionArgs {
        connection_id: "c".to_owned(),
        data: JsonValue::Object(object(vec![("host", text("db"))])),
        extra: JsonObject::new(),
    });
    assert_eq!(call.method, "updateConnection");
    assert_eq!(
        call.payload,
        JsonValue::Object(object(vec![
            ("connectionId", text("c")),
            ("data", JsonValue::Object(object(vec![("host", text("db"))]))),
        ]))
    );
    let entry = || JsonValue::Object(object(vec![("name", text("n"))]));
    let expected = JsonValue::Object(object(vec![("entry", entry()), ("mode", text("save"))]));
    let call = datalens_create_dashboard(CreateDashboardArgs {
        entry: entry(),
        mode: "save".to_owned(),
        extra: JsonObject::new(),
    });
    assert_eq!((call.method.as_str(), &call.payload), ("createDashboard", &expected));
    let call = datalens_update_dashboard(UpdateDashboardArgs {
        entry: entry(),
        mode: "save".to_owned(),
        extra: JsonObject::new(),
    });
    assert_eq!((call.method.as_str(), &call.payload), ("updateDashboard", &expected));
    let call = datalens_update_editor_chart(UpdateEditorChartArgs {
        entry: entry(),
        mode: "save".to_owned(),
        extra: JsonObject::new(),
    });
    assert_eq!((call.method.as_str(), &call.payload), ("updateEditorChart", &expected));
    let call = datalens_create_editor_chart(CreateEditorChartArgs {
        entry: entry(),
        mode: None,
        extra: JsonObject::new(),
    });
    assert_eq!(call.method, "createEditorChart");
    assert_eq!(call.payload, JsonValue::Object(object(vec![("entry", entry())])));
    let call = datalens_create_dataset(
        CreateDatasetArgs::from_arguments(&arguments(
            "{\"dataset\": {}, \"createdVia\": \"api\", \"dirPath\": \"/d\", \"options\": {}, \
             \"preview\": true}",
        ))
        .unwrap(),
    );
    assert_eq!(
        call.payload,
        JsonValue::Object(object(vec![
            ("dataset", JsonValue::Object(JsonObject::new())),
            ("created_via", text("api")),
            ("dir_path", text("/d")),
            ("options", JsonValue::Object(JsonObject::new())),
            ("preview", JsonValue::Bool(true)),
        ]))
    );
}

#[test]
fn the_entry_tools_send_the_identifiers_as_an_array() {
    let args = GetEntriesRelationsArgs::from_arguments(&arguments(
        "{\"entryIds\": [\"a\", \"b\"], \"linkDirection\": \"to\", \"limit\": 5, \
         \"pageToken\": \"p\", \"scope\": \"s\", \"include_permissions_info\": true}",
    ))
    .unwrap();
    assert_eq!(args.entry_ids, vec!["a".to_owned(), "b".to_owned()]);
    let call = datalens_get_entries_relations(args);
    assert_eq!(call.method, "getEntriesRelations");
    assert_eq!(
        call.payload,
        JsonValue::Object(object(vec![
            ("entryIds", JsonValue::Array(vec![text("a"), text("b")])),
            ("linkDirection", text("to")),
            ("includePermissionsInfo", JsonValue::Bool(true)),
            ("limit", number("5")),
            ("pageToken", text("p")),
            ("scope", text("s")),
        ]))
    );
    let call = datalens_get_entries_permissions(EntriesPermissionsArgs {
        entry_ids: vec![],
        extra: JsonObject::new(),
    });
    assert_eq!(call.method, "getEntriesPermissions");
    assert_eq!(call.payload, JsonValue::Object(object(vec![("entryIds", JsonValue::Array(vec![]))])));
    let call = datalens_get_audit_entries_updates(
        AuditEntriesUpdatesArgs::from_arguments(&arguments(
            "{\"from\": \"2026-01-01\", \"to\": \"2026-02-01\", \"limit\": 100, \"page_token\": \"p\"}",
        ))
        .unwrap(),
    );
    assert_eq!(call.method, "getAuditEntriesUpdates");
    assert_eq!(
        call.payload,
        JsonValue::Object(object(vec![
            ("from", text("2026-01-01")),
            ("to", text("2026-02-01")),
            ("limit", number("100")),
            ("pageToken", text("p")),
        ]))
    );
}
