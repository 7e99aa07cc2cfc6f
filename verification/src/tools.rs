//! The tools: for each, the call it makes.
//!
//! A call names the remote method and holds the canonical payload: the
//! tool's own fields under the remote API's keys, optional fields only where
//! they are set, and then the fields that the tool does not know, which
//! replace a field of the same key.
use vstd::prelude::*;
use crate::args::{
    empty_json_object,
    AuditEntriesUpdatesArgs,
    CreateConnectionArgs,
    CreateDashboardArgs,
    CreateDatasetArgs,
    CreateEditorChartArgs,
    DatalensRpcArgs,
    DeleteChartArgs,
    DeleteConnectionArgs,
    DeleteDashboardArgs,
    DeleteDatasetArgs,
    EntriesPermissionsArgs,
    GetChartArgs,
    GetConnectionArgs,
    GetDashboardArgs,
    GetDatasetArgs,
    GetEntriesArgs,
    GetEntriesRelationsArgs,
    ListDirectoryArgs,
    UpdateConnectionArgs,
    UpdateDashboardArgs,
    UpdateDatasetArgs,
    UpdateEditorChartArgs,
    ValidateDatasetArgs,
};
use crate::json::{
    document_or_empty,
    number_view,
    option_view,
    text_array_view,
    JsonNumber,
    JsonObject,
    JsonValue,
    JsonView,
};
use crate::text::{strings_view, text_view};

verus! {

/// A call to make: the remote method and the payload to send it.
#[derive(Debug, PartialEq)]
pub struct RpcCall {
    pub method: String,
    pub payload: JsonValue,
}

/// Building a payload: a field is set where it has a value.
pub trait PayloadFields: Sized {
    /// `self` with `key` set to `value` where there is one, else `self`.
    spec fn with(self, key: Seq<char>, value: Option<JsonView>) -> Self;
}

impl PayloadFields for Map<Seq<char>, JsonView> {
    open spec fn with(self, key: Seq<char>, value: Option<JsonView>) -> Self {
        match value {
            Some(v) => self.insert(key, v),
            None => self,
        }
    }
}

/// The payload without fields.
pub open spec fn no_fields() -> Map<Seq<char>, JsonView> {
    Map::empty()
}

/// An optional string as an optional JSON string.
pub open spec fn text_field(value: Option<Seq<char>>) -> Option<JsonView> {
    match value {
        Some(text) => Some(JsonView::String(text)),
        None => None,
    }
}

/// An optional flag as an optional JSON boolean.
pub open spec fn flag_field(value: Option<bool>) -> Option<JsonView> {
    match value {
        Some(flag) => Some(JsonView::Bool(flag)),
        None => None,
    }
}

/// An optional number as an optional JSON number.
pub open spec fn number_field(value: Option<Seq<char>>) -> Option<JsonView> {
    match value {
        Some(literal) => Some(JsonView::Number(literal)),
        None => None,
    }
}

fn text_value(value: Option<String>) -> (json: Option<JsonValue>)
    ensures
        option_view(json) == text_field(text_view(value)),
{
    match value {
        Some(s) => Some(JsonValue::String(s)),
        None => None,
    }
}

fn flag_value(value: Option<bool>) -> (json: Option<JsonValue>)
    ensures
        option_view(json) == flag_field(value),
{
    match value {
        Some(b) => Some(JsonValue::Bool(b)),
        None => None,
    }
}

fn number_value(value: Option<JsonNumber>) -> (json: Option<JsonValue>)
    ensures
        option_view(json) == number_field(number_view(value)),
{
    match value {
        Some(n) => Some(JsonValue::Number(n)),
        None => None,
    }
}

/// `datalens_rpc`. Calls the method that the caller names, with the payload
/// that the caller gives.
pub fn datalens_rpc(args: DatalensRpcArgs) -> (call: RpcCall)
    ensures
        call.method@ == args.method@,
        call.payload@ == args.payload@,
{
    RpcCall { method: args.method, payload: args.payload }
}

/// `datalens_list_directory`. Lists a directory, the root `/` unless a path
/// is given.
pub fn datalens_list_directory(args: ListDirectoryArgs) -> (call: RpcCall)
    ensures
        call.method@ == "listDirectory"@,
        call.payload@ == JsonView::Object(
            no_fields()
                .with("path"@, Some(JsonView::String(args.path@)))
                .with("createdBy"@, option_view(args.created_by))
                .with("orderBy"@, option_view(args.order_by))
                .with("filters"@, option_view(args.filters))
                .with("page"@, number_field(number_view(args.page)))
                .with("pageSize"@, number_field(number_view(args.page_size)))
                .with("includePermissionsInfo"@, flag_field(args.include_permissions_info))
                .union_prefer_right(args.extra@),
        ),
{
    let mut payload = JsonObject::new();
    payload.insert("path".to_owned(), JsonValue::String(args.path));
    payload.insert_some("createdBy".to_owned(), args.created_by);
    payload.insert_some("orderBy".to_owned(), args.order_by);
    payload.insert_some("filters".to_owned(), args.filters);
    payload.insert_some("page".to_owned(), number_value(args.page));
    payload.insert_some("pageSize".to_owned(), number_value(args.page_size));
    payload.insert_some(
        "includePermissionsInfo".to_owned(),
        flag_value(args.include_permissions_info),
    );
    payload.extend(args.extra);
    RpcCall { method: "listDirectory".to_owned(), payload: JsonValue::Object(payload) }
}

/// `datalens_get_entries`. Lists entries; every field of the request is
/// optional.
pub fn datalens_get_entries(args: GetEntriesArgs) -> (call: RpcCall)
    ensures
        call.method@ == "getEntries"@,
        call.payload@ == JsonView::Object(
            no_fields()
                .with("excludeLocked"@, flag_field(args.exclude_locked))
                .with("includeData"@, flag_field(args.include_data))
                .with("includeLinks"@, flag_field(args.include_links))
                .with("filters"@, option_view(args.filters))
                .with("orderBy"@, option_view(args.order_by))
                .with("createdBy"@, option_view(args.created_by))
                .with("page"@, number_field(number_view(args.page)))
                .with("pageSize"@, number_field(number_view(args.page_size)))
                .with("includePermissionsInfo"@, flag_field(args.include_permissions_info))
                .with("ignoreWorkbookEntries"@, flag_field(args.ignore_workbook_entries))
                .with("scope"@, text_field(text_view(args.scope)))
                .with("ids"@, option_view(args.ids))
                .union_prefer_right(args.extra@),
        ),
{
    let mut payload = JsonObject::new();
    payload.insert_some("excludeLocked".to_owned(), flag_value(args.exclude_locked));
    payload.insert_some("includeData".to_owned(), flag_value(args.include_data));
    payload.insert_some("includeLinks".to_owned(), flag_value(args.include_links));
    payload.insert_some("filters".to_owned(), args.filters);
    payload.insert_some("orderBy".to_owned(), args.order_by);
    payload.insert_some("createdBy".to_owned(), args.created_by);
    payload.insert_some("page".to_owned(), number_value(args.page));
    payload.insert_some("pageSize".to_owned(), number_value(args.page_size));
    payload.insert_some(
        "includePermissionsInfo".to_owned(),
        flag_value(args.include_permissions_info),
    );
    payload.insert_some(
        "ignoreWorkbookEntries".to_owned(),
        flag_value(args.ignore_workbook_entries),
    );
    payload.insert_some("scope".to_owned(), text_value(args.scope));
    payload.insert_some("ids".to_owned(), args.ids);
    payload.extend(args.extra);
    RpcCall { method: "getEntries".to_owned(), payload: JsonValue::Object(payload) }
}

/// `datalens_get_dataset`. Fetches a dataset. The revision goes out under the
/// key `rev_id`.
pub fn datalens_get_dataset(args: GetDatasetArgs) -> (call: RpcCall)
    ensures
        call.method@ == "getDataset"@,
        call.payload@ == JsonView::Object(
            no_fields()
                .with("datasetId"@, Some(JsonView::String(args.dataset_id@)))
                .with("workbookId"@, text_field(text_view(args.workbook_id)))
                .with("rev_id"@, text_field(text_view(args.rev_id)))
                .union_prefer_right(args.extra@),
        ),
{
    let mut payload = JsonObject::new();
    payload.insert("datasetId".to_owned(), JsonValue::String(args.dataset_id));
    payload.insert_some("workbookId".to_owned(), text_value(args.workbook_id));
    payload.insert_some("rev_id".to_owned(), text_value(args.rev_id));
    payload.extend(args.extra);
    RpcCall { method: "getDataset".to_owned(), payload: JsonValue::Object(payload) }
}

/// `datalens_get_dashboard`. Fetches a dashboard.
pub fn datalens_get_dashboard(args: GetDashboardArgs) -> (call: RpcCall)
    ensures
        call.method@ == "getDashboard"@,
        call.payload@ == JsonView::Object(
            no_fields()
                .with("dashboardId"@, Some(JsonView::String(args.dashboard_id@)))
                .with("revId"@, text_field(text_view(args.rev_id)))
                .with("includePermissions"@, flag_field(args.include_permissions))
                .with("includeLinks"@, flag_field(args.include_links))
                .with("includeFavorite"@, flag_field(args.include_favorite))
                .with("branch"@, text_field(text_view(args.branch)))
                .with("workbookId"@, text_field(text_view(args.workbook_id)))
                .union_prefer_right(args.extra@),
        ),
{
    let mut payload = JsonObject::new();
    payload.insert("dashboardId".to_owned(), JsonValue::String(args.dashboard_id));
    payload.insert_some("revId".to_owned(), text_value(args.rev_id));
    payload.insert_some("includePermissions".to_owned(), flag_value(args.include_permissions));
    payload.insert_some("includeLinks".to_owned(), flag_value(args.include_links));
    payload.insert_some("includeFavorite".to_owned(), flag_value(args.include_favorite));
    payload.insert_some("branch".to_owned(), text_value(args.branch));
    payload.insert_some("workbookId".to_owned(), text_value(args.workbook_id));
    payload.extend(args.extra);
    RpcCall { method: "getDashboard".to_owned(), payload: JsonValue::Object(payload) }
}

/// `datalens_get_connection`. Fetches a connection. The revision goes out
/// under the key `rev_id`.
pub fn datalens_get_connection(args: GetConnectionArgs) -> (call: RpcCall)
    ensures
        call.method@ == "getConnection"@,
        call.payload@ == JsonView::Object(
            no_fields()
                .with("connectionId"@, Some(JsonView::String(args.connection_id@)))
                .with("workbookId"@, text_field(text_view(args.workbook_id)))
                .with("bindedDatasetId"@, text_field(text_view(args.binded_dataset_id)))
                .with("rev_id"@, text_field(text_view(args.rev_id)))
                .union_prefer_right(args.extra@),
        ),
{
    let mut payload = JsonObject::new();
    payload.insert("connectionId".to_owned(), JsonValue::String(args.connection_id));
    payload.insert_some("workbookId".to_owned(), text_value(args.workbook_id));
    payload.insert_some("bindedDatasetId".to_owned(), text_value(args.binded_dataset_id));
    payload.insert_some("rev_id".to_owned(), text_value(args.rev_id));
    payload.extend(args.extra);
    RpcCall { method: "getConnection".to_owned(), payload: JsonValue::Object(payload) }
}

/// `datalens_create_connection`. Creates a connection of the given type.
pub fn datalens_create_connection(args: CreateConnectionArgs) -> (call: RpcCall)
    ensures
        call.method@ == "createConnection"@,
        call.payload@ == JsonView::Object(
            no_fields()
                .with("type"@, Some(JsonView::String(args.connection_type@)))
                .union_prefer_right(args.extra@),
        ),
{
    let mut payload = JsonObject::new();
    payload.insert("type".to_owned(), JsonValue::String(args.connection_type));
    payload.extend(args.extra);
    RpcCall { method: "createConnection".to_owned(), payload: JsonValue::Object(payload) }
}

/// `datalens_update_connection`. Updates a connection.
pub fn datalens_update_connection(args: UpdateConnectionArgs) -> (call: RpcCall)
    ensures
        call.method@ == "updateConnection"@,
        call.payload@ == JsonView::Object(
            no_fields()
                .with("connectionId"@, Some(JsonView::String(args.connection_id@)))
                .with("data"@, Some(args.data@))
                .union_prefer_right(args.extra@),
        ),
{
    let mut payload = JsonObject::new();
    payload.insert("connectionId".to_owned(), JsonValue::String(args.connection_id));
    payload.insert("data".to_owned(), args.data);
    payload.extend(args.extra);
    RpcCall { method: "updateConnection".to_owned(), payload: JsonValue::Object(payload) }
}

/// `datalens_delete_connection`. Deletes a connection.
pub fn datalens_delete_connection(args: DeleteConnectionArgs) -> (call: RpcCall)
    ensures
        call.method@ == "deleteConnection"@,
        call.payload@ == JsonView::Object(
            no_fields()
                .with("connectionId"@, Some(JsonView::String(args.connection_id@)))
                .union_prefer_right(args.extra@),
        ),
{
    let mut payload = JsonObject::new();
    payload.insert("connectionId".to_owned(), JsonValue::String(args.connection_id));
    payload.extend(args.extra);
    RpcCall { method: "deleteConnection".to_owned(), payload: JsonValue::Object(payload) }
}

/// `datalens_create_dashboard`. Creates a dashboard.
pub fn datalens_create_dashboard(args: CreateDashboardArgs) -> (call: RpcCall)
    ensures
        call.method@ == "createDashboard"@,
        call.payload@ == JsonView::Object(
            no_fields()
                .with("entry"@, Some(args.entry@))
                .with("mode"@, Some(JsonView::String(args.mode@)))
                .union_prefer_right(args.extra@),
        ),
{
    let mut payload = JsonObject::new();
    payload.insert("entry".to_owned(), args.entry);
    payload.insert("mode".to_owned(), JsonValue::String(args.mode));
    payload.extend(args.extra);
    RpcCall { method: "createDashboard".to_owned(), payload: JsonValue::Object(payload) }
}

/// `datalens_update_dashboard`. Updates a dashboard.
pub fn datalens_update_dashboard(args: UpdateDashboardArgs) -> (call: RpcCall)
    ensures
        call.method@ == "updateDashboard"@,
        call.payload@ == JsonView::Object(
            no_fields()
                .with("entry"@, Some(args.entry@))
                .with("mode"@, Some(JsonView::String(args.mode@)))
                .union_prefer_right(args.extra@),
        ),
{
    let mut payload = JsonObject::new();
    payload.insert("entry".to_owned(), args.entry);
    payload.insert("mode".to_owned(), JsonValue::String(args.mode));
    payload.extend(args.extra);
    RpcCall { method: "updateDashboard".to_owned(), payload: JsonValue::Object(payload) }
}

/// `datalens_delete_dashboard`. Deletes a dashboard.
pub fn datalens_delete_dashboard(args: DeleteDashboardArgs) -> (call: RpcCall)
    ensures
        call.method@ == "deleteDashboard"@,
        call.payload@ == JsonView::Object(
            no_fields()
                .with("dashboardId"@, Some(JsonView::String(args.dashboard_id@)))
                .with("lockToken"@, text_field(text_view(args.lock_token)))
                .union_prefer_right(args.extra@),
        ),
{
    let mut payload = JsonObject::new();
    payload.insert("dashboardId".to_owned(), JsonValue::String(args.dashboard_id));
    payload.insert_some("lockToken".to_owned(), text_value(args.lock_token));
    payload.extend(args.extra);
    RpcCall { method: "deleteDashboard".to_owned(), payload: JsonValue::Object(payload) }
}

/// `datalens_create_dataset`. Creates a dataset. The optional fields go out
/// under their snake-case keys.
pub fn datalens_create_dataset(args: CreateDatasetArgs) -> (call: RpcCall)
    ensures
        call.method@ == "createDataset"@,
        call.payload@ == JsonView::Object(
            no_fields()
                .with("dataset"@, Some(args.dataset@))
                .with("created_via"@, option_view(args.created_via))
                .with("dir_path"@, text_field(text_view(args.dir_path)))
                .with("name"@, text_field(text_view(args.name)))
                .with("options"@, option_view(args.options))
                .with("preview"@, flag_field(args.preview))
                .with("workbook_id"@, text_field(text_view(args.workbook_id)))
                .union_prefer_right(args.extra@),
        ),
{
    let mut payload = JsonObject::new();
    payload.insert("dataset".to_owned(), args.dataset);
    payload.insert_some("created_via".to_owned(), args.created_via);
    payload.insert_some("dir_path".to_owned(), text_value(args.dir_path));
    payload.insert_some("name".to_owned(), text_value(args.name));
    payload.insert_some("options".to_owned(), args.options);
    payload.insert_some("preview".to_owned(), flag_value(args.preview));
    payload.insert_some("workbook_id".to_owned(), text_value(args.workbook_id));
    payload.extend(args.extra);
    RpcCall { method: "createDataset".to_owned(), payload: JsonValue::Object(payload) }
}

/// `datalens_update_dataset`. Updates a dataset. Where no `data` is given,
/// the empty object is sent.
pub fn datalens_update_dataset(args: UpdateDatasetArgs) -> (call: RpcCall)
    ensures
        call.method@ == "updateDataset"@,
        call.payload@ == JsonView::Object(
            no_fields()
                .with("datasetId"@, Some(JsonView::String(args.dataset_id@)))
                .with("data"@, Some(document_or_empty(option_view(args.data))))
                .union_prefer_right(args.extra@),
        ),
{
    let mut payload = JsonObject::new();
    payload.insert("datasetId".to_owned(), JsonValue::String(args.dataset_id));
    let data = match args.data {
        Some(document) => document,
        None => empty_json_object(),
    };
    payload.insert("data".to_owned(), data);
    payload.extend(args.extra);
    RpcCall { method: "updateDataset".to_owned(), payload: JsonValue::Object(payload) }
}

/// `datalens_delete_dataset`. Deletes a dataset.
pub fn datalens_delete_dataset(args: DeleteDatasetArgs) -> (call: RpcCall)
    ensures
        call.method@ == "deleteDataset"@,
        call.payload@ == JsonView::Object(
            no_fields()
                .with("datasetId"@, Some(JsonView::String(args.dataset_id@)))
                .union_prefer_right(args.extra@),
        ),
{
    let mut payload = JsonObject::new();
    payload.insert("datasetId".to_owned(), JsonValue::String(args.dataset_id));
    payload.extend(args.extra);
    RpcCall { method: "deleteDataset".to_owned(), payload: JsonValue::Object(payload) }
}

/// `datalens_validate_dataset`. Validates a dataset. Where no `data` is
/// given, the empty object is sent.
pub fn datalens_validate_dataset(args: ValidateDatasetArgs) -> (call: RpcCall)
    ensures
        call.method@ == "validateDataset"@,
        call.payload@ == JsonView::Object(
            no_fields()
                .with("datasetId"@, Some(JsonView::String(args.dataset_id@)))
                .with("workbookId"@, text_field(text_view(args.workbook_id)))
                .with("data"@, Some(document_or_empty(option_view(args.data))))
                .union_prefer_right(args.extra@),
        ),
{
    let mut payload = JsonObject::new();
    payload.insert("datasetId".to_owned(), JsonValue::String(args.dataset_id));
    payload.insert_some("workbookId".to_owned(), text_value(args.workbook_id));
    let data = match args.data {
        Some(document) => document,
        None => empty_json_object(),
    };
    payload.insert("data".to_owned(), data);
    payload.extend(args.extra);
    RpcCall { method: "validateDataset".to_owned(), payload: JsonValue::Object(payload) }
}

/// `datalens_get_entries_relations`. Fetches the relations of entries.
pub fn datalens_get_entries_relations(args: GetEntriesRelationsArgs) -> (call: RpcCall)
    ensures
        call.method@ == "getEntriesRelations"@,
        call.payload@ == JsonView::Object(
            no_fields()
                .with("entryIds"@, Some(text_array_view(strings_view(args.entry_ids@))))
                .with("linkDirection"@, text_field(text_view(args.link_direction)))
                .with("includePermissionsInfo"@, flag_field(args.include_permissions_info))
                .with("limit"@, number_field(number_view(args.limit)))
                .with("pageToken"@, text_field(text_view(args.page_token)))
                .with("scope"@, text_field(text_view(args.scope)))
                .union_prefer_right(args.extra@),
        ),
{
    let mut payload = JsonObject::new();
    payload.insert("entryIds".to_owned(), JsonValue::text_array(args.entry_ids));
    payload.insert_some("linkDirection".to_owned(), text_value(args.link_direction));
    payload.insert_some(
        "includePermissionsInfo".to_owned(),
        flag_value(args.include_permissions_info),
    );
    payload.insert_some("limit".to_owned(), number_value(args.limit));
    payload.insert_some("pageToken".to_owned(), text_value(args.page_token));
    payload.insert_some("scope".to_owned(), text_value(args.scope));
    payload.extend(args.extra);
    RpcCall { method: "getEntriesRelations".to_owned(), payload: JsonValue::Object(payload) }
}

/// `datalens_create_editor_chart`. Creates an editor chart.
pub fn datalens_create_editor_chart(args: CreateEditorChartArgs) -> (call: RpcCall)
    ensures
        call.method@ == "createEditorChart"@,
        call.payload@ == JsonView::Object(
            no_fields()
                .with("entry"@, Some(args.entry@))
                .with("mode"@, text_field(text_view(args.mode)))
                .union_prefer_right(args.extra@),
        ),
{
    let mut payload = JsonObject::new();
    payload.insert("entry".to_owned(), args.entry);
    payload.insert_some("mode".to_owned(), text_value(args.mode));
    payload.extend(args.extra);
    RpcCall { method: "createEditorChart".to_owned(), payload: JsonValue::Object(payload) }
}

/// `datalens_update_editor_chart`. Updates an editor chart.
pub fn datalens_update_editor_chart(args: UpdateEditorChartArgs) -> (call: RpcCall)
    ensures
        call.method@ == "updateEditorChart"@,
        call.payload@ == JsonView::Object(
            no_fields()
                .with("entry"@, Some(args.entry@))
                .with("mode"@, Some(JsonView::String(args.mode@)))
                .union_prefer_right(args.extra@),
        ),
{
    let mut payload = JsonObject::new();
    payload.insert("entry".to_owned(), args.entry);
    payload.insert("mode".to_owned(), JsonValue::String(args.mode));
    payload.extend(args.extra);
    RpcCall { method: "updateEditorChart".to_owned(), payload: JsonValue::Object(payload) }
}

/// `datalens_get_entries_permissions`. Fetches the permissions of entries.
pub fn datalens_get_entries_permissions(args: EntriesPermissionsArgs) -> (call: RpcCall)
    ensures
        call.method@ == "getEntriesPermissions"@,
        call.payload@ == JsonView::Object(
            no_fields()
                .with("entryIds"@, Some(text_array_view(strings_view(args.entry_ids@))))
                .union_prefer_right(args.extra@),
        ),
{
    let mut payload = JsonObject::new();
    payload.insert("entryIds".to_owned(), JsonValue::text_array(args.entry_ids));
    payload.extend(args.extra);
    RpcCall { method: "getEntriesPermissions".to_owned(), payload: JsonValue::Object(payload) }
}

/// `datalens_get_audit_entries_updates`. Fetches the audit trail of entry
/// updates from a point in time on.
pub fn datalens_get_audit_entries_updates(args: AuditEntriesUpdatesArgs) -> (call: RpcCall)
    ensures
        call.method@ == "getAuditEntriesUpdates"@,
        call.payload@ == JsonView::Object(
            no_fields()
                .with("from"@, Some(JsonView::String(args.from@)))
                .with("to"@, text_field(text_view(args.to)))
                .with("limit"@, number_field(number_view(args.limit)))
                .with("pageToken"@, text_field(text_view(args.page_token)))
                .union_prefer_right(args.extra@),
        ),
{
    let mut payload = JsonObject::new();
    payload.insert("from".to_owned(), JsonValue::String(args.from));
    payload.insert_some("to".to_owned(), text_value(args.to));
    payload.insert_some("limit".to_owned(), number_value(args.limit));
    payload.insert_some("pageToken".to_owned(), text_value(args.page_token));
    payload.extend(args.extra);
    RpcCall { method: "getAuditEntriesUpdates".to_owned(), payload: JsonValue::Object(payload) }
}

/// What the tools that fetch a chart send.
pub open spec fn chart_payload(args: GetChartArgs) -> Map<Seq<char>, JsonView> {
    no_fields()
        .with("chartId"@, Some(JsonView::String(args.chart_id@)))
        .with("workbookId"@, text_field(text_view(args.workbook_id)))
        .with("revId"@, text_field(text_view(args.rev_id)))
        .with("includePermissions"@, flag_field(args.include_permissions))
        .with("includeLinks"@, flag_field(args.include_links))
        .with("includeFavorite"@, flag_field(args.include_favorite))
        .with("branch"@, text_field(text_view(args.branch)))
        .union_prefer_right(args.extra@)
}

/// The payload of the tools that fetch a chart.
pub fn build_get_chart_payload(args: GetChartArgs) -> (payload: JsonObject)
    ensures
        payload@ == chart_payload(args),
{
    let mut payload = JsonObject::new();
    payload.insert("chartId".to_owned(), JsonValue::String(args.chart_id));
    payload.insert_some("workbookId".to_owned(), text_value(args.workbook_id));
    payload.insert_some("revId".to_owned(), text_value(args.rev_id));
    payload.insert_some("includePermissions".to_owned(), flag_value(args.include_permissions));
    payload.insert_some("includeLinks".to_owned(), flag_value(args.include_links));
    payload.insert_some("includeFavorite".to_owned(), flag_value(args.include_favorite));
    payload.insert_some("branch".to_owned(), text_value(args.branch));
    payload.extend(args.extra);
    payload
}

/// `datalens_get_ql_chart`. Fetches a QL chart.
pub fn datalens_get_ql_chart(args: GetChartArgs) -> (call: RpcCall)
    ensures
        call.method@ == "getQLChart"@,
        call.payload@ == JsonView::Object(chart_payload(args)),
{
    RpcCall {
        method: "getQLChart".to_owned(),
        payload: JsonValue::Object(build_get_chart_payload(args)),
    }
}

/// `datalens_get_wizard_chart`. Fetches a wizard chart.
pub fn datalens_get_wizard_chart(args: GetChartArgs) -> (call: RpcCall)
    ensures
        call.method@ == "getWizardChart"@,
        call.payload@ == JsonView::Object(chart_payload(args)),
{
    RpcCall {
        method: "getWizardChart".to_owned(),
        payload: JsonValue::Object(build_get_chart_payload(args)),
    }
}

/// `datalens_get_editor_chart`. Fetches an editor chart.
pub fn datalens_get_editor_chart(args: GetChartArgs) -> (call: RpcCall)
    ensures
        call.method@ == "getEditorChart"@,
        call.payload@ == JsonView::Object(chart_payload(args)),
{
    RpcCall {
        method: "getEditorChart".to_owned(),
        payload: JsonValue::Object(build_get_chart_payload(args)),
    }
}

/// `datalens_delete_ql_chart`. Deletes a QL chart.
pub fn datalens_delete_ql_chart(args: DeleteChartArgs) -> (call: RpcCall)
    ensures
        call.method@ == "deleteQLChart"@,
        call.payload@ == JsonView::Object(
            no_fields()
                .with("chartId"@, Some(JsonView::String(args.chart_id@)))
                .union_prefer_right(args.extra@),
        ),
{
    let mut payload = JsonObject::new();
    payload.insert("chartId".to_owned(), JsonValue::String(args.chart_id));
    payload.extend(args.extra);
    RpcCall { method: "deleteQLChart".to_owned(), payload: JsonValue::Object(payload) }
}

/// `datalens_delete_wizard_chart`. Deletes a wizard chart.
pub fn datalens_delete_wizard_chart(args: DeleteChartArgs) -> (call: RpcCall)
    ensures
        call.method@ == "deleteWizardChart"@,
        call.payload@ == JsonView::Object(
            no_fields()
                .with("chartId"@, Some(JsonView::String(args.chart_id@)))
                .union_prefer_right(args.extra@),
        ),
{
    let mut payload = JsonObject::new();
    payload.insert("chartId".to_owned(), JsonValue::String(args.chart_id));
    payload.extend(args.extra);
    RpcCall { method: "deleteWizardChart".to_owned(), payload: JsonValue::Object(payload) }
}

/// `datalens_delete_editor_chart`. Deletes an editor chart.
pub fn datalens_delete_editor_chart(args: DeleteChartArgs) -> (call: RpcCall)
    ensures
        call.method@ == "deleteEditorChart"@,
        call.payload@ == JsonView::Object(
            no_fields()
                .with("chartId"@, Some(JsonView::String(args.chart_id@)))
                .union_prefer_right(args.extra@),
        ),
{
    let mut payload = JsonObject::new();
    payload.insert("chartId".to_owned(), JsonValue::String(args.chart_id));
    payload.extend(args.extra);
    RpcCall { method: "deleteEditorChart".to_owned(), payload: JsonValue::Object(payload) }
}

} // verus!
