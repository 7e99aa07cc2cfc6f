//! The gateway's front door: what a tool does with the arguments it is
//! called with.
//!
//! `dispatch` reads the arguments of the tool that is named and says what is
//! to be done: a call to send to the remote API, or an answer that the
//! catalog gives at once. For each tool a function of the arguments says
//! which payload the tool sends for them.
use vstd::prelude::*;
use crate::args::{
    AuditEntriesUpdatesArgs,
    CreateConnectionArgs,
    CreateDashboardArgs,
    CreateDatasetArgs,
    CreateEditorChartArgs,
    DatalensRpcArgs,
    DeleteChartArgs,
    DeleteConnectionArgs,
    DeleteDashboardArgs,
    DeleteDatasetArgs,
    EntriesPermissionsArgs,
    GetChartArgs,
    GetConnectionArgs,
    GetDashboardArgs,
    GetDatasetArgs,
    GetEntriesArgs,
    GetEntriesRelationsArgs,
    ListDirectoryArgs,
    UpdateConnectionArgs,
    UpdateDashboardArgs,
    UpdateDatasetArgs,
    UpdateEditorChartArgs,
    ValidateDatasetArgs,
};
use crate::catalog::{
    catalog_spec,
    datalens_get_method_schema,
    datalens_list_methods,
    listing_spec,
    schema_spec,
};
use crate::fields::{
    aliased,
    aliased_twice,
    argument_message,
    find,
    named,
    optional_document_spec,
    optional_flag_spec,
    optional_number_spec,
    optional_text_spec,
    optional_value_spec,
    refusal,
    required_document_spec,
    required_text,
    required_text_list_spec,
    required_text_spec,
    text_or,
    value_or_empty,
    ArgumentErrorView,
    FirstProblem,
};
use crate::json::{document_or_empty, text_array_view, JsonObject, JsonView};
use crate::outcome::{RequestError, RequestErrorView};
use crate::text::{join, text_eq};
use crate::tools::{
    flag_field,
    no_fields,
    number_field,
    text_field,
    PayloadFields,
    RpcCall,
    datalens_rpc,
    datalens_create_connection,
    datalens_create_dashboard,
    datalens_create_dataset,
    datalens_create_editor_chart,
    datalens_delete_connection,
    datalens_delete_dashboard,
    datalens_delete_dataset,
    datalens_delete_editor_chart,
    datalens_delete_ql_chart,
    datalens_delete_wizard_chart,
    datalens_get_audit_entries_updates,
    datalens_get_connection,
    datalens_get_dashboard,
    datalens_get_dataset,
    datalens_get_editor_chart,
    datalens_get_entries,
    datalens_get_entries_permissions,
    datalens_get_entries_relations,
    datalens_get_ql_chart,
    datalens_get_wizard_chart,
    datalens_list_directory,
    datalens_update_connection,
    datalens_update_dashboard,
    datalens_update_dataset,
    datalens_update_editor_chart,
    datalens_validate_dataset,
};

verus! {

/// What is to be done for a tool that was called.
#[derive(Debug, PartialEq)]
pub enum ToolAction {
    /// Send this call to the remote API.
    Call(RpcCall),
    /// Give this answer; nothing is sent.
    Answer(JsonObject),
}

/// What a `ToolAction` holds.
pub enum ToolActionView {
    Call { method: Seq<char>, payload: JsonView },
    Answer(Map<Seq<char>, JsonView>),
}

impl View for ToolAction {
    type V = ToolActionView;

    open spec fn view(&self) -> ToolActionView {
        match self {
            ToolAction::Call(call) => ToolActionView::Call {
                method: call.method@,
                payload: call.payload@,
            },
            ToolAction::Answer(answer) => ToolActionView::Answer(answer@),
        }
    }
}

/// The meaning of an action or of a refusal.
pub open spec fn action_view(outcome: Result<ToolAction, RequestError>) -> Result<
    ToolActionView,
    RequestErrorView,
> {
    match outcome {
        Ok(action) => Ok(action@),
        Err(error) => Err(error@),
    }
}

/// The refusal of a call of `method` because of an argument.
pub open spec fn refused(method: Seq<char>, error: ArgumentErrorView) -> RequestErrorView {
    RequestErrorView::InvalidArguments { method: method, message: argument_message(error) }
}

/// The call of `method` with the payload that the arguments give, or the
/// refusal of the arguments.
pub open spec fn call_or_refusal(
    method: Seq<char>,
    payload: Result<JsonView, ArgumentErrorView>,
) -> Result<ToolActionView, RequestErrorView> {
    match payload {
        Ok(payload) => Ok(ToolActionView::Call { method: method, payload: payload }),
        Err(error) => Err(refused(method, error)),
    }
}

/// What `datalens_rpc` does: it calls the method that the arguments name,
/// with the payload that they give, the empty object where they give none.
pub open spec fn generic_call(arguments: Map<Seq<char>, JsonView>) -> Result<
    ToolActionView,
    RequestErrorView,
> {
    let method = required_text_spec(named(arguments, "method"@));
    let payload = value_or_empty(optional_document_spec(named(arguments, "payload"@)));
    match refusal("method"@, method).otherwise(refusal("payload"@, payload)) {
        Some(error) => Err(refused("datalens_rpc"@, error)),
        None => Ok(ToolActionView::Call { method: method->Ok_0, payload: payload->Ok_0 }),
    }
}

/// What `datalens_get_method_schema` does: it answers with the entry of the
/// method that the arguments name.
pub open spec fn schema_answer(arguments: Map<Seq<char>, JsonView>) -> Result<
    ToolActionView,
    RequestErrorView,
> {
    match required_text_spec(named(arguments, "method"@)) {
        Ok(method) => match schema_spec(method) {
            Ok(entry) => Ok(ToolActionView::Answer(entry)),
            Err(error) => Err(error),
        },
        Err(problem) => Err(
            refused(
                "datalens_get_method_schema"@,
                ArgumentErrorView { field: "method"@, problem: problem },
            ),
        ),
    }
}

/// The message for a tool that the server does not have.
pub open spec fn unknown_tool_message(tool: Seq<char>) -> Seq<char> {
    "unknown tool `"@ + tool + "`"@
}

/// The payload that `datalens_list_directory` sends for `arguments`, or the
/// argument that is refused.
pub open spec fn list_directory_payload(arguments: Map<Seq<char>, JsonView>) -> Result<
    JsonView,
    ArgumentErrorView,
> {
    let path = text_or(optional_text_spec(named(arguments, "path"@)), "/"@);
    let created_by = optional_value_spec(aliased(arguments, "created_by"@, "createdBy"@));
    let order_by = optional_value_spec(aliased(arguments, "order_by"@, "orderBy"@));
    let filters = optional_value_spec(named(arguments, "filters"@));
    let page = optional_number_spec(named(arguments, "page"@));
    let page_size = optional_number_spec(aliased(arguments, "page_size"@, "pageSize"@));
    let include_permissions_info = optional_flag_spec(
        aliased(arguments, "include_permissions_info"@, "includePermissionsInfo"@),
    );
    match ListDirectoryArgs::refused(arguments) {
        Some(error) => Err(error),
        None => Ok(
            JsonView::Object(
                no_fields()
                    .with("path"@, Some(JsonView::String(path->Ok_0)))
                    .with("createdBy"@, created_by)
                    .with("orderBy"@, order_by)
                    .with("filters"@, filters)
                    .with("page"@, number_field(page->Ok_0))
                    .with("pageSize"@, number_field(page_size->Ok_0))
                    .with("includePermissionsInfo"@, flag_field(include_permissions_info->Ok_0))
                    .union_prefer_right(
                        arguments
                            .remove("path"@)
                            .remove("created_by"@)
                            .remove("createdBy"@)
                            .remove("order_by"@)
                            .remove("orderBy"@)
                            .remove("filters"@)
                            .remove("page"@)
                            .remove("page_size"@)
                            .remove("pageSize"@)
                            .remove("include_permissions_info"@)
                            .remove("includePermissionsInfo"@)
                    ),
            ),
        ),
    }
}

/// The payload that `datalens_get_entries` sends for `arguments`, or the
/// argument that is refused.
pub open spec fn get_entries_payload(arguments: Map<Seq<char>, JsonView>) -> Result<
    JsonView,
    ArgumentErrorView,
> {
    let exclude_locked = optional_flag_spec(
        aliased(arguments, "exclude_locked"@, "excludeLocked"@),
    );
    let include_data = optional_flag_spec(aliased(arguments, "include_data"@, "includeData"@));
    let include_links = optional_flag_spec(aliased(arguments, "include_links"@, "includeLinks"@));
    let filters = optional_value_spec(named(arguments, "filters"@));
    let order_by = optional_value_spec(aliased(arguments, "order_by"@, "orderBy"@));
    let created_by = optional_value_spec(aliased(arguments, "created_by"@, "createdBy"@));
    let page = optional_number_spec(named(arguments, "page"@));
    let page_size = optional_number_spec(aliased(arguments, "page_size"@, "pageSize"@));
    let include_permissions_info = optional_flag_spec(
        aliased(arguments, "include_permissions_info"@, "includePermissionsInfo"@),
    );
    let ignore_workbook_entries = optional_flag_spec(
        aliased(arguments, "ignore_workbook_entries"@, "ignoreWorkbookEntries"@),
    );
    let scope = optional_text_spec(named(arguments, "scope"@));
    let ids = optional_value_spec(named(arguments, "ids"@));
    match GetEntriesArgs::refused(arguments) {
        Some(error) => Err(error),
        None => Ok(
            JsonView::Object(
                no_fields()
                    .with("excludeLocked"@, flag_field(exclude_locked->Ok_0))
                    .with("includeData"@, flag_field(include_data->Ok_0))
                    .with("includeLinks"@, flag_field(include_links->Ok_0))
                    .with("filters"@, filters)
                    .with("orderBy"@, order_by)
                    .with("createdBy"@, created_by)
                    .with("page"@, number_field(page->Ok_0))
                    .with("pageSize"@, number_field(page_size->Ok_0))
                    .with("includePermissionsInfo"@, flag_field(include_permissions_info->Ok_0))
                    .with("ignoreWorkbookEntries"@, flag_field(ignore_workbook_entries->Ok_0))
                    .with("scope"@, text_field(scope->Ok_0))
                    .with("ids"@, ids)
                    .union_prefer_right(
                        arguments
                            .remove("exclude_locked"@)
                            .remove("excludeLocked"@)
                            .remove("include_data"@)
                            .remove("includeData"@)
                            .remove("include_links"@)
                            .remove("includeLinks"@)
                            .remove("filters"@)
                            .remove("order_by"@)
                            .remove("orderBy"@)
                            .remove("created_by"@)
                            .remove("createdBy"@)
                            .remove("page"@)
                            .remove("page_size"@)
                            .remove("pageSize"@)
                            .remove("include_permissions_info"@)
                            .remove("includePermissionsInfo"@)
                            .remove("ignore_workbook_entries"@)
                            .remove("ignoreWorkbookEntries"@)
                            .remove("scope"@)
                            .remove("ids"@)
                    ),
            ),
        ),
    }
}

/// The payload that `datalens_get_dataset` sends for `arguments`, or the
/// argument that is refused.
pub open spec fn get_dataset_payload(arguments: Map<Seq<char>, JsonView>) -> Result<
    JsonView,
    ArgumentErrorView,
> {
    let dataset_id = required_text_spec(aliased(arguments, "dataset_id"@, "datasetId"@));
    let workbook_id = optional_text_spec(aliased(arguments, "workbook_id"@, "workbookId"@));
    let rev_id = optional_text_spec(aliased(arguments, "rev_id"@, "revId"@));
    match GetDatasetArgs::refused(arguments) {
        Some(error) => Err(error),
        None => Ok(
            JsonView::Object(
                no_fields()
                    .with("datasetId"@, Some(JsonView::String(dataset_id->Ok_0)))
                    .with("workbookId"@, text_field(workbook_id->Ok_0))
                    .with("rev_id"@, text_field(rev_id->Ok_0))
                    .union_prefer_right(
                        arguments
                            .remove("dataset_id"@)
                            .remove("datasetId"@)
                            .remove("workbook_id"@)
                            .remove("workbookId"@)
                            .remove("rev_id"@)
                            .remove("revId"@)
                    ),
            ),
        ),
    }
}

/// The payload that `datalens_get_dashboard` sends for `arguments`, or the
/// argument that is refused.
pub open spec fn get_dashboard_payload(arguments: Map<Seq<char>, JsonView>) -> Result<
    JsonView,
    ArgumentErrorView,
> {
    let dashboard_id = required_text_spec(aliased(arguments, "dashboard_id"@, "dashboardId"@));
    let rev_id = optional_text_spec(aliased(arguments, "rev_id"@, "revId"@));
    let include_permissions = optional_flag_spec(
        aliased_twice(
            arguments,
            "include_permissions"@,
            "includePermissions"@,
            "includePermissionsInfo"@,
        ),
    );
    let include_links = optional_flag_spec(aliased(arguments, "include_links"@, "includeLinks"@));
    let include_favorite = optional_flag_spec(
        aliased(arguments, "include_favorite"@, "includeFavorite"@),
    );
    let branch = optional_text_spec(named(arguments, "branch"@));
    let workbook_id = optional_text_spec(aliased(arguments, "workbook_id"@, "workbookId"@));
    match GetDashboardArgs::refused(arguments) {
        Some(error) => Err(error),
        None => Ok(
            JsonView::Object(
                no_fields()
                    .with("dashboardId"@, Some(JsonView::String(dashboard_id->Ok_0)))
                    .with("revId"@, text_field(rev_id->Ok_0))
                    .with("includePermissions"@, flag_field(include_permissions->Ok_0))
                    .with("includeLinks"@, flag_field(include_links->Ok_0))
                    .with("includeFavorite"@, flag_field(include_favorite->Ok_0))
                    .with("branch"@, text_field(branch->Ok_0))
                    .with("workbookId"@, text_field(workbook_id->Ok_0))
                    .union_prefer_right(
                        arguments
                            .remove("dashboard_id"@)
                            .remove("dashboardId"@)
                            .remove("rev_id"@)
                            .remove("revId"@)
                            .remove("include_permissions"@)
                            .remove("includePermissions"@)
                            .remove("includePermissionsInfo"@)
                            .remove("include_links"@)
                            .remove("includeLinks"@)
                            .remove("include_favorite"@)
                            .remove("includeFavorite"@)
                            .remove("branch"@)
                            .remove("workbook_id"@)
                            .remove("workbookId"@)
                    ),
            ),
        ),
    }
}

/// The payload that `datalens_get_connection` sends for `arguments`, or the
/// argument that is refused.
pub open spec fn get_connection_payload(arguments: Map<Seq<char>, JsonView>) -> Result<
    JsonView,
    ArgumentErrorView,
> {
    let connection_id = required_text_spec(aliased(arguments, "connection_id"@, "connectionId"@));
    let workbook_id = optional_text_spec(aliased(arguments, "workbook_id"@, "workbookId"@));
    let binded_dataset_id = optional_text_spec(
        aliased(arguments, "binded_dataset_id"@, "bindedDatasetId"@),
    );
    let rev_id = optional_text_spec(aliased(arguments, "rev_id"@, "revId"@));
    match GetConnectionArgs::refused(arguments) {
        Some(error) => Err(error),
        None => Ok(
            JsonView::Object(
                no_fields()
                    .with("connectionId"@, Some(JsonView::String(connection_id->Ok_0)))
                    .with("workbookId"@, text_field(workbook_id->Ok_0))
                    .with("bindedDatasetId"@, text_field(binded_dataset_id->Ok_0))
                    .with("rev_id"@, text_field(rev_id->Ok_0))
                    .union_prefer_right(
                        arguments
                            .remove("connection_id"@)
                            .remove("connectionId"@)
                            .remove("workbook_id"@)
                            .remove("workbookId"@)
                            .remove("binded_dataset_id"@)
                            .remove("bindedDatasetId"@)
                            .remove("rev_id"@)
                            .remove("revId"@)
                    ),
            ),
        ),
    }
}

/// The payload that `datalens_create_connection` sends for `arguments`, or
/// the argument that is refused.
pub open spec fn create_connection_payload(arguments: Map<Seq<char>, JsonView>) -> Result<
    JsonView,
    ArgumentErrorView,
> {
    let connection_type = required_text_spec(named(arguments, "type"@));
    match CreateConnectionArgs::refused(arguments) {
        Some(error) => Err(error),
        None => Ok(
            JsonView::Object(
                no_fields()
                    .with("type"@, Some(JsonView::String(connection_type->Ok_0)))
                    .union_prefer_right(
                        arguments
                            .remove("type"@)
                    ),
            ),
        ),
    }
}

/// The payload that `datalens_update_connection` sends for `arguments`, or
/// the argument that is refused.
pub open spec fn update_connection_payload(arguments: Map<Seq<char>, JsonView>) -> Result<
    JsonView,
    ArgumentErrorView,
> {
    let connection_id = required_text_spec(aliased(arguments, "connection_id"@, "connectionId"@));
    let data = required_document_spec(named(arguments, "data"@));
    match UpdateConnectionArgs::refused(arguments) {
        Some(error) => Err(error),
        None => Ok(
            JsonView::Object(
                no_fields()
                    .with("connectionId"@, Some(JsonView::String(connection_id->Ok_0)))
                    .with("data"@, Some(data->Ok_0))
                    .union_prefer_right(
                        arguments
                            .remove("connection_id"@)
                            .remove("connectionId"@)
                            .remove("data"@)
                    ),
            ),
        ),
    }
}

/// The payload that `datalens_delete_connection` sends for `arguments`, or
/// the argument that is refused.
pub open spec fn delete_connection_payload(arguments: Map<Seq<char>, JsonView>) -> Result<
    JsonView,
    ArgumentErrorView,
> {
    let connection_id = required_text_spec(aliased(arguments, "connection_id"@, "connectionId"@));
    match DeleteConnectionArgs::refused(arguments) {
        Some(error) => Err(error),
        None => Ok(
            JsonView::Object(
                no_fields()
                    .with("connectionId"@, Some(JsonView::String(connection_id->Ok_0)))
                    .union_prefer_right(
                        arguments
                            .remove("connection_id"@)
                            .remove("connectionId"@)
                    ),
            ),
        ),
    }
}

/// The payload that `datalens_create_dashboard` sends for `arguments`, or the
/// argument that is refused.
pub open spec fn create_dashboard_payload(arguments: Map<Seq<char>, JsonView>) -> Result<
    JsonView,
    ArgumentErrorView,
> {
    let entry = required_document_spec(named(arguments, "entry"@));
    let mode = required_text_spec(named(arguments, "mode"@));
    match CreateDashboardArgs::refused(arguments) {
        Some(error) => Err(error),
        None => Ok(
            JsonView::Object(
                no_fields()
                    .with("entry"@, Some(entry->Ok_0))
                    .with("mode"@, Some(JsonView::String(mode->Ok_0)))
                    .union_prefer_right(
                        arguments
                            .remove("entry"@)
                            .remove("mode"@)
                    ),
            ),
        ),
    }
}

/// The payload that `datalens_update_dashboard` sends for `arguments`, or the
/// argument that is refused.
pub open spec fn update_dashboard_payload(arguments: Map<Seq<char>, JsonView>) -> Result<
    JsonView,
    ArgumentErrorView,
> {
    let entry = required_document_spec(named(arguments, "entry"@));
    let mode = required_text_spec(named(arguments, "mode"@));
    match UpdateDashboardArgs::refused(arguments) {
        Some(error) => Err(error),
        None => Ok(
            JsonView::Object(
                no_fields()
                    .with("entry"@, Some(entry->Ok_0))
                    .with("mode"@, Some(JsonView::String(mode->Ok_0)))
                    .union_prefer_right(
                        arguments
                            .remove("entry"@)
                            .remove("mode"@)
                    ),
            ),
        ),
    }
}

/// The payload that `datalens_delete_dashboard` sends for `arguments`, or the
/// argument that is refused.
pub open spec fn delete_dashboard_payload(arguments: Map<Seq<char>, JsonView>) -> Result<
    JsonView,
    ArgumentErrorView,
> {
    let dashboard_id = required_text_spec(aliased(arguments, "dashboard_id"@, "dashboardId"@));
    let lock_token = optional_text_spec(aliased(arguments, "lock_token"@, "lockToken"@));
    match DeleteDashboardArgs::refused(arguments) {
        Some(error) => Err(error),
        None => Ok(
            JsonView::Object(
                no_fields()
                    .with("dashboardId"@, Some(JsonView::String(dashboard_id->Ok_0)))
                    .with("lockToken"@, text_field(lock_token->Ok_0))
                    .union_prefer_right(
                        arguments
                            .remove("dashboard_id"@)
                            .remove("dashboardId"@)
                            .remove("lock_token"@)
                            .remove("lockToken"@)
                    ),
            ),
        ),
    }
}

/// The payload that `datalens_create_dataset` sends for `arguments`, or the
/// argument that is refused.
pub open spec fn create_dataset_payload(arguments: Map<Seq<char>, JsonView>) -> Result<
    JsonView,
    ArgumentErrorView,
> {
    let dataset = required_document_spec(named(arguments, "dataset"@));
    let created_via = optional_value_spec(aliased(arguments, "created_via"@, "createdVia"@));
    let dir_path = optional_text_spec(aliased(arguments, "dir_path"@, "dirPath"@));
    let name = optional_text_spec(named(arguments, "name"@));
    let options = optional_value_spec(named(arguments, "options"@));
    let preview = optional_flag_spec(named(arguments, "preview"@));
    let workbook_id = optional_text_spec(aliased(arguments, "workbook_id"@, "workbookId"@));
    match CreateDatasetArgs::refused(arguments) {
        Some(error) => Err(error),
        None => Ok(
            JsonView::Object(
                no_fields()
                    .with("dataset"@, Some(dataset->Ok_0))
                    .with("created_via"@, created_via)
                    .with("dir_path"@, text_field(dir_path->Ok_0))
                    .with("name"@, text_field(name->Ok_0))
                    .with("options"@, options)
                    .with("preview"@, flag_field(preview->Ok_0))
                    .with("workbook_id"@, text_field(workbook_id->Ok_0))
                    .union_prefer_right(
                        arguments
                            .remove("dataset"@)
                            .remove("created_via"@)
                            .remove("createdVia"@)
                            .remove("dir_path"@)
                            .remove("dirPath"@)
                            .remove("name"@)
                            .remove("options"@)
                            .remove("preview"@)
                            .remove("workbook_id"@)
                            .remove("workbookId"@)
                    ),
            ),
        ),
    }
}

/// The payload that `datalens_update_dataset` sends for `arguments`, or the
/// argument that is refused.
pub open spec fn update_dataset_payload(arguments: Map<Seq<char>, JsonView>) -> Result<
    JsonView,
    ArgumentErrorView,
> {
    let dataset_id = required_text_spec(aliased(arguments, "dataset_id"@, "datasetId"@));
    let data = optional_document_spec(named(arguments, "data"@));
    match UpdateDatasetArgs::refused(arguments) {
        Some(error) => Err(error),
        None => Ok(
            JsonView::Object(
                no_fields()
                    .with("datasetId"@, Some(JsonView::String(dataset_id->Ok_0)))
                    .with("data"@, Some(document_or_empty(data->Ok_0)))
                    .union_prefer_right(
                        arguments
                            .remove("dataset_id"@)
                            .remove("datasetId"@)
                            .remove("data"@)
                    ),
            ),
        ),
    }
}

/// The payload that `datalens_delete_dataset` sends for `arguments`, or the
/// argument that is refused.
pub open spec fn delete_dataset_payload(arguments: Map<Seq<char>, JsonView>) -> Result<
    JsonView,
    ArgumentErrorView,
> {
    let dataset_id = required_text_spec(aliased(arguments, "dataset_id"@, "datasetId"@));
    match DeleteDatasetArgs::refused(arguments) {
        Some(error) => Err(error),
        None => Ok(
            JsonView::Object(
                no_fields()
                    .with("datasetId"@, Some(JsonView::String(dataset_id->Ok_0)))
                    .union_prefer_right(
                        arguments
                            .remove("dataset_id"@)
                            .remove("datasetId"@)
                    ),
            ),
        ),
    }
}

/// The payload that `datalens_validate_dataset` sends for `arguments`, or the
/// argument that is refused.
pub open spec fn validate_dataset_payload(arguments: Map<Seq<char>, JsonView>) -> Result<
    JsonView,
    ArgumentErrorView,
> {
    let dataset_id = required_text_spec(aliased(arguments, "dataset_id"@, "datasetId"@));
    let workbook_id = optional_text_spec(aliased(arguments, "workbook_id"@, "workbookId"@));
    let data = optional_document_spec(named(arguments, "data"@));
    match ValidateDatasetArgs::refused(arguments) {
        Some(error) => Err(error),
        None => Ok(
            JsonView::Object(
                no_fields()
                    .with("datasetId"@, Some(JsonView::String(dataset_id->Ok_0)))
                    .with("workbookId"@, text_field(workbook_id->Ok_0))
                    .with("data"@, Some(document_or_empty(data->Ok_0)))
                    .union_prefer_right(
                        arguments
                            .remove("dataset_id"@)
                            .remove("datasetId"@)
                            .remove("workbook_id"@)
                            .remove("workbookId"@)
                            .remove("data"@)
                    ),
            ),
        ),
    }
}

/// The payload that `datalens_get_entries_relations` sends for `arguments`,
/// or the argument that is refused.
pub open spec fn get_entries_relations_payload(arguments: Map<Seq<char>, JsonView>) -> Result<
    JsonView,
    ArgumentErrorView,
> {
    let entry_ids = required_text_list_spec(aliased(arguments, "entry_ids"@, "entryIds"@));
    let link_direction = optional_text_spec(
        aliased(arguments, "link_direction"@, "linkDirection"@),
    );
    let include_permissions_info = optional_flag_spec(
        aliased(arguments, "include_permissions_info"@, "includePermissionsInfo"@),
    );
    let limit = optional_number_spec(named(arguments, "limit"@));
    let page_token = optional_text_spec(aliased(arguments, "page_token"@, "pageToken"@));
    let scope = optional_text_spec(named(arguments, "scope"@));
    match GetEntriesRelationsArgs::refused(arguments) {
        Some(error) => Err(error),
        None => Ok(
            JsonView::Object(
                no_fields()
                    .with("entryIds"@, Some(text_array_view(entry_ids->Ok_0)))
                    .with("linkDirection"@, text_field(link_direction->Ok_0))
                    .with("includePermissionsInfo"@, flag_field(include_permissions_info->Ok_0))
                    .with("limit"@, number_field(limit->Ok_0))
                    .with("pageToken"@, text_field(page_token->Ok_0))
                    .with("scope"@, text_field(scope->Ok_0))
                    .union_prefer_right(
                        arguments
                            .remove("entry_ids"@)
                            .remove("entryIds"@)
                            .remove("link_direction"@)
                            .remove("linkDirection"@)
                            .remove("include_permissions_info"@)
                            .remove("includePermissionsInfo"@)
                            .remove("limit"@)
                            .remove("page_token"@)
                            .remove("pageToken"@)
                            .remove("scope"@)
                    ),
            ),
        ),
    }
}

/// The payload that `datalens_create_editor_chart` sends for `arguments`, or
/// the argument that is refused.
pub open spec fn create_editor_chart_payload(arguments: Map<Seq<char>, JsonView>) -> Result<
    JsonView,
    ArgumentErrorView,
> {
    let entry = required_document_spec(named(arguments, "entry"@));
    let mode = optional_text_spec(named(arguments, "mode"@));
    match CreateEditorChartArgs::refused(arguments) {
        Some(error) => Err(error),
        None => Ok(
            JsonView::Object(
                no_fields()
                    .with("entry"@, Some(entry->Ok_0))
                    .with("mode"@, text_field(mode->Ok_0))
                    .union_prefer_right(
                        arguments
                            .remove("entry"@)
                            .remove("mode"@)
                    ),
            ),
        ),
    }
}

/// The payload that `datalens_update_editor_chart` sends for `arguments`, or
/// the argument that is refused.
pub open spec fn update_editor_chart_payload(arguments: Map<Seq<char>, JsonView>) -> Result<
    JsonView,
    ArgumentErrorView,
> {
    let entry = required_document_spec(named(arguments, "entry"@));
    let mode = required_text_spec(named(arguments, "mode"@));
    match UpdateEditorChartArgs::refused(arguments) {
        Some(error) => Err(error),
        None => Ok(
            JsonView::Object(
                no_fields()
                    .with("entry"@, Some(entry->Ok_0))
                    .with("mode"@, Some(JsonView::String(mode->Ok_0)))
                    .union_prefer_right(
                        arguments
                            .remove("entry"@)
                            .remove("mode"@)
                    ),
            ),
        ),
    }
}

/// The payload that `datalens_get_entries_permissions` sends for `arguments`,
/// or the argument that is refused.
pub open spec fn get_entries_permissions_payload(arguments: Map<Seq<char>, JsonView>) -> Result<
    JsonView,
    ArgumentErrorView,
> {
    let entry_ids = required_text_list_spec(aliased(arguments, "entry_ids"@, "entryIds"@));
    match EntriesPermissionsArgs::refused(arguments) {
        Some(error) => Err(error),
        None => Ok(
            JsonView::Object(
                no_fields()
                    .with("entryIds"@, Some(text_array_view(entry_ids->Ok_0)))
                    .union_prefer_right(
                        arguments
                            .remove("entry_ids"@)
                            .remove("entryIds"@)
                    ),
            ),
        ),
    }
}

/// The payload that `datalens_get_audit_entries_updates` sends for
/// `arguments`, or the argument that is refused.
pub open spec fn get_audit_entries_updates_payload(arguments: Map<Seq<char>, JsonView>) -> Result<
    JsonView,
    ArgumentErrorView,
> {
    let from = required_text_spec(named(arguments, "from"@));
    let to = optional_text_spec(named(arguments, "to"@));
    let limit = optional_number_spec(named(arguments, "limit"@));
    let page_token = optional_text_spec(aliased(arguments, "page_token"@, "pageToken"@));
    match AuditEntriesUpdatesArgs::refused(arguments) {
        Some(error) => Err(error),
        None => Ok(
            JsonView::Object(
                no_fields()
                    .with("from"@, Some(JsonView::String(from->Ok_0)))
                    .with("to"@, text_field(to->Ok_0))
                    .with("limit"@, number_field(limit->Ok_0))
                    .with("pageToken"@, text_field(page_token->Ok_0))
                    .union_prefer_right(
                        arguments
                            .remove("from"@)
                            .remove("to"@)
                            .remove("limit"@)
                            .remove("page_token"@)
                            .remove("pageToken"@)
                    ),
            ),
        ),
    }
}

/// The payload that the tools that fetch a chart send for `arguments`, or the
/// argument that is refused.
pub open spec fn get_chart_payload(arguments: Map<Seq<char>, JsonView>) -> Result<
    JsonView,
    ArgumentErrorView,
> {
    let chart_id = required_text_spec(aliased(arguments, "chart_id"@, "chartId"@));
    let workbook_id = optional_text_spec(aliased(arguments, "workbook_id"@, "workbookId"@));
    let rev_id = optional_text_spec(aliased(arguments, "rev_id"@, "revId"@));
    let include_permissions = optional_flag_spec(
        aliased_twice(
            arguments,
            "include_permissions"@,
            "includePermissions"@,
            "includePermissionsInfo"@,
        ),
    );
    let include_links = optional_flag_spec(aliased(arguments, "include_links"@, "includeLinks"@));
    let include_favorite = optional_flag_spec(
        aliased(arguments, "include_favorite"@, "includeFavorite"@),
    );
    let branch = optional_text_spec(named(arguments, "branch"@));
    match GetChartArgs::refused(arguments) {
        Some(error) => Err(error),
        None => Ok(
            JsonView::Object(
                no_fields()
                    .with("chartId"@, Some(JsonView::String(chart_id->Ok_0)))
                    .with("workbookId"@, text_field(workbook_id->Ok_0))
                    .with("revId"@, text_field(rev_id->Ok_0))
                    .with("includePermissions"@, flag_field(include_permissions->Ok_0))
                    .with("includeLinks"@, flag_field(include_links->Ok_0))
                    .with("includeFavorite"@, flag_field(include_favorite->Ok_0))
                    .with("branch"@, text_field(branch->Ok_0))
                    .union_prefer_right(
                        arguments
                            .remove("chart_id"@)
                            .remove("chartId"@)
                            .remove("workbook_id"@)
                            .remove("workbookId"@)
                            .remove("rev_id"@)
                            .remove("revId"@)
                            .remove("include_permissions"@)
                            .remove("includePermissions"@)
                            .remove("includePermissionsInfo"@)
                            .remove("include_links"@)
                            .remove("includeLinks"@)
                            .remove("include_favorite"@)
                            .remove("includeFavorite"@)
                            .remove("branch"@)
                    ),
            ),
        ),
    }
}

/// The payload that the tools that delete a chart send for `arguments`, or
/// the argument that is refused.
pub open spec fn delete_chart_payload(arguments: Map<Seq<char>, JsonView>) -> Result<
    JsonView,
    ArgumentErrorView,
> {
    let chart_id = required_text_spec(aliased(arguments, "chart_id"@, "chartId"@));
    match DeleteChartArgs::refused(arguments) {
        Some(error) => Err(error),
        None => Ok(
            JsonView::Object(
                no_fields()
                    .with("chartId"@, Some(JsonView::String(chart_id->Ok_0)))
                    .union_prefer_right(
                        arguments
                            .remove("chart_id"@)
                            .remove("chartId"@)
                    ),
            ),
        ),
    }
}

/// What the tool `tool` does when it is called with `arguments`.
pub open spec fn dispatch_spec(tool: Seq<char>, arguments: Map<Seq<char>, JsonView>) -> Result<
    ToolActionView,
    RequestErrorView,
> {
    if tool == "datalens_rpc"@ {
        generic_call(arguments)
    } else if tool == "datalens_list_methods"@ {
        Ok(ToolActionView::Answer(listing_spec()))
    } else if tool == "datalens_get_method_schema"@ {
        schema_answer(arguments)
    } else if tool == "datalens_list_directory"@ {
        call_or_refusal("listDirectory"@, list_directory_payload(arguments))
    } else if tool == "datalens_get_entries"@ {
        call_or_refusal("getEntries"@, get_entries_payload(arguments))
    } else if tool == "datalens_get_dataset"@ {
        call_or_refusal("getDataset"@, get_dataset_payload(arguments))
    } else if tool == "datalens_get_dashboard"@ {
        call_or_refusal("getDashboard"@, get_dashboard_payload(arguments))
    } else if tool == "datalens_get_connection"@ {
        call_or_refusal("getConnection"@, get_connection_payload(arguments))
    } else if tool == "datalens_create_connection"@ {
        call_or_refusal("createConnection"@, create_connection_payload(arguments))
    } else if tool == "datalens_update_connection"@ {
        call_or_refusal("updateConnection"@, update_connection_payload(arguments))
    } else if tool == "datalens_delete_connection"@ {
        call_or_refusal("deleteConnection"@, delete_connection_payload(arguments))
    } else if tool == "datalens_create_dashboard"@ {
        call_or_refusal("createDashboard"@, create_dashboard_payload(arguments))
    } else if tool == "datalens_update_dashboard"@ {
        call_or_refusal("updateDashboard"@, update_dashboard_payload(arguments))
    } else if tool == "datalens_delete_dashboard"@ {
        call_or_refusal("deleteDashboard"@, delete_dashboard_payload(arguments))
    } else if tool == "datalens_create_dataset"@ {
        call_or_refusal("createDataset"@, create_dataset_payload(arguments))
    } else if tool == "datalens_update_dataset"@ {
        call_or_refusal("updateDataset"@, update_dataset_payload(arguments))
    } else if tool == "datalens_delete_dataset"@ {
        call_or_refusal("deleteDataset"@, delete_dataset_payload(arguments))
    } else if tool == "datalens_validate_dataset"@ {
        call_or_refusal("validateDataset"@, validate_dataset_payload(arguments))
    } else if tool == "datalens_get_entries_relations"@ {
        call_or_refusal("getEntriesRelations"@, get_entries_relations_payload(arguments))
    } else if tool == "datalens_create_editor_chart"@ {
        call_or_refusal("createEditorChart"@, create_editor_chart_payload(arguments))
    } else if tool == "datalens_update_editor_chart"@ {
        call_or_refusal("updateEditorChart"@, update_editor_chart_payload(arguments))
    } else if tool == "datalens_get_entries_permissions"@ {
        call_or_refusal("getEntriesPermissions"@, get_entries_permissions_payload(arguments))
    } else if tool == "datalens_get_audit_entries_updates"@ {
        call_or_refusal("getAuditEntriesUpdates"@, get_audit_entries_updates_payload(arguments))
    } else if tool == "datalens_get_ql_chart"@ {
        call_or_refusal("getQLChart"@, get_chart_payload(arguments))
    } else if tool == "datalens_get_wizard_chart"@ {
        call_or_refusal("getWizardChart"@, get_chart_payload(arguments))
    } else if tool == "datalens_get_editor_chart"@ {
        call_or_refusal("getEditorChart"@, get_chart_payload(arguments))
    } else if tool == "datalens_delete_ql_chart"@ {
        call_or_refusal("deleteQLChart"@, delete_chart_payload(arguments))
    } else if tool == "datalens_delete_wizard_chart"@ {
        call_or_refusal("deleteWizardChart"@, delete_chart_payload(arguments))
    } else if tool == "datalens_delete_editor_chart"@ {
        call_or_refusal("deleteEditorChart"@, delete_chart_payload(arguments))
    } else {
        Err(
            RequestErrorView::InvalidArguments {
                method: tool,
                message: unknown_tool_message(tool),
            },
        )
    }
}

fn prepare_rpc(arguments: &JsonObject) -> (outcome: Result<ToolAction, RequestError>)
    ensures
        action_view(outcome) == generic_call(arguments@),
{
    match DatalensRpcArgs::from_arguments(arguments) {
        Ok(args) => Ok(ToolAction::Call(datalens_rpc(args))),
        Err(error) => Err(error.into_request_error("datalens_rpc")),
    }
}

fn answer_schema(arguments: &JsonObject) -> (outcome: Result<ToolAction, RequestError>)
    ensures
        action_view(outcome) == schema_answer(arguments@),
{
    match required_text(find(arguments, "method"), "method") {
        Ok(method) => match datalens_get_method_schema(method.as_str()) {
            Ok(entry) => Ok(ToolAction::Answer(entry)),
            Err(error) => Err(error),
        },
        Err(error) => Err(error.into_request_error("datalens_get_method_schema")),
    }
}

fn prepare_list_directory(arguments: &JsonObject) -> (outcome: Result<ToolAction, RequestError>)
    ensures
        action_view(
            outcome) == call_or_refusal("listDirectory"@,
            list_directory_payload(arguments@),
        ),
{
    match ListDirectoryArgs::from_arguments(arguments) {
        Ok(args) => Ok(ToolAction::Call(datalens_list_directory(args))),
        Err(error) => Err(error.into_request_error("listDirectory")),
    }
}

fn prepare_get_entries(arguments: &JsonObject) -> (outcome: Result<ToolAction, RequestError>)
    ensures
        action_view(outcome) == call_or_refusal("getEntries"@, get_entries_payload(arguments@)),
{
    match GetEntriesArgs::from_arguments(arguments) {
        Ok(args) => Ok(ToolAction::Call(datalens_get_entries(args))),
        Err(error) => Err(error.into_request_error("getEntries")),
    }
}

fn prepare_get_dataset(arguments: &JsonObject) -> (outcome: Result<ToolAction, RequestError>)
    ensures
        action_view(outcome) == call_or_refusal("getDataset"@, get_dataset_payload(arguments@)),
{
    match GetDatasetArgs::from_arguments(arguments) {
        Ok(args) => Ok(ToolAction::Call(datalens_get_dataset(args))),
        Err(error) => Err(error.into_request_error("getDataset")),
    }
}

fn prepare_get_dashboard(arguments: &JsonObject) -> (outcome: Result<ToolAction, RequestError>)
    ensures
        action_view(outcome) == call_or_refusal("getDashboard"@, get_dashboard_payload(arguments@)),
{
    match GetDashboardArgs::from_arguments(arguments) {
        Ok(args) => Ok(ToolAction::Call(datalens_get_dashboard(args))),
        Err(error) => Err(error.into_request_error("getDashboard")),
    }
}

fn prepare_get_connection(arguments: &JsonObject) -> (outcome: Result<ToolAction, RequestError>)
    ensures
        action_view(
            outcome) == call_or_refusal("getConnection"@,
            get_connection_payload(arguments@),
        ),
{
    match GetConnectionArgs::from_arguments(arguments) {
        Ok(args) => Ok(ToolAction::Call(datalens_get_connection(args))),
        Err(error) => Err(error.into_request_error("getConnection")),
    }
}

fn prepare_create_connection(arguments: &JsonObject) -> (outcome: Result<ToolAction, RequestError>)
    ensures
        action_view(
            outcome) == call_or_refusal("createConnection"@,
            create_connection_payload(arguments@),
        ),
{
    match CreateConnectionArgs::from_arguments(arguments) {
        Ok(args) => Ok(ToolAction::Call(datalens_create_connection(args))),
        Err(error) => Err(error.into_request_error("createConnection")),
    }
}

fn prepare_update_connection(arguments: &JsonObject) -> (outcome: Result<ToolAction, RequestError>)
    ensures
        action_view(
            outcome) == call_or_refusal("updateConnection"@,
            update_connection_payload(arguments@),
        ),
{
    match UpdateConnectionArgs::from_arguments(arguments) {
        Ok(args) => Ok(ToolAction::Call(datalens_update_connection(args))),
        Err(error) => Err(error.into_request_error("updateConnection")),
    }
}

fn prepare_delete_connection(arguments: &JsonObject) -> (outcome: Result<ToolAction, RequestError>)
    ensures
        action_view(
            outcome) == call_or_refusal("deleteConnection"@,
            delete_connection_payload(arguments@),
        ),
{
    match DeleteConnectionArgs::from_arguments(arguments) {
        Ok(args) => Ok(ToolAction::Call(datalens_delete_connection(args))),
        Err(error) => Err(error.into_request_error("deleteConnection")),
    }
}

fn prepare_create_dashboard(arguments: &JsonObject) -> (outcome: Result<ToolAction, RequestError>)
    ensures
        action_view(
            outcome) == call_or_refusal("createDashboard"@,
            create_dashboard_payload(arguments@),
        ),
{
    match CreateDashboardArgs::from_arguments(arguments) {
        Ok(args) => Ok(ToolAction::Call(datalens_create_dashboard(args))),
        Err(error) => Err(error.into_request_error("createDashboard")),
    }
}

fn prepare_update_dashboard(arguments: &JsonObject) -> (outcome: Result<ToolAction, RequestError>)
    ensures
        action_view(
            outcome) == call_or_refusal("updateDashboard"@,
            update_dashboard_payload(arguments@),
        ),
{
    match UpdateDashboardArgs::from_arguments(arguments) {
        Ok(args) => Ok(ToolAction::Call(datalens_update_dashboard(args))),
        Err(error) => Err(error.into_request_error("updateDashboard")),
    }
}

fn prepare_delete_dashboard(arguments: &JsonObject) -> (outcome: Result<ToolAction, RequestError>)
    ensures
        action_view(
            outcome) == call_or_refusal("deleteDashboard"@,
            delete_dashboard_payload(arguments@),
        ),
{
    match DeleteDashboardArgs::from_arguments(arguments) {
        Ok(args) => Ok(ToolAction::Call(datalens_delete_dashboard(args))),
        Err(error) => Err(error.into_request_error("deleteDashboard")),
    }
}

fn prepare_create_dataset(arguments: &JsonObject) -> (outcome: Result<ToolAction, RequestError>)
    ensures
        action_view(
            outcome) == call_or_refusal("createDataset"@,
            create_dataset_payload(arguments@),
        ),
{
    match CreateDatasetArgs::from_arguments(arguments) {
        Ok(args) => Ok(ToolAction::Call(datalens_create_dataset(args))),
        Err(error) => Err(error.into_request_error("createDataset")),
    }
}

fn prepare_update_dataset(arguments: &JsonObject) -> (outcome: Result<ToolAction, RequestError>)
    ensures
        action_view(
            outcome) == call_or_refusal("updateDataset"@,
            update_dataset_payload(arguments@),
        ),
{
    match UpdateDatasetArgs::from_arguments(arguments) {
        Ok(args) => Ok(ToolAction::Call(datalens_update_dataset(args))),
        Err(error) => Err(error.into_request_error("updateDataset")),
    }
}

fn prepare_delete_dataset(arguments: &JsonObject) -> (outcome: Result<ToolAction, RequestError>)
    ensures
        action_view(
            outcome) == call_or_refusal("deleteDataset"@,
            delete_dataset_payload(arguments@),
        ),
{
    match DeleteDatasetArgs::from_arguments(arguments) {
        Ok(args) => Ok(ToolAction::Call(datalens_delete_dataset(args))),
        Err(error) => Err(error.into_request_error("deleteDataset")),
    }
}

fn prepare_validate_dataset(arguments: &JsonObject) -> (outcome: Result<ToolAction, RequestError>)
    ensures
        action_view(
            outcome) == call_or_refusal("validateDataset"@,
            validate_dataset_payload(arguments@),
        ),
{
    match ValidateDatasetArgs::from_arguments(arguments) {
        Ok(args) => Ok(ToolAction::Call(datalens_validate_dataset(args))),
        Err(error) => Err(error.into_request_error("validateDataset")),
    }
}

fn prepare_get_entries_relations(arguments: &JsonObject) -> (outcome: Result<
    ToolAction,
    RequestError,
>)
    ensures
        action_view(
            outcome) == call_or_refusal("getEntriesRelations"@,
            get_entries_relations_payload(arguments@),
        ),
{
    match GetEntriesRelationsArgs::from_arguments(arguments) {
        Ok(args) => Ok(ToolAction::Call(datalens_get_entries_relations(args))),
        Err(error) => Err(error.into_request_error("getEntriesRelations")),
    }
}

fn prepare_create_editor_chart(arguments: &JsonObject) -> (outcome: Result<
    ToolAction,
    RequestError,
>)
    ensures
        action_view(
            outcome) == call_or_refusal("createEditorChart"@,
            create_editor_chart_payload(arguments@),
        ),
{
    match CreateEditorChartArgs::from_arguments(arguments) {
        Ok(args) => Ok(ToolAction::Call(datalens_create_editor_chart(args))),
        Err(error) => Err(error.into_request_error("createEditorChart")),
    }
}

fn prepare_update_editor_chart(arguments: &JsonObject) -> (outcome: Result<
    ToolAction,
    RequestError,
>)
    ensures
        action_view(
            outcome) == call_or_refusal("updateEditorChart"@,
            update_editor_chart_payload(arguments@),
        ),
{
    match UpdateEditorChartArgs::from_arguments(arguments) {
        Ok(args) => Ok(ToolAction::Call(datalens_update_editor_chart(args))),
        Err(error) => Err(error.into_request_error("updateEditorChart")),
    }
}

fn prepare_get_entries_permissions(arguments: &JsonObject) -> (outcome: Result<
    ToolAction,
    RequestError,
>)
    ensures
        action_view(
            outcome) == call_or_refusal("getEntriesPermissions"@,
            get_entries_permissions_payload(arguments@),
        ),
{
    match EntriesPermissionsArgs::from_arguments(arguments) {
        Ok(args) => Ok(ToolAction::Call(datalens_get_entries_permissions(args))),
        Err(error) => Err(error.into_request_error("getEntriesPermissions")),
    }
}

fn prepare_get_audit_entries_updates(arguments: &JsonObject) -> (outcome: Result<
    ToolAction,
    RequestError,
>)
    ensures
        action_view(
            outcome) == call_or_refusal("getAuditEntriesUpdates"@,
            get_audit_entries_updates_payload(arguments@),
        ),
{
    match AuditEntriesUpdatesArgs::from_arguments(arguments) {
        Ok(args) => Ok(ToolAction::Call(datalens_get_audit_entries_updates(args))),
        Err(error) => Err(error.into_request_error("getAuditEntriesUpdates")),
    }
}

fn prepare_get_ql_chart(arguments: &JsonObject) -> (outcome: Result<ToolAction, RequestError>)
    ensures
        action_view(outcome) == call_or_refusal("getQLChart"@, get_chart_payload(arguments@)),
{
    match GetChartArgs::from_arguments(arguments) {
        Ok(args) => Ok(ToolAction::Call(datalens_get_ql_chart(args))),
        Err(error) => Err(error.into_request_error("getQLChart")),
    }
}

fn prepare_get_wizard_chart(arguments: &JsonObject) -> (outcome: Result<ToolAction, RequestError>)
    ensures
        action_view(outcome) == call_or_refusal("getWizardChart"@, get_chart_payload(arguments@)),
{
    match GetChartArgs::from_arguments(arguments) {
        Ok(args) => Ok(ToolAction::Call(datalens_get_wizard_chart(args))),
        Err(error) => Err(error.into_request_error("getWizardChart")),
    }
}

fn prepare_get_editor_chart(arguments: &JsonObject) -> (outcome: Result<ToolAction, RequestError>)
    ensures
        action_view(outcome) == call_or_refusal("getEditorChart"@, get_chart_payload(arguments@)),
{
    match GetChartArgs::from_arguments(arguments) {
        Ok(args) => Ok(ToolAction::Call(datalens_get_editor_chart(args))),
        Err(error) => Err(error.into_request_error("getEditorChart")),
    }
}

fn prepare_delete_ql_chart(arguments: &JsonObject) -> (outcome: Result<ToolAction, RequestError>)
    ensures
        action_view(outcome) == call_or_refusal("deleteQLChart"@, delete_chart_payload(arguments@)),
{
    match DeleteChartArgs::from_arguments(arguments) {
        Ok(args) => Ok(ToolAction::Call(datalens_delete_ql_chart(args))),
        Err(error) => Err(error.into_request_error("deleteQLChart")),
    }
}

fn prepare_delete_wizard_chart(arguments: &JsonObject) -> (outcome: Result<
    ToolAction,
    RequestError,
>)
    ensures
        action_view(
            outcome) == call_or_refusal("deleteWizardChart"@,
            delete_chart_payload(arguments@),
        ),
{
    match DeleteChartArgs::from_arguments(arguments) {
        Ok(args) => Ok(ToolAction::Call(datalens_delete_wizard_chart(args))),
        Err(error) => Err(error.into_request_error("deleteWizardChart")),
    }
}

fn prepare_delete_editor_chart(arguments: &JsonObject) -> (outcome: Result<
    ToolAction,
    RequestError,
>)
    ensures
        action_view(
            outcome) == call_or_refusal("deleteEditorChart"@,
            delete_chart_payload(arguments@),
        ),
{
    match DeleteChartArgs::from_arguments(arguments) {
        Ok(args) => Ok(ToolAction::Call(datalens_delete_editor_chart(args))),
        Err(error) => Err(error.into_request_error("deleteEditorChart")),
    }
}

/// The length of each tool's name and the letters that tell the names apart.
proof fn lemma_tool_marks()
    ensures
        "datalens_rpc"@.len() == 12,
        "datalens_list_methods"@.len() == 21,
        "datalens_list_methods"@[9] == 'l',
        "datalens_get_method_schema"@.len() == 26,
        "datalens_get_method_schema"@[9] == 'g',
        "datalens_list_directory"@.len() == 23,
        "datalens_list_directory"@[9] == 'l',
        "datalens_get_entries"@.len() == 20,
        "datalens_get_entries"@[13] == 'e',
        "datalens_get_dataset"@.len() == 20,
        "datalens_get_dataset"@[13] == 'd',
        "datalens_get_dashboard"@.len() == 22,
        "datalens_get_connection"@.len() == 23,
        "datalens_get_connection"@[9] == 'g',
        "datalens_create_connection"@.len() == 26,
        "datalens_create_connection"@[9] == 'c',
        "datalens_update_connection"@.len() == 26,
        "datalens_update_connection"@[9] == 'u',
        "datalens_delete_connection"@.len() == 26,
        "datalens_delete_connection"@[9] == 'd',
        "datalens_create_dashboard"@.len() == 25,
        "datalens_create_dashboard"@[9] == 'c',
        "datalens_create_dashboard"@[13] == 't',
        "datalens_update_dashboard"@.len() == 25,
        "datalens_update_dashboard"@[9] == 'u',
        "datalens_update_dashboard"@[13] == 't',
        "datalens_delete_dashboard"@.len() == 25,
        "datalens_delete_dashboard"@[9] == 'd',
        "datalens_delete_dashboard"@[13] == 't',
        "datalens_create_dataset"@.len() == 23,
        "datalens_create_dataset"@[9] == 'c',
        "datalens_update_dataset"@.len() == 23,
        "datalens_update_dataset"@[9] == 'u',
        "datalens_delete_dataset"@.len() == 23,
        "datalens_delete_dataset"@[9] == 'd',
        "datalens_validate_dataset"@.len() == 25,
        "datalens_validate_dataset"@[9] == 'v',
        "datalens_validate_dataset"@[13] == 'd',
        "datalens_get_entries_relations"@.len() == 30,
        "datalens_create_editor_chart"@.len() == 28,
        "datalens_create_editor_chart"@[9] == 'c',
        "datalens_create_editor_chart"@[16] == 'e',
        "datalens_update_editor_chart"@.len() == 28,
        "datalens_update_editor_chart"@[9] == 'u',
        "datalens_update_editor_chart"@[16] == 'e',
        "datalens_get_entries_permissions"@.len() == 32,
        "datalens_get_audit_entries_updates"@.len() == 34,
        "datalens_get_ql_chart"@.len() == 21,
        "datalens_get_ql_chart"@[9] == 'g',
        "datalens_get_wizard_chart"@.len() == 25,
        "datalens_get_wizard_chart"@[9] == 'g',
        "datalens_get_wizard_chart"@[13] == 'w',
        "datalens_get_editor_chart"@.len() == 25,
        "datalens_get_editor_chart"@[9] == 'g',
        "datalens_get_editor_chart"@[13] == 'e',
        "datalens_delete_ql_chart"@.len() == 24,
        "datalens_delete_wizard_chart"@.len() == 28,
        "datalens_delete_wizard_chart"@[9] == 'd',
        "datalens_delete_wizard_chart"@[16] == 'w',
        "datalens_delete_editor_chart"@.len() == 28,
        "datalens_delete_editor_chart"@[9] == 'd',
        "datalens_delete_editor_chart"@[16] == 'e',
{
    reveal_strlit("datalens_rpc");
    reveal_strlit("datalens_list_methods");
    reveal_strlit("datalens_get_method_schema");
    reveal_strlit("datalens_list_directory");
    reveal_strlit("datalens_get_entries");
    reveal_strlit("datalens_get_dataset");
    reveal_strlit("datalens_get_dashboard");
    reveal_strlit("datalens_get_connection");
    reveal_strlit("datalens_create_connection");
    reveal_strlit("datalens_update_connection");
    reveal_strlit("datalens_delete_connection");
    reveal_strlit("datalens_create_dashboard");
    reveal_strlit("datalens_update_dashboard");
    reveal_strlit("datalens_delete_dashboard");
    reveal_strlit("datalens_create_dataset");
    reveal_strlit("datalens_update_dataset");
    reveal_strlit("datalens_delete_dataset");
    reveal_strlit("datalens_validate_dataset");
    reveal_strlit("datalens_get_entries_relations");
    reveal_strlit("datalens_create_editor_chart");
    reveal_strlit("datalens_update_editor_chart");
    reveal_strlit("datalens_get_entries_permissions");
    reveal_strlit("datalens_get_audit_entries_updates");
    reveal_strlit("datalens_get_ql_chart");
    reveal_strlit("datalens_get_wizard_chart");
    reveal_strlit("datalens_get_editor_chart");
    reveal_strlit("datalens_delete_ql_chart");
    reveal_strlit("datalens_delete_wizard_chart");
    reveal_strlit("datalens_delete_editor_chart");
}

/// Every tool that the catalog names is a tool of the gateway, and the call
/// that it makes, or the refusal of its arguments, is for the method of its
/// entry.
pub proof fn lemma_catalog_tools_are_dispatched(i: int, arguments: Map<Seq<char>, JsonView>)
    requires
        0 <= i < catalog_spec().len(),
    ensures
        match dispatch_spec(catalog_spec()[i].tool@, arguments) {
            Ok(ToolActionView::Call { method, .. }) => method == catalog_spec()[i].method@,
            Ok(ToolActionView::Answer(_)) => false,
            Err(RequestErrorView::InvalidArguments { method, .. }) => method == catalog_spec()[
                i
            ].method@,
            Err(_) => false,
        },
{
    lemma_tool_marks();
    if i == 0 {
        assert(catalog_spec()[i].tool@ == "datalens_get_connection"@);
    } else if i == 1 {
        assert(catalog_spec()[i].tool@ == "datalens_create_connection"@);
    } else if i == 2 {
        assert(catalog_spec()[i].tool@ == "datalens_update_connection"@);
    } else if i == 3 {
        assert(catalog_spec()[i].tool@ == "datalens_delete_connection"@);
    } else if i == 4 {
        assert(catalog_spec()[i].tool@ == "datalens_get_dashboard"@);
    } else if i == 5 {
        assert(catalog_spec()[i].tool@ == "datalens_create_dashboard"@);
    } else if i == 6 {
        assert(catalog_spec()[i].tool@ == "datalens_update_dashboard"@);
    } else if i == 7 {
        assert(catalog_spec()[i].tool@ == "datalens_delete_dashboard"@);
    } else if i == 8 {
        assert(catalog_spec()[i].tool@ == "datalens_get_dataset"@);
    } else if i == 9 {
        assert(catalog_spec()[i].tool@ == "datalens_create_dataset"@);
    } else if i == 10 {
        assert(catalog_spec()[i].tool@ == "datalens_update_dataset"@);
    } else if i == 11 {
        assert(catalog_spec()[i].tool@ == "datalens_delete_dataset"@);
    } else if i == 12 {
        assert(catalog_spec()[i].tool@ == "datalens_validate_dataset"@);
    } else if i == 13 {
        assert(catalog_spec()[i].tool@ == "datalens_get_entries_relations"@);
    } else if i == 14 {
        assert(catalog_spec()[i].tool@ == "datalens_get_entries"@);
    } else if i == 15 {
        assert(catalog_spec()[i].tool@ == "datalens_get_ql_chart"@);
    } else if i == 16 {
        assert(catalog_spec()[i].tool@ == "datalens_delete_ql_chart"@);
    } else if i == 17 {
        assert(catalog_spec()[i].tool@ == "datalens_get_wizard_chart"@);
    } else if i == 18 {
        assert(catalog_spec()[i].tool@ == "datalens_delete_wizard_chart"@);
    } else if i == 19 {
        assert(catalog_spec()[i].tool@ == "datalens_get_editor_chart"@);
    } else if i == 20 {
        assert(catalog_spec()[i].tool@ == "datalens_delete_editor_chart"@);
    } else if i == 21 {
        assert(catalog_spec()[i].tool@ == "datalens_create_editor_chart"@);
    } else if i == 22 {
        assert(catalog_spec()[i].tool@ == "datalens_update_editor_chart"@);
    } else if i == 23 {
        assert(catalog_spec()[i].tool@ == "datalens_get_entries_permissions"@);
    } else if i == 24 {
        assert(catalog_spec()[i].tool@ == "datalens_get_audit_entries_updates"@);
    } else if i == 25 {
        assert(catalog_spec()[i].tool@ == "datalens_list_directory"@);
    }
}

/// A required field that is absent under all its names is refused: the tool
/// makes no call.
pub proof fn lemma_absent_required_field_is_refused(arguments: Map<Seq<char>, JsonView>)
    ensures
        named(arguments, "method"@) is None ==> generic_call(arguments) is Err
            && schema_answer(arguments) is Err,
        aliased(arguments, "dataset_id"@, "datasetId"@) is None
            ==> get_dataset_payload(arguments) is Err,
        aliased(arguments, "dashboard_id"@, "dashboardId"@) is None
            ==> get_dashboard_payload(arguments) is Err,
        aliased(arguments, "connection_id"@, "connectionId"@) is None
            ==> get_connection_payload(arguments) is Err,
        named(arguments, "type"@) is None ==> create_connection_payload(arguments) is Err,
        aliased(arguments, "connection_id"@, "connectionId"@) is None
            ==> update_connection_payload(arguments) is Err,
        named(arguments, "data"@) is None ==> update_connection_payload(arguments) is Err,
        aliased(arguments, "connection_id"@, "connectionId"@) is None
            ==> delete_connection_payload(arguments) is Err,
        named(arguments, "entry"@) is None ==> create_dashboard_payload(arguments) is Err,
        named(arguments, "mode"@) is None ==> create_dashboard_payload(arguments) is Err,
        named(arguments, "entry"@) is None ==> update_dashboard_payload(arguments) is Err,
        named(arguments, "mode"@) is None ==> update_dashboard_payload(arguments) is Err,
        aliased(arguments, "dashboard_id"@, "dashboardId"@) is None
            ==> delete_dashboard_payload(arguments) is Err,
        named(arguments, "dataset"@) is None ==> create_dataset_payload(arguments) is Err,
        aliased(arguments, "dataset_id"@, "datasetId"@) is None
            ==> update_dataset_payload(arguments) is Err,
        aliased(arguments, "dataset_id"@, "datasetId"@) is None
            ==> delete_dataset_payload(arguments) is Err,
        aliased(arguments, "dataset_id"@, "datasetId"@) is None
            ==> validate_dataset_payload(arguments) is Err,
        aliased(arguments, "entry_ids"@, "entryIds"@) is None
            ==> get_entries_relations_payload(arguments) is Err,
        named(arguments, "entry"@) is None ==> create_editor_chart_payload(arguments) is Err,
        named(arguments, "entry"@) is None ==> update_editor_chart_payload(arguments) is Err,
        named(arguments, "mode"@) is None ==> update_editor_chart_payload(arguments) is Err,
        aliased(arguments, "entry_ids"@, "entryIds"@) is None
            ==> get_entries_permissions_payload(arguments) is Err,
        named(arguments, "from"@) is None ==> get_audit_entries_updates_payload(arguments) is Err,
        aliased(arguments, "chart_id"@, "chartId"@) is None ==> get_chart_payload(arguments) is Err,
        aliased(arguments, "chart_id"@, "chartId"@) is None
            ==> delete_chart_payload(arguments) is Err,
{
}

/// Reading arguments fails in one way only: as invalid arguments. And a
/// call is made for an object only where the tool says so: every tool but
/// `datalens_rpc` sends an object.
pub proof fn lemma_dispatch_outcomes(tool: Seq<char>, arguments: Map<Seq<char>, JsonView>)
    ensures
        dispatch_spec(tool, arguments) matches Err(error) ==> error is InvalidArguments,
        dispatch_spec(tool, arguments) matches Ok(ToolActionView::Call { payload, .. }) ==> tool
            == "datalens_rpc"@ || payload is Object,
{
}

/// Says what the tool `tool` does when it is called with `arguments`: the
/// call to send, the answer to give, or why the arguments are refused. A
/// tool that the server does not have is refused too.
pub fn dispatch(tool: &str, arguments: &JsonObject) -> (outcome: Result<ToolAction, RequestError>)
    ensures
        action_view(outcome) == dispatch_spec(tool@, arguments@),
{
    if text_eq(tool, "datalens_rpc") {
        prepare_rpc(arguments)
    } else if text_eq(tool, "datalens_list_methods") {
        Ok(ToolAction::Answer(datalens_list_methods()))
    } else if text_eq(tool, "datalens_get_method_schema") {
        answer_schema(arguments)
    } else if text_eq(tool, "datalens_list_directory") {
        prepare_list_directory(arguments)
    } else if text_eq(tool, "datalens_get_entries") {
        prepare_get_entries(arguments)
    } else if text_eq(tool, "datalens_get_dataset") {
        prepare_get_dataset(arguments)
    } else if text_eq(tool, "datalens_get_dashboard") {
        prepare_get_dashboard(arguments)
    } else if text_eq(tool, "datalens_get_connection") {
        prepare_get_connection(arguments)
    } else if text_eq(tool, "datalens_create_connection") {
        prepare_create_connection(arguments)
    } else if text_eq(tool, "datalens_update_connection") {
        prepare_update_connection(arguments)
    } else if text_eq(tool, "datalens_delete_connection") {
        prepare_delete_connection(arguments)
    } else if text_eq(tool, "datalens_create_dashboard") {
        prepare_create_dashboard(arguments)
    } else if text_eq(tool, "datalens_update_dashboard") {
        prepare_update_dashboard(arguments)
    } else if text_eq(tool, "datalens_delete_dashboard") {
        prepare_delete_dashboard(arguments)
    } else if text_eq(tool, "datalens_create_dataset") {
        prepare_create_dataset(arguments)
    } else if text_eq(tool, "datalens_update_dataset") {
        prepare_update_dataset(arguments)
    } else if text_eq(tool, "datalens_delete_dataset") {
        prepare_delete_dataset(arguments)
    } else if text_eq(tool, "datalens_validate_dataset") {
        prepare_validate_dataset(arguments)
    } else if text_eq(tool, "datalens_get_entries_relations") {
        prepare_get_entries_relations(arguments)
    } else if text_eq(tool, "datalens_create_editor_chart") {
        prepare_create_editor_chart(arguments)
    } else if text_eq(tool, "datalens_update_editor_chart") {
        prepare_update_editor_chart(arguments)
    } else if text_eq(tool, "datalens_get_entries_permissions") {
        prepare_get_entries_permissions(arguments)
    } else if text_eq(tool, "datalens_get_audit_entries_updates") {
        prepare_get_audit_entries_updates(arguments)
    } else if text_eq(tool, "datalens_get_ql_chart") {
        prepare_get_ql_chart(arguments)
    } else if text_eq(tool, "datalens_get_wizard_chart") {
        prepare_get_wizard_chart(arguments)
    } else if text_eq(tool, "datalens_get_editor_chart") {
        prepare_get_editor_chart(arguments)
    } else if text_eq(tool, "datalens_delete_ql_chart") {
        prepare_delete_ql_chart(arguments)
    } else if text_eq(tool, "datalens_delete_wizard_chart") {
        prepare_delete_wizard_chart(arguments)
    } else if text_eq(tool, "datalens_delete_editor_chart") {
        prepare_delete_editor_chart(arguments)
    } else {
        let mut message = join("unknown tool `", tool);
        message.append("`");
        Err(RequestError::InvalidArguments { method: tool.to_owned(), message })
    }
}

} // verus!
