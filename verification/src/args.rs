//! The arguments of each tool, and how they are read from the object that the
//! caller sent.
//!
//! A field is looked up under its own name, then under its aliases. The first
//! field, in the order of the fields, that is missing or has the wrong type is
//! refused. The fields that the tool does not know are kept as they are, in
//! `extra`. For each tool, `holds` says what the arguments give and `refused`
//! which argument is refused.
use vstd::prelude::*;
use crate::fields::{
    aliased,
    aliased_twice,
    find,
    find_aliased,
    find_aliased_twice,
    gives,
    named,
    optional_document,
    optional_document_spec,
    optional_flag,
    optional_flag_spec,
    optional_number,
    optional_number_spec,
    optional_text,
    optional_text_spec,
    optional_value,
    optional_value_spec,
    refusal,
    required_document,
    required_document_spec,
    required_text,
    required_text_list,
    required_text_list_spec,
    required_text_spec,
    text_or,
    value_or_empty,
    ArgumentError,
    ArgumentErrorView,
    FirstProblem,
};
use crate::json::{
    empty_object,
    number_view,
    option_view,
    JsonNumber,
    JsonObject,
    JsonValue,
    JsonView,
};
use crate::text::{strings_view, text_view};

verus! {

/// The path that `datalens_list_directory` lists where none is given: the
/// root.
pub fn default_root_path() -> (path: String)
    ensures
        path@ == "/"@,
{
    "/".to_owned()
}

/// The payload that `datalens_rpc` sends where none is given: the empty
/// object.
pub fn empty_json_object() -> (value: JsonValue)
    ensures
        value@ == empty_object(),
{
    JsonValue::Object(JsonObject::new())
}

/// The arguments of `datalens_rpc`: the method to call and its payload, the
/// empty object where none is given.
#[derive(Debug, PartialEq)]
pub struct DatalensRpcArgs {
    pub method: String,
    pub payload: JsonValue,
}

impl DatalensRpcArgs {
    /// Whether `self` is what `arguments` hold: every field as it is read
    /// under its names.
    pub open spec fn holds(self, arguments: Map<Seq<char>, JsonView>) -> bool {
        &&& gives(
            required_text_spec(named(arguments, "method"@)),
            self.method@,
        )
        &&& gives(
            value_or_empty(optional_document_spec(named(arguments, "payload"@))),
            self.payload@,
        )
    }

    /// The argument that is refused: that of the first field, in the order of
    /// the fields, that is missing or has the wrong type.
    pub open spec fn refused(arguments: Map<Seq<char>, JsonView>) -> Option<ArgumentErrorView> {
        refusal(
            "method"@,
            required_text_spec(named(arguments, "method"@)),
        )
            .otherwise(
                refusal(
                    "payload"@,
                    value_or_empty(optional_document_spec(named(arguments, "payload"@))),
                ),
            )
    }

    /// Reads the arguments from the object that the caller sent.
    pub fn from_arguments(arguments: &JsonObject) -> (outcome: Result<
        DatalensRpcArgs,
        ArgumentError,
    >)
        ensures
            match outcome {
                Ok(args) => args.holds(arguments@) && Self::refused(arguments@) is None,
                Err(error) => Self::refused(arguments@) == Some(error@),
            },
    {
        let method = required_text(find(arguments, "method"), "method")?;
        let payload = match optional_document(find(arguments, "payload"), "payload")? {
            Some(document) => document,
            None => empty_json_object(),
        };
        Ok(DatalensRpcArgs { method, payload })
    }
}

/// The arguments of `datalens_list_directory`.
#[derive(Debug, PartialEq)]
pub struct ListDirectoryArgs {
    pub path: String,
    pub created_by: Option<JsonValue>,
    pub order_by: Option<JsonValue>,
    pub filters: Option<JsonValue>,
    pub page: Option<JsonNumber>,
    pub page_size: Option<JsonNumber>,
    pub include_permissions_info: Option<bool>,
    /// The fields that the tool does not know, as the caller sent them.
    pub extra: JsonObject,
}

impl ListDirectoryArgs {
    /// Whether `self` is what `arguments` hold: every field as it is read
    /// under its names, and in `extra` the fields that the tool does not know.
    pub open spec fn holds(self, arguments: Map<Seq<char>, JsonView>) -> bool {
        &&& gives(
            text_or(optional_text_spec(named(arguments, "path"@)), "/"@),
            self.path@,
        )
        &&& option_view(self.created_by) == optional_value_spec(
            aliased(arguments, "created_by"@, "createdBy"@),
        )
        &&& option_view(self.order_by) == optional_value_spec(
            aliased(arguments, "order_by"@, "orderBy"@),
        )
        &&& option_view(self.filters) == optional_value_spec(
            named(arguments, "filters"@),
        )
        &&& gives(
            optional_number_spec(named(arguments, "page"@)),
            number_view(self.page),
        )
        &&& gives(
            optional_number_spec(aliased(arguments, "page_size"@, "pageSize"@)),
            number_view(self.page_size),
        )
        &&& gives(
            optional_flag_spec(
                aliased(arguments, "include_permissions_info"@, "includePermissionsInfo"@),
            ),
            self.include_permissions_info,
        )
        &&& self.extra@ == arguments
            .remove("path"@)
            .remove("created_by"@)
            .remove("createdBy"@)
            .remove("order_by"@)
            .remove("orderBy"@)
            .remove("filters"@)
            .remove("page"@)
            .remove("page_size"@)
            .remove("pageSize"@)
            .remove("include_permissions_info"@)
            .remove("includePermissionsInfo"@)
    }

    /// The argument that is refused: that of the first field, in the order of
    /// the fields, that is missing or has the wrong type.
    pub open spec fn refused(arguments: Map<Seq<char>, JsonView>) -> Option<ArgumentErrorView> {
        refusal(
            "path"@,
            text_or(optional_text_spec(named(arguments, "path"@)), "/"@),
        )
            .otherwise(
                refusal(
                    "page"@,
                    optional_number_spec(named(arguments, "page"@)),
                ),
            )
            .otherwise(
                refusal(
                    "page_size"@,
                    optional_number_spec(aliased(arguments, "page_size"@, "pageSize"@)),
                ),
            )
            .otherwise(
                refusal(
                    "include_permissions_info"@,
                    optional_flag_spec(
                        aliased(arguments, "include_permissions_info"@, "includePermissionsInfo"@),
                    ),
                ),
            )
    }

    /// Reads the arguments from the object that the caller sent.
    pub fn from_arguments(arguments: &JsonObject) -> (outcome: Result<
        ListDirectoryArgs,
        ArgumentError,
    >)
        ensures
            match outcome {
                Ok(args) => args.holds(arguments@) && Self::refused(arguments@) is None,
                Err(error) => Self::refused(arguments@) == Some(error@),
            },
    {
        let path = match optional_text(find(arguments, "path"), "path")? {
            Some(path) => path,
            None => default_root_path(),
        };
        let created_by = optional_value(find_aliased(arguments, "created_by", "createdBy"));
        let order_by = optional_value(find_aliased(arguments, "order_by", "orderBy"));
        let filters = optional_value(find(arguments, "filters"));
        let page = optional_number(find(arguments, "page"), "page")?;
        let page_size = optional_number(
            find_aliased(arguments, "page_size", "pageSize"),
            "page_size",
        )?;
        let include_permissions_info = optional_flag(
            find_aliased(arguments, "include_permissions_info", "includePermissionsInfo"),
            "include_permissions_info",
        )?;
        let mut extra = arguments.clone();
        extra.remove("path");
        extra.remove("created_by");
        extra.remove("createdBy");
        extra.remove("order_by");
        extra.remove("orderBy");
        extra.remove("filters");
        extra.remove("page");
        extra.remove("page_size");
        extra.remove("pageSize");
        extra.remove("include_permissions_info");
        extra.remove("includePermissionsInfo");
        Ok(
            ListDirectoryArgs {
                path,
                created_by,
                order_by,
                filters,
                page,
                page_size,
                include_permissions_info,
                extra,
            },
        )
    }
}

/// The arguments of `datalens_get_dataset`.
#[derive(Debug, PartialEq)]
pub struct GetDatasetArgs {
    pub dataset_id: String,
    pub workbook_id: Option<String>,
    pub rev_id: Option<String>,
    /// The fields that the tool does not know, as the caller sent them.
    pub extra: JsonObject,
}

impl GetDatasetArgs {
    /// Whether `self` is what `arguments` hold: every field as it is read
    /// under its names, and in `extra` the fields that the tool does not know.
    pub open spec fn holds(self, arguments: Map<Seq<char>, JsonView>) -> bool {
        &&& gives(
            required_text_spec(aliased(arguments, "dataset_id"@, "datasetId"@)),
            self.dataset_id@,
        )
        &&& gives(
            optional_text_spec(aliased(arguments, "workbook_id"@, "workbookId"@)),
            text_view(self.workbook_id),
        )
        &&& gives(
            optional_text_spec(aliased(arguments, "rev_id"@, "revId"@)),
            text_view(self.rev_id),
        )
        &&& self.extra@ == arguments
            .remove("dataset_id"@)
            .remove("datasetId"@)
            .remove("workbook_id"@)
            .remove("workbookId"@)
            .remove("rev_id"@)
            .remove("revId"@)
    }

    /// The argument that is refused: that of the first field, in the order of
    /// the fields, that is missing or has the wrong type.
    pub open spec fn refused(arguments: Map<Seq<char>, JsonView>) -> Option<ArgumentErrorView> {
        refusal(
            "dataset_id"@,
            required_text_spec(aliased(arguments, "dataset_id"@, "datasetId"@)),
        )
            .otherwise(
                refusal(
                    "workbook_id"@,
                    optional_text_spec(aliased(arguments, "workbook_id"@, "workbookId"@)),
                ),
            )
            .otherwise(
                refusal(
                    "rev_id"@,
                    optional_text_spec(aliased(arguments, "rev_id"@, "revId"@)),
                ),
            )
    }

    /// Reads the arguments from the object that the caller sent.
    pub fn from_arguments(arguments: &JsonObject) -> (outcome: Result<
        GetDatasetArgs,
        ArgumentError,
    >)
        ensures
            match outcome {
                Ok(args) => args.holds(arguments@) && Self::refused(arguments@) is None,
                Err(error) => Self::refused(arguments@) == Some(error@),
            },
    {
        let dataset_id = required_text(
            find_aliased(arguments, "dataset_id", "datasetId"),
            "dataset_id",
        )?;
        let workbook_id = optional_text(
            find_aliased(arguments, "workbook_id", "workbookId"),
            "workbook_id",
        )?;
        let rev_id = optional_text(find_aliased(arguments, "rev_id", "revId"), "rev_id")?;
        let mut extra = arguments.clone();
        extra.remove("dataset_id");
        extra.remove("datasetId");
        extra.remove("workbook_id");
        extra.remove("workbookId");
        extra.remove("rev_id");
        extra.remove("revId");
        Ok(GetDatasetArgs { dataset_id, workbook_id, rev_id, extra })
    }
}

/// The arguments of `datalens_get_connection`.
#[derive(Debug, PartialEq)]
pub struct GetConnectionArgs {
    pub connection_id: String,
    pub workbook_id: Option<String>,
    pub binded_dataset_id: Option<String>,
    pub rev_id: Option<String>,
    /// The fields that the tool does not know, as the caller sent them.
    pub extra: JsonObject,
}

impl GetConnectionArgs {
    /// Whether `self` is what `arguments` hold: every field as it is read
    /// under its names, and in `extra` the fields that the tool does not know.
    pub open spec fn holds(self, arguments: Map<Seq<char>, JsonView>) -> bool {
        &&& gives(
            required_text_spec(aliased(arguments, "connection_id"@, "connectionId"@)),
            self.connection_id@,
        )
        &&& gives(
            optional_text_spec(aliased(arguments, "workbook_id"@, "workbookId"@)),
            text_view(self.workbook_id),
        )
        &&& gives(
            optional_text_spec(aliased(arguments, "binded_dataset_id"@, "bindedDatasetId"@)),
            text_view(self.binded_dataset_id),
        )
        &&& gives(
            optional_text_spec(aliased(arguments, "rev_id"@, "revId"@)),
            text_view(self.rev_id),
        )
        &&& self.extra@ == arguments
            .remove("connection_id"@)
            .remove("connectionId"@)
            .remove("workbook_id"@)
            .remove("workbookId"@)
            .remove("binded_dataset_id"@)
            .remove("bindedDatasetId"@)
            .remove("rev_id"@)
            .remove("revId"@)
    }

    /// The argument that is refused: that of the first field, in the order of
    /// the fields, that is missing or has the wrong type.
    pub open spec fn refused(arguments: Map<Seq<char>, JsonView>) -> Option<ArgumentErrorView> {
        refusal(
            "connection_id"@,
            required_text_spec(aliased(arguments, "connection_id"@, "connectionId"@)),
        )
            .otherwise(
                refusal(
                    "workbook_id"@,
                    optional_text_spec(aliased(arguments, "workbook_id"@, "workbookId"@)),
                ),
            )
            .otherwise(
                refusal(
                    "binded_dataset_id"@,
                    optional_text_spec(
                        aliased(arguments, "binded_dataset_id"@, "bindedDatasetId"@),
                    ),
                ),
            )
            .otherwise(
                refusal(
                    "rev_id"@,
                    optional_text_spec(aliased(arguments, "rev_id"@, "revId"@)),
                ),
            )
    }

    /// Reads the arguments from the object that the caller sent.
    pub fn from_arguments(arguments: &JsonObject) -> (outcome: Result<
        GetConnectionArgs,
        ArgumentError,
    >)
        ensures
            match outcome {
                Ok(args) => args.holds(arguments@) && Self::refused(arguments@) is None,
                Err(error) => Self::refused(arguments@) == Some(error@),
            },
    {
        let connection_id = required_text(
            find_aliased(arguments, "connection_id", "connectionId"),
            "connection_id",
        )?;
        let workbook_id = optional_text(
            find_aliased(arguments, "workbook_id", "workbookId"),
            "workbook_id",
        )?;
        let binded_dataset_id = optional_text(
            find_aliased(arguments, "binded_dataset_id", "bindedDatasetId"),
            "binded_dataset_id",
        )?;
        let rev_id = optional_text(find_aliased(arguments, "rev_id", "revId"), "rev_id")?;
        let mut extra = arguments.clone();
        extra.remove("connection_id");
        extra.remove("connectionId");
        extra.remove("workbook_id");
        extra.remove("workbookId");
        extra.remove("binded_dataset_id");
        extra.remove("bindedDatasetId");
        extra.remove("rev_id");
        extra.remove("revId");
        Ok(GetConnectionArgs { connection_id, workbook_id, binded_dataset_id, rev_id, extra })
    }
}

/// The arguments of `datalens_get_dashboard`.
#[derive(Debug, PartialEq)]
pub struct GetDashboardArgs {
    pub dashboard_id: String,
    pub rev_id: Option<String>,
    pub include_permissions: Option<bool>,
    pub include_links: Option<bool>,
    pub include_favorite: Option<bool>,
    pub branch: Option<String>,
    pub workbook_id: Option<String>,
    /// The fields that the tool does not know, as the caller sent them.
    pub extra: JsonObject,
}

impl GetDashboardArgs {
    /// Whether `self` is what `arguments` hold: every field as it is read
    /// under its names, and in `extra` the fields that the tool does not know.
    pub open spec fn holds(self, arguments: Map<Seq<char>, JsonView>) -> bool {
        &&& gives(
            required_text_spec(aliased(arguments, "dashboard_id"@, "dashboardId"@)),
            self.dashboard_id@,
        )
        &&& gives(
            optional_text_spec(aliased(arguments, "rev_id"@, "revId"@)),
            text_view(self.rev_id),
        )
        &&& gives(
            optional_flag_spec(
                aliased_twice(
                    arguments,
                    "include_permissions"@,
                    "includePermissions"@,
                    "includePermissionsInfo"@,
                ),
            ),
            self.include_permissions,
        )
        &&& gives(
            optional_flag_spec(aliased(arguments, "include_links"@, "includeLinks"@)),
            self.include_links,
        )
        &&& gives(
            optional_flag_spec(aliased(arguments, "include_favorite"@, "includeFavorite"@)),
            self.include_favorite,
        )
        &&& gives(
            optional_text_spec(named(arguments, "branch"@)),
            text_view(self.branch),
        )
        &&& gives(
            optional_text_spec(aliased(arguments, "workbook_id"@, "workbookId"@)),
            text_view(self.workbook_id),
        )
        &&& self.extra@ == arguments
            .remove("dashboard_id"@)
            .remove("dashboardId"@)
            .remove("rev_id"@)
            .remove("revId"@)
            .remove("include_permissions"@)
            .remove("includePermissions"@)
            .remove("includePermissionsInfo"@)
            .remove("include_links"@)
            .remove("includeLinks"@)
            .remove("include_favorite"@)
            .remove("includeFavorite"@)
            .remove("branch"@)
            .remove("workbook_id"@)
            .remove("workbookId"@)
    }

    /// The argument that is refused: that of the first field, in the order of
    /// the fields, that is missing or has the wrong type.
    pub open spec fn refused(arguments: Map<Seq<char>, JsonView>) -> Option<ArgumentErrorView> {
        refusal(
            "dashboard_id"@,
            required_text_spec(aliased(arguments, "dashboard_id"@, "dashboardId"@)),
        )
            .otherwise(
                refusal(
                    "rev_id"@,
                    optional_text_spec(aliased(arguments, "rev_id"@, "revId"@)),
                ),
            )
            .otherwise(
                refusal(
                    "include_permissions"@,
                    optional_flag_spec(
                        aliased_twice(
                            arguments,
                            "include_permissions"@,
                            "includePermissions"@,
                            "includePermissionsInfo"@,
                        ),
                    ),
                ),
            )
            .otherwise(
                refusal(
                    "include_links"@,
                    optional_flag_spec(aliased(arguments, "include_links"@, "includeLinks"@)),
                ),
            )
            .otherwise(
                refusal(
                    "include_favorite"@,
                    optional_flag_spec(aliased(arguments, "include_favorite"@, "includeFavorite"@)),
                ),
            )
            .otherwise(
                refusal(
                    "branch"@,
                    optional_text_spec(named(arguments, "branch"@)),
                ),
            )
            .otherwise(
                refusal(
                    "workbook_id"@,
                    optional_text_spec(aliased(arguments, "workbook_id"@, "workbookId"@)),
                ),
            )
    }

    /// Reads the arguments from the object that the caller sent.
    pub fn from_arguments(arguments: &JsonObject) -> (outcome: Result<
        GetDashboardArgs,
        ArgumentError,
    >)
        ensures
            match outcome {
                Ok(args) => args.holds(arguments@) && Self::refused(arguments@) is None,
                Err(error) => Self::refused(arguments@) == Some(error@),
            },
    {
        let dashboard_id = required_text(
            find_aliased(arguments, "dashboard_id", "dashboardId"),
            "dashboard_id",
        )?;
        let rev_id = optional_text(find_aliased(arguments, "rev_id", "revId"), "rev_id")?;
        let include_permissions = optional_flag(
            find_aliased_twice(
                arguments,
                "include_permissions",
                "includePermissions",
                "includePermissionsInfo",
            ),
            "include_permissions",
        )?;
        let include_links = optional_flag(
            find_aliased(arguments, "include_links", "includeLinks"),
            "include_links",
        )?;
        let include_favorite = optional_flag(
            find_aliased(arguments, "include_favorite", "includeFavorite"),
            "include_favorite",
        )?;
        let branch = optional_text(find(arguments, "branch"), "branch")?;
        let workbook_id = optional_text(
            find_aliased(arguments, "workbook_id", "workbookId"),
            "workbook_id",
        )?;
        let mut extra = arguments.clone();
        extra.remove("dashboard_id");
        extra.remove("dashboardId");
        extra.remove("rev_id");
        extra.remove("revId");
        extra.remove("include_permissions");
        extra.remove("includePermissions");
        extra.remove("includePermissionsInfo");
        extra.remove("include_links");
        extra.remove("includeLinks");
        extra.remove("include_favorite");
        extra.remove("includeFavorite");
        extra.remove("branch");
        extra.remove("workbook_id");
        extra.remove("workbookId");
        Ok(
            GetDashboardArgs {
                dashboard_id,
                rev_id,
                include_permissions,
                include_links,
                include_favorite,
                branch,
                workbook_id,
                extra,
            },
        )
    }
}

/// The arguments of the tools that fetch a chart.
#[derive(Debug, PartialEq)]
pub struct GetChartArgs {
    pub chart_id: String,
    pub workbook_id: Option<String>,
    pub rev_id: Option<String>,
    pub include_permissions: Option<bool>,
    pub include_links: Option<bool>,
    pub include_favorite: Option<bool>,
    pub branch: Option<String>,
    /// The fields that the tool does not know, as the caller sent them.
    pub extra: JsonObject,
}

impl GetChartArgs {
    /// Whether `self` is what `arguments` hold: every field as it is read
    /// under its names, and in `extra` the fields that the tool does not know.
    pub open spec fn holds(self, arguments: Map<Seq<char>, JsonView>) -> bool {
        &&& gives(
            required_text_spec(aliased(arguments, "chart_id"@, "chartId"@)),
            self.chart_id@,
        )
        &&& gives(
            optional_text_spec(aliased(arguments, "workbook_id"@, "workbookId"@)),
            text_view(self.workbook_id),
        )
        &&& gives(
            optional_text_spec(aliased(arguments, "rev_id"@, "revId"@)),
            text_view(self.rev_id),
        )
        &&& gives(
            optional_flag_spec(
                aliased_twice(
                    arguments,
                    "include_permissions"@,
                    "includePermissions"@,
                    "includePermissionsInfo"@,
                ),
            ),
            self.include_permissions,
        )
        &&& gives(
            optional_flag_spec(aliased(arguments, "include_links"@, "includeLinks"@)),
            self.include_links,
        )
        &&& gives(
            optional_flag_spec(aliased(arguments, "include_favorite"@, "includeFavorite"@)),
            self.include_favorite,
        )
        &&& gives(
            optional_text_spec(named(arguments, "branch"@)),
            text_view(self.branch),
        )
        &&& self.extra@ == arguments
            .remove("chart_id"@)
            .remove("chartId"@)
            .remove("workbook_id"@)
            .remove("workbookId"@)
            .remove("rev_id"@)
            .remove("revId"@)
            .remove("include_permissions"@)
            .remove("includePermissions"@)
            .remove("includePermissionsInfo"@)
            .remove("include_links"@)
            .remove("includeLinks"@)
            .remove("include_favorite"@)
            .remove("includeFavorite"@)
            .remove("branch"@)
    }

    /// The argument that is refused: that of the first field, in the order of
    /// the fields, that is missing or has the wrong type.
    pub open spec fn refused(arguments: Map<Seq<char>, JsonView>) -> Option<ArgumentErrorView> {
        refusal(
            "chart_id"@,
            required_text_spec(aliased(arguments, "chart_id"@, "chartId"@)),
        )
            .otherwise(
                refusal(
                    "workbook_id"@,
                    optional_text_spec(aliased(arguments, "workbook_id"@, "workbookId"@)),
                ),
            )
            .otherwise(
                refusal(
                    "rev_id"@,
                    optional_text_spec(aliased(arguments, "rev_id"@, "revId"@)),
                ),
            )
            .otherwise(
                refusal(
                    "include_permissions"@,
                    optional_flag_spec(
                        aliased_twice(
                            arguments,
                            "include_permissions"@,
                            "includePermissions"@,
                            "includePermissionsInfo"@,
                        ),
                    ),
                ),
            )
            .otherwise(
                refusal(
                    "include_links"@,
                    optional_flag_spec(aliased(arguments, "include_links"@, "includeLinks"@)),
                ),
            )
            .otherwise(
                refusal(
                    "include_favorite"@,
                    optional_flag_spec(aliased(arguments, "include_favorite"@, "includeFavorite"@)),
                ),
            )
            .otherwise(
                refusal(
                    "branch"@,
                    optional_text_spec(named(arguments, "branch"@)),
                ),
            )
    }

    /// Reads the arguments from the object that the caller sent.
    pub fn from_arguments(arguments: &JsonObject) -> (outcome: Result<
        GetChartArgs,
        ArgumentError,
    >)
        ensures
            match outcome {
                Ok(args) => args.holds(arguments@) && Self::refused(arguments@) is None,
                Err(error) => Self::refused(arguments@) == Some(error@),
            },
    {
        let chart_id = required_text(find_aliased(arguments, "chart_id", "chartId"), "chart_id")?;
        let workbook_id = optional_text(
            find_aliased(arguments, "workbook_id", "workbookId"),
            "workbook_id",
        )?;
        let rev_id = optional_text(find_aliased(arguments, "rev_id", "revId"), "rev_id")?;
        let include_permissions = optional_flag(
            find_aliased_twice(
                arguments,
                "include_permissions",
                "includePermissions",
                "includePermissionsInfo",
            ),
            "include_permissions",
        )?;
        let include_links = optional_flag(
            find_aliased(arguments, "include_links", "includeLinks"),
            "include_links",
        )?;
        let include_favorite = optional_flag(
            find_aliased(arguments, "include_favorite", "includeFavorite"),
            "include_favorite",
        )?;
        let branch = optional_text(find(arguments, "branch"), "branch")?;
        let mut extra = arguments.clone();
        extra.remove("chart_id");
        extra.remove("chartId");
        extra.remove("workbook_id");
        extra.remove("workbookId");
        extra.remove("rev_id");
        extra.remove("revId");
        extra.remove("include_permissions");
        extra.remove("includePermissions");
        extra.remove("includePermissionsInfo");
        extra.remove("include_links");
        extra.remove("includeLinks");
        extra.remove("include_favorite");
        extra.remove("includeFavorite");
        extra.remove("branch");
        Ok(
            GetChartArgs {
                chart_id,
                workbook_id,
                rev_id,
                include_permissions,
                include_links,
                include_favorite,
                branch,
                extra,
            },
        )
    }
}

/// The arguments of `datalens_get_entries`.
#[derive(Debug, PartialEq)]
pub struct GetEntriesArgs {
    pub exclude_locked: Option<bool>,
    pub include_data: Option<bool>,
    pub include_links: Option<bool>,
    pub filters: Option<JsonValue>,
    pub order_by: Option<JsonValue>,
    pub created_by: Option<JsonValue>,
    pub page: Option<JsonNumber>,
    pub page_size: Option<JsonNumber>,
    pub include_permissions_info: Option<bool>,
    pub ignore_workbook_entries: Option<bool>,
    pub scope: Option<String>,
    pub ids: Option<JsonValue>,
    /// The fields that the tool does not know, as the caller sent them.
    pub extra: JsonObject,
}

impl GetEntriesArgs {
    /// Whether `self` is what `arguments` hold: every field as it is read
    /// under its names, and in `extra` the fields that the tool does not know.
    pub open spec fn holds(self, arguments: Map<Seq<char>, JsonView>) -> bool {
        &&& gives(
            optional_flag_spec(aliased(arguments, "exclude_locked"@, "excludeLocked"@)),
            self.exclude_locked,
        )
        &&& gives(
            optional_flag_spec(aliased(arguments, "include_data"@, "includeData"@)),
            self.include_data,
        )
        &&& gives(
            optional_flag_spec(aliased(arguments, "include_links"@, "includeLinks"@)),
            self.include_links,
        )
        &&& option_view(self.filters) == optional_value_spec(
            named(arguments, "filters"@),
        )
        &&& option_view(self.order_by) == optional_value_spec(
            aliased(arguments, "order_by"@, "orderBy"@),
        )
        &&& option_view(self.created_by) == optional_value_spec(
            aliased(arguments, "created_by"@, "createdBy"@),
        )
        &&& gives(
            optional_number_spec(named(arguments, "page"@)),
            number_view(self.page),
        )
        &&& gives(
            optional_number_spec(aliased(arguments, "page_size"@, "pageSize"@)),
            number_view(self.page_size),
        )
        &&& gives(
            optional_flag_spec(
                aliased(arguments, "include_permissions_info"@, "includePermissionsInfo"@),
            ),
            self.include_permissions_info,
        )
        &&& gives(
            optional_flag_spec(
                aliased(arguments, "ignore_workbook_entries"@, "ignoreWorkbookEntries"@),
            ),
            self.ignore_workbook_entries,
        )
        &&& gives(
            optional_text_spec(named(arguments, "scope"@)),
            text_view(self.scope),
        )
        &&& option_view(self.ids) == optional_value_spec(
            named(arguments, "ids"@),
        )
        &&& self.extra@ == arguments
            .remove("exclude_locked"@)
            .remove("excludeLocked"@)
            .remove("include_data"@)
            .remove("includeData"@)
            .remove("include_links"@)
            .remove("includeLinks"@)
            .remove("filters"@)
            .remove("order_by"@)
            .remove("orderBy"@)
            .remove("created_by"@)
            .remove("createdBy"@)
            .remove("page"@)
            .remove("page_size"@)
            .remove("pageSize"@)
            .remove("include_permissions_info"@)
            .remove("includePermissionsInfo"@)
            .remove("ignore_workbook_entries"@)
            .remove("ignoreWorkbookEntries"@)
            .remove("scope"@)
            .remove("ids"@)
    }

    /// The argument that is refused: that of the first field, in the order of
    /// the fields, that is missing or has the wrong type.
    pub open spec fn refused(arguments: Map<Seq<char>, JsonView>) -> Option<ArgumentErrorView> {
        refusal(
            "exclude_locked"@,
            optional_flag_spec(aliased(arguments, "exclude_locked"@, "excludeLocked"@)),
        )
            .otherwise(
                refusal(
                    "include_data"@,
                    optional_flag_spec(aliased(arguments, "include_data"@, "includeData"@)),
                ),
            )
            .otherwise(
                refusal(
                    "include_links"@,
                    optional_flag_spec(aliased(arguments, "include_links"@, "includeLinks"@)),
                ),
            )
            .otherwise(
                refusal(
                    "page"@,
                    optional_number_spec(named(arguments, "page"@)),
                ),
            )
            .otherwise(
                refusal(
                    "page_size"@,
                    optional_number_spec(aliased(arguments, "page_size"@, "pageSize"@)),
                ),
            )
            .otherwise(
                refusal(
                    "include_permissions_info"@,
                    optional_flag_spec(
                        aliased(arguments, "include_permissions_info"@, "includePermissionsInfo"@),
                    ),
                ),
            )
            .otherwise(
                refusal(
                    "ignore_workbook_entries"@,
                    optional_flag_spec(
                        aliased(arguments, "ignore_workbook_entries"@, "ignoreWorkbookEntries"@),
                    ),
                ),
            )
            .otherwise(
                refusal(
                    "scope"@,
                    optional_text_spec(named(arguments, "scope"@)),
                ),
            )
    }

    /// Reads the arguments from the object that the caller sent.
    pub fn from_arguments(arguments: &JsonObject) -> (outcome: Result<
        GetEntriesArgs,
        ArgumentError,
    >)
        ensures
            match outcome {
                Ok(args) => args.holds(arguments@) && Self::refused(arguments@) is None,
                Err(error) => Self::refused(arguments@) == Some(error@),
            },
    {
        let exclude_locked = optional_flag(
            find_aliased(arguments, "exclude_locked", "excludeLocked"),
            "exclude_locked",
        )?;
        let include_data = optional_flag(
            find_aliased(arguments, "include_data", "includeData"),
            "include_data",
        )?;
        let include_links = optional_flag(
            find_aliased(arguments, "include_links", "includeLinks"),
            "include_links",
        )?;
        let filters = optional_value(find(arguments, "filters"));
        let order_by = optional_value(find_aliased(arguments, "order_by", "orderBy"));
        let created_by = optional_value(find_aliased(arguments, "created_by", "createdBy"));
        let page = optional_number(find(arguments, "page"), "page")?;
        let page_size = optional_number(
            find_aliased(arguments, "page_size", "pageSize"),
            "page_size",
        )?;
        let include_permissions_info = optional_flag(
            find_aliased(arguments, "include_permissions_info", "includePermissionsInfo"),
            "include_permissions_info",
        )?;
        let ignore_workbook_entries = optional_flag(
            find_aliased(arguments, "ignore_workbook_entries", "ignoreWorkbookEntries"),
            "ignore_workbook_entries",
        )?;
        let scope = optional_text(find(arguments, "scope"), "scope")?;
        let ids = optional_value(find(arguments, "ids"));
        let mut extra = arguments.clone();
        extra.remove("exclude_locked");
        extra.remove("excludeLocked");
        extra.remove("include_data");
        extra.remove("includeData");
        extra.remove("include_links");
        extra.remove("includeLinks");
        extra.remove("filters");
        extra.remove("order_by");
        extra.remove("orderBy");
        extra.remove("created_by");
        extra.remove("createdBy");
        extra.remove("page");
        extra.remove("page_size");
        extra.remove("pageSize");
        extra.remove("include_permissions_info");
        extra.remove("includePermissionsInfo");
        extra.remove("ignore_workbook_entries");
        extra.remove("ignoreWorkbookEntries");
        extra.remove("scope");
        extra.remove("ids");
        Ok(
            GetEntriesArgs {
                exclude_locked,
                include_data,
                include_links,
                filters,
                order_by,
                created_by,
                page,
                page_size,
                include_permissions_info,
                ignore_workbook_entries,
                scope,
                ids,
                extra,
            },
        )
    }
}

/// The arguments of `datalens_create_connection`: the connection's type; the
/// fields that the type asks for go with the other fields.
#[derive(Debug, PartialEq)]
pub struct CreateConnectionArgs {
    pub connection_type: String,
    /// The fields that the tool does not know, as the caller sent them.
    pub extra: JsonObject,
}

impl CreateConnectionArgs {
    /// Whether `self` is what `arguments` hold: every field as it is read
    /// under its names, and in `extra` the fields that the tool does not know.
    pub open spec fn holds(self, arguments: Map<Seq<char>, JsonView>) -> bool {
        &&& gives(
            required_text_spec(named(arguments, "type"@)),
            self.connection_type@,
        )
        &&& self.extra@ == arguments
            .remove("type"@)
    }

    /// The argument that is refused: that of the first field, in the order of
    /// the fields, that is missing or has the wrong type.
    pub open spec fn refused(arguments: Map<Seq<char>, JsonView>) -> Option<ArgumentErrorView> {
        refusal(
            "type"@,
            required_text_spec(named(arguments, "type"@)),
        )
    }

    /// Reads the arguments from the object that the caller sent.
    pub fn from_arguments(arguments: &JsonObject) -> (outcome: Result<
        CreateConnectionArgs,
        ArgumentError,
    >)
        ensures
            match outcome {
                Ok(args) => args.holds(arguments@) && Self::refused(arguments@) is None,
                Err(error) => Self::refused(arguments@) == Some(error@),
            },
    {
        let connection_type = required_text(find(arguments, "type"), "type")?;
        let mut extra = arguments.clone();
        extra.remove("type");
        Ok(CreateConnectionArgs { connection_type, extra })
    }
}

/// The arguments of `datalens_update_connection`.
#[derive(Debug, PartialEq)]
pub struct UpdateConnectionArgs {
    pub connection_id: String,
    pub data: JsonValue,
    /// The fields that the tool does not know, as the caller sent them.
    pub extra: JsonObject,
}

impl UpdateConnectionArgs {
    /// Whether `self` is what `arguments` hold: every field as it is read
    /// under its names, and in `extra` the fields that the tool does not know.
    pub open spec fn holds(self, arguments: Map<Seq<char>, JsonView>) -> bool {
        &&& gives(
            required_text_spec(aliased(arguments, "connection_id"@, "connectionId"@)),
            self.connection_id@,
        )
        &&& gives(
            required_document_spec(named(arguments, "data"@)),
            self.data@,
        )
        &&& self.extra@ == arguments
            .remove("connection_id"@)
            .remove("connectionId"@)
            .remove("data"@)
    }

    /// The argument that is refused: that of the first field, in the order of
    /// the fields, that is missing or has the wrong type.
    pub open spec fn refused(arguments: Map<Seq<char>, JsonView>) -> Option<ArgumentErrorView> {
        refusal(
            "connection_id"@,
            required_text_spec(aliased(arguments, "connection_id"@, "connectionId"@)),
        )
            .otherwise(
                refusal(
                    "data"@,
                    required_document_spec(named(arguments, "data"@)),
                ),
            )
    }

    /// Reads the arguments from the object that the caller sent.
    pub fn from_arguments(arguments: &JsonObject) -> (outcome: Result<
        UpdateConnectionArgs,
        ArgumentError,
    >)
        ensures
            match outcome {
                Ok(args) => args.holds(arguments@) && Self::refused(arguments@) is None,
                Err(error) => Self::refused(arguments@) == Some(error@),
            },
    {
        let connection_id = required_text(
            find_aliased(arguments, "connection_id", "connectionId"),
            "connection_id",
        )?;
        let data = required_document(find(arguments, "data"), "data")?;
        let mut extra = arguments.clone();
        extra.remove("connection_id");
        extra.remove("connectionId");
        extra.remove("data");
        Ok(UpdateConnectionArgs { connection_id, data, extra })
    }
}

/// The arguments of `datalens_delete_connection`.
#[derive(Debug, PartialEq)]
pub struct DeleteConnectionArgs {
    pub connection_id: String,
    /// The fields that the tool does not know, as the caller sent them.
    pub extra: JsonObject,
}

impl DeleteConnectionArgs {
    /// Whether `self` is what `arguments` hold: every field as it is read
    /// under its names, and in `extra` the fields that the tool does not know.
    pub open spec fn holds(self, arguments: Map<Seq<char>, JsonView>) -> bool {
        &&& gives(
            required_text_spec(aliased(arguments, "connection_id"@, "connectionId"@)),
            self.connection_id@,
        )
        &&& self.extra@ == arguments
            .remove("connection_id"@)
            .remove("connectionId"@)
    }

    /// The argument that is refused: that of the first field, in the order of
    /// the fields, that is missing or has the wrong type.
    pub open spec fn refused(arguments: Map<Seq<char>, JsonView>) -> Option<ArgumentErrorView> {
        refusal(
            "connection_id"@,
            required_text_spec(aliased(arguments, "connection_id"@, "connectionId"@)),
        )
    }

    /// Reads the arguments from the object that the caller sent.
    pub fn from_arguments(arguments: &JsonObject) -> (outcome: Result<
        DeleteConnectionArgs,
        ArgumentError,
    >)
        ensures
            match outcome {
                Ok(args) => args.holds(arguments@) && Self::refused(arguments@) is None,
                Err(error) => Self::refused(arguments@) == Some(error@),
            },
    {
        let connection_id = required_text(
            find_aliased(arguments, "connection_id", "connectionId"),
            "connection_id",
        )?;
        let mut extra = arguments.clone();
        extra.remove("connection_id");
        extra.remove("connectionId");
        Ok(DeleteConnectionArgs { connection_id, extra })
    }
}

/// The arguments of `datalens_create_dashboard`.
#[derive(Debug, PartialEq)]
pub struct CreateDashboardArgs {
    pub entry: JsonValue,
    pub mode: String,
    /// The fields that the tool does not know, as the caller sent them.
    pub extra: JsonObject,
}

impl CreateDashboardArgs {
    /// Whether `self` is what `arguments` hold: every field as it is read
    /// under its names, and in `extra` the fields that the tool does not know.
    pub open spec fn holds(self, arguments: Map<Seq<char>, JsonView>) -> bool {
        &&& gives(
            required_document_spec(named(arguments, "entry"@)),
            self.entry@,
        )
        &&& gives(
            required_text_spec(named(arguments, "mode"@)),
            self.mode@,
        )
        &&& self.extra@ == arguments
            .remove("entry"@)
            .remove("mode"@)
    }

    /// The argument that is refused: that of the first field, in the order of
    /// the fields, that is missing or has the wrong type.
    pub open spec fn refused(arguments: Map<Seq<char>, JsonView>) -> Option<ArgumentErrorView> {
        refusal(
            "entry"@,
            required_document_spec(named(arguments, "entry"@)),
        )
            .otherwise(
                refusal(
                    "mode"@,
                    required_text_spec(named(arguments, "mode"@)),
                ),
            )
    }

    /// Reads the arguments from the object that the caller sent.
    pub fn from_arguments(arguments: &JsonObject) -> (outcome: Result<
        CreateDashboardArgs,
        ArgumentError,
    >)
        ensures
            match outcome {
                Ok(args) => args.holds(arguments@) && Self::refused(arguments@) is None,
                Err(error) => Self::refused(arguments@) == Some(error@),
            },
    {
        let entry = required_document(find(arguments, "entry"), "entry")?;
        let mode = required_text(find(arguments, "mode"), "mode")?;
        let mut extra = arguments.clone();
        extra.remove("entry");
        extra.remove("mode");
        Ok(CreateDashboardArgs { entry, mode, extra })
    }
}

/// The arguments of `datalens_update_dashboard`.
#[derive(Debug, PartialEq)]
pub struct UpdateDashboardArgs {
    pub entry: JsonValue,
    pub mode: String,
    /// The fields that the tool does not know, as the caller sent them.
    pub extra: JsonObject,
}

impl UpdateDashboardArgs {
    /// Whether `self` is what `arguments` hold: every field as it is read
    /// under its names, and in `extra` the fields that the tool does not know.
    pub open spec fn holds(self, arguments: Map<Seq<char>, JsonView>) -> bool {
        &&& gives(
            required_document_spec(named(arguments, "entry"@)),
            self.entry@,
        )
        &&& gives(
            required_text_spec(named(arguments, "mode"@)),
            self.mode@,
        )
        &&& self.extra@ == arguments
            .remove("entry"@)
            .remove("mode"@)
    }

    /// The argument that is refused: that of the first field, in the order of
    /// the fields, that is missing or has the wrong type.
    pub open spec fn refused(arguments: Map<Seq<char>, JsonView>) -> Option<ArgumentErrorView> {
        refusal(
            "entry"@,
            required_document_spec(named(arguments, "entry"@)),
        )
            .otherwise(
                refusal(
                    "mode"@,
                    required_text_spec(named(arguments, "mode"@)),
                ),
            )
    }

    /// Reads the arguments from the object that the caller sent.
    pub fn from_arguments(arguments: &JsonObject) -> (outcome: Result<
        UpdateDashboardArgs,
        ArgumentError,
    >)
        ensures
            match outcome {
                Ok(args) => args.holds(arguments@) && Self::refused(arguments@) is None,
                Err(error) => Self::refused(arguments@) == Some(error@),
            },
    {
        let entry = required_document(find(arguments, "entry"), "entry")?;
        let mode = required_text(find(arguments, "mode"), "mode")?;
        let mut extra = arguments.clone();
        extra.remove("entry");
        extra.remove("mode");
        Ok(UpdateDashboardArgs { entry, mode, extra })
    }
}

/// The arguments of `datalens_delete_dashboard`.
#[derive(Debug, PartialEq)]
pub struct DeleteDashboardArgs {
    pub dashboard_id: String,
    pub lock_token: Option<String>,
    /// The fields that the tool does not know, as the caller sent them.
    pub extra: JsonObject,
}

impl DeleteDashboardArgs {
    /// Whether `self` is what `arguments` hold: every field as it is read
    /// under its names, and in `extra` the fields that the tool does not know.
    pub open spec fn holds(self, arguments: Map<Seq<char>, JsonView>) -> bool {
        &&& gives(
            required_text_spec(aliased(arguments, "dashboard_id"@, "dashboardId"@)),
            self.dashboard_id@,
        )
        &&& gives(
            optional_text_spec(aliased(arguments, "lock_token"@, "lockToken"@)),
            text_view(self.lock_token),
        )
        &&& self.extra@ == arguments
            .remove("dashboard_id"@)
            .remove("dashboardId"@)
            .remove("lock_token"@)
            .remove("lockToken"@)
    }

    /// The argument that is refused: that of the first field, in the order of
    /// the fields, that is missing or has the wrong type.
    pub open spec fn refused(arguments: Map<Seq<char>, JsonView>) -> Option<ArgumentErrorView> {
        refusal(
            "dashboard_id"@,
            required_text_spec(aliased(arguments, "dashboard_id"@, "dashboardId"@)),
        )
            .otherwise(
                refusal(
                    "lock_token"@,
                    optional_text_spec(aliased(arguments, "lock_token"@, "lockToken"@)),
                ),
            )
    }

    /// Reads the arguments from the object that the caller sent.
    pub fn from_arguments(arguments: &JsonObject) -> (outcome: Result<
        DeleteDashboardArgs,
        ArgumentError,
    >)
        ensures
            match outcome {
                Ok(args) => args.holds(arguments@) && Self::refused(arguments@) is None,
                Err(error) => Self::refused(arguments@) == Some(error@),
            },
    {
        let dashboard_id = required_text(
            find_aliased(arguments, "dashboard_id", "dashboardId"),
            "dashboard_id",
        )?;
        let lock_token = optional_text(
            find_aliased(arguments, "lock_token", "lockToken"),
            "lock_token",
        )?;
        let mut extra = arguments.clone();
        extra.remove("dashboard_id");
        extra.remove("dashboardId");
        extra.remove("lock_token");
        extra.remove("lockToken");
        Ok(DeleteDashboardArgs { dashboard_id, lock_token, extra })
    }
}

/// The arguments of `datalens_create_dataset`.
#[derive(Debug, PartialEq)]
pub struct CreateDatasetArgs {
    pub dataset: JsonValue,
    pub created_via: Option<JsonValue>,
    pub dir_path: Option<String>,
    pub name: Option<String>,
    pub options: Option<JsonValue>,
    pub preview: Option<bool>,
    pub workbook_id: Option<String>,
    /// The fields that the tool does not know, as the caller sent them.
    pub extra: JsonObject,
}

impl CreateDatasetArgs {
    /// Whether `self` is what `arguments` hold: every field as it is read
    /// under its names, and in `extra` the fields that the tool does not know.
    pub open spec fn holds(self, arguments: Map<Seq<char>, JsonView>) -> bool {
        &&& gives(
            required_document_spec(named(arguments, "dataset"@)),
            self.dataset@,
        )
        &&& option_view(self.created_via) == optional_value_spec(
            aliased(arguments, "created_via"@, "createdVia"@),
        )
        &&& gives(
            optional_text_spec(aliased(arguments, "dir_path"@, "dirPath"@)),
            text_view(self.dir_path),
        )
        &&& gives(
            optional_text_spec(named(arguments, "name"@)),
            text_view(self.name),
        )
        &&& option_view(self.options) == optional_value_spec(
            named(arguments, "options"@),
        )
        &&& gives(
            optional_flag_spec(named(arguments, "preview"@)),
            self.preview,
        )
        &&& gives(
            optional_text_spec(aliased(arguments, "workbook_id"@, "workbookId"@)),
            text_view(self.workbook_id),
        )
        &&& self.extra@ == arguments
            .remove("dataset"@)
            .remove("created_via"@)
            .remove("createdVia"@)
            .remove("dir_path"@)
            .remove("dirPath"@)
            .remove("name"@)
            .remove("options"@)
            .remove("preview"@)
            .remove("workbook_id"@)
            .remove("workbookId"@)
    }

    /// The argument that is refused: that of the first field, in the order of
    /// the fields, that is missing or has the wrong type.
    pub open spec fn refused(arguments: Map<Seq<char>, JsonView>) -> Option<ArgumentErrorView> {
        refusal(
            "dataset"@,
            required_document_spec(named(arguments, "dataset"@)),
        )
            .otherwise(
                refusal(
                    "dir_path"@,
                    optional_text_spec(aliased(arguments, "dir_path"@, "dirPath"@)),
                ),
            )
            .otherwise(
                refusal(
                    "name"@,
                    optional_text_spec(named(arguments, "name"@)),
                ),
            )
            .otherwise(
                refusal(
                    "preview"@,
                    optional_flag_spec(named(arguments, "preview"@)),
                ),
            )
            .otherwise(
                refusal(
                    "workbook_id"@,
                    optional_text_spec(aliased(arguments, "workbook_id"@, "workbookId"@)),
                ),
            )
    }

    /// Reads the arguments from the object that the caller sent.
    pub fn from_arguments(arguments: &JsonObject) -> (outcome: Result<
        CreateDatasetArgs,
        ArgumentError,
    >)
        ensures
            match outcome {
                Ok(args) => args.holds(arguments@) && Self::refused(arguments@) is None,
                Err(error) => Self::refused(arguments@) == Some(error@),
            },
    {
        let dataset = required_document(find(arguments, "dataset"), "dataset")?;
        let created_via = optional_value(find_aliased(arguments, "created_via", "createdVia"));
        let dir_path = optional_text(find_aliased(arguments, "dir_path", "dirPath"), "dir_path")?;
        let name = optional_text(find(arguments, "name"), "name")?;
        let options = optional_value(find(arguments, "options"));
        let preview = optional_flag(find(arguments, "preview"), "preview")?;
        let workbook_id = optional_text(
            find_aliased(arguments, "workbook_id", "workbookId"),
            "workbook_id",
        )?;
        let mut extra = arguments.clone();
        extra.remove("dataset");
        extra.remove("created_via");
        extra.remove("createdVia");
        extra.remove("dir_path");
        extra.remove("dirPath");
        extra.remove("name");
        extra.remove("options");
        extra.remove("preview");
        extra.remove("workbook_id");
        extra.remove("workbookId");
        Ok(
            CreateDatasetArgs {
                dataset,
                created_via,
                dir_path,
                name,
                options,
                preview,
                workbook_id,
                extra,
            },
        )
    }
}

/// The arguments of `datalens_update_dataset`.
#[derive(Debug, PartialEq)]
pub struct UpdateDatasetArgs {
    pub dataset_id: String,
    pub data: Option<JsonValue>,
    /// The fields that the tool does not know, as the caller sent them.
    pub extra: JsonObject,
}

impl UpdateDatasetArgs {
    /// Whether `self` is what `arguments` hold: every field as it is read
    /// under its names, and in `extra` the fields that the tool does not know.
    pub open spec fn holds(self, arguments: Map<Seq<char>, JsonView>) -> bool {
        &&& gives(
            required_text_spec(aliased(arguments, "dataset_id"@, "datasetId"@)),
            self.dataset_id@,
        )
        &&& gives(
            optional_document_spec(named(arguments, "data"@)),
            option_view(self.data),
        )
        &&& self.extra@ == arguments
            .remove("dataset_id"@)
            .remove("datasetId"@)
            .remove("data"@)
    }

    /// The argument that is refused: that of the first field, in the order of
    /// the fields, that is missing or has the wrong type.
    pub open spec fn refused(arguments: Map<Seq<char>, JsonView>) -> Option<ArgumentErrorView> {
        refusal(
            "dataset_id"@,
            required_text_spec(aliased(arguments, "dataset_id"@, "datasetId"@)),
        )
            .otherwise(
                refusal(
                    "data"@,
                    optional_document_spec(named(arguments, "data"@)),
                ),
            )
    }

    /// Reads the arguments from the object that the caller sent.
    pub fn from_arguments(arguments: &JsonObject) -> (outcome: Result<
        UpdateDatasetArgs,
        ArgumentError,
    >)
        ensures
            match outcome {
                Ok(args) => args.holds(arguments@) && Self::refused(arguments@) is None,
                Err(error) => Self::refused(arguments@) == Some(error@),
            },
    {
        let dataset_id = required_text(
            find_aliased(arguments, "dataset_id", "datasetId"),
            "dataset_id",
        )?;
        let data = optional_document(find(arguments, "data"), "data")?;
        let mut extra = arguments.clone();
        extra.remove("dataset_id");
        extra.remove("datasetId");
        extra.remove("data");
        Ok(UpdateDatasetArgs { dataset_id, data, extra })
    }
}

/// The arguments of `datalens_delete_dataset`.
#[derive(Debug, PartialEq)]
pub struct DeleteDatasetArgs {
    pub dataset_id: String,
    /// The fields that the tool does not know, as the caller sent them.
    pub extra: JsonObject,
}

impl DeleteDatasetArgs {
    /// Whether `self` is what `arguments` hold: every field as it is read
    /// under its names, and in `extra` the fields that the tool does not know.
    pub open spec fn holds(self, arguments: Map<Seq<char>, JsonView>) -> bool {
        &&& gives(
            required_text_spec(aliased(arguments, "dataset_id"@, "datasetId"@)),
            self.dataset_id@,
        )
        &&& self.extra@ == arguments
            .remove("dataset_id"@)
            .remove("datasetId"@)
    }

    /// The argument that is refused: that of the first field, in the order of
    /// the fields, that is missing or has the wrong type.
    pub open spec fn refused(arguments: Map<Seq<char>, JsonView>) -> Option<ArgumentErrorView> {
        refusal(
            "dataset_id"@,
            required_text_spec(aliased(arguments, "dataset_id"@, "datasetId"@)),
        )
    }

    /// Reads the arguments from the object that the caller sent.
    pub fn from_arguments(arguments: &JsonObject) -> (outcome: Result<
        DeleteDatasetArgs,
        ArgumentError,
    >)
        ensures
            match outcome {
                Ok(args) => args.holds(arguments@) && Self::refused(arguments@) is None,
                Err(error) => Self::refused(arguments@) == Some(error@),
            },
    {
        let dataset_id = required_text(
            find_aliased(arguments, "dataset_id", "datasetId"),
            "dataset_id",
        )?;
        let mut extra = arguments.clone();
        extra.remove("dataset_id");
        extra.remove("datasetId");
        Ok(DeleteDatasetArgs { dataset_id, extra })
    }
}

/// The arguments of `datalens_validate_dataset`.
#[derive(Debug, PartialEq)]
pub struct ValidateDatasetArgs {
    pub dataset_id: String,
    pub workbook_id: Option<String>,
    pub data: Option<JsonValue>,
    /// The fields that the tool does not know, as the caller sent them.
    pub extra: JsonObject,
}

impl ValidateDatasetArgs {
    /// Whether `self` is what `arguments` hold: every field as it is read
    /// under its names, and in `extra` the fields that the tool does not know.
    pub open spec fn holds(self, arguments: Map<Seq<char>, JsonView>) -> bool {
        &&& gives(
            required_text_spec(aliased(arguments, "dataset_id"@, "datasetId"@)),
            self.dataset_id@,
        )
        &&& gives(
            optional_text_spec(aliased(arguments, "workbook_id"@, "workbookId"@)),
            text_view(self.workbook_id),
        )
        &&& gives(
            optional_document_spec(named(arguments, "data"@)),
            option_view(self.data),
        )
        &&& self.extra@ == arguments
            .remove("dataset_id"@)
            .remove("datasetId"@)
            .remove("workbook_id"@)
            .remove("workbookId"@)
            .remove("data"@)
    }

    /// The argument that is refused: that of the first field, in the order of
    /// the fields, that is missing or has the wrong type.
    pub open spec fn refused(arguments: Map<Seq<char>, JsonView>) -> Option<ArgumentErrorView> {
        refusal(
            "dataset_id"@,
            required_text_spec(aliased(arguments, "dataset_id"@, "datasetId"@)),
        )
            .otherwise(
                refusal(
                    "workbook_id"@,
                    optional_text_spec(aliased(arguments, "workbook_id"@, "workbookId"@)),
                ),
            )
            .otherwise(
                refusal(
                    "data"@,
                    optional_document_spec(named(arguments, "data"@)),
                ),
            )
    }

    /// Reads the arguments from the object that the caller sent.
    pub fn from_arguments(arguments: &JsonObject) -> (outcome: Result<
        ValidateDatasetArgs,
        ArgumentError,
    >)
        ensures
            match outcome {
                Ok(args) => args.holds(arguments@) && Self::refused(arguments@) is None,
                Err(error) => Self::refused(arguments@) == Some(error@),
            },
    {
        let dataset_id = required_text(
            find_aliased(arguments, "dataset_id", "datasetId"),
            "dataset_id",
        )?;
        let workbook_id = optional_text(
            find_aliased(arguments, "workbook_id", "workbookId"),
            "workbook_id",
        )?;
        let data = optional_document(find(arguments, "data"), "data")?;
        let mut extra = arguments.clone();
        extra.remove("dataset_id");
        extra.remove("datasetId");
        extra.remove("workbook_id");
        extra.remove("workbookId");
        extra.remove("data");
        Ok(ValidateDatasetArgs { dataset_id, workbook_id, data, extra })
    }
}

/// The arguments of `datalens_get_entries_relations`.
#[derive(Debug, PartialEq)]
pub struct GetEntriesRelationsArgs {
    pub entry_ids: Vec<String>,
    pub link_direction: Option<String>,
    pub include_permissions_info: Option<bool>,
    pub limit: Option<JsonNumber>,
    pub page_token: Option<String>,
    pub scope: Option<String>,
    /// The fields that the tool does not know, as the caller sent them.
    pub extra: JsonObject,
}

impl GetEntriesRelationsArgs {
    /// Whether `self` is what `arguments` hold: every field as it is read
    /// under its names, and in `extra` the fields that the tool does not know.
    pub open spec fn holds(self, arguments: Map<Seq<char>, JsonView>) -> bool {
        &&& gives(
            required_text_list_spec(aliased(arguments, "entry_ids"@, "entryIds"@)),
            strings_view(self.entry_ids@),
        )
        &&& gives(
            optional_text_spec(aliased(arguments, "link_direction"@, "linkDirection"@)),
            text_view(self.link_direction),
        )
        &&& gives(
            optional_flag_spec(
                aliased(arguments, "include_permissions_info"@, "includePermissionsInfo"@),
            ),
            self.include_permissions_info,
        )
        &&& gives(
            optional_number_spec(named(arguments, "limit"@)),
            number_view(self.limit),
        )
        &&& gives(
            optional_text_spec(aliased(arguments, "page_token"@, "pageToken"@)),
            text_view(self.page_token),
        )
        &&& gives(
            optional_text_spec(named(arguments, "scope"@)),
            text_view(self.scope),
        )
        &&& self.extra@ == arguments
            .remove("entry_ids"@)
            .remove("entryIds"@)
            .remove("link_direction"@)
            .remove("linkDirection"@)
            .remove("include_permissions_info"@)
            .remove("includePermissionsInfo"@)
            .remove("limit"@)
            .remove("page_token"@)
            .remove("pageToken"@)
            .remove("scope"@)
    }

    /// The argument that is refused: that of the first field, in the order of
    /// the fields, that is missing or has the wrong type.
    pub open spec fn refused(arguments: Map<Seq<char>, JsonView>) -> Option<ArgumentErrorView> {
        refusal(
            "entry_ids"@,
            required_text_list_spec(aliased(arguments, "entry_ids"@, "entryIds"@)),
        )
            .otherwise(
                refusal(
                    "link_direction"@,
                    optional_text_spec(aliased(arguments, "link_direction"@, "linkDirection"@)),
                ),
            )
            .otherwise(
                refusal(
                    "include_permissions_info"@,
                    optional_flag_spec(
                        aliased(arguments, "include_permissions_info"@, "includePermissionsInfo"@),
                    ),
                ),
            )
            .otherwise(
                refusal(
                    "limit"@,
                    optional_number_spec(named(arguments, "limit"@)),
                ),
            )
            .otherwise(
                refusal(
                    "page_token"@,
                    optional_text_spec(aliased(arguments, "page_token"@, "pageToken"@)),
                ),
            )
            .otherwise(
                refusal(
                    "scope"@,
                    optional_text_spec(named(arguments, "scope"@)),
                ),
            )
    }

    /// Reads the arguments from the object that the caller sent.
    pub fn from_arguments(arguments: &JsonObject) -> (outcome: Result<
        GetEntriesRelationsArgs,
        ArgumentError,
    >)
        ensures
            match outcome {
                Ok(args) => args.holds(arguments@) && Self::refused(arguments@) is None,
                Err(error) => Self::refused(arguments@) == Some(error@),
            },
    {
        let entry_ids = required_text_list(
            find_aliased(arguments, "entry_ids", "entryIds"),
            "entry_ids",
        )?;
        let link_direction = optional_text(
            find_aliased(arguments, "link_direction", "linkDirection"),
            "link_direction",
        )?;
        let include_permissions_info = optional_flag(
            find_aliased(arguments, "include_permissions_info", "includePermissionsInfo"),
            "include_permissions_info",
        )?;
        let limit = optional_number(find(arguments, "limit"), "limit")?;
        let page_token = optional_text(
            find_aliased(arguments, "page_token", "pageToken"),
            "page_token",
        )?;
        let scope = optional_text(find(arguments, "scope"), "scope")?;
        let mut extra = arguments.clone();
        extra.remove("entry_ids");
        extra.remove("entryIds");
        extra.remove("link_direction");
        extra.remove("linkDirection");
        extra.remove("include_permissions_info");
        extra.remove("includePermissionsInfo");
        extra.remove("limit");
        extra.remove("page_token");
        extra.remove("pageToken");
        extra.remove("scope");
        Ok(
            GetEntriesRelationsArgs {
                entry_ids,
                link_direction,
                include_permissions_info,
                limit,
                page_token,
                scope,
                extra,
            },
        )
    }
}

/// The arguments of the tools that delete a chart.
#[derive(Debug, PartialEq)]
pub struct DeleteChartArgs {
    pub chart_id: String,
    /// The fields that the tool does not know, as the caller sent them.
    pub extra: JsonObject,
}

impl DeleteChartArgs {
    /// Whether `self` is what `arguments` hold: every field as it is read
    /// under its names, and in `extra` the fields that the tool does not know.
    pub open spec fn holds(self, arguments: Map<Seq<char>, JsonView>) -> bool {
        &&& gives(
            required_text_spec(aliased(arguments, "chart_id"@, "chartId"@)),
            self.chart_id@,
        )
        &&& self.extra@ == arguments
            .remove("chart_id"@)
            .remove("chartId"@)
    }

    /// The argument that is refused: that of the first field, in the order of
    /// the fields, that is missing or has the wrong type.
    pub open spec fn refused(arguments: Map<Seq<char>, JsonView>) -> Option<ArgumentErrorView> {
        refusal(
            "chart_id"@,
            required_text_spec(aliased(arguments, "chart_id"@, "chartId"@)),
        )
    }

    /// Reads the arguments from the object that the caller sent.
    pub fn from_arguments(arguments: &JsonObject) -> (outcome: Result<
        DeleteChartArgs,
        ArgumentError,
    >)
        ensures
            match outcome {
                Ok(args) => args.holds(arguments@) && Self::refused(arguments@) is None,
                Err(error) => Self::refused(arguments@) == Some(error@),
            },
    {
        let chart_id = required_text(find_aliased(arguments, "chart_id", "chartId"), "chart_id")?;
        let mut extra = arguments.clone();
        extra.remove("chart_id");
        extra.remove("chartId");
        Ok(DeleteChartArgs { chart_id, extra })
    }
}

/// The arguments of `datalens_create_editor_chart`.
#[derive(Debug, PartialEq)]
pub struct CreateEditorChartArgs {
    pub entry: JsonValue,
    pub mode: Option<String>,
    /// The fields that the tool does not know, as the caller sent them.
    pub extra: JsonObject,
}

impl CreateEditorChartArgs {
    /// Whether `self` is what `arguments` hold: every field as it is read
    /// under its names, and in `extra` the fields that the tool does not know.
    pub open spec fn holds(self, arguments: Map<Seq<char>, JsonView>) -> bool {
        &&& gives(
            required_document_spec(named(arguments, "entry"@)),
            self.entry@,
        )
        &&& gives(
            optional_text_spec(named(arguments, "mode"@)),
            text_view(self.mode),
        )
        &&& self.extra@ == arguments
            .remove("entry"@)
            .remove("mode"@)
    }

    /// The argument that is refused: that of the first field, in the order of
    /// the fields, that is missing or has the wrong type.
    pub open spec fn refused(arguments: Map<Seq<char>, JsonView>) -> Option<ArgumentErrorView> {
        refusal(
            "entry"@,
            required_document_spec(named(arguments, "entry"@)),
        )
            .otherwise(
                refusal(
                    "mode"@,
                    optional_text_spec(named(arguments, "mode"@)),
                ),
            )
    }

    /// Reads the arguments from the object that the caller sent.
    pub fn from_arguments(arguments: &JsonObject) -> (outcome: Result<
        CreateEditorChartArgs,
        ArgumentError,
    >)
        ensures
            match outcome {
                Ok(args) => args.holds(arguments@) && Self::refused(arguments@) is None,
                Err(error) => Self::refused(arguments@) == Some(error@),
            },
    {
        let entry = required_document(find(arguments, "entry"), "entry")?;
        let mode = optional_text(find(arguments, "mode"), "mode")?;
        let mut extra = arguments.clone();
        extra.remove("entry");
        extra.remove("mode");
        Ok(CreateEditorChartArgs { entry, mode, extra })
    }
}

/// The arguments of `datalens_update_editor_chart`.
#[derive(Debug, PartialEq)]
pub struct UpdateEditorChartArgs {
    pub entry: JsonValue,
    pub mode: String,
    /// The fields that the tool does not know, as the caller sent them.
    pub extra: JsonObject,
}

impl UpdateEditorChartArgs {
    /// Whether `self` is what `arguments` hold: every field as it is read
    /// under its names, and in `extra` the fields that the tool does not know.
    pub open spec fn holds(self, arguments: Map<Seq<char>, JsonView>) -> bool {
        &&& gives(
            required_document_spec(named(arguments, "entry"@)),
            self.entry@,
        )
        &&& gives(
            required_text_spec(named(arguments, "mode"@)),
            self.mode@,
        )
        &&& self.extra@ == arguments
            .remove("entry"@)
            .remove("mode"@)
    }

    /// The argument that is refused: that of the first field, in the order of
    /// the fields, that is missing or has the wrong type.
    pub open spec fn refused(arguments: Map<Seq<char>, JsonView>) -> Option<ArgumentErrorView> {
        refusal(
            "entry"@,
            required_document_spec(named(arguments, "entry"@)),
        )
            .otherwise(
                refusal(
                    "mode"@,
                    required_text_spec(named(arguments, "mode"@)),
                ),
            )
    }

    /// Reads the arguments from the object that the caller sent.
    pub fn from_arguments(arguments: &JsonObject) -> (outcome: Result<
        UpdateEditorChartArgs,
        ArgumentError,
    >)
        ensures
            match outcome {
                Ok(args) => args.holds(arguments@) && Self::refused(arguments@) is None,
                Err(error) => Self::refused(arguments@) == Some(error@),
            },
    {
        let entry = required_document(find(arguments, "entry"), "entry")?;
        let mode = required_text(find(arguments, "mode"), "mode")?;
        let mut extra = arguments.clone();
        extra.remove("entry");
        extra.remove("mode");
        Ok(UpdateEditorChartArgs { entry, mode, extra })
    }
}

/// The arguments of `datalens_get_entries_permissions`.
#[derive(Debug, PartialEq)]
pub struct EntriesPermissionsArgs {
    pub entry_ids: Vec<String>,
    /// The fields that the tool does not know, as the caller sent them.
    pub extra: JsonObject,
}

impl EntriesPermissionsArgs {
    /// Whether `self` is what `arguments` hold: every field as it is read
    /// under its names, and in `extra` the fields that the tool does not know.
    pub open spec fn holds(self, arguments: Map<Seq<char>, JsonView>) -> bool {
        &&& gives(
            required_text_list_spec(aliased(arguments, "entry_ids"@, "entryIds"@)),
            strings_view(self.entry_ids@),
        )
        &&& self.extra@ == arguments
            .remove("entry_ids"@)
            .remove("entryIds"@)
    }

    /// The argument that is refused: that of the first field, in the order of
    /// the fields, that is missing or has the wrong type.
    pub open spec fn refused(arguments: Map<Seq<char>, JsonView>) -> Option<ArgumentErrorView> {
        refusal(
            "entry_ids"@,
            required_text_list_spec(aliased(arguments, "entry_ids"@, "entryIds"@)),
        )
    }

    /// Reads the arguments from the object that the caller sent.
    pub fn from_arguments(arguments: &JsonObject) -> (outcome: Result<
        EntriesPermissionsArgs,
        ArgumentError,
    >)
        ensures
            match outcome {
                Ok(args) => args.holds(arguments@) && Self::refused(arguments@) is None,
                Err(error) => Self::refused(arguments@) == Some(error@),
            },
    {
        let entry_ids = required_text_list(
            find_aliased(arguments, "entry_ids", "entryIds"),
            "entry_ids",
        )?;
        let mut extra = arguments.clone();
        extra.remove("entry_ids");
        extra.remove("entryIds");
        Ok(EntriesPermissionsArgs { entry_ids, extra })
    }
}

/// The arguments of `datalens_get_audit_entries_updates`.
#[derive(Debug, PartialEq)]
pub struct AuditEntriesUpdatesArgs {
    pub from: String,
    pub to: Option<String>,
    pub limit: Option<JsonNumber>,
    pub page_token: Option<String>,
    /// The fields that the tool does not know, as the caller sent them.
    pub extra: JsonObject,
}

impl AuditEntriesUpdatesArgs {
    /// Whether `self` is what `arguments` hold: every field as it is read
    /// under its names, and in `extra` the fields that the tool does not know.
    pub open spec fn holds(self, arguments: Map<Seq<char>, JsonView>) -> bool {
        &&& gives(
            required_text_spec(named(arguments, "from"@)),
            self.from@,
        )
        &&& gives(
            optional_text_spec(named(arguments, "to"@)),
            text_view(self.to),
        )
        &&& gives(
            optional_number_spec(named(arguments, "limit"@)),
            number_view(self.limit),
        )
        &&& gives(
            optional_text_spec(aliased(arguments, "page_token"@, "pageToken"@)),
            text_view(self.page_token),
        )
        &&& self.extra@ == arguments
            .remove("from"@)
            .remove("to"@)
            .remove("limit"@)
            .remove("page_token"@)
            .remove("pageToken"@)
    }

    /// The argument that is refused: that of the first field, in the order of
    /// the fields, that is missing or has the wrong type.
    pub open spec fn refused(arguments: Map<Seq<char>, JsonView>) -> Option<ArgumentErrorView> {
        refusal(
            "from"@,
            required_text_spec(named(arguments, "from"@)),
        )
            .otherwise(
                refusal(
                    "to"@,
                    optional_text_spec(named(arguments, "to"@)),
                ),
            )
            .otherwise(
                refusal(
                    "limit"@,
                    optional_number_spec(named(arguments, "limit"@)),
                ),
            )
            .otherwise(
                refusal(
                    "page_token"@,
                    optional_text_spec(aliased(arguments, "page_token"@, "pageToken"@)),
                ),
            )
    }

    /// Reads the arguments from the object that the caller sent.
    pub fn from_arguments(arguments: &JsonObject) -> (outcome: Result<
        AuditEntriesUpdatesArgs,
        ArgumentError,
    >)
        ensures
            match outcome {
                Ok(args) => args.holds(arguments@) && Self::refused(arguments@) is None,
                Err(error) => Self::refused(arguments@) == Some(error@),
            },
    {
        let from = required_text(find(arguments, "from"), "from")?;
        let to = optional_text(find(arguments, "to"), "to")?;
        let limit = optional_number(find(arguments, "limit"), "limit")?;
        let page_token = optional_text(
            find_aliased(arguments, "page_token", "pageToken"),
            "page_token",
        )?;
        let mut extra = arguments.clone();
        extra.remove("from");
        extra.remove("to");
        extra.remove("limit");
        extra.remove("page_token");
        extra.remove("pageToken");
        Ok(AuditEntriesUpdatesArgs { from, to, limit, page_token, extra })
    }
}

} // verus!
