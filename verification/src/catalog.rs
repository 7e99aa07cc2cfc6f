//! The method catalog: the remote methods that the server knows, each with
//! the tool that calls it, and the lookup of a method by its name.
use vstd::prelude::*;
use crate::json::{items_view, lemma_items_view_step, JsonNumber, JsonObject, JsonValue, JsonView};
use crate::outcome::{RequestError, RequestErrorView};
use crate::text::{chars_of, decimal_spec, join};

verus! {

/// The day on which the catalog was taken from the remote API's reference.
pub const METHOD_CATALOG_SNAPSHOT_DATE: &'static str = "2026-02-18";

/// Where the remote API's reference is published.
pub const METHOD_CATALOG_SOURCE_URL: &'static str =
    "https://yandex.cloud/en/docs/datalens/openapi-ref/";

/// The tool that calls any method by its name.
pub const GENERIC_TOOL: &'static str = "datalens_rpc";

/// Whether a method reads or writes.
#[derive(Debug, Clone, Copy, PartialEq, Eq, Structural)]
pub enum Category {
    Read,
    Write,
}

/// An entry of the catalog: a remote method, the tool that calls it, whether
/// it reads or writes, and whether the remote API marks it experimental.
#[derive(Debug, Clone, Copy, PartialEq, Eq)]
pub struct MethodCatalogItem {
    pub method: &'static str,
    pub tool: &'static str,
    pub category: Category,
    pub experimental: bool,
}

/// The lower-case form of an upper-case ASCII letter; any other character
/// is left as it is.
pub open spec fn lower_char(c: char) -> char {
    if 'A' <= c <= 'Z' {
        ((c as u8) + 32) as char
    } else {
        c
    }
}

/// Whether two names are the same but for the case of their ASCII letters.
pub open spec fn same_ignoring_case(a: Seq<char>, b: Seq<char>) -> bool {
    &&& a.len() == b.len()
    &&& forall|i: int| 0 <= i < a.len() ==> lower_char(#[trigger] a[i]) == lower_char(b[i])
}

/// The place of the first entry from `from` on whose method is `name`, but
/// for case.
pub open spec fn position_from(
    catalog: Seq<MethodCatalogItem>,
    name: Seq<char>,
    from: int,
) -> Option<int>
    decreases catalog.len() - from,
{
    if from < 0 || from >= catalog.len() {
        None
    } else if same_ignoring_case(catalog[from].method@, name) {
        Some(from)
    } else {
        position_from(catalog, name, from + 1)
    }
}

/// The place of the first entry whose method is `name`, but for case.
pub open spec fn position_of(catalog: Seq<MethodCatalogItem>, name: Seq<char>) -> Option<int> {
    position_from(catalog, name, 0)
}

/// Whether two names hold the same characters.
pub open spec fn same_text(a: Seq<char>, b: Seq<char>) -> bool {
    &&& a.len() == b.len()
    &&& forall|i: int| 0 <= i < a.len() ==> (#[trigger] a[i]) == b[i]
}

/// The place of the first entry from `from` on whose tool is `tool`.
pub open spec fn tool_position_from(
    catalog: Seq<MethodCatalogItem>,
    tool: Seq<char>,
    from: int,
) -> Option<int>
    decreases catalog.len() - from,
{
    if from < 0 || from >= catalog.len() {
        None
    } else if same_text(catalog[from].tool@, tool) {
        Some(from)
    } else {
        tool_position_from(catalog, tool, from + 1)
    }
}

/// The place of the first entry whose tool is `tool`.
pub open spec fn tool_position(catalog: Seq<MethodCatalogItem>, tool: Seq<char>) -> Option<int> {
    tool_position_from(catalog, tool, 0)
}

/// Whether a catalog is well formed: no two entries have the same method,
/// even but for case, and no two entries have the same tool.
pub open spec fn well_formed(catalog: Seq<MethodCatalogItem>) -> bool {
    forall|i: int, j: int|
        #![trigger catalog[i], catalog[j]]
        0 <= i < j < catalog.len() ==> !same_ignoring_case(catalog[i].method@, catalog[j].method@)
            && catalog[i].tool@ != catalog[j].tool@
}

/// A method that the catalog does not hold, with a hint at what to do.
#[derive(Debug, PartialEq, Eq)]
pub struct NotFound {
    pub method: String,
    pub hint: String,
}

/// The hint that goes with a method that is not found: list the catalog
/// first.
pub open spec fn not_found_hint() -> Seq<char> {
    "call datalens_list_methods to see the methods that this server knows"@
}

/// The message for a method that is not found. It names the method and
/// gives the hint.
pub open spec fn not_found_message(method: Seq<char>) -> Seq<char> {
    "unknown method `"@ + method + "`: "@ + not_found_hint()
}

/// What looking `name` up gives: the entry at the place where `name` is
/// found, if it is found.
pub open spec fn lookup_spec(name: Seq<char>) -> Option<MethodCatalogItem> {
    match position_of(catalog_spec(), name) {
        Some(i) => Some(catalog_spec()[i]),
        None => None,
    }
}

fn lower(c: char) -> (out: char)
    ensures
        out == lower_char(c),
{
    if 'A' <= c && c <= 'Z' {
        ((c as u8) + 32) as char
    } else {
        c
    }
}

/// Whether two names are the same but for the case of their ASCII letters.
pub fn eq_ignoring_case(a: &str, b: &str) -> (same: bool)
    ensures
        same == same_ignoring_case(a@, b@),
{
    let left = chars_of(a);
    let right = chars_of(b);
    if left.len() != right.len() {
        return false;
    }
    let mut i: usize = 0;
    while i < left.len()
        invariant
            i <= left.len(),
            left.len() == right.len(),
            left@ == a@,
            right@ == b@,
            forall|k: int| 0 <= k < i ==> lower_char(#[trigger] left@[k]) == lower_char(right@[k]),
        decreases left.len() - i,
    {
        if lower(left[i]) != lower(right[i]) {
            return false;
        }
        i += 1;
    }
    true
}

/// Looks a method up by its name; the case of ASCII letters does not count.
/// A name that the catalog does not hold gives `NotFound`, which carries the
/// hint to list the catalog first.
pub fn lookup(name: &str) -> (found: Result<MethodCatalogItem, NotFound>)
    ensures
        match found {
            Ok(item) => lookup_spec(name@) == Some(item),
            Err(missing) => lookup_spec(name@) is None && missing.method@ == name@
                && missing.hint@ == not_found_hint(),
        },
{
    let catalog = method_catalog();
    let mut i: usize = 0;
    while i < catalog.len()
        invariant
            i <= catalog.len(),
            catalog@ == catalog_spec(),
            position_of(catalog_spec(), name@) == position_from(catalog_spec(), name@, i as int),
        decreases catalog.len() - i,
    {
        if eq_ignoring_case(catalog[i].method, name) {
            return Ok(catalog[i]);
        }
        i += 1;
    }
    Err(
        NotFound {
            method: name.to_owned(),
            hint: "call datalens_list_methods to see the methods that this server knows".to_owned(),
        },
    )
}

impl NotFound {
    /// The failure of a call that names this method.
    pub fn into_request_error(self) -> (error: RequestError)
        ensures
            error@ == (RequestErrorView::InvalidArguments {
                method: self.method@,
                message: "unknown method `"@ + self.method@ + "`: "@ + self.hint@,
            }),
    {
        let mut message = join("unknown method `", self.method.as_str());
        message.append("`: ");
        message.append(self.hint.as_str());
        RequestError::InvalidArguments { method: self.method, message }
    }
}

/// How a category is written.
pub open spec fn category_name(category: Category) -> Seq<char> {
    match category {
        Category::Read => "read"@,
        Category::Write => "write"@,
    }
}

/// An entry as the caller sees it: the method, the tool that calls it, its
/// category and whether it is experimental.
pub open spec fn entry_fields(item: MethodCatalogItem) -> Map<Seq<char>, JsonView> {
    Map::<Seq<char>, JsonView>::empty().insert("method"@, JsonView::String(item.method@)).insert(
        "mcpTool"@,
        JsonView::String(item.tool@),
    ).insert("category"@, JsonView::String(category_name(item.category))).insert(
        "experimental"@,
        JsonView::Bool(item.experimental),
    )
}

/// The entries of a catalog as the caller sees them, in order.
pub open spec fn entries_json(catalog: Seq<MethodCatalogItem>) -> Seq<JsonView> {
    Seq::new(catalog.len(), |i: int| JsonView::Object(entry_fields(catalog[i])))
}

/// The answer to listing the catalog: when and where the catalog was taken,
/// how many methods it holds, the tool that calls any of them, and the
/// entries in declaration order.
pub open spec fn listing_spec() -> Map<Seq<char>, JsonView> {
    Map::<Seq<char>, JsonView>::empty().insert(
        "snapshotDate"@,
        JsonView::String(METHOD_CATALOG_SNAPSHOT_DATE@),
    ).insert("sourceUrl"@, JsonView::String(METHOD_CATALOG_SOURCE_URL@)).insert(
        "totalMethods"@,
        JsonView::Number(decimal_spec(catalog_spec().len())),
    ).insert("genericTool"@, JsonView::String(GENERIC_TOOL@)).insert(
        "methods"@,
        JsonView::Array(entries_json(catalog_spec())),
    )
}

/// What asking for a method's entry gives: the entry as the caller sees it,
/// or the refusal of a method that the catalog does not hold.
pub open spec fn schema_spec(method: Seq<char>) -> Result<
    Map<Seq<char>, JsonView>,
    RequestErrorView,
> {
    match lookup_spec(method) {
        Some(item) => Ok(entry_fields(item)),
        None => Err(
            RequestErrorView::InvalidArguments {
                method: method,
                message: not_found_message(method),
            },
        ),
    }
}

/// The meaning of an entry or of its refusal.
pub open spec fn schema_view(answer: Result<JsonObject, RequestError>) -> Result<
    Map<Seq<char>, JsonView>,
    RequestErrorView,
> {
    match answer {
        Ok(object) => Ok(object@),
        Err(error) => Err(error@),
    }
}

/// An entry as the caller sees it.
pub fn method_entry(item: &MethodCatalogItem) -> (entry: JsonObject)
    ensures
        entry@ == entry_fields(*item),
{
    let mut entry = JsonObject::new();
    entry.insert("method".to_owned(), JsonValue::text(item.method));
    entry.insert("mcpTool".to_owned(), JsonValue::text(item.tool));
    let category = match item.category {
        Category::Read => "read",
        Category::Write => "write",
    };
    entry.insert("category".to_owned(), JsonValue::text(category));
    entry.insert("experimental".to_owned(), JsonValue::Bool(item.experimental));
    entry
}

/// Lists the catalog: the answer of the tool `datalens_list_methods`.
pub fn datalens_list_methods() -> (listing: JsonObject)
    ensures
        listing@ == listing_spec(),
{
    let catalog = method_catalog();
    let mut methods: Vec<JsonValue> = Vec::new();
    let mut i: usize = 0;
    proof {
        lemma_items_view_step(methods@);
    }
    while i < catalog.len()
        invariant
            i <= catalog.len(),
            catalog@ == catalog_spec(),
            items_view(methods@) == entries_json(catalog@.take(i as int)),
        decreases catalog.len() - i,
    {
        let entry = JsonValue::Object(method_entry(&catalog[i]));
        proof {
            lemma_items_view_step(methods@.push(entry));
            assert(methods@.push(entry).drop_last() =~= methods@);
            assert(items_view(methods@.push(entry)) =~= entries_json(catalog@.take(i + 1)));
        }
        methods.push(entry);
        i += 1;
    }
    assert(catalog@.take(catalog@.len() as int) =~= catalog@);
    let mut listing = JsonObject::new();
    listing.insert("snapshotDate".to_owned(), JsonValue::text(METHOD_CATALOG_SNAPSHOT_DATE));
    listing.insert("sourceUrl".to_owned(), JsonValue::text(METHOD_CATALOG_SOURCE_URL));
    listing.insert(
        "totalMethods".to_owned(),
        JsonValue::Number(JsonNumber::from_u64(catalog.len() as u64)),
    );
    listing.insert("genericTool".to_owned(), JsonValue::text(GENERIC_TOOL));
    listing.insert("methods".to_owned(), JsonValue::Array(methods));
    listing
}

/// Gives the entry of `method`: the answer of the tool
/// `datalens_get_method_schema`. The case of ASCII letters in the name does
/// not count.
pub fn datalens_get_method_schema(method: &str) -> (answer: Result<JsonObject, RequestError>)
    ensures
        schema_view(answer) == schema_spec(method@),
{
    match lookup(method) {
        Ok(item) => Ok(method_entry(&item)),
        Err(missing) => Err(missing.into_request_error()),
    }
}

/// Listing and lookup agree: the entry that the listing shows at place `i`
/// is the entry that asking for its method gives, whatever the case in
/// which the method's name is written.
pub proof fn lemma_listing_round_trip(i: int, name: Seq<char>)
    requires
        0 <= i < catalog_spec().len(),
        same_ignoring_case(catalog_spec()[i].method@, name),
    ensures
        lookup_spec(name) == Some(catalog_spec()[i]),
        schema_spec(name) == Ok::<Map<Seq<char>, JsonView>, RequestErrorView>(
            entry_fields(catalog_spec()[i]),
        ),
        listing_spec()["methods"@] == JsonView::Array(entries_json(catalog_spec())),
        entries_json(catalog_spec())[i] == JsonView::Object(entry_fields(catalog_spec()[i])),
{
    lemma_catalog_round_trip(i);
    lemma_same_name_same_place(catalog_spec(), catalog_spec()[i].method@, name, 0);
}

/// No entry before the place at which a method is found has that method.
proof fn lemma_position_is_first(
    catalog: Seq<MethodCatalogItem>,
    name: Seq<char>,
    from: int,
    earlier: int,
)
    requires
        0 <= from <= earlier < catalog.len(),
        same_ignoring_case(catalog[earlier].method@, name),
    ensures
        position_from(catalog, name, from) matches Some(found) && from <= found <= earlier,
    decreases earlier - from,
{
    if !same_ignoring_case(catalog[from].method@, name) {
        lemma_position_is_first(catalog, name, from + 1, earlier);
    }
}

/// No entry before the place at which a tool is found has that tool.
proof fn lemma_tool_position_is_first(
    catalog: Seq<MethodCatalogItem>,
    tool: Seq<char>,
    from: int,
    earlier: int,
)
    requires
        0 <= from <= earlier < catalog.len(),
        same_text(catalog[earlier].tool@, tool),
    ensures
        tool_position_from(catalog, tool, from) matches Some(found) && from <= found <= earlier,
    decreases earlier - from,
{
    if !same_text(catalog[from].tool@, tool) {
        lemma_tool_position_is_first(catalog, tool, from + 1, earlier);
    }
}

/// The catalog is well formed: its methods are unique, even but for case,
/// and its tools are unique.
pub proof fn lemma_catalog_is_well_formed()
    ensures
        well_formed(catalog_spec()),
{
    let catalog = catalog_spec();
    assert forall|i: int, j: int|
        #![trigger catalog[i], catalog[j]]
        0 <= i < j < catalog.len() implies !same_ignoring_case(
        catalog[i].method@,
        catalog[j].method@,
    ) && catalog[i].tool@ != catalog[j].tool@ by {
        lemma_catalog_round_trip(j);
        lemma_tool_round_trip(j);
        if same_ignoring_case(catalog[i].method@, catalog[j].method@) {
            lemma_position_is_first(catalog, catalog[j].method@, 0, i);
        }
        if catalog[i].tool@ == catalog[j].tool@ {
            lemma_tool_position_is_first(catalog, catalog[j].tool@, 0, i);
        }
    }
}

/// Names that are the same but for case are found at the same place.
proof fn lemma_same_name_same_place(
    catalog: Seq<MethodCatalogItem>,
    a: Seq<char>,
    b: Seq<char>,
    from: int,
)
    requires
        same_ignoring_case(a, b),
        0 <= from,
    ensures
        position_from(catalog, a, from) == position_from(catalog, b, from),
    decreases catalog.len() - from,
{
    if from < catalog.len() {
        let method = catalog[from].method@;
        if same_ignoring_case(method, a) {
            assert forall|i: int| 0 <= i < method.len() implies lower_char(#[trigger] method[i])
                == lower_char(b[i]) by {
                assert(lower_char(a[i]) == lower_char(b[i]));
            }
        }
        if same_ignoring_case(method, b) {
            assert forall|i: int| 0 <= i < method.len() implies lower_char(#[trigger] method[i])
                == lower_char(a[i]) by {
                assert(lower_char(a[i]) == lower_char(b[i]));
            }
        }
        lemma_same_name_same_place(catalog, a, b, from + 1);
    }
}

/// The catalog: every remote method that the server knows, in the order in
/// which the methods are declared.
pub open spec fn catalog_spec() -> Seq<MethodCatalogItem> {
    seq![
        MethodCatalogItem {
            method: "getConnection",
            tool: "datalens_get_connection",
            category: Category::Read,
            experimental: false,
        },
        MethodCatalogItem {
            method: "createConnection",
            tool: "datalens_create_connection",
            category: Category::Write,
            experimental: false,
        },
        MethodCatalogItem {
            method: "updateConnection",
            tool: "datalens_update_connection",
            category: Category::Write,
            experimental: false,
        },
        MethodCatalogItem {
            method: "deleteConnection",
            tool: "datalens_delete_connection",
            category: Category::Write,
            experimental: false,
        },
        MethodCatalogItem {
            method: "getDashboard",
            tool: "datalens_get_dashboard",
            category: Category::Read,
            experimental: true,
        },
        MethodCatalogItem {
            method: "createDashboard",
            tool: "datalens_create_dashboard",
            category: Category::Write,
            experimental: true,
        },
        MethodCatalogItem {
            method: "updateDashboard",
            tool: "datalens_update_dashboard",
            category: Category::Write,
            experimental: true,
        },
        MethodCatalogItem {
            method: "deleteDashboard",
            tool: "datalens_delete_dashboard",
            category: Category::Write,
            experimental: false,
        },
        MethodCatalogItem {
            method: "getDataset",
            tool: "datalens_get_dataset",
            category: Category::Read,
            experimental: false,
        },
        MethodCatalogItem {
            method: "createDataset",
            tool: "datalens_create_dataset",
            category: Category::Write,
            experimental: false,
        },
        MethodCatalogItem {
            method: "updateDataset",
            tool: "datalens_update_dataset",
            category: Category::Write,
            experimental: false,
        },
        MethodCatalogItem {
            method: "deleteDataset",
            tool: "datalens_delete_dataset",
            category: Category::Write,
            experimental: false,
        },
        MethodCatalogItem {
            method: "validateDataset",
            tool: "datalens_validate_dataset",
            category: Category::Write,
            experimental: false,
        },
        MethodCatalogItem {
            method: "getEntriesRelations",
            tool: "datalens_get_entries_relations",
            category: Category::Read,
            experimental: false,
        },
        MethodCatalogItem {
            method: "getEntries",
            tool: "datalens_get_entries",
            category: Category::Read,
            experimental: false,
        },
        MethodCatalogItem {
            method: "getQLChart",
            tool: "datalens_get_ql_chart",
            category: Category::Read,
            experimental: true,
        },
        MethodCatalogItem {
            method: "deleteQLChart",
            tool: "datalens_delete_ql_chart",
            category: Category::Write,
            experimental: false,
        },
        MethodCatalogItem {
            method: "getWizardChart",
            tool: "datalens_get_wizard_chart",
            category: Category::Read,
            experimental: true,
        },
        MethodCatalogItem {
            method: "deleteWizardChart",
            tool: "datalens_delete_wizard_chart",
            category: Category::Write,
            experimental: false,
        },
        MethodCatalogItem {
            method: "getEditorChart",
            tool: "datalens_get_editor_chart",
            category: Category::Read,
            experimental: true,
        },
        MethodCatalogItem {
            method: "deleteEditorChart",
            tool: "datalens_delete_editor_chart",
            category: Category::Write,
            experimental: false,
        },
        MethodCatalogItem {
            method: "createEditorChart",
            tool: "datalens_create_editor_chart",
            category: Category::Write,
            experimental: true,
        },
        MethodCatalogItem {
            method: "updateEditorChart",
            tool: "datalens_update_editor_chart",
            category: Category::Write,
            experimental: true,
        },
        MethodCatalogItem {
            method: "getEntriesPermissions",
            tool: "datalens_get_entries_permissions",
            category: Category::Read,
            experimental: false,
        },
        MethodCatalogItem {
            method: "getAuditEntriesUpdates",
            tool: "datalens_get_audit_entries_updates",
            category: Category::Read,
            experimental: false,
        },
        MethodCatalogItem {
            method: "listDirectory",
            tool: "datalens_list_directory",
            category: Category::Read,
            experimental: false,
        },
    ]
}

/// The catalog, in declaration order.
pub fn method_catalog() -> (catalog: Vec<MethodCatalogItem>)
    ensures
        catalog@ == catalog_spec(),
{
    let mut catalog: Vec<MethodCatalogItem> = Vec::new();
    catalog.push(
        MethodCatalogItem {
            method: "getConnection",
            tool: "datalens_get_connection",
            category: Category::Read,
            experimental: false,
        },
    );
    catalog.push(
        MethodCatalogItem {
            method: "createConnection",
            tool: "datalens_create_connection",
            category: Category::Write,
            experimental: false,
        },
    );
    catalog.push(
        MethodCatalogItem {
            method: "updateConnection",
            tool: "datalens_update_connection",
            category: Category::Write,
            experimental: false,
        },
    );
    catalog.push(
        MethodCatalogItem {
            method: "deleteConnection",
            tool: "datalens_delete_connection",
            category: Category::Write,
            experimental: false,
        },
    );
    catalog.push(
        MethodCatalogItem {
            method: "getDashboard",
            tool: "datalens_get_dashboard",
            category: Category::Read,
            experimental: true,
        },
    );
    catalog.push(
        MethodCatalogItem {
            method: "createDashboard",
            tool: "datalens_create_dashboard",
            category: Category::Write,
            experimental: true,
        },
    );
    catalog.push(
        MethodCatalogItem {
            method: "updateDashboard",
            tool: "datalens_update_dashboard",
            category: Category::Write,
            experimental: true,
        },
    );
    catalog.push(
        MethodCatalogItem {
            method: "deleteDashboard",
            tool: "datalens_delete_dashboard",
            category: Category::Write,
            experimental: false,
        },
    );
    catalog.push(
        MethodCatalogItem {
            method: "getDataset",
            tool: "datalens_get_dataset",
            category: Category::Read,
            experimental: false,
        },
    );
    catalog.push(
        MethodCatalogItem {
            method: "createDataset",
            tool: "datalens_create_dataset",
            category: Category::Write,
            experimental: false,
        },
    );
    catalog.push(
        MethodCatalogItem {
            method: "updateDataset",
            tool: "datalens_update_dataset",
            category: Category::Write,
            experimental: false,
        },
    );
    catalog.push(
        MethodCatalogItem {
            method: "deleteDataset",
            tool: "datalens_delete_dataset",
            category: Category::Write,
            experimental: false,
        },
    );
    catalog.push(
        MethodCatalogItem {
            method: "validateDataset",
            tool: "datalens_validate_dataset",
            category: Category::Write,
            experimental: false,
        },
    );
    catalog.push(
        MethodCatalogItem {
            method: "getEntriesRelations",
            tool: "datalens_get_entries_relations",
            category: Category::Read,
            experimental: false,
        },
    );
    catalog.push(
        MethodCatalogItem {
            method: "getEntries",
            tool: "datalens_get_entries",
            category: Category::Read,
            experimental: false,
        },
    );
    catalog.push(
        MethodCatalogItem {
            method: "getQLChart",
            tool: "datalens_get_ql_chart",
            category: Category::Read,
            experimental: true,
        },
    );
    catalog.push(
        MethodCatalogItem {
            method: "deleteQLChart",
            tool: "datalens_delete_ql_chart",
            category: Category::Write,
            experimental: false,
        },
    );
    catalog.push(
        MethodCatalogItem {
            method: "getWizardChart",
            tool: "datalens_get_wizard_chart",
            category: Category::Read,
            experimental: true,
        },
    );
    catalog.push(
        MethodCatalogItem {
            method: "deleteWizardChart",
            tool: "datalens_delete_wizard_chart",
            category: Category::Write,
            experimental: false,
        },
    );
    catalog.push(
        MethodCatalogItem {
            method: "getEditorChart",
            tool: "datalens_get_editor_chart",
            category: Category::Read,
            experimental: true,
        },
    );
    catalog.push(
        MethodCatalogItem {
            method: "deleteEditorChart",
            tool: "datalens_delete_editor_chart",
            category: Category::Write,
            experimental: false,
        },
    );
    catalog.push(
        MethodCatalogItem {
            method: "createEditorChart",
            tool: "datalens_create_editor_chart",
            category: Category::Write,
            experimental: true,
        },
    );
    catalog.push(
        MethodCatalogItem {
            method: "updateEditorChart",
            tool: "datalens_update_editor_chart",
            category: Category::Write,
            experimental: true,
        },
    );
    catalog.push(
        MethodCatalogItem {
            method: "getEntriesPermissions",
            tool: "datalens_get_entries_permissions",
            category: Category::Read,
            experimental: false,
        },
    );
    catalog.push(
        MethodCatalogItem {
            method: "getAuditEntriesUpdates",
            tool: "datalens_get_audit_entries_updates",
            category: Category::Read,
            experimental: false,
        },
    );
    catalog.push(
        MethodCatalogItem {
            method: "listDirectory",
            tool: "datalens_list_directory",
            category: Category::Read,
            experimental: false,
        },
    );
    assert(catalog@ =~= catalog_spec());
    catalog
}

/// The length of each method name and the letters that tell the names apart.
proof fn lemma_method_marks()
    ensures
        "getConnection"@.len() == 13,
        "getConnection"@[0] == 'g',
        "getConnection"@[6] == 'n',
        "createConnection"@.len() == 16,
        "createConnection"@[0] == 'c',
        "createConnection"@[6] == 'C',
        "updateConnection"@.len() == 16,
        "updateConnection"@[0] == 'u',
        "updateConnection"@[6] == 'C',
        "deleteConnection"@.len() == 16,
        "deleteConnection"@[0] == 'd',
        "deleteConnection"@[6] == 'C',
        "getDashboard"@.len() == 12,
        "getDashboard"@[0] == 'g',
        "getDashboard"@[6] == 'h',
        "createDashboard"@.len() == 15,
        "createDashboard"@[0] == 'c',
        "createDashboard"@[6] == 'D',
        "updateDashboard"@.len() == 15,
        "updateDashboard"@[0] == 'u',
        "updateDashboard"@[6] == 'D',
        "deleteDashboard"@.len() == 15,
        "deleteDashboard"@[0] == 'd',
        "deleteDashboard"@[6] == 'D',
        "getDataset"@.len() == 10,
        "getDataset"@[0] == 'g',
        "getDataset"@[6] == 'a',
        "createDataset"@.len() == 13,
        "createDataset"@[0] == 'c',
        "createDataset"@[6] == 'D',
        "updateDataset"@.len() == 13,
        "updateDataset"@[0] == 'u',
        "updateDataset"@[6] == 'D',
        "deleteDataset"@.len() == 13,
        "deleteDataset"@[0] == 'd',
        "deleteDataset"@[6] == 'D',
        "validateDataset"@.len() == 15,
        "validateDataset"@[0] == 'v',
        "validateDataset"@[6] == 't',
        "getEntriesRelations"@.len() == 19,
        "getEntriesRelations"@[0] == 'g',
        "getEntriesRelations"@[6] == 'r',
        "getEntries"@.len() == 10,
        "getEntries"@[0] == 'g',
        "getEntries"@[6] == 'r',
        "getQLChart"@.len() == 10,
        "getQLChart"@[0] == 'g',
        "getQLChart"@[6] == 'h',
        "deleteQLChart"@.len() == 13,
        "deleteQLChart"@[0] == 'd',
        "deleteQLChart"@[6] == 'Q',
        "getWizardChart"@.len() == 14,
        "getWizardChart"@[0] == 'g',
        "getWizardChart"@[6] == 'a',
        "deleteWizardChart"@.len() == 17,
        "deleteWizardChart"@[0] == 'd',
        "deleteWizardChart"@[6] == 'W',
        "getEditorChart"@.len() == 14,
        "getEditorChart"@[0] == 'g',
        "getEditorChart"@[6] == 't',
        "deleteEditorChart"@.len() == 17,
        "deleteEditorChart"@[0] == 'd',
        "deleteEditorChart"@[6] == 'E',
        "createEditorChart"@.len() == 17,
        "createEditorChart"@[0] == 'c',
        "createEditorChart"@[6] == 'E',
        "updateEditorChart"@.len() == 17,
        "updateEditorChart"@[0] == 'u',
        "updateEditorChart"@[6] == 'E',
        "getEntriesPermissions"@.len() == 21,
        "getEntriesPermissions"@[0] == 'g',
        "getEntriesPermissions"@[6] == 'r',
        "getAuditEntriesUpdates"@.len() == 22,
        "getAuditEntriesUpdates"@[0] == 'g',
        "getAuditEntriesUpdates"@[6] == 'i',
        "listDirectory"@.len() == 13,
        "listDirectory"@[0] == 'l',
        "listDirectory"@[6] == 'r',
{
    reveal_strlit("getConnection");
    reveal_strlit("createConnection");
    reveal_strlit("updateConnection");
    reveal_strlit("deleteConnection");
    reveal_strlit("getDashboard");
    reveal_strlit("createDashboard");
    reveal_strlit("updateDashboard");
    reveal_strlit("deleteDashboard");
    reveal_strlit("getDataset");
    reveal_strlit("createDataset");
    reveal_strlit("updateDataset");
    reveal_strlit("deleteDataset");
    reveal_strlit("validateDataset");
    reveal_strlit("getEntriesRelations");
    reveal_strlit("getEntries");
    reveal_strlit("getQLChart");
    reveal_strlit("deleteQLChart");
    reveal_strlit("getWizardChart");
    reveal_strlit("deleteWizardChart");
    reveal_strlit("getEditorChart");
    reveal_strlit("deleteEditorChart");
    reveal_strlit("createEditorChart");
    reveal_strlit("updateEditorChart");
    reveal_strlit("getEntriesPermissions");
    reveal_strlit("getAuditEntriesUpdates");
    reveal_strlit("listDirectory");
}

/// The length of each tool name and the letters that tell the names apart.
proof fn lemma_tool_marks()
    ensures
        "datalens_get_connection"@.len() == 23,
        "datalens_get_connection"@[9] == 'g',
        "datalens_get_connection"@[16] == 'n',
        "datalens_create_connection"@.len() == 26,
        "datalens_create_connection"@[9] == 'c',
        "datalens_create_connection"@[16] == 'c',
        "datalens_update_connection"@.len() == 26,
        "datalens_update_connection"@[9] == 'u',
        "datalens_update_connection"@[16] == 'c',
        "datalens_delete_connection"@.len() == 26,
        "datalens_delete_connection"@[9] == 'd',
        "datalens_delete_connection"@[16] == 'c',
        "datalens_get_dashboard"@.len() == 22,
        "datalens_get_dashboard"@[9] == 'g',
        "datalens_get_dashboard"@[16] == 'h',
        "datalens_create_dashboard"@.len() == 25,
        "datalens_create_dashboard"@[9] == 'c',
        "datalens_create_dashboard"@[16] == 'd',
        "datalens_update_dashboard"@.len() == 25,
        "datalens_update_dashboard"@[9] == 'u',
        "datalens_update_dashboard"@[16] == 'd',
        "datalens_delete_dashboard"@.len() == 25,
        "datalens_delete_dashboard"@[9] == 'd',
        "datalens_delete_dashboard"@[16] == 'd',
        "datalens_get_dataset"@.len() == 20,
        "datalens_get_dataset"@[9] == 'g',
        "datalens_get_dataset"@[16] == 'a',
        "datalens_create_dataset"@.len() == 23,
        "datalens_create_dataset"@[9] == 'c',
        "datalens_create_dataset"@[16] == 'd',
        "datalens_update_dataset"@.len() == 23,
        "datalens_update_dataset"@[9] == 'u',
        "datalens_update_dataset"@[16] == 'd',
        "datalens_delete_dataset"@.len() == 23,
        "datalens_delete_dataset"@[9] == 'd',
        "datalens_delete_dataset"@[16] == 'd',
        "datalens_validate_dataset"@.len() == 25,
        "datalens_validate_dataset"@[9] == 'v',
        "datalens_validate_dataset"@[16] == 'e',
        "datalens_get_entries_relations"@.len() == 30,
        "datalens_get_entries_relations"@[9] == 'g',
        "datalens_get_entries_relations"@[16] == 'r',
        "datalens_get_entries"@.len() == 20,
        "datalens_get_entries"@[9] == 'g',
        "datalens_get_entries"@[16] == 'r',
        "datalens_get_ql_chart"@.len() == 21,
        "datalens_get_ql_chart"@[9] == 'g',
        "datalens_get_ql_chart"@[16] == 'c',
        "datalens_delete_ql_chart"@.len() == 24,
        "datalens_delete_ql_chart"@[9] == 'd',
        "datalens_delete_ql_chart"@[16] == 'q',
        "datalens_get_wizard_chart"@.len() == 25,
        "datalens_get_wizard_chart"@[9] == 'g',
        "datalens_get_wizard_chart"@[16] == 'a',
        "datalens_delete_wizard_chart"@.len() == 28,
        "datalens_delete_wizard_chart"@[9] == 'd',
        "datalens_delete_wizard_chart"@[16] == 'w',
        "datalens_get_editor_chart"@.len() == 25,
        "datalens_get_editor_chart"@[9] == 'g',
        "datalens_get_editor_chart"@[16] == 't',
        "datalens_delete_editor_chart"@.len() == 28,
        "datalens_delete_editor_chart"@[9] == 'd',
        "datalens_delete_editor_chart"@[16] == 'e',
        "datalens_create_editor_chart"@.len() == 28,
        "datalens_create_editor_chart"@[9] == 'c',
        "datalens_create_editor_chart"@[16] == 'e',
        "datalens_update_editor_chart"@.len() == 28,
        "datalens_update_editor_chart"@[9] == 'u',
        "datalens_update_editor_chart"@[16] == 'e',
        "datalens_get_entries_permissions"@.len() == 32,
        "datalens_get_entries_permissions"@[9] == 'g',
        "datalens_get_entries_permissions"@[16] == 'r',
        "datalens_get_audit_entries_updates"@.len() == 34,
        "datalens_get_audit_entries_updates"@[9] == 'g',
        "datalens_get_audit_entries_updates"@[16] == 'i',
        "datalens_list_directory"@.len() == 23,
        "datalens_list_directory"@[9] == 'l',
        "datalens_list_directory"@[16] == 'r',
{
    reveal_strlit("datalens_get_connection");
    reveal_strlit("datalens_create_connection");
    reveal_strlit("datalens_update_connection");
    reveal_strlit("datalens_delete_connection");
    reveal_strlit("datalens_get_dashboard");
    reveal_strlit("datalens_create_dashboard");
    reveal_strlit("datalens_update_dashboard");
    reveal_strlit("datalens_delete_dashboard");
    reveal_strlit("datalens_get_dataset");
    reveal_strlit("datalens_create_dataset");
    reveal_strlit("datalens_update_dataset");
    reveal_strlit("datalens_delete_dataset");
    reveal_strlit("datalens_validate_dataset");
    reveal_strlit("datalens_get_entries_relations");
    reveal_strlit("datalens_get_entries");
    reveal_strlit("datalens_get_ql_chart");
    reveal_strlit("datalens_delete_ql_chart");
    reveal_strlit("datalens_get_wizard_chart");
    reveal_strlit("datalens_delete_wizard_chart");
    reveal_strlit("datalens_get_editor_chart");
    reveal_strlit("datalens_delete_editor_chart");
    reveal_strlit("datalens_create_editor_chart");
    reveal_strlit("datalens_update_editor_chart");
    reveal_strlit("datalens_get_entries_permissions");
    reveal_strlit("datalens_get_audit_entries_updates");
    reveal_strlit("datalens_list_directory");
}

proof fn lemma_finds_get_connection()
    ensures
        position_of(catalog_spec(), catalog_spec()[0].method@) == Some(0int),
{
    lemma_method_marks();
    reveal_with_fuel(position_from, 2);
}

proof fn lemma_finds_create_connection()
    ensures
        position_of(catalog_spec(), catalog_spec()[1].method@) == Some(1int),
{
    lemma_method_marks();
    reveal_with_fuel(position_from, 3);
}

proof fn lemma_finds_update_connection()
    ensures
        position_of(catalog_spec(), catalog_spec()[2].method@) == Some(2int),
{
    lemma_method_marks();
    reveal_with_fuel(position_from, 4);
}

proof fn lemma_finds_delete_connection()
    ensures
        position_of(catalog_spec(), catalog_spec()[3].method@) == Some(3int),
{
    lemma_method_marks();
    reveal_with_fuel(position_from, 5);
}

proof fn lemma_finds_get_dashboard()
    ensures
        position_of(catalog_spec(), catalog_spec()[4].method@) == Some(4int),
{
    lemma_method_marks();
    reveal_with_fuel(position_from, 6);
}

proof fn lemma_finds_create_dashboard()
    ensures
        position_of(catalog_spec(), catalog_spec()[5].method@) == Some(5int),
{
    lemma_method_marks();
    reveal_with_fuel(position_from, 7);
}

proof fn lemma_finds_update_dashboard()
    ensures
        position_of(catalog_spec(), catalog_spec()[6].method@) == Some(6int),
{
    lemma_method_marks();
    reveal_with_fuel(position_from, 8);
}

proof fn lemma_finds_delete_dashboard()
    ensures
        position_of(catalog_spec(), catalog_spec()[7].method@) == Some(7int),
{
    lemma_method_marks();
    reveal_with_fuel(position_from, 9);
}

proof fn lemma_finds_get_dataset()
    ensures
        position_of(catalog_spec(), catalog_spec()[8].method@) == Some(8int),
{
    lemma_method_marks();
    reveal_with_fuel(position_from, 10);
}

proof fn lemma_finds_create_dataset()
    ensures
        position_of(catalog_spec(), catalog_spec()[9].method@) == Some(9int),
{
    lemma_method_marks();
    reveal_with_fuel(position_from, 11);
}

proof fn lemma_finds_update_dataset()
    ensures
        position_of(catalog_spec(), catalog_spec()[10].method@) == Some(10int),
{
    lemma_method_marks();
    reveal_with_fuel(position_from, 12);
}

proof fn lemma_finds_delete_dataset()
    ensures
        position_of(catalog_spec(), catalog_spec()[11].method@) == Some(11int),
{
    lemma_method_marks();
    reveal_with_fuel(position_from, 13);
}

proof fn lemma_finds_validate_dataset()
    ensures
        position_of(catalog_spec(), catalog_spec()[12].method@) == Some(12int),
{
    lemma_method_marks();
    reveal_with_fuel(position_from, 14);
}

proof fn lemma_finds_get_entries_relations()
    ensures
        position_of(catalog_spec(), catalog_spec()[13].method@) == Some(13int),
{
    lemma_method_marks();
    reveal_with_fuel(position_from, 15);
}

proof fn lemma_finds_get_entries()
    ensures
        position_of(catalog_spec(), catalog_spec()[14].method@) == Some(14int),
{
    lemma_method_marks();
    reveal_with_fuel(position_from, 16);
}

proof fn lemma_finds_get_qlchart()
    ensures
        position_of(catalog_spec(), catalog_spec()[15].method@) == Some(15int),
{
    lemma_method_marks();
    reveal_with_fuel(position_from, 17);
}

proof fn lemma_finds_delete_qlchart()
    ensures
        position_of(catalog_spec(), catalog_spec()[16].method@) == Some(16int),
{
    lemma_method_marks();
    reveal_with_fuel(position_from, 18);
}

proof fn lemma_finds_get_wizard_chart()
    ensures
        position_of(catalog_spec(), catalog_spec()[17].method@) == Some(17int),
{
    lemma_method_marks();
    reveal_with_fuel(position_from, 19);
}

proof fn lemma_finds_delete_wizard_chart()
    ensures
        position_of(catalog_spec(), catalog_spec()[18].method@) == Some(18int),
{
    lemma_method_marks();
    reveal_with_fuel(position_from, 20);
}

proof fn lemma_finds_get_editor_chart()
    ensures
        position_of(catalog_spec(), catalog_spec()[19].method@) == Some(19int),
{
    lemma_method_marks();
    reveal_with_fuel(position_from, 21);
}

proof fn lemma_finds_delete_editor_chart()
    ensures
        position_of(catalog_spec(), catalog_spec()[20].method@) == Some(20int),
{
    lemma_method_marks();
    reveal_with_fuel(position_from, 22);
}

proof fn lemma_finds_create_editor_chart()
    ensures
        position_of(catalog_spec(), catalog_spec()[21].method@) == Some(21int),
{
    lemma_method_marks();
    reveal_with_fuel(position_from, 23);
}

proof fn lemma_finds_update_editor_chart()
    ensures
        position_of(catalog_spec(), catalog_spec()[22].method@) == Some(22int),
{
    lemma_method_marks();
    reveal_with_fuel(position_from, 24);
}

proof fn lemma_finds_get_entries_permissions()
    ensures
        position_of(catalog_spec(), catalog_spec()[23].method@) == Some(23int),
{
    lemma_method_marks();
    reveal_with_fuel(position_from, 25);
}

proof fn lemma_finds_get_audit_entries_updates()
    ensures
        position_of(catalog_spec(), catalog_spec()[24].method@) == Some(24int),
{
    lemma_method_marks();
    reveal_with_fuel(position_from, 26);
}

proof fn lemma_finds_list_directory()
    ensures
        position_of(catalog_spec(), catalog_spec()[25].method@) == Some(25int),
{
    lemma_method_marks();
    reveal_with_fuel(position_from, 27);
}

proof fn lemma_finds_tool_get_connection()
    ensures
        tool_position(catalog_spec(), catalog_spec()[0].tool@) == Some(0int),
{
    lemma_tool_marks();
    reveal_with_fuel(tool_position_from, 2);
}

proof fn lemma_finds_tool_create_connection()
    ensures
        tool_position(catalog_spec(), catalog_spec()[1].tool@) == Some(1int),
{
    lemma_tool_marks();
    reveal_with_fuel(tool_position_from, 3);
}

proof fn lemma_finds_tool_update_connection()
    ensures
        tool_position(catalog_spec(), catalog_spec()[2].tool@) == Some(2int),
{
    lemma_tool_marks();
    reveal_with_fuel(tool_position_from, 4);
}

proof fn lemma_finds_tool_delete_connection()
    ensures
        tool_position(catalog_spec(), catalog_spec()[3].tool@) == Some(3int),
{
    lemma_tool_marks();
    reveal_with_fuel(tool_position_from, 5);
}

proof fn lemma_finds_tool_get_dashboard()
    ensures
        tool_position(catalog_spec(), catalog_spec()[4].tool@) == Some(4int),
{
    lemma_tool_marks();
    reveal_with_fuel(tool_position_from, 6);
}

proof fn lemma_finds_tool_create_dashboard()
    ensures
        tool_position(catalog_spec(), catalog_spec()[5].tool@) == Some(5int),
{
    lemma_tool_marks();
    reveal_with_fuel(tool_position_from, 7);
}

proof fn lemma_finds_tool_update_dashboard()
    ensures
        tool_position(catalog_spec(), catalog_spec()[6].tool@) == Some(6int),
{
    lemma_tool_marks();
    reveal_with_fuel(tool_position_from, 8);
}

proof fn lemma_finds_tool_delete_dashboard()
    ensures
        tool_position(catalog_spec(), catalog_spec()[7].tool@) == Some(7int),
{
    lemma_tool_marks();
    reveal_with_fuel(tool_position_from, 9);
}

proof fn lemma_finds_tool_get_dataset()
    ensures
        tool_position(catalog_spec(), catalog_spec()[8].tool@) == Some(8int),
{
    lemma_tool_marks();
    reveal_with_fuel(tool_position_from, 10);
}

proof fn lemma_finds_tool_create_dataset()
    ensures
        tool_position(catalog_spec(), catalog_spec()[9].tool@) == Some(9int),
{
    lemma_tool_marks();
    reveal_with_fuel(tool_position_from, 11);
}

proof fn lemma_finds_tool_update_dataset()
    ensures
        tool_position(catalog_spec(), catalog_spec()[10].tool@) == Some(10int),
{
    lemma_tool_marks();
    reveal_with_fuel(tool_position_from, 12);
}

proof fn lemma_finds_tool_delete_dataset()
    ensures
        tool_position(catalog_spec(), catalog_spec()[11].tool@) == Some(11int),
{
    lemma_tool_marks();
    reveal_with_fuel(tool_position_from, 13);
}

proof fn lemma_finds_tool_validate_dataset()
    ensures
        tool_position(catalog_spec(), catalog_spec()[12].tool@) == Some(12int),
{
    lemma_tool_marks();
    reveal_with_fuel(tool_position_from, 14);
}

proof fn lemma_finds_tool_get_entries_relations()
    ensures
        tool_position(catalog_spec(), catalog_spec()[13].tool@) == Some(13int),
{
    lemma_tool_marks();
    reveal_with_fuel(tool_position_from, 15);
}

proof fn lemma_finds_tool_get_entries()
    ensures
        tool_position(catalog_spec(), catalog_spec()[14].tool@) == Some(14int),
{
    lemma_tool_marks();
    reveal_with_fuel(tool_position_from, 16);
}

proof fn lemma_finds_tool_get_qlchart()
    ensures
        tool_position(catalog_spec(), catalog_spec()[15].tool@) == Some(15int),
{
    lemma_tool_marks();
    reveal_with_fuel(tool_position_from, 17);
}

proof fn lemma_finds_tool_delete_qlchart()
    ensures
        tool_position(catalog_spec(), catalog_spec()[16].tool@) == Some(16int),
{
    lemma_tool_marks();
    reveal_with_fuel(tool_position_from, 18);
}

proof fn lemma_finds_tool_get_wizard_chart()
    ensures
        tool_position(catalog_spec(), catalog_spec()[17].tool@) == Some(17int),
{
    lemma_tool_marks();
    reveal_with_fuel(tool_position_from, 19);
}

proof fn lemma_finds_tool_delete_wizard_chart()
    ensures
        tool_position(catalog_spec(), catalog_spec()[18].tool@) == Some(18int),
{
    lemma_tool_marks();
    reveal_with_fuel(tool_position_from, 20);
}

proof fn lemma_finds_tool_get_editor_chart()
    ensures
        tool_position(catalog_spec(), catalog_spec()[19].tool@) == Some(19int),
{
    lemma_tool_marks();
    reveal_with_fuel(tool_position_from, 21);
}

proof fn lemma_finds_tool_delete_editor_chart()
    ensures
        tool_position(catalog_spec(), catalog_spec()[20].tool@) == Some(20int),
{
    lemma_tool_marks();
    reveal_with_fuel(tool_position_from, 22);
}

proof fn lemma_finds_tool_create_editor_chart()
    ensures
        tool_position(catalog_spec(), catalog_spec()[21].tool@) == Some(21int),
{
    lemma_tool_marks();
    reveal_with_fuel(tool_position_from, 23);
}

proof fn lemma_finds_tool_update_editor_chart()
    ensures
        tool_position(catalog_spec(), catalog_spec()[22].tool@) == Some(22int),
{
    lemma_tool_marks();
    reveal_with_fuel(tool_position_from, 24);
}

proof fn lemma_finds_tool_get_entries_permissions()
    ensures
        tool_position(catalog_spec(), catalog_spec()[23].tool@) == Some(23int),
{
    lemma_tool_marks();
    reveal_with_fuel(tool_position_from, 25);
}

proof fn lemma_finds_tool_get_audit_entries_updates()
    ensures
        tool_position(catalog_spec(), catalog_spec()[24].tool@) == Some(24int),
{
    lemma_tool_marks();
    reveal_with_fuel(tool_position_from, 26);
}

proof fn lemma_finds_tool_list_directory()
    ensures
        tool_position(catalog_spec(), catalog_spec()[25].tool@) == Some(25int),
{
    lemma_tool_marks();
    reveal_with_fuel(tool_position_from, 27);
}

/// Every tool of the catalog is found under its own name, at its own place.
pub proof fn lemma_tool_round_trip(i: int)
    requires
        0 <= i < catalog_spec().len(),
    ensures
        tool_position(catalog_spec(), catalog_spec()[i].tool@) == Some(i),
{
    if i == 0 {
        lemma_finds_tool_get_connection();
    } else if i == 1 {
        lemma_finds_tool_create_connection();
    } else if i == 2 {
        lemma_finds_tool_update_connection();
    } else if i == 3 {
        lemma_finds_tool_delete_connection();
    } else if i == 4 {
        lemma_finds_tool_get_dashboard();
    } else if i == 5 {
        lemma_finds_tool_create_dashboard();
    } else if i == 6 {
        lemma_finds_tool_update_dashboard();
    } else if i == 7 {
        lemma_finds_tool_delete_dashboard();
    } else if i == 8 {
        lemma_finds_tool_get_dataset();
    } else if i == 9 {
        lemma_finds_tool_create_dataset();
    } else if i == 10 {
        lemma_finds_tool_update_dataset();
    } else if i == 11 {
        lemma_finds_tool_delete_dataset();
    } else if i == 12 {
        lemma_finds_tool_validate_dataset();
    } else if i == 13 {
        lemma_finds_tool_get_entries_relations();
    } else if i == 14 {
        lemma_finds_tool_get_entries();
    } else if i == 15 {
        lemma_finds_tool_get_qlchart();
    } else if i == 16 {
        lemma_finds_tool_delete_qlchart();
    } else if i == 17 {
        lemma_finds_tool_get_wizard_chart();
    } else if i == 18 {
        lemma_finds_tool_delete_wizard_chart();
    } else if i == 19 {
        lemma_finds_tool_get_editor_chart();
    } else if i == 20 {
        lemma_finds_tool_delete_editor_chart();
    } else if i == 21 {
        lemma_finds_tool_create_editor_chart();
    } else if i == 22 {
        lemma_finds_tool_update_editor_chart();
    } else if i == 23 {
        lemma_finds_tool_get_entries_permissions();
    } else if i == 24 {
        lemma_finds_tool_get_audit_entries_updates();
    } else if i == 25 {
        lemma_finds_tool_list_directory();
    }
}

/// Every method of the catalog is found under its own name, at its own
/// place: no two entries have the same method, even but for case.
pub proof fn lemma_catalog_round_trip(i: int)
    requires
        0 <= i < catalog_spec().len(),
    ensures
        position_of(catalog_spec(), catalog_spec()[i].method@) == Some(i),
{
    if i == 0 {
        lemma_finds_get_connection();
    } else if i == 1 {
        lemma_finds_create_connection();
    } else if i == 2 {
        lemma_finds_update_connection();
    } else if i == 3 {
        lemma_finds_delete_connection();
    } else if i == 4 {
        lemma_finds_get_dashboard();
    } else if i == 5 {
        lemma_finds_create_dashboard();
    } else if i == 6 {
        lemma_finds_update_dashboard();
    } else if i == 7 {
        lemma_finds_delete_dashboard();
    } else if i == 8 {
        lemma_finds_get_dataset();
    } else if i == 9 {
        lemma_finds_create_dataset();
    } else if i == 10 {
        lemma_finds_update_dataset();
    } else if i == 11 {
        lemma_finds_delete_dataset();
    } else if i == 12 {
        lemma_finds_validate_dataset();
    } else if i == 13 {
        lemma_finds_get_entries_relations();
    } else if i == 14 {
        lemma_finds_get_entries();
    } else if i == 15 {
        lemma_finds_get_qlchart();
    } else if i == 16 {
        lemma_finds_delete_qlchart();
    } else if i == 17 {
        lemma_finds_get_wizard_chart();
    } else if i == 18 {
        lemma_finds_delete_wizard_chart();
    } else if i == 19 {
        lemma_finds_get_editor_chart();
    } else if i == 20 {
        lemma_finds_delete_editor_chart();
    } else if i == 21 {
        lemma_finds_create_editor_chart();
    } else if i == 22 {
        lemma_finds_update_editor_chart();
    } else if i == 23 {
        lemma_finds_get_entries_permissions();
    } else if i == 24 {
        lemma_finds_get_audit_entries_updates();
    } else if i == 25 {
        lemma_finds_list_directory();
    }
}

} // verus!
