use datalens_mcp::catalog::{
    datalens_get_method_schema, datalens_list_methods, eq_ignoring_case, lookup, method_catalog,
    method_entry, Category, MethodCatalogItem, GENERIC_TOOL, METHOD_CATALOG_SNAPSHOT_DATE,
    METHOD_CATALOG_SOURCE_URL,
};
use datalens_mcp::json::{JsonNumber, JsonValue};
use datalens_mcp::outcome::RequestError;

fn text(s: &str) -> JsonValue {
    JsonValue::String(s.to_owned())
}

fn listed_methods() -> Vec<JsonValue> {
    let listing = datalens_list_methods();
    match listing.get("methods") {
        Some(JsonValue::Array(methods)) => methods.clone(),
        _ => panic!("methods must be an array"),
    }
}

fn field<'a>(entry: &'a JsonValue, key: &str) -> Option<&'a JsonValue> {
    match entry {
        JsonValue::Object(object) => object.get(key),
        _ => None,
    }
}

#[test]
fn datalens_list_methods_includes_write_methods() {
    let methods = listed_methods();
    assert!(
        methods.iter().any(|method| {
            field(method, "method") == Some(&text("createDataset"))
                && field(method, "mcpTool") == Some(&text("datalens_create_dataset"))
                && field(method, "category") == Some(&text("write"))
        }),
        "method catalog must include createDataset write wrapper"
    );
}

#[test]
fn datalens_get_method_schema_covers_every_listed_method() {
    let methods = listed_methods();
    assert!(!methods.is_empty(), "datalens_list_methods returned an empty methods catalog");
    for listed in &methods {
        let Some(JsonValue::String(method_name)) = field(listed, "method") else {
            panic!("each listed method must have a string 'method' field");
        };
        let schema = datalens_get_method_schema(method_name).expect("a listed method is known");
        assert_eq!(
            schema.get("method"),
            Some(&text(method_name)),
            "schema tool returned metadata for a different method"
        );
        assert_eq!(&JsonValue::Object(schema), listed);

        let upper = datalens_get_method_schema(&method_name.to_ascii_uppercase())
            .expect("the case of the name does not count");
        assert_eq!(&JsonValue::Object(upper), listed);
        let lower = datalens_get_method_schema(&method_name.to_ascii_lowercase())
            .expect("the case of the name does not count");
        assert_eq!(&JsonValue::Object(lower), listed);
    }
}

#[test]
fn the_listing_names_its_snapshot_and_counts_its_methods() {
    let listing = datalens_list_methods();
    assert_eq!(listing.get("snapshotDate"), Some(&text("2026-02-18")));
    assert_eq!(
        listing.get("sourceUrl"),
        Some(&text("https://yandex.cloud/en/docs/datalens/openapi-ref/"))
    );
    assert_eq!(
        listing.get("totalMethods"),
        Some(&JsonValue::Number(JsonNumber { literal: "26".to_owned() }))
    );
    assert_eq!(listing.get("genericTool"), Some(&text("datalens_rpc")));
    assert_eq!(listed_methods().len(), 26);
    assert_eq!(listing.entries.len(), 5);
    assert_eq!(METHOD_CATALOG_SNAPSHOT_DATE, "2026-02-18");
    assert_eq!(METHOD_CATALOG_SOURCE_URL, "https://yandex.cloud/en/docs/datalens/openapi-ref/");
    assert_eq!(GENERIC_TOOL, "datalens_rpc");
}

#[test]
fn the_catalog_keeps_its_declaration_order() {
    let catalog = method_catalog();
    assert_eq!(catalog.len(), 26);
    assert_eq!(
        catalog[0],
        MethodCatalogItem {
            method: "getConnection",
            tool: "datalens_get_connection",
            category: Category::Read,
            experimental: false,
        }
    );
    assert_eq!(
        catalog[4],
        MethodCatalogItem {
            method: "getDashboard",
            tool: "datalens_get_dashboard",
            category: Category::Read,
            experimental: true,
        }
    );
    assert_eq!(catalog[25].method, "listDirectory");
    assert_eq!(method_catalog(), catalog);
    let listed = listed_methods();
    for (item, entry) in catalog.iter().zip(listed.iter()) {
        assert_eq!(&JsonValue::Object(method_entry(item)), entry);
    }
}

#[test]
fn methods_and_tools_are_unique() {
    let catalog = method_catalog();
    for (i, a) in catalog.iter().enumerate() {
        for b in catalog.iter().skip(i + 1) {
            assert!(!a.method.eq_ignore_ascii_case(b.method));
            assert_ne!(a.tool, b.tool);
        }
    }
}

#[test]
fn lookup_ignores_the_case_of_ascii_letters() {
    let expected = MethodCatalogItem {
        method: "getQLChart",
        tool: "datalens_get_ql_chart",
        category: Category::Read,
        experimental: true,
    };
    assert_eq!(lookup("getQLChart"), Ok(expected));
    assert_eq!(lookup("getqlchart"), Ok(expected));
    assert_eq!(lookup("GETQLCHART"), Ok(expected));
    assert_eq!(lookup("getEntries").map(|item| item.tool), Ok("datalens_get_entries"));
    assert_eq!(
        lookup("getEntriesRelations").map(|item| item.tool),
        Ok("datalens_get_entries_relations")
    );
}

#[test]
fn lookup_of_an_unknown_method_hints_at_the_listing() {
    let missing = lookup("dropEverything").expect_err("no such method");
    assert_eq!(missing.method, "dropEverything");
    assert_eq!(
        missing.hint,
        "call datalens_list_methods to see the methods that this server knows"
    );
    assert!(lookup("").is_err());
    assert!(lookup("getDataset ").is_err());
    assert!(lookup("getDatase").is_err());
    assert_eq!(
        datalens_get_method_schema("dropEverything"),
        Err(RequestError::InvalidArguments {
            method: "dropEverything".to_owned(),
            message: "unknown method `dropEverything`: call datalens_list_methods to see the methods that this server knows".to_owned(),
        })
    );
}

#[test]
fn eq_ignoring_case_folds_ascii_letters_only() {
    assert!(eq_ignoring_case("getDataset", "GETDATASET"));
    assert!(eq_ignoring_case("", ""));
    assert!(!eq_ignoring_case("getDataset", "getDatasets"));
    assert!(!eq_ignoring_case("a", "b"));
    assert!(!eq_ignoring_case("\u{e9}", "\u{c9}"));
    assert!(!eq_ignoring_case("[", "{"));
    assert!(!eq_ignoring_case("@", "`"));
    for (a, b) in [("Az", "aZ"), ("a1_", "A1_"), ("k", "\u{212a}")] {
        assert_eq!(eq_ignoring_case(a, b), a.eq_ignore_ascii_case(b));
    }
}
