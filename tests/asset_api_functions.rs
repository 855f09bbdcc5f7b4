use hyperview::cli_data::{AssetTypes, ListAnyOfArgs, OutputOptions, SearchAssetsArgs};
use hyperview::filter::{compose_any_of_query, compose_search_query, location_predicate};
use hyperview::ids::Guid;

fn attributes() -> Vec<String> {
    [
        "id",
        "displayName",
        "assetLifecycleState",
        "assetType",
        "manufacturerId",
        "manufacturerName",
        "monitoringState",
        "parentId",
        "parentDisplayName",
        "productId",
        "productName",
        "status",
        "delimitedPath",
        "assetProperty_serialNumber",
    ]
    .iter()
    .map(|s| s.to_string())
    .collect()
}

fn empty_search() -> SearchAssetsArgs {
    SearchAssetsArgs {
        search_pattern: None,
        asset_type: None,
        location_path: None,
        properties: None,
        custom_properties: None,
        id: None,
        manufacturer: None,
        product: None,
        limit: 100,
        skip: 0,
        filename: None,
        output_type: OutputOptions::Record,
        show_property: None,
    }
}

fn guid(text: &str) -> Guid {
    Guid { value: uuid::Uuid::parse_str(text).unwrap().as_u128() }
}

#[test]
fn asset_api_functions_test_compose_search_query() {
    let mut options = SearchAssetsArgs {
        search_pattern: Some("search_pattern".to_string()),
        ..empty_search()
    };

    let query1 = compose_search_query(options.clone(), "All");
    assert_eq!(query1.limit, 100);
    assert_eq!(query1.offset, 0);
    assert_eq!(query1.attributes_to_retrieve, attributes());
    assert_eq!(query1.q, Some("search_pattern".to_string()));
    assert_eq!(query1.filter, "delimitedPath STARTS WITH 'All~'");

    // Test with asset type and location set
    let mut filter = Vec::new();
    filter.push(format!("assetType = '{}'", "Server"));
    let input_path = "All/".to_string();
    let prepared_path = input_path.replace('/', "~").to_string();
    filter.push(format!("delimitedPath STARTS WITH '{}'", prepared_path));
    let filter_str = filter.join(" AND ");

    options.location_path = Some("All/".to_string());
    options.asset_type = Some(AssetTypes::Server);

    let query2 = compose_search_query(options, "All");
    assert_eq!(query2.limit, 100);
    assert_eq!(query2.offset, 0);
    assert_eq!(query2.attributes_to_retrieve, attributes());
    assert_eq!(query2.q, Some("search_pattern".to_string()));
    assert_eq!(query2.filter, filter_str);
}

#[test]
fn search_type_and_location_filter() {
    let options = SearchAssetsArgs {
        asset_type: Some(AssetTypes::Server),
        location_path: Some("All/".to_string()),
        ..empty_search()
    };
    let query = compose_search_query(options, "Root");
    assert_eq!(
        query.filter,
        "assetType = 'Server' AND delimitedPath STARTS WITH 'All~'"
    );
    assert_eq!(
        query.filters,
        vec![
            "assetType = 'Server'".to_string(),
            "delimitedPath STARTS WITH 'All~'".to_string()
        ]
    );
}

#[test]
fn search_without_criteria_is_root_scoped_only() {
    let query = compose_search_query(empty_search(), "All");
    assert_eq!(query.filters, vec!["delimitedPath STARTS WITH 'All~'".to_string()]);
    assert_eq!(query.filter, "delimitedPath STARTS WITH 'All~'");
    assert!(!query.filter.contains(" AND "));
    assert_eq!(query.q, None);
}

#[test]
fn search_all_criteria_in_fixed_order() {
    let options = SearchAssetsArgs {
        search_pattern: Some("rack".to_string()),
        asset_type: Some(AssetTypes::Rack),
        location_path: Some("All/Site A/".to_string()),
        properties: Some(vec![" serialNumber = SN1 ".to_string(), "bad".to_string()]),
        custom_properties: Some(vec!["owner=ops=team".to_string()]),
        id: Some(guid("2776f6c6-78da-4087-ab9e-e7b52275cd9e")),
        manufacturer: Some("dell".to_string()),
        product: Some("poweredge".to_string()),
        limit: 10,
        skip: 20,
        ..empty_search()
    };
    let query = compose_search_query(options, "All");
    assert_eq!(query.limit, 10);
    assert_eq!(query.offset, 20);
    assert_eq!(
        query.filters,
        vec![
            "assetType = 'Rack'".to_string(),
            "delimitedPath STARTS WITH 'All~Site A~'".to_string(),
            "assetProperty_serialNumber  = 'SN1'".to_string(),
            "customProperty_owner  = 'ops=team'".to_string(),
            "id = '2776f6c6-78da-4087-ab9e-e7b52275cd9e'".to_string(),
            "manufacturerName = 'dell'".to_string(),
            "productName CONTAINS 'poweredge'".to_string(),
        ]
    );
    assert_eq!(query.filter, query.filters.join(" AND "));
}

#[test]
fn malformed_property_token_is_dropped() {
    let options = SearchAssetsArgs {
        properties: Some(vec!["noequals".to_string()]),
        custom_properties: Some(vec!["alsonone".to_string()]),
        ..empty_search()
    };
    let query = compose_search_query(options, "All");
    assert_eq!(query.filters, vec!["delimitedPath STARTS WITH 'All~'".to_string()]);
}

#[test]
fn any_of_query_lists_all_values() {
    let options = ListAnyOfArgs {
        property_key: "serialNumber".to_string(),
        property_value: vec!["SN1".to_string(), "S\"N2".to_string()],
        asset_type: Some(AssetTypes::Server),
        location_path: Some("All/".to_string()),
        custom_properties: None,
        id: None,
        manufacturer: None,
        product: None,
        show_property: None,
        skip: 5,
        limit: 50,
        output_type: OutputOptions::Json,
        filename: None,
    };
    let query = compose_any_of_query(options);
    assert_eq!(query.q, None);
    assert_eq!(query.limit, 50);
    assert_eq!(query.offset, 5);
    assert_eq!(query.attributes_to_retrieve, attributes());
    assert_eq!(
        query.filter,
        "assetProperty_serialNumber EXISTS AND assetProperty_serialNumber IN [\"SN1\", \"S\\\"N2\"] AND assetType = 'Server' AND delimitedPath STARTS WITH 'All~'"
    );
}

#[test]
fn location_predicate_replaces_every_slash() {
    assert_eq!(
        location_predicate("All/Lab/Row 1"),
        "delimitedPath STARTS WITH 'All~Lab~Row 1'"
    );
    assert_eq!(location_predicate(""), "delimitedPath STARTS WITH ''");
}
