use hyperview::app_errors::AppError;
use hyperview::ids::Guid;
use hyperview::properties::{
    clean_new_name, custom_property_update, plan_property_update, CustomPropertyEntry,
    PropertyEntry, PropertyTarget, PropertyWrite,
};

fn entry(id: Option<u128>, t: &str) -> PropertyEntry {
    PropertyEntry { id: id.map(|value| Guid { value }), property_type: t.to_string() }
}

#[test]
fn single_property_with_id_is_replaced() {
    let entries = vec![entry(Some(1), "assetTag"), entry(Some(2), "serialNumber")];
    assert_eq!(
        plan_property_update(&entries, "serialNumber").unwrap(),
        Some(PropertyWrite { index: 1, target: PropertyTarget::Existing(Guid { value: 2 }) })
    );
}

#[test]
fn single_property_without_id_is_created() {
    let entries = vec![entry(None, "serialNumber")];
    assert_eq!(
        plan_property_update(&entries, "serialNumber").unwrap(),
        Some(PropertyWrite { index: 0, target: PropertyTarget::New })
    );
}

#[test]
fn absent_property_writes_nothing() {
    let entries = vec![entry(Some(1), "assetTag")];
    assert_eq!(plan_property_update(&entries, "serialNumber").unwrap(), None);
}

#[test]
fn several_values_refuse_the_update() {
    let entries = vec![entry(Some(1), "serialNumber"), entry(Some(2), "serialNumber")];
    match plan_property_update(&entries, "serialNumber") {
        Err(e @ AppError::MultipleValuesDetectedForProperty) => assert_eq!(
            e.message(),
            "Unable to continue with operation; Multiple values detected for property"
        ),
        other => panic!("unexpected {:?}", other),
    }
}

fn custom(id: &str, name: &str) -> CustomPropertyEntry {
    CustomPropertyEntry {
        id: id.to_string(),
        custom_asset_property_key_id: format!("key-{id}"),
        data_type: "string".to_string(),
        name: name.to_string(),
        group_name: "SS Testing".to_string(),
    }
}

#[test]
fn custom_property_update_uses_first_match() {
    let entries = vec![custom("a", "Other"), custom("b", "RFCode Asset Tag"), custom("c", "RFCode Asset Tag")];
    let dto = custom_property_update(&entries, "RFCode Asset Tag", "CST-1204".to_string()).unwrap();
    assert_eq!(dto.id, "b");
    assert_eq!(dto.custom_asset_property_key_id, "key-b");
    assert_eq!(dto.data_type, "string");
    assert_eq!(dto.group_name, "SS Testing");
    assert_eq!(dto.value, "CST-1204");
}

#[test]
fn missing_custom_property_fails() {
    match custom_property_update(&vec![custom("a", "Other")], "Tag", "v".to_string()) {
        Err(e @ AppError::AssetDoesNotHavePropertyName(_)) => assert_eq!(
            e.message(),
            "Unable to continue with operation; Asset does not have a property named Tag"
        ),
        other => panic!("unexpected {:?}", other),
    }
}

#[test]
fn new_names_are_trimmed_and_unquoted() {
    assert_eq!(clean_new_name("  \"Main_Generator\" \t"), Some("Main_Generator".to_string()));
    assert_eq!(clean_new_name("a\"b"), Some("ab".to_string()));
    assert_eq!(clean_new_name("   "), None);
    assert_eq!(clean_new_name(" \"\" "), None);
}
