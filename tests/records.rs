use hyperview::app_errors::AppError;
use hyperview::cli_data::{RackPosition, RackSide};
use hyperview::ids::Guid;
use hyperview::records::{location_payload, port_update_target, PortTypeField, UpdateAssetLocationRecord};

#[test]
fn location_payload_carries_the_record() {
    let record = UpdateAssetLocationRecord {
        asset_id: Guid { value: 1 },
        new_location_id: Guid { value: 2 },
        rack_position: Some(RackPosition::Left),
        rack_side: Some(RackSide::Rear),
        rack_u_location: Some(22),
    };
    let payload = location_payload(&record);
    assert_eq!(payload.parent_id, Guid { value: 2 });
    assert_eq!(payload.rack_position, Some(RackPosition::Left));
    assert_eq!(payload.rack_side, Some(RackSide::Rear));
    assert_eq!(payload.rack_u_location, Some(22));
}

#[test]
fn error_messages() {
    assert_eq!(AppError::FileExists.message(), "File already exists, can't over write");
    assert_eq!(AppError::NoOutputFilename.message(), "Must provide an output filename");
    assert_eq!(AppError::AssetNotFound.message(), "Asset not found");
    assert_eq!(
        AppError::MissingField("status".to_string()).message(),
        "Response is missing the field status"
    );
    assert_eq!(
        AppError::InvalidIdentifier("x".to_string()).message(),
        "Not a valid identifier: x"
    );
}

#[test]
fn guid_text_and_parse() {
    let text = "2776f6c6-78da-4087-ab9e-e7b52275cd9e";
    let g = Guid::parse(text).unwrap();
    assert_eq!(g.to_text(), text);
    assert_eq!(Guid::parse("2776F6C6-78DA-4087-AB9E-E7B52275CD9E"), Some(g));
    assert_eq!(Guid::parse("nope"), None);
    assert!(Guid { value: 0 }.is_nil());
    assert!(!g.is_nil());
}

#[test]
fn port_update_targets() {
    let patch = port_update_target("https://h", "p1", true);
    assert_eq!(patch.url, "https://h/api/asset/physicalPorts/patchPanel/p1");
    assert_eq!(patch.type_field, PortTypeField::ConnectorTypeValueId);
    let other = port_update_target("https://h", "p2", false);
    assert_eq!(other.url, "https://h/api/asset/physicalPorts/p2");
    assert_eq!(other.type_field, PortTypeField::PortTypeValueId);
}

#[test]
fn guid_text_is_hyphenated_lower_hex() {
    let g = Guid { value: 0x0123_4567_89ab_cdef_0011_2233_4455_6677 };
    assert_eq!(g.to_text(), "01234567-89ab-cdef-0011-223344556677");
    assert_eq!(Guid { value: 0 }.to_text(), "00000000-0000-0000-0000-000000000000");
}
