use vstd::prelude::*;

use crate::api_constants::ASSET_PORTS_API_PREFIX;
use crate::cli_data::{RackPosition, RackSide};
use crate::ids::Guid;

verus! {

/// One row of a bulk rename.
#[derive(Debug, Clone)]
pub struct UpdateAssetNameRecord {
    pub asset_id: Guid,
    pub new_name: String,
}

/// One row of a bulk move.
#[derive(Debug, Clone, Copy, PartialEq, Eq, Structural)]
pub struct UpdateAssetLocationRecord {
    pub asset_id: Guid,
    pub new_location_id: Guid,
    pub rack_position: Option<RackPosition>,
    pub rack_side: Option<RackSide>,
    pub rack_u_location: Option<usize>,
}

/// The payload that moves an asset.
#[derive(Debug, Clone, Copy, PartialEq, Eq, Structural)]
pub struct AssetLocationDTO {
    pub parent_id: Guid,
    pub rack_position: Option<RackPosition>,
    pub rack_side: Option<RackSide>,
    pub rack_u_location: Option<usize>,
}

/// The payload that moves the asset of `record` to its new location.
pub fn location_payload(record: &UpdateAssetLocationRecord) -> (r: AssetLocationDTO)
    ensures
        r == (AssetLocationDTO {
            parent_id: record.new_location_id,
            rack_position: record.rack_position,
            rack_side: record.rack_side,
            rack_u_location: record.rack_u_location,
        }),
{
    AssetLocationDTO {
        parent_id: record.new_location_id,
        rack_position: record.rack_position,
        rack_side: record.rack_side,
        rack_u_location: record.rack_u_location,
    }
}

/// A physical network port of an asset.
#[derive(Debug, Clone, Default)]
pub struct AssetPortDto {
    pub id: String,
    pub name: String,
    pub parent_id: String,
    pub port_number: i64,
    pub port_side: Option<String>,
    pub port_side_value_id: Option<String>,
    pub connector_type_value_id: Option<String>,
    pub port_type_value_id: Option<String>,
}

/// The type field a port update carries besides name, parent, number and side.
#[derive(Debug, Clone, Copy, PartialEq, Eq, Structural)]
pub enum PortTypeField {
    ConnectorTypeValueId,
    PortTypeValueId,
}

/// Where one port update goes and which type field it carries.
#[derive(Debug, Clone)]
pub struct PortUpdateTarget {
    pub url: String,
    pub type_field: PortTypeField,
}

/// The endpoint that updates port `port_id`: patch-panel ports have their own.
pub open spec fn port_update_url(instance_url: Seq<char>, port_id: Seq<char>, is_patch_panel: bool) -> Seq<char> {
    instance_url + ASSET_PORTS_API_PREFIX@ + (if is_patch_panel {
        "/patchPanel/"@
    } else {
        "/"@
    }) + port_id
}

/// The update of port `port_id`: a patch-panel port is sent to the
/// patch-panel endpoint with its connector type, any other port to the port
/// endpoint with its port type.
pub fn port_update_target(instance_url: &str, port_id: &str, is_patch_panel: bool) -> (r:
    PortUpdateTarget)
    ensures
        r.url@ == port_update_url(instance_url@, port_id@, is_patch_panel),
        r.type_field == (if is_patch_panel {
            PortTypeField::ConnectorTypeValueId
        } else {
            PortTypeField::PortTypeValueId
        }),
{
    let mut url = String::from_str(instance_url);
    url.append(ASSET_PORTS_API_PREFIX);
    let type_field = if is_patch_panel {
        url.append("/patchPanel/");
        PortTypeField::ConnectorTypeValueId
    } else {
        url.append("/");
        PortTypeField::PortTypeValueId
    };
    url.append(port_id);
    PortUpdateTarget { url, type_field }
}

} // verus!
