use vstd::prelude::*;

verus! {

pub const ASSET_ALARM_EVENT_BULK_CLOSE_API_PREFIX: &'static str = "/api/asset/alarmEvents/bulkClose";

pub const ASSET_ALARM_EVENT_BULK_ACKNOWLEDGE_API_PREFIX: &'static str =
    "/api/asset/alarmEvents/bulkAcknowledgementStates";

pub const ASSET_ALARM_EVENT_LIST_API_PREFIX: &'static str =
    "/api/asset/alarmEvents/allAssets/advancedCollection";

pub const ASSET_ASSETS_API_PREFIX: &'static str = "/api/asset/assets";

pub const ASSET_LOCATION_API_PREFIX: &'static str = "/api/asset/location";

pub const ASSET_PORTS_API_PREFIX: &'static str = "/api/asset/physicalPorts";

pub const ASSET_PROPERTIES_API_PREFIX: &'static str = "/api/asset/assetProperties";

pub const ASSET_SEARCH_API_PREFIX: &'static str = "/api/asset/search";

pub const CUSTOM_ASSET_PROPERTIES_API_PREFIX: &'static str = "/api/asset/customAssetProperties";

} // verus!
