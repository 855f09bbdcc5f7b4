use vstd::prelude::*;

use crate::ids::Guid;

verus! {

/// Connection settings read from the configuration file.
#[derive(Debug, Clone, Default)]
pub struct AppConfig {
    pub client_id: String,
    pub client_secret: String,
    pub scope: String,
    pub auth_url: String,
    pub token_url: String,
    pub instance_url: String,
}

/// How a list of records is handed to the user.
#[derive(Debug, Clone, Copy, PartialEq, Eq, Structural)]
pub enum OutputOptions {
    CsvFile,
    Json,
    Record,
}

/// The kinds of asset the service knows.
#[derive(Debug, Clone, Copy, PartialEq, Eq, Structural)]
pub enum AssetTypes {
    BladeEnclosure,
    BladeNetwork,
    BladeServer,
    BladeStorage,
    Busway,
    Camera,
    Chiller,
    Crac,
    Crah,
    Environmental,
    FireControlPanel,
    Generator,
    InRowCooling,
    KvmSwitch,
    Location,
    Monitor,
    NetworkDevice,
    NetworkStorage,
    NodeServer,
    PatchPanel,
    PduAndRpp,
    PowerMeter,
    Rack,
    RackPdu,
    Server,
    SmallUps,
    TransferSwitch,
    Unknown,
    Ups,
    VirtualServer,
}

/// The name under which the service indexes an asset type.
pub open spec fn asset_type_name(t: AssetTypes) -> Seq<char> {
    match t {
        AssetTypes::BladeEnclosure => "BladeEnclosure"@,
        AssetTypes::BladeNetwork => "BladeNetwork"@,
        AssetTypes::BladeServer => "BladeServer"@,
        AssetTypes::BladeStorage => "BladeStorage"@,
        AssetTypes::Busway => "Busway"@,
        AssetTypes::Camera => "Camera"@,
        AssetTypes::Chiller => "Chiller"@,
        AssetTypes::Crac => "Crac"@,
        AssetTypes::Crah => "Crah"@,
        AssetTypes::Environmental => "Environmental"@,
        AssetTypes::FireControlPanel => "FireControlPanel"@,
        AssetTypes::Generator => "Generator"@,
        AssetTypes::InRowCooling => "InRowCooling"@,
        AssetTypes::KvmSwitch => "KvmSwitch"@,
        AssetTypes::Location => "Location"@,
        AssetTypes::Monitor => "Monitor"@,
        AssetTypes::NetworkDevice => "NetworkDevice"@,
        AssetTypes::NetworkStorage => "NetworkStorage"@,
        AssetTypes::NodeServer => "NodeServer"@,
        AssetTypes::PatchPanel => "PatchPanel"@,
        AssetTypes::PduAndRpp => "PduAndRpp"@,
        AssetTypes::PowerMeter => "PowerMeter"@,
        AssetTypes::Rack => "Rack"@,
        AssetTypes::RackPdu => "RackPdu"@,
        AssetTypes::Server => "Server"@,
        AssetTypes::SmallUps => "SmallUps"@,
        AssetTypes::TransferSwitch => "TransferSwitch"@,
        AssetTypes::Unknown => "Unknown"@,
        AssetTypes::Ups => "Ups"@,
        AssetTypes::VirtualServer => "VirtualServer"@,
    }
}

impl AssetTypes {
    /// The name under which the service indexes this asset type.
    pub fn name(&self) -> (r: &'static str)
        ensures
            r@ == asset_type_name(*self),
    {
        match self {
            AssetTypes::BladeEnclosure => "BladeEnclosure",
            AssetTypes::BladeNetwork => "BladeNetwork",
            AssetTypes::BladeServer => "BladeServer",
            AssetTypes::BladeStorage => "BladeStorage",
            AssetTypes::Busway => "Busway",
            AssetTypes::Camera => "Camera",
            AssetTypes::Chiller => "Chiller",
            AssetTypes::Crac => "Crac",
            AssetTypes::Crah => "Crah",
            AssetTypes::Environmental => "Environmental",
            AssetTypes::FireControlPanel => "FireControlPanel",
            AssetTypes::Generator => "Generator",
            AssetTypes::InRowCooling => "InRowCooling",
            AssetTypes::KvmSwitch => "KvmSwitch",
            AssetTypes::Location => "Location",
            AssetTypes::Monitor => "Monitor",
            AssetTypes::NetworkDevice => "NetworkDevice",
            AssetTypes::NetworkStorage => "NetworkStorage",
            AssetTypes::NodeServer => "NodeServer",
            AssetTypes::PatchPanel => "PatchPanel",
            AssetTypes::PduAndRpp => "PduAndRpp",
            AssetTypes::PowerMeter => "PowerMeter",
            AssetTypes::Rack => "Rack",
            AssetTypes::RackPdu => "RackPdu",
            AssetTypes::Server => "Server",
            AssetTypes::SmallUps => "SmallUps",
            AssetTypes::TransferSwitch => "TransferSwitch",
            AssetTypes::Unknown => "Unknown",
            AssetTypes::Ups => "Ups",
            AssetTypes::VirtualServer => "VirtualServer",
        }
    }
}

/// Side of a rack.
#[derive(Debug, Clone, Copy, PartialEq, Eq, Structural)]
pub enum RackSide {
    Front,
    Rear,
    Unknown,
}

/// Placement of a zero-U device on a rack.
#[derive(Debug, Clone, Copy, PartialEq, Eq, Structural)]
pub enum RackPosition {
    Left,
    Right,
    Top,
    Bottom,
    Above,
    Below,
    Unknown,
}

/// Verbosity chosen on the command line.
#[derive(Debug, Clone, Copy, PartialEq, Eq, Structural)]
pub enum DebugLevels {
    Error,
    Warn,
    Info,
    Debug,
    Trace,
}

/// Kind of rack accessory.
#[derive(Debug, Clone, Copy, PartialEq, Eq, Structural)]
pub enum RackPanelType {
    BlankingPanel,
    CableManagement,
}

/// What a bulk alarm run does to each event.
#[derive(Debug, Clone, Copy, PartialEq, Eq, Structural)]
pub enum ManageActionOptions {
    Acknowledge,
    Close,
}

/// Which alarm events a listing returns.
#[derive(Debug, Clone, Copy, PartialEq, Eq, Structural)]
pub enum AlarmEventFilterOptions {
    Unacknowledged,
    Active,
}

/// A command that reads one input file.
#[derive(Debug, Clone)]
pub struct BulkUpdateSingleInputFileArgs {
    pub filename: String,
}

/// Options of a bulk alarm run.
#[derive(Debug, Clone)]
pub struct ManageAlarmsArgs {
    pub filename: String,
    pub manage_action: ManageActionOptions,
}

/// Options of an alarm listing.
#[derive(Debug, Clone)]
pub struct ListAlarmsArgs {
    pub skip: u32,
    pub limit: u32,
    pub alarm_filter: AlarmEventFilterOptions,
    pub output_type: OutputOptions,
    pub filename: Option<String>,
}

/// Search criteria: every filter is optional.
#[derive(Debug, Clone)]
pub struct SearchAssetsArgs {
    pub search_pattern: Option<String>,
    pub asset_type: Option<AssetTypes>,
    pub location_path: Option<String>,
    pub properties: Option<Vec<String>>,
    pub custom_properties: Option<Vec<String>>,
    pub id: Option<Guid>,
    pub manufacturer: Option<String>,
    pub product: Option<String>,
    pub show_property: Option<String>,
    pub skip: u32,
    pub limit: u32,
    pub output_type: OutputOptions,
    pub filename: Option<String>,
}

/// Criteria of a listing by a set of values of one property.
#[derive(Debug, Clone)]
pub struct ListAnyOfArgs {
    pub property_key: String,
    pub property_value: Vec<String>,
    pub asset_type: Option<AssetTypes>,
    pub location_path: Option<String>,
    pub custom_properties: Option<Vec<String>>,
    pub id: Option<Guid>,
    pub manufacturer: Option<String>,
    pub product: Option<String>,
    pub show_property: Option<String>,
    pub skip: u32,
    pub limit: u32,
    pub output_type: OutputOptions,
    pub filename: Option<String>,
}

} // verus!
