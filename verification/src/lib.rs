//! A typed client library for the UniFi Network integration API.
//!
//! The crate is split in two layers. The verified core models the wire
//! format: JSON values, the domain records they decode to, and the
//! request/response rules of each endpoint. A thin unverified shell (outside
//! this crate's `src/`) performs the HTTP round trips and hands status codes
//! and body text to the functions here.

pub mod client;
pub mod errors;
pub mod fields;
pub mod ids;
pub mod json;
pub mod models;
pub mod text;
pub mod time;

pub use client::{
    decode_error_response, get_device_details_response, get_device_statistics_response,
    get_info_response, list_clients_response, list_devices_response, list_sites_response,
    restart_device_response, ErrorResponse, HttpMethod, HttpRequest, UnifiClient,
    UnifiClientBuilder,
};
pub use errors::UnifiError;
pub use ids::Uuid;
pub use json::JsonValue;
pub use models::client::{
    decode_client_overview, BaseClientOverview, ClientOverview, TeleportClientOverview,
    VpnClientOverview, WiredClientOverview, WirelessClientOverview,
};
pub use models::common::{
    band_of, band_text, decode_application_info, decode_frequency_band, encode_frequency_band_num,
    encode_frequency_band_str, ApplicationInfo, ConnectorType, FrequencyBand, Page, PortState,
    WlanStandard,
};
pub use models::device::{
    decode_device_details, decode_device_overview, decode_device_page, decode_ethernet_port,
    decode_physical_interfaces, decode_wireless_radio, device_state_of, AccessPointFeatureOverview,
    DeviceDetails, DeviceFeatures, DeviceOverview, DevicePhysicalInterfaces, DeviceState,
    DeviceUplinkInterface, EthernetPortOverview, SwitchFeatureOverview, WirelessRadioOverview,
};
pub use models::site::{decode_site, decode_site_page, SiteOverview};
pub use models::statistics::{
    decode_device_statistics, DeviceInterfaceStatistics, DeviceStatistics, DeviceUplinkStatistics,
    WirelessRadioStatistics,
};
pub use time::Timestamp;
