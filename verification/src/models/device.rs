//! Devices: managed network appliances within a site.

use vstd::prelude::*;
use crate::fields::{
    get_bool_field, get_i32_field, get_opt_i32_field, get_opt_timestamp_field, get_str_field,
    get_str_list_field, get_uuid_field, spec_bool_field, spec_i32_field, spec_opt_i32_field,
    spec_opt_timestamp_field, spec_str_field, spec_str_list_field, spec_uuid_field,
};
use crate::ids::Uuid;
use crate::json::{jv, jv_field, Jv, JsonValue};
use crate::models::common::{
    connector_type_of, decode_frequency_band, lemma_decode_seq_none, port_state_of,
    spec_connector_type_of, spec_decode_frequency_band, spec_decode_page, spec_decode_seq,
    spec_port_state_of, spec_wlan_standard_of, wlan_standard_of, ConnectorType, FrequencyBand,
    Page, PageV, PortState, WlanStandard,
};
use crate::time::Timestamp;

verus! {

/// The management state of a device.
#[derive(Debug, Clone, Copy, PartialEq, Eq)]
pub enum DeviceState {
    Online,
    Offline,
    PendingAdoption,
    Updating,
    GettingReady,
    Adopting,
    Deleting,
    ConnectionInterrupted,
    Isolated,
}

pub open spec fn spec_device_state_of(s: Seq<char>) -> Option<DeviceState> {
    if s == "ONLINE"@ {
        Some(DeviceState::Online)
    } else if s == "OFFLINE"@ {
        Some(DeviceState::Offline)
    } else if s == "PENDINGADOPTION"@ {
        Some(DeviceState::PendingAdoption)
    } else if s == "UPDATING"@ {
        Some(DeviceState::Updating)
    } else if s == "GETTINGREADY"@ {
        Some(DeviceState::GettingReady)
    } else if s == "ADOPTING"@ {
        Some(DeviceState::Adopting)
    } else if s == "DELETING"@ {
        Some(DeviceState::Deleting)
    } else if s == "CONNECTIONINTERRUPTED"@ {
        Some(DeviceState::ConnectionInterrupted)
    } else if s == "ISOLATED"@ {
        Some(DeviceState::Isolated)
    } else {
        None
    }
}

/// Decodes a device state from its upper-case wire name.
pub fn device_state_of(s: &str) -> (r: Option<DeviceState>)
    ensures
        r == spec_device_state_of(s@),
{
    if crate::text::str_eq(s, "ONLINE") {
        Some(DeviceState::Online)
    } else if crate::text::str_eq(s, "OFFLINE") {
        Some(DeviceState::Offline)
    } else if crate::text::str_eq(s, "PENDINGADOPTION") {
        Some(DeviceState::PendingAdoption)
    } else if crate::text::str_eq(s, "UPDATING") {
        Some(DeviceState::Updating)
    } else if crate::text::str_eq(s, "GETTINGREADY") {
        Some(DeviceState::GettingReady)
    } else if crate::text::str_eq(s, "ADOPTING") {
        Some(DeviceState::Adopting)
    } else if crate::text::str_eq(s, "DELETING") {
        Some(DeviceState::Deleting)
    } else if crate::text::str_eq(s, "CONNECTIONINTERRUPTED") {
        Some(DeviceState::ConnectionInterrupted)
    } else if crate::text::str_eq(s, "ISOLATED") {
        Some(DeviceState::Isolated)
    } else {
        None
    }
}

/// A required string field holding a device state name.
pub open spec fn spec_device_state_field(j: Jv, key: Seq<char>) -> Option<DeviceState> {
    match spec_str_field(j, key) {
        Some(s) => spec_device_state_of(s),
        None => None,
    }
}

pub fn get_device_state_field(j: &JsonValue, key: &str) -> (r: Option<DeviceState>)
    ensures
        r == spec_device_state_field(j@, key@),
{
    match get_str_field(j, key) {
        Some(s) => device_state_of(s.as_str()),
        None => None,
    }
}

/// One device as the device list reports it.
#[derive(Debug, Clone, PartialEq, Eq)]
pub struct DeviceOverview {
    pub id: Uuid,
    pub name: String,
    pub model: String,
    pub mac_address: String,
    pub ip_address: String,
    pub state: DeviceState,
    pub features: Vec<String>,
    pub interfaces: Vec<String>,
}

/// The shape of a [`DeviceOverview`] in specifications.
pub struct DeviceOverviewV {
    pub id: Uuid,
    pub name: Seq<char>,
    pub model: Seq<char>,
    pub mac_address: Seq<char>,
    pub ip_address: Seq<char>,
    pub state: DeviceState,
    pub features: Seq<Seq<char>>,
    pub interfaces: Seq<Seq<char>>,
}

impl View for DeviceOverview {
    type V = DeviceOverviewV;

    open spec fn view(&self) -> DeviceOverviewV {
        DeviceOverviewV {
            id: self.id,
            name: self.name@,
            model: self.model@,
            mac_address: self.mac_address@,
            ip_address: self.ip_address@,
            state: self.state,
            features: self.features.deep_view(),
            interfaces: self.interfaces.deep_view(),
        }
    }
}

/// What a device overview decodes from: `id`, `name`, `model`,
/// `macAddress`, `ipAddress` and `state` fields, and `features` and
/// `interfaces` arrays of capability and interface names.
pub open spec fn spec_decode_device_overview(j: Jv) -> Option<DeviceOverviewV> {
    match (
        spec_uuid_field(j, "id"@),
        spec_str_field(j, "name"@),
        spec_str_field(j, "model"@),
        spec_str_field(j, "macAddress"@),
    ) {
        (Some(id), Some(name), Some(model), Some(mac_address)) => match (
            spec_str_field(j, "ipAddress"@),
            spec_device_state_field(j, "state"@),
            spec_str_list_field(j, "features"@),
            spec_str_list_field(j, "interfaces"@),
        ) {
            (Some(ip_address), Some(state), Some(features), Some(interfaces)) => Some(
                DeviceOverviewV {
                    id,
                    name,
                    model,
                    mac_address,
                    ip_address,
                    state,
                    features,
                    interfaces,
                },
            ),
            _ => None,
        },
        _ => None,
    }
}

/// Decodes one device overview record.
pub fn decode_device_overview(j: &JsonValue) -> (r: Option<DeviceOverview>)
    ensures
        match r {
            Some(v) => spec_decode_device_overview(j@) == Some(v@),
            None => spec_decode_device_overview(j@) is None,
        },
{
    let id = match get_uuid_field(j, "id") {
        Some(v) => v,
        None => {
            return None;
        },
    };
    let name = match get_str_field(j, "name") {
        Some(v) => v,
        None => {
            return None;
        },
    };
    let model = match get_str_field(j, "model") {
        Some(v) => v,
        None => {
            return None;
        },
    };
    let mac_address = match get_str_field(j, "macAddress") {
        Some(v) => v,
        None => {
            return None;
        },
    };
    let ip_address = match get_str_field(j, "ipAddress") {
        Some(v) => v,
        None => {
            return None;
        },
    };
    let state = match get_device_state_field(j, "state") {
        Some(v) => v,
        None => {
            return None;
        },
    };
    let features = match get_str_list_field(j, "features") {
        Some(v) => v,
        None => {
            return None;
        },
    };
    let interfaces = match get_str_list_field(j, "interfaces") {
        Some(v) => v,
        None => {
            return None;
        },
    };
    Some(
        DeviceOverview {
            id,
            name,
            model,
            mac_address,
            ip_address,
            state,
            features,
            interfaces,
        },
    )
}

/// What a page of device overviews decodes from.
pub open spec fn spec_decode_device_page(j: Jv) -> Option<PageV<DeviceOverviewV>> {
    spec_decode_page(j, |e: Jv| spec_decode_device_overview(e))
}

/// Decodes a page of device overviews.
pub fn decode_device_page(j: &JsonValue) -> (r: Option<Page<DeviceOverview>>)
    ensures
        match r {
            Some(v) => spec_decode_device_page(j@) == Some(v@),
            None => spec_decode_device_page(j@) is None,
        },
{
    let ghost dec = |e: Jv| spec_decode_device_overview(e);
    let offset = match get_i32_field(j, "offset") {
        Some(v) => v,
        None => {
            return None;
        },
    };
    let limit = match get_i32_field(j, "limit") {
        Some(v) => v,
        None => {
            return None;
        },
    };
    let count = match get_i32_field(j, "count") {
        Some(v) => v,
        None => {
            return None;
        },
    };
    let total_count = match get_i32_field(j, "totalCount") {
        Some(v) => v,
        None => {
            return None;
        },
    };
    let items = match j.get("data") {
        Some(JsonValue::Arr(items)) => items,
        _ => {
            return None;
        },
    };
    let ghost jitems = jv_field(j@, "data"@)->0->Arr_0;
    assert(jv_field(j@, "data"@) == Some(Jv::Arr(jitems)));
    let mut out: Vec<DeviceOverview> = Vec::new();
    let ghost mut vs = Seq::<DeviceOverviewV>::empty();
    assert(spec_decode_seq(jitems.take(0), dec) == Some(vs));
    let n = items.len();
    let mut i: usize = 0;
    while i < n
        invariant
            0 <= i <= n,
            n == items.len(),
            jitems.len() == n,
            jv_field(j@, "data"@) == Some(Jv::Arr(jitems)),
            dec == (|e: Jv| spec_decode_device_overview(e)),
            forall|t: int| 0 <= t < n ==> jitems[t] == jv(items@[t]),
            out@.len() == i,
            vs == Seq::new(out@.len(), |t: int| out@[t]@),
            spec_decode_seq(jitems.take(i as int), dec) == Some(vs),
        decreases n - i,
    {
        match decode_device_overview(&items[i]) {
            Some(v) => {
                out.push(v);
                proof {
                    vs = vs.push(v@);
                    assert(vs =~= Seq::new(out@.len(), |t: int| out@[t]@));
                }
            },
            None => {
                proof {
                    lemma_decode_seq_none(jitems, dec, i as int);
                }
                return None;
            },
        }
        assert(jitems.take(i + 1).drop_last() =~= jitems.take(i as int));
        assert(jitems.take(i + 1).last() == jitems[i as int]);
        i = i + 1;
    }
    assert(jitems.take(n as int) =~= jitems);
    let page = Page { offset, limit, count, total_count, data: out };
    assert(page@.data =~= vs);
    Some(page)
}

/// One Ethernet port of a device.
#[derive(Debug, Clone, Copy, PartialEq, Eq)]
pub struct EthernetPortOverview {
    pub idx: i32,
    pub state: PortState,
    pub connector: ConnectorType,
    pub max_speed_mbps: i32,
    pub speed_mbps: i32,
}

/// What an Ethernet port decodes from: `idx`, `state`, `connector`,
/// `maxSpeedMbps` and `speedMbps` fields.
pub open spec fn spec_decode_ethernet_port(j: Jv) -> Option<EthernetPortOverview> {
    match (
        spec_i32_field(j, "idx"@),
        spec_str_field(j, "state"@),
        spec_str_field(j, "connector"@),
        spec_i32_field(j, "maxSpeedMbps"@),
        spec_i32_field(j, "speedMbps"@),
    ) {
        (Some(idx), Some(state_name), Some(connector_name), Some(max_speed_mbps), Some(
            speed_mbps,
        )) => match (spec_port_state_of(state_name), spec_connector_type_of(connector_name)) {
            (Some(state), Some(connector)) => Some(
                EthernetPortOverview { idx, state, connector, max_speed_mbps, speed_mbps },
            ),
            _ => None,
        },
        _ => None,
    }
}

/// Decodes one Ethernet port record.
pub fn decode_ethernet_port(j: &JsonValue) -> (r: Option<EthernetPortOverview>)
    ensures
        r == spec_decode_ethernet_port(j@),
{
    let idx = match get_i32_field(j, "idx") {
        Some(v) => v,
        None => {
            return None;
        },
    };
    let state_name = match get_str_field(j, "state") {
        Some(v) => v,
        None => {
            return None;
        },
    };
    let connector_name = match get_str_field(j, "connector") {
        Some(v) => v,
        None => {
            return None;
        },
    };
    let max_speed_mbps = match get_i32_field(j, "maxSpeedMbps") {
        Some(v) => v,
        None => {
            return None;
        },
    };
    let speed_mbps = match get_i32_field(j, "speedMbps") {
        Some(v) => v,
        None => {
            return None;
        },
    };
    let state = match port_state_of(state_name.as_str()) {
        Some(v) => v,
        None => {
            return None;
        },
    };
    let connector = match connector_type_of(connector_name.as_str()) {
        Some(v) => v,
        None => {
            return None;
        },
    };
    Some(EthernetPortOverview { idx, state, connector, max_speed_mbps, speed_mbps })
}

/// An optional string field holding a WLAN standard name.
pub open spec fn spec_opt_wlan_standard_field(j: Jv, key: Seq<char>) -> Option<
    Option<WlanStandard>,
> {
    match jv_field(j, key) {
        None => Some(None),
        Some(Jv::Null) => Some(None),
        Some(Jv::Str(s)) => match spec_wlan_standard_of(s) {
            Some(w) => Some(Some(w)),
            None => None,
        },
        Some(_) => None,
    }
}

pub fn get_opt_wlan_standard_field(j: &JsonValue, key: &str) -> (r: Option<Option<WlanStandard>>)
    ensures
        r == spec_opt_wlan_standard_field(j@, key@),
{
    match j.get(key) {
        None => Some(None),
        Some(JsonValue::Null) => Some(None),
        Some(JsonValue::Str(s)) => match wlan_standard_of(s.as_str()) {
            Some(w) => Some(Some(w)),
            None => None,
        },
        Some(_) => None,
    }
}

/// An optional field holding a frequency band in either wire form.
pub open spec fn spec_opt_band_field(j: Jv, key: Seq<char>) -> Option<Option<FrequencyBand>> {
    match jv_field(j, key) {
        None => Some(None),
        Some(Jv::Null) => Some(None),
        Some(v) => match spec_decode_frequency_band(v) {
            Some(b) => Some(Some(b)),
            None => None,
        },
    }
}

pub fn get_opt_band_field(j: &JsonValue, key: &str) -> (r: Option<Option<FrequencyBand>>)
    ensures
        r == spec_opt_band_field(j@, key@),
{
    match j.get(key) {
        None => Some(None),
        Some(JsonValue::Null) => Some(None),
        Some(v) => match decode_frequency_band(v) {
            Some(b) => Some(Some(b)),
            None => None,
        },
    }
}

/// One wireless radio of a device.
#[derive(Debug, Clone, Copy, PartialEq, Eq)]
pub struct WirelessRadioOverview {
    pub wlan_standard: Option<WlanStandard>,
    pub frequency_ghz: Option<FrequencyBand>,
    pub channel_width_mhz: Option<i32>,
    pub channel: Option<i32>,
}

/// What a wireless radio decodes from: optional `wlanStandard`,
/// `frequencyGHz`, `channelWidthMHz` and `channel` fields.
pub open spec fn spec_decode_wireless_radio(j: Jv) -> Option<WirelessRadioOverview> {
    match (
        spec_opt_wlan_standard_field(j, "wlanStandard"@),
        spec_opt_band_field(j, "frequencyGHz"@),
        spec_opt_i32_field(j, "channelWidthMHz"@),
        spec_opt_i32_field(j, "channel"@),
    ) {
        (Some(wlan_standard), Some(frequency_ghz), Some(channel_width_mhz), Some(channel)) => Some(
            WirelessRadioOverview { wlan_standard, frequency_ghz, channel_width_mhz, channel },
        ),
        _ => None,
    }
}

/// Decodes one wireless radio record.
pub fn decode_wireless_radio(j: &JsonValue) -> (r: Option<WirelessRadioOverview>)
    ensures
        r == spec_decode_wireless_radio(j@),
{
    let wlan_standard = match get_opt_wlan_standard_field(j, "wlanStandard") {
        Some(v) => v,
        None => {
            return None;
        },
    };
    let frequency_ghz = match get_opt_band_field(j, "frequencyGHz") {
        Some(v) => v,
        None => {
            return None;
        },
    };
    let channel_width_mhz = match get_opt_i32_field(j, "channelWidthMHz") {
        Some(v) => v,
        None => {
            return None;
        },
    };
    let channel = match get_opt_i32_field(j, "channel") {
        Some(v) => v,
        None => {
            return None;
        },
    };
    Some(WirelessRadioOverview { wlan_standard, frequency_ghz, channel_width_mhz, channel })
}

/// The physical interfaces of a device; each list is empty where the
/// server omits it.
#[derive(Debug, Clone, PartialEq, Eq)]
pub struct DevicePhysicalInterfaces {
    pub ports: Vec<EthernetPortOverview>,
    pub radios: Vec<WirelessRadioOverview>,
}

/// The shape of a [`DevicePhysicalInterfaces`] in specifications.
pub struct DevicePhysicalInterfacesV {
    pub ports: Seq<EthernetPortOverview>,
    pub radios: Seq<WirelessRadioOverview>,
}

impl View for DevicePhysicalInterfaces {
    type V = DevicePhysicalInterfacesV;

    open spec fn view(&self) -> DevicePhysicalInterfacesV {
        DevicePhysicalInterfacesV { ports: self.ports@, radios: self.radios@ }
    }
}

/// What the physical interfaces record decodes from: an object whose
/// `ports` and `radios` arrays each default to empty when missing.
pub open spec fn spec_decode_physical_interfaces(j: Jv) -> Option<DevicePhysicalInterfacesV> {
    if !(j is Obj) {
        None
    } else {
        let ports = match jv_field(j, "ports"@) {
            None => Some(Seq::<EthernetPortOverview>::empty()),
            Some(Jv::Arr(items)) => spec_decode_seq(items, |e: Jv| spec_decode_ethernet_port(e)),
            Some(_) => None,
        };
        let radios = match jv_field(j, "radios"@) {
            None => Some(Seq::<WirelessRadioOverview>::empty()),
            Some(Jv::Arr(items)) => spec_decode_seq(items, |e: Jv| spec_decode_wireless_radio(e)),
            Some(_) => None,
        };
        match (ports, radios) {
            (Some(ports), Some(radios)) => Some(DevicePhysicalInterfacesV { ports, radios }),
            _ => None,
        }
    }
}

/// Decodes the physical interfaces record.
pub fn decode_physical_interfaces(j: &JsonValue) -> (r: Option<DevicePhysicalInterfaces>)
    ensures
        match r {
            Some(v) => spec_decode_physical_interfaces(j@) == Some(v@),
            None => spec_decode_physical_interfaces(j@) is None,
        },
{
    match j {
        JsonValue::Obj(_) => {
        },
        _ => {
            return None;
        },
    }
    let ghost pdec = |e: Jv| spec_decode_ethernet_port(e);
    let ghost rdec = |e: Jv| spec_decode_wireless_radio(e);
    let mut ports: Vec<EthernetPortOverview> = Vec::new();
    match j.get("ports") {
        None => {
            assert(ports@ =~= Seq::<EthernetPortOverview>::empty());
        },
        Some(JsonValue::Arr(items)) => {
            let ghost jitems = jv_field(j@, "ports"@)->0->Arr_0;
            assert(jv_field(j@, "ports"@) == Some(Jv::Arr(jitems)));
            assert(spec_decode_seq(jitems.take(0), pdec) == Some(ports@));
            let n = items.len();
            let mut i: usize = 0;
            while i < n
                invariant
                    0 <= i <= n,
                    n == items.len(),
                    jitems.len() == n,
                    jv_field(j@, "ports"@) == Some(Jv::Arr(jitems)),
                    pdec == (|e: Jv| spec_decode_ethernet_port(e)),
                    j@ is Obj,
                    forall|t: int| 0 <= t < n ==> jitems[t] == jv(items@[t]),
                    spec_decode_seq(jitems.take(i as int), pdec) == Some(ports@),
                decreases n - i,
            {
                match decode_ethernet_port(&items[i]) {
                    Some(v) => {
                        let ghost pre = ports@;
                        ports.push(v);
                        assert(ports@ =~= pre.push(v));
                    },
                    None => {
                        proof {
                            lemma_decode_seq_none(jitems, pdec, i as int);
                        }
                        return None;
                    },
                }
                assert(jitems.take(i + 1).drop_last() =~= jitems.take(i as int));
                assert(jitems.take(i + 1).last() == jitems[i as int]);
                i = i + 1;
            }
            assert(jitems.take(n as int) =~= jitems);
        },
        Some(_) => {
            return None;
        },
    }
    let mut radios: Vec<WirelessRadioOverview> = Vec::new();
    match j.get("radios") {
        None => {
            assert(radios@ =~= Seq::<WirelessRadioOverview>::empty());
        },
        Some(JsonValue::Arr(items)) => {
            let ghost jitems = jv_field(j@, "radios"@)->0->Arr_0;
            assert(jv_field(j@, "radios"@) == Some(Jv::Arr(jitems)));
            assert(spec_decode_seq(jitems.take(0), rdec) == Some(radios@));
            let n = items.len();
            let mut i: usize = 0;
            while i < n
                invariant
                    0 <= i <= n,
                    n == items.len(),
                    jitems.len() == n,
                    jv_field(j@, "radios"@) == Some(Jv::Arr(jitems)),
                    rdec == (|e: Jv| spec_decode_wireless_radio(e)),
                    j@ is Obj,
                    forall|t: int| 0 <= t < n ==> jitems[t] == jv(items@[t]),
                    spec_decode_seq(jitems.take(i as int), rdec) == Some(radios@),
                decreases n - i,
            {
                match decode_wireless_radio(&items[i]) {
                    Some(v) => {
                        let ghost pre = radios@;
                        radios.push(v);
                        assert(radios@ =~= pre.push(v));
                    },
                    None => {
                        proof {
                            lemma_decode_seq_none(jitems, rdec, i as int);
                        }
                        return None;
                    },
                }
                assert(jitems.take(i + 1).drop_last() =~= jitems.take(i as int));
                assert(jitems.take(i + 1).last() == jitems[i as int]);
                i = i + 1;
            }
            assert(jitems.take(n as int) =~= jitems);
        },
        Some(_) => {
            return None;
        },
    }
    Some(DevicePhysicalInterfaces { ports, radios })
}

/// The uplink a device connects through.
#[derive(Debug, Clone, Copy, PartialEq, Eq)]
pub struct DeviceUplinkInterface {
    pub device_id: Uuid,
}

/// What an uplink reference decodes from: an object with a `deviceId`
/// identifier string.
pub open spec fn spec_decode_uplink(j: Jv) -> Option<DeviceUplinkInterface> {
    match spec_uuid_field(j, "deviceId"@) {
        Some(device_id) => Some(DeviceUplinkInterface { device_id }),
        None => None,
    }
}

/// Decodes an uplink reference.
pub fn decode_uplink(j: &JsonValue) -> (r: Option<DeviceUplinkInterface>)
    ensures
        r == spec_decode_uplink(j@),
{
    match get_uuid_field(j, "deviceId") {
        Some(device_id) => Some(DeviceUplinkInterface { device_id }),
        None => None,
    }
}

/// The switching capability marker; the server sends it as an object with
/// no fields the client reads.
#[derive(Debug, Clone, Copy, PartialEq, Eq)]
pub struct SwitchFeatureOverview {}

/// The access point capability marker.
#[derive(Debug, Clone, Copy, PartialEq, Eq)]
pub struct AccessPointFeatureOverview {}

/// The capabilities of a device: each marker is present exactly where the
/// server sends an object for it.
#[derive(Debug, Clone, Copy, PartialEq, Eq)]
pub struct DeviceFeatures {
    pub switching: Option<SwitchFeatureOverview>,
    pub access_point: Option<AccessPointFeatureOverview>,
}

/// What the capabilities record decodes from: an object whose `switching`
/// and `accessPoint` fields are each absent, null, or an object.
pub open spec fn spec_decode_device_features(j: Jv) -> Option<DeviceFeatures> {
    if !(j is Obj) {
        None
    } else {
        let switching = match jv_field(j, "switching"@) {
            None => Some(None),
            Some(Jv::Null) => Some(None),
            Some(Jv::Obj(_)) => Some(Some(SwitchFeatureOverview {  })),
            Some(_) => None,
        };
        let access_point = match jv_field(j, "accessPoint"@) {
            None => Some(None),
            Some(Jv::Null) => Some(None),
            Some(Jv::Obj(_)) => Some(Some(AccessPointFeatureOverview {  })),
            Some(_) => None,
        };
        match (switching, access_point) {
            (Some(switching), Some(access_point)) => Some(
                DeviceFeatures { switching, access_point },
            ),
            _ => None,
        }
    }
}

/// Decodes the capabilities record.
pub fn decode_device_features(j: &JsonValue) -> (r: Option<DeviceFeatures>)
    ensures
        r == spec_decode_device_features(j@),
{
    match j {
        JsonValue::Obj(_) => {
        },
        _ => {
            return None;
        },
    }
    let switching = match j.get("switching") {
        None => None,
        Some(JsonValue::Null) => None,
        Some(JsonValue::Obj(_)) => Some(SwitchFeatureOverview {  }),
        Some(_) => {
            return None;
        },
    };
    let access_point = match j.get("accessPoint") {
        None => None,
        Some(JsonValue::Null) => None,
        Some(JsonValue::Obj(_)) => Some(AccessPointFeatureOverview {  }),
        Some(_) => {
            return None;
        },
    };
    Some(DeviceFeatures { switching, access_point })
}

/// Everything the device details endpoint reports. Optional sections
/// reflect hardware and adoption state the server may omit.
#[derive(Debug, Clone, PartialEq, Eq)]
pub struct DeviceDetails {
    pub id: Uuid,
    pub name: String,
    pub model: String,
    pub supported: bool,
    pub mac_address: String,
    pub ip_address: String,
    pub state: DeviceState,
    pub firmware_version: String,
    pub firmware_updatable: bool,
    pub adopted_at: Option<Timestamp>,
    pub provisioned_at: Option<Timestamp>,
    pub configuration_id: String,
    pub uplink: Option<DeviceUplinkInterface>,
    pub features: Option<DeviceFeatures>,
    pub interfaces: Option<DevicePhysicalInterfaces>,
}

/// The shape of a [`DeviceDetails`] in specifications.
pub struct DeviceDetailsV {
    pub id: Uuid,
    pub name: Seq<char>,
    pub model: Seq<char>,
    pub supported: bool,
    pub mac_address: Seq<char>,
    pub ip_address: Seq<char>,
    pub state: DeviceState,
    pub firmware_version: Seq<char>,
    pub firmware_updatable: bool,
    pub adopted_at: Option<Timestamp>,
    pub provisioned_at: Option<Timestamp>,
    pub configuration_id: Seq<char>,
    pub uplink: Option<DeviceUplinkInterface>,
    pub features: Option<DeviceFeatures>,
    pub interfaces: Option<DevicePhysicalInterfacesV>,
}

impl View for DeviceDetails {
    type V = DeviceDetailsV;

    open spec fn view(&self) -> DeviceDetailsV {
        DeviceDetailsV {
            id: self.id,
            name: self.name@,
            model: self.model@,
            supported: self.supported,
            mac_address: self.mac_address@,
            ip_address: self.ip_address@,
            state: self.state,
            firmware_version: self.firmware_version@,
            firmware_updatable: self.firmware_updatable,
            adopted_at: self.adopted_at,
            provisioned_at: self.provisioned_at,
            configuration_id: self.configuration_id@,
            uplink: self.uplink,
            features: self.features,
            interfaces: match self.interfaces {
                Some(x) => Some(x@),
                None => None,
            },
        }
    }
}

/// An optional field holding an uplink reference.
pub open spec fn spec_opt_uplink_field(j: Jv, key: Seq<char>) -> Option<
    Option<DeviceUplinkInterface>,
> {
    match jv_field(j, key) {
        None => Some(None),
        Some(Jv::Null) => Some(None),
        Some(v) => match spec_decode_uplink(v) {
            Some(u) => Some(Some(u)),
            None => None,
        },
    }
}

pub fn get_opt_uplink_field(j: &JsonValue, key: &str) -> (r: Option<Option<DeviceUplinkInterface>>)
    ensures
        r == spec_opt_uplink_field(j@, key@),
{
    match j.get(key) {
        None => Some(None),
        Some(JsonValue::Null) => Some(None),
        Some(v) => match decode_uplink(v) {
            Some(u) => Some(Some(u)),
            None => None,
        },
    }
}

/// An optional field holding a capabilities record.
pub open spec fn spec_opt_features_field(j: Jv, key: Seq<char>) -> Option<Option<DeviceFeatures>> {
    match jv_field(j, key) {
        None => Some(None),
        Some(Jv::Null) => Some(None),
        Some(v) => match spec_decode_device_features(v) {
            Some(f) => Some(Some(f)),
            None => None,
        },
    }
}

pub fn get_opt_features_field(j: &JsonValue, key: &str) -> (r: Option<Option<DeviceFeatures>>)
    ensures
        r == spec_opt_features_field(j@, key@),
{
    match j.get(key) {
        None => Some(None),
        Some(JsonValue::Null) => Some(None),
        Some(v) => match decode_device_features(v) {
            Some(f) => Some(Some(f)),
            None => None,
        },
    }
}

/// An optional field holding a physical interfaces record.
pub open spec fn spec_opt_interfaces_field(j: Jv, key: Seq<char>) -> Option<
    Option<DevicePhysicalInterfacesV>,
> {
    match jv_field(j, key) {
        None => Some(None),
        Some(Jv::Null) => Some(None),
        Some(v) => match spec_decode_physical_interfaces(v) {
            Some(x) => Some(Some(x)),
            None => None,
        },
    }
}

pub fn get_opt_interfaces_field(j: &JsonValue, key: &str) -> (r: Option<
    Option<DevicePhysicalInterfaces>,
>)
    ensures
        ({
            let m = spec_opt_interfaces_field(j@, key@);
            match r {
                Some(Some(v)) => m == Some(Some(v@)),
                Some(None) => m == Some(None::<DevicePhysicalInterfacesV>),
                None => m is None,
            }
        }),
{
    match j.get(key) {
        None => Some(None),
        Some(JsonValue::Null) => Some(None),
        Some(v) => match decode_physical_interfaces(v) {
            Some(x) => Some(Some(x)),
            None => None,
        },
    }
}

/// What the device details record decodes from: the overview identity
/// fields, the firmware fields, and the optional adoption timestamps,
/// uplink, capabilities and physical interfaces.
pub open spec fn spec_decode_device_details(j: Jv) -> Option<DeviceDetailsV> {
    match (
        spec_uuid_field(j, "id"@),
        spec_str_field(j, "name"@),
        spec_str_field(j, "model"@),
        spec_bool_field(j, "supported"@),
        spec_str_field(j, "macAddress"@),
    ) {
        (Some(id), Some(name), Some(model), Some(supported), Some(mac_address)) => match (
            spec_str_field(j, "ipAddress"@),
            spec_device_state_field(j, "state"@),
            spec_str_field(j, "firmwareVersion"@),
            spec_bool_field(j, "firmwareUpdatable"@),
            spec_str_field(j, "configurationId"@),
        ) {
            (Some(ip_address), Some(state), Some(firmware_version), Some(firmware_updatable), Some(
                configuration_id,
            )) => match (
                spec_opt_timestamp_field(j, "adoptedAt"@),
                spec_opt_timestamp_field(j, "provisionedAt"@),
                spec_opt_uplink_field(j, "uplink"@),
                spec_opt_features_field(j, "features"@),
                spec_opt_interfaces_field(j, "interfaces"@),
            ) {
                (Some(adopted_at), Some(provisioned_at), Some(uplink), Some(features), Some(
                    interfaces,
                )) => Some(
                    DeviceDetailsV {
                        id,
                        name,
                        model,
                        supported,
                        mac_address,
                        ip_address,
                        state,
                        firmware_version,
                        firmware_updatable,
                        adopted_at,
                        provisioned_at,
                        configuration_id,
                        uplink,
                        features,
                        interfaces,
                    },
                ),
                _ => None,
            },
            _ => None,
        },
        _ => None,
    }
}

/// Decodes the device details record.
pub fn decode_device_details(j: &JsonValue) -> (r: Option<DeviceDetails>)
    ensures
        match r {
            Some(v) => spec_decode_device_details(j@) == Some(v@),
            None => spec_decode_device_details(j@) is None,
        },
{
    let id = match get_uuid_field(j, "id") {
        Some(v) => v,
        None => {
            return None;
        },
    };
    let name = match get_str_field(j, "name") {
        Some(v) => v,
        None => {
            return None;
        },
    };
    let model = match get_str_field(j, "model") {
        Some(v) => v,
        None => {
            return None;
        },
    };
    let supported = match get_bool_field(j, "supported") {
        Some(v) => v,
        None => {
            return None;
        },
    };
    let mac_address = match get_str_field(j, "macAddress") {
        Some(v) => v,
        None => {
            return None;
        },
    };
    let ip_address = match get_str_field(j, "ipAddress") {
        Some(v) => v,
        None => {
            return None;
        },
    };
    let state = match get_device_state_field(j, "state") {
        Some(v) => v,
        None => {
            return None;
        },
    };
    let firmware_version = match get_str_field(j, "firmwareVersion") {
        Some(v) => v,
        None => {
            return None;
        },
    };
    let firmware_updatable = match get_bool_field(j, "firmwareUpdatable") {
        Some(v) => v,
        None => {
            return None;
        },
    };
    let configuration_id = match get_str_field(j, "configurationId") {
        Some(v) => v,
        None => {
            return None;
        },
    };
    let adopted_at = match get_opt_timestamp_field(j, "adoptedAt") {
        Some(v) => v,
        None => {
            return None;
        },
    };
    let provisioned_at = match get_opt_timestamp_field(j, "provisionedAt") {
        Some(v) => v,
        None => {
            return None;
        },
    };
    let uplink = match get_opt_uplink_field(j, "uplink") {
        Some(v) => v,
        None => {
            return None;
        },
    };
    let features = match get_opt_features_field(j, "features") {
        Some(v) => v,
        None => {
            return None;
        },
    };
    let interfaces = match get_opt_interfaces_field(j, "interfaces") {
        Some(v) => v,
        None => {
            return None;
        },
    };
    Some(
        DeviceDetails {
            id,
            name,
            model,
            supported,
            mac_address,
            ip_address,
            state,
            firmware_version,
            firmware_updatable,
            adopted_at,
            provisioned_at,
            configuration_id,
            uplink,
            features,
            interfaces,
        },
    )
}

} // verus!
