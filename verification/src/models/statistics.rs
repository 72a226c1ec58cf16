//! The latest statistics of a device.
//!
//! Fractional readings (load averages, utilization and retry percentages)
//! are kept as their decimal wire literals, so the verified code never
//! holds a floating-point value.

use vstd::prelude::*;
use crate::fields::{
    get_i64_field, get_opt_num_lit_field, get_timestamp_field, spec_i64_field,
    spec_opt_num_lit_field, spec_timestamp_field,
};
use crate::json::{jv, jv_field, Jv, JsonValue};
use crate::models::common::{lemma_decode_seq_none, spec_decode_seq, FrequencyBand};
use crate::models::device::{get_opt_band_field, spec_opt_band_field};
use crate::text::opt_text;
use crate::time::Timestamp;

verus! {

/// Uplink throughput in bits per second.
#[derive(Debug, Clone, Copy, PartialEq, Eq)]
pub struct DeviceUplinkStatistics {
    pub tx_rate_bps: i64,
    pub rx_rate_bps: i64,
}

/// What an uplink statistics record decodes from: `txRateBps` and
/// `rxRateBps` integer fields.
pub open spec fn spec_decode_uplink_statistics(j: Jv) -> Option<DeviceUplinkStatistics> {
    match (spec_i64_field(j, "txRateBps"@), spec_i64_field(j, "rxRateBps"@)) {
        (Some(tx_rate_bps), Some(rx_rate_bps)) => Some(
            DeviceUplinkStatistics { tx_rate_bps, rx_rate_bps },
        ),
        _ => None,
    }
}

/// Decodes an uplink statistics record.
pub fn decode_uplink_statistics(j: &JsonValue) -> (r: Option<DeviceUplinkStatistics>)
    ensures
        r == spec_decode_uplink_statistics(j@),
{
    match (get_i64_field(j, "txRateBps"), get_i64_field(j, "rxRateBps")) {
        (Some(tx_rate_bps), Some(rx_rate_bps)) => Some(
            DeviceUplinkStatistics { tx_rate_bps, rx_rate_bps },
        ),
        _ => None,
    }
}

/// Statistics of one radio: its band and its transmit retry percentage,
/// the latter kept as its decimal wire literal.
#[derive(Debug, Clone, PartialEq, Eq)]
pub struct WirelessRadioStatistics {
    pub frequency_ghz: Option<FrequencyBand>,
    pub tx_retries_pct: Option<String>,
}

/// The shape of a [`WirelessRadioStatistics`] in specifications.
pub struct WirelessRadioStatisticsV {
    pub frequency_ghz: Option<FrequencyBand>,
    pub tx_retries_pct: Option<Seq<char>>,
}

impl View for WirelessRadioStatistics {
    type V = WirelessRadioStatisticsV;

    open spec fn view(&self) -> WirelessRadioStatisticsV {
        WirelessRadioStatisticsV {
            frequency_ghz: self.frequency_ghz,
            tx_retries_pct: opt_text(self.tx_retries_pct),
        }
    }
}

/// What one radio's statistics decode from: optional `frequencyGHz` and
/// `txRetriesPct` fields.
pub open spec fn spec_decode_radio_statistics(j: Jv) -> Option<WirelessRadioStatisticsV> {
    match (spec_opt_band_field(j, "frequencyGHz"@), spec_opt_num_lit_field(j, "txRetriesPct"@)) {
        (Some(frequency_ghz), Some(tx_retries_pct)) => Some(
            WirelessRadioStatisticsV { frequency_ghz, tx_retries_pct },
        ),
        _ => None,
    }
}

/// Decodes one radio's statistics.
pub fn decode_radio_statistics(j: &JsonValue) -> (r: Option<WirelessRadioStatistics>)
    ensures
        match r {
            Some(v) => spec_decode_radio_statistics(j@) == Some(v@),
            None => spec_decode_radio_statistics(j@) is None,
        },
{
    let frequency_ghz = match get_opt_band_field(j, "frequencyGHz") {
        Some(v) => v,
        None => {
            return None;
        },
    };
    let tx_retries_pct = match get_opt_num_lit_field(j, "txRetriesPct") {
        Some(v) => v,
        None => {
            return None;
        },
    };
    Some(WirelessRadioStatistics { frequency_ghz, tx_retries_pct })
}

/// Per-interface statistics: one record per radio.
#[derive(Debug, Clone, PartialEq, Eq)]
pub struct DeviceInterfaceStatistics {
    pub radios: Vec<WirelessRadioStatistics>,
}

/// The shape of a [`DeviceInterfaceStatistics`] in specifications.
pub struct DeviceInterfaceStatisticsV {
    pub radios: Seq<WirelessRadioStatisticsV>,
}

impl View for DeviceInterfaceStatistics {
    type V = DeviceInterfaceStatisticsV;

    open spec fn view(&self) -> DeviceInterfaceStatisticsV {
        DeviceInterfaceStatisticsV {
            radios: Seq::new(self.radios@.len(), |i: int| self.radios@[i]@),
        }
    }
}

/// What the per-interface statistics record decodes from: an object whose
/// `radios` array defaults to empty when missing.
pub open spec fn spec_decode_interface_statistics(j: Jv) -> Option<DeviceInterfaceStatisticsV> {
    if !(j is Obj) {
        None
    } else {
        match jv_field(j, "radios"@) {
            None => Some(DeviceInterfaceStatisticsV { radios: Seq::empty() }),
            Some(Jv::Arr(items)) => match spec_decode_seq(
                items,
                |e: Jv| spec_decode_radio_statistics(e),
            ) {
                Some(radios) => Some(DeviceInterfaceStatisticsV { radios }),
                None => None,
            },
            Some(_) => None,
        }
    }
}

/// Decodes the per-interface statistics record.
pub fn decode_interface_statistics(j: &JsonValue) -> (r: Option<DeviceInterfaceStatistics>)
    ensures
        match r {
            Some(v) => spec_decode_interface_statistics(j@) == Some(v@),
            None => spec_decode_interface_statistics(j@) is None,
        },
{
    match j {
        JsonValue::Obj(_) => {
        },
        _ => {
            return None;
        },
    }
    let ghost dec = |e: Jv| spec_decode_radio_statistics(e);
    let mut radios: Vec<WirelessRadioStatistics> = Vec::new();
    let ghost mut vs = Seq::<WirelessRadioStatisticsV>::empty();
    match j.get("radios") {
        None => {
            let out = DeviceInterfaceStatistics { radios };
            assert(out@.radios =~= Seq::<WirelessRadioStatisticsV>::empty());
            Some(out)
        },
        Some(JsonValue::Arr(items)) => {
            let ghost jitems = jv_field(j@, "radios"@)->0->Arr_0;
            assert(jv_field(j@, "radios"@) == Some(Jv::Arr(jitems)));
            assert(spec_decode_seq(jitems.take(0), dec) == Some(vs));
            let n = items.len();
            let mut i: usize = 0;
            while i < n
                invariant
                    0 <= i <= n,
                    n == items.len(),
                    jitems.len() == n,
                    jv_field(j@, "radios"@) == Some(Jv::Arr(jitems)),
                    dec == (|e: Jv| spec_decode_radio_statistics(e)),
                    j@ is Obj,
                    forall|t: int| 0 <= t < n ==> jitems[t] == jv(items@[t]),
                    radios@.len() == i,
                    vs == Seq::new(radios@.len(), |t: int| radios@[t]@),
                    spec_decode_seq(jitems.take(i as int), dec) == Some(vs),
                decreases n - i,
            {
                match decode_radio_statistics(&items[i]) {
                    Some(v) => {
                        radios.push(v);
                        proof {
                            vs = vs.push(v@);
                            assert(vs =~= Seq::new(radios@.len(), |t: int| radios@[t]@));
                        }
                    },
                    None => {
                        proof {
                            lemma_decode_seq_none(jitems, dec, i as int);
                        }
                        return None;
                    },
                }
                assert(jitems.take(i + 1).drop_last() =~= jitems.take(i as int));
                assert(jitems.take(i + 1).last() == jitems[i as int]);
                i = i + 1;
            }
            assert(jitems.take(n as int) =~= jitems);
            let out = DeviceInterfaceStatistics { radios };
            assert(out@.radios =~= vs);
            Some(out)
        },
        Some(_) => None,
    }
}

/// The latest statistics of a device.
#[derive(Debug, Clone, PartialEq, Eq)]
pub struct DeviceStatistics {
    pub uptime_sec: i64,
    pub last_heartbeat_at: Timestamp,
    pub next_heartbeat_at: Timestamp,
    pub load_average_1min: Option<String>,
    pub load_average_5min: Option<String>,
    pub load_average_15min: Option<String>,
    pub cpu_utilization_pct: Option<String>,
    pub memory_utilization_pct: Option<String>,
    pub uplink: Option<DeviceUplinkStatistics>,
    pub interfaces: Option<DeviceInterfaceStatistics>,
}

/// The shape of a [`DeviceStatistics`] in specifications.
pub struct DeviceStatisticsV {
    pub uptime_sec: i64,
    pub last_heartbeat_at: Timestamp,
    pub next_heartbeat_at: Timestamp,
    pub load_average_1min: Option<Seq<char>>,
    pub load_average_5min: Option<Seq<char>>,
    pub load_average_15min: Option<Seq<char>>,
    pub cpu_utilization_pct: Option<Seq<char>>,
    pub memory_utilization_pct: Option<Seq<char>>,
    pub uplink: Option<DeviceUplinkStatistics>,
    pub interfaces: Option<DeviceInterfaceStatisticsV>,
}

impl View for DeviceStatistics {
    type V = DeviceStatisticsV;

    open spec fn view(&self) -> DeviceStatisticsV {
        DeviceStatisticsV {
            uptime_sec: self.uptime_sec,
            last_heartbeat_at: self.last_heartbeat_at,
            next_heartbeat_at: self.next_heartbeat_at,
            load_average_1min: opt_text(self.load_average_1min),
            load_average_5min: opt_text(self.load_average_5min),
            load_average_15min: opt_text(self.load_average_15min),
            cpu_utilization_pct: opt_text(self.cpu_utilization_pct),
            memory_utilization_pct: opt_text(self.memory_utilization_pct),
            uplink: self.uplink,
            interfaces: match self.interfaces {
                Some(x) => Some(x@),
                None => None,
            },
        }
    }
}

/// An optional field holding an uplink statistics record.
pub open spec fn spec_opt_uplink_stats_field(j: Jv, key: Seq<char>) -> Option<
    Option<DeviceUplinkStatistics>,
> {
    match jv_field(j, key) {
        None => Some(None),
        Some(Jv::Null) => Some(None),
        Some(v) => match spec_decode_uplink_statistics(v) {
            Some(u) => Some(Some(u)),
            None => None,
        },
    }
}

pub fn get_opt_uplink_stats_field(j: &JsonValue, key: &str) -> (r: Option<
    Option<DeviceUplinkStatistics>,
>)
    ensures
        r == spec_opt_uplink_stats_field(j@, key@),
{
    match j.get(key) {
        None => Some(None),
        Some(JsonValue::Null) => Some(None),
        Some(v) => match decode_uplink_statistics(v) {
            Some(u) => Some(Some(u)),
            None => None,
        },
    }
}

/// An optional field holding a per-interface statistics record.
pub open spec fn spec_opt_interface_stats_field(j: Jv, key: Seq<char>) -> Option<
    Option<DeviceInterfaceStatisticsV>,
> {
    match jv_field(j, key) {
        None => Some(None),
        Some(Jv::Null) => Some(None),
        Some(v) => match spec_decode_interface_statistics(v) {
            Some(x) => Some(Some(x)),
            None => None,
        },
    }
}

pub fn get_opt_interface_stats_field(j: &JsonValue, key: &str) -> (r: Option<
    Option<DeviceInterfaceStatistics>,
>)
    ensures
        ({
            let m = spec_opt_interface_stats_field(j@, key@);
            match r {
                Some(Some(v)) => m == Some(Some(v@)),
                Some(None) => m == Some(None::<DeviceInterfaceStatisticsV>),
                None => m is None,
            }
        }),
{
    match j.get(key) {
        None => Some(None),
        Some(JsonValue::Null) => Some(None),
        Some(v) => match decode_interface_statistics(v) {
            Some(x) => Some(Some(x)),
            None => None,
        },
    }
}

/// What the statistics record decodes from: `uptimeSec` and the two
/// heartbeat timestamps, the optional fractional readings, and the
/// optional uplink and per-interface sections.
pub open spec fn spec_decode_device_statistics(j: Jv) -> Option<DeviceStatisticsV> {
    match (
        spec_i64_field(j, "uptimeSec"@),
        spec_timestamp_field(j, "lastHeartbeatAt"@),
        spec_timestamp_field(j, "nextHeartbeatAt"@),
    ) {
        (Some(uptime_sec), Some(last_heartbeat_at), Some(next_heartbeat_at)) => match (
            spec_opt_num_lit_field(j, "loadAverage1Min"@),
            spec_opt_num_lit_field(j, "loadAverage5Min"@),
            spec_opt_num_lit_field(j, "loadAverage15Min"@),
            spec_opt_num_lit_field(j, "cpuUtilizationPct"@),
            spec_opt_num_lit_field(j, "memoryUtilizationPct"@),
        ) {
            (Some(load_average_1min), Some(load_average_5min), Some(load_average_15min), Some(
                cpu_utilization_pct,
            ), Some(memory_utilization_pct)) => match (
                spec_opt_uplink_stats_field(j, "uplink"@),
                spec_opt_interface_stats_field(j, "interfaces"@),
            ) {
                (Some(uplink), Some(interfaces)) => Some(
                    DeviceStatisticsV {
                        uptime_sec,
                        last_heartbeat_at,
                        next_heartbeat_at,
                        load_average_1min,
                        load_average_5min,
                        load_average_15min,
                        cpu_utilization_pct,
                        memory_utilization_pct,
                        uplink,
                        interfaces,
                    },
                ),
                _ => None,
            },
            _ => None,
        },
        _ => None,
    }
}

/// Decodes the statistics record.
pub fn decode_device_statistics(j: &JsonValue) -> (r: Option<DeviceStatistics>)
    ensures
        match r {
            Some(v) => spec_decode_device_statistics(j@) == Some(v@),
            None => spec_decode_device_statistics(j@) is None,
        },
{
    let uptime_sec = match get_i64_field(j, "uptimeSec") {
        Some(v) => v,
        None => {
            return None;
        },
    };
    let last_heartbeat_at = match get_timestamp_field(j, "lastHeartbeatAt") {
        Some(v) => v,
        None => {
            return None;
        },
    };
    let next_heartbeat_at = match get_timestamp_field(j, "nextHeartbeatAt") {
        Some(v) => v,
        None => {
            return None;
        },
    };
    let load_average_1min = match get_opt_num_lit_field(j, "loadAverage1Min") {
        Some(v) => v,
        None => {
            return None;
        },
    };
    let load_average_5min = match get_opt_num_lit_field(j, "loadAverage5Min") {
        Some(v) => v,
        None => {
            return None;
        },
    };
    let load_average_15min = match get_opt_num_lit_field(j, "loadAverage15Min") {
        Some(v) => v,
        None => {
            return None;
        },
    };
    let cpu_utilization_pct = match get_opt_num_lit_field(j, "cpuUtilizationPct") {
        Some(v) => v,
        None => {
            return None;
        },
    };
    let memory_utilization_pct = match get_opt_num_lit_field(j, "memoryUtilizationPct") {
        Some(v) => v,
        None => {
            return None;
        },
    };
    let uplink = match get_opt_uplink_stats_field(j, "uplink") {
        Some(v) => v,
        None => {
            return None;
        },
    };
    let interfaces = match get_opt_interface_stats_field(j, "interfaces") {
        Some(v) => v,
        None => {
            return None;
        },
    };
    Some(
        DeviceStatistics {
            uptime_sec,
            last_heartbeat_at,
            next_heartbeat_at,
            load_average_1min,
            load_average_5min,
            load_average_15min,
            cpu_utilization_pct,
            memory_utilization_pct,
            uplink,
            interfaces,
        },
    )
}

} // verus!
