//! Records and enumerations shared by several endpoints: pages, the
//! application information record, and the closed wire enumerations of
//! port, connector, WLAN standard and frequency band.

use vstd::prelude::*;
use crate::fields::{get_str_field, spec_i32_field, spec_str_field};
use crate::json::{jv_field, Jv, JsonValue};
use crate::text::str_eq;

verus! {

/// One slice of a server-side paginated collection. `count` is the length
/// of `data`; `total_count` is the size of the whole collection.
#[derive(Debug)]
pub struct Page<T> {
    pub offset: i32,
    pub limit: i32,
    pub count: i32,
    pub total_count: i32,
    pub data: Vec<T>,
}

/// The shape of a [`Page`] in specifications.
pub struct PageV<TV> {
    pub offset: i32,
    pub limit: i32,
    pub count: i32,
    pub total_count: i32,
    pub data: Seq<TV>,
}

impl<T: View> View for Page<T> {
    type V = PageV<T::V>;

    open spec fn view(&self) -> PageV<T::V> {
        PageV {
            offset: self.offset,
            limit: self.limit,
            count: self.count,
            total_count: self.total_count,
            data: Seq::new(self.data@.len(), |i: int| self.data@[i]@),
        }
    }
}

/// Decodes a sequence of values with `dec`; `None` where some element is
/// rejected.
pub open spec fn spec_decode_seq<TV>(items: Seq<Jv>, dec: spec_fn(Jv) -> Option<TV>) -> Option<
    Seq<TV>,
>
    decreases items.len(),
{
    if items.len() == 0 {
        Some(Seq::empty())
    } else {
        match spec_decode_seq(items.drop_last(), dec) {
            Some(pre) => match dec(items.last()) {
                Some(v) => Some(pre.push(v)),
                None => None,
            },
            None => None,
        }
    }
}

pub proof fn lemma_decode_seq_none<TV>(items: Seq<Jv>, dec: spec_fn(Jv) -> Option<TV>, t: int)
    requires
        0 <= t < items.len(),
        dec(items[t]) is None,
    ensures
        spec_decode_seq(items, dec) is None,
    decreases items.len(),
{
    if t < items.len() - 1 {
        lemma_decode_seq_none(items.drop_last(), dec, t);
    }
}

/// Decodes a page body: the four counters and a `data` array whose
/// elements all decode with `dec`.
pub open spec fn spec_decode_page<TV>(j: Jv, dec: spec_fn(Jv) -> Option<TV>) -> Option<PageV<TV>> {
    match (
        spec_i32_field(j, "offset"@),
        spec_i32_field(j, "limit"@),
        spec_i32_field(j, "count"@),
        spec_i32_field(j, "totalCount"@),
    ) {
        (Some(offset), Some(limit), Some(count), Some(total_count)) => match jv_field(
            j,
            "data"@,
        ) {
            Some(Jv::Arr(items)) => match spec_decode_seq(items, dec) {
                Some(data) => Some(PageV { offset, limit, count, total_count, data }),
                None => None,
            },
            _ => None,
        },
        _ => None,
    }
}

/// What the application information record decodes from: an object with an
/// `applicationVersion` string.
#[derive(Debug, Clone, PartialEq, Eq)]
pub struct ApplicationInfo {
    pub application_version: String,
}

/// The shape of an [`ApplicationInfo`] in specifications.
pub struct ApplicationInfoV {
    pub application_version: Seq<char>,
}

impl View for ApplicationInfo {
    type V = ApplicationInfoV;

    open spec fn view(&self) -> ApplicationInfoV {
        ApplicationInfoV { application_version: self.application_version@ }
    }
}

pub open spec fn spec_decode_application_info(j: Jv) -> Option<ApplicationInfoV> {
    match spec_str_field(j, "applicationVersion"@) {
        Some(s) => Some(ApplicationInfoV { application_version: s }),
        None => None,
    }
}

/// Decodes the application information record.
pub fn decode_application_info(j: &JsonValue) -> (r: Option<ApplicationInfo>)
    ensures
        match r {
            Some(v) => spec_decode_application_info(j@) == Some(v@),
            None => spec_decode_application_info(j@) is None,
        },
{
    match get_str_field(j, "applicationVersion") {
        Some(s) => Some(ApplicationInfo { application_version: s }),
        None => None,
    }
}

/// The link state of an Ethernet port.
#[derive(Debug, Clone, Copy, PartialEq, Eq)]
pub enum PortState {
    Up,
    Down,
    Unknown,
}

pub open spec fn spec_port_state_of(s: Seq<char>) -> Option<PortState> {
    if s == "UP"@ {
        Some(PortState::Up)
    } else if s == "DOWN"@ {
        Some(PortState::Down)
    } else if s == "UNKNOWN"@ {
        Some(PortState::Unknown)
    } else {
        None
    }
}

/// Decodes a port state from its upper-case wire name.
pub fn port_state_of(s: &str) -> (r: Option<PortState>)
    ensures
        r == spec_port_state_of(s@),
{
    if str_eq(s, "UP") {
        Some(PortState::Up)
    } else if str_eq(s, "DOWN") {
        Some(PortState::Down)
    } else if str_eq(s, "UNKNOWN") {
        Some(PortState::Unknown)
    } else {
        None
    }
}

/// The connector kind of an Ethernet port.
#[derive(Debug, Clone, Copy, PartialEq, Eq)]
pub enum ConnectorType {
    RJ45,
    SFP,
    SFPPLUS,
    SFP28,
    QSFP28,
}

pub open spec fn spec_connector_type_of(s: Seq<char>) -> Option<ConnectorType> {
    if s == "RJ45"@ {
        Some(ConnectorType::RJ45)
    } else if s == "SFP"@ {
        Some(ConnectorType::SFP)
    } else if s == "SFPPLUS"@ {
        Some(ConnectorType::SFPPLUS)
    } else if s == "SFP28"@ {
        Some(ConnectorType::SFP28)
    } else if s == "QSFP28"@ {
        Some(ConnectorType::QSFP28)
    } else {
        None
    }
}

/// Decodes a connector kind from its wire name.
pub fn connector_type_of(s: &str) -> (r: Option<ConnectorType>)
    ensures
        r == spec_connector_type_of(s@),
{
    if str_eq(s, "RJ45") {
        Some(ConnectorType::RJ45)
    } else if str_eq(s, "SFP") {
        Some(ConnectorType::SFP)
    } else if str_eq(s, "SFPPLUS") {
        Some(ConnectorType::SFPPLUS)
    } else if str_eq(s, "SFP28") {
        Some(ConnectorType::SFP28)
    } else if str_eq(s, "QSFP28") {
        Some(ConnectorType::QSFP28)
    } else {
        None
    }
}

/// An IEEE 802.11 WLAN standard.
#[derive(Debug, Clone, Copy, PartialEq, Eq)]
pub enum WlanStandard {
    IEEE802_11A,
    IEEE802_11B,
    IEEE802_11G,
    IEEE802_11N,
    IEEE802_11AC,
    IEEE802_11AX,
    IEEE802_11BE,
}

pub open spec fn spec_wlan_standard_of(s: Seq<char>) -> Option<WlanStandard> {
    if s == "802.11a"@ {
        Some(WlanStandard::IEEE802_11A)
    } else if s == "802.11b"@ {
        Some(WlanStandard::IEEE802_11B)
    } else if s == "802.11g"@ {
        Some(WlanStandard::IEEE802_11G)
    } else if s == "802.11n"@ {
        Some(WlanStandard::IEEE802_11N)
    } else if s == "802.11ac"@ {
        Some(WlanStandard::IEEE802_11AC)
    } else if s == "802.11ax"@ {
        Some(WlanStandard::IEEE802_11AX)
    } else if s == "802.11be"@ {
        Some(WlanStandard::IEEE802_11BE)
    } else {
        None
    }
}

/// Decodes a WLAN standard from its wire name.
pub fn wlan_standard_of(s: &str) -> (r: Option<WlanStandard>)
    ensures
        r == spec_wlan_standard_of(s@),
{
    if str_eq(s, "802.11a") {
        Some(WlanStandard::IEEE802_11A)
    } else if str_eq(s, "802.11b") {
        Some(WlanStandard::IEEE802_11B)
    } else if str_eq(s, "802.11g") {
        Some(WlanStandard::IEEE802_11G)
    } else if str_eq(s, "802.11n") {
        Some(WlanStandard::IEEE802_11N)
    } else if str_eq(s, "802.11ac") {
        Some(WlanStandard::IEEE802_11AC)
    } else if str_eq(s, "802.11ax") {
        Some(WlanStandard::IEEE802_11AX)
    } else if str_eq(s, "802.11be") {
        Some(WlanStandard::IEEE802_11BE)
    } else {
        None
    }
}

/// The radio frequency band of a wireless interface. The server encodes a
/// band either as the string `"2.4"`, `"5"`, `"6"`, `"60"` or as the bare
/// number `2.4`, `5`, `6`, `60`.
#[derive(Debug, Clone, Copy, PartialEq, Eq)]
pub enum FrequencyBand {
    Band2_4GHz,
    Band5GHz,
    Band6GHz,
    Band60GHz,
}

/// The canonical literal of a band, which is both its string form and its
/// numeric wire form.
pub open spec fn spec_band_text(b: FrequencyBand) -> Seq<char> {
    match b {
        FrequencyBand::Band2_4GHz => "2.4"@,
        FrequencyBand::Band5GHz => "5"@,
        FrequencyBand::Band6GHz => "6"@,
        FrequencyBand::Band60GHz => "60"@,
    }
}

pub open spec fn spec_band_of(s: Seq<char>) -> Option<FrequencyBand> {
    if s == "2.4"@ {
        Some(FrequencyBand::Band2_4GHz)
    } else if s == "5"@ {
        Some(FrequencyBand::Band5GHz)
    } else if s == "6"@ {
        Some(FrequencyBand::Band6GHz)
    } else if s == "60"@ {
        Some(FrequencyBand::Band60GHz)
    } else {
        None
    }
}

/// What a band decodes from: a string or a number whose literal is one of
/// the four band texts; every other value is rejected.
pub open spec fn spec_decode_frequency_band(j: Jv) -> Option<FrequencyBand> {
    match j {
        Jv::Str(s) => spec_band_of(s),
        Jv::Num(lit) => spec_band_of(lit),
        _ => None,
    }
}

/// Decodes a frequency band from either of its wire forms.
pub fn decode_frequency_band(j: &JsonValue) -> (r: Option<FrequencyBand>)
    ensures
        r == spec_decode_frequency_band(j@),
{
    match j {
        JsonValue::Str(s) => band_of(s.as_str()),
        JsonValue::Num(lit) => band_of(lit.as_str()),
        _ => None,
    }
}

/// Decodes a frequency band from one literal.
pub fn band_of(s: &str) -> (r: Option<FrequencyBand>)
    ensures
        r == spec_band_of(s@),
{
    if str_eq(s, "2.4") {
        Some(FrequencyBand::Band2_4GHz)
    } else if str_eq(s, "5") {
        Some(FrequencyBand::Band5GHz)
    } else if str_eq(s, "6") {
        Some(FrequencyBand::Band6GHz)
    } else if str_eq(s, "60") {
        Some(FrequencyBand::Band60GHz)
    } else {
        None
    }
}

/// The canonical literal of a band, as text.
pub fn band_text(b: FrequencyBand) -> (r: String)
    ensures
        r@ == spec_band_text(b),
{
    match b {
        FrequencyBand::Band2_4GHz => "2.4".to_owned(),
        FrequencyBand::Band5GHz => "5".to_owned(),
        FrequencyBand::Band6GHz => "6".to_owned(),
        FrequencyBand::Band60GHz => "60".to_owned(),
    }
}

/// Encodes a band in its string wire form.
pub fn encode_frequency_band_str(b: FrequencyBand) -> (r: JsonValue)
    ensures
        r@ == Jv::Str(spec_band_text(b)),
{
    JsonValue::Str(band_text(b))
}

/// Encodes a band in its numeric wire form.
pub fn encode_frequency_band_num(b: FrequencyBand) -> (r: JsonValue)
    ensures
        r@ == Jv::Num(spec_band_text(b)),
{
    JsonValue::Num(band_text(b))
}

/// Encoding a band in either wire form and decoding it again yields the
/// band; a literal that is no band text decodes to nothing, by the shape of
/// [`spec_band_of`].
pub proof fn lemma_frequency_band_round_trip(b: FrequencyBand)
    ensures
        spec_decode_frequency_band(Jv::Str(spec_band_text(b))) == Some(b),
        spec_decode_frequency_band(Jv::Num(spec_band_text(b))) == Some(b),
{
    reveal_strlit("2.4");
    reveal_strlit("5");
    reveal_strlit("6");
    reveal_strlit("60");
    assert("5"@.len() == 1 && "2.4"@.len() == 3 && "6"@.len() == 1 && "60"@.len() == 2);
    assert("5"@[0] == '5' && "6"@[0] == '6');
}

} // verus!
