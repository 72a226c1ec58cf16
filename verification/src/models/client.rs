//! Clients: endpoints connected to the network.
//!
//! A client record is a tagged union over a `type` field with the values
//! `WIRED`, `WIRELESS`, `VPN` and `TELEPORT`. All variants share the base
//! fields; the wired and wireless variants add a MAC address and an uplink
//! device.

use vstd::prelude::*;
use crate::fields::{
    get_i32_field, get_opt_str_field, get_str_field, get_timestamp_field, get_uuid_field,
    spec_opt_str_field, spec_str_field, spec_timestamp_field, spec_uuid_field,
};
use crate::ids::Uuid;
use crate::json::{jv, jv_field, Jv, JsonValue};
use crate::models::common::{lemma_decode_seq_none, spec_decode_page, spec_decode_seq, Page, PageV};
use crate::text::opt_text;
use crate::time::Timestamp;

verus! {

/// The fields every client variant carries.
#[derive(Debug, Clone, PartialEq, Eq)]
pub struct BaseClientOverview {
    pub id: Uuid,
    pub name: Option<String>,
    pub connected_at: Timestamp,
    pub ip_address: Option<String>,
}

/// The shape of a [`BaseClientOverview`] in specifications.
pub struct BaseClientOverviewV {
    pub id: Uuid,
    pub name: Option<Seq<char>>,
    pub connected_at: Timestamp,
    pub ip_address: Option<Seq<char>>,
}

impl View for BaseClientOverview {
    type V = BaseClientOverviewV;

    open spec fn view(&self) -> BaseClientOverviewV {
        BaseClientOverviewV {
            id: self.id,
            name: opt_text(self.name),
            connected_at: self.connected_at,
            ip_address: opt_text(self.ip_address),
        }
    }
}

/// A client connected over Ethernet.
#[derive(Debug, Clone, PartialEq, Eq)]
pub struct WiredClientOverview {
    pub base: BaseClientOverview,
    pub mac_address: String,
    pub uplink_device_id: Uuid,
}

/// The shape of a [`WiredClientOverview`] in specifications.
pub struct WiredClientOverviewV {
    pub base: BaseClientOverviewV,
    pub mac_address: Seq<char>,
    pub uplink_device_id: Uuid,
}

impl View for WiredClientOverview {
    type V = WiredClientOverviewV;

    open spec fn view(&self) -> WiredClientOverviewV {
        WiredClientOverviewV {
            base: self.base@,
            mac_address: self.mac_address@,
            uplink_device_id: self.uplink_device_id,
        }
    }
}

/// A client connected over WLAN.
#[derive(Debug, Clone, PartialEq, Eq)]
pub struct WirelessClientOverview {
    pub base: BaseClientOverview,
    pub mac_address: String,
    pub uplink_device_id: Uuid,
}

/// The shape of a [`WirelessClientOverview`] in specifications.
pub struct WirelessClientOverviewV {
    pub base: BaseClientOverviewV,
    pub mac_address: Seq<char>,
    pub uplink_device_id: Uuid,
}

impl View for WirelessClientOverview {
    type V = WirelessClientOverviewV;

    open spec fn view(&self) -> WirelessClientOverviewV {
        WirelessClientOverviewV {
            base: self.base@,
            mac_address: self.mac_address@,
            uplink_device_id: self.uplink_device_id,
        }
    }
}

/// A client connected through a VPN session.
#[derive(Debug, Clone, PartialEq, Eq)]
pub struct VpnClientOverview {
    pub base: BaseClientOverview,
}

/// The shape of a [`VpnClientOverview`] in specifications.
pub struct VpnClientOverviewV {
    pub base: BaseClientOverviewV,
}

impl View for VpnClientOverview {
    type V = VpnClientOverviewV;

    open spec fn view(&self) -> VpnClientOverviewV {
        VpnClientOverviewV { base: self.base@ }
    }
}

/// A client connected through a remote-access session.
#[derive(Debug, Clone, PartialEq, Eq)]
pub struct TeleportClientOverview {
    pub base: BaseClientOverview,
}

/// The shape of a [`TeleportClientOverview`] in specifications.
pub struct TeleportClientOverviewV {
    pub base: BaseClientOverviewV,
}

impl View for TeleportClientOverview {
    type V = TeleportClientOverviewV;

    open spec fn view(&self) -> TeleportClientOverviewV {
        TeleportClientOverviewV { base: self.base@ }
    }
}

/// One client, discriminated by the wire `type` field.
#[derive(Debug, Clone, PartialEq, Eq)]
pub enum ClientOverview {
    Wired(WiredClientOverview),
    Wireless(WirelessClientOverview),
    Vpn(VpnClientOverview),
    Teleport(TeleportClientOverview),
}

/// The shape of a [`ClientOverview`] in specifications.
pub enum ClientOverviewV {
    Wired(WiredClientOverviewV),
    Wireless(WirelessClientOverviewV),
    Vpn(VpnClientOverviewV),
    Teleport(TeleportClientOverviewV),
}

impl View for ClientOverview {
    type V = ClientOverviewV;

    open spec fn view(&self) -> ClientOverviewV {
        match self {
            ClientOverview::Wired(c) => ClientOverviewV::Wired(c@),
            ClientOverview::Wireless(c) => ClientOverviewV::Wireless(c@),
            ClientOverview::Vpn(c) => ClientOverviewV::Vpn(c@),
            ClientOverview::Teleport(c) => ClientOverviewV::Teleport(c@),
        }
    }
}

/// What the shared base fields decode from: an `id` identifier, an
/// optional `name`, a `connectedAt` timestamp and an optional `ipAddress`.
pub open spec fn spec_decode_client_base(j: Jv) -> Option<BaseClientOverviewV> {
    match (
        spec_uuid_field(j, "id"@),
        spec_opt_str_field(j, "name"@),
        spec_timestamp_field(j, "connectedAt"@),
        spec_opt_str_field(j, "ipAddress"@),
    ) {
        (Some(id), Some(name), Some(connected_at), Some(ip_address)) => Some(
            BaseClientOverviewV { id, name, connected_at, ip_address },
        ),
        _ => None,
    }
}

/// Decodes the shared base fields.
pub fn decode_client_base(j: &JsonValue) -> (r: Option<BaseClientOverview>)
    ensures
        match r {
            Some(v) => spec_decode_client_base(j@) == Some(v@),
            None => spec_decode_client_base(j@) is None,
        },
{
    let id = match get_uuid_field(j, "id") {
        Some(v) => v,
        None => {
            return None;
        },
    };
    let name = match get_opt_str_field(j, "name") {
        Some(v) => v,
        None => {
            return None;
        },
    };
    let connected_at = match get_timestamp_field(j, "connectedAt") {
        Some(v) => v,
        None => {
            return None;
        },
    };
    let ip_address = match get_opt_str_field(j, "ipAddress") {
        Some(v) => v,
        None => {
            return None;
        },
    };
    Some(BaseClientOverview { id, name, connected_at, ip_address })
}

/// What the extra wired and wireless fields decode from: a `macAddress`
/// string and an `uplinkDeviceId` identifier.
pub open spec fn spec_decode_client_link(j: Jv) -> Option<(Seq<char>, Uuid)> {
    match (spec_str_field(j, "macAddress"@), spec_uuid_field(j, "uplinkDeviceId"@)) {
        (Some(mac_address), Some(uplink_device_id)) => Some((mac_address, uplink_device_id)),
        _ => None,
    }
}

/// What a client record decodes from: the object's `type` tag picks the
/// variant, every variant reads the base fields, and the wired and
/// wireless variants also read the link fields.
pub open spec fn spec_decode_client_overview(j: Jv) -> Option<ClientOverviewV> {
    match spec_str_field(j, "type"@) {
        Some(tag) => match spec_decode_client_base(j) {
            Some(base) => if tag == "WIRED"@ {
                match spec_decode_client_link(j) {
                    Some((mac_address, uplink_device_id)) => Some(
                        ClientOverviewV::Wired(
                            WiredClientOverviewV { base, mac_address, uplink_device_id },
                        ),
                    ),
                    None => None,
                }
            } else if tag == "WIRELESS"@ {
                match spec_decode_client_link(j) {
                    Some((mac_address, uplink_device_id)) => Some(
                        ClientOverviewV::Wireless(
                            WirelessClientOverviewV { base, mac_address, uplink_device_id },
                        ),
                    ),
                    None => None,
                }
            } else if tag == "VPN"@ {
                Some(ClientOverviewV::Vpn(VpnClientOverviewV { base }))
            } else if tag == "TELEPORT"@ {
                Some(ClientOverviewV::Teleport(TeleportClientOverviewV { base }))
            } else {
                None
            },
            None => None,
        },
        None => None,
    }
}

/// Decodes one client record.
pub fn decode_client_overview(j: &JsonValue) -> (r: Option<ClientOverview>)
    ensures
        match r {
            Some(v) => spec_decode_client_overview(j@) == Some(v@),
            None => spec_decode_client_overview(j@) is None,
        },
{
    let tag = match get_str_field(j, "type") {
        Some(v) => v,
        None => {
            return None;
        },
    };
    let base = match decode_client_base(j) {
        Some(v) => v,
        None => {
            return None;
        },
    };
    if crate::text::str_eq(tag.as_str(), "WIRED") {
        let mac_address = match get_str_field(j, "macAddress") {
            Some(v) => v,
            None => {
                return None;
            },
        };
        let uplink_device_id = match get_uuid_field(j, "uplinkDeviceId") {
            Some(v) => v,
            None => {
                return None;
            },
        };
        Some(
            ClientOverview::Wired(WiredClientOverview { base, mac_address, uplink_device_id }),
        )
    } else if crate::text::str_eq(tag.as_str(), "WIRELESS") {
        let mac_address = match get_str_field(j, "macAddress") {
            Some(v) => v,
            None => {
                return None;
            },
        };
        let uplink_device_id = match get_uuid_field(j, "uplinkDeviceId") {
            Some(v) => v,
            None => {
                return None;
            },
        };
        Some(
            ClientOverview::Wireless(
                WirelessClientOverview { base, mac_address, uplink_device_id },
            ),
        )
    } else if crate::text::str_eq(tag.as_str(), "VPN") {
        Some(ClientOverview::Vpn(VpnClientOverview { base }))
    } else if crate::text::str_eq(tag.as_str(), "TELEPORT") {
        Some(ClientOverview::Teleport(TeleportClientOverview { base }))
    } else {
        None
    }
}

/// What a page of clients decodes from.
pub open spec fn spec_decode_client_page(j: Jv) -> Option<PageV<ClientOverviewV>> {
    spec_decode_page(j, |e: Jv| spec_decode_client_overview(e))
}

/// Decodes a page of clients.
pub fn decode_client_page(j: &JsonValue) -> (r: Option<Page<ClientOverview>>)
    ensures
        match r {
            Some(v) => spec_decode_client_page(j@) == Some(v@),
            None => spec_decode_client_page(j@) is None,
        },
{
    let ghost dec = |e: Jv| spec_decode_client_overview(e);
    let offset = match get_i32_field(j, "offset") {
        Some(v) => v,
        None => {
            return None;
        },
    };
    let limit = match get_i32_field(j, "limit") {
        Some(v) => v,
        None => {
            return None;
        },
    };
    let count = match get_i32_field(j, "count") {
        Some(v) => v,
        None => {
            return None;
        },
    };
    let total_count = match get_i32_field(j, "totalCount") {
        Some(v) => v,
        None => {
            return None;
        },
    };
    let items = match j.get("data") {
        Some(JsonValue::Arr(items)) => items,
        _ => {
            return None;
        },
    };
    let ghost jitems = jv_field(j@, "data"@)->0->Arr_0;
    assert(jv_field(j@, "data"@) == Some(Jv::Arr(jitems)));
    let mut out: Vec<ClientOverview> = Vec::new();
    let ghost mut vs = Seq::<ClientOverviewV>::empty();
    assert(spec_decode_seq(jitems.take(0), dec) == Some(vs));
    let n = items.len();
    let mut i: usize = 0;
    while i < n
        invariant
            0 <= i <= n,
            n == items.len(),
            jitems.len() == n,
            jv_field(j@, "data"@) == Some(Jv::Arr(jitems)),
            dec == (|e: Jv| spec_decode_client_overview(e)),
            forall|t: int| 0 <= t < n ==> jitems[t] == jv(items@[t]),
            out@.len() == i,
            vs == Seq::new(out@.len(), |t: int| out@[t]@),
            spec_decode_seq(jitems.take(i as int), dec) == Some(vs),
        decreases n - i,
    {
        match decode_client_overview(&items[i]) {
            Some(v) => {
                out.push(v);
                proof {
                    vs = vs.push(v@);
                    assert(vs =~= Seq::new(out@.len(), |t: int| out@[t]@));
                }
            },
            None => {
                proof {
                    lemma_decode_seq_none(jitems, dec, i as int);
                }
                return None;
            },
        }
        assert(jitems.take(i + 1).drop_last() =~= jitems.take(i as int));
        assert(jitems.take(i + 1).last() == jitems[i as int]);
        i = i + 1;
    }
    assert(jitems.take(n as int) =~= jitems);
    let page = Page { offset, limit, count, total_count, data: out };
    assert(page@.data =~= vs);
    Some(page)
}

} // verus!
