//! Sites: top-level managed deployments.

use vstd::prelude::*;
use crate::fields::{
    get_i32_field, get_opt_str_field, get_uuid_field, spec_opt_str_field, spec_uuid_field,
};
use crate::ids::Uuid;
use crate::json::{jv, jv_field, Jv, JsonValue};
use crate::models::common::{lemma_decode_seq_none, spec_decode_page, spec_decode_seq, Page, PageV};
use crate::text::opt_text;

verus! {

/// One site: its identifier and, where the server sends one, its name.
#[derive(Debug, Clone, PartialEq, Eq)]
pub struct SiteOverview {
    pub id: Uuid,
    pub name: Option<String>,
}

/// The shape of a [`SiteOverview`] in specifications.
pub struct SiteOverviewV {
    pub id: Uuid,
    pub name: Option<Seq<char>>,
}

impl View for SiteOverview {
    type V = SiteOverviewV;

    open spec fn view(&self) -> SiteOverviewV {
        SiteOverviewV { id: self.id, name: opt_text(self.name) }
    }
}

/// What a site decodes from: an object with an `id` identifier string and
/// an optional `name` string.
pub open spec fn spec_decode_site(j: Jv) -> Option<SiteOverviewV> {
    match (spec_uuid_field(j, "id"@), spec_opt_str_field(j, "name"@)) {
        (Some(id), Some(name)) => Some(SiteOverviewV { id, name }),
        _ => None,
    }
}

/// Decodes one site record.
pub fn decode_site(j: &JsonValue) -> (r: Option<SiteOverview>)
    ensures
        match r {
            Some(v) => spec_decode_site(j@) == Some(v@),
            None => spec_decode_site(j@) is None,
        },
{
    let id = match get_uuid_field(j, "id") {
        Some(v) => v,
        None => {
            return None;
        },
    };
    let name = match get_opt_str_field(j, "name") {
        Some(v) => v,
        None => {
            return None;
        },
    };
    Some(SiteOverview { id, name })
}

/// What a page of sites decodes from.
pub open spec fn spec_decode_site_page(j: Jv) -> Option<PageV<SiteOverviewV>> {
    spec_decode_page(j, |e: Jv| spec_decode_site(e))
}

/// Decodes a page of sites.
pub fn decode_site_page(j: &JsonValue) -> (r: Option<Page<SiteOverview>>)
    ensures
        match r {
            Some(v) => spec_decode_site_page(j@) == Some(v@),
            None => spec_decode_site_page(j@) is None,
        },
{
    let ghost dec = |e: Jv| spec_decode_site(e);
    let offset = match get_i32_field(j, "offset") {
        Some(v) => v,
        None => {
            return None;
        },
    };
    let limit = match get_i32_field(j, "limit") {
        Some(v) => v,
        None => {
            return None;
        },
    };
    let count = match get_i32_field(j, "count") {
        Some(v) => v,
        None => {
            return None;
        },
    };
    let total_count = match get_i32_field(j, "totalCount") {
        Some(v) => v,
        None => {
            return None;
        },
    };
    let items = match j.get("data") {
        Some(JsonValue::Arr(items)) => items,
        _ => {
            return None;
        },
    };
    let ghost jitems = jv_field(j@, "data"@)->0->Arr_0;
    assert(jv_field(j@, "data"@) == Some(Jv::Arr(jitems)));
    let mut out: Vec<SiteOverview> = Vec::new();
    let ghost mut vs = Seq::<SiteOverviewV>::empty();
    assert(spec_decode_seq(jitems.take(0), dec) == Some(vs));
    let n = items.len();
    let mut i: usize = 0;
    while i < n
        invariant
            0 <= i <= n,
            n == items.len(),
            jitems.len() == n,
            jv_field(j@, "data"@) == Some(Jv::Arr(jitems)),
            dec == (|e: Jv| spec_decode_site(e)),
            forall|t: int| 0 <= t < n ==> jitems[t] == jv(items@[t]),
            out@.len() == i,
            vs == Seq::new(out@.len(), |t: int| out@[t]@),
            spec_decode_seq(jitems.take(i as int), dec) == Some(vs),
        decreases n - i,
    {
        match decode_site(&items[i]) {
            Some(v) => {
                out.push(v);
                proof {
                    vs = vs.push(v@);
                    assert(vs =~= Seq::new(out@.len(), |t: int| out@[t]@));
                }
            },
            None => {
                proof {
                    lemma_decode_seq_none(jitems, dec, i as int);
                }
                return None;
            },
        }
        assert(jitems.take(i + 1).drop_last() =~= jitems.take(i as int));
        assert(jitems.take(i + 1).last() == jitems[i as int]);
        i = i + 1;
    }
    assert(jitems.take(n as int) =~= jitems);
    let page = Page { offset, limit, count, total_count, data: out };
    assert(page@.data =~= vs);
    Some(page)
}

} // verus!
