//! The connection builder, the connection handle, and the request and
//! response rules of each endpoint.
//!
//! The library does not perform HTTP itself. A request function turns a
//! handle and arguments into an [`HttpRequest`] value; the shell around the
//! library sends it with the `X-API-KEY` header and hands the status code
//! and body text to the matching response function.

use vstd::prelude::*;
use vstd::string::{StrSliceExecFns, StringExecFns};
use crate::errors::{UnifiError, UnifiErrorV};
use crate::fields::{get_str_field, get_u16_field, spec_str_field, spec_u16_field};
use crate::ids::{uuid_text, Uuid};
use crate::json::{json_of, parse_json, Jv, JsonValue};
use crate::models::client::{decode_client_page, spec_decode_client_page, ClientOverview, ClientOverviewV};
use crate::models::common::{
    decode_application_info, spec_decode_application_info, ApplicationInfo, ApplicationInfoV, Page,
    PageV,
};
use crate::models::device::{
    decode_device_details, decode_device_page, spec_decode_device_details, spec_decode_device_page,
    DeviceDetails, DeviceDetailsV, DeviceOverview, DeviceOverviewV,
};
use crate::models::site::{decode_site_page, spec_decode_site_page, SiteOverview, SiteOverviewV};
use crate::models::statistics::{
    decode_device_statistics, spec_decode_device_statistics, DeviceStatistics, DeviceStatisticsV,
};
use crate::text::{append_i32, int_text};

verus! {

/// The server's JSON error envelope: its status code and message.
#[derive(Debug, Clone, PartialEq, Eq)]
pub struct ErrorResponse {
    pub status_code: u16,
    pub message: String,
}

/// The shape of an [`ErrorResponse`] in specifications.
pub struct ErrorResponseV {
    pub status_code: u16,
    pub message: Seq<char>,
}

impl View for ErrorResponse {
    type V = ErrorResponseV;

    open spec fn view(&self) -> ErrorResponseV {
        ErrorResponseV { status_code: self.status_code, message: self.message@ }
    }
}

/// What the error envelope decodes from: a `statusCode` integer that fits
/// a `u16` and a `message` string.
pub open spec fn spec_decode_error_response(j: Jv) -> Option<ErrorResponseV> {
    match (spec_u16_field(j, "statusCode"@), spec_str_field(j, "message"@)) {
        (Some(status_code), Some(message)) => Some(ErrorResponseV { status_code, message }),
        _ => None,
    }
}

/// Decodes the error envelope.
pub fn decode_error_response(j: &JsonValue) -> (r: Option<ErrorResponse>)
    ensures
        match r {
            Some(v) => spec_decode_error_response(j@) == Some(v@),
            None => spec_decode_error_response(j@) is None,
        },
{
    let status_code = match get_u16_field(j, "statusCode") {
        Some(v) => v,
        None => {
            return None;
        },
    };
    let message = match get_str_field(j, "message") {
        Some(v) => v,
        None => {
            return None;
        },
    };
    Some(ErrorResponse { status_code, message })
}

/// Whether a piece of text parses as a URL.
pub uninterp spec fn url_ok(s: Seq<char>) -> bool;

/// Relies on url::Url::parse: whether a text parses as a URL depends on
/// the text alone; that result is named [`url_ok`].
#[verifier::external_body]
pub(crate) fn url_parses(s: &str) -> (r: bool)
    ensures
        r == url_ok(s@),
{
    url::Url::parse(s).is_ok()
}

/// The HTTP method of a request.
#[derive(Debug, Clone, Copy, PartialEq, Eq)]
pub enum HttpMethod {
    Get,
    Post,
}

/// One request, ready for the transport: its method, its full URL, and
/// its JSON body text where it has one.
#[derive(Debug, Clone, PartialEq, Eq)]
pub struct HttpRequest {
    pub method: HttpMethod,
    pub url: String,
    pub body: Option<String>,
}

/// The shape of an [`HttpRequest`] in specifications.
pub struct HttpRequestV {
    pub method: HttpMethod,
    pub url: Seq<char>,
    pub body: Option<Seq<char>>,
}

impl View for HttpRequest {
    type V = HttpRequestV;

    open spec fn view(&self) -> HttpRequestV {
        HttpRequestV {
            method: self.method,
            url: self.url@,
            body: match self.body {
                Some(b) => Some(b@),
                None => None,
            },
        }
    }
}

/// A character the transport accepts in a header value: a tab, or
/// anything that is neither a control character nor delete.
pub open spec fn is_header_value_char(c: char) -> bool {
    c == '\t' || (c as u32 >= 32 && c as u32 != 127)
}

/// Every character of the key can stand in a header value.
pub open spec fn valid_api_key(s: Seq<char>) -> bool {
    forall|i: int| 0 <= i < s.len() ==> is_header_value_char(s[i])
}

/// Checks that every character of the key can stand in a header value.
fn api_key_encodable(s: &str) -> (r: bool)
    ensures
        r == valid_api_key(s@),
{
    let n = s.unicode_len();
    let mut i: usize = 0;
    while i < n
        invariant
            0 <= i <= n,
            n == s@.len(),
            forall|t: int| 0 <= t < i ==> is_header_value_char(s@[t]),
        decreases n - i,
    {
        let c = s.get_char(i);
        let cu = c as u32;
        if !(cu == 9 || (cu >= 32 && cu != 127)) {
            assert(!is_header_value_char(s@[i as int]));
            return false;
        }
        i = i + 1;
    }
    true
}

/// Assembles a connection: a base URL, then an API key and a certificate
/// verification flag, validated by [`UnifiClientBuilder::build`].
#[derive(Debug, Clone)]
pub struct UnifiClientBuilder {
    base_url: String,
    api_key: Option<String>,
    verify_ssl: bool,
}

/// The shape of a [`UnifiClientBuilder`] in specifications.
pub struct UnifiClientBuilderV {
    pub base_url: Seq<char>,
    pub api_key: Option<Seq<char>>,
    pub verify_ssl: bool,
}

impl View for UnifiClientBuilder {
    type V = UnifiClientBuilderV;

    closed spec fn view(&self) -> UnifiClientBuilderV {
        UnifiClientBuilderV {
            base_url: self.base_url@,
            api_key: match self.api_key {
                Some(k) => Some(k@),
                None => None,
            },
            verify_ssl: self.verify_ssl,
        }
    }
}

/// The validated connection handle: the base URL, the API key the
/// transport sends as `X-API-KEY`, and the certificate verification flag.
/// It holds no mutable state, so it can be shared and duplicated freely.
#[derive(Debug, Clone)]
pub struct UnifiClient {
    base_url: String,
    api_key: String,
    verify_ssl: bool,
}

/// The shape of a [`UnifiClient`] in specifications.
pub struct UnifiClientV {
    pub base_url: Seq<char>,
    pub api_key: Seq<char>,
    pub verify_ssl: bool,
}

impl View for UnifiClient {
    type V = UnifiClientV;

    closed spec fn view(&self) -> UnifiClientV {
        UnifiClientV {
            base_url: self.base_url@,
            api_key: self.api_key@,
            verify_ssl: self.verify_ssl,
        }
    }
}

impl UnifiClientBuilder {
    /// Starts a configuration against a base URL, with certificate
    /// verification on and no API key yet.
    pub fn new(base_url: &str) -> (r: UnifiClientBuilder)
        ensures
            r@.base_url == base_url@,
            r@.api_key is None,
            r@.verify_ssl == true,
    {
        UnifiClientBuilder { base_url: base_url.to_owned(), api_key: None, verify_ssl: true }
    }

    /// Sets the API key.
    pub fn api_key(self, api_key: &str) -> (r: UnifiClientBuilder)
        ensures
            r@.base_url == self@.base_url,
            r@.api_key == Some(api_key@),
            r@.verify_ssl == self@.verify_ssl,
    {
        UnifiClientBuilder {
            base_url: self.base_url,
            api_key: Some(api_key.to_owned()),
            verify_ssl: self.verify_ssl,
        }
    }

    /// Sets whether the transport verifies certificates.
    pub fn verify_ssl(self, verify: bool) -> (r: UnifiClientBuilder)
        ensures
            r@.base_url == self@.base_url,
            r@.api_key == self@.api_key,
            r@.verify_ssl == verify,
    {
        UnifiClientBuilder {
            base_url: self.base_url,
            api_key: self.api_key,
            verify_ssl: verify,
        }
    }

    /// Validates the configuration and produces the connection handle.
    ///
    /// Every configuration with an API key whose characters can stand in a
    /// header value builds; a configuration without an API key fails with
    /// a configuration error, as does one whose key the transport could
    /// not encode.
    pub fn build(self) -> (r: Result<UnifiClient, UnifiError>)
        ensures
            match r {
                Ok(c) => self@.api_key matches Some(k) && valid_api_key(k) && c@.base_url
                    == self@.base_url && c@.api_key == k && c@.verify_ssl == self@.verify_ssl,
                Err(e) => match self@.api_key {
                    None => e@ == UnifiErrorV::Config("API key is required"@),
                    Some(k) => !valid_api_key(k) && e@ == UnifiErrorV::Config(
                        "API key is not a valid header value"@,
                    ),
                },
            },
    {
        let api_key = match self.api_key {
            Some(k) => k,
            None => {
                return Err(UnifiError::Config("API key is required".to_owned()));
            },
        };
        if !api_key_encodable(api_key.as_str()) {
            return Err(UnifiError::Config("API key is not a valid header value".to_owned()));
        }
        Ok(UnifiClient { base_url: self.base_url, api_key, verify_ssl: self.verify_ssl })
    }
}

impl UnifiClient {
    /// The base URL the handle was built against.
    pub fn base_url(&self) -> (r: &str)
        ensures
            r@ == self@.base_url,
    {
        self.base_url.as_str()
    }

    /// The API key the transport sends as `X-API-KEY`.
    pub fn api_key(&self) -> (r: &str)
        ensures
            r@ == self@.api_key,
    {
        self.api_key.as_str()
    }

    /// Whether the transport verifies certificates.
    pub fn verify_ssl(&self) -> (r: bool)
        ensures
            r == self@.verify_ssl,
    {
        self.verify_ssl
    }
}

/// A pagination argument, with the endpoint's default where the caller
/// passes none.
pub open spec fn spec_opt_i32(o: Option<i32>, default: i32) -> i32 {
    match o {
        Some(v) => v,
        None => default,
    }
}

/// The query string of a paginated request.
pub open spec fn spec_query(offset: i32, limit: i32) -> Seq<char> {
    "?offset="@ + int_text(offset as int) + "&limit="@ + int_text(limit as int)
}

/// The common prefix of every site-scoped path.
pub open spec fn spec_site_prefix(base: Seq<char>, site: Uuid) -> Seq<char> {
    base + "/v1/sites/"@ + uuid_text(site.0 as int)
}

/// The URL of the site list.
pub open spec fn spec_sites_url(base: Seq<char>, offset: i32, limit: i32) -> Seq<char> {
    base + "/v1/sites"@ + spec_query(offset, limit)
}

/// The URL of a site's device list.
pub open spec fn spec_devices_url(base: Seq<char>, site: Uuid, offset: i32, limit: i32) -> Seq<
    char,
> {
    spec_site_prefix(base, site) + "/devices"@ + spec_query(offset, limit)
}

/// The URL of one device's details.
pub open spec fn spec_device_details_url(base: Seq<char>, site: Uuid, device: Uuid) -> Seq<char> {
    spec_site_prefix(base, site) + "/devices/"@ + uuid_text(device.0 as int)
}

/// The URL of one device's latest statistics.
pub open spec fn spec_device_statistics_url(base: Seq<char>, site: Uuid, device: Uuid) -> Seq<
    char,
> {
    spec_device_details_url(base, site, device) + "/statistics/latest"@
}

/// The URL of one device's action endpoint.
pub open spec fn spec_device_actions_url(base: Seq<char>, site: Uuid, device: Uuid) -> Seq<char> {
    spec_device_details_url(base, site, device) + "/actions"@
}

/// The URL of the application information record.
pub open spec fn spec_info_url(base: Seq<char>) -> Seq<char> {
    base + "/v1/info"@
}

/// The URL of a site's client list.
pub open spec fn spec_clients_url(base: Seq<char>, site: Uuid, offset: i32, limit: i32) -> Seq<
    char,
> {
    spec_site_prefix(base, site) + "/clients"@ + spec_query(offset, limit)
}

/// Appends `?offset=<offset>&limit=<limit>`.
fn append_pagination(out: &mut String, offset: i32, limit: i32)
    ensures
        final(out)@ == old(out)@ + spec_query(offset, limit),
{
    out.append("?offset=");
    append_i32(out, offset);
    out.append("&limit=");
    append_i32(out, limit);
    assert(out@ =~= old(out)@ + spec_query(offset, limit));
}

impl UnifiClient {
    /// Builds the common prefix of a site-scoped path.
    fn site_prefix(&self, site_id: &Uuid) -> (r: String)
        ensures
            r@ == spec_site_prefix(self@.base_url, *site_id),
    {
        let mut out = String::new();
        out.append(self.base_url.as_str());
        out.append("/v1/sites/");
        let h = site_id.to_hyphenated();
        out.append(h.as_str());
        assert(out@ =~= spec_site_prefix(self@.base_url, *site_id));
        out
    }

    /// Turns a built URL into a request, or into the malformed-URL error
    /// carrying the URL text.
    fn finish(url: String, method: HttpMethod, body: Option<String>) -> (r: Result<
        HttpRequest,
        UnifiError,
    >)
        ensures
            match r {
                Ok(req) => url_ok(url@) && req@.method == method && req@.url == url@ && req@.body
                    == (match body {
                    Some(b) => Some(b@),
                    None => None::<Seq<char>>,
                }),
                Err(e) => !url_ok(url@) && e@ == UnifiErrorV::Url(url@),
            },
    {
        if url_parses(url.as_str()) {
            Ok(HttpRequest { method, url, body })
        } else {
            Err(UnifiError::Url(url))
        }
    }

    /// The request that lists sites, with the pagination defaults of
    /// offset 0 and limit 25.
    pub fn list_sites_request(&self, offset: Option<i32>, limit: Option<i32>) -> (r: Result<
        HttpRequest,
        UnifiError,
    >)
        ensures
            ({
                let u = spec_sites_url(
                    self@.base_url,
                    spec_opt_i32(offset, 0),
                    spec_opt_i32(limit, 25),
                );
                match r {
                    Ok(req) => url_ok(u) && req@.method == HttpMethod::Get && req@.url == u
                        && req@.body is None,
                    Err(e) => !url_ok(u) && e@ == UnifiErrorV::Url(u),
                }
            }),
    {
        let o = match offset {
            Some(v) => v,
            None => 0,
        };
        let l = match limit {
            Some(v) => v,
            None => 25,
        };
        let mut url = String::new();
        url.append(self.base_url.as_str());
        url.append("/v1/sites");
        append_pagination(&mut url, o, l);
        assert(url@ =~= spec_sites_url(self@.base_url, o, l));
        Self::finish(url, HttpMethod::Get, None)
    }

    /// The request that lists a site's devices.
    pub fn list_devices_request(
        &self,
        site_id: Uuid,
        offset: Option<i32>,
        limit: Option<i32>,
    ) -> (r: Result<HttpRequest, UnifiError>)
        ensures
            ({
                let u = spec_devices_url(
                    self@.base_url,
                    site_id,
                    spec_opt_i32(offset, 0),
                    spec_opt_i32(limit, 25),
                );
                match r {
                    Ok(req) => url_ok(u) && req@.method == HttpMethod::Get && req@.url == u
                        && req@.body is None,
                    Err(e) => !url_ok(u) && e@ == UnifiErrorV::Url(u),
                }
            }),
    {
        let o = match offset {
            Some(v) => v,
            None => 0,
        };
        let l = match limit {
            Some(v) => v,
            None => 25,
        };
        let mut url = self.site_prefix(&site_id);
        url.append("/devices");
        append_pagination(&mut url, o, l);
        assert(url@ =~= spec_devices_url(self@.base_url, site_id, o, l));
        Self::finish(url, HttpMethod::Get, None)
    }

    /// The request that reads one device's details.
    pub fn get_device_details_request(&self, site_id: Uuid, device_id: Uuid) -> (r: Result<
        HttpRequest,
        UnifiError,
    >)
        ensures
            ({
                let u = spec_device_details_url(self@.base_url, site_id, device_id);
                match r {
                    Ok(req) => url_ok(u) && req@.method == HttpMethod::Get && req@.url == u
                        && req@.body is None,
                    Err(e) => !url_ok(u) && e@ == UnifiErrorV::Url(u),
                }
            }),
    {
        let mut url = self.site_prefix(&site_id);
        url.append("/devices/");
        let h = device_id.to_hyphenated();
        url.append(h.as_str());
        assert(url@ =~= spec_device_details_url(self@.base_url, site_id, device_id));
        Self::finish(url, HttpMethod::Get, None)
    }

    /// The request that reads one device's latest statistics.
    pub fn get_device_statistics_request(&self, site_id: Uuid, device_id: Uuid) -> (r: Result<
        HttpRequest,
        UnifiError,
    >)
        ensures
            ({
                let u = spec_device_statistics_url(self@.base_url, site_id, device_id);
                match r {
                    Ok(req) => url_ok(u) && req@.method == HttpMethod::Get && req@.url == u
                        && req@.body is None,
                    Err(e) => !url_ok(u) && e@ == UnifiErrorV::Url(u),
                }
            }),
    {
        let mut url = self.site_prefix(&site_id);
        url.append("/devices/");
        let h = device_id.to_hyphenated();
        url.append(h.as_str());
        url.append("/statistics/latest");
        assert(url@ =~= spec_device_statistics_url(self@.base_url, site_id, device_id));
        Self::finish(url, HttpMethod::Get, None)
    }

    /// The request that restarts a device: a POST of `{"action":"RESTART"}`.
    pub fn restart_device_request(&self, site_id: Uuid, device_id: Uuid) -> (r: Result<
        HttpRequest,
        UnifiError,
    >)
        ensures
            ({
                let u = spec_device_actions_url(self@.base_url, site_id, device_id);
                match r {
                    Ok(req) => url_ok(u) && req@.method == HttpMethod::Post && req@.url == u
                        && req@.body == Some("{\"action\":\"RESTART\"}"@),
                    Err(e) => !url_ok(u) && e@ == UnifiErrorV::Url(u),
                }
            }),
    {
        let mut url = self.site_prefix(&site_id);
        url.append("/devices/");
        let h = device_id.to_hyphenated();
        url.append(h.as_str());
        url.append("/actions");
        assert(url@ =~= spec_device_actions_url(self@.base_url, site_id, device_id));
        Self::finish(url, HttpMethod::Post, Some("{\"action\":\"RESTART\"}".to_owned()))
    }

    /// The request that reads the application information record.
    pub fn get_info_request(&self) -> (r: Result<HttpRequest, UnifiError>)
        ensures
            ({
                let u = spec_info_url(self@.base_url);
                match r {
                    Ok(req) => url_ok(u) && req@.method == HttpMethod::Get && req@.url == u
                        && req@.body is None,
                    Err(e) => !url_ok(u) && e@ == UnifiErrorV::Url(u),
                }
            }),
    {
        let mut url = String::new();
        url.append(self.base_url.as_str());
        url.append("/v1/info");
        assert(url@ =~= spec_info_url(self@.base_url));
        Self::finish(url, HttpMethod::Get, None)
    }

    /// The request that lists a site's clients.
    pub fn list_clients_request(
        &self,
        site_id: Uuid,
        offset: Option<i32>,
        limit: Option<i32>,
    ) -> (r: Result<HttpRequest, UnifiError>)
        ensures
            ({
                let u = spec_clients_url(
                    self@.base_url,
                    site_id,
                    spec_opt_i32(offset, 0),
                    spec_opt_i32(limit, 25),
                );
                match r {
                    Ok(req) => url_ok(u) && req@.method == HttpMethod::Get && req@.url == u
                        && req@.body is None,
                    Err(e) => !url_ok(u) && e@ == UnifiErrorV::Url(u),
                }
            }),
    {
        let o = match offset {
            Some(v) => v,
            None => 0,
        };
        let l = match limit {
            Some(v) => v,
            None => 25,
        };
        let mut url = self.site_prefix(&site_id);
        url.append("/clients");
        append_pagination(&mut url, o, l);
        assert(url@ =~= spec_clients_url(self@.base_url, site_id, o, l));
        Self::finish(url, HttpMethod::Get, None)
    }
}

/// A status the transport reports as success.
pub open spec fn spec_success_status(status: u16) -> bool {
    200 <= status < 300
}

/// What a non-success response fails with: the server's error envelope
/// where the body holds one, and a deserialization error otherwise.
pub open spec fn spec_non_success_error(body: Seq<char>) -> UnifiErrorV {
    match json_of(body) {
        Some(j) => match spec_decode_error_response(j) {
            Some(e) => UnifiErrorV::Api { status_code: e.status_code, message: e.message },
            None => UnifiErrorV::Deserialization("response body does not have the expected shape"@),
        },
        None => UnifiErrorV::Deserialization("response body is not valid JSON"@),
    }
}

/// The response contract every endpoint shares: on a success status the
/// body must decode with `dec`; on any other status the body must decode
/// as the error envelope, whose status code and message the failure then
/// carries.
pub open spec fn spec_api_response<TV>(
    status: u16,
    body: Seq<char>,
    dec: spec_fn(Jv) -> Option<TV>,
) -> Result<TV, UnifiErrorV> {
    if spec_success_status(status) {
        match json_of(body) {
            Some(j) => match dec(j) {
                Some(v) => Ok(v),
                None => Err(
                    UnifiErrorV::Deserialization("response body does not have the expected shape"@),
                ),
            },
            None => Err(UnifiErrorV::Deserialization("response body is not valid JSON"@)),
        }
    } else {
        Err(spec_non_success_error(body))
    }
}

/// A non-success status never yields a success; and where its body does
/// not decode as the error envelope, the failure is a deserialization
/// error, whatever the endpoint.
pub proof fn lemma_non_success_is_error<TV>(
    status: u16,
    body: Seq<char>,
    dec: spec_fn(Jv) -> Option<TV>,
)
    requires
        !spec_success_status(status),
    ensures
        spec_api_response(status, body, dec) is Err,
        (json_of(body) matches Some(j) ==> spec_decode_error_response(j) is None)
            ==> spec_non_success_error(body) is Deserialization && spec_api_response(
            status,
            body,
            dec,
        ) == Err::<TV, UnifiErrorV>(spec_non_success_error(body)),
{
}

/// Maps a non-success response to its error.
fn non_success_error(body: &str) -> (e: UnifiError)
    ensures
        e@ == spec_non_success_error(body@),
{
    match parse_json(body) {
        Some(j) => match decode_error_response(&j) {
            Some(er) => UnifiError::Api { status_code: er.status_code, message: er.message },
            None => UnifiError::Deserialization(
                "response body does not have the expected shape".to_owned(),
            ),
        },
        None => UnifiError::Deserialization("response body is not valid JSON".to_owned()),
    }
}

/// Interprets a response to the site list request.
pub fn list_sites_response(status: u16, body: &str) -> (r: Result<Page<SiteOverview>, UnifiError>)
    ensures
        ({
            let m = spec_api_response(status, body@, |j: Jv| spec_decode_site_page(j));
            match r {
                Ok(v) => m == Ok::<_, UnifiErrorV>(v@),
                Err(e) => m == Err::<PageV<SiteOverviewV>, _>(e@),
            }
        }),
{
    if 200 <= status && status < 300 {
        match parse_json(body) {
            Some(j) => match decode_site_page(&j) {
                Some(v) => Ok(v),
                None => Err(
                    UnifiError::Deserialization(
                        "response body does not have the expected shape".to_owned(),
                    ),
                ),
            },
            None => Err(UnifiError::Deserialization("response body is not valid JSON".to_owned())),
        }
    } else {
        Err(non_success_error(body))
    }
}

/// Interprets a response to the device list request.
pub fn list_devices_response(status: u16, body: &str) -> (r: Result<
    Page<DeviceOverview>,
    UnifiError,
>)
    ensures
        ({
            let m = spec_api_response(status, body@, |j: Jv| spec_decode_device_page(j));
            match r {
                Ok(v) => m == Ok::<_, UnifiErrorV>(v@),
                Err(e) => m == Err::<PageV<DeviceOverviewV>, _>(e@),
            }
        }),
{
    if 200 <= status && status < 300 {
        match parse_json(body) {
            Some(j) => match decode_device_page(&j) {
                Some(v) => Ok(v),
                None => Err(
                    UnifiError::Deserialization(
                        "response body does not have the expected shape".to_owned(),
                    ),
                ),
            },
            None => Err(UnifiError::Deserialization("response body is not valid JSON".to_owned())),
        }
    } else {
        Err(non_success_error(body))
    }
}

/// Interprets a response to the device details request.
pub fn get_device_details_response(status: u16, body: &str) -> (r: Result<
    DeviceDetails,
    UnifiError,
>)
    ensures
        ({
            let m = spec_api_response(status, body@, |j: Jv| spec_decode_device_details(j));
            match r {
                Ok(v) => m == Ok::<_, UnifiErrorV>(v@),
                Err(e) => m == Err::<DeviceDetailsV, _>(e@),
            }
        }),
{
    if 200 <= status && status < 300 {
        match parse_json(body) {
            Some(j) => match decode_device_details(&j) {
                Some(v) => Ok(v),
                None => Err(
                    UnifiError::Deserialization(
                        "response body does not have the expected shape".to_owned(),
                    ),
                ),
            },
            None => Err(UnifiError::Deserialization("response body is not valid JSON".to_owned())),
        }
    } else {
        Err(non_success_error(body))
    }
}

/// Interprets a response to the device statistics request.
pub fn get_device_statistics_response(status: u16, body: &str) -> (r: Result<
    DeviceStatistics,
    UnifiError,
>)
    ensures
        ({
            let m = spec_api_response(status, body@, |j: Jv| spec_decode_device_statistics(j));
            match r {
                Ok(v) => m == Ok::<_, UnifiErrorV>(v@),
                Err(e) => m == Err::<DeviceStatisticsV, _>(e@),
            }
        }),
{
    if 200 <= status && status < 300 {
        match parse_json(body) {
            Some(j) => match decode_device_statistics(&j) {
                Some(v) => Ok(v),
                None => Err(
                    UnifiError::Deserialization(
                        "response body does not have the expected shape".to_owned(),
                    ),
                ),
            },
            None => Err(UnifiError::Deserialization("response body is not valid JSON".to_owned())),
        }
    } else {
        Err(non_success_error(body))
    }
}

/// What the restart action yields: success is the absence of an error,
/// and the body is read only on a non-success status.
pub open spec fn spec_restart_response(status: u16, body: Seq<char>) -> Result<(), UnifiErrorV> {
    if spec_success_status(status) {
        Ok(())
    } else {
        Err(spec_non_success_error(body))
    }
}

/// Interprets a response to the restart action.
pub fn restart_device_response(status: u16, body: &str) -> (r: Result<(), UnifiError>)
    ensures
        ({
            let m = spec_restart_response(status, body@);
            match r {
                Ok(v) => m == Ok::<(), UnifiErrorV>(()),
                Err(e) => m == Err::<(), _>(e@),
            }
        }),
{
    if 200 <= status && status < 300 {
        Ok(())
    } else {
        Err(non_success_error(body))
    }
}

/// Interprets a response to the application information request.
pub fn get_info_response(status: u16, body: &str) -> (r: Result<ApplicationInfo, UnifiError>)
    ensures
        ({
            let m = spec_api_response(status, body@, |j: Jv| spec_decode_application_info(j));
            match r {
                Ok(v) => m == Ok::<_, UnifiErrorV>(v@),
                Err(e) => m == Err::<ApplicationInfoV, _>(e@),
            }
        }),
{
    if 200 <= status && status < 300 {
        match parse_json(body) {
            Some(j) => match decode_application_info(&j) {
                Some(v) => Ok(v),
                None => Err(
                    UnifiError::Deserialization(
                        "response body does not have the expected shape".to_owned(),
                    ),
                ),
            },
            None => Err(UnifiError::Deserialization("response body is not valid JSON".to_owned())),
        }
    } else {
        Err(non_success_error(body))
    }
}

/// Interprets a response to the client list request.
pub fn list_clients_response(status: u16, body: &str) -> (r: Result<
    Page<ClientOverview>,
    UnifiError,
>)
    ensures
        ({
            let m = spec_api_response(status, body@, |j: Jv| spec_decode_client_page(j));
            match r {
                Ok(v) => m == Ok::<_, UnifiErrorV>(v@),
                Err(e) => m == Err::<PageV<ClientOverviewV>, _>(e@),
            }
        }),
{
    if 200 <= status && status < 300 {
        match parse_json(body) {
            Some(j) => match decode_client_page(&j) {
                Some(v) => Ok(v),
                None => Err(
                    UnifiError::Deserialization(
                        "response body does not have the expected shape".to_owned(),
                    ),
                ),
            },
            None => Err(UnifiError::Deserialization("response body is not valid JSON".to_owned())),
        }
    } else {
        Err(non_success_error(body))
    }
}

} // verus!
