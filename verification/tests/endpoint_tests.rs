use unifi_rs::{
    get_device_details_response, get_device_statistics_response, get_info_response,
    list_clients_response, list_devices_response, list_sites_response, restart_device_response,
    ClientOverview, HttpMethod, UnifiClientBuilder, UnifiError, Uuid,
};

fn test_client() -> unifi_rs::UnifiClient {
    UnifiClientBuilder::new("https://192.168.1.1/proxy/network/integrations")
        .api_key("test-key")
        .verify_ssl(false)
        .build()
        .expect("Failed to create client")
}

const SITE_A: &str = "0d8a4d05-51a4-4254-a6a5-9b9e7a7a7a01";
const DEVICE_A: &str = "1a1b1c1d-0001-4000-8000-000000000001";
const DEVICE_B: &str = "1a1b1c1d-0002-4000-8000-000000000002";

fn device_body(id: &str, name: &str) -> String {
    format!(
        r#"{{"id":"{}","name":"{}","model":"U6","macAddress":"aa:bb:cc:dd:ee:ff",
            "ipAddress":"192.168.1.10","state":"ONLINE","features":["switching"],
            "interfaces":["radios"]}}"#,
        id, name
    )
}

#[test]
fn test_list_sites() {
    let body = format!(
        r#"{{"offset":0,"limit":25,"count":1,"totalCount":1,"data":[
            {{"id":"{}","name":"Default"}}]}}"#,
        SITE_A
    );
    let sites = list_sites_response(200, &body).expect("Failed to list sites");
    assert!(!sites.data.is_empty(), "No sites returned");
    let site = &sites.data[0];
    if let Some(name) = &site.name {
        assert!(!name.is_empty(), "Site name is empty");
    }
    assert_eq!(site.id, Uuid::parse(SITE_A).unwrap());
}

#[test]
fn test_list_sites_accepts_missing_name() {
    let body = format!(
        r#"{{"offset":0,"limit":25,"count":1,"totalCount":1,"data":[{{"id":"{}"}}]}}"#,
        SITE_A
    );
    let sites = list_sites_response(200, &body).expect("Failed to list sites");
    assert!(sites.data[0].name.is_none());
}

#[test]
fn test_list_devices() {
    let body = format!(
        r#"{{"offset":0,"limit":25,"count":2,"totalCount":2,"data":[{},{}]}}"#,
        device_body(DEVICE_A, "ap-1"),
        device_body(DEVICE_B, "ap-2")
    );
    let devices = list_devices_response(200, &body).expect("Failed to list devices");
    assert_eq!(devices.data.len(), 2);
    assert_eq!(devices.data[0].features, vec!["switching".to_string()]);
}

#[test]
fn test_device_details() {
    let body = format!(
        r#"{{"offset":0,"limit":25,"count":1,"totalCount":1,"data":[{}]}}"#,
        device_body(DEVICE_A, "ap-1")
    );
    let devices = list_devices_response(200, &body).expect("Failed to list devices");
    let device = devices.data.first().expect("No devices available");

    let details_body = format!(
        r#"{{"id":"{}","name":"ap-1","model":"U6","supported":true,
            "macAddress":"aa:bb:cc:dd:ee:ff","ipAddress":"192.168.1.10","state":"ONLINE",
            "firmwareVersion":"6.6.55","firmwareUpdatable":false,"configurationId":"cfg"}}"#,
        DEVICE_A
    );
    let details =
        get_device_details_response(200, &details_body).expect("Failed to get device details");
    assert_eq!(details.id, device.id);
    assert_eq!(details.name, device.name);
    assert!(!details.mac_address.is_empty());
}

#[test]
fn test_device_statistics() {
    let body = r#"{"uptimeSec":1000,"lastHeartbeatAt":"2025-01-18T20:26:02Z",
        "nextHeartbeatAt":"2025-01-18T20:26:07Z","cpuUtilizationPct":30.8,
        "memoryUtilizationPct":74.2}"#;
    let stats = get_device_statistics_response(200, body).expect("Failed to get statistics");
    assert!(stats.uptime_sec >= 0);
    if let Some(cpu) = &stats.cpu_utilization_pct {
        let cpu: f64 = cpu.parse().expect("cpu reading should be numeric");
        assert!((0.0..=100.0).contains(&cpu));
    }
    if let Some(mem) = &stats.memory_utilization_pct {
        let mem: f64 = mem.parse().expect("memory reading should be numeric");
        assert!((0.0..=100.0).contains(&mem));
    }
    assert_eq!(stats.last_heartbeat_at.secs, 1737231962);
}

#[test]
fn test_list_clients() {
    let body = format!(
        r#"{{"offset":0,"limit":25,"count":1,"totalCount":1,"data":[
            {{"type":"WIRELESS","id":"{}","connectedAt":"2025-01-18T12:00:00Z",
              "macAddress":"00:11:22:33:44:55","uplinkDeviceId":"{}"}}]}}"#,
        DEVICE_B, DEVICE_A
    );
    let clients = list_clients_response(200, &body).expect("Failed to list clients");
    if let Some(client_overview) = clients.data.first() {
        match client_overview {
            ClientOverview::Wired(c) => {
                assert!(!c.mac_address.is_empty());
            }
            ClientOverview::Wireless(c) => {
                assert!(!c.mac_address.is_empty());
            }
            _ => {}
        }
    }
}

#[test]
fn test_get_info() {
    let info =
        get_info_response(200, r#"{"applicationVersion":"9.0.108"}"#).expect("Failed to get info");
    assert!(!info.application_version.is_empty());
}

#[test]
fn test_pagination() {
    let page1_body = format!(
        r#"{{"offset":0,"limit":1,"count":1,"totalCount":2,"data":[{}]}}"#,
        device_body(DEVICE_A, "ap-1")
    );
    let page1 = list_devices_response(200, &page1_body).expect("Failed to get first page");
    assert!(page1.limit == 1);

    if page1.total_count > 1 {
        let page2_body = format!(
            r#"{{"offset":1,"limit":1,"count":1,"totalCount":2,"data":[{}]}}"#,
            device_body(DEVICE_B, "ap-2")
        );
        let page2 = list_devices_response(200, &page2_body).expect("Failed to get second page");
        if let (Some(dev1), Some(dev2)) = (page1.data.first(), page2.data.first()) {
            assert_ne!(dev1.id, dev2.id, "Pagination returned same device");
        }
    }
}

#[test]
fn test_error_handling() {
    let result = list_sites_response(401, r#"{"statusCode":401,"message":"Invalid API key"}"#);
    match result {
        Err(UnifiError::Api { status_code, .. }) => {
            assert!(status_code >= 400, "Expected error status code");
        }
        _ => panic!("Expected error response"),
    }
}

#[test]
fn test_undecodable_error_body_is_deserialization_error() {
    match list_sites_response(500, "halt and catch fire") {
        Err(UnifiError::Deserialization(_)) => {}
        Ok(_) => panic!("A non-success status must never yield a success"),
        _ => panic!("Expected a deserialization error"),
    }
    match get_info_response(503, r#"{"unexpected":"shape"}"#) {
        Err(UnifiError::Deserialization(_)) => {}
        Ok(_) => panic!("A non-success status must never yield a success"),
        _ => panic!("Expected a deserialization error"),
    }
    match restart_device_response(502, "") {
        Err(UnifiError::Deserialization(_)) => {}
        _ => panic!("Expected a deserialization error"),
    }
}

#[test]
fn test_success_with_undecodable_body_is_deserialization_error() {
    match list_sites_response(200, "not json at all") {
        Err(UnifiError::Deserialization(_)) => {}
        _ => panic!("Expected a deserialization error"),
    }
    match list_sites_response(200, r#"{"offset":0}"#) {
        Err(UnifiError::Deserialization(_)) => {}
        _ => panic!("Expected a deserialization error"),
    }
}

#[test]
fn test_request_urls() {
    let client = test_client();
    let req = client.list_sites_request(None, None).expect("URL should parse");
    assert_eq!(req.method, HttpMethod::Get);
    assert_eq!(
        req.url,
        "https://192.168.1.1/proxy/network/integrations/v1/sites?offset=0&limit=25"
    );
    assert!(req.body.is_none());

    let site = Uuid::parse(SITE_A).unwrap();
    let device = Uuid::parse(DEVICE_A).unwrap();
    let req = client
        .list_devices_request(site, Some(5), Some(-1))
        .expect("URL should parse");
    assert_eq!(
        req.url,
        format!(
            "https://192.168.1.1/proxy/network/integrations/v1/sites/{}/devices?offset=5&limit=-1",
            SITE_A
        )
    );

    let req = client
        .get_device_statistics_request(site, device)
        .expect("URL should parse");
    assert_eq!(
        req.url,
        format!(
            "https://192.168.1.1/proxy/network/integrations/v1/sites/{}/devices/{}/statistics/latest",
            SITE_A, DEVICE_A
        )
    );

    let req = client.get_info_request().expect("URL should parse");
    assert_eq!(
        req.url,
        "https://192.168.1.1/proxy/network/integrations/v1/info"
    );

    let bad = UnifiClientBuilder::new("not a url")
        .api_key("k")
        .build()
        .expect("Failed to create client");
    match bad.list_sites_request(None, None) {
        Err(UnifiError::Url(text)) => {
            assert_eq!(text, "not a url/v1/sites?offset=0&limit=25");
        }
        _ => panic!("Expected a malformed-URL error"),
    }
}

#[test]
fn test_restart_request() {
    let client = test_client();
    let site = Uuid::parse(SITE_A).unwrap();
    let device = Uuid::parse(DEVICE_B).unwrap();
    let req = client
        .restart_device_request(site, device)
        .expect("URL should parse");
    assert_eq!(req.method, HttpMethod::Post);
    assert_eq!(req.body, Some(r#"{"action":"RESTART"}"#.to_string()));
    assert_eq!(
        req.url,
        format!(
            "https://192.168.1.1/proxy/network/integrations/v1/sites/{}/devices/{}/actions",
            SITE_A, DEVICE_B
        )
    );
    assert!(restart_device_response(200, "").is_ok());
}

#[test]
fn test_page_counter_bounds() {
    let body = r#"{"offset":0,"limit":25,"count":0,"totalCount":4294967296,"data":[]}"#;
    match list_sites_response(200, body) {
        Err(UnifiError::Deserialization(_)) => {}
        _ => panic!("Expected a deserialization error"),
    }
    let body = r#"{"statusCode":70000,"message":"too big"}"#;
    match restart_device_response(500, body) {
        Err(UnifiError::Deserialization(_)) => {}
        _ => panic!("Expected a deserialization error"),
    }
}
