use unifi_rs::{
    band_of, band_text, decode_client_overview, decode_frequency_band, encode_frequency_band_num,
    encode_frequency_band_str, get_device_details_response, get_device_statistics_response,
    list_clients_response, restart_device_response, ClientOverview, FrequencyBand, JsonValue,
    UnifiError, Uuid,
};

fn wired_client_page() -> String {
    let wired_json = r#"{
            "type": "WIRED",
            "id": "123e4567-e89b-12d3-a456-426614174000",
            "name": "Desktop PC",
            "connectedAt": "2025-01-18T12:00:00Z",
            "ipAddress": "192.168.1.100",
            "macAddress": "00:11:22:33:44:55",
            "uplinkDeviceId": "123e4567-e89b-12d3-a456-426614174001"
        }"#;
    format!(
        r#"{{"offset":0,"limit":25,"count":1,"totalCount":1,"data":[{}]}}"#,
        wired_json
    )
}

#[test]
fn test_client_types() {
    let page = list_clients_response(200, &wired_client_page()).unwrap();
    match &page.data[0] {
        ClientOverview::Wired(c) => {
            assert_eq!(c.mac_address, "00:11:22:33:44:55");
            assert_eq!(c.base.name, Some("Desktop PC".to_string()));
        }
        _ => panic!("Expected Wired client"),
    }
}

#[test]
fn test_teleport_client_without_link_fields() {
    let body = r#"{"offset":0,"limit":25,"count":1,"totalCount":1,"data":[{
        "type": "TELEPORT",
        "id": "123e4567-e89b-12d3-a456-426614174000",
        "connectedAt": "2025-01-18T12:00:00Z"
    }]}"#;
    let page = list_clients_response(200, body).unwrap();
    match &page.data[0] {
        ClientOverview::Teleport(c) => {
            assert!(c.base.name.is_none());
            assert!(c.base.ip_address.is_none());
        }
        _ => panic!("Expected Teleport client"),
    }
}

#[test]
fn test_client_with_unknown_tag_is_rejected() {
    let body = r#"{"offset":0,"limit":25,"count":1,"totalCount":1,"data":[{
        "type": "CARRIER_PIGEON",
        "id": "123e4567-e89b-12d3-a456-426614174000",
        "connectedAt": "2025-01-18T12:00:00Z"
    }]}"#;
    match list_clients_response(200, body) {
        Err(UnifiError::Deserialization(_)) => {}
        _ => panic!("Expected a deserialization error"),
    }
}

#[test]
fn test_decode_client_overview_from_values() {
    let j = JsonValue::Obj(vec![
        ("type".to_string(), JsonValue::Str("VPN".to_string())),
        (
            "id".to_string(),
            JsonValue::Str("123e4567-e89b-12d3-a456-426614174000".to_string()),
        ),
        (
            "connectedAt".to_string(),
            JsonValue::Str("2025-01-18T12:00:00Z".to_string()),
        ),
        ("ipAddress".to_string(), JsonValue::Null),
    ]);
    match decode_client_overview(&j) {
        Some(ClientOverview::Vpn(c)) => {
            assert_eq!(
                c.base.id,
                Uuid::parse("123e4567-e89b-12d3-a456-426614174000").unwrap()
            );
            assert!(c.base.ip_address.is_none());
        }
        _ => panic!("Expected VPN client"),
    }
}

fn device_details_json() -> &'static str {
    r#"{
        "id": "123e4567-e89b-12d3-a456-426614174000",
        "name": "Test Device",
        "model": "UHDIW",
        "supported": true,
        "macAddress": "00:11:22:33:44:55",
        "ipAddress": "192.168.1.1",
        "state": "ONLINE",
        "firmwareVersion": "6.6.55",
        "firmwareUpdatable": true,
        "adoptedAt": "2025-01-18T12:00:00Z",
        "provisionedAt": "2025-01-18T12:00:00Z",
        "configurationId": "test123",
        "uplink": {
            "deviceId": "123e4567-e89b-12d3-a456-426614174001"
        },
        "features": {},
        "interfaces": {
            "ports": [],
            "radios": []
        }
    }"#
}

#[test]
fn test_device_details_deserialization() {
    let details = get_device_details_response(200, device_details_json()).unwrap();
    assert_eq!(details.name, "Test Device");
    assert_eq!(details.model, "UHDIW");
    assert_eq!(details.firmware_version, "6.6.55");
}

#[test]
fn test_device_details_empty_sections_decode_to_empty() {
    let details = get_device_details_response(200, device_details_json()).unwrap();
    let features = details.features.expect("features should be present");
    assert!(features.switching.is_none());
    assert!(features.access_point.is_none());
    let interfaces = details.interfaces.expect("interfaces should be present");
    assert!(interfaces.ports.is_empty());
    assert!(interfaces.radios.is_empty());
    let uplink = details.uplink.expect("uplink should be present");
    assert_eq!(
        uplink.device_id,
        Uuid::parse("123e4567-e89b-12d3-a456-426614174001").unwrap()
    );
}

#[test]
fn test_device_details_missing_optional_sections() {
    let body = r#"{
        "id": "123e4567-e89b-12d3-a456-426614174000",
        "name": "Bare Device",
        "model": "USW",
        "supported": false,
        "macAddress": "00:11:22:33:44:66",
        "ipAddress": "192.168.1.2",
        "state": "OFFLINE",
        "firmwareVersion": "1.0.0",
        "firmwareUpdatable": false,
        "configurationId": "cfg"
    }"#;
    let details = get_device_details_response(200, body).unwrap();
    assert!(details.adopted_at.is_none());
    assert!(details.provisioned_at.is_none());
    assert!(details.uplink.is_none());
    assert!(details.features.is_none());
    assert!(details.interfaces.is_none());
}

#[test]
fn test_error_response_deserialization() {
    let error_json = r#"{
            "statusCode": 401,
            "message": "Unauthorized access"
        }"#;
    match restart_device_response(401, error_json) {
        Err(UnifiError::Api { status_code, message }) => {
            assert_eq!(status_code, 401);
            assert_eq!(message, "Unauthorized access");
        }
        _ => panic!("Expected an API error"),
    }
}

#[test]
fn test_device_statistics_deserialization() {
    let stats_json = r#"{
        "uptimeSec": 737201,
        "lastHeartbeatAt": "2025-01-18T20:26:02Z",
        "nextHeartbeatAt": "2025-01-18T20:26:07Z",
        "loadAverage1Min": 1.65,
        "loadAverage5Min": 1.28,
        "loadAverage15Min": 1.3,
        "cpuUtilizationPct": 30.8,
        "memoryUtilizationPct": 74.2,
        "uplink": {
            "txRateBps": 309720,
            "rxRateBps": 32288
        },
        "interfaces": {
            "radios": [
                {
                    "frequencyGHz": 2.4,
                    "txRetriesPct": 14.3
                },
                {
                    "frequencyGHz": 5,
                    "txRetriesPct": 0
                }
            ]
        }
    }"#;

    let stats = match get_device_statistics_response(200, stats_json) {
        Ok(stats) => stats,
        Err(e) => {
            panic!("Failed to deserialize JSON: {:?}", e);
        }
    };

    assert_eq!(stats.uptime_sec, 737201, "uptime_sec does not match");
    assert_eq!(
        stats.cpu_utilization_pct,
        Some("30.8".to_string()),
        "cpu_utilization_pct does not match"
    );
    assert!(
        stats.memory_utilization_pct.is_some(),
        "memory_utilization_pct is None"
    );
    assert!(stats.uplink.is_some(), "uplink is None");
    assert!(stats.interfaces.is_some(), "interfaces is None");

    let uplink = stats.uplink.as_ref().unwrap();
    assert_eq!(uplink.tx_rate_bps, 309720);
    assert_eq!(uplink.rx_rate_bps, 32288);

    let interfaces = stats.interfaces.as_ref().unwrap();
    assert!(!interfaces.radios.is_empty(), "radios is empty");
    assert_eq!(interfaces.radios.len(), 2, "radios length does not match");

    let radio_0 = &interfaces.radios[0];
    assert!(
        radio_0.frequency_ghz.is_some(),
        "radio_0 frequency_ghz is None"
    );
    assert_eq!(radio_0.frequency_ghz, Some(FrequencyBand::Band2_4GHz));
    assert_eq!(radio_0.tx_retries_pct, Some("14.3".to_string()));

    let radio_1 = &interfaces.radios[1];
    assert!(
        radio_1.frequency_ghz.is_some(),
        "radio_1 frequency_ghz is None"
    );
    assert_eq!(radio_1.frequency_ghz, Some(FrequencyBand::Band5GHz));
}

#[test]
fn test_timestamp_decoding() {
    let details = get_device_details_response(200, device_details_json()).unwrap();
    let adopted = details.adopted_at.expect("adoptedAt should be present");
    assert_eq!(adopted.secs, 1737201600);
    assert_eq!(adopted.nanos, 0);

    let bad = r#"{
        "id": "123e4567-e89b-12d3-a456-426614174000",
        "name": "Test Device",
        "model": "UHDIW",
        "supported": true,
        "macAddress": "00:11:22:33:44:55",
        "ipAddress": "192.168.1.1",
        "state": "ONLINE",
        "firmwareVersion": "6.6.55",
        "firmwareUpdatable": true,
        "adoptedAt": "not-a-timestamp",
        "configurationId": "test123"
    }"#;
    match get_device_details_response(200, bad) {
        Err(UnifiError::Deserialization(_)) => {}
        _ => panic!("Expected a deserialization error"),
    }
}

#[test]
fn test_frequency_band_round_trip() {
    let bands = [
        FrequencyBand::Band2_4GHz,
        FrequencyBand::Band5GHz,
        FrequencyBand::Band6GHz,
        FrequencyBand::Band60GHz,
    ];
    for band in bands {
        let as_str = encode_frequency_band_str(band);
        assert_eq!(decode_frequency_band(&as_str), Some(band));
        let as_num = encode_frequency_band_num(band);
        assert_eq!(decode_frequency_band(&as_num), Some(band));
    }
    assert_eq!(band_text(FrequencyBand::Band2_4GHz), "2.4");
    assert_eq!(band_of("60"), Some(FrequencyBand::Band60GHz));
}

#[test]
fn test_frequency_band_rejects_other_literals() {
    assert_eq!(band_of("7"), None);
    assert_eq!(band_of("2.5"), None);
    assert_eq!(band_of("5.0"), None);
    assert_eq!(band_of(""), None);
    assert_eq!(decode_frequency_band(&JsonValue::Bool(true)), None);
    assert_eq!(decode_frequency_band(&JsonValue::Null), None);
}

#[test]
fn test_uuid_parse_and_format() {
    let id = Uuid::parse("123e4567-e89b-12d3-a456-426614174000").unwrap();
    assert_eq!(id.to_hyphenated(), "123e4567-e89b-12d3-a456-426614174000");
    let upper = Uuid::parse("123E4567-E89B-12D3-A456-426614174000").unwrap();
    assert_eq!(id, upper);
    let simple = Uuid::parse("123e4567e89b12d3a456426614174000").unwrap();
    assert_eq!(id, simple);
    assert!(Uuid::parse("123e4567-e89b-12d3-a456-42661417400").is_none());
    assert!(Uuid::parse("123e4567-e89b-12d3-a456-42661417400g").is_none());
    assert!(Uuid::parse("").is_none());
}
