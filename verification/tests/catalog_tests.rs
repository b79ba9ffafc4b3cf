use telemetry_core::catalog::available_sensors;
use telemetry_core::catalog::catalog_contains;
use telemetry_core::sensor_meta::generate_isa95_hierarchy;
use telemetry_core::sensor_meta::generate_opcua_node;
use telemetry_core::sensor_meta::generate_opcua_status_code;
use telemetry_core::sensor_meta::generate_sparkplug_topic;
use telemetry_core::sensor_meta::get_ucum_unit;
use telemetry_core::sensor_meta::DataQuality;
use telemetry_core::sensor_meta::OpcUaStatusCode;
use telemetry_core::sensors::display_key;
use telemetry_core::sensors::endpoint_descriptors;
use telemetry_core::sensors::sensor_request_outcome;
use telemetry_core::sensors::SensorOutcome;
use telemetry_core::strutil::client_ip;
use telemetry_core::strutil::should_record;
use telemetry_core::strutil::trim_ascii;

#[test]
fn test_available_sensors_listing() {
    let sensors = available_sensors();
    assert_eq!(sensors.len(), 14);
    assert_eq!(sensors[0], "temperature");
    assert!(sensors.contains(&"proximity-sensor".to_string()));
    assert!(sensors.contains(&"amr".to_string()));
}

#[test]
fn test_catalog_membership() {
    assert!(catalog_contains("temperature"));
    assert!(catalog_contains("gas-detector"));
    assert!(!catalog_contains("bogus"));
    assert!(!catalog_contains(""));
    assert!(!catalog_contains("Temperature"));
}

#[test]
fn test_endpoint_descriptors_shape() {
    let endpoints = endpoint_descriptors();
    assert_eq!(endpoints.len(), 14);
    let first = &endpoints[0];
    assert_eq!(first.name, "temperature");
    assert_eq!(first.url, "/api/v1/sensors/temperature");
    assert_eq!(first.method, "GET");
    assert_eq!(first.description, "Returns simulated temperature IoT sensor data");
    let oil = endpoints.iter().find(|e| e.name == "oil-level").expect("oil-level entry");
    assert_eq!(oil.url, "/api/v1/sensors/oil-level");
    assert_eq!(oil.description, "Returns simulated oil level IoT sensor data");
}

#[test]
fn test_display_key_replaces_dashes() {
    assert_eq!(display_key("oil-level"), "oil level");
    assert_eq!(display_key("temperature"), "temperature");
    assert_eq!(display_key("a-b-c"), "a b c");
}

#[test]
fn test_unknown_key_always_refused() {
    // An unknown key is always answered 404, whatever the failure draw:
    // never a 200, and never the simulated 500 either.
    let refused = sensor_request_outcome("unknown-key", false);
    assert_eq!(refused, SensorOutcome::NotFound);
    assert_eq!(refused.status_code(), 404);
    let refused_under_draw = sensor_request_outcome("unknown-key", true);
    assert_eq!(refused_under_draw, SensorOutcome::NotFound);
    assert_eq!(refused_under_draw.status_code(), 404);
}

#[test]
fn test_known_key_served_or_unavailable() {
    let served = sensor_request_outcome("temperature", false);
    assert_eq!(served, SensorOutcome::Served);
    assert_eq!(served.status_code(), 200);
    let failed = sensor_request_outcome("temperature", true);
    assert_eq!(failed, SensorOutcome::Unavailable);
    assert_eq!(failed.status_code(), 500);
}

#[test]
fn test_ucum_unit_mapping() {
    let celsius = get_ucum_unit("°C");
    assert_eq!(celsius.code, "Cel");
    assert_eq!(celsius.display, "°C");
    let dust = get_ucum_unit("µg/m³");
    assert_eq!(dust.code, "ug/m3");
    assert_eq!(dust.display, "µg/m³");
    let rpm = get_ucum_unit("RPM");
    assert_eq!(rpm.code, "rpm");
    let unknown = get_ucum_unit("XYZ");
    assert_eq!(unknown.code, "XYZ");
    assert_eq!(unknown.display, "XYZ");
}

#[test]
fn test_isa95_hierarchy_fields() {
    let eq = generate_isa95_hierarchy("TEMP-001", "Production-Line-1", "Factory-Floor-A");
    assert_eq!(eq.site, "Thailand-Plant-01");
    assert_eq!(eq.area, "Factory-Floor-A");
    assert_eq!(eq.line, "Production-Line-1");
    assert_eq!(eq.unit, "Production-Line-1-Unit");
    assert_eq!(eq.equipment, "TEMP-001");
}

#[test]
fn test_opcua_node_fields() {
    let node = generate_opcua_node("TEMP-001", "Temperature Sensor");
    assert_eq!(node.node_id, "ns=2;s=TEMP-001");
    assert_eq!(node.browse_name, "2:TEMP-001");
    assert_eq!(node.display_name, "Temperature Sensor");
    assert_eq!(node.namespace_index, 2);
}

#[test]
fn test_sparkplug_topic_fields() {
    let topic = generate_sparkplug_topic("Plant-01", "TEMP-001");
    assert_eq!(topic.version, "spBv1.0");
    assert_eq!(topic.group_id, "Plant-01");
    assert_eq!(topic.message_type, "DDATA");
    assert_eq!(topic.edge_node_id, "Edge-Node-01");
    assert_eq!(topic.device_id, "TEMP-001");
}

#[test]
fn test_status_code_mapping() {
    assert_eq!(generate_opcua_status_code(&DataQuality::Good), OpcUaStatusCode::Good);
    assert_eq!(
        generate_opcua_status_code(&DataQuality::GoodUncertain),
        OpcUaStatusCode::GoodUncertain
    );
    assert_eq!(
        generate_opcua_status_code(&DataQuality::Uncertain),
        OpcUaStatusCode::UncertainInitialValue
    );
    assert_eq!(generate_opcua_status_code(&DataQuality::Bad), OpcUaStatusCode::BadSensorFailure);
}

#[test]
fn test_should_record_skips_internal_paths() {
    assert!(should_record("/api/v1/sensors/temperature"));
    assert!(should_record("/api/v1/endpoints"));
    assert!(should_record("/api/v1/sensors"));
    assert!(!should_record("/api/v1/access-log"));
    assert!(!should_record("/api/v1/access-log?limit=10"));
    assert!(!should_record("/api/v1/stats"));
    assert!(!should_record("/events"));
    assert!(!should_record("/ws/sensors"));
}

#[test]
fn test_client_ip_prefers_forwarded() {
    assert_eq!(
        client_ip(Some(" 10.0.0.1 , 10.0.0.2"), "192.168.1.1".to_string()),
        "10.0.0.1"
    );
    assert_eq!(client_ip(Some("10.0.0.9"), "192.168.1.1".to_string()), "10.0.0.9");
    assert_eq!(client_ip(None, "192.168.1.1".to_string()), "192.168.1.1");
}

#[test]
fn test_trim_ascii() {
    assert_eq!(trim_ascii("  a b \t"), "a b");
    assert_eq!(trim_ascii("abc"), "abc");
    assert_eq!(trim_ascii("   "), "");
    assert_eq!(trim_ascii(""), "");
}
