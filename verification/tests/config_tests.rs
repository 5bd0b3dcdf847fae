use moisture_exporter::config::Config;

#[test]
fn default_configuration_matches_deployment() {
    let config = Config::default();
    assert_eq!(config.device_path, "/dev/ttyACM0");
    assert_eq!(config.baud_rate, 9600);
    assert_eq!(config.read_timeout_ms, 2000);
    assert_eq!(config.metrics_port, 9898);
    assert_eq!(config.metric_name, "moisture");
    assert_eq!(config.metric_help, "Soil Moisture");
}
