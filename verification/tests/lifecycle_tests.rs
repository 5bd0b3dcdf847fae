use moisture_exporter::server::ExporterState;
use moisture_exporter::shutdown::ShutdownCoordinator;

#[test]
fn shutdown_signal_is_one_shot() {
    let mut coord = ShutdownCoordinator::new();
    assert!(coord.on_interrupt());
    assert!(!coord.on_interrupt());
    assert!(!coord.on_interrupt());
}

#[test]
fn no_connections_accepted_after_shutdown() {
    let mut server = ExporterState::start();
    assert!(server.on_connection());
    server.on_request_done();
    server.on_shutdown();
    assert!(!server.on_connection());
    assert!(!server.on_connection());
    assert!(server.may_exit());
}

#[test]
fn scenario_interrupt_mid_request() {
    let mut server = ExporterState::start();
    // A request is in flight when the interrupt arrives.
    assert!(server.on_connection());
    let mut coord = ShutdownCoordinator::new();
    assert!(coord.on_interrupt());
    server.on_shutdown();
    // New connection attempts are refused while the in-flight request
    // is allowed to finish.
    assert!(!server.on_connection());
    assert!(!server.may_exit());
    server.on_request_done();
    assert!(server.may_exit());
}
