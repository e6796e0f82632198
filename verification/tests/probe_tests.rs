use backend_supervisor::{ready_from_status, BackendProcess};

#[test]
fn probe_with_no_listener_is_false() {
    // Nothing listens on port 1 (binding it needs privileges), so the
    // probe cannot reach a backend and the result is a plain `false`,
    // not an error.
    let s = BackendProcess::register_backend(1, Some(1)).unwrap();
    assert_eq!(s.is_backend_ready(), Ok(false));
}

#[test]
fn probe_never_errors() {
    // Whatever the network does, the error arm is never produced.
    let s = BackendProcess::register_backend(65535, Some(1)).unwrap();
    assert!(s.is_backend_ready().is_ok());
}

#[test]
fn lifecycle_scenario() {
    // The supervisor's life, step by step: registration after a
    // successful spawn, the address query, the readiness decision as
    // the backend comes up and answers 200, and a shutdown that
    // releases the handle exactly once.
    let port: u16 = 52341;
    let mut s = BackendProcess::register_backend(port, Some(314)).unwrap();
    assert_eq!(s.get_api_url(), format!("http://localhost:{}/api", port));
    assert_eq!(s.health_url(), format!("http://localhost:{}/actuator/health", port));

    // Probe outcomes as the backend starts: connection refused while
    // it boots, 503 while its health endpoint warms up, then 200.
    assert!(!ready_from_status(None));
    assert!(!ready_from_status(Some(503)));
    assert!(ready_from_status(Some(200)));

    assert_eq!(s.shutdown(), Some(314));
    assert_eq!(s.shutdown(), None);
    assert_eq!(s.get_api_url(), format!("http://localhost:{}/api", port));
}
