use webview_bridge::port::{setup_port, u16_to_string, PortPolicy, ProbeOutcome};

#[test]
fn check_setup_port() {
    let (port, _valid) = setup_port(&PortPolicy::Random, &ProbeOutcome::Available(4096));
    assert!(!port.is_empty());
    let (port, _valid) = setup_port(&PortPolicy::Fixed(8080), &ProbeOutcome::Unavailable);
    assert!(!port.is_empty());
}

#[test]
fn fixed_port_free_is_valid() {
    let (port, valid) = setup_port(&PortPolicy::Fixed(8080), &ProbeOutcome::Available(8080));
    assert_eq!(port, "8080");
    assert!(valid);
}

#[test]
fn fixed_port_bound_is_invalid() {
    let (port, valid) = setup_port(&PortPolicy::Fixed(8080), &ProbeOutcome::Unavailable);
    assert_eq!(port, "8080");
    assert!(!valid);
}

#[test]
fn random_port_found_is_valid() {
    let (port, valid) = setup_port(&PortPolicy::Random, &ProbeOutcome::Available(49152));
    assert_eq!(port, "49152");
    assert!(valid);
}

#[test]
fn random_port_missing_is_sentinel() {
    let (port, valid) = setup_port(&PortPolicy::Random, &ProbeOutcome::Unavailable);
    assert_eq!(port, "0");
    assert!(!valid);
}

#[test]
fn port_rendering_edges() {
    assert_eq!(u16_to_string(0), "0");
    assert_eq!(u16_to_string(9), "9");
    assert_eq!(u16_to_string(10), "10");
    assert_eq!(u16_to_string(8080), "8080");
    assert_eq!(u16_to_string(65535), "65535");
}
