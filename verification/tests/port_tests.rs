use yap_host::port::{
    allocate, needs_probe, port_or_default, port_value, port_variable, AllocationError,
    DEFAULT_PORT,
};

#[test]
fn default_port_is_8765() {
    assert_eq!(DEFAULT_PORT, 8765);
}

#[test]
fn dev_mode_always_gets_the_fixed_port() {
    assert_eq!(allocate(true, None), Ok(8765));
    assert_eq!(allocate(true, Some(0)), Ok(8765));
    assert_eq!(allocate(true, Some(49152)), Ok(8765));
    assert_eq!(allocate(true, Some(65535)), Ok(8765));
}

#[test]
fn dev_mode_does_not_probe() {
    assert!(!needs_probe(true));
    assert!(needs_probe(false));
}

#[test]
fn production_gets_the_probed_port() {
    assert_eq!(allocate(false, Some(49152)), Ok(49152));
    assert_eq!(allocate(false, Some(60999)), Ok(60999));
    assert_eq!(allocate(false, Some(65535)), Ok(65535));
    assert_eq!(allocate(false, Some(8765)), Ok(8765));
}

#[test]
fn two_allocations_hand_on_two_probes() {
    let first = allocate(false, Some(50001));
    let second = allocate(false, Some(50002));
    assert_eq!(first, Ok(50001));
    assert_eq!(second, Ok(50002));
    assert_ne!(first, second);
}

#[test]
fn production_without_a_socket_fails() {
    assert_eq!(allocate(false, None), Err(AllocationError));
}

#[test]
fn failed_allocation_falls_back_to_the_fixed_port() {
    assert_eq!(port_or_default(allocate(false, None)), 8765);
    assert_eq!(port_or_default(Err(AllocationError)), DEFAULT_PORT);
    assert_eq!(port_or_default(Ok(51000)), 51000);
    assert_eq!(port_or_default(allocate(true, None)), 8765);
}

#[test]
fn port_variable_is_named() {
    assert_eq!(port_variable(), "VOCISTANT_PORT");
}

#[test]
fn port_value_is_decimal() {
    assert_eq!(port_value(8765), "8765");
    assert_eq!(port_value(0), "0");
    assert_eq!(port_value(7), "7");
    assert_eq!(port_value(10), "10");
    assert_eq!(port_value(100), "100");
    assert_eq!(port_value(1024), "1024");
    assert_eq!(port_value(49152), "49152");
    assert_eq!(port_value(65535), "65535");
}

#[test]
fn port_value_agrees_with_the_standard_rendering() {
    let mut port: u16 = 0;
    loop {
        assert_eq!(port_value(port), port.to_string());
        if port > u16::MAX - 97 {
            return;
        }
        port += 97;
    }
}
