use weirdshark::{
    get_interface_by_index, get_interface_by_name, pick_default_interface, CapturerBuilder,
    InterfaceInfo, IpAddr, WeirdsharkError,
};

fn interface(name: &str, index: u32, usable: bool, ip_count: usize) -> InterfaceInfo {
    InterfaceInfo {
        name: String::from(name),
        description: format!("{} adapter", name),
        index,
        is_loopback: false,
        is_up: usable,
        is_running: usable,
        has_mac: usable,
        ips: (0..ip_count)
            .map(|i| IpAddr::v4_from_octets(10, 0, 0, i as u8))
            .collect(),
    }
}

#[test]
fn build_fails_with_no_interface() {
    let builder = CapturerBuilder::new();
    let capturer = builder.build(&vec![]);
    assert!(capturer.is_err());
    if let Err(e) = capturer {
        assert_eq!(e, WeirdsharkError::InterfaceNotSpecified);
    }
}

#[test]
fn build_fails_when_the_interface_is_unknown() {
    let interfaces = vec![interface("eth0", 1, true, 1)];
    let builder = CapturerBuilder::new().interface_by_name("wlan7");
    let capturer = builder.build(&interfaces);
    assert_eq!(capturer.err(), Some(WeirdsharkError::InterfaceNotFound));
}

#[test]
fn build_uses_the_selected_interface_and_configuration() {
    let interfaces = vec![
        interface("eth0", 1, true, 1),
        interface("wlan0", 2, true, 2),
    ];
    let worker = CapturerBuilder::new()
        .interface_by_name("wlan0")
        .report_path("/tmp/reports")
        .report_interval(Some(250))
        .build(&interfaces)
        .unwrap();
    assert_eq!(worker.interface_name, "wlan0");
    assert_eq!(worker.report_path, "/tmp/reports");
    assert_eq!(worker.report_interval_ms, Some(250));
    assert!(!worker.is_paused);
    assert!(!worker.flusher_running);
}

#[test]
fn last_selector_written_wins() {
    let interfaces = vec![
        interface("eth0", 1, true, 1),
        interface("wlan0", 2, true, 2),
    ];
    let worker = CapturerBuilder::new()
        .interface_by_name("wlan0")
        .interface_by_index(1)
        .build(&interfaces)
        .unwrap();
    assert_eq!(worker.interface_name, "eth0");
}

#[test]
fn interface_lookups_take_the_first_match() {
    let interfaces = vec![
        interface("eth0", 1, true, 1),
        interface("eth0", 7, true, 3),
    ];
    let by_name = get_interface_by_name(&interfaces, "eth0").unwrap();
    assert_eq!(by_name.index, 1);
    let by_index = get_interface_by_index(&interfaces, 7).unwrap();
    assert_eq!(by_index.ips.len(), 3);
    assert!(get_interface_by_name(&interfaces, "missing").is_none());
}

#[test]
fn default_interface_prefers_most_addresses() {
    let mut lo = interface("lo", 0, true, 1);
    lo.is_loopback = true;
    let interfaces = vec![
        lo,
        interface("eth0", 1, true, 2),
        interface("down0", 2, false, 9),
        interface("wlan0", 3, true, 4),
    ];
    assert_eq!(pick_default_interface(&interfaces), Some(3));
    let none: Vec<InterfaceInfo> = vec![];
    assert_eq!(pick_default_interface(&none), None);
}

#[test]
fn default_interface_breaks_ties_towards_later_entries() {
    let interfaces = vec![
        interface("eth0", 1, true, 2),
        interface("eth1", 2, true, 2),
    ];
    assert_eq!(pick_default_interface(&interfaces), Some(1));
}
