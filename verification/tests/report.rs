use weirdshark::{make_report_name, report_file_name};

#[test]
fn report_name_substitutes_unsafe_characters() {
    let name = make_report_name("eth0", "2022-10-12 10:20:30.123456 +02:00");
    assert_eq!(
        name,
        "weirdshark_capture_eth0_2022-10-12 10-20-30_123456 +02-00.csv"
    );
}

#[test]
fn report_name_sanitizes_the_interface_name_too() {
    let name = make_report_name("net:0", "stamp");
    assert_eq!(name, "weirdshark_capture_net-0_stamp.csv");
}

#[test]
fn live_report_name_is_filesystem_safe() {
    let name = report_file_name("eth0");
    assert!(name.starts_with("weirdshark_capture_eth0_"));
    assert!(name.ends_with(".csv"));
    assert!(!name.contains(':'));
    // the timestamp's own periods are substituted; only the extension keeps one
    assert_eq!(name.matches('.').count(), 1);
}
