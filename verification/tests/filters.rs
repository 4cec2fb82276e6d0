use weirdshark::{DirectedFilter, Filter, IpAddr};

#[test]
fn filter_single_element() {
    let filter = DirectedFilter::both_directions(Filter::from_vec(vec![10u16]));
    assert_eq!(filter.filter(&10, &11), true);
    assert_eq!(filter.filter(&12, &11), false);
}

#[test]
fn filter_list() {
    let filter = DirectedFilter::only_source(Filter::from_vec(vec![10u16, 20, 30, 40]));
    assert_eq!(filter.filter(&0, &10), false);
    assert_eq!(filter.filter(&30, &35), true);
    assert_eq!(filter.filter(&40, &20), true);
}

#[test]
fn filter_range() {
    let filter = DirectedFilter::only_destination(Filter::from_range(20u16, 40));
    assert_eq!(filter.filter(&0, &50), false);
    assert_eq!(filter.filter(&30, &35), true);
    assert_eq!(filter.filter(&40, &20), true);
}

#[test]
fn range_limits_are_included() {
    let filter = Filter::from_range(20u16, 40);
    assert_eq!(filter.filter(&20), true);
    assert_eq!(filter.filter(&40), true);
    assert_eq!(filter.filter(&41), false);
}

#[test]
fn range_is_never_inverted() {
    let filter1 = Filter::from_range(20u16, 40);
    let filter2 = Filter::from_range(40u16, 20);
    assert_eq!(filter1.filter(&21), true);
    assert_eq!(filter1.filter(&41), false);
    assert_eq!(filter2.filter(&21), true);
    assert_eq!(filter2.filter(&41), false);
}

#[test]
fn source_port_range_inclusive_at_both_ends() {
    let filter = DirectedFilter::only_source(Filter::from_range(20u16, 40));
    let expected = [(19u16, false), (20, true), (30, true), (40, true), (41, false)];
    for (port, hit) in expected {
        assert_eq!(filter.filter(&port, &0), hit);
    }
}

#[test]
fn address_range_follows_ip_convention() {
    let lo = IpAddr::v4_from_octets(192, 168, 0, 0);
    let hi = IpAddr::v4_from_octets(192, 168, 0, 255);
    let filter = Filter::from_range(lo, hi);
    assert!(filter.filter(&IpAddr::v4_from_octets(192, 168, 0, 255)));
    assert!(filter.filter(&IpAddr::v4_from_octets(192, 168, 0, 0)));
    assert!(filter.filter(&IpAddr::v4_from_octets(192, 168, 0, 17)));
    assert!(!filter.filter(&IpAddr::v4_from_octets(192, 168, 1, 0)));
    assert!(!filter.filter(&IpAddr::V6(0xC0A8_0010)));
}

#[test]
fn v4_and_v6_never_coincide() {
    let v4 = IpAddr::v4_from_octets(0, 0, 0, 42);
    let v6 = IpAddr::V6(42);
    assert_ne!(v4, v6);
    let filter = Filter::from_vec(vec![v4]);
    assert!(filter.filter(&v4));
    assert!(!filter.filter(&v6));
}

#[test]
fn v6_octets_build_the_numeric_value() {
    let octets = [
        0x20u8, 0x01, 0x0d, 0xb8, 0, 0, 0, 0, 0, 0, 0, 0, 0, 0, 0, 0x42,
    ];
    let addr = IpAddr::v6_from_octets(&octets);
    assert_eq!(addr, IpAddr::V6(0x2001_0db8_0000_0000_0000_0000_0000_0042));
}
