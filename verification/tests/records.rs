use weirdshark::{
    AggregationMap, IpAddr, Record, RecordKey, RecordValue, TransportProtocols, WriteScheduler,
};

fn key(port: u16) -> RecordKey {
    RecordKey {
        source_ip: IpAddr::v4_from_octets(10, 0, 0, 1),
        destination_ip: IpAddr::v4_from_octets(10, 0, 0, 2),
        transport_protocol: TransportProtocols::TCP,
        source_port: port,
        destination_port: 80,
    }
}

#[test]
fn update_inserts_then_accumulates() {
    let mut map = AggregationMap::new();
    assert_eq!(map.len(), 0);
    assert!(!map.contains(&key(1)));
    map.update(key(1), 100, 10);
    map.update(key(2), 40, 11);
    map.update(key(1), 50, 12);
    assert_eq!(map.len(), 2);
    let v = map.get(&key(1)).unwrap();
    assert_eq!(v.bytes, 150);
    assert_eq!(v.first_seen, 10);
    assert_eq!(v.last_seen, 12);
    let w = map.get(&key(2)).unwrap();
    assert_eq!(w.bytes, 40);
}

#[test]
fn update_clamps_a_clock_that_went_backwards() {
    let mut map = AggregationMap::new();
    map.update(key(1), 10, 100);
    map.update(key(1), 10, 90);
    let v = map.get(&key(1)).unwrap();
    assert_eq!(v.first_seen, 100);
    assert_eq!(v.last_seen, 100);
}

#[test]
fn byte_counter_saturates_at_the_machine_limit() {
    let mut map = AggregationMap::new();
    map.update(key(1), usize::MAX - 5, 1);
    map.update(key(1), 100, 2);
    assert_eq!(map.get(&key(1)).unwrap().bytes, usize::MAX);
}

#[test]
fn drain_empties_the_map_and_keeps_every_flow() {
    let mut map = AggregationMap::new();
    map.update(key(1), 100, 10);
    map.update(key(2), 40, 11);
    let rows = map.drain_records();
    assert_eq!(rows.len(), 2);
    assert_eq!(map.len(), 0);
    let mut ports: Vec<u16> = rows.iter().map(|r| r.source_port).collect();
    ports.sort();
    assert_eq!(ports, vec![1, 2]);
    let rows = map.drain_records();
    assert_eq!(rows.len(), 0);
}

#[test]
fn record_carries_key_and_value_fields() {
    let r = Record::from_key_value(
        key(7),
        RecordValue { bytes: 9, first_seen: 1, last_seen: 2 },
    );
    assert_eq!(r.source_port, 7);
    assert_eq!(r.destination_port, 80);
    assert_eq!(r.transport_protocol, TransportProtocols::TCP);
    assert_eq!(r.bytes, 9);
    assert_eq!(r.first_seen, 1);
    assert_eq!(r.last_seen, 2);
}

#[test]
fn scheduler_state_machine_transitions() {
    let mut s = WriteScheduler::new();
    assert!(!s.is_running());
    s.start();
    assert!(s.is_running());
    s.stop();
    assert!(!s.is_running());
}
