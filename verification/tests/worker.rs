use weirdshark::{
    CapturerWorker, DirectedFilter, Filter, IpAddr, Record, TransportProtocols, WorkerCommand,
    WorkerStep,
};

/// A minimal UDP/IPv4 frame with the given addresses and ports, padded so
/// the whole frame is `frame_len` bytes long.
fn udp_frame(src: [u8; 4], dst: [u8; 4], sport: u16, dport: u16, frame_len: usize) -> Vec<u8> {
    assert!(frame_len >= 14 + 20 + 8);
    let ip_total = (frame_len - 14) as u16;
    let udp_len = (frame_len - 34) as u16;
    let mut f = vec![0xAAu8; 12];
    f.extend_from_slice(&[0x08, 0x00]);
    f.extend_from_slice(&[0x45, 0x00]);
    f.extend_from_slice(&ip_total.to_be_bytes());
    f.extend_from_slice(&[0, 0, 0x40, 0x00, 0x40, 0x11, 0, 0]);
    f.extend_from_slice(&src);
    f.extend_from_slice(&dst);
    f.extend_from_slice(&sport.to_be_bytes());
    f.extend_from_slice(&dport.to_be_bytes());
    f.extend_from_slice(&udp_len.to_be_bytes());
    f.extend_from_slice(&[0, 0]);
    f.resize(frame_len, 0);
    f
}

fn plain_worker() -> CapturerWorker {
    CapturerWorker::new(
        String::from("eth0"),
        String::from("."),
        None,
        Vec::new(),
        Vec::new(),
        None,
    )
}

fn report_of(step: WorkerStep) -> Vec<Record> {
    match step {
        WorkerStep::Report(rows) => rows,
        _ => panic!("expected a report"),
    }
}

#[test]
fn matching_packet_is_recorded() {
    let mut w = CapturerWorker::new(
        String::from("eth0"),
        String::from("."),
        None,
        vec![
            DirectedFilter::only_source(Filter::from_vec(vec![IpAddr::v4_from_octets(
                172, 16, 133, 251,
            )])),
            DirectedFilter::only_destination(Filter::from_vec(vec![IpAddr::v4_from_octets(
                10, 96, 0, 10,
            )])),
        ],
        vec![
            DirectedFilter::only_source(Filter::from_vec(vec![37826u16])),
            DirectedFilter::only_destination(Filter::from_vec(vec![53u16])),
        ],
        Some(TransportProtocols::UDP),
    );
    let frame = udp_frame([172, 16, 133, 251], [10, 96, 0, 10], 37826, 53, 90);
    let step = w.handle_command(WorkerCommand::HandlePacket(Ok(frame)), 1000);
    assert!(matches!(step, WorkerStep::Continue));
    let rows = report_of(w.handle_command(WorkerCommand::WriteFile, 1001));
    assert_eq!(rows.len(), 1);
    let row = &rows[0];
    assert_eq!(row.source_ip, IpAddr::v4_from_octets(172, 16, 133, 251));
    assert_eq!(row.destination_ip, IpAddr::v4_from_octets(10, 96, 0, 10));
    assert_eq!(row.transport_protocol, TransportProtocols::UDP);
    assert_eq!(row.source_port, 37826);
    assert_eq!(row.destination_port, 53);
    assert_eq!(row.bytes, 90);
    assert_eq!(row.first_seen, 1000);
    assert_eq!(row.last_seen, 1000);
}

#[test]
fn protocol_filter_miss_yields_empty_report() {
    let mut w = CapturerWorker::new(
        String::from("eth0"),
        String::from("."),
        None,
        Vec::new(),
        Vec::new(),
        Some(TransportProtocols::TCP),
    );
    let frame = udp_frame([172, 16, 133, 251], [10, 96, 0, 10], 37826, 53, 90);
    w.handle_command(WorkerCommand::HandlePacket(Ok(frame)), 1000);
    let rows = report_of(w.handle_command(WorkerCommand::WriteFile, 1001));
    assert_eq!(rows.len(), 0);
}

#[test]
fn same_key_accumulates_bytes_and_timestamps() {
    let mut w = plain_worker();
    for (len, t) in [(100usize, 10i64), (150, 20), (200, 30)] {
        let frame = udp_frame([1, 2, 3, 4], [5, 6, 7, 8], 1111, 2222, len);
        w.handle_command(WorkerCommand::HandlePacket(Ok(frame)), t);
    }
    let rows = report_of(w.handle_command(WorkerCommand::WriteFile, 40));
    assert_eq!(rows.len(), 1);
    assert_eq!(rows[0].bytes, 450);
    assert_eq!(rows[0].first_seen, 10);
    assert_eq!(rows[0].last_seen, 30);
}

#[test]
fn pause_gates_packet_intake() {
    let mut w = plain_worker();
    let frame_a = udp_frame([1, 1, 1, 1], [9, 9, 9, 9], 1, 100, 60);
    let frame_b = udp_frame([2, 2, 2, 2], [9, 9, 9, 9], 2, 100, 60);
    let frame_c = udp_frame([3, 3, 3, 3], [9, 9, 9, 9], 3, 100, 60);
    w.handle_command(WorkerCommand::Start, 1);
    w.handle_command(WorkerCommand::HandlePacket(Ok(frame_a)), 2);
    w.handle_command(WorkerCommand::Pause, 3);
    let step = w.handle_command(WorkerCommand::HandlePacket(Ok(frame_b)), 4);
    assert!(matches!(step, WorkerStep::Continue));
    w.handle_command(WorkerCommand::Start, 5);
    w.handle_command(WorkerCommand::HandlePacket(Ok(frame_c)), 6);
    let rows = report_of(w.handle_command(WorkerCommand::WriteFile, 7));
    let mut sources: Vec<IpAddr> = rows.iter().map(|r| r.source_ip).collect();
    sources.sort();
    assert_eq!(
        sources,
        vec![
            IpAddr::v4_from_octets(1, 1, 1, 1),
            IpAddr::v4_from_octets(3, 3, 3, 3),
        ]
    );
}

#[test]
fn flush_splits_reports_without_loss_or_duplication() {
    let mut w = plain_worker();
    let frame_a = udp_frame([1, 1, 1, 1], [9, 9, 9, 9], 1, 100, 60);
    let frame_b = udp_frame([2, 2, 2, 2], [9, 9, 9, 9], 2, 100, 60);
    w.handle_command(WorkerCommand::HandlePacket(Ok(frame_a)), 1);
    let first = report_of(w.handle_command(WorkerCommand::WriteFile, 2));
    w.handle_command(WorkerCommand::HandlePacket(Ok(frame_b)), 3);
    let second = report_of(w.handle_command(WorkerCommand::WriteFile, 4));
    assert_eq!(first.len(), 1);
    assert_eq!(second.len(), 1);
    assert_eq!(first[0].source_ip, IpAddr::v4_from_octets(1, 1, 1, 1));
    assert_eq!(second[0].source_ip, IpAddr::v4_from_octets(2, 2, 2, 2));
}

#[test]
fn parser_rejection_does_not_stop_the_worker() {
    let mut w = plain_worker();
    let step = w.handle_command(WorkerCommand::HandlePacket(Ok(vec![1, 2, 3])), 1);
    assert!(matches!(step, WorkerStep::Continue));
    let mut non_ip = vec![0u8; 12];
    non_ip.extend_from_slice(&[0x08, 0x06]);
    non_ip.extend_from_slice(&[0u8; 50]);
    let step = w.handle_command(WorkerCommand::HandlePacket(Ok(non_ip)), 2);
    assert!(matches!(step, WorkerStep::Continue));
    let rows = report_of(w.handle_command(WorkerCommand::WriteFile, 3));
    assert_eq!(rows.len(), 0);
}

#[test]
fn capture_read_failure_is_fatal() {
    let mut w = plain_worker();
    let step = w.handle_command(
        WorkerCommand::HandlePacket(Err(String::from("device gone"))),
        1,
    );
    match step {
        WorkerStep::Fatal(message) => assert_eq!(message, "device gone"),
        _ => panic!("expected a fatal step"),
    }
}

#[test]
fn flush_while_paused_still_reports() {
    let mut w = plain_worker();
    let frame = udp_frame([1, 1, 1, 1], [9, 9, 9, 9], 1, 100, 60);
    w.handle_command(WorkerCommand::HandlePacket(Ok(frame)), 1);
    w.handle_command(WorkerCommand::Pause, 2);
    let rows = report_of(w.handle_command(WorkerCommand::WriteFile, 3));
    assert_eq!(rows.len(), 1);
    let rows = report_of(w.handle_command(WorkerCommand::WriteFile, 4));
    assert_eq!(rows.len(), 0);
}

#[test]
fn repeated_start_keeps_flusher_transitions_idempotent() {
    let mut w = CapturerWorker::new(
        String::from("eth0"),
        String::from("."),
        Some(200),
        Vec::new(),
        Vec::new(),
        None,
    );
    assert!(matches!(
        w.handle_command(WorkerCommand::Start, 1),
        WorkerStep::StartFlusher
    ));
    assert!(matches!(
        w.handle_command(WorkerCommand::Start, 2),
        WorkerStep::Continue
    ));
    assert!(matches!(
        w.handle_command(WorkerCommand::Pause, 3),
        WorkerStep::StopFlusher
    ));
    assert!(matches!(
        w.handle_command(WorkerCommand::Pause, 4),
        WorkerStep::Continue
    ));
    assert!(matches!(
        w.handle_command(WorkerCommand::Stop, 5),
        WorkerStep::Exit
    ));
}

#[test]
fn same_kind_or_cross_kind_and_composition() {
    let mut w = CapturerWorker::new(
        String::from("eth0"),
        String::from("."),
        None,
        vec![
            DirectedFilter::only_source(Filter::from_vec(vec![IpAddr::v4_from_octets(1, 1, 1, 1)])),
            DirectedFilter::only_source(Filter::from_vec(vec![IpAddr::v4_from_octets(2, 2, 2, 2)])),
        ],
        vec![DirectedFilter::only_destination(Filter::from_vec(vec![53u16]))],
        None,
    );
    // same kind, second alternative: accepted
    let hit = udp_frame([2, 2, 2, 2], [9, 9, 9, 9], 40000, 53, 60);
    // address alternative holds, but the port conjunct fails
    let miss = udp_frame([1, 1, 1, 1], [9, 9, 9, 9], 40000, 54, 60);
    w.handle_command(WorkerCommand::HandlePacket(Ok(hit)), 1);
    w.handle_command(WorkerCommand::HandlePacket(Ok(miss)), 2);
    let rows = report_of(w.handle_command(WorkerCommand::WriteFile, 3));
    assert_eq!(rows.len(), 1);
    assert_eq!(rows[0].source_ip, IpAddr::v4_from_octets(2, 2, 2, 2));
}

#[test]
fn wall_clock_timestamps_are_ordered() {
    let mut w = plain_worker();
    let frame1 = udp_frame([1, 2, 3, 4], [5, 6, 7, 8], 1111, 2222, 60);
    let frame2 = udp_frame([1, 2, 3, 4], [5, 6, 7, 8], 1111, 2222, 60);
    w.handle_command_now(WorkerCommand::HandlePacket(Ok(frame1)));
    w.handle_command_now(WorkerCommand::HandlePacket(Ok(frame2)));
    let rows = report_of(w.handle_command_now(WorkerCommand::WriteFile));
    assert_eq!(rows.len(), 1);
    assert_eq!(rows[0].bytes, 120);
    assert!(rows[0].first_seen <= rows[0].last_seen);
    // the wall clock puts the run well after the start of 2020
    assert!(rows[0].first_seen > 1_577_000_000);
}
