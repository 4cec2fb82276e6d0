//! Delivery guarantees of the capture pipeline.
//!
//! The worker consumes its commands in enqueue order; `spec_run` folds the
//! command semantics of `spec_step_state` over a whole trace, and
//! `spec_reports` collects the map snapshot that each flush emits.  The
//! lemmas here state what the pipeline guarantees across any trace: an
//! accepted frame is counted in the report of the next flush, bytes are
//! neither lost nor duplicated across reports, and no rejected frame ever
//! reaches the map or a report.

use vstd::prelude::*;
use crate::addr::IpAddr;
use crate::filters::DirectedFilter;
use crate::records::{RecordKey, RecordValue};
use crate::worker::{
    spec_frame_disposition, spec_map_after, spec_step_state, WorkerCommand,
};
use crate::TransportProtocols;

verus! {

/// The worker state `(paused, map)` after consuming the timed commands of
/// `events`, starting from `(paused, m)`.
pub open spec fn spec_run(
    ip_filters: Seq<DirectedFilter<IpAddr>>,
    port_filters: Seq<DirectedFilter<u16>>,
    protocol_filter: Option<TransportProtocols>,
    paused: bool,
    m: Map<RecordKey, RecordValue>,
    events: Seq<(WorkerCommand, i64)>,
) -> (bool, Map<RecordKey, RecordValue>)
    decreases events.len(),
{
    if events.len() == 0 {
        (paused, m)
    } else {
        let s = spec_run(
            ip_filters,
            port_filters,
            protocol_filter,
            paused,
            m,
            events.drop_last(),
        );
        spec_step_state(
            ip_filters,
            port_filters,
            protocol_filter,
            s.0,
            s.1,
            events.last().0,
            events.last().1,
        )
    }
}

/// The reports the trace emits, oldest first: one map snapshot per
/// `WriteFile` command, holding what the map contained when the flush was
/// processed.
pub open spec fn spec_reports(
    ip_filters: Seq<DirectedFilter<IpAddr>>,
    port_filters: Seq<DirectedFilter<u16>>,
    protocol_filter: Option<TransportProtocols>,
    paused: bool,
    m: Map<RecordKey, RecordValue>,
    events: Seq<(WorkerCommand, i64)>,
) -> Seq<Map<RecordKey, RecordValue>>
    decreases events.len(),
{
    if events.len() == 0 {
        Seq::empty()
    } else {
        let pre = spec_reports(
            ip_filters,
            port_filters,
            protocol_filter,
            paused,
            m,
            events.drop_last(),
        );
        let s = spec_run(
            ip_filters,
            port_filters,
            protocol_filter,
            paused,
            m,
            events.drop_last(),
        );
        if (events.last().0 matches WorkerCommand::WriteFile) {
            pre.push(s.1)
        } else {
            pre
        }
    }
}

/// The bytes the map holds for key `k`; zero when the key is absent.
pub open spec fn key_bytes(m: Map<RecordKey, RecordValue>, k: RecordKey) -> int {
    if m.contains_key(k) {
        m[k].bytes as int
    } else {
        0
    }
}

/// The bytes recorded for key `k` across a sequence of reports.
pub open spec fn flushed_key_bytes(reports: Seq<Map<RecordKey, RecordValue>>, k: RecordKey) -> int
    decreases reports.len(),
{
    if reports.len() == 0 {
        0
    } else {
        flushed_key_bytes(reports.drop_last(), k) + key_bytes(reports.last(), k)
    }
}

/// What one timed command contributes to key `k` when the worker is
/// `paused`: the frame length when the command is an intact frame that the
/// worker would accept for `k`, else nothing.
pub open spec fn spec_event_key_bytes(
    ip_filters: Seq<DirectedFilter<IpAddr>>,
    port_filters: Seq<DirectedFilter<u16>>,
    protocol_filter: Option<TransportProtocols>,
    paused: bool,
    event: (WorkerCommand, i64),
    k: RecordKey,
) -> int {
    match event.0 {
        WorkerCommand::HandlePacket(res) => match res {
            Ok(frame) => if paused {
                0
            } else {
                match spec_frame_disposition(
                    ip_filters,
                    port_filters,
                    protocol_filter,
                    frame@,
                ) {
                    Some(kb) => if kb.0 == k {
                        kb.1 as int
                    } else {
                        0
                    },
                    None => 0,
                }
            },
            Err(_) => 0,
        },
        _ => 0,
    }
}

/// Like `spec_event_key_bytes`, counting one per accepted frame instead of
/// its length.
pub open spec fn spec_event_key_count(
    ip_filters: Seq<DirectedFilter<IpAddr>>,
    port_filters: Seq<DirectedFilter<u16>>,
    protocol_filter: Option<TransportProtocols>,
    paused: bool,
    event: (WorkerCommand, i64),
    k: RecordKey,
) -> int {
    match event.0 {
        WorkerCommand::HandlePacket(res) => match res {
            Ok(frame) => if paused {
                0
            } else {
                match spec_frame_disposition(
                    ip_filters,
                    port_filters,
                    protocol_filter,
                    frame@,
                ) {
                    Some(kb) => if kb.0 == k {
                        1
                    } else {
                        0
                    },
                    None => 0,
                }
            },
            Err(_) => 0,
        },
        _ => 0,
    }
}

/// Total bytes of the frames of `events` that the worker accepts for key
/// `k`, each judged at the pause state the worker is in when it processes
/// the frame.
pub open spec fn spec_accepted_key_bytes(
    ip_filters: Seq<DirectedFilter<IpAddr>>,
    port_filters: Seq<DirectedFilter<u16>>,
    protocol_filter: Option<TransportProtocols>,
    paused: bool,
    m: Map<RecordKey, RecordValue>,
    events: Seq<(WorkerCommand, i64)>,
    k: RecordKey,
) -> int
    decreases events.len(),
{
    if events.len() == 0 {
        0
    } else {
        let s = spec_run(
            ip_filters,
            port_filters,
            protocol_filter,
            paused,
            m,
            events.drop_last(),
        );
        spec_accepted_key_bytes(
            ip_filters,
            port_filters,
            protocol_filter,
            paused,
            m,
            events.drop_last(),
            k,
        ) + spec_event_key_bytes(ip_filters, port_filters, protocol_filter, s.0, events.last(), k)
    }
}

/// Number of frames of `events` that the worker accepts for key `k`.
pub open spec fn spec_accepted_key_count(
    ip_filters: Seq<DirectedFilter<IpAddr>>,
    port_filters: Seq<DirectedFilter<u16>>,
    protocol_filter: Option<TransportProtocols>,
    paused: bool,
    m: Map<RecordKey, RecordValue>,
    events: Seq<(WorkerCommand, i64)>,
    k: RecordKey,
) -> int
    decreases events.len(),
{
    if events.len() == 0 {
        0
    } else {
        let s = spec_run(
            ip_filters,
            port_filters,
            protocol_filter,
            paused,
            m,
            events.drop_last(),
        );
        spec_accepted_key_count(
            ip_filters,
            port_filters,
            protocol_filter,
            paused,
            m,
            events.drop_last(),
            k,
        ) + spec_event_key_count(ip_filters, port_filters, protocol_filter, s.0, events.last(), k)
    }
}

proof fn lemma_flushed_key_bytes_nonneg(reports: Seq<Map<RecordKey, RecordValue>>, k: RecordKey)
    ensures
        flushed_key_bytes(reports, k) >= 0,
    decreases reports.len(),
{
    if reports.len() > 0 {
        lemma_flushed_key_bytes_nonneg(reports.drop_last(), k);
    }
}

proof fn lemma_accepted_key_bytes_nonneg(
    ip_filters: Seq<DirectedFilter<IpAddr>>,
    port_filters: Seq<DirectedFilter<u16>>,
    protocol_filter: Option<TransportProtocols>,
    paused: bool,
    m: Map<RecordKey, RecordValue>,
    events: Seq<(WorkerCommand, i64)>,
    k: RecordKey,
)
    ensures
        spec_accepted_key_bytes(
            ip_filters,
            port_filters,
            protocol_filter,
            paused,
            m,
            events,
            k,
        ) >= 0,
    decreases events.len(),
{
    if events.len() > 0 {
        lemma_accepted_key_bytes_nonneg(
            ip_filters,
            port_filters,
            protocol_filter,
            paused,
            m,
            events.drop_last(),
            k,
        );
    }
}

/// Running a concatenated trace is running the second part from where the
/// first part left off.
pub proof fn lemma_run_append(
    ip_filters: Seq<DirectedFilter<IpAddr>>,
    port_filters: Seq<DirectedFilter<u16>>,
    protocol_filter: Option<TransportProtocols>,
    paused: bool,
    m: Map<RecordKey, RecordValue>,
    a: Seq<(WorkerCommand, i64)>,
    b: Seq<(WorkerCommand, i64)>,
)
    ensures
        spec_run(ip_filters, port_filters, protocol_filter, paused, m, a + b) == spec_run(
            ip_filters,
            port_filters,
            protocol_filter,
            spec_run(ip_filters, port_filters, protocol_filter, paused, m, a).0,
            spec_run(ip_filters, port_filters, protocol_filter, paused, m, a).1,
            b,
        ),
    decreases b.len(),
{
    if b.len() == 0 {
        assert(a + b =~= a);
    } else {
        lemma_run_append(ip_filters, port_filters, protocol_filter, paused, m, a, b.drop_last());
        assert((a + b).drop_last() =~= a + b.drop_last());
        assert((a + b).last() == b.last());
    }
}

/// A key in the map stays in the map as long as no flush happens.
pub proof fn lemma_run_keeps_key(
    ip_filters: Seq<DirectedFilter<IpAddr>>,
    port_filters: Seq<DirectedFilter<u16>>,
    protocol_filter: Option<TransportProtocols>,
    paused: bool,
    m: Map<RecordKey, RecordValue>,
    events: Seq<(WorkerCommand, i64)>,
    k: RecordKey,
)
    requires
        m.contains_key(k),
        forall|l: int|
            0 <= l < events.len() ==> !((#[trigger] events[l]).0
                matches WorkerCommand::WriteFile),
    ensures
        spec_run(ip_filters, port_filters, protocol_filter, paused, m, events).1.contains_key(k),
    decreases events.len(),
{
    if events.len() > 0 {
        lemma_run_keeps_key(
            ip_filters,
            port_filters,
            protocol_filter,
            paused,
            m,
            events.drop_last(),
            k,
        );
        assert(events[events.len() - 1] == events.last());
    }
}

/// A trace without a flush emits no report.
pub proof fn lemma_no_flush_no_reports(
    ip_filters: Seq<DirectedFilter<IpAddr>>,
    port_filters: Seq<DirectedFilter<u16>>,
    protocol_filter: Option<TransportProtocols>,
    paused: bool,
    m: Map<RecordKey, RecordValue>,
    events: Seq<(WorkerCommand, i64)>,
)
    requires
        forall|l: int|
            0 <= l < events.len() ==> !((#[trigger] events[l]).0
                matches WorkerCommand::WriteFile),
    ensures
        spec_reports(ip_filters, port_filters, protocol_filter, paused, m, events)
            == Seq::<Map<RecordKey, RecordValue>>::empty(),
    decreases events.len(),
{
    if events.len() > 0 {
        lemma_no_flush_no_reports(
            ip_filters,
            port_filters,
            protocol_filter,
            paused,
            m,
            events.drop_last(),
        );
        assert(events[events.len() - 1] == events.last());
    }
}

proof fn lemma_event_key_bytes_nonneg(
    ip_filters: Seq<DirectedFilter<IpAddr>>,
    port_filters: Seq<DirectedFilter<u16>>,
    protocol_filter: Option<TransportProtocols>,
    paused: bool,
    event: (WorkerCommand, i64),
    k: RecordKey,
)
    ensures
        spec_event_key_bytes(ip_filters, port_filters, protocol_filter, paused, event, k) >= 0,
{
}

/// How one step moves the bytes of key `k`: a flush empties the map; any
/// other command adds exactly the event's contribution.
proof fn lemma_step_key_bytes(
    ip_filters: Seq<DirectedFilter<IpAddr>>,
    port_filters: Seq<DirectedFilter<u16>>,
    protocol_filter: Option<TransportProtocols>,
    paused: bool,
    m: Map<RecordKey, RecordValue>,
    command: WorkerCommand,
    now: i64,
    k: RecordKey,
)
    requires
        key_bytes(m, k) + spec_event_key_bytes(
            ip_filters,
            port_filters,
            protocol_filter,
            paused,
            (command, now),
            k,
        ) <= usize::MAX,
    ensures
        (command matches WorkerCommand::WriteFile) ==> key_bytes(
            spec_step_state(
                ip_filters,
                port_filters,
                protocol_filter,
                paused,
                m,
                command,
                now,
            ).1,
            k,
        ) == 0,
        !(command matches WorkerCommand::WriteFile) ==> key_bytes(
            spec_step_state(
                ip_filters,
                port_filters,
                protocol_filter,
                paused,
                m,
                command,
                now,
            ).1,
            k,
        ) == key_bytes(m, k) + spec_event_key_bytes(
            ip_filters,
            port_filters,
            protocol_filter,
            paused,
            (command, now),
            k,
        ),
{
    match command {
        WorkerCommand::HandlePacket(res) => match res {
            Ok(frame) => {
                if !paused {
                    match spec_frame_disposition(
                        ip_filters,
                        port_filters,
                        protocol_filter,
                        frame@,
                    ) {
                        Some(kb) => {
                            if kb.0 == k {
                                assert(key_bytes(m, k) + kb.1 <= usize::MAX);
                            } else {
                                assert(key_bytes(
                                    spec_map_after(m, kb.0, kb.1, now),
                                    k,
                                ) == key_bytes(m, k));
                            }
                        },
                        None => {},
                    }
                }
            },
            Err(_) => {},
        },
        _ => {},
    }
}

/// Conservation of bytes, per flow key: what the reports recorded plus
/// what the map still holds is exactly what the map held at the start plus
/// the bytes of every frame accepted along the trace.  No accepted frame
/// is lost, none is counted twice.  The bound keeps the saturating
/// counter below its limit, as any real trace does.
pub proof fn lemma_byte_conservation(
    ip_filters: Seq<DirectedFilter<IpAddr>>,
    port_filters: Seq<DirectedFilter<u16>>,
    protocol_filter: Option<TransportProtocols>,
    paused: bool,
    m: Map<RecordKey, RecordValue>,
    events: Seq<(WorkerCommand, i64)>,
    k: RecordKey,
)
    requires
        key_bytes(m, k) + spec_accepted_key_bytes(
            ip_filters,
            port_filters,
            protocol_filter,
            paused,
            m,
            events,
            k,
        ) <= usize::MAX,
    ensures
        flushed_key_bytes(
            spec_reports(ip_filters, port_filters, protocol_filter, paused, m, events),
            k,
        ) + key_bytes(
            spec_run(ip_filters, port_filters, protocol_filter, paused, m, events).1,
            k,
        ) == key_bytes(m, k) + spec_accepted_key_bytes(
            ip_filters,
            port_filters,
            protocol_filter,
            paused,
            m,
            events,
            k,
        ),
    decreases events.len(),
{
    if events.len() == 0 {
    } else {
        let prefix = events.drop_last();
        let ev = events.last();
        let s = spec_run(ip_filters, port_filters, protocol_filter, paused, m, prefix);
        let rep = spec_reports(ip_filters, port_filters, protocol_filter, paused, m, prefix);
        let acc_pre = spec_accepted_key_bytes(
            ip_filters,
            port_filters,
            protocol_filter,
            paused,
            m,
            prefix,
            k,
        );
        let evb = spec_event_key_bytes(ip_filters, port_filters, protocol_filter, s.0, ev, k);
        assert(spec_accepted_key_bytes(
            ip_filters,
            port_filters,
            protocol_filter,
            paused,
            m,
            events,
            k,
        ) == acc_pre + evb);
        lemma_event_key_bytes_nonneg(ip_filters, port_filters, protocol_filter, s.0, ev, k);
        lemma_byte_conservation(ip_filters, port_filters, protocol_filter, paused, m, prefix, k);
        lemma_flushed_key_bytes_nonneg(rep, k);
        lemma_step_key_bytes(
            ip_filters,
            port_filters,
            protocol_filter,
            s.0,
            s.1,
            ev.0,
            ev.1,
            k,
        );
        let rep_all = spec_reports(ip_filters, port_filters, protocol_filter, paused, m, events);
        if (ev.0 matches WorkerCommand::WriteFile) {
            assert(rep_all == rep.push(s.1));
            assert(rep_all.drop_last() =~= rep);
            assert(rep_all.last() == s.1);
            assert(flushed_key_bytes(rep_all, k) == flushed_key_bytes(rep, k) + key_bytes(
                s.1,
                k,
            ));
        } else {
            assert(rep_all == rep);
        }
    }
}

/// A frame the worker drops — one the parser rejects, a filter miss, or
/// any frame while paused — leaves the worker state exactly as it was: in
/// particular a frame parsed as non-TCP/non-UDP never reaches the map, and
/// so never reaches a report.
pub proof fn lemma_dropped_frame_changes_nothing(
    ip_filters: Seq<DirectedFilter<IpAddr>>,
    port_filters: Seq<DirectedFilter<u16>>,
    protocol_filter: Option<TransportProtocols>,
    paused: bool,
    m: Map<RecordKey, RecordValue>,
    frame: Vec<u8>,
    now: i64,
)
    requires
        paused || spec_frame_disposition(ip_filters, port_filters, protocol_filter, frame@)
            is None,
    ensures
        spec_step_state(
            ip_filters,
            port_filters,
            protocol_filter,
            paused,
            m,
            WorkerCommand::HandlePacket(Ok(frame)),
            now,
        ) == (paused, m),
{
}

/// A key the map holds was put there by an accepted frame: along any
/// trace, a key present in the final map either was present at the start
/// or belongs to at least one frame the worker accepted.
pub proof fn lemma_map_keys_are_accepted(
    ip_filters: Seq<DirectedFilter<IpAddr>>,
    port_filters: Seq<DirectedFilter<u16>>,
    protocol_filter: Option<TransportProtocols>,
    paused: bool,
    m: Map<RecordKey, RecordValue>,
    events: Seq<(WorkerCommand, i64)>,
    k: RecordKey,
)
    requires
        spec_run(ip_filters, port_filters, protocol_filter, paused, m, events).1.contains_key(k),
    ensures
        m.contains_key(k) || spec_accepted_key_count(
            ip_filters,
            port_filters,
            protocol_filter,
            paused,
            m,
            events,
            k,
        ) >= 1,
    decreases events.len(),
{
    if events.len() > 0 {
        let prefix = events.drop_last();
        let s = spec_run(ip_filters, port_filters, protocol_filter, paused, m, prefix);
        let ev = events.last();
        lemma_accepted_key_count_nonneg(
            ip_filters,
            port_filters,
            protocol_filter,
            paused,
            m,
            prefix,
            k,
        );
        match ev.0 {
            WorkerCommand::HandlePacket(res) => match res {
                Ok(frame) => {
                    if !s.0 {
                        match spec_frame_disposition(
                            ip_filters,
                            port_filters,
                            protocol_filter,
                            frame@,
                        ) {
                            Some(kb) => {
                                if kb.0 != k {
                                    lemma_map_keys_are_accepted(
                                        ip_filters,
                                        port_filters,
                                        protocol_filter,
                                        paused,
                                        m,
                                        prefix,
                                        k,
                                    );
                                }
                            },
                            None => {
                                lemma_map_keys_are_accepted(
                                    ip_filters,
                                    port_filters,
                                    protocol_filter,
                                    paused,
                                    m,
                                    prefix,
                                    k,
                                );
                            },
                        }
                    } else {
                        lemma_map_keys_are_accepted(
                            ip_filters,
                            port_filters,
                            protocol_filter,
                            paused,
                            m,
                            prefix,
                            k,
                        );
                    }
                },
                Err(_) => {
                    lemma_map_keys_are_accepted(
                        ip_filters,
                        port_filters,
                        protocol_filter,
                        paused,
                        m,
                        prefix,
                        k,
                    );
                },
            },
            WorkerCommand::WriteFile => {
                assert(false);
            },
            _ => {
                lemma_map_keys_are_accepted(
                    ip_filters,
                    port_filters,
                    protocol_filter,
                    paused,
                    m,
                    prefix,
                    k,
                );
            },
        }
    }
}

proof fn lemma_accepted_key_count_nonneg(
    ip_filters: Seq<DirectedFilter<IpAddr>>,
    port_filters: Seq<DirectedFilter<u16>>,
    protocol_filter: Option<TransportProtocols>,
    paused: bool,
    m: Map<RecordKey, RecordValue>,
    events: Seq<(WorkerCommand, i64)>,
    k: RecordKey,
)
    ensures
        spec_accepted_key_count(
            ip_filters,
            port_filters,
            protocol_filter,
            paused,
            m,
            events,
            k,
        ) >= 0,
    decreases events.len(),
{
    if events.len() > 0 {
        lemma_accepted_key_count_nonneg(
            ip_filters,
            port_filters,
            protocol_filter,
            paused,
            m,
            events.drop_last(),
            k,
        );
    }
}

/// A key found in any emitted report belongs to some frame the worker
/// accepted along the trace: rejected frames — filtered out or refused by
/// the parser — reach no report.  Started from an empty map.
pub proof fn lemma_report_keys_are_accepted(
    ip_filters: Seq<DirectedFilter<IpAddr>>,
    port_filters: Seq<DirectedFilter<u16>>,
    protocol_filter: Option<TransportProtocols>,
    paused: bool,
    events: Seq<(WorkerCommand, i64)>,
    r: int,
    k: RecordKey,
)
    requires
        0 <= r < spec_reports(
            ip_filters,
            port_filters,
            protocol_filter,
            paused,
            Map::empty(),
            events,
        ).len(),
        spec_reports(ip_filters, port_filters, protocol_filter, paused, Map::empty(), events)[r]
            .contains_key(k),
    ensures
        spec_accepted_key_count(
            ip_filters,
            port_filters,
            protocol_filter,
            paused,
            Map::empty(),
            events,
            k,
        ) >= 1,
    decreases events.len(),
{
    let m0 = Map::<RecordKey, RecordValue>::empty();
    let prefix = events.drop_last();
    let rep = spec_reports(ip_filters, port_filters, protocol_filter, paused, m0, events);
    let pre_rep = spec_reports(ip_filters, port_filters, protocol_filter, paused, m0, prefix);
    let s = spec_run(ip_filters, port_filters, protocol_filter, paused, m0, prefix);
    lemma_accepted_key_count_nonneg(
        ip_filters,
        port_filters,
        protocol_filter,
        paused,
        m0,
        prefix,
        k,
    );
    if r < pre_rep.len() {
        lemma_report_keys_are_accepted(
            ip_filters,
            port_filters,
            protocol_filter,
            paused,
            prefix,
            r,
            k,
        );
    } else {
        assert(events.last().0 matches WorkerCommand::WriteFile);
        assert(rep[r] == s.1);
        lemma_map_keys_are_accepted(
            ip_filters,
            port_filters,
            protocol_filter,
            paused,
            m0,
            prefix,
            k,
        );
    }
}

/// A key found in a report was accepted after the previous flush: each
/// flush empties the map, so what the next report holds was gathered
/// entirely in the window between the two flushes.  No key lingers from
/// one report into the next without a fresh accepted frame.
pub proof fn lemma_report_key_is_fresh(
    ip_filters: Seq<DirectedFilter<IpAddr>>,
    port_filters: Seq<DirectedFilter<u16>>,
    protocol_filter: Option<TransportProtocols>,
    events: Seq<(WorkerCommand, i64)>,
    j1: int,
    j2: int,
    k: RecordKey,
)
    requires
        0 <= j1 < j2 < events.len(),
        events[j1].0 matches WorkerCommand::WriteFile,
        events[j2].0 matches WorkerCommand::WriteFile,
        // k is in the report the flush at j2 emits
        spec_run(
            ip_filters,
            port_filters,
            protocol_filter,
            false,
            Map::empty(),
            events.take(j2),
        ).1.contains_key(k),
    ensures
        spec_accepted_key_count(
            ip_filters,
            port_filters,
            protocol_filter,
            spec_run(
                ip_filters,
                port_filters,
                protocol_filter,
                false,
                Map::empty(),
                events.take(j1 + 1),
            ).0,
            Map::empty(),
            events.subrange(j1 + 1, j2),
            k,
        ) >= 1,
{
    let m0 = Map::<RecordKey, RecordValue>::empty();
    let upto_j1_1 = events.take(j1 + 1);
    let upto_j2 = events.take(j2);
    let mid = events.subrange(j1 + 1, j2);
    assert(upto_j1_1.drop_last() =~= events.take(j1));
    assert(upto_j1_1.last() == events[j1]);
    let s1 = spec_run(ip_filters, port_filters, protocol_filter, false, m0, upto_j1_1);
    assert(s1.1 == Map::<RecordKey, RecordValue>::empty());
    assert(upto_j2 =~= upto_j1_1 + mid);
    lemma_run_append(ip_filters, port_filters, protocol_filter, false, m0, upto_j1_1, mid);
    lemma_map_keys_are_accepted(
        ip_filters,
        port_filters,
        protocol_filter,
        s1.0,
        Map::empty(),
        mid,
        k,
    );
}

/// An intact frame accepted while the worker is not paused is in the
/// report of the next flush: its key is recorded in the snapshot that
/// flush emits.
pub proof fn lemma_frame_in_next_report(
    ip_filters: Seq<DirectedFilter<IpAddr>>,
    port_filters: Seq<DirectedFilter<u16>>,
    protocol_filter: Option<TransportProtocols>,
    events: Seq<(WorkerCommand, i64)>,
    i: int,
    j: int,
    frame: Vec<u8>,
    k: RecordKey,
    b: usize,
)
    requires
        0 <= i < j < events.len(),
        events[i].0 == WorkerCommand::HandlePacket(Ok::<Vec<u8>, String>(frame)),
        spec_frame_disposition(ip_filters, port_filters, protocol_filter, frame@) == Some(
            (k, b),
        ),
        !spec_run(
            ip_filters,
            port_filters,
            protocol_filter,
            false,
            Map::empty(),
            events.take(i),
        ).0,
        events[j].0 matches WorkerCommand::WriteFile,
        forall|l: int|
            i < l < j ==> !((#[trigger] events[l]).0 matches WorkerCommand::WriteFile),
    ensures
        spec_reports(
            ip_filters,
            port_filters,
            protocol_filter,
            false,
            Map::empty(),
            events.take(j + 1),
        ).len() > 0,
        spec_reports(
            ip_filters,
            port_filters,
            protocol_filter,
            false,
            Map::empty(),
            events.take(j + 1),
        ).last().contains_key(k),
{
    let m0 = Map::<RecordKey, RecordValue>::empty();
    let upto_i = events.take(i);
    let upto_i1 = events.take(i + 1);
    let upto_j = events.take(j);
    let s_i = spec_run(ip_filters, port_filters, protocol_filter, false, m0, upto_i);
    // one step: the accepted frame puts its key in the map
    assert(upto_i1.drop_last() =~= upto_i);
    assert(upto_i1.last() == events[i]);
    let s_i1 = spec_run(ip_filters, port_filters, protocol_filter, false, m0, upto_i1);
    assert(s_i1.1 == spec_map_after(s_i.1, k, b, events[i].1));
    assert(s_i1.1.contains_key(k));
    // the segment between the frame and the flush has no flush in it
    let mid = events.subrange(i + 1, j);
    assert(upto_j =~= upto_i1 + mid);
    lemma_run_append(ip_filters, port_filters, protocol_filter, false, m0, upto_i1, mid);
    assert(forall|l: int|
        0 <= l < mid.len() ==> !((#[trigger] mid[l]).0 matches WorkerCommand::WriteFile));
    lemma_run_keeps_key(
        ip_filters,
        port_filters,
        protocol_filter,
        s_i1.0,
        s_i1.1,
        mid,
        k,
    );
    let s_j = spec_run(ip_filters, port_filters, protocol_filter, false, m0, upto_j);
    assert(s_j.1.contains_key(k));
    // the flush at j snapshots that map as the newest report
    let upto_j1 = events.take(j + 1);
    assert(upto_j1.drop_last() =~= upto_j);
    assert(upto_j1.last() == events[j]);
    assert(spec_reports(ip_filters, port_filters, protocol_filter, false, m0, upto_j1).last()
        == s_j.1);
}

/// With no flush in the trace, the bytes the map accumulates for a key,
/// starting from empty, are exactly the sum of the frame lengths of the
/// accepted packets for that key.
pub proof fn lemma_flow_bytes_are_sum(
    ip_filters: Seq<DirectedFilter<IpAddr>>,
    port_filters: Seq<DirectedFilter<u16>>,
    protocol_filter: Option<TransportProtocols>,
    paused: bool,
    events: Seq<(WorkerCommand, i64)>,
    k: RecordKey,
)
    requires
        spec_accepted_key_bytes(
            ip_filters,
            port_filters,
            protocol_filter,
            paused,
            Map::empty(),
            events,
            k,
        ) <= usize::MAX,
        forall|l: int|
            0 <= l < events.len() ==> !((#[trigger] events[l]).0
                matches WorkerCommand::WriteFile),
    ensures
        key_bytes(
            spec_run(
                ip_filters,
                port_filters,
                protocol_filter,
                paused,
                Map::empty(),
                events,
            ).1,
            k,
        ) == spec_accepted_key_bytes(
            ip_filters,
            port_filters,
            protocol_filter,
            paused,
            Map::empty(),
            events,
            k,
        ),
{
    let m0 = Map::<RecordKey, RecordValue>::empty();
    lemma_no_flush_no_reports(ip_filters, port_filters, protocol_filter, paused, m0, events);
    lemma_byte_conservation(ip_filters, port_filters, protocol_filter, paused, m0, events, k);
}

proof fn lemma_event_bytes_cover_count(
    ip_filters: Seq<DirectedFilter<IpAddr>>,
    port_filters: Seq<DirectedFilter<u16>>,
    protocol_filter: Option<TransportProtocols>,
    paused: bool,
    event: (WorkerCommand, i64),
    k: RecordKey,
)
    requires
        event.0 matches WorkerCommand::HandlePacket(Ok(f)) ==> f@.len() <= usize::MAX,
    ensures
        spec_event_key_bytes(ip_filters, port_filters, protocol_filter, paused, event, k)
            >= spec_event_key_count(ip_filters, port_filters, protocol_filter, paused, event, k),
{
    match event.0 {
        WorkerCommand::HandlePacket(res) => match res {
            Ok(frame) => {
                if !paused {
                    match crate::parser::spec_parse_frame(frame@) {
                        Ok(p) => {
                            crate::parser::lemma_parsed_packet_shape(frame@, p);
                        },
                        Err(_) => {},
                    }
                }
            },
            Err(_) => {},
        },
        _ => {},
    }
}

/// Every accepted frame contributes at least one byte, so the accumulated
/// bytes for a key bound the number of accepted packets for it.
pub proof fn lemma_accepted_bytes_cover_count(
    ip_filters: Seq<DirectedFilter<IpAddr>>,
    port_filters: Seq<DirectedFilter<u16>>,
    protocol_filter: Option<TransportProtocols>,
    paused: bool,
    m: Map<RecordKey, RecordValue>,
    events: Seq<(WorkerCommand, i64)>,
    k: RecordKey,
)
    requires
        forall|l: int|
            0 <= l < events.len() ==> ((#[trigger] events[l]).0
                matches WorkerCommand::HandlePacket(Ok(f)) ==> f@.len() <= usize::MAX),
    ensures
        spec_accepted_key_bytes(ip_filters, port_filters, protocol_filter, paused, m, events, k)
            >= spec_accepted_key_count(
            ip_filters,
            port_filters,
            protocol_filter,
            paused,
            m,
            events,
            k,
        ),
    decreases events.len(),
{
    if events.len() > 0 {
        let prefix = events.drop_last();
        let s = spec_run(ip_filters, port_filters, protocol_filter, paused, m, prefix);
        lemma_accepted_bytes_cover_count(
            ip_filters,
            port_filters,
            protocol_filter,
            paused,
            m,
            prefix,
            k,
        );
        assert(events[events.len() - 1] == events.last());
        lemma_event_bytes_cover_count(
            ip_filters,
            port_filters,
            protocol_filter,
            s.0,
            events.last(),
            k,
        );
    }
}

/// For every key the map holds after a flush-free trace from empty, the
/// accumulated bytes are at least the number of accepted packets for that
/// key.
pub proof fn lemma_flow_bytes_cover_packet_count(
    ip_filters: Seq<DirectedFilter<IpAddr>>,
    port_filters: Seq<DirectedFilter<u16>>,
    protocol_filter: Option<TransportProtocols>,
    paused: bool,
    events: Seq<(WorkerCommand, i64)>,
    k: RecordKey,
)
    requires
        spec_accepted_key_bytes(
            ip_filters,
            port_filters,
            protocol_filter,
            paused,
            Map::empty(),
            events,
            k,
        ) <= usize::MAX,
        forall|l: int|
            0 <= l < events.len() ==> !((#[trigger] events[l]).0
                matches WorkerCommand::WriteFile),
        forall|l: int|
            0 <= l < events.len() ==> ((#[trigger] events[l]).0
                matches WorkerCommand::HandlePacket(Ok(f)) ==> f@.len() <= usize::MAX),
    ensures
        key_bytes(
            spec_run(
                ip_filters,
                port_filters,
                protocol_filter,
                paused,
                Map::empty(),
                events,
            ).1,
            k,
        ) >= spec_accepted_key_count(
            ip_filters,
            port_filters,
            protocol_filter,
            paused,
            Map::empty(),
            events,
            k,
        ),
{
    lemma_flow_bytes_are_sum(ip_filters, port_filters, protocol_filter, paused, events, k);
    lemma_accepted_bytes_cover_count(
        ip_filters,
        port_filters,
        protocol_filter,
        paused,
        Map::empty(),
        events,
        k,
    );
}

} // verus!
