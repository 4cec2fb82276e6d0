//! The capture worker: the single owner of the aggregation map.
//!
//! The worker consumes commands — control transitions, flush requests, and
//! captured frames — one at a time, in the order they were enqueued.  Each
//! command is handled by `handle_command`, a step function from the current
//! state and the command to the next state and an action for the
//! surrounding runtime: start or stop the periodic flusher, write a report,
//! exit, or fail.  Everything the worker decides is stated here; the
//! runtime around it only performs the returned action.

use vstd::prelude::*;
use crate::addr::IpAddr;
use crate::error::WeirdsharkError;
use crate::filters::DirectedFilter;
use crate::filters::Orderable;
use crate::parser::{parse_transport_packet, spec_parse_frame, TransportPacket};
use crate::records::{
    spec_fresh_value, spec_record_of, spec_updated_value, AggregationMap, Record, RecordKey,
    RecordValue,
};
use crate::TransportProtocols;

verus! {

/// What the worker can be told to do.  Frames arrive as the raw bytes the
/// capture transport delivered, or as the description of a read failure.
pub enum WorkerCommand {
    Start,
    Pause,
    Stop,
    WriteFile,
    HandlePacket(Result<Vec<u8>, String>),
}

/// What the runtime around the worker must do after a step.
pub enum WorkerStep {
    /// Nothing: keep consuming commands.
    Continue,
    /// Begin emitting periodic flush commands.
    StartFlusher,
    /// Stop emitting periodic flush commands.
    StopFlusher,
    /// Write these rows as a new report file.
    Report(Vec<Record>),
    /// Leave the command loop.
    Exit,
    /// A capture read failed: the worker terminates with this description.
    Fatal(String),
}

/// The flow key of a parsed packet.
pub open spec fn spec_packet_key(p: TransportPacket) -> RecordKey {
    RecordKey {
        source_ip: p.source_ip,
        destination_ip: p.destination_ip,
        transport_protocol: p.transport_protocol,
        source_port: p.source_port,
        destination_port: p.destination_port,
    }
}

/// The filter composition rule: filters of the same kind combine
/// disjunctively, filters of different kinds conjunctively, and an empty
/// kind is unconstrained.
pub open spec fn spec_filters_accept(
    ip_filters: Seq<DirectedFilter<IpAddr>>,
    port_filters: Seq<DirectedFilter<u16>>,
    protocol_filter: Option<TransportProtocols>,
    p: TransportPacket,
) -> bool {
    &&& (ip_filters.len() == 0 || exists|i: int|
        0 <= i < ip_filters.len() && (#[trigger] ip_filters[i]).accepts(
            p.source_ip,
            p.destination_ip,
        ))
    &&& (port_filters.len() == 0 || exists|i: int|
        0 <= i < port_filters.len() && (#[trigger] port_filters[i]).accepts(
            p.source_port,
            p.destination_port,
        ))
    &&& (match protocol_filter {
        Some(q) => q == p.transport_protocol,
        None => true,
    })
}

/// An empty filter set constrains nothing: every packet is accepted.
pub proof fn lemma_empty_filter_kinds_unconstrained(p: TransportPacket)
    ensures
        spec_filters_accept(
            Seq::<DirectedFilter<IpAddr>>::empty(),
            Seq::<DirectedFilter<u16>>::empty(),
            None,
            p,
        ),
{
}

/// What becomes of a frame: `Some((key, bytes))` when it parses and the
/// filters accept it, `None` when it is dropped (parser rejection or filter
/// miss).
pub open spec fn spec_frame_disposition(
    ip_filters: Seq<DirectedFilter<IpAddr>>,
    port_filters: Seq<DirectedFilter<u16>>,
    protocol_filter: Option<TransportProtocols>,
    frame: Seq<u8>,
) -> Option<(RecordKey, usize)> {
    match spec_parse_frame(frame) {
        Ok(p) => if spec_filters_accept(ip_filters, port_filters, protocol_filter, p) {
            Some((spec_packet_key(p), p.bytes))
        } else {
            None
        },
        Err(_) => None,
    }
}

/// The aggregation rule: insert a fresh entry for an unknown key, else
/// accumulate bytes and advance `last_seen`, leaving `first_seen` alone.
pub open spec fn spec_map_after(
    m: Map<RecordKey, RecordValue>,
    k: RecordKey,
    bytes: usize,
    now: i64,
) -> Map<RecordKey, RecordValue> {
    if m.contains_key(k) {
        m.insert(k, spec_updated_value(m[k], bytes, now))
    } else {
        m.insert(k, spec_fresh_value(bytes, now))
    }
}

/// The command semantics on the worker's observable state `(paused, map)`:
/// `Start` resumes intake, `Pause` suspends it, `WriteFile` drains the map,
/// a frame while not paused is aggregated when accepted, and everything
/// else leaves the state alone.
pub open spec fn spec_step_state(
    ip_filters: Seq<DirectedFilter<IpAddr>>,
    port_filters: Seq<DirectedFilter<u16>>,
    protocol_filter: Option<TransportProtocols>,
    paused: bool,
    m: Map<RecordKey, RecordValue>,
    command: WorkerCommand,
    now: i64,
) -> (bool, Map<RecordKey, RecordValue>) {
    match command {
        WorkerCommand::Start => (false, m),
        WorkerCommand::Pause => (true, m),
        WorkerCommand::Stop => (paused, m),
        WorkerCommand::WriteFile => (paused, Map::empty()),
        WorkerCommand::HandlePacket(res) => match res {
            Ok(frame) => if paused {
                (true, m)
            } else {
                match spec_frame_disposition(ip_filters, port_filters, protocol_filter, frame@) {
                    Some(kb) => (false, spec_map_after(m, kb.0, kb.1, now)),
                    None => (false, m),
                }
            },
            Err(_) => (paused, m),
        },
    }
}

/// The capture worker's state.  The configuration fields are fixed at
/// construction; `is_paused`, `flusher_running` and `map` evolve with the
/// commands.
pub struct CapturerWorker {
    pub interface_name: String,
    pub report_path: String,
    pub report_interval_ms: Option<u64>,
    pub ip_filters: Vec<DirectedFilter<IpAddr>>,
    pub port_filters: Vec<DirectedFilter<u16>>,
    pub protocol_filter: Option<TransportProtocols>,
    pub is_paused: bool,
    pub flusher_running: bool,
    pub map: AggregationMap,
}

impl CapturerWorker {
    /// The map is well-formed, and the flusher can only be running when a
    /// flush interval was configured.
    pub open spec fn wf(self) -> bool {
        &&& self.map.wf()
        &&& self.flusher_running ==> self.report_interval_ms is Some
    }

    /// Whether this worker's filter set accepts the packet.
    pub open spec fn spec_accepts(self, p: TransportPacket) -> bool {
        spec_filters_accept(self.ip_filters@, self.port_filters@, self.protocol_filter, p)
    }

    /// A fresh worker: not paused, flusher not yet running, empty map.
    pub fn new(
        interface_name: String,
        report_path: String,
        report_interval_ms: Option<u64>,
        ip_filters: Vec<DirectedFilter<IpAddr>>,
        port_filters: Vec<DirectedFilter<u16>>,
        protocol_filter: Option<TransportProtocols>,
    ) -> (w: CapturerWorker)
        ensures
            w.wf(),
            w.interface_name == interface_name,
            w.report_path == report_path,
            w.report_interval_ms == report_interval_ms,
            w.ip_filters == ip_filters,
            w.port_filters == port_filters,
            w.protocol_filter == protocol_filter,
            !w.is_paused,
            !w.flusher_running,
            w.map@ == Map::<RecordKey, RecordValue>::empty(),
            w.map.pairs() == Seq::<(RecordKey, RecordValue)>::empty(),
    {
        CapturerWorker {
            interface_name,
            report_path,
            report_interval_ms,
            ip_filters,
            port_filters,
            protocol_filter,
            is_paused: false,
            flusher_running: false,
            map: AggregationMap::new(),
        }
    }

    /// The filter composition test for this worker's filter set.
    pub fn apply_filters(&self, packet_info: &TransportPacket) -> (r: bool)
        ensures
            r == self.spec_accepts(*packet_info),
    {
        if self.ip_filters.len() != 0 && !any_filter_accepts(
            &self.ip_filters,
            &packet_info.source_ip,
            &packet_info.destination_ip,
        ) {
            return false;
        }
        if self.port_filters.len() != 0 && !any_filter_accepts(
            &self.port_filters,
            &packet_info.source_port,
            &packet_info.destination_port,
        ) {
            return false;
        }
        match self.protocol_filter {
            Some(q) => q == packet_info.transport_protocol,
            None => true,
        }
    }

    /// One step of the worker: consume a command at time `now`, update the
    /// state as `spec_step_state` says, and tell the runtime what to do.
    ///
    /// A frame that was delivered intact never fails the worker, whether or
    /// not it parses: the step is `Continue`.  A failed capture read is
    /// fatal.  A flush is honoured even while paused.
    pub fn handle_command(&mut self, command: WorkerCommand, now: i64) -> (step: WorkerStep)
        requires
            old(self).wf(),
        ensures
            final(self).wf(),
            final(self).interface_name == old(self).interface_name,
            final(self).report_path == old(self).report_path,
            final(self).report_interval_ms == old(self).report_interval_ms,
            final(self).ip_filters == old(self).ip_filters,
            final(self).port_filters == old(self).port_filters,
            final(self).protocol_filter == old(self).protocol_filter,
            (final(self).is_paused, final(self).map@) == spec_step_state(
                old(self).ip_filters@,
                old(self).port_filters@,
                old(self).protocol_filter,
                old(self).is_paused,
                old(self).map@,
                command,
                now,
            ),
            command matches WorkerCommand::Start ==> {
                &&& final(self).flusher_running == (old(self).report_interval_ms is Some)
                &&& step == (if old(self).report_interval_ms is Some && !old(
                    self,
                ).flusher_running {
                    WorkerStep::StartFlusher
                } else {
                    WorkerStep::Continue
                })
            },
            command matches WorkerCommand::Pause ==> {
                &&& !final(self).flusher_running
                &&& step == (if old(self).flusher_running {
                    WorkerStep::StopFlusher
                } else {
                    WorkerStep::Continue
                })
            },
            !(command matches WorkerCommand::Start) && !(command matches WorkerCommand::Pause)
                ==> final(self).flusher_running == old(self).flusher_running,
            command matches WorkerCommand::Stop ==> step == WorkerStep::Exit,
            command matches WorkerCommand::WriteFile ==> (step matches WorkerStep::Report(rows)
                && rows@.len() == old(self).map.pairs().len() && (forall|i: int|
                0 <= i < rows@.len() ==> rows@[i] == spec_record_of(
                    (#[trigger] old(self).map.pairs()[i]).0,
                    old(self).map.pairs()[i].1,
                ))),
            command matches WorkerCommand::HandlePacket(Ok(_)) ==> step
                == WorkerStep::Continue,
            command matches WorkerCommand::HandlePacket(Err(e)) ==> step == WorkerStep::Fatal(e),
    {
        match command {
            WorkerCommand::Start => {
                self.is_paused = false;
                if self.report_interval_ms.is_some() && !self.flusher_running {
                    self.flusher_running = true;
                    WorkerStep::StartFlusher
                } else {
                    WorkerStep::Continue
                }
            },
            WorkerCommand::Pause => {
                self.is_paused = true;
                if self.flusher_running {
                    self.flusher_running = false;
                    WorkerStep::StopFlusher
                } else {
                    WorkerStep::Continue
                }
            },
            WorkerCommand::Stop => WorkerStep::Exit,
            WorkerCommand::WriteFile => {
                let rows = self.map.drain_records();
                WorkerStep::Report(rows)
            },
            WorkerCommand::HandlePacket(delivery) => match delivery {
                Ok(frame) => {
                    if self.is_paused {
                        return WorkerStep::Continue;
                    }
                    match parse_transport_packet(frame) {
                        Ok(packet_info) => {
                            if self.apply_filters(&packet_info) {
                                let key = RecordKey {
                                    source_ip: packet_info.source_ip,
                                    destination_ip: packet_info.destination_ip,
                                    transport_protocol: packet_info.transport_protocol,
                                    source_port: packet_info.source_port,
                                    destination_port: packet_info.destination_port,
                                };
                                self.map.update(key, packet_info.bytes, now);
                            }
                            WorkerStep::Continue
                        },
                        Err(_) => WorkerStep::Continue,
                    }
                },
                Err(e) => WorkerStep::Fatal(e),
            },
        }
    }

    /// Consume a command at the present wall-clock time: `handle_command`
    /// with `now` read from the system clock.  Everything the step
    /// guarantees holds for some time value; only the timestamps written
    /// into the map depend on it.
    pub fn handle_command_now(&mut self, command: WorkerCommand) -> (step: WorkerStep)
        requires
            old(self).wf(),
        ensures
            final(self).wf(),
            final(self).interface_name == old(self).interface_name,
            final(self).report_path == old(self).report_path,
            final(self).report_interval_ms == old(self).report_interval_ms,
            final(self).ip_filters == old(self).ip_filters,
            final(self).port_filters == old(self).port_filters,
            final(self).protocol_filter == old(self).protocol_filter,
            exists|now: i64|
                (final(self).is_paused, final(self).map@) == spec_step_state(
                    old(self).ip_filters@,
                    old(self).port_filters@,
                    old(self).protocol_filter,
                    old(self).is_paused,
                    old(self).map@,
                    command,
                    now,
                ),
            command matches WorkerCommand::Start ==> {
                &&& final(self).flusher_running == (old(self).report_interval_ms is Some)
                &&& step == (if old(self).report_interval_ms is Some && !old(
                    self,
                ).flusher_running {
                    WorkerStep::StartFlusher
                } else {
                    WorkerStep::Continue
                })
            },
            command matches WorkerCommand::Pause ==> {
                &&& !final(self).flusher_running
                &&& step == (if old(self).flusher_running {
                    WorkerStep::StopFlusher
                } else {
                    WorkerStep::Continue
                })
            },
            !(command matches WorkerCommand::Start) && !(command matches WorkerCommand::Pause)
                ==> final(self).flusher_running == old(self).flusher_running,
            command matches WorkerCommand::Stop ==> step == WorkerStep::Exit,
            command matches WorkerCommand::WriteFile ==> (step matches WorkerStep::Report(rows)
                && rows@.len() == old(self).map.pairs().len() && (forall|i: int|
                0 <= i < rows@.len() ==> rows@[i] == spec_record_of(
                    (#[trigger] old(self).map.pairs()[i]).0,
                    old(self).map.pairs()[i].1,
                ))),
            command matches WorkerCommand::HandlePacket(Ok(_)) ==> step
                == WorkerStep::Continue,
            command matches WorkerCommand::HandlePacket(Err(e)) ==> step == WorkerStep::Fatal(e),
    {
        let now = crate::clock::timestamp_now();
        self.handle_command(command, now)
    }
}

/// Whether any filter of the list accepts the `(source, destination)` pair.
fn any_filter_accepts<T: Orderable>(filters: &Vec<DirectedFilter<T>>, source: &T, destination: &T) -> (r:
    bool)
    ensures
        r == exists|i: int|
            0 <= i < filters@.len() && (#[trigger] filters@[i]).accepts(*source, *destination),
{
    let mut i: usize = 0;
    let n = filters.len();
    while i < n
        invariant
            0 <= i <= n,
            n == filters@.len(),
            forall|j: int| 0 <= j < i ==> !(#[trigger] filters@[j]).accepts(*source, *destination),
        decreases n - i,
    {
        if filters[i].filter(source, destination) {
            return true;
        }
        i = i + 1;
    }
    false
}

} // verus!
