//! Passive network traffic recorder: parses link-layer frames up to the
//! transport header, filters them against a configurable predicate set, and
//! aggregates accepted packets into per-flow counters keyed by the 5-tuple
//! (source address, destination address, protocol, source port, destination
//! port).

use vstd::prelude::*;

pub mod addr;
pub mod builder;
mod clock;
pub mod error;
pub mod filters;
pub mod guarantees;
pub mod interfaces;
pub mod parser;
pub mod records;
pub mod report;
pub mod scheduler;
pub mod worker;

pub use addr::IpAddr;
pub use builder::{CapturerBuilder, InterfaceSelector};
pub use error::WeirdsharkError;
pub use filters::{DirectedFilter, Filter, Orderable};
pub use guarantees::{spec_reports, spec_run};
pub use interfaces::{
    get_interface_by_description, get_interface_by_index, get_interface_by_name,
    pick_default_interface, InterfaceInfo,
};
pub use parser::{parse_transport_packet, TransportPacket};
pub use records::{AggregationMap, Record, RecordKey, RecordValue};
pub use report::{make_report_name, report_file_name};
pub use scheduler::WriteScheduler;
pub use worker::{CapturerWorker, WorkerCommand, WorkerStep};

verus! {

/// Transport protocols recognised by the parser and recorded in reports.
#[derive(Debug, Clone, Copy, PartialEq, Eq, Hash, Structural)]
pub enum TransportProtocols {
    TCP,
    UDP,
}

} // verus!
