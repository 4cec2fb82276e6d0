//! The capturer builder.
//!
//! A consuming builder: each setter takes the builder and hands it back
//! with one field changed, and `build` validates the configuration against
//! the enumerated interfaces and constructs the worker.  The interface is
//! chosen by name, by description or by index; the three selectors
//! override one another, last write wins.

use vstd::prelude::*;
use crate::addr::IpAddr;
use crate::error::WeirdsharkError;
use crate::filters::{DirectedFilter, Filter};
use crate::interfaces::InterfaceInfo;
use crate::worker::CapturerWorker;
use crate::TransportProtocols;

verus! {

/// How the capture interface is chosen.
pub enum InterfaceSelector {
    ByName(String),
    ByDescription(String),
    ByIndex(u32),
}

/// Whether `interface` is the one the selector asks for.
pub open spec fn spec_selector_matches(selector: InterfaceSelector, interface: InterfaceInfo) -> bool {
    match selector {
        InterfaceSelector::ByName(name) => interface.name@ == name@,
        InterfaceSelector::ByDescription(description) => interface.description@ == description@,
        InterfaceSelector::ByIndex(index) => interface.index == index,
    }
}

/// Accumulates the capture configuration.
pub struct CapturerBuilder {
    pub selector: Option<InterfaceSelector>,
    pub report_path: String,
    pub report_interval_ms: Option<u64>,
    pub ip_filters: Vec<DirectedFilter<IpAddr>>,
    pub port_filters: Vec<DirectedFilter<u16>>,
    pub transport_protocol: Option<TransportProtocols>,
}

impl CapturerBuilder {
    /// An empty configuration: no interface chosen, reports in the current
    /// directory, no periodic flush, no filters.
    pub fn new() -> (b: CapturerBuilder)
        ensures
            b.selector is None,
            b.report_path@ == Seq::<char>::empty(),
            b.report_interval_ms is None,
            b.ip_filters@ == Seq::<DirectedFilter<IpAddr>>::empty(),
            b.port_filters@ == Seq::<DirectedFilter<u16>>::empty(),
            b.transport_protocol is None,
    {
        CapturerBuilder {
            selector: None,
            report_path: String::new(),
            report_interval_ms: None,
            ip_filters: Vec::new(),
            port_filters: Vec::new(),
            transport_protocol: None,
        }
    }

    /// Choose the capture interface by its name.
    pub fn interface_by_name(self, name: &str) -> (r: CapturerBuilder)
        ensures
            r == (CapturerBuilder {
                selector: r.selector,
                ..self
            }),
            r.selector matches Some(InterfaceSelector::ByName(n)) && n@ == name@,
    {
        CapturerBuilder { selector: Some(InterfaceSelector::ByName(name.to_owned())), ..self }
    }

    /// Choose the capture interface by its description.
    pub fn interface_by_description(self, description: &str) -> (r: CapturerBuilder)
        ensures
            r == (CapturerBuilder {
                selector: r.selector,
                ..self
            }),
            r.selector matches Some(InterfaceSelector::ByDescription(d)) && d@ == description@,
    {
        CapturerBuilder {
            selector: Some(InterfaceSelector::ByDescription(description.to_owned())),
            ..self
        }
    }

    /// Choose the capture interface by its index.
    pub fn interface_by_index(self, index: u32) -> (r: CapturerBuilder)
        ensures
            r == (CapturerBuilder {
                selector: r.selector,
                ..self
            }),
            r.selector == Some(InterfaceSelector::ByIndex(index)),
    {
        CapturerBuilder { selector: Some(InterfaceSelector::ByIndex(index)), ..self }
    }

    /// Set the directory reports are written to.
    pub fn report_path(self, path: &str) -> (r: CapturerBuilder)
        ensures
            r == (CapturerBuilder {
                report_path: r.report_path,
                ..self
            }),
            r.report_path@ == path@,
    {
        CapturerBuilder { report_path: path.to_owned(), ..self }
    }

    /// Set the interval, in milliseconds, after which a report is
    /// generated; `None` turns periodic reports off.
    pub fn report_interval(self, interval_ms: Option<u64>) -> (r: CapturerBuilder)
        ensures
            r == (CapturerBuilder {
                report_interval_ms: interval_ms,
                ..self
            }),
    {
        CapturerBuilder { report_interval_ms: interval_ms, ..self }
    }

    /// Add a directed filter on IP addresses.  Filters of the same kind
    /// combine disjunctively, filters of different kinds conjunctively.
    pub fn add_directed_filter_ip(self, filter: DirectedFilter<IpAddr>) -> (r: CapturerBuilder)
        ensures
            r == (CapturerBuilder {
                ip_filters: r.ip_filters,
                ..self
            }),
            r.ip_filters@ == self.ip_filters@.push(filter),
    {
        let mut b = self;
        b.ip_filters.push(filter);
        b
    }

    /// Add an undirected filter on IP addresses: it accepts a packet when
    /// either the source or the destination address matches.
    pub fn add_undirected_filter_ip(self, filter: Filter<IpAddr>) -> (r: CapturerBuilder)
        ensures
            r == (CapturerBuilder {
                ip_filters: r.ip_filters,
                ..self
            }),
            r.ip_filters@.len() == self.ip_filters@.len() + 1,
            forall|i: int| 0 <= i < self.ip_filters@.len() ==> r.ip_filters@[i] == self.ip_filters@[i],
            forall|s: IpAddr, d: IpAddr|
                #[trigger] r.ip_filters@.last().accepts(s, d) <==> (filter.matches(s)
                    || filter.matches(d)),
    {
        let mut b = self;
        b.ip_filters.push(DirectedFilter::both_directions(filter));
        b
    }

    /// Add a directed filter on ports.
    pub fn add_directed_filter_port(self, filter: DirectedFilter<u16>) -> (r: CapturerBuilder)
        ensures
            r == (CapturerBuilder {
                port_filters: r.port_filters,
                ..self
            }),
            r.port_filters@ == self.port_filters@.push(filter),
    {
        let mut b = self;
        b.port_filters.push(filter);
        b
    }

    /// Add an undirected filter on ports: it accepts a packet when either
    /// the source or the destination port matches.
    pub fn add_undirected_filter_port(self, filter: Filter<u16>) -> (r: CapturerBuilder)
        ensures
            r == (CapturerBuilder {
                port_filters: r.port_filters,
                ..self
            }),
            r.port_filters@.len() == self.port_filters@.len() + 1,
            forall|i: int|
                0 <= i < self.port_filters@.len() ==> r.port_filters@[i] == self.port_filters@[i],
            forall|s: u16, d: u16|
                #[trigger] r.port_filters@.last().accepts(s, d) <==> (filter.matches(s)
                    || filter.matches(d)),
    {
        let mut b = self;
        b.port_filters.push(DirectedFilter::both_directions(filter));
        b
    }

    /// Constrain the transport protocol, or lift the constraint with
    /// `None`.
    pub fn add_transport_protocol_filter(self, transport_protocol: Option<TransportProtocols>) -> (r:
        CapturerBuilder)
        ensures
            r == (CapturerBuilder {
                transport_protocol: transport_protocol,
                ..self
            }),
    {
        CapturerBuilder { transport_protocol: transport_protocol, ..self }
    }

    /// Validate the configuration against the enumerated `interfaces` and
    /// construct the worker.
    ///
    /// Fails with `InterfaceNotSpecified` when no selector was given, and
    /// with `InterfaceNotFound` when no interface matches the selector;
    /// otherwise the worker captures on the first matching interface,
    /// starts unpaused with an empty map, and carries this configuration.
    pub fn build(self, interfaces: &Vec<InterfaceInfo>) -> (r: Result<
        CapturerWorker,
        WeirdsharkError,
    >)
        ensures
            self.selector is None ==> r == Err::<CapturerWorker, _>(
                WeirdsharkError::InterfaceNotSpecified,
            ),
            self.selector is Some && (forall|i: int|
                0 <= i < interfaces@.len() ==> !spec_selector_matches(
                    self.selector.unwrap(),
                    #[trigger] interfaces@[i],
                )) ==> r == Err::<CapturerWorker, _>(WeirdsharkError::InterfaceNotFound),
            self.selector is Some && (exists|i: int|
                0 <= i < interfaces@.len() && spec_selector_matches(
                    self.selector.unwrap(),
                    #[trigger] interfaces@[i],
                )) ==> (r is Ok && exists|i: int|
                {
                    &&& 0 <= i < interfaces@.len()
                    &&& spec_selector_matches(self.selector.unwrap(), #[trigger] interfaces@[i])
                    &&& forall|j: int|
                        0 <= j < i ==> !spec_selector_matches(
                            self.selector.unwrap(),
                            #[trigger] interfaces@[j],
                        )
                    &&& r->Ok_0.interface_name == interfaces@[i].name
                    &&& r->Ok_0.report_path == self.report_path
                    &&& r->Ok_0.report_interval_ms == self.report_interval_ms
                    &&& r->Ok_0.ip_filters == self.ip_filters
                    &&& r->Ok_0.port_filters == self.port_filters
                    &&& r->Ok_0.protocol_filter == self.transport_protocol
                    &&& !r->Ok_0.is_paused
                    &&& !r->Ok_0.flusher_running
                    &&& r->Ok_0.map@ == Map::<crate::records::RecordKey,
                        crate::records::RecordValue>::empty()
                    &&& r->Ok_0.wf()
                }),
    {
        let selector = match self.selector {
            Some(s) => s,
            None => {
                return Err(WeirdsharkError::InterfaceNotSpecified);
            },
        };
        let found = find_first_match(interfaces, &selector);
        match found {
            Some(i) => {
                let name: String = interfaces[i].name.clone();
                Ok(
                    CapturerWorker::new(
                        name,
                        self.report_path,
                        self.report_interval_ms,
                        self.ip_filters,
                        self.port_filters,
                        self.transport_protocol,
                    ),
                )
            },
            None => Err(WeirdsharkError::InterfaceNotFound),
        }
    }
}

/// The first interface the selector matches.
fn find_first_match(interfaces: &Vec<InterfaceInfo>, selector: &InterfaceSelector) -> (r: Option<
    usize,
>)
    ensures
        match r {
            Some(i) => 0 <= i < interfaces@.len() && spec_selector_matches(
                *selector,
                interfaces@[i as int],
            ) && (forall|j: int|
                0 <= j < i ==> !spec_selector_matches(*selector, #[trigger] interfaces@[j])),
            None => forall|j: int|
                0 <= j < interfaces@.len() ==> !spec_selector_matches(
                    *selector,
                    #[trigger] interfaces@[j],
                ),
        },
{
    let mut i: usize = 0;
    let n = interfaces.len();
    while i < n
        invariant
            0 <= i <= n,
            n == interfaces@.len(),
            forall|j: int|
                0 <= j < i ==> !spec_selector_matches(*selector, #[trigger] interfaces@[j]),
        decreases n - i,
    {
        let hit = match selector {
            InterfaceSelector::ByName(name) => interfaces[i].name == *name,
            InterfaceSelector::ByDescription(description) => interfaces[i].description
                == *description,
            InterfaceSelector::ByIndex(index) => interfaces[i].index == *index,
        };
        if hit {
            return Some(i);
        }
        i = i + 1;
    }
    None
}

} // verus!
