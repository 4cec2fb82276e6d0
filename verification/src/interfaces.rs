//! Network interfaces as the selection logic sees them.
//!
//! The capture transport enumerates the host's interfaces; what the
//! library needs of each is a handful of plain values.  Selection by name,
//! description or index takes the first interface that matches, as the
//! enumeration ordered them; the default choice prefers, among the
//! interfaces that look usable, the one with the most addresses, taking
//! the later one on a tie.

use vstd::prelude::*;
use crate::addr::IpAddr;

verus! {

/// One host interface, as plain values.
pub struct InterfaceInfo {
    pub name: String,
    pub description: String,
    pub index: u32,
    pub is_loopback: bool,
    pub is_up: bool,
    pub is_running: bool,
    pub has_mac: bool,
    pub ips: Vec<IpAddr>,
}

impl InterfaceInfo {
    /// An interface the default choice may pick: not loopback,
    /// administratively up and running, with a hardware address and at
    /// least one assigned IP.
    pub open spec fn spec_usable(self) -> bool {
        &&& !self.is_loopback
        &&& self.is_up
        &&& self.is_running
        &&& self.has_mac
        &&& self.ips@.len() > 0
    }
}

/// The first interface called `name`, if any.
pub fn get_interface_by_name<'a>(interfaces: &'a Vec<InterfaceInfo>, name: &str) -> (r: Option<
    &'a InterfaceInfo,
>)
    ensures
        match r {
            Some(found) => exists|i: int|
                0 <= i < interfaces@.len() && *found == interfaces@[i] && (
                #[trigger] interfaces@[i]).name@ == name@ && (forall|j: int|
                    0 <= j < i ==> (#[trigger] interfaces@[j]).name@ != name@),
            None => forall|i: int|
                0 <= i < interfaces@.len() ==> (#[trigger] interfaces@[i]).name@ != name@,
        },
{
    let wanted: String = name.to_owned();
    let mut i: usize = 0;
    let n = interfaces.len();
    while i < n
        invariant
            0 <= i <= n,
            n == interfaces@.len(),
            wanted@ == name@,
            forall|j: int| 0 <= j < i ==> (#[trigger] interfaces@[j]).name@ != name@,
        decreases n - i,
    {
        if interfaces[i].name == wanted {
            return Some(&interfaces[i]);
        }
        i = i + 1;
    }
    None
}

/// The first interface with the given `description`, if any.
pub fn get_interface_by_description<'a>(
    interfaces: &'a Vec<InterfaceInfo>,
    description: &str,
) -> (r: Option<&'a InterfaceInfo>)
    ensures
        match r {
            Some(found) => exists|i: int|
                0 <= i < interfaces@.len() && *found == interfaces@[i] && (
                #[trigger] interfaces@[i]).description@ == description@ && (forall|j: int|
                    0 <= j < i ==> (#[trigger] interfaces@[j]).description@ != description@),
            None => forall|i: int|
                0 <= i < interfaces@.len() ==> (#[trigger] interfaces@[i]).description@
                    != description@,
        },
{
    let wanted: String = description.to_owned();
    let mut i: usize = 0;
    let n = interfaces.len();
    while i < n
        invariant
            0 <= i <= n,
            n == interfaces@.len(),
            wanted@ == description@,
            forall|j: int| 0 <= j < i ==> (#[trigger] interfaces@[j]).description@ != description@,
        decreases n - i,
    {
        if interfaces[i].description == wanted {
            return Some(&interfaces[i]);
        }
        i = i + 1;
    }
    None
}

/// The first interface with the given `index`, if any.
pub fn get_interface_by_index<'a>(interfaces: &'a Vec<InterfaceInfo>, index: u32) -> (r: Option<
    &'a InterfaceInfo,
>)
    ensures
        match r {
            Some(found) => exists|i: int|
                0 <= i < interfaces@.len() && *found == interfaces@[i] && (
                #[trigger] interfaces@[i]).index == index && (forall|j: int|
                    0 <= j < i ==> (#[trigger] interfaces@[j]).index != index),
            None => forall|i: int|
                0 <= i < interfaces@.len() ==> (#[trigger] interfaces@[i]).index != index,
        },
{
    let mut i: usize = 0;
    let n = interfaces.len();
    while i < n
        invariant
            0 <= i <= n,
            n == interfaces@.len(),
            forall|j: int| 0 <= j < i ==> (#[trigger] interfaces@[j]).index != index,
        decreases n - i,
    {
        if interfaces[i].index == index {
            return Some(&interfaces[i]);
        }
        i = i + 1;
    }
    None
}

/// The default capture interface: among the usable interfaces, the one
/// with the most assigned addresses; on a tie, the one the enumeration
/// listed later.  `None` when no interface is usable.
pub fn pick_default_interface(interfaces: &Vec<InterfaceInfo>) -> (r: Option<usize>)
    ensures
        match r {
            Some(i) => 0 <= i < interfaces@.len() && interfaces@[i as int].spec_usable() && (
            forall|j: int|
                0 <= j < interfaces@.len() && (#[trigger] interfaces@[j]).spec_usable() ==> (
                interfaces@[j].ips@.len() < interfaces@[i as int].ips@.len() || (
                interfaces@[j].ips@.len() == interfaces@[i as int].ips@.len() && j <= i))),
            None => forall|j: int|
                0 <= j < interfaces@.len() ==> !(#[trigger] interfaces@[j]).spec_usable(),
        },
{
    let mut best: Option<usize> = None;
    let mut i: usize = 0;
    let n = interfaces.len();
    while i < n
        invariant
            0 <= i <= n,
            n == interfaces@.len(),
            match best {
                Some(b) => 0 <= b < i && interfaces@[b as int].spec_usable() && (forall|j: int|
                    0 <= j < i && (#[trigger] interfaces@[j]).spec_usable() ==> (
                    interfaces@[j].ips@.len() < interfaces@[b as int].ips@.len() || (
                    interfaces@[j].ips@.len() == interfaces@[b as int].ips@.len() && j <= b))),
                None => forall|j: int| 0 <= j < i ==> !(#[trigger] interfaces@[j]).spec_usable(),
            },
        decreases n - i,
    {
        let candidate = &interfaces[i];
        let usable = !candidate.is_loopback && candidate.is_up && candidate.is_running
            && candidate.has_mac && candidate.ips.len() > 0;
        if usable {
            match best {
                Some(b) => {
                    if interfaces[b].ips.len() > interfaces[i].ips.len() {
                    } else {
                        best = Some(i);
                    }
                },
                None => {
                    best = Some(i);
                },
            }
        }
        i = i + 1;
    }
    best
}

} // verus!
