//! Flow records and the aggregation map.
//!
//! A flow is identified by its 5-tuple key; its value carries the cumulative
//! byte count and the first and last time the flow was seen.  The
//! aggregation map holds one value per key; on each accepted packet the
//! worker either inserts a fresh entry or adds the frame length to the
//! existing one and advances `last_seen`.  The byte counter saturates at the
//! machine limit instead of overflowing.

use vstd::prelude::*;
use crate::addr::IpAddr;
use crate::TransportProtocols;

verus! {

/// The 5-tuple that identifies a flow.
#[derive(Debug, Clone, Copy, PartialEq, Eq, Hash, Structural)]
pub struct RecordKey {
    pub source_ip: IpAddr,
    pub destination_ip: IpAddr,
    pub transport_protocol: TransportProtocols,
    pub source_port: u16,
    pub destination_port: u16,
}

/// What is accumulated per flow.  Timestamps count seconds since the Unix
/// epoch; `first_seen <= last_seen` is an invariant of every map entry.
#[derive(Debug, Clone, Copy, PartialEq, Eq, Structural)]
pub struct RecordValue {
    pub bytes: usize,
    pub first_seen: i64,
    pub last_seen: i64,
}

/// One row of a report: a flow key with its accumulated value.
#[derive(Debug, Clone, Copy, PartialEq, Eq, Structural)]
pub struct Record {
    pub source_ip: IpAddr,
    pub destination_ip: IpAddr,
    pub transport_protocol: TransportProtocols,
    pub source_port: u16,
    pub destination_port: u16,
    pub bytes: usize,
    pub first_seen: i64,
    pub last_seen: i64,
}

/// The report row for key `k` with value `v`.
pub open spec fn spec_record_of(k: RecordKey, v: RecordValue) -> Record {
    Record {
        source_ip: k.source_ip,
        destination_ip: k.destination_ip,
        transport_protocol: k.transport_protocol,
        source_port: k.source_port,
        destination_port: k.destination_port,
        bytes: v.bytes,
        first_seen: v.first_seen,
        last_seen: v.last_seen,
    }
}

/// The key fields of a report row.
pub open spec fn spec_key_of(r: Record) -> RecordKey {
    RecordKey {
        source_ip: r.source_ip,
        destination_ip: r.destination_ip,
        transport_protocol: r.transport_protocol,
        source_port: r.source_port,
        destination_port: r.destination_port,
    }
}

impl Record {
    pub fn from_key_value(k: RecordKey, v: RecordValue) -> (r: Record)
        ensures
            r == spec_record_of(k, v),
    {
        Record {
            source_ip: k.source_ip,
            destination_ip: k.destination_ip,
            transport_protocol: k.transport_protocol,
            source_port: k.source_port,
            destination_port: k.destination_port,
            bytes: v.bytes,
            first_seen: v.first_seen,
            last_seen: v.last_seen,
        }
    }
}

/// How an existing entry changes when a packet of `bytes` bytes arrives at
/// time `now`: the counter grows (saturating), `first_seen` stays, and
/// `last_seen` advances to `now` unless the entry is already later.
pub open spec fn spec_updated_value(v: RecordValue, bytes: usize, now: i64) -> RecordValue {
    RecordValue {
        bytes: v.bytes.saturating_add(bytes),
        first_seen: v.first_seen,
        last_seen: if now >= v.last_seen {
            now
        } else {
            v.last_seen
        },
    }
}

/// The entry created for a key first seen at time `now`.
pub open spec fn spec_fresh_value(bytes: usize, now: i64) -> RecordValue {
    RecordValue { bytes: bytes, first_seen: now, last_seen: now }
}

/// Whether some pair of `s` carries the key `k`.
pub open spec fn has_key(s: Seq<(RecordKey, RecordValue)>, k: RecordKey) -> bool {
    exists|i: int| 0 <= i < s.len() && (#[trigger] s[i]).0 == k
}

/// Whether the keys of `s` are pairwise distinct.
pub open spec fn unique_keys(s: Seq<(RecordKey, RecordValue)>) -> bool {
    forall|i: int, j: int|
        0 <= i < j < s.len() ==> (#[trigger] s[i]).0 != (#[trigger] s[j]).0
}

/// The map that a sequence of key-value pairs denotes; on a duplicate key
/// the later pair wins.
pub open spec fn pairs_to_map(s: Seq<(RecordKey, RecordValue)>) -> Map<RecordKey, RecordValue>
    decreases s.len(),
{
    if s.len() == 0 {
        Map::empty()
    } else {
        pairs_to_map(s.drop_last()).insert(s.last().0, s.last().1)
    }
}

pub proof fn lemma_pairs_to_map_dom(s: Seq<(RecordKey, RecordValue)>, k: RecordKey)
    ensures
        pairs_to_map(s).contains_key(k) <==> has_key(s, k),
    decreases s.len(),
{
    if s.len() == 0 {
    } else {
        lemma_pairs_to_map_dom(s.drop_last(), k);
        if has_key(s, k) {
            let i = choose|i: int| 0 <= i < s.len() && (#[trigger] s[i]).0 == k;
            if i < s.len() - 1 {
                assert(s.drop_last()[i].0 == k);
            }
        }
        if has_key(s.drop_last(), k) {
            let i = choose|i: int|
                0 <= i < s.drop_last().len() && (#[trigger] s.drop_last()[i]).0 == k;
            assert(s[i].0 == k);
        }
        if s.last().0 == k {
            assert(s[s.len() - 1].0 == k);
        }
    }
}

pub proof fn lemma_pairs_to_map_value(s: Seq<(RecordKey, RecordValue)>, i: int)
    requires
        unique_keys(s),
        0 <= i < s.len(),
    ensures
        pairs_to_map(s).contains_key(s[i].0),
        pairs_to_map(s)[s[i].0] == s[i].1,
    decreases s.len(),
{
    if i == s.len() - 1 {
    } else {
        assert(forall|a: int, b: int|
            0 <= a < b < s.drop_last().len() ==> (#[trigger] s.drop_last()[a]).0 != (
            #[trigger] s.drop_last()[b]).0);
        lemma_pairs_to_map_value(s.drop_last(), i);
        assert(s.drop_last()[i] == s[i]);
        assert(s.last().0 != s[i].0);
    }
}

proof fn lemma_pairs_to_map_update(s: Seq<(RecordKey, RecordValue)>, i: int, v: RecordValue)
    requires
        unique_keys(s),
        0 <= i < s.len(),
    ensures
        pairs_to_map(s.update(i, (s[i].0, v))) == pairs_to_map(s).insert(s[i].0, v),
    decreases s.len(),
{
    let t = s.update(i, (s[i].0, v));
    if i == s.len() - 1 {
        assert(t.drop_last() =~= s.drop_last());
        assert(t.last() == (s[i].0, v));
        assert(pairs_to_map(t) =~= pairs_to_map(s).insert(s[i].0, v));
    } else {
        assert(forall|a: int, b: int|
            0 <= a < b < s.drop_last().len() ==> (#[trigger] s.drop_last()[a]).0 != (
            #[trigger] s.drop_last()[b]).0);
        lemma_pairs_to_map_update(s.drop_last(), i, v);
        assert(t.drop_last() =~= s.drop_last().update(i, (s[i].0, v)));
        assert(t.last() == s.last());
        assert(s.last().0 != s[i].0);
        assert(pairs_to_map(t) =~= pairs_to_map(s).insert(s[i].0, v));
    }
}

/// The aggregation map: one value per flow key, keys pairwise distinct, and
/// `first_seen <= last_seen` in every entry.
pub struct AggregationMap {
    entries: Vec<(RecordKey, RecordValue)>,
}

impl View for AggregationMap {
    type V = Map<RecordKey, RecordValue>;

    closed spec fn view(&self) -> Map<RecordKey, RecordValue> {
        pairs_to_map(self.entries@)
    }
}

impl AggregationMap {
    /// The entries in insertion order.
    pub closed spec fn pairs(self) -> Seq<(RecordKey, RecordValue)> {
        self.entries@
    }

    /// Well-formedness: pairwise distinct keys, and each value with
    /// `first_seen <= last_seen`.
    pub open spec fn wf(self) -> bool {
        &&& unique_keys(self.pairs())
        &&& forall|i: int|
            0 <= i < self.pairs().len() ==> (#[trigger] self.pairs()[i]).1.first_seen
                <= self.pairs()[i].1.last_seen
    }

    /// The view is exactly the pairs: same keys, and each pair's value.
    pub proof fn lemma_view_pairs(self)
        requires
            self.wf(),
        ensures
            forall|k: RecordKey| self@.contains_key(k) <==> has_key(self.pairs(), k),
            forall|i: int|
                0 <= i < self.pairs().len() ==> self@.contains_key(
                    (#[trigger] self.pairs()[i]).0,
                ) && self@[self.pairs()[i].0] == self.pairs()[i].1,
    {
        assert forall|k: RecordKey| self@.contains_key(k) <==> has_key(self.pairs(), k) by {
            lemma_pairs_to_map_dom(self.pairs(), k);
        }
        assert forall|i: int| 0 <= i < self.pairs().len() implies self@.contains_key(
            (#[trigger] self.pairs()[i]).0,
        ) && self@[self.pairs()[i].0] == self.pairs()[i].1 by {
            lemma_pairs_to_map_value(self.pairs(), i);
        }
    }

    /// In a well-formed map every recorded flow was first seen no later
    /// than it was last seen.
    pub proof fn lemma_timestamps_ordered(self, k: RecordKey)
        requires
            self.wf(),
            self@.contains_key(k),
        ensures
            self@[k].first_seen <= self@[k].last_seen,
    {
        lemma_pairs_to_map_dom(self.pairs(), k);
        let i = choose|i: int| 0 <= i < self.pairs().len() && (#[trigger] self.pairs()[i]).0 == k;
        lemma_pairs_to_map_value(self.pairs(), i);
    }

    pub fn new() -> (r: Self)
        ensures
            r.wf(),
            r@ == Map::<RecordKey, RecordValue>::empty(),
            r.pairs() == Seq::<(RecordKey, RecordValue)>::empty(),
    {
        let r = AggregationMap { entries: Vec::new() };
        proof {
            assert(r.pairs() =~= Seq::<(RecordKey, RecordValue)>::empty());
        }
        r
    }

    /// Number of flows currently held.
    pub fn len(&self) -> (n: usize)
        ensures
            n == self.pairs().len(),
    {
        self.entries.len()
    }

    fn find(&self, key: &RecordKey) -> (r: Option<usize>)
        ensures
            match r {
                Some(i) => i < self.pairs().len() && self.pairs()[i as int].0 == *key,
                None => !has_key(self.pairs(), *key),
            },
    {
        let mut i: usize = 0;
        let n = self.entries.len();
        while i < n
            invariant
                0 <= i <= n,
                n == self.entries@.len(),
                forall|j: int| 0 <= j < i ==> (#[trigger] self.entries@[j]).0 != *key,
            decreases n - i,
        {
            if self.entries[i].0 == *key {
                return Some(i);
            }
            i = i + 1;
        }
        None
    }

    /// Whether the map holds an entry for `key`.
    pub fn contains(&self, key: &RecordKey) -> (r: bool)
        ensures
            r == self@.contains_key(*key),
    {
        proof {
            lemma_pairs_to_map_dom(self.pairs(), *key);
        }
        match self.find(key) {
            Some(_) => true,
            None => false,
        }
    }

    /// The value held for `key`, if any.
    pub fn get(&self, key: &RecordKey) -> (r: Option<RecordValue>)
        requires
            self.wf(),
        ensures
            match r {
                Some(v) => self@.contains_key(*key) && v == self@[*key],
                None => !self@.contains_key(*key),
            },
    {
        proof {
            lemma_pairs_to_map_dom(self.pairs(), *key);
        }
        match self.find(key) {
            Some(i) => {
                proof {
                    lemma_pairs_to_map_value(self.pairs(), i as int);
                }
                Some(self.entries[i].1)
            },
            None => None,
        }
    }

    /// Record an accepted packet of `bytes` bytes for `key` at time `now`:
    /// insert a fresh entry, or accumulate into the existing one.
    pub fn update(&mut self, key: RecordKey, bytes: usize, now: i64)
        requires
            old(self).wf(),
        ensures
            final(self).wf(),
            old(self)@.contains_key(key) ==> final(self)@ == old(self)@.insert(
                key,
                spec_updated_value(old(self)@[key], bytes, now),
            ),
            !old(self)@.contains_key(key) ==> final(self)@ == old(self)@.insert(
                key,
                spec_fresh_value(bytes, now),
            ),
            final(self)@.contains_key(key),
            forall|k: RecordKey| #[trigger]
                final(self)@.contains_key(k) <==> (old(self)@.contains_key(k) || k == key),
    {
        proof {
            lemma_pairs_to_map_dom(self.pairs(), key);
        }
        match self.find(&key) {
            Some(i) => {
                proof {
                    lemma_pairs_to_map_value(self.pairs(), i as int);
                    lemma_pairs_to_map_update(
                        self.pairs(),
                        i as int,
                        spec_updated_value(self.pairs()[i as int].1, bytes, now),
                    );
                }
                let e = vstd::std_specs::vec::vec_index_mut(&mut self.entries, i);
                let v0 = e.1;
                let new_value = RecordValue {
                    bytes: v0.bytes.saturating_add(bytes),
                    first_seen: v0.first_seen,
                    last_seen: if now >= v0.last_seen {
                        now
                    } else {
                        v0.last_seen
                    },
                };
                *e = (key, new_value);
            },
            None => {
                self.entries.push((key, RecordValue { bytes: bytes, first_seen: now, last_seen: now }));
                proof {
                    assert(self.entries@.drop_last() =~= old(self).entries@);
                }
            },
        }
    }

    /// Move every flow out as a report row, leaving the map empty.  Each
    /// key of the old map yields exactly one row, carrying its value.
    pub fn drain_records(&mut self) -> (rows: Vec<Record>)
        requires
            old(self).wf(),
        ensures
            final(self).wf(),
            final(self)@ == Map::<RecordKey, RecordValue>::empty(),
            final(self).pairs() == Seq::<(RecordKey, RecordValue)>::empty(),
            rows@.len() == old(self).pairs().len(),
            forall|i: int|
                0 <= i < rows@.len() ==> rows@[i] == spec_record_of(
                    (#[trigger] old(self).pairs()[i]).0,
                    old(self).pairs()[i].1,
                ),
    {
        let mut rows: Vec<Record> = Vec::new();
        let n = self.entries.len();
        let mut i: usize = 0;
        while i < n
            invariant
                0 <= i <= n,
                n == self.entries@.len(),
                self.entries@ == old(self).entries@,
                rows@.len() == i,
                forall|j: int|
                    0 <= j < i ==> rows@[j] == spec_record_of(
                        (#[trigger] self.entries@[j]).0,
                        self.entries@[j].1,
                    ),
            decreases n - i,
        {
            let (k, v) = self.entries[i];
            rows.push(Record::from_key_value(k, v));
            i = i + 1;
        }
        self.entries.clear();
        proof {
            assert(self.pairs() =~= Seq::<(RecordKey, RecordValue)>::empty());
        }
        rows
    }

    /// A report drained from a well-formed map mentions each key of the map
    /// exactly once, with exactly the accumulated value; no other key
    /// appears.
    pub proof fn lemma_drained_rows_exact(
        m: AggregationMap,
        rows: Seq<Record>,
        k: RecordKey,
    )
        requires
            m.wf(),
            rows.len() == m.pairs().len(),
            forall|i: int|
                0 <= i < rows.len() ==> rows[i] == spec_record_of(
                    (#[trigger] m.pairs()[i]).0,
                    m.pairs()[i].1,
                ),
        ensures
            m@.contains_key(k) <==> exists|i: int| 0 <= i < rows.len() && spec_key_of(
                #[trigger] rows[i],
            ) == k,
            forall|i: int, j: int|
                0 <= i < j < rows.len() ==> spec_key_of(#[trigger] rows[i]) != spec_key_of(
                    #[trigger] rows[j],
                ),
            forall|i: int|
                0 <= i < rows.len() ==> m@.contains_key(spec_key_of(#[trigger] rows[i]))
                    && rows[i] == spec_record_of(spec_key_of(rows[i]), m@[spec_key_of(rows[i])]),
    {
        assert(forall|i: int|
            0 <= i < rows.len() ==> spec_key_of(#[trigger] rows[i]) == m.pairs()[i].0);
        lemma_pairs_to_map_dom(m.pairs(), k);
        if m@.contains_key(k) {
            let i = choose|i: int| 0 <= i < m.pairs().len() && (#[trigger] m.pairs()[i]).0 == k;
            assert(spec_key_of(rows[i]) == k);
        }
        if exists|i: int| 0 <= i < rows.len() && spec_key_of(#[trigger] rows[i]) == k {
            let i = choose|i: int| 0 <= i < rows.len() && spec_key_of(#[trigger] rows[i]) == k;
            assert((m.pairs()[i]).0 == k);
        }
        assert forall|i: int| 0 <= i < rows.len() implies m@.contains_key(
            spec_key_of(#[trigger] rows[i]),
        ) && rows[i] == spec_record_of(spec_key_of(rows[i]), m@[spec_key_of(rows[i])]) by {
            lemma_pairs_to_map_value(m.pairs(), i);
        }
    }
}

} // verus!
