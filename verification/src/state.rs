//! The flow aggregator: a deduplicated, insertion-ordered traffic summary.
//!
//! Canonical records are grouped by their aggregate key: every field of the
//! record except its length. The first record observed for a key becomes the
//! entry's representative; each further record with the same key only bumps
//! the hit counter and the byte volume. Counters saturate at their type's
//! maximum instead of overflowing.

use crate::layer_2_infos::{PacketInfos, PacketView};
use crate::layer_3_infos::Layer3View;
use crate::text::str_eq;
use vstd::prelude::*;

verus! {

/// The equality-comparable projection of a canonical record that identifies
/// its flow: everything but the frame length.
pub struct KeyView {
    pub mac_address_source: Seq<char>,
    pub mac_address_destination: Seq<char>,
    pub interface: Seq<char>,
    pub l_3_protocol: Seq<char>,
    pub layer_3_infos: Layer3View,
}

/// The aggregate key of a record: two records belong to the same flow if
/// and only if their keys are equal.
pub open spec fn key_of(p: PacketView) -> KeyView {
    KeyView {
        mac_address_source: p.mac_address_source,
        mac_address_destination: p.mac_address_destination,
        interface: p.interface,
        l_3_protocol: p.l_3_protocol,
        layer_3_infos: p.layer_3_infos,
    }
}

/// Decides whether two records belong to the same flow.
pub fn same_flow(a: &PacketInfos, b: &PacketInfos) -> (r: bool)
    ensures
        r == (key_of(a@) == key_of(b@)),
{
    str_eq(a.mac_address_source.as_str(), b.mac_address_source.as_str()) && str_eq(
        a.mac_address_destination.as_str(),
        b.mac_address_destination.as_str(),
    ) && str_eq(a.interface.as_str(), b.interface.as_str()) && str_eq(
        a.l_3_protocol.as_str(),
        b.l_3_protocol.as_str(),
    ) && a.layer_3_infos == b.layer_3_infos
}

/// One flow of the summary: the first record observed for the key, how many
/// records shared the key, and their accumulated byte volume.
#[derive(Debug, Clone)]
pub struct AggregateEntry {
    pub representative: PacketInfos,
    pub hit_count: u32,
    pub cumulative_bytes: u64,
}

/// Mathematical model of `AggregateEntry`.
pub struct EntryView {
    pub representative: PacketView,
    pub hit_count: u32,
    pub cumulative_bytes: u64,
}

impl View for AggregateEntry {
    type V = EntryView;

    open spec fn view(&self) -> EntryView {
        EntryView {
            representative: self.representative@,
            hit_count: self.hit_count,
            cumulative_bytes: self.cumulative_bytes,
        }
    }
}

impl AggregateEntry {
    /// An independent copy with the same model.
    pub fn duplicate(&self) -> (r: Self)
        ensures
            r@ == self@,
    {
        AggregateEntry {
            representative: self.representative.duplicate(),
            hit_count: self.hit_count,
            cumulative_bytes: self.cumulative_bytes,
        }
    }
}

/// The index of the first entry of `s` whose key is `k`, if any.
pub open spec fn spec_find_key(s: Seq<EntryView>, k: KeyView) -> Option<int>
    decreases s.len(),
{
    if s.len() == 0 {
        Option::None
    } else if key_of(s[0].representative) == k {
        Option::Some(0)
    } else {
        match spec_find_key(s.drop_first(), k) {
            Option::Some(i) => Option::Some(i + 1),
            Option::None => Option::None,
        }
    }
}

/// An entry after one more record of its flow, of `size` bytes: the
/// representative stands, the hit counter and the byte volume grow by one
/// and by `size`, each saturating at its maximum.
pub open spec fn spec_bump(e: EntryView, size: usize) -> EntryView {
    EntryView {
        representative: e.representative,
        hit_count: if e.hit_count < u32::MAX {
            (e.hit_count + 1) as u32
        } else {
            e.hit_count
        },
        cumulative_bytes: if e.cumulative_bytes + size <= u64::MAX {
            (e.cumulative_bytes + size) as u64
        } else {
            u64::MAX
        },
    }
}

/// The entry opened by the first record of a flow.
pub open spec fn spec_new_entry(p: PacketView) -> EntryView {
    EntryView { representative: p, hit_count: 1, cumulative_bytes: p.packet_size as u64 }
}

/// The summary after merging one record: the entry of the record's flow is
/// bumped if one exists, otherwise a new entry is appended.
pub open spec fn spec_merge(s: Seq<EntryView>, p: PacketView) -> Seq<EntryView> {
    match spec_find_key(s, key_of(p)) {
        Option::Some(i) => s.update(i, spec_bump(s[i], p.packet_size)),
        Option::None => s.push(spec_new_entry(p)),
    }
}

/// A well-formed summary holds at most one entry per flow.
pub open spec fn wf_entries(s: Seq<EntryView>) -> bool {
    forall|i: int, j: int|
        0 <= i < j < s.len() ==> key_of(s[i].representative) != key_of(s[j].representative)
}

proof fn lemma_find_key_at(s: Seq<EntryView>, k: KeyView, i: int)
    requires
        0 <= i < s.len(),
        forall|j: int| 0 <= j < i ==> key_of(s[j].representative) != k,
        key_of(s[i].representative) == k,
    ensures
        spec_find_key(s, k) == Option::Some(i),
    decreases i,
{
    if i == 0 {
    } else {
        assert(forall|j: int|
            0 <= j < i - 1 ==> key_of(s.drop_first()[j].representative) != k);
        lemma_find_key_at(s.drop_first(), k, i - 1);
    }
}

proof fn lemma_find_key_none(s: Seq<EntryView>, k: KeyView)
    requires
        forall|j: int| 0 <= j < s.len() ==> key_of(s[j].representative) != k,
    ensures
        spec_find_key(s, k) == Option::None::<int>,
    decreases s.len(),
{
    if s.len() > 0 {
        lemma_find_key_none(s.drop_first(), k);
    }
}

/// The live, deduplicated traffic summary, fed one record at a time and
/// read through point-in-time snapshots. Entries stay in insertion order.
pub struct SonarState {
    entries: Vec<AggregateEntry>,
}

impl View for SonarState {
    type V = Seq<EntryView>;

    closed spec fn view(&self) -> Seq<EntryView> {
        Seq::new(self.entries@.len(), |i: int| self.entries@[i]@)
    }
}

impl SonarState {
    /// An empty summary.
    pub fn new() -> (r: Self)
        ensures
            r@ == Seq::<EntryView>::empty(),
            wf_entries(r@),
    {
        let r = SonarState { entries: Vec::new() };
        proof {
            assert(r@ =~= Seq::<EntryView>::empty());
        }
        r
    }

    /// Merges one record into the summary: bumps the counters of its flow's
    /// entry, or opens a new entry with a hit count of one.
    pub fn push_to_vector(&mut self, key: PacketInfos)
        ensures
            final(self)@ == spec_merge(old(self)@, key@),
            old(self)@.len() <= final(self)@.len() <= old(self)@.len() + 1,
            wf_entries(old(self)@) ==> wf_entries(final(self)@),
    {
        proof {
            if wf_entries(self@) {
                lemma_merge_preserves_wf(self@, key@);
            }
        }
        let n = self.entries.len();
        let mut i: usize = 0;
        while i < n
            invariant
                n == self.entries@.len(),
                i <= n,
                *self == *old(self),
                forall|j: int| 0 <= j < i ==> key_of(self@[j].representative) != key_of(key@),
            decreases n - i,
        {
            if same_flow(&self.entries[i].representative, &key) {
                proof {
                    lemma_find_key_at(self@, key_of(key@), i as int);
                }
                let hits = self.entries[i].hit_count;
                let bytes = self.entries[i].cumulative_bytes;
                let new_hits: u32 = if hits < u32::MAX {
                    hits + 1
                } else {
                    hits
                };
                let new_bytes: u64 = if bytes <= u64::MAX - (key.packet_size as u64) {
                    bytes + (key.packet_size as u64)
                } else {
                    u64::MAX
                };
                let updated = AggregateEntry {
                    representative: self.entries[i].representative.duplicate(),
                    hit_count: new_hits,
                    cumulative_bytes: new_bytes,
                };
                self.entries[i] = updated;
                proof {
                    assert(self@ =~= spec_merge(old(self)@, key@));
                }
                return ;
            }
            i = i + 1;
        }
        proof {
            lemma_find_key_none(self@, key_of(key@));
        }
        let size = key.packet_size;
        self.entries.push(
            AggregateEntry { representative: key, hit_count: 1, cumulative_bytes: size as u64 },
        );
        proof {
            assert(self@ =~= spec_merge(old(self)@, key@));
        }
    }

    /// The number of distinct flows seen so far.
    pub fn len(&self) -> (r: usize)
        ensures
            r == self@.len(),
    {
        self.entries.len()
    }

    /// The entry at position `i`, in insertion order.
    pub fn get(&self, i: usize) -> (r: &AggregateEntry)
        requires
            i < self@.len(),
        ensures
            r@ == self@[i as int],
    {
        &self.entries[i]
    }

    /// An independent, point-in-time copy of all entries, in insertion
    /// order: later merges do not touch it.
    pub fn snapshot(&self) -> (r: Vec<AggregateEntry>)
        ensures
            r@.len() == self@.len(),
            forall|i: int| 0 <= i < r@.len() ==> r@[i]@ == self@[i],
    {
        let n = self.entries.len();
        let mut out: Vec<AggregateEntry> = Vec::new();
        let mut i: usize = 0;
        while i < n
            invariant
                n == self.entries@.len(),
                i <= n,
                out@.len() == i,
                forall|j: int| 0 <= j < i ==> out@[j]@ == self@[j],
            decreases n - i,
        {
            out.push(self.entries[i].duplicate());
            i = i + 1;
        }
        out
    }

    /// Clears the summary.
    pub fn reset(&mut self)
        ensures
            final(self)@ == Seq::<EntryView>::empty(),
    {
        self.entries = Vec::new();
        proof {
            assert(self@ =~= Seq::<EntryView>::empty());
        }
    }
}

/// Merges one record into the summary. This is the single write operation of
/// the store: records decoded by concurrent capture workers are serialized
/// by the caller (one consumer of a channel, or a lock around the state) and
/// applied here one at a time.
pub fn update_state_with_packet(state: &mut SonarState, new_packet: PacketInfos)
    ensures
        final(state)@ == spec_merge(old(state)@, new_packet@),
        wf_entries(old(state)@) ==> wf_entries(final(state)@),
{
    state.push_to_vector(new_packet);
}

/// Merging preserves the one-entry-per-flow shape of the summary.
pub proof fn lemma_merge_preserves_wf(s: Seq<EntryView>, p: PacketView)
    requires
        wf_entries(s),
    ensures
        wf_entries(spec_merge(s, p)),
{
    let m = spec_merge(s, p);
    match spec_find_key(s, key_of(p)) {
        Option::Some(i) => {
            lemma_find_key_some_range(s, key_of(p));
            assert forall|i1: int, j1: int|
                0 <= i1 < j1 < m.len() implies key_of(m[i1].representative) != key_of(
                m[j1].representative,
            ) by {
                assert(key_of(m[i1].representative) == key_of(s[i1].representative));
                assert(key_of(m[j1].representative) == key_of(s[j1].representative));
            }
        },
        Option::None => {
            lemma_find_key_some_range(s, key_of(p));
            assert forall|i1: int, j1: int|
                0 <= i1 < j1 < m.len() implies key_of(m[i1].representative) != key_of(
                m[j1].representative,
            ) by {
                if j1 < s.len() {
                } else {
                    assert(m[j1] == spec_new_entry(p));
                    assert(key_of(s[i1].representative) != key_of(p));
                }
            }
        },
    }
}

/// The summary after merging the same record `n` times in a row.
pub open spec fn spec_merge_n(s: Seq<EntryView>, p: PacketView, n: nat) -> Seq<EntryView>
    decreases n,
{
    if n == 0 {
        s
    } else {
        spec_merge(spec_merge_n(s, p, (n - 1) as nat), p)
    }
}

/// Merging the same record `n` times into a summary that has no entry for
/// its flow yet appends exactly one entry: its representative is that
/// record, its hit count is `n`, and its byte volume is `n` times the
/// record's length. Every other entry stands unchanged. The bounds on `n`
/// keep the counters below their saturation points.
pub proof fn lemma_merge_same_record_n_times(s: Seq<EntryView>, p: PacketView, n: nat)
    requires
        spec_find_key(s, key_of(p)) is None,
        1 <= n <= u32::MAX,
        n * p.packet_size <= u64::MAX,
    ensures
        spec_merge_n(s, p, n).len() == s.len() + 1,
        spec_merge_n(s, p, n)[s.len() as int].representative == p,
        spec_merge_n(s, p, n)[s.len() as int].hit_count == n,
        spec_merge_n(s, p, n)[s.len() as int].cumulative_bytes == n * p.packet_size,
        forall|i: int| 0 <= i < s.len() ==> spec_merge_n(s, p, n)[i] == s[i],
    decreases n,
{
    let size = p.packet_size;
    let last = s.len() as int;
    assert((n - 1) * size + size == n * size && (n - 1) * size <= n * size) by (nonlinear_arith)
        requires
            size >= 0,
    ;
    if n == 1 {
        assert(spec_merge_n(s, p, 1) == spec_merge(spec_merge_n(s, p, 0), p));
        assert(spec_merge_n(s, p, 1)[last] == spec_new_entry(p));
        assert(n * size == size) by (nonlinear_arith)
            requires
                n == 1,
        ;
    } else {
        lemma_merge_same_record_n_times(s, p, (n - 1) as nat);
        let t = spec_merge_n(s, p, (n - 1) as nat);
        lemma_find_key_some_range(s, key_of(p));
        assert forall|j: int| 0 <= j < s.len() implies key_of(t[j].representative) != key_of(
            p,
        ) by {
            assert(t[j] == s[j]);
        }
        lemma_find_key_at(t, key_of(p), last);
        assert(spec_merge(t, p) == t.update(last, spec_bump(t[last], size)));
        assert(t[last].cumulative_bytes == (n - 1) * size);
        assert(t[last].cumulative_bytes + size <= u64::MAX);
        assert(spec_merge_n(s, p, n)[last] == spec_bump(t[last], size));
        assert(spec_bump(t[last], size).cumulative_bytes == n * size);
    }
}

/// Merging a record of one flow leaves the entry of every other flow
/// exactly as it was: concurrent workers' records interleave freely without
/// disturbing each other's counters.
pub proof fn lemma_merge_other_flow_untouched(s: Seq<EntryView>, q: PacketView, i: int)
    requires
        0 <= i < s.len(),
        key_of(s[i].representative) != key_of(q),
    ensures
        spec_merge(s, q).len() >= s.len(),
        spec_merge(s, q)[i] == s[i],
{
    lemma_find_key_some_range(s, key_of(q));
}

/// Records that differ in their capturing interface belong to distinct
/// flows: merging two such records into a summary that holds neither flow
/// yields two distinct entries.
pub proof fn lemma_interface_discriminates(s: Seq<EntryView>, a: PacketView, b: PacketView)
    requires
        a.interface != b.interface,
        spec_find_key(s, key_of(a)) is None,
        spec_find_key(s, key_of(b)) is None,
    ensures
        key_of(a) != key_of(b),
        spec_merge(spec_merge(s, a), b).len() == s.len() + 2,
        spec_merge(spec_merge(s, a), b)[s.len() as int].representative == a,
        spec_merge(spec_merge(s, a), b)[s.len() as int + 1].representative == b,
{
    let t = spec_merge(s, a);
    lemma_find_key_some_range(s, key_of(a));
    lemma_find_key_some_range(s, key_of(b));
    assert(t == s.push(spec_new_entry(a)));
    assert forall|j: int| 0 <= j < t.len() implies key_of(t[j].representative) != key_of(b) by {
        if j < s.len() {
        } else {
            assert(t[j].representative == a);
        }
    }
    lemma_find_key_none(t, key_of(b));
}

/// What a find over the summary means: `None` when no entry has the key,
/// otherwise the position of the first entry that does.
pub proof fn lemma_find_key_some_range(s: Seq<EntryView>, k: KeyView)
    ensures
        spec_find_key(s, k) is None ==> forall|j: int|
            0 <= j < s.len() ==> key_of(s[j].representative) != k,
        spec_find_key(s, k) is Some ==> {
            let i = spec_find_key(s, k).unwrap();
            &&& 0 <= i < s.len()
            &&& key_of(s[i].representative) == k
            &&& forall|j: int| 0 <= j < i ==> key_of(s[j].representative) != k
        },
    decreases s.len(),
{
    if s.len() > 0 {
        let t = s.drop_first();
        lemma_find_key_some_range(t, k);
        if key_of(s[0].representative) == k {
        } else {
            match spec_find_key(t, k) {
                Option::Some(i2) => {
                    assert(spec_find_key(s, k) == Option::Some(i2 + 1));
                    assert(s[i2 + 1] == t[i2]);
                    assert forall|j: int|
                        0 <= j < i2 + 1 implies key_of(s[j].representative) != k by {
                        if j >= 1 {
                            assert(s[j] == t[j - 1]);
                        }
                    }
                },
                Option::None => {
                    assert forall|j: int|
                        0 <= j < s.len() implies key_of(s[j].representative) != k by {
                        if j >= 1 {
                            assert(s[j] == t[j - 1]);
                        }
                    }
                },
            }
        }
    }
}

} // verus!
