//! Bookkeeping of the connection page: the pool of per-device TCP port pairs, and how a
//! fresh `adb devices` poll is reconciled against the streams that are running.

use vstd::prelude::*;
use crate::daemon::StreamConfig;
use crate::i18n::{tr, translation};
use crate::text::{
    lemma_lex_total, lemma_lex_trans, lex_le, list_contains, push_decimal, str_eq, str_lex_le, views,
    decimal,
};

verus! {

/// How many devices can hold a port pair at once. Bounds the port range Nib occupies to
/// 6000..=6019, matching what the client's `adb reverse` mapping expects.
pub const MAX_DEVICE_SLOTS: u16 = 10;

/// The (video, input) port pair of a slot.
pub open spec fn slot_ports(slot: u16) -> (u16, u16) {
    ((6000 + slot * 2) as u16, (6001 + slot * 2) as u16)
}

/// Maps a slot index to its (video, input) TCP port pair.
pub fn ports_for_slot(slot: u16) -> (r: (u16, u16))
    requires
        6001 + slot * 2 <= u16::MAX,
    ensures
        r == slot_ports(slot),
        r.0 == 6000 + slot * 2,
        r.1 == r.0 + 1,
{
    (6000 + slot * 2, 6001 + slot * 2)
}

/// The serial-to-slot map that a list of (serial, slot) entries stands for.
pub open spec fn entries_map(s: Seq<(String, u16)>) -> Map<Seq<char>, u16>
    decreases s.len(),
{
    if s.len() == 0 {
        Map::empty()
    } else {
        entries_map(s.drop_last()).insert(s.last().0@, s.last().1)
    }
}

/// No two entries share a serial or a slot, and every slot is below `MAX_DEVICE_SLOTS`.
pub open spec fn entries_wf(s: Seq<(String, u16)>) -> bool {
    &&& forall|i: int, j: int|
        0 <= i < s.len() && 0 <= j < s.len() && i != j ==> (#[trigger] s[i]).0@ != (#[trigger] s[
            j]).0@ && s[i].1 != s[j].1
    &&& forall|i: int| 0 <= i < s.len() ==> (#[trigger] s[i]).1 < MAX_DEVICE_SLOTS
}

/// Port slot reserved for each device serial. A slot, once handed out, stays with its serial
/// until it is released; no two serials ever hold the same slot.
pub struct PortSlots {
    entries: Vec<(String, u16)>,
}

impl View for PortSlots {
    type V = Map<Seq<char>, u16>;

    closed spec fn view(&self) -> Map<Seq<char>, u16> {
        entries_map(self.entries@)
    }
}

proof fn lemma_entries_map_keys(s: Seq<(String, u16)>, k: Seq<char>)
    ensures
        entries_map(s).contains_key(k) <==> exists|i: int| 0 <= i < s.len() && (#[trigger] s[i]).0@
            == k,
    decreases s.len(),
{
    if s.len() > 0 {
        lemma_entries_map_keys(s.drop_last(), k);
        if exists|i: int| 0 <= i < s.len() && (#[trigger] s[i]).0@ == k {
            let i = choose|i: int| 0 <= i < s.len() && (#[trigger] s[i]).0@ == k;
            if i < s.len() - 1 {
                assert(s.drop_last()[i] == s[i]);
            }
        }
        if exists|i: int| 0 <= i < s.drop_last().len() && (#[trigger] s.drop_last()[i]).0@ == k {
            let i = choose|i: int|
                0 <= i < s.drop_last().len() && (#[trigger] s.drop_last()[i]).0@ == k;
            assert(s[i] == s.drop_last()[i]);
        }
    }
}

proof fn lemma_entries_map_value(s: Seq<(String, u16)>, i: int)
    requires
        entries_wf(s),
        0 <= i < s.len(),
    ensures
        entries_map(s).contains_key(s[i].0@),
        entries_map(s)[s[i].0@] == s[i].1,
    decreases s.len(),
{
    if i < s.len() - 1 {
        assert(s.drop_last()[i] == s[i]);
        lemma_entries_map_value(s.drop_last(), i);
    }
}

proof fn lemma_entries_map_len(s: Seq<(String, u16)>)
    requires
        entries_wf(s),
    ensures
        entries_map(s).dom().finite(),
        entries_map(s).dom().len() == s.len(),
    decreases s.len(),
{
    if s.len() > 0 {
        let t = s.drop_last();
        assert(entries_wf(t)) by {
            assert forall|i: int, j: int|
                0 <= i < t.len() && 0 <= j < t.len() && i != j implies (#[trigger] t[i]).0@ != (
            #[trigger] t[j]).0@ && t[i].1 != t[j].1 by {
                assert(t[i] == s[i] && t[j] == s[j]);
            }
            assert forall|i: int| 0 <= i < t.len() implies (#[trigger] t[i]).1 < MAX_DEVICE_SLOTS by {
                assert(t[i] == s[i]);
            }
        }
        lemma_entries_map_len(t);
        lemma_entries_map_keys(t, s.last().0@);
        if entries_map(t).contains_key(s.last().0@) {
            let i = choose|i: int| 0 <= i < t.len() && (#[trigger] t[i]).0@ == s.last().0@;
            assert(t[i] == s[i]);
            assert(false);
        }
    }
}

proof fn lemma_entries_map_remove(s: Seq<(String, u16)>, i: int)
    requires
        entries_wf(s),
        0 <= i < s.len(),
    ensures
        entries_map(s.remove(i)) =~= entries_map(s).remove(s[i].0@),
        entries_wf(s.remove(i)),
    decreases s.len(),
{
    let r = s.remove(i);
    assert(entries_wf(r)) by {
        assert forall|a: int, b: int|
            0 <= a < r.len() && 0 <= b < r.len() && a != b implies (#[trigger] r[a]).0@ != (
        #[trigger] r[b]).0@ && r[a].1 != r[b].1 by {
            let a2 = if a < i { a } else { a + 1 };
            let b2 = if b < i { b } else { b + 1 };
            assert(r[a] == s[a2] && r[b] == s[b2]);
        }
        assert forall|a: int| 0 <= a < r.len() implies (#[trigger] r[a]).1 < MAX_DEVICE_SLOTS by {
            let a2 = if a < i { a } else { a + 1 };
            assert(r[a] == s[a2]);
        }
    }
    if i == s.len() - 1 {
        assert(r =~= s.drop_last());
        let t = s.drop_last();
        lemma_entries_map_keys(t, s.last().0@);
        if entries_map(t).contains_key(s.last().0@) {
            let j = choose|j: int| 0 <= j < t.len() && (#[trigger] t[j]).0@ == s.last().0@;
            assert(t[j] == s[j]);
        }
    } else {
        let t = s.drop_last();
        assert(entries_wf(t)) by {
            assert forall|a: int, b: int|
                0 <= a < t.len() && 0 <= b < t.len() && a != b implies (#[trigger] t[a]).0@ != (
            #[trigger] t[b]).0@ && t[a].1 != t[b].1 by {
                assert(t[a] == s[a] && t[b] == s[b]);
            }
            assert forall|a: int| 0 <= a < t.len() implies (#[trigger] t[a]).1 < MAX_DEVICE_SLOTS by {
                assert(t[a] == s[a]);
            }
        }
        lemma_entries_map_remove(t, i);
        assert(t[i] == s[i]);
        assert(r.drop_last() =~= t.remove(i));
        assert(r.last() == s.last());
    }
}

/// The serials whose slots are kept when the pool is pruned.
pub open spec fn kept(connected: Seq<Seq<char>>, streaming: Seq<Seq<char>>) -> Set<Seq<char>> {
    Set::new(|k: Seq<char>| connected.contains(k) || streaming.contains(k))
}

/// Pruning the pool keeps the slot of every serial that is connected and of every serial
/// that still streams (its daemon holds the bound ports), unchanged, and releases the slot
/// of every serial that is neither.
pub proof fn law_prune_keeps_connected_and_streaming(
    m: Map<Seq<char>, u16>,
    connected: Seq<Seq<char>>,
    streaming: Seq<Seq<char>>,
    k: Seq<char>,
)
    ensures
        m.contains_key(k) && connected.contains(k) ==> m.restrict(kept(connected, streaming)).contains_key(k)
            && m.restrict(kept(connected, streaming))[k] == m[k],
        m.contains_key(k) && streaming.contains(k) ==> m.restrict(kept(connected, streaming)).contains_key(k)
            && m.restrict(kept(connected, streaming))[k] == m[k],
        !connected.contains(k) && !streaming.contains(k) ==> !m.restrict(
            kept(connected, streaming),
        ).contains_key(k),
        m.restrict(kept(connected, streaming)).dom().subset_of(m.dom()),
{
}

/// Whether some serial holds `slot` in `m`.
pub open spec fn slot_taken(m: Map<Seq<char>, u16>, slot: u16) -> bool {
    exists|k: Seq<char>| m.contains_key(k) && m[k] == slot
}

/// The lowest slot below `MAX_DEVICE_SLOTS` that `m` does not hand out, if any.
pub open spec fn is_lowest_free(m: Map<Seq<char>, u16>, slot: u16) -> bool {
    &&& slot < MAX_DEVICE_SLOTS
    &&& forall|k: Seq<char>| m.contains_key(k) ==> m[k] != slot
    &&& forall|t: u16| t < slot ==> #[trigger] slot_taken(m, t)
}

/// Every slot below `MAX_DEVICE_SLOTS` is handed out in `m`.
pub open spec fn pool_full(m: Map<Seq<char>, u16>) -> bool {
    forall|t: u16| t < MAX_DEVICE_SLOTS ==> #[trigger] slot_taken(m, t)
}

/// What claiming a slot for `serial` in the pool `m` gives back (`r`) and leaves (`m2`): the
/// slot it already holds; else the lowest free slot, now held by `serial`; else nothing, with
/// the pool unchanged.
pub open spec fn claim_outcome(
    m: Map<Seq<char>, u16>,
    serial: Seq<char>,
    r: Option<u16>,
    m2: Map<Seq<char>, u16>,
) -> bool {
    if m.contains_key(serial) {
        r == Some(m[serial]) && m2 == m
    } else if pool_full(m) {
        r is None && m2 == m
    } else {
        r matches Some(s) && is_lowest_free(m, s) && m2 == m.insert(serial, s)
    }
}

/// No two serials share a slot, and every slot lies below `MAX_DEVICE_SLOTS`.
pub open spec fn slots_distinct(m: Map<Seq<char>, u16>) -> bool {
    &&& forall|a: Seq<char>, b: Seq<char>|
        m.contains_key(a) && m.contains_key(b) && a != b ==> #[trigger] m[a] != #[trigger] m[b]
    &&& forall|a: Seq<char>| m.contains_key(a) ==> #[trigger] m[a] < MAX_DEVICE_SLOTS
}

impl PortSlots {
    /// The pool is consistent: each serial holds one slot, no slot is held twice, and every
    /// slot lies below `MAX_DEVICE_SLOTS`.
    pub closed spec fn wf(&self) -> bool {
        entries_wf(self.entries@)
    }

    /// An empty pool.
    pub fn new() -> (r: Self)
        ensures
            r.wf(),
            r@ == Map::<Seq<char>, u16>::empty(),
    {
        PortSlots { entries: Vec::new() }
    }

    /// Number of serials holding a slot.
    pub fn len(&self) -> (r: usize)
        requires
            self.wf(),
        ensures
            r == self@.dom().len(),
    {
        proof {
            lemma_entries_map_len(self.entries@);
        }
        self.entries.len()
    }

    fn index_of(&self, serial: &str) -> (r: Option<usize>)
        requires
            self.wf(),
        ensures
            match r {
                Some(i) => i < self.entries@.len() && self.entries@[i as int].0@ == serial@,
                None => !self@.contains_key(serial@),
            },
    {
        let mut i: usize = 0;
        while i < self.entries.len()
            invariant
                i <= self.entries@.len(),
                forall|j: int| 0 <= j < i ==> (#[trigger] self.entries@[j]).0@ != serial@,
            decreases self.entries@.len() - i,
        {
            if str_eq(self.entries[i].0.as_str(), serial) {
                return Some(i);
            }
            i = i + 1;
        }
        proof {
            lemma_entries_map_keys(self.entries@, serial@);
        }
        None
    }

    /// The slot `serial` holds, if any.
    pub fn get(&self, serial: &str) -> (r: Option<u16>)
        requires
            self.wf(),
        ensures
            r == (if self@.contains_key(serial@) {
                Some(self@[serial@])
            } else {
                None
            }),
    {
        match self.index_of(serial) {
            Some(i) => {
                proof {
                    lemma_entries_map_value(self.entries@, i as int);
                }
                Some(self.entries[i].1)
            },
            None => None,
        }
    }

    /// Whether `serial` holds a slot.
    pub fn contains_key(&self, serial: &str) -> (r: bool)
        requires
            self.wf(),
        ensures
            r == self@.contains_key(serial@),
    {
        self.get(serial).is_some()
    }

    /// Releases the slot `serial` holds, returning it.
    pub fn remove(&mut self, serial: &str) -> (r: Option<u16>)
        requires
            old(self).wf(),
        ensures
            final(self).wf(),
            final(self)@ == old(self)@.remove(serial@),
            r == (if old(self)@.contains_key(serial@) {
                Some(old(self)@[serial@])
            } else {
                None
            }),
    {
        match self.index_of(serial) {
            Some(i) => {
                proof {
                    lemma_entries_map_value(self.entries@, i as int);
                    lemma_entries_map_remove(self.entries@, i as int);
                }
                let e = self.entries.remove(i);
                Some(e.1)
            },
            None => {
                assert(old(self)@.remove(serial@) =~= old(self)@);
                None
            },
        }
    }

    fn slot_in_use(&self, slot: u16) -> (r: bool)
        requires
            self.wf(),
        ensures
            r == slot_taken(self@, slot),
    {
        let mut i: usize = 0;
        while i < self.entries.len()
            invariant
                self.wf(),
                i <= self.entries@.len(),
                forall|j: int| 0 <= j < i ==> (#[trigger] self.entries@[j]).1 != slot,
            decreases self.entries@.len() - i,
        {
            if self.entries[i].1 == slot {
                proof {
                    lemma_entries_map_value(self.entries@, i as int);
                }
                return true;
            }
            i = i + 1;
        }
        proof {
            if exists|k: Seq<char>| self@.contains_key(k) && self@[k] == slot {
                let k = choose|k: Seq<char>| self@.contains_key(k) && self@[k] == slot;
                lemma_entries_map_keys(self.entries@, k);
                let j = choose|j: int|
                    0 <= j < self.entries@.len() && (#[trigger] self.entries@[j]).0@ == k;
                lemma_entries_map_value(self.entries@, j);
            }
        }
        false
    }
}

/// Returns the slot `serial` already holds in `slots`, or claims the lowest free one for it.
/// `None` once all `MAX_DEVICE_SLOTS` slots are taken, leaving the pool unchanged.
pub fn claim_slot(slots: &mut PortSlots, serial: &str) -> (r: Option<u16>)
    requires
        old(slots).wf(),
    ensures
        final(slots).wf(),
        claim_outcome(old(slots)@, serial@, r, final(slots)@),
{
    if let Some(s) = slots.get(serial) {
        return Some(s);
    }
    let mut candidate: u16 = 0;
    while candidate < MAX_DEVICE_SLOTS
        invariant
            slots.wf(),
            slots@ == old(slots)@,
            !slots@.contains_key(serial@),
            candidate <= MAX_DEVICE_SLOTS,
            forall|t: u16| t < candidate ==> #[trigger] slot_taken(slots@, t),
        decreases MAX_DEVICE_SLOTS - candidate,
    {
        if !slots.slot_in_use(candidate) {
            let ghost old_entries = slots.entries@;
            slots.entries.push((serial.to_owned(), candidate));
            proof {
                let s = slots.entries@;
                assert(s.drop_last() =~= old_entries);
                assert forall|i: int, j: int|
                    0 <= i < s.len() && 0 <= j < s.len() && i != j implies (#[trigger] s[i]).0@
                    != (#[trigger] s[j]).0@ && s[i].1 != s[j].1 by {
                    if i < old_entries.len() && j < old_entries.len() {
                        assert(s[i] == old_entries[i] && s[j] == old_entries[j]);
                    } else if i < old_entries.len() {
                        assert(s[i] == old_entries[i]);
                        lemma_entries_map_value(old_entries, i);
                    } else {
                        assert(s[j] == old_entries[j]);
                        lemma_entries_map_value(old_entries, j);
                    }
                }
                assert forall|i: int| 0 <= i < s.len() implies (#[trigger] s[i]).1
                    < MAX_DEVICE_SLOTS by {
                    if i < old_entries.len() {
                        assert(s[i] == old_entries[i]);
                    }
                }
            }
            return Some(candidate);
        }
        candidate = candidate + 1;
    }
    None
}

/// Returns the (video, input) TCP port pair reserved for `serial`, claiming the lowest free
/// slot the first time the device is seen and returning that same pair on every later call.
/// Returns `None` once all `MAX_DEVICE_SLOTS` slots are taken.
pub fn ports_for_serial(slots: &mut PortSlots, serial: &str) -> (r: Option<(u16, u16)>)
    requires
        old(slots).wf(),
    ensures
        final(slots).wf(),
        exists|c: Option<u16>|
            claim_outcome(old(slots)@, serial@, c, final(slots)@) && r == match c {
                Some(s) => Some(slot_ports(s)),
                None => None,
            },
{
    proof {
        if old(slots)@.contains_key(serial@) {
            lemma_entries_map_keys(old(slots).entries@, serial@);
            let i = choose|i: int|
                0 <= i < old(slots).entries@.len() && (#[trigger] old(slots).entries@[i]).0@
                    == serial@;
            lemma_entries_map_value(old(slots).entries@, i);
        }
    }
    let c = claim_slot(slots, serial);
    match c {
        Some(slot) => {
            proof {
                lemma_wf_distinct(slots);
            }
            Some(ports_for_slot(slot))
        },
        None => None,
    }
}

proof fn lemma_wf_distinct(slots: &PortSlots)
    requires
        slots.wf(),
    ensures
        slots_distinct(slots@),
{
    let s = slots.entries@;
    assert forall|a: Seq<char>, b: Seq<char>|
        slots@.contains_key(a) && slots@.contains_key(b) && a != b implies #[trigger] slots@[a]
        != #[trigger] slots@[b] by {
        lemma_entries_map_keys(s, a);
        lemma_entries_map_keys(s, b);
        let i = choose|i: int| 0 <= i < s.len() && (#[trigger] s[i]).0@ == a;
        let j = choose|j: int| 0 <= j < s.len() && (#[trigger] s[j]).0@ == b;
        lemma_entries_map_value(s, i);
        lemma_entries_map_value(s, j);
    }
    assert forall|a: Seq<char>| slots@.contains_key(a) implies #[trigger] slots@[a]
        < MAX_DEVICE_SLOTS by {
        lemma_entries_map_keys(s, a);
        let i = choose|i: int| 0 <= i < s.len() && (#[trigger] s[i]).0@ == a;
        lemma_entries_map_value(s, i);
    }
}

/// A consistent pool never hands one slot to two serials, and holds every slot below
/// `MAX_DEVICE_SLOTS`.
pub proof fn law_slots_distinct(slots: &PortSlots)
    requires
        slots.wf(),
    ensures
        slots_distinct(slots@),
{
    lemma_wf_distinct(slots);
}

/// Claiming twice for the same serial gives the same slot the second time and changes
/// nothing more.
pub proof fn law_claim_is_stable(
    m0: Map<Seq<char>, u16>,
    serial: Seq<char>,
    r1: Option<u16>,
    m1: Map<Seq<char>, u16>,
    r2: Option<u16>,
    m2: Map<Seq<char>, u16>,
)
    requires
        claim_outcome(m0, serial, r1, m1),
        claim_outcome(m1, serial, r2, m2),
        r1 is Some,
    ensures
        r2 == r1,
        m2 == m1,
{
}

/// Claiming keeps the pool free of shared slots: the slot handed to a new serial is held by
/// no other serial.
pub proof fn law_claim_keeps_slots_distinct(
    m0: Map<Seq<char>, u16>,
    serial: Seq<char>,
    r: Option<u16>,
    m1: Map<Seq<char>, u16>,
)
    requires
        slots_distinct(m0),
        claim_outcome(m0, serial, r, m1),
    ensures
        slots_distinct(m1),
{
    if !m0.contains_key(serial) && !pool_full(m0) {
        let s = r.unwrap();
        assert forall|a: Seq<char>, b: Seq<char>|
            m1.contains_key(a) && m1.contains_key(b) && a != b implies #[trigger] m1[a]
            != #[trigger] m1[b] by {
            if a == serial {
                assert(m0[b] != s);
            } else if b == serial {
                assert(m0[a] != s);
            }
        }
    }
}

/// Slots are handed out lowest first: the slot given to a new serial is below every free
/// slot, so at most one slot fits the description.
pub proof fn law_lowest_free_is_unique(m: Map<Seq<char>, u16>, s: u16, t: u16)
    requires
        is_lowest_free(m, s),
        is_lowest_free(m, t),
    ensures
        s == t,
{
    if s < t {
        assert(slot_taken(m, s));
    } else if t < s {
        assert(slot_taken(m, t));
    }
}

/// A pool that holds every slot refuses a newcomer and stays as it was.
pub proof fn law_full_pool_refuses(
    m0: Map<Seq<char>, u16>,
    serial: Seq<char>,
    r: Option<u16>,
    m1: Map<Seq<char>, u16>,
)
    requires
        pool_full(m0),
        !m0.contains_key(serial),
        claim_outcome(m0, serial, r, m1),
    ensures
        r is None,
        m1 == m0,
{
}

/// Distinct slots below `MAX_DEVICE_SLOTS` give disjoint port pairs inside 6000..=6019.
pub proof fn law_slot_ports_disjoint(a: u16, b: u16)
    requires
        a < MAX_DEVICE_SLOTS,
        b < MAX_DEVICE_SLOTS,
        a != b,
    ensures
        slot_ports(a).0 != slot_ports(b).0,
        slot_ports(a).0 != slot_ports(b).1,
        slot_ports(a).1 != slot_ports(b).0,
        slot_ports(a).1 != slot_ports(b).1,
        6000 <= slot_ports(a).0 && slot_ports(a).1 <= 6019,
{
}

/// Releases the slots of devices that are neither connected nor still owned by a running
/// stream, so a long-running session doesn't exhaust the pool as devices come and go.
pub fn release_unused_port_slots(slots: &mut PortSlots, connected: &[String], streaming: &[String])
    requires
        old(slots).wf(),
    ensures
        final(slots).wf(),
        final(slots)@ == old(slots)@.restrict(kept(views(connected@), views(streaming@))),
{
    let ghost keep = kept(views(connected@), views(streaming@));
    let ghost s = slots.entries@;
    let mut out: Vec<(String, u16)> = Vec::new();
    let mut i: usize = 0;
    assert(s.take(0) =~= Seq::<(String, u16)>::empty());
    assert(entries_map(s.take(0)).restrict(keep) =~= Map::<Seq<char>, u16>::empty());
    while i < slots.entries.len()
        invariant
            slots.entries@ == s,
            keep == kept(views(connected@), views(streaming@)),
            entries_wf(s),
            i <= s.len(),
            entries_wf(out@),
            entries_map(out@) == entries_map(s.take(i as int)).restrict(keep),
            forall|j: int|
                0 <= j < out@.len() ==> exists|a: int| 0 <= a < i && #[trigger] out@[j] == s[a],
        decreases s.len() - i,
    {
        let serial = slots.entries[i].0.as_str();
        let slot = slots.entries[i].1;
        assert(s.take(i + 1).drop_last() =~= s.take(i as int));
        assert(s.take(i + 1).last() == s[i as int]);
        let in_connected = list_contains(connected, serial);
        let in_streaming = list_contains(streaming, serial);
        assert(serial@ == s[i as int].0@);
        if in_connected || in_streaming {
            let ghost old_out = out@;
            out.push((slots.entries[i].0.clone(), slot));
            proof {
                let o = out@;
                assert(o.drop_last() =~= old_out);
                assert forall|j: int| 0 <= j < o.len() implies exists|a: int|
                    0 <= a < i + 1 && #[trigger] o[j] == s[a] by {
                    if j < old_out.len() {
                        assert(o[j] == old_out[j]);
                    } else {
                        assert(o[j] == s[i as int]);
                    }
                }
                assert forall|a: int, b: int|
                    0 <= a < o.len() && 0 <= b < o.len() && a != b implies (#[trigger] o[a]).0@
                    != (#[trigger] o[b]).0@ && o[a].1 != o[b].1 by {
                    if a < old_out.len() && b < old_out.len() {
                        assert(o[a] == old_out[a] && o[b] == old_out[b]);
                    } else if a < old_out.len() {
                        assert(o[a] == old_out[a]);
                        let x = choose|x: int| 0 <= x < i && #[trigger] old_out[a] == s[x];
                        assert(o[b] == s[i as int]);
                    } else {
                        assert(o[b] == old_out[b]);
                        let x = choose|x: int| 0 <= x < i && #[trigger] old_out[b] == s[x];
                        assert(o[a] == s[i as int]);
                    }
                }
                assert forall|a: int| 0 <= a < o.len() implies (#[trigger] o[a]).1
                    < MAX_DEVICE_SLOTS by {
                    if a < old_out.len() {
                        assert(o[a] == old_out[a]);
                        let x = choose|x: int| 0 <= x < i && #[trigger] old_out[a] == s[x];
                    } else {
                        assert(o[a] == s[i as int]);
                    }
                }
                assert(keep.contains(s[i as int].0@));
                assert(entries_map(o) =~= entries_map(s.take(i + 1)).restrict(keep));
            }
        } else {
            proof {
                assert(!keep.contains(s[i as int].0@));
                assert(entries_map(out@) =~= entries_map(s.take(i + 1)).restrict(keep));
            }
        }
        i = i + 1;
    }
    assert(s.take(s.len() as int) =~= s);
    slots.entries = out;
}


/// `s` is in ascending order.
pub open spec fn sorted(s: Seq<Seq<char>>) -> bool {
    forall|i: int, j: int| 0 <= i < j < s.len() ==> lex_le(#[trigger] s[i], #[trigger] s[j])
}

/// Sorts device serials into ascending order (`Vec::<String>::sort`); the result holds the
/// same serials, each as often as before.
pub fn sort_serials(devices: Vec<String>) -> (r: Vec<String>)
    ensures
        sorted(views(r@)),
        views(r@).to_multiset() == views(devices@).to_multiset(),
{
    broadcast use vstd::seq_lib::to_multiset_build, vstd::seq_lib::to_multiset_insert;

    let mut r: Vec<String> = Vec::new();
    let mut i: usize = 0;
    assert(views(devices@).take(0) =~= views(r@));
    while i < devices.len()
        invariant
            i <= devices@.len(),
            sorted(views(r@)),
            views(r@).to_multiset() == views(devices@).take(i as int).to_multiset(),
        decreases devices@.len() - i,
    {
        let x = devices[i].clone();
        let mut p: usize = 0;
        while p < r.len() && str_lex_le(r[p].as_str(), x.as_str())
            invariant
                p <= r@.len(),
                forall|j: int| 0 <= j < p ==> lex_le(#[trigger] views(r@)[j], x@),
            decreases r@.len() - p,
        {
            p = p + 1;
        }
        let ghost old_v = views(r@);
        proof {
            if p < r@.len() {
                lemma_lex_total(old_v[p as int], x@);
            }
        }
        r.insert(p, x);
        proof {
            let nv = views(r@);
            assert(nv =~= old_v.insert(p as int, x@));
            assert forall|a: int, b: int| 0 <= a < b < nv.len() implies lex_le(
                #[trigger] nv[a],
                #[trigger] nv[b],
            ) by {
                if b < p {
                    assert(nv[a] == old_v[a] && nv[b] == old_v[b]);
                } else if b == p {
                    assert(nv[a] == old_v[a]);
                } else if a == p {
                    assert(nv[b] == old_v[b - 1]);
                    if b - 1 > p {
                        assert(lex_le(old_v[p as int], old_v[b - 1]));
                        lemma_lex_trans(x@, old_v[p as int], old_v[b - 1]);
                    }
                } else if a < p {
                    assert(nv[a] == old_v[a] && nv[b] == old_v[b - 1]);
                } else {
                    assert(nv[a] == old_v[a - 1] && nv[b] == old_v[b - 1]);
                }
            }
            assert(views(devices@).take(i + 1) =~= views(devices@).take(i as int).push(x@));
            vstd::seq_lib::to_multiset_insert(old_v, p as int, x@);
            vstd::seq_lib::to_multiset_build(views(devices@).take(i as int), x@);
            assert(nv.to_multiset() == old_v.to_multiset().insert(x@));
        }
        i = i + 1;
    }
    assert(views(devices@).take(devices@.len() as int) =~= views(devices@));
    r
}

/// What a running stream reports during a device poll.
#[derive(Debug)]
pub struct DaemonStatus {
    /// ADB serial of the device the stream belongs to.
    pub serial: String,
    /// Whether the stream is running.
    pub is_streaming: bool,
    /// Whether its portal session is still open.
    pub session_alive: bool,
}

/// What to do after a device poll.
pub struct DeviceUpdatePlan {
    /// The serials reported by the poll, sorted; they become the known devices.
    pub devices: Vec<String>,
    /// Streams still marked running whose portal session was closed from outside.
    pub externally_stopped: Vec<String>,
    /// Streams whose device no longer shows up in the poll.
    pub unplugged: Vec<String>,
}

/// Serials of the running streams whose session was closed from outside, in the order given.
pub open spec fn externally_stopped_of(daemons: Seq<DaemonStatus>) -> Seq<Seq<char>>
    decreases daemons.len(),
{
    if daemons.len() == 0 {
        seq![]
    } else {
        let d = daemons.last();
        externally_stopped_of(daemons.drop_last()) + if d.is_streaming && !d.session_alive {
            seq![d.serial@]
        } else {
            seq![]
        }
    }
}

/// Serials of the streams whose device is not among `devices`, in the order given.
pub open spec fn unplugged_of(daemons: Seq<DaemonStatus>, devices: Seq<Seq<char>>) -> Seq<
    Seq<char>,
>
    decreases daemons.len(),
{
    if daemons.len() == 0 {
        seq![]
    } else {
        let d = daemons.last();
        unplugged_of(daemons.drop_last(), devices) + if !devices.contains(d.serial@) {
            seq![d.serial@]
        } else {
            seq![]
        }
    }
}

/// A stream is torn down as stopped from outside exactly when it is still marked running
/// while its portal session is closed: every serial listed is such a stream's, and every
/// such stream's serial is listed.
pub proof fn law_externally_stopped_are_dead_running_streams(
    daemons: Seq<DaemonStatus>,
    s: Seq<char>,
)
    ensures
        externally_stopped_of(daemons).contains(s) <==> exists|i: int|
            0 <= i < daemons.len() && (#[trigger] daemons[i]).serial@ == s && daemons[i].is_streaming
                && !daemons[i].session_alive,
    decreases daemons.len(),
{
    if daemons.len() > 0 {
        let init = daemons.drop_last();
        law_externally_stopped_are_dead_running_streams(init, s);
        let d = daemons.last();
        let tail = if d.is_streaming && !d.session_alive {
            seq![d.serial@]
        } else {
            seq![]
        };
        assert(externally_stopped_of(daemons) == externally_stopped_of(init) + tail);
        if externally_stopped_of(daemons).contains(s) {
            let k = choose|k: int|
                0 <= k < externally_stopped_of(daemons).len() && externally_stopped_of(daemons)[k] == s;
            if k < externally_stopped_of(init).len() {
                assert(externally_stopped_of(init)[k] == s);
                let i = choose|i: int|
                    0 <= i < init.len() && (#[trigger] init[i]).serial@ == s && init[i].is_streaming
                        && !init[i].session_alive;
                assert(daemons[i] == init[i]);
            } else {
                assert(daemons[daemons.len() - 1] == d);
            }
        }
        if exists|i: int|
            0 <= i < daemons.len() && (#[trigger] daemons[i]).serial@ == s && daemons[i].is_streaming
                && !daemons[i].session_alive {
            let i = choose|i: int|
                0 <= i < daemons.len() && (#[trigger] daemons[i]).serial@ == s && daemons[i].is_streaming
                    && !daemons[i].session_alive;
            if i < daemons.len() - 1 {
                assert(init[i] == daemons[i]);
                let k = choose|k: int|
                    0 <= k < externally_stopped_of(init).len() && externally_stopped_of(init)[k] == s;
                assert(externally_stopped_of(daemons)[k] == s);
            } else {
                assert(externally_stopped_of(daemons)[externally_stopped_of(init).len() as int] == s);
            }
        }
    }
}

/// A stream is torn down as unplugged exactly when its device is missing from the poll:
/// every serial listed belongs to a stream whose device was not polled, and every such
/// stream's serial is listed; a device that is still polled never loses its stream this way.
pub proof fn law_unplugged_are_streams_of_missing_devices(
    daemons: Seq<DaemonStatus>,
    devices: Seq<Seq<char>>,
    s: Seq<char>,
)
    ensures
        unplugged_of(daemons, devices).contains(s) <==> (!devices.contains(s) && exists|i: int|
            0 <= i < daemons.len() && (#[trigger] daemons[i]).serial@ == s),
    decreases daemons.len(),
{
    if daemons.len() > 0 {
        let init = daemons.drop_last();
        law_unplugged_are_streams_of_missing_devices(init, devices, s);
        let d = daemons.last();
        let tail = if !devices.contains(d.serial@) {
            seq![d.serial@]
        } else {
            seq![]
        };
        assert(unplugged_of(daemons, devices) == unplugged_of(init, devices) + tail);
        if unplugged_of(daemons, devices).contains(s) {
            let k = choose|k: int|
                0 <= k < unplugged_of(daemons, devices).len() && unplugged_of(daemons, devices)[k] == s;
            if k < unplugged_of(init, devices).len() {
                assert(unplugged_of(init, devices)[k] == s);
                let i = choose|i: int| 0 <= i < init.len() && (#[trigger] init[i]).serial@ == s;
                assert(daemons[i] == init[i]);
            } else {
                assert(daemons[daemons.len() - 1] == d);
            }
        }
        if !devices.contains(s) && exists|i: int|
            0 <= i < daemons.len() && (#[trigger] daemons[i]).serial@ == s {
            let i = choose|i: int| 0 <= i < daemons.len() && (#[trigger] daemons[i]).serial@ == s;
            if i < daemons.len() - 1 {
                assert(init[i] == daemons[i]);
                let k = choose|k: int|
                    0 <= k < unplugged_of(init, devices).len() && unplugged_of(init, devices)[k] == s;
                assert(unplugged_of(daemons, devices)[k] == s);
            } else {
                assert(daemons[daemons.len() - 1] == d);
                assert(unplugged_of(daemons, devices)[unplugged_of(init, devices).len() as int] == s);
            }
        }
    }
}

/// Reconciles a device poll against the running streams: the polled serials sorted, the
/// streams stopped from outside (still marked running, session closed) and the streams whose
/// device was unplugged (absent from the poll).
pub fn plan_device_update(polled: Vec<String>, daemons: &[DaemonStatus]) -> (r: DeviceUpdatePlan)
    ensures
        sorted(views(r.devices@)),
        views(r.devices@).to_multiset() == views(polled@).to_multiset(),
        views(r.externally_stopped@) == externally_stopped_of(daemons@),
        views(r.unplugged@) == unplugged_of(daemons@, views(polled@)),
{
    let devices = sort_serials(polled);
    let mut externally_stopped: Vec<String> = Vec::new();
    let mut unplugged: Vec<String> = Vec::new();
    let mut i: usize = 0;
    while i < daemons.len()
        invariant
            i <= daemons@.len(),
            views(devices@).to_multiset() == views(polled@).to_multiset(),
            views(externally_stopped@) == externally_stopped_of(daemons@.take(i as int)),
            views(unplugged@) == unplugged_of(daemons@.take(i as int), views(polled@)),
        decreases daemons@.len() - i,
    {
        let d = &daemons[i];
        assert(daemons@.take(i + 1).drop_last() =~= daemons@.take(i as int));
        assert(daemons@.take(i + 1).last() == daemons@[i as int]);
        let ghost old_e = views(externally_stopped@);
        let ghost old_u = views(unplugged@);
        if d.is_streaming && !d.session_alive {
            externally_stopped.push(d.serial.clone());
        }
        assert(views(externally_stopped@) =~= externally_stopped_of(daemons@.take(i + 1)));
        proof {
            broadcast use vstd::seq_lib::to_multiset_contains;

            assert(views(devices@).contains(d.serial@) == views(polled@).contains(d.serial@)) by {
                if views(devices@).contains(d.serial@) {
                    assert(views(devices@).to_multiset().count(d.serial@) > 0);
                }
                if views(polled@).contains(d.serial@) {
                    assert(views(polled@).to_multiset().count(d.serial@) > 0);
                }
            }
        }
        if !list_contains(devices.as_slice(), d.serial.as_str()) {
            unplugged.push(d.serial.clone());
        }
        assert(views(unplugged@) =~= unplugged_of(daemons@.take(i + 1), views(polled@)));
        i = i + 1;
    }
    assert(daemons@.take(daemons@.len() as int) =~= daemons@);
    DeviceUpdatePlan { devices, externally_stopped, unplugged }
}

/// `ADB Serial: <serial> • Ports: Video <v> / Input <i>`, or `ADB Serial: <serial> • <text>`
/// when the device has no port pair.
pub open spec fn row_subtitle(serial: Seq<char>, ports: Option<(u16, u16)>, no_ports: Seq<char>) -> Seq<
    char,
> {
    match ports {
        Some((v, i)) => "ADB Serial: "@ + serial + " \u{2022} Ports: Video "@ + decimal(v as nat)
            + " / Input "@ + decimal(i as nat),
        None => "ADB Serial: "@ + serial + " \u{2022} "@ + no_ports,
    }
}

/// Subtitle of a device's row on the connection page.
pub fn device_row_subtitle(serial: &str, ports: Option<(u16, u16)>, no_ports: &str) -> (r: String)
    ensures
        r@ == row_subtitle(serial@, ports, no_ports@),
{
    let mut s = String::from_str("ADB Serial: ");
    s.append(serial);
    match ports {
        Some((v, i)) => {
            s.append(" \u{2022} Ports: Video ");
            push_decimal(&mut s, v as u64);
            s.append(" / Input ");
            push_decimal(&mut s, i as u64);
        },
        None => {
            s.append(" \u{2022} ");
            s.append(no_ports);
        },
    }
    s
}

/// The device that toggling the stream without naming one acts on: the first known one.
pub fn first_device(known: &Vec<String>) -> (r: Option<&String>)
    ensures
        r == (if known@.len() > 0 {
            Some(&known@[0])
        } else {
            None
        }),
{
    if known.len() > 0 {
        Some(&known[0])
    } else {
        None
    }
}

/// The configuration for a device's stream: the settings page's configuration (or the
/// defaults, when no settings page is wired) with the device's serial and port pair.
pub fn config_for_device(base: StreamConfig, serial: &str, ports: (u16, u16)) -> (r: StreamConfig)
    ensures
        r.width == base.width,
        r.height == base.height,
        r.fps == base.fps,
        r.encoder == base.encoder,
        r.display_mode == base.display_mode,
        r.device_serial matches Some(s) && s@ == serial@,
        r.video_port == ports.0,
        r.input_port == ports.1,
{
    let mut config = base;
    config.device_serial = Some(serial.to_owned());
    config.video_port = ports.0;
    config.input_port = ports.1;
    config
}

/// Name and form factor shown for a device whose details could not be fetched: a generic
/// name with its serial, taken for a tablet.
pub fn fallback_device_details(serial: &str) -> (r: (String, bool))
    ensures
        r.0@ == "Android Device ("@ + serial@ + ")"@,
        r.1,
{
    let mut name = String::from_str("Android Device (");
    name.append(serial);
    name.append(")");
    (name, true)
}

/// Why a device's stream was torn down without the user asking for it.
#[derive(Clone, Copy, Debug, PartialEq, Eq, Structural)]
pub enum StreamEnd {
    /// The portal session was closed from outside (the system's screen-sharing control).
    StoppedExternally,
    /// The device is no longer connected.
    Unplugged,
}

/// Key of the message for a stream end.
pub open spec fn stream_end_key(end: StreamEnd) -> Seq<char> {
    match end {
        StreamEnd::StoppedExternally => "stream_stopped_externally"@,
        StreamEnd::Unplugged => "device_disconnected"@,
    }
}

/// Prefix of the notification id for a stream end.
pub open spec fn stream_end_id_prefix(end: StreamEnd) -> Seq<char> {
    match end {
        StreamEnd::StoppedExternally => "external-stop-"@,
        StreamEnd::Unplugged => "unplug-"@,
    }
}

/// The notification shown when a device's stream ends on its own: `<message> (<serial>)`,
/// under an id made of the kind and the serial, so each device gets its own notification.
pub fn stream_end_notice(end: StreamEnd, serial: &str, spanish: bool) -> (r: (String, String))
    ensures
        r.0@ == translation(stream_end_key(end), spanish) + " ("@ + serial@ + ")"@,
        r.1@ == stream_end_id_prefix(end) + serial@,
{
    let (key, prefix) = match end {
        StreamEnd::StoppedExternally => ("stream_stopped_externally", "external-stop-"),
        StreamEnd::Unplugged => ("device_disconnected", "unplug-"),
    };
    proof {
        reveal_strlit("stream_stopped_externally");
        reveal_strlit("device_disconnected");
    }
    let mut message = String::from_str(tr(key, spanish));
    message.append(" (");
    message.append(serial);
    message.append(")");
    let mut id = String::from_str(prefix);
    id.append(serial);
    (message, id)
}

} // verus!
