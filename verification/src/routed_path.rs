//! Per-path state for confirmed requests sent through a router: one active
//! request per (immediate router, DNET) path, configured and learned NPDU
//! limits, stale-control quarantine, and a bounded table with idle-entry
//! reclamation.
//!
//! Time enters as a millisecond reading supplied by the caller; the per-path lock that
//! serializes requests on a path is tracked as a count of outstanding
//! reservations.

use vstd::prelude::*;
use vstd::string::*;
use vstd::slice::slice_to_vec;

use crate::error::Error;
use crate::target::ConfirmedTarget;

verus! {

/// Smallest routed NPDU envelope required across the standard data links.
pub const CONSERVATIVE_ROUTED_PATH_MAX_NPDU: u16 = 228;

/// Hard bound covering path locks, configured evidence, and learned evidence.
pub const MAX_ROUTED_PATH_ENTRIES: usize = 256;

/// Network message type of Reject-Message-To-Network.
pub const REJECT_MESSAGE_TO_NETWORK: u8 = 3;

/// Reject-Message-To-Network reason 4: the message is too long.
pub const REJECT_MESSAGE_TOO_LONG: u8 = 4;

/// An immediate router MAC and destination network.
pub struct RoutedPathKey {
    pub immediate_router_mac: Vec<u8>,
    pub dnet: u16,
}

impl View for RoutedPathKey {
    type V = (Seq<u8>, u16);

    open spec fn view(&self) -> (Seq<u8>, u16) {
        (self.immediate_router_mac@, self.dnet)
    }
}

impl RoutedPathKey {
    /// The key of the path through `immediate_router_mac` to `dnet`.
    pub fn new(immediate_router_mac: &[u8], dnet: u16) -> (r: Self)
        ensures
            r@ == (immediate_router_mac@, dnet),
    {
        RoutedPathKey { immediate_router_mac: slice_to_vec(immediate_router_mac), dnet }
    }

    fn copy(&self) -> (r: Self)
        ensures
            r@ == self@,
    {
        RoutedPathKey { immediate_router_mac: slice_to_vec(self.immediate_router_mac.as_slice()), dnet: self.dnet }
    }
}

/// The request currently authorized on a path.
pub struct ActiveRoutedSend {
    pub path: RoutedPathKey,
    pub tsm_mac: Vec<u8>,
    pub invoke_id: u8,
    /// Identity of the transaction that owns the send.
    pub owner: u64,
    pub forwarded_npci_len: u16,
    pub outgoing_apdu_len: Option<u16>,
    pub ingress_floor: u64,
}

/// Mathematical value of an [`ActiveRoutedSend`].
pub struct ActiveSendView {
    pub path: (Seq<u8>, u16),
    pub tsm_mac: Seq<u8>,
    pub invoke_id: u8,
    pub owner: u64,
    pub forwarded_npci_len: u16,
    pub outgoing_apdu_len: Option<u16>,
    pub ingress_floor: u64,
}

impl View for ActiveRoutedSend {
    type V = ActiveSendView;

    open spec fn view(&self) -> ActiveSendView {
        ActiveSendView {
            path: self.path@,
            tsm_mac: self.tsm_mac@,
            invoke_id: self.invoke_id,
            owner: self.owner,
            forwarded_npci_len: self.forwarded_npci_len,
            outgoing_apdu_len: self.outgoing_apdu_len,
            ingress_floor: self.ingress_floor,
        }
    }
}

/// Everything the table keeps about one path.
pub struct PathEntryView {
    /// Reservations of the path's lock not yet released (held or waiting).
    pub gate_refs: usize,
    /// Explicitly configured maximum NPDU.
    pub configured: Option<u16>,
    /// Learned exclusive maximum NPDU (a reason-4 reject was seen at this size).
    pub learned: Option<u16>,
    pub active: Option<ActiveSendView>,
    pub last_used: u64,
    pub quarantine_started: Option<u64>,
    pub generation_attempts: u32,
    pub generation_terminal_observed: bool,
}

struct RoutedPathEntry {
    key: RoutedPathKey,
    gate_refs: usize,
    configured: Option<u16>,
    learned: Option<u16>,
    active: Option<ActiveRoutedSend>,
    last_used: u64,
    quarantine_started: Option<u64>,
    generation_attempts: u32,
    generation_terminal_observed: bool,
}

spec fn active_view(a: Option<ActiveRoutedSend>) -> Option<ActiveSendView> {
    match a {
        Some(a) => Some(a@),
        None => None,
    }
}

impl View for RoutedPathEntry {
    type V = PathEntryView;

    closed spec fn view(&self) -> PathEntryView {
        PathEntryView {
            gate_refs: self.gate_refs,
            configured: self.configured,
            learned: self.learned,
            active: active_view(self.active),
            last_used: self.last_used,
            quarantine_started: self.quarantine_started,
            generation_attempts: self.generation_attempts,
            generation_terminal_observed: self.generation_terminal_observed,
        }
    }
}

/// Mathematical value of the routed-path table.
pub struct RoutedPathTable {
    pub paths: Map<(Seq<u8>, u16), PathEntryView>,
    pub next_use: u64,
    pub capacity: usize,
    pub quarantine_horizon_ms: u64,
}

/// Routed-path table.
pub struct RoutedPathLimits {
    entries: Vec<RoutedPathEntry>,
    next_use: u64,
    capacity: usize,
    quarantine_horizon_ms: u64,
}

spec fn entry_keys(s: Seq<RoutedPathEntry>) -> Seq<(Seq<u8>, u16)> {
    s.map_values(|e: RoutedPathEntry| e.key@)
}

spec fn keys_distinct(s: Seq<RoutedPathEntry>) -> bool {
    forall|i: int, j: int| 0 <= i < s.len() && 0 <= j < s.len() && i != j ==> s[i].key@ != s[j].key@
}

spec fn has_key(s: Seq<RoutedPathEntry>, k: (Seq<u8>, u16)) -> bool {
    exists|i: int| 0 <= i < s.len() && s[i].key@ == k
}

spec fn slot(s: Seq<RoutedPathEntry>, k: (Seq<u8>, u16)) -> int {
    choose|i: int| 0 <= i < s.len() && s[i].key@ == k
}

spec fn paths_of(s: Seq<RoutedPathEntry>) -> Map<(Seq<u8>, u16), PathEntryView> {
    Map::new(|k: (Seq<u8>, u16)| has_key(s, k), |k: (Seq<u8>, u16)| s[slot(s, k)]@)
}

proof fn lemma_slot(s: Seq<RoutedPathEntry>, i: int)
    requires
        keys_distinct(s),
        0 <= i < s.len(),
    ensures
        has_key(s, s[i].key@),
        slot(s, s[i].key@) == i,
        paths_of(s).contains_key(s[i].key@),
        paths_of(s)[s[i].key@] == s[i]@,
{
    assert(has_key(s, s[i].key@));
}

proof fn lemma_update(s: Seq<RoutedPathEntry>, i: int, e: RoutedPathEntry)
    requires
        keys_distinct(s),
        0 <= i < s.len(),
        e.key@ == s[i].key@,
    ensures
        keys_distinct(s.update(i, e)),
        paths_of(s.update(i, e)) == paths_of(s).insert(e.key@, e@),
{
    let t = s.update(i, e);
    assert(keys_distinct(t));
    assert forall|k: (Seq<u8>, u16)| has_key(t, k) == has_key(s, k) by {
        if has_key(s, k) {
            let j = slot(s, k);
            assert(t[j].key@ == k);
        }
        if has_key(t, k) {
            let j = slot(t, k);
            assert(s[j].key@ == k);
        }
    }
    lemma_slot(t, i);
    assert forall|k: (Seq<u8>, u16)| has_key(t, k) && k != e.key@ implies t[slot(t, k)]@
        == s[slot(s, k)]@ by {
        let j = slot(t, k);
        lemma_slot(s, j);
    }
    assert(paths_of(t) =~= paths_of(s).insert(e.key@, e@));
}

proof fn lemma_push(s: Seq<RoutedPathEntry>, e: RoutedPathEntry)
    requires
        keys_distinct(s),
        !has_key(s, e.key@),
    ensures
        keys_distinct(s.push(e)),
        paths_of(s.push(e)) == paths_of(s).insert(e.key@, e@),
{
    let t = s.push(e);
    assert forall|i: int, j: int| 0 <= i < t.len() && 0 <= j < t.len() && i != j implies t[i].key@
        != t[j].key@ by {
        if i == s.len() as int {
            assert(s[j].key@ == t[j].key@);
        } else if j == s.len() as int {
            assert(s[i].key@ == t[i].key@);
        }
    }
    assert forall|k: (Seq<u8>, u16)| has_key(t, k) == (has_key(s, k) || k == e.key@) by {
        if has_key(s, k) {
            let j = slot(s, k);
            assert(t[j].key@ == k);
        }
        if has_key(t, k) && k != e.key@ {
            let j = slot(t, k);
            assert(s[j].key@ == k);
        }
        if k == e.key@ {
            assert(t[s.len() as int].key@ == k);
        }
    }
    lemma_slot(t, s.len() as int);
    assert forall|k: (Seq<u8>, u16)| has_key(t, k) && k != e.key@ implies t[slot(t, k)]@
        == s[slot(s, k)]@ by {
        let j = slot(t, k);
        lemma_slot(s, j);
    }
    assert(paths_of(t) =~= paths_of(s).insert(e.key@, e@));
}

proof fn lemma_remove(s: Seq<RoutedPathEntry>, i: int)
    requires
        keys_distinct(s),
        0 <= i < s.len(),
    ensures
        keys_distinct(s.remove(i)),
        paths_of(s.remove(i)) == paths_of(s).remove(s[i].key@),
{
    let t = s.remove(i);
    let k0 = s[i].key@;
    assert forall|a: int, b: int| 0 <= a < t.len() && 0 <= b < t.len() && a != b implies t[a].key@
        != t[b].key@ by {
        let a2 = if a < i { a } else { a + 1 };
        let b2 = if b < i { b } else { b + 1 };
        assert(t[a] == s[a2]);
        assert(t[b] == s[b2]);
    }
    assert forall|k: (Seq<u8>, u16)| has_key(t, k) == (has_key(s, k) && k != k0) by {
        if has_key(s, k) && k != k0 {
            let j = slot(s, k);
            assert(j != i);
            let j2 = if j < i { j } else { j - 1 };
            assert(t[j2] == s[j]);
        }
        if has_key(t, k) {
            let j = slot(t, k);
            let j2 = if j < i { j } else { j + 1 };
            assert(t[j] == s[j2]);
            assert(j2 != i);
        }
    }
    assert forall|k: (Seq<u8>, u16)| has_key(t, k) implies t[slot(t, k)]@ == s[slot(s, k)]@ by {
        let j = slot(t, k);
        let j2 = if j < i { j } else { j + 1 };
        assert(t[j] == s[j2]);
        lemma_slot(s, j2);
    }
    assert(paths_of(t) =~= paths_of(s).remove(k0));
}

proof fn lemma_path_count(s: Seq<RoutedPathEntry>)
    requires
        keys_distinct(s),
    ensures
        paths_of(s).dom().finite(),
        paths_of(s).dom().len() == s.len(),
{
    let ks = entry_keys(s);
    assert forall|a: int, b: int| 0 <= a < ks.len() && 0 <= b < ks.len() && a != b implies ks[a]
        != ks[b] by {
    }
    assert(ks.no_duplicates());
    ks.unique_seq_to_set();
    assert forall|k: (Seq<u8>, u16)| paths_of(s).dom().contains(k) == ks.to_set().contains(k) by {
        if has_key(s, k) {
            let j = slot(s, k);
            assert(ks[j] == k);
        }
        if ks.to_set().contains(k) {
            let j = choose|j: int| 0 <= j < ks.len() && ks[j] == k;
            assert(s[j].key@ == k);
        }
    }
    assert(paths_of(s).dom() =~= ks.to_set());
}

impl View for RoutedPathLimits {
    type V = RoutedPathTable;

    closed spec fn view(&self) -> RoutedPathTable {
        RoutedPathTable {
            paths: paths_of(self.entries@),
            next_use: self.next_use,
            capacity: self.capacity,
            quarantine_horizon_ms: self.quarantine_horizon_ms,
        }
    }
}

impl RoutedPathLimits {
    /// Well-formedness: a positive capacity that bounds the entries, and one
    /// entry per path.
    pub closed spec fn wf(&self) -> bool {
        &&& self.capacity > 0
        &&& self.entries.len() <= self.capacity
        &&& keys_distinct(self.entries@)
    }

    /// The table never holds more paths than its capacity, and has one.
    pub proof fn lemma_bounded(&self)
        requires
            self.wf(),
        ensures
            self@.capacity > 0,
            self@.paths.dom().finite(),
            self@.paths.dom().len() <= self@.capacity,
    {
        lemma_path_count(self.entries@);
    }

    /// An empty table of `capacity` paths.
    pub fn with_capacity(capacity: usize, quarantine_horizon_ms: u64) -> (r: Self)
        requires
            capacity > 0,
        ensures
            r.wf(),
            r@.paths == Map::<(Seq<u8>, u16), PathEntryView>::empty(),
            r@.next_use == 0,
            r@.capacity == capacity,
            r@.quarantine_horizon_ms == quarantine_horizon_ms,
    {
        let r = RoutedPathLimits { entries: Vec::new(), next_use: 0, capacity, quarantine_horizon_ms };
        assert(paths_of(r.entries@) =~= Map::<(Seq<u8>, u16), PathEntryView>::empty());
        r
    }

    /// An empty table with the standard capacity.
    pub fn new(quarantine_horizon_ms: u64) -> (r: Self)
        ensures
            r.wf(),
            r@.paths == Map::<(Seq<u8>, u16), PathEntryView>::empty(),
            r@.next_use == 0,
            r@.capacity == MAX_ROUTED_PATH_ENTRIES,
            r@.quarantine_horizon_ms == quarantine_horizon_ms,
    {
        Self::with_capacity(MAX_ROUTED_PATH_ENTRIES, quarantine_horizon_ms)
    }

    fn find(&self, mac: &[u8], dnet: u16) -> (r: Option<usize>)
        ensures
            match r {
                Some(i) => i < self.entries.len() && self.entries@[i as int].key@ == (mac@, dnet),
                None => !has_key(self.entries@, (mac@, dnet)),
            },
    {
        let mut i: usize = 0;
        while i < self.entries.len()
            invariant
                i <= self.entries.len(),
                forall|j: int| 0 <= j < i ==> self.entries@[j].key@ != (mac@, dnet),
            decreases self.entries.len() - i,
        {
            let e = &self.entries[i];
            if e.key.dnet == dnet && bytes_equal(e.key.immediate_router_mac.as_slice(), mac) {
                return Some(i);
            }
            i = i + 1;
        }
        None
    }

    /// Number of paths the table holds.
    pub fn len(&self) -> (r: usize)
        requires
            self.wf(),
        ensures
            r == self@.paths.dom().len(),
    {
        proof {
            lemma_path_count(self.entries@);
        }
        self.entries.len()
    }

    /// Whether the table holds the path through `mac` to `dnet`.
    pub fn has_path(&self, mac: &[u8], dnet: u16) -> (r: bool)
        requires
            self.wf(),
        ensures
            r == self@.paths.contains_key((mac@, dnet)),
    {
        let r = self.find(mac, dnet);
        proof {
            if let Some(i) = r {
                lemma_slot_pub(self, i as int);
            }
        }
        r.is_some()
    }
}

/// `n + 1`, saturating at `u64::MAX`.
pub open spec fn bumped(n: u64) -> u64 {
    if n < u64::MAX {
        (n + 1) as u64
    } else {
        n
    }
}

/// Milliseconds from `started` to `now`, zero if `now` is earlier.
pub open spec fn elapsed_ms(now: u64, started: u64) -> u64 {
    if now >= started {
        (now - started) as u64
    } else {
        0
    }
}

/// A path whose entry holds no evidence, no active send, no reservation, and
/// no unexpired quarantine, so dropping it loses nothing.
pub open spec fn reclaimable(e: PathEntryView, now: u64, horizon: u64) -> bool {
    &&& e.configured is None
    &&& e.learned is None
    &&& e.active is None
    &&& e.gate_refs == 0
    &&& match e.quarantine_started {
        None => true,
        Some(started) => elapsed_ms(now, started) >= horizon,
    }
}

/// `k` is the reclaimable path that is reclaimed first.
pub open spec fn is_reclaim_victim(
    paths: Map<(Seq<u8>, u16), PathEntryView>,
    k: (Seq<u8>, u16),
    now: u64,
    horizon: u64,
) -> bool {
    &&& paths.contains_key(k)
    &&& reclaimable(paths[k], now, horizon)
    &&& forall|k2: (Seq<u8>, u16)|
        #![trigger paths[k2]]
        paths.contains_key(k2) && k2 != k && reclaimable(paths[k2], now, horizon)
            ==> evicts_before(paths[k].last_used, k, paths[k2].last_used, k2)
}

/// The entry of a path just reserved for the first time.
pub open spec fn fresh_path(last_used: u64) -> PathEntryView {
    PathEntryView {
        gate_refs: 1,
        configured: None,
        learned: None,
        active: None,
        last_used,
        quarantine_started: None,
        generation_attempts: 0,
        generation_terminal_observed: false,
    }
}

/// One more reservation of an existing path, used at `last_used`.
pub open spec fn rereserved(e: PathEntryView, last_used: u64) -> PathEntryView {
    PathEntryView {
        gate_refs: if e.gate_refs < usize::MAX { (e.gate_refs + 1) as usize } else { e.gate_refs },
        last_used,
        ..e
    }
}

/// How reserving the lock of path `k` at `now` changes the paths of `t`.
pub open spec fn reserve_outcome(
    t: RoutedPathTable,
    k: (Seq<u8>, u16),
    now: u64,
    paths: Map<(Seq<u8>, u16), PathEntryView>,
    r: Result<(), Error>,
) -> bool {
    let u = bumped(t.next_use);
    let h = t.quarantine_horizon_ms;
    if t.paths.contains_key(k) {
        r is Ok && paths == t.paths.insert(k, rereserved(t.paths[k], u))
    } else if t.paths.dom().len() < t.capacity {
        r is Ok && paths == t.paths.insert(k, fresh_path(u))
    } else if exists|v: (Seq<u8>, u16)| is_reclaim_victim(t.paths, v, now, h) {
        r is Ok && exists|v: (Seq<u8>, u16)|
            is_reclaim_victim(t.paths, v, now, h) && paths == t.paths.remove(v).insert(
                k,
                fresh_path(u),
            )
    } else {
        r matches Err(Error::RoutedPathCapacityExceeded { capacity }) && capacity == t.capacity
            && paths == t.paths
    }
}

fn entry_reclaimable(e: &RoutedPathEntry, now_ms: u64, horizon: u64) -> (r: bool)
    ensures
        r == reclaimable(e@, now_ms, horizon),
{
    e.configured.is_none() && e.learned.is_none() && e.active.is_none() && e.gate_refs == 0
        && match e.quarantine_started {
        None => true,
        Some(started) => now_ms.saturating_sub(started) >= horizon,
    }
}

fn entry_before(a: &RoutedPathEntry, b: &RoutedPathEntry) -> (r: bool)
    ensures
        r == evicts_before(a.last_used, a.key@, b.last_used, b.key@),
{
    a.last_used < b.last_used || (a.last_used == b.last_used && key_less(&a.key, &b.key))
}

impl RoutedPathLimits {
    fn reclaim_victim(&self, now_ms: u64) -> (r: Option<usize>)
        requires
            self.wf(),
        ensures
            match r {
                Some(i) => i < self.entries.len() && is_reclaim_victim(
                    self@.paths,
                    self.entries@[i as int].key@,
                    now_ms,
                    self.quarantine_horizon_ms,
                ),
                None => forall|k: (Seq<u8>, u16)|
                    #![trigger self@.paths[k]]
                    self@.paths.contains_key(k) ==> !reclaimable(
                        self@.paths[k],
                        now_ms,
                        self.quarantine_horizon_ms,
                    ),
            },
    {
        let h = self.quarantine_horizon_ms;
        let ghost s = self.entries@;
        let mut best: Option<usize> = None;
        let mut i: usize = 0;
        while i < self.entries.len()
            invariant
                s == self.entries@,
                h == self.quarantine_horizon_ms,
                keys_distinct(s),
                i <= s.len(),
                match best {
                    Some(b) => b < i && reclaimable(s[b as int]@, now_ms, h) && forall|j: int|
                        0 <= j < i && j != b && reclaimable(#[trigger] s[j]@, now_ms, h)
                            ==> evicts_before(
                            s[b as int].last_used,
                            s[b as int].key@,
                            s[j].last_used,
                            s[j].key@,
                        ),
                    None => forall|j: int| 0 <= j < i ==> !reclaimable(#[trigger] s[j]@, now_ms, h),
                },
            decreases s.len() - i,
        {
            let e = &self.entries[i];
            if entry_reclaimable(e, now_ms, h) {
                match best {
                    None => {
                        best = Some(i);
                    },
                    Some(b) => {
                        if entry_before(e, &self.entries[b]) {
                            proof {
                                assert forall|j: int|
                                    0 <= j < i + 1 && j != i && reclaimable(
                                        #[trigger] s[j]@,
                                        now_ms,
                                        h,
                                    ) implies evicts_before(
                                    s[i as int].last_used,
                                    s[i as int].key@,
                                    s[j].last_used,
                                    s[j].key@,
                                ) by {
                                    if j != b {
                                        lemma_evicts_before_transitive(
                                            s[i as int].last_used,
                                            s[i as int].key@,
                                            s[b as int].last_used,
                                            s[b as int].key@,
                                            s[j].last_used,
                                            s[j].key@,
                                        );
                                    }
                                }
                            }
                            best = Some(i);
                        } else {
                            proof {
                                lemma_evicts_before_total(
                                    s[i as int].last_used,
                                    s[i as int].key@,
                                    s[b as int].last_used,
                                    s[b as int].key@,
                                );
                            }
                        }
                    },
                }
            }
            i = i + 1;
        }
        proof {
            match best {
                Some(b) => {
                    lemma_slot(s, b as int);
                    assert forall|k2: (Seq<u8>, u16)|
                        #![trigger self@.paths[k2]]
                        self@.paths.contains_key(k2) && k2 != s[b as int].key@ && reclaimable(
                            self@.paths[k2],
                            now_ms,
                            h,
                        ) implies evicts_before(
                        self@.paths[s[b as int].key@].last_used,
                        s[b as int].key@,
                        self@.paths[k2].last_used,
                        k2,
                    ) by {
                        let j = slot(s, k2);
                        lemma_slot(s, j);
                    }
                },
                None => {
                    assert forall|k: (Seq<u8>, u16)|
                        #![trigger self@.paths[k]]
                        self@.paths.contains_key(k) implies !reclaimable(
                        self@.paths[k],
                        now_ms,
                        h,
                    ) by {
                        let j = slot(s, k);
                        lemma_slot(s, j);
                    }
                },
            }
        }
        best
    }

    /// Reserve the lock of the path through `router_mac` to `dnet` at time
    /// `now_ms`, creating the path's entry if needed.
    ///
    /// A full table first gives up its least recently used reclaimable path;
    /// when none is reclaimable the reservation fails and no path changes.
    #[verifier::spinoff_prover]
    #[verifier::rlimit(40)]
    pub fn reserve_gate(&mut self, router_mac: &[u8], dnet: u16, now_ms: u64) -> (r: Result<
        (),
        Error,
    >)
        requires
            old(self).wf(),
        ensures
            final(self).wf(),
            final(self)@.next_use == bumped(old(self)@.next_use),
            final(self)@.capacity == old(self)@.capacity,
            final(self)@.quarantine_horizon_ms == old(self)@.quarantine_horizon_ms,
            reserve_outcome(old(self)@, (router_mac@, dnet), now_ms, final(self)@.paths, r),
    {
        let ghost old_s = self.entries@;
        let ghost old_paths = self@.paths;
        let ghost old_view = self@;
        proof {
            lemma_path_count(old_s);
        }
        let u = if self.next_use < u64::MAX { self.next_use + 1 } else { self.next_use };
        self.next_use = u;
        if let Some(i) = self.find(router_mac, dnet) {
            proof {
                lemma_slot(old_s, i as int);
            }
            let refs = self.entries[i].gate_refs;
            self.entries[i].gate_refs = if refs < usize::MAX { refs + 1 } else { refs };
            self.entries[i].last_used = u;
            proof {
                lemma_update(old_s, i as int, self.entries@[i as int]);
                assert(self.entries@ == old_s.update(i as int, self.entries@[i as int]));
                assert(self.entries@[i as int]@ == rereserved(old_paths[(router_mac@, dnet)], u));
                assert(reserve_outcome(old_view, (router_mac@, dnet), now_ms, self@.paths, Ok(())));
            }
            return Ok(());
        }
        let ghost mut victim: Option<(Seq<u8>, u16)> = None;
        if self.entries.len() >= self.capacity {
            match self.reclaim_victim(now_ms) {
                Some(v) => {
                    proof {
                        assert(self.entries@ == old_s);
                        assert(self@.paths == old_paths);
                        victim = Some(old_s[v as int].key@);
                        lemma_remove(old_s, v as int);
                    }
                    self.entries.remove(v);
                },
                None => {
                    proof {
                        assert(self.entries@ == old_s);
                        assert(self@.paths == old_paths);
                        assert forall|v: (Seq<u8>, u16)|
                            !is_reclaim_victim(
                                old_paths,
                                v,
                                now_ms,
                                self.quarantine_horizon_ms,
                            ) by {
                            if old_paths.contains_key(v) {
                                assert(!reclaimable(
                                    old_paths[v],
                                    now_ms,
                                    self.quarantine_horizon_ms,
                                ));
                            }
                        }
                    }
                    let e = Error::RoutedPathCapacityExceeded { capacity: self.capacity };
                    proof {
                        assert(reserve_outcome(old_view, (router_mac@, dnet), now_ms, self@.paths, Err(e)));
                    }
                    return Err(e);
                },
            }
        }
        let ghost mid_s = self.entries@;
        let entry = RoutedPathEntry {
            key: RoutedPathKey::new(router_mac, dnet),
            gate_refs: 1,
            configured: None,
            learned: None,
            active: None,
            last_used: u,
            quarantine_started: None,
            generation_attempts: 0,
            generation_terminal_observed: false,
        };
        proof {
            assert(!has_key(mid_s, (router_mac@, dnet))) by {
                if has_key(mid_s, (router_mac@, dnet)) {
                    let j = slot(mid_s, (router_mac@, dnet));
                    lemma_slot(mid_s, j);
                    if old_s.len() >= self.capacity {
                        assert(paths_of(mid_s).contains_key((router_mac@, dnet)));
                    }
                    assert(old_paths.contains_key((router_mac@, dnet)));
                    lemma_slot(old_s, slot(old_s, (router_mac@, dnet)));
                }
            }
            lemma_push(mid_s, entry);
            lemma_path_count(mid_s.push(entry));
            assert(entry@ == fresh_path(u));
        }
        self.entries.push(entry);
        proof {
            let k = (router_mac@, dnet);
            assert(self.entries@ == mid_s.push(entry));
            assert(!old_paths.contains_key(k));
            match victim {
                Some(vk) => {
                    assert(old_s.len() >= self.capacity);
                    assert(is_reclaim_victim(old_paths, vk, now_ms, self.quarantine_horizon_ms));
                    assert(paths_of(mid_s) == old_paths.remove(vk));
                    assert(self@.paths == old_paths.remove(vk).insert(k, fresh_path(u)));
                    assert(exists|v: (Seq<u8>, u16)|
                        is_reclaim_victim(old_paths, v, now_ms, self.quarantine_horizon_ms)
                            && self@.paths == old_paths.remove(v).insert(k, fresh_path(u)));
                },
                None => {
                    assert(mid_s == old_s);
                    assert(old_paths.dom().len() < self.capacity);
                },
            }
            assert(reserve_outcome(old_view, (router_mac@, dnet), now_ms, self@.paths, Ok(())));
        }
        Ok(())
    }
}

proof fn lemma_in_place(old_s: Seq<RoutedPathEntry>, new_s: Seq<RoutedPathEntry>, i: int)
    requires
        keys_distinct(old_s),
        0 <= i < old_s.len(),
        new_s.len() == old_s.len(),
        new_s[i].key@ == old_s[i].key@,
        forall|j: int| 0 <= j < old_s.len() && j != i ==> new_s[j] == old_s[j],
    ensures
        keys_distinct(new_s),
        paths_of(new_s) == paths_of(old_s).insert(old_s[i].key@, new_s[i]@),
        paths_of(old_s).contains_key(old_s[i].key@),
        paths_of(old_s)[old_s[i].key@] == old_s[i]@,
{
    assert(new_s =~= old_s.update(i, new_s[i]));
    lemma_update(old_s, i, new_s[i]);
    lemma_slot(old_s, i);
}

/// The entry after the lock's quarantine check at use `u` and time `now`.
pub open spec fn after_quarantine_check(e: PathEntryView, u: u64, now: u64, horizon: u64) -> PathEntryView {
    match e.quarantine_started {
        Some(started) => if elapsed_ms(now, started) >= horizon {
            PathEntryView {
                last_used: u,
                quarantine_started: None,
                generation_attempts: 0,
                generation_terminal_observed: false,
                ..e
            }
        } else {
            PathEntryView { last_used: u, ..e }
        },
        None => PathEntryView {
            last_used: u,
            generation_attempts: 0,
            generation_terminal_observed: false,
            ..e
        },
    }
}

/// Milliseconds of quarantine left for `e` at `now`, if any.
pub open spec fn quarantine_left(e: PathEntryView, now: u64, horizon: u64) -> Option<u64> {
    match e.quarantine_started {
        Some(started) => if elapsed_ms(now, started) >= horizon {
            None
        } else {
            Some((horizon - elapsed_ms(now, started)) as u64)
        },
        None => None,
    }
}

/// Length of the NPCI a router forwards: version, control, DNET, DLEN, DADR,
/// SNET, SLEN, SADR and hop count, when both addresses fit one octet of length.
pub open spec fn forwarded_npci(dadr_len: usize, local_source_mac_len: usize) -> Option<u16> {
    if dadr_len > 255 || local_source_mac_len == 0 || local_source_mac_len > 255 {
        None
    } else {
        Some((9 + dadr_len + local_source_mac_len) as u16)
    }
}

/// The APDU budget of a path entry given its forwarded NPCI length.
pub open spec fn path_max_apdu(e: PathEntryView, npci: u16) -> u16 {
    let configured_or_conservative = match e.configured {
        Some(c) => c,
        None => CONSERVATIVE_ROUTED_PATH_MAX_NPDU,
    };
    let effective = match e.learned {
        Some(l) => {
            let below = if l >= 1 { (l - 1) as u16 } else { 0u16 };
            if configured_or_conservative <= below { configured_or_conservative } else { below }
        },
        None => configured_or_conservative,
    };
    if effective >= npci { (effective - npci) as u16 } else { 0 }
}

/// The active send installed for `target` with the given transaction data.
pub open spec fn installed_send(
    k: (Seq<u8>, u16),
    tsm_mac: Seq<u8>,
    invoke_id: u8,
    owner: u64,
    forwarded_npci_len: u16,
    ingress_floor: u64,
) -> ActiveSendView {
    ActiveSendView {
        path: k,
        tsm_mac,
        invoke_id,
        owner,
        forwarded_npci_len,
        outgoing_apdu_len: None,
        ingress_floor,
    }
}

/// The path key a routed target's request travels on.
pub open spec fn target_path(target: ConfirmedTarget) -> Option<(Seq<u8>, u16)> {
    match target {
        ConfirmedTarget::Local { .. } => None,
        ConfirmedTarget::Routed { router_mac, dest_network, .. } => Some((router_mac@, dest_network)),
    }
}

/// An active send may be claimed by a reason-4 control received at
/// `ingress_sequence` on path `k`.
pub open spec fn claimable(a: ActiveSendView, k: (Seq<u8>, u16), ingress_sequence: u64) -> bool {
    a.outgoing_apdu_len is Some && a.path == k && ingress_sequence > a.ingress_floor
}

/// The learned exclusive bound after a reason-4 reject of an attempt of
/// `attempted` octets.
pub open spec fn tightened(learned: Option<u16>, attempted: u16) -> u16 {
    match learned {
        Some(l) => if l <= attempted { l } else { attempted },
        None => attempted,
    }
}

/// The NPDU size a claimed send attempted, if it can be represented.
pub open spec fn attempted_npdu(a: ActiveSendView) -> Option<u16> {
    match a.outgoing_apdu_len {
        Some(apdu) => if a.forwarded_npci_len + apdu <= u16::MAX {
            Some((a.forwarded_npci_len + apdu) as u16)
        } else {
            None
        },
        None => None,
    }
}

/// The entry after its lease is released at `now`: the active send ends, and
/// a generation that sent without proving it saw its terminal response is
/// quarantined.
pub open spec fn released(e: PathEntryView, now: u64) -> PathEntryView {
    PathEntryView {
        gate_refs: if e.gate_refs > 0 { (e.gate_refs - 1) as usize } else { 0 },
        active: None,
        quarantine_started: if e.generation_attempts > 0 && !e.generation_terminal_observed {
            Some(now)
        } else {
            e.quarantine_started
        },
        generation_attempts: 0,
        generation_terminal_observed: false,
        ..e
    }
}

/// Decode a Reject-Message-To-Network payload: reason and DNET.
pub fn decode_reject_message_to_network(payload: &[u8]) -> (r: Option<(u8, u16)>)
    ensures
        payload@.len() >= 3 ==> r == Some((payload@[0], (payload@[1] * 256 + payload@[2]) as u16)),
        payload@.len() < 3 ==> r is None,
{
    if payload.len() < 3 {
        return None;
    }
    let dnet: u16 = (payload[1] as u16) * 256 + payload[2] as u16;
    Some((payload[0], dnet))
}

/// Length of the forwarded NPCI for a DADR of `dadr_len` octets and a local
/// source MAC of `local_source_mac_len` octets.
pub fn forwarded_npci_len(dadr_len: usize, local_source_mac_len: usize) -> (r: Result<u16, Error>)
    ensures
        match forwarded_npci(dadr_len, local_source_mac_len) {
            Some(n) => r == Ok::<u16, Error>(n),
            None => r matches Err(Error::Encoding(_)),
        },
        dadr_len > 255 ==> (r matches Err(Error::Encoding(m)) && m@
            == "routed destination MAC address exceeds 255 bytes"@),
        dadr_len <= 255 && (local_source_mac_len == 0 || local_source_mac_len > 255) ==> (r matches Err(
            Error::Encoding(m),
        ) && m@ == "local source MAC address for routed forwarding must contain 1..=255 bytes"@),
{
    if dadr_len > 255 {
        return Err(
            Error::Encoding(String::from_str("routed destination MAC address exceeds 255 bytes")),
        );
    }
    if local_source_mac_len == 0 || local_source_mac_len > 255 {
        return Err(
            Error::Encoding(
                String::from_str(
                    "local source MAC address for routed forwarding must contain 1..=255 bytes",
                ),
            ),
        );
    }
    Ok((9 + dadr_len + local_source_mac_len) as u16)
}

/// A path named by a caller: a router MAC of 1..=255 octets and a DNET in 1..=65534.
pub open spec fn valid_public_path(router_mac: Seq<u8>, dnet: u16) -> bool {
    1 <= router_mac.len() <= 255 && dnet != 0 && dnet != 0xFFFF
}

/// Reject a router MAC or DNET that cannot name a routed path.
pub fn validate_public_path(router_mac: &[u8], dnet: u16) -> (r: Result<(), Error>)
    ensures
        valid_public_path(router_mac@, dnet) ==> r is Ok,
        !(1 <= router_mac@.len() <= 255) ==> (r matches Err(Error::Encoding(m)) && m@
            == "immediate router MAC address must contain 1..=255 bytes"@),
        1 <= router_mac@.len() <= 255 && (dnet == 0 || dnet == 0xFFFF) ==> (r matches Err(
            Error::Encoding(m),
        ) && m@ == "routed path DNET must be in 1..=65534"@),
{
    if router_mac.len() == 0 || router_mac.len() > 255 {
        return Err(
            Error::Encoding(String::from_str("immediate router MAC address must contain 1..=255 bytes")),
        );
    }
    if dnet == 0 || dnet == 0xffff {
        return Err(Error::Encoding(String::from_str("routed path DNET must be in 1..=65534")));
    }
    Ok(())
}

/// How long an ambiguous generation is quarantined: the full request and retry
/// horizon, at least one millisecond.
pub open spec fn quarantine_horizon(apdu_timeout_ms: u64, apdu_retries: u8) -> u64 {
    let total = apdu_timeout_ms * (apdu_retries + 1);
    if total > u64::MAX {
        u64::MAX
    } else if total < 1 {
        1
    } else {
        total as u64
    }
}

/// The quarantine horizon of a client configured with these timeouts.
pub fn routed_path_quarantine_horizon(apdu_timeout_ms: u64, apdu_retries: u8) -> (r: u64)
    ensures
        r == quarantine_horizon(apdu_timeout_ms, apdu_retries),
        r >= 1,
{
    let attempts: u64 = apdu_retries as u64 + 1;
    let total = apdu_timeout_ms.checked_mul(attempts);
    proof {
        assert(apdu_timeout_ms * attempts == apdu_timeout_ms * (apdu_retries + 1));
    }
    match total {
        Some(t) => if t < 1 { 1 } else { t },
        None => u64::MAX,
    }
}

/// An in-place change to one path's entry made under its held lock.
enum EntryUpdate {
    MarkTerminal,
    Configure(u16),
    Clear,
}

spec fn updated_entry(e: PathEntryView, update: EntryUpdate) -> PathEntryView {
    match update {
        EntryUpdate::MarkTerminal => PathEntryView {
            generation_terminal_observed: e.generation_attempts == 1,
            ..e
        },
        EntryUpdate::Configure(max_npdu) => PathEntryView { configured: Some(max_npdu), learned: None, ..e },
        EntryUpdate::Clear => PathEntryView { configured: None, learned: None, ..e },
    }
}

impl RoutedPathLimits {
    /// The quarantine step of acquiring the path's lock at `now_ms`: marks the
    /// path used, starts a new generation, and returns how long to wait
    /// before checking again while a quarantine is still running.
    pub fn quarantine_remaining(&mut self, router_mac: &[u8], dnet: u16, now_ms: u64) -> (r: Option<u64>)
        requires
            old(self).wf(),
            old(self)@.paths.contains_key((router_mac@, dnet)),
        ensures
            final(self).wf(),
            final(self)@.next_use == bumped(old(self)@.next_use),
            final(self)@.capacity == old(self)@.capacity,
            final(self)@.quarantine_horizon_ms == old(self)@.quarantine_horizon_ms,
            ({
                let k = (router_mac@, dnet);
                let e = old(self)@.paths[k];
                let h = old(self)@.quarantine_horizon_ms;
                &&& r == quarantine_left(e, now_ms, h)
                &&& final(self)@.paths == old(self)@.paths.insert(
                    k,
                    after_quarantine_check(e, bumped(old(self)@.next_use), now_ms, h),
                )
            }),
    {
        let ghost old_s = self.entries@;
        let u = if self.next_use < u64::MAX { self.next_use + 1 } else { self.next_use };
        self.next_use = u;
        let i = match self.find(router_mac, dnet) {
            Some(i) => i,
            None => {
                proof {
                    assert(has_key(old_s, (router_mac@, dnet)));
                }
                return None;
            },
        };
        let h = self.quarantine_horizon_ms;
        self.entries[i].last_used = u;
        let result = match self.entries[i].quarantine_started {
            Some(started) => {
                let elapsed = now_ms.saturating_sub(started);
                if elapsed >= h {
                    self.entries[i].quarantine_started = None;
                    self.entries[i].generation_attempts = 0;
                    self.entries[i].generation_terminal_observed = false;
                    None
                } else {
                    Some(h - elapsed)
                }
            },
            None => {
                self.entries[i].generation_attempts = 0;
                self.entries[i].generation_terminal_observed = false;
                None
            },
        };
        proof {
            lemma_in_place(old_s, self.entries@, i as int);
        }
        result
    }

    /// Record the send about to go out on a routed target's path.
    pub fn install_active(
        &mut self,
        target: &ConfirmedTarget,
        tsm_mac: &[u8],
        invoke_id: u8,
        owner: u64,
        forwarded_npci_len: u16,
        ingress_floor: u64,
    )
        requires
            old(self).wf(),
            target_path(*target) matches Some(k) ==> old(self)@.paths.contains_key(k),
        ensures
            final(self).wf(),
            final(self)@.next_use == old(self)@.next_use,
            final(self)@.capacity == old(self)@.capacity,
            final(self)@.quarantine_horizon_ms == old(self)@.quarantine_horizon_ms,
            match target_path(*target) {
                None => final(self)@.paths == old(self)@.paths,
                Some(k) => final(self)@.paths == old(self)@.paths.insert(
                    k,
                    PathEntryView {
                        active: Some(
                            installed_send(k, tsm_mac@, invoke_id, owner, forwarded_npci_len, ingress_floor),
                        ),
                        ..old(self)@.paths[k]
                    },
                ),
            },
    {
        let (router_mac, dest_network) = match target {
            ConfirmedTarget::Local { .. } => return ,
            ConfirmedTarget::Routed { router_mac, dest_network, .. } => (*router_mac, *dest_network),
        };
        let ghost old_s = self.entries@;
        let i = match self.find(router_mac, dest_network) {
            Some(i) => i,
            None => {
                proof {
                    assert(has_key(old_s, (router_mac@, dest_network)));
                }
                return ;
            },
        };
        let path = RoutedPathKey::new(router_mac, dest_network);
        self.entries[i].active = Some(
            ActiveRoutedSend {
                path,
                tsm_mac: slice_to_vec(tsm_mac),
                invoke_id,
                owner,
                forwarded_npci_len,
                outgoing_apdu_len: None,
                ingress_floor,
            },
        );
        proof {
            lemma_in_place(old_s, self.entries@, i as int);
        }
    }

    /// Authorize one transmission of `outgoing_apdu_len` octets by the owner of
    /// the active send on a routed target's path. Local targets need no
    /// authorization.
    pub fn authorize_attempt(
        &mut self,
        target: &ConfirmedTarget,
        tsm_mac: &[u8],
        invoke_id: u8,
        owner: u64,
        outgoing_apdu_len: usize,
    ) -> (r: bool)
        requires
            old(self).wf(),
        ensures
            final(self).wf(),
            final(self)@.next_use == old(self)@.next_use,
            final(self)@.capacity == old(self)@.capacity,
            final(self)@.quarantine_horizon_ms == old(self)@.quarantine_horizon_ms,
            match target_path(*target) {
                None => r && final(self)@.paths == old(self)@.paths,
                Some(k) => {
                    let paths = old(self)@.paths;
                    let ok = outgoing_apdu_len <= u16::MAX && paths.contains_key(k)
                        && (paths[k].active matches Some(a) && a.tsm_mac == tsm_mac@ && a.invoke_id
                        == invoke_id && a.owner == owner);
                    &&& r == ok
                    &&& ok ==> final(self)@.paths == paths.insert(
                        k,
                        PathEntryView {
                            active: Some(
                                ActiveSendView {
                                    outgoing_apdu_len: Some(outgoing_apdu_len as u16),
                                    ..paths[k].active.unwrap()
                                },
                            ),
                            generation_attempts: if paths[k].generation_attempts < u32::MAX {
                                (paths[k].generation_attempts + 1) as u32
                            } else {
                                paths[k].generation_attempts
                            },
                            ..paths[k]
                        },
                    )
                    &&& !ok ==> final(self)@.paths == paths
                },
            },
    {
        let (router_mac, dest_network) = match target {
            ConfirmedTarget::Local { .. } => return true,
            ConfirmedTarget::Routed { router_mac, dest_network, .. } => (*router_mac, *dest_network),
        };
        if outgoing_apdu_len > 0xFFFF {
            return false;
        }
        let ghost old_s = self.entries@;
        let i = match self.find(router_mac, dest_network) {
            Some(i) => i,
            None => return false,
        };
        proof {
            lemma_slot(old_s, i as int);
        }
        let matches = match &self.entries[i].active {
            None => false,
            Some(active) => bytes_equal(active.tsm_mac.as_slice(), tsm_mac) && active.invoke_id
                == invoke_id && active.owner == owner,
        };
        if !matches {
            return false;
        }
        let attempts = self.entries[i].generation_attempts;
        self.entries[i].generation_attempts = if attempts < u32::MAX { attempts + 1 } else { attempts };
        let mut active = self.entries[i].active.take();
        if let Some(a) = &mut active {
            a.outgoing_apdu_len = Some(outgoing_apdu_len as u16);
        }
        self.entries[i].active = active;
        proof {
            lemma_in_place(old_s, self.entries@, i as int);
        }
        true
    }

    /// Hand over the active send on the path through `router_mac` to `dnet`
    /// to a reason-4 control received at `ingress_sequence`, if it may claim it.
    pub fn claim_active(&mut self, router_mac: &[u8], dnet: u16, ingress_sequence: u64) -> (r: Option<
        ActiveRoutedSend,
    >)
        requires
            old(self).wf(),
        ensures
            final(self).wf(),
            final(self)@.next_use == old(self)@.next_use,
            final(self)@.capacity == old(self)@.capacity,
            final(self)@.quarantine_horizon_ms == old(self)@.quarantine_horizon_ms,
            ({
                let k = (router_mac@, dnet);
                let paths = old(self)@.paths;
                let ok = paths.contains_key(k) && (paths[k].active matches Some(a) && claimable(
                    a,
                    k,
                    ingress_sequence,
                ));
                &&& ok ==> (r matches Some(a) && Some(a@) == paths[k].active && final(self)@.paths
                    == paths.insert(k, PathEntryView { active: None, ..paths[k] }))
                &&& !ok ==> r is None && final(self)@.paths == paths
            }),
    {
        let ghost old_s = self.entries@;
        let i = match self.find(router_mac, dnet) {
            Some(i) => i,
            None => return None,
        };
        proof {
            lemma_slot(old_s, i as int);
        }
        let claim = match &self.entries[i].active {
            None => false,
            Some(active) => active.outgoing_apdu_len.is_some() && active.path.dnet == dnet
                && bytes_equal(active.path.immediate_router_mac.as_slice(), router_mac)
                && ingress_sequence > active.ingress_floor,
        };
        if !claim {
            return None;
        }
        let taken = self.entries[i].active.take();
        proof {
            lemma_in_place(old_s, self.entries@, i as int);
        }
        taken
    }

    /// Act on a network-layer control from `source_mac`: a
    /// Reject-Message-To-Network with reason 4 claims the active send on the
    /// path it names, if any may be claimed.
    pub fn claim_for_network_control(
        &mut self,
        message_type: Option<u8>,
        payload: &[u8],
        source_mac: &[u8],
        ingress_sequence: u64,
    ) -> (r: Option<ActiveRoutedSend>)
        requires
            old(self).wf(),
        ensures
            final(self).wf(),
            final(self)@.next_use == old(self)@.next_use,
            final(self)@.capacity == old(self)@.capacity,
            final(self)@.quarantine_horizon_ms == old(self)@.quarantine_horizon_ms,
            ({
                let paths = old(self)@.paths;
                let is_reason_4 = message_type == Some(REJECT_MESSAGE_TO_NETWORK) && payload@.len()
                    >= 3 && payload@[0] == REJECT_MESSAGE_TOO_LONG;
                let k = (source_mac@, (payload@[1] * 256 + payload@[2]) as u16);
                let ok = is_reason_4 && paths.contains_key(k) && (paths[k].active matches Some(a)
                    && claimable(a, k, ingress_sequence));
                &&& ok ==> (r matches Some(a) && Some(a@) == paths[k].active && final(self)@.paths
                    == paths.insert(k, PathEntryView { active: None, ..paths[k] }))
                &&& !ok ==> r is None && final(self)@.paths == paths
            }),
    {
        if message_type != Some(REJECT_MESSAGE_TO_NETWORK) {
            return None;
        }
        let (reason, dnet) = match decode_reject_message_to_network(payload) {
            Some(d) => d,
            None => return None,
        };
        if reason != REJECT_MESSAGE_TOO_LONG {
            return None;
        }
        self.claim_active(source_mac, dnet, ingress_sequence)
    }

    /// Remember that a message of the claimed send's size was too long for
    /// its path: the learned exclusive bound only ever tightens.
    pub fn commit_learned_limit(&mut self, active: &ActiveRoutedSend)
        requires
            old(self).wf(),
            attempted_npdu(active@) is Some ==> old(self)@.paths.contains_key(active.path@),
        ensures
            final(self).wf(),
            final(self)@.next_use == old(self)@.next_use,
            final(self)@.capacity == old(self)@.capacity,
            final(self)@.quarantine_horizon_ms == old(self)@.quarantine_horizon_ms,
            match attempted_npdu(active@) {
                None => final(self)@.paths == old(self)@.paths,
                Some(n) => final(self)@.paths == old(self)@.paths.insert(
                    active.path@,
                    PathEntryView {
                        learned: Some(tightened(old(self)@.paths[active.path@].learned, n)),
                        ..old(self)@.paths[active.path@]
                    },
                ),
            },
    {
        let attempted = match active.outgoing_apdu_len {
            Some(apdu) => active.forwarded_npci_len.checked_add(apdu),
            None => None,
        };
        let attempted = match attempted {
            Some(n) => n,
            None => return ,
        };
        let ghost old_s = self.entries@;
        let i = match self.find(active.path.immediate_router_mac.as_slice(), active.path.dnet) {
            Some(i) => i,
            None => {
                proof {
                    assert(has_key(old_s, active.path@));
                }
                return ;
            },
        };
        let learned = match self.entries[i].learned {
            Some(l) => if l <= attempted { l } else { attempted },
            None => attempted,
        };
        self.entries[i].learned = Some(learned);
        proof {
            lemma_in_place(old_s, self.entries@, i as int);
        }
    }

    /// The APDU budget of the path through `router_mac` to `dnet` for a DADR
    /// of `dadr_len` octets and a local MAC of `local_source_mac_len` octets.
    pub fn max_apdu(&self, router_mac: &[u8], dnet: u16, dadr_len: usize, local_source_mac_len: usize) -> (r: Result<u16, Error>)
        requires
            self.wf(),
            forwarded_npci(dadr_len, local_source_mac_len) is Some ==> self@.paths.contains_key(
                (router_mac@, dnet),
            ),
        ensures
            match forwarded_npci(dadr_len, local_source_mac_len) {
                Some(n) => r == Ok::<u16, Error>(path_max_apdu(self@.paths[(router_mac@, dnet)], n)),
                None => r matches Err(Error::Encoding(_)),
            },
    {
        let npci = forwarded_npci_len(dadr_len, local_source_mac_len)?;
        let i = match self.find(router_mac, dnet) {
            Some(i) => i,
            None => {
                proof {
                    assert(has_key(self.entries@, (router_mac@, dnet)));
                }
                return Ok(0);
            },
        };
        proof {
            lemma_slot(self.entries@, i as int);
        }
        let e = &self.entries[i];
        let configured_or_conservative = match e.configured {
            Some(c) => c,
            None => CONSERVATIVE_ROUTED_PATH_MAX_NPDU,
        };
        let effective = match e.learned {
            Some(l) => {
                let below = l.saturating_sub(1);
                if configured_or_conservative <= below { configured_or_conservative } else { below }
            },
            None => configured_or_conservative,
        };
        Ok(effective.saturating_sub(npci))
    }

    fn update_entry(&mut self, router_mac: &[u8], dnet: u16, update: EntryUpdate)
        requires
            old(self).wf(),
            old(self)@.paths.contains_key((router_mac@, dnet)),
        ensures
            final(self).wf(),
            final(self)@.next_use == old(self)@.next_use,
            final(self)@.capacity == old(self)@.capacity,
            final(self)@.quarantine_horizon_ms == old(self)@.quarantine_horizon_ms,
            final(self)@.paths == old(self)@.paths.insert(
                (router_mac@, dnet),
                updated_entry(old(self)@.paths[(router_mac@, dnet)], update),
            ),
    {
        let ghost old_s = self.entries@;
        let i = match self.find(router_mac, dnet) {
            Some(i) => i,
            None => {
                proof {
                    assert(has_key(old_s, (router_mac@, dnet)));
                }
                return ;
            },
        };
        match update {
            EntryUpdate::MarkTerminal => {
                let observed = self.entries[i].generation_attempts == 1;
                self.entries[i].generation_terminal_observed = observed;
            },
            EntryUpdate::Configure(max_npdu) => {
                self.entries[i].configured = Some(max_npdu);
                self.entries[i].learned = None;
            },
            EntryUpdate::Clear => {
                self.entries[i].configured = None;
                self.entries[i].learned = None;
            },
        }
        proof {
            lemma_in_place(old_s, self.entries@, i as int);
        }
    }

    /// Mark a source-correlated terminal response for the current generation:
    /// exactly one attempted frame plus its terminal response proves no second
    /// reason-4 can still be in flight.
    pub fn mark_terminal_observed(&mut self, router_mac: &[u8], dnet: u16)
        requires
            old(self).wf(),
            old(self)@.paths.contains_key((router_mac@, dnet)),
        ensures
            final(self).wf(),
            final(self)@.next_use == old(self)@.next_use,
            final(self)@.capacity == old(self)@.capacity,
            final(self)@.quarantine_horizon_ms == old(self)@.quarantine_horizon_ms,
            final(self)@.paths == old(self)@.paths.insert(
                (router_mac@, dnet),
                PathEntryView {
                    generation_terminal_observed: old(self)@.paths[(router_mac@, dnet)].generation_attempts
                        == 1,
                    ..old(self)@.paths[(router_mac@, dnet)]
                },
            ),
    {
        self.update_entry(router_mac, dnet, EntryUpdate::MarkTerminal);
    }

    /// Configure the maximum NPDU of a path; learned evidence is discarded.
    pub fn configure(&mut self, router_mac: &[u8], dnet: u16, max_npdu: u16)
        requires
            old(self).wf(),
            old(self)@.paths.contains_key((router_mac@, dnet)),
        ensures
            final(self).wf(),
            final(self)@.next_use == old(self)@.next_use,
            final(self)@.capacity == old(self)@.capacity,
            final(self)@.quarantine_horizon_ms == old(self)@.quarantine_horizon_ms,
            final(self)@.paths == old(self)@.paths.insert(
                (router_mac@, dnet),
                PathEntryView {
                    configured: Some(max_npdu),
                    learned: None,
                    ..old(self)@.paths[(router_mac@, dnet)]
                },
            ),
    {
        self.update_entry(router_mac, dnet, EntryUpdate::Configure(max_npdu));
    }

    /// Restore a path to the conservative default: configured and learned
    /// evidence are both discarded.
    pub fn clear(&mut self, router_mac: &[u8], dnet: u16)
        requires
            old(self).wf(),
            old(self)@.paths.contains_key((router_mac@, dnet)),
        ensures
            final(self).wf(),
            final(self)@.next_use == old(self)@.next_use,
            final(self)@.capacity == old(self)@.capacity,
            final(self)@.quarantine_horizon_ms == old(self)@.quarantine_horizon_ms,
            final(self)@.paths == old(self)@.paths.insert(
                (router_mac@, dnet),
                PathEntryView {
                    configured: None,
                    learned: None,
                    ..old(self)@.paths[(router_mac@, dnet)]
                },
            ),
    {
        self.update_entry(router_mac, dnet, EntryUpdate::Clear);
    }

    /// The first step of configuring or clearing a path named by a caller:
    /// check the router MAC and DNET, then reserve the path's lock at
    /// `now_ms`. On success the path is in the table, ready for
    /// [`Self::configure`] or [`Self::clear`] once its lock and quarantine
    /// are waited for.
    pub fn reserve_public_path(&mut self, router_mac: &[u8], dnet: u16, now_ms: u64) -> (r: Result<
        (),
        Error,
    >)
        requires
            old(self).wf(),
        ensures
            final(self).wf(),
            !(1 <= router_mac@.len() <= 255) ==> (r matches Err(Error::Encoding(m)) && m@
                == "immediate router MAC address must contain 1..=255 bytes"@ && final(self)@ == old(
                self,
            )@),
            1 <= router_mac@.len() <= 255 && (dnet == 0 || dnet == 0xFFFF) ==> (r matches Err(
                Error::Encoding(m),
            ) && m@ == "routed path DNET must be in 1..=65534"@ && final(self)@ == old(self)@),
            valid_public_path(router_mac@, dnet) ==> {
                &&& final(self)@.next_use == bumped(old(self)@.next_use)
                &&& final(self)@.capacity == old(self)@.capacity
                &&& final(self)@.quarantine_horizon_ms == old(self)@.quarantine_horizon_ms
                &&& reserve_outcome(old(self)@, (router_mac@, dnet), now_ms, final(self)@.paths, r)
            },
            r is Ok ==> final(self)@.paths.contains_key((router_mac@, dnet)),
    {
        validate_public_path(router_mac, dnet)?;
        let r = self.reserve_gate(router_mac, dnet, now_ms);
        proof {
            let k = (router_mac@, dnet);
            if r is Ok && !old(self)@.paths.contains_key(k) && !(old(self)@.paths.dom().len()
                < old(self)@.capacity) {
                let v = choose|v: (Seq<u8>, u16)|
                    is_reclaim_victim(old(self)@.paths, v, now_ms, old(self)@.quarantine_horizon_ms)
                        && self@.paths == old(self)@.paths.remove(v).insert(
                        k,
                        fresh_path(bumped(old(self)@.next_use)),
                    );
                assert(self@.paths.contains_key(k));
            }
        }
        r
    }

    /// Release one reservation of the path's lock at `now_ms` (the end of a
    /// lease, or an acquisition given up while waiting).
    pub fn release(&mut self, router_mac: &[u8], dnet: u16, now_ms: u64)
        requires
            old(self).wf(),
        ensures
            final(self).wf(),
            final(self)@.next_use == old(self)@.next_use,
            final(self)@.capacity == old(self)@.capacity,
            final(self)@.quarantine_horizon_ms == old(self)@.quarantine_horizon_ms,
            old(self)@.paths.contains_key((router_mac@, dnet)) ==> final(self)@.paths
                == old(self)@.paths.insert(
                (router_mac@, dnet),
                released(old(self)@.paths[(router_mac@, dnet)], now_ms),
            ),
            !old(self)@.paths.contains_key((router_mac@, dnet)) ==> final(self)@.paths == old(
                self,
            )@.paths,
    {
        let ghost old_s = self.entries@;
        let i = match self.find(router_mac, dnet) {
            Some(i) => i,
            None => return ,
        };
        self.entries[i].active = None;
        if self.entries[i].generation_attempts > 0 && !self.entries[i].generation_terminal_observed {
            self.entries[i].quarantine_started = Some(now_ms);
        }
        self.entries[i].generation_attempts = 0;
        self.entries[i].generation_terminal_observed = false;
        let refs = self.entries[i].gate_refs;
        self.entries[i].gate_refs = if refs > 0 { refs - 1 } else { 0 };
        proof {
            lemma_in_place(old_s, self.entries@, i as int);
        }
    }
}

/// Reserving a path never drops or changes another path that still holds
/// configured or learned evidence, an active send, a reservation of its lock,
/// or an unexpired quarantine.
pub proof fn lemma_reserve_keeps_unreclaimable(
    t: RoutedPathTable,
    k: (Seq<u8>, u16),
    now: u64,
    paths: Map<(Seq<u8>, u16), PathEntryView>,
    r: Result<(), Error>,
    other: (Seq<u8>, u16),
)
    requires
        reserve_outcome(t, k, now, paths, r),
        t.paths.contains_key(other),
        other != k,
        !reclaimable(t.paths[other], now, t.quarantine_horizon_ms),
    ensures
        paths.contains_key(other),
        paths[other] == t.paths[other],
{
    let u = bumped(t.next_use);
    let h = t.quarantine_horizon_ms;
    if !t.paths.contains_key(k) && t.paths.dom().len() >= t.capacity && exists|v: (Seq<u8>, u16)|
        is_reclaim_victim(t.paths, v, now, h) {
        let v = choose|v: (Seq<u8>, u16)|
            is_reclaim_victim(t.paths, v, now, h) && paths == t.paths.remove(v).insert(k, fresh_path(u));
        assert(v != other);
    }
}

/// A reservation fails only when the table is full of paths none of which
/// may be reclaimed, and then it fails with the table's capacity; a
/// successful one leaves the path present and reserved once more.
pub proof fn lemma_reserve_fails_only_when_full(
    t: RoutedPathTable,
    k: (Seq<u8>, u16),
    now: u64,
    paths: Map<(Seq<u8>, u16), PathEntryView>,
    r: Result<(), Error>,
)
    requires
        t.paths.dom().finite(),
        reserve_outcome(t, k, now, paths, r),
    ensures
        r is Err ==> {
            &&& !t.paths.contains_key(k)
            &&& t.paths.dom().len() >= t.capacity
            &&& forall|v: (Seq<u8>, u16)|
                #![trigger t.paths[v]]
                t.paths.contains_key(v) ==> !reclaimable(t.paths[v], now, t.quarantine_horizon_ms)
            &&& r == Err::<(), Error>(Error::RoutedPathCapacityExceeded { capacity: t.capacity })
            &&& paths == t.paths
        },
        r is Ok ==> paths.contains_key(k) && paths[k].gate_refs >= 1,
{
    let h = t.quarantine_horizon_ms;
    if r is Err {
        assert forall|v: (Seq<u8>, u16)| #![trigger t.paths[v]] t.paths.contains_key(v) implies !reclaimable(
            t.paths[v],
            now,
            h,
        ) by {
            if reclaimable(t.paths[v], now, h) {
                lemma_some_victim(t.paths, v, now, h);
            }
        }
    }
    if r is Ok && t.paths.contains_key(k) {
        assert(t.paths[k].gate_refs < usize::MAX ==> paths[k].gate_refs == t.paths[k].gate_refs + 1);
    }
}

/// Among finitely many paths, a reclaimable one means a reclaim victim exists.
proof fn lemma_some_victim(
    paths: Map<(Seq<u8>, u16), PathEntryView>,
    k: (Seq<u8>, u16),
    now: u64,
    h: u64,
)
    requires
        paths.dom().finite(),
        paths.contains_key(k),
        reclaimable(paths[k], now, h),
    ensures
        exists|v: (Seq<u8>, u16)| is_reclaim_victim(paths, v, now, h),
    decreases paths.dom().len(),
{
    let rest = paths.remove(k);
    if exists|v: (Seq<u8>, u16)| rest.contains_key(v) && reclaimable(rest[v], now, h) {
        let v = choose|v: (Seq<u8>, u16)| rest.contains_key(v) && reclaimable(rest[v], now, h);
        lemma_some_victim(rest, v, now, h);
        let w = choose|w: (Seq<u8>, u16)| is_reclaim_victim(rest, w, now, h);
        if evicts_before(paths[w].last_used, w, paths[k].last_used, k) {
            assert forall|k2: (Seq<u8>, u16)|
                #![trigger paths[k2]]
                paths.contains_key(k2) && k2 != w && reclaimable(paths[k2], now, h) implies evicts_before(
                paths[w].last_used,
                w,
                paths[k2].last_used,
                k2,
            ) by {
                if k2 != k {
                    assert(rest.contains_key(k2));
                    assert(rest[k2] == paths[k2]);
                }
            }
            assert(is_reclaim_victim(paths, w, now, h));
        } else {
            lemma_evicts_before_total(paths[w].last_used, w, paths[k].last_used, k);
            assert forall|k2: (Seq<u8>, u16)|
                #![trigger paths[k2]]
                paths.contains_key(k2) && k2 != k && reclaimable(paths[k2], now, h) implies evicts_before(
                paths[k].last_used,
                k,
                paths[k2].last_used,
                k2,
            ) by {
                assert(rest.contains_key(k2));
                assert(rest[k2] == paths[k2]);
                if k2 != w {
                    lemma_evicts_before_transitive(
                        paths[k].last_used,
                        k,
                        paths[w].last_used,
                        w,
                        paths[k2].last_used,
                        k2,
                    );
                }
            }
            assert(is_reclaim_victim(paths, k, now, h));
        }
    } else {
        assert forall|k2: (Seq<u8>, u16)|
            #![trigger paths[k2]]
            paths.contains_key(k2) && k2 != k && reclaimable(paths[k2], now, h) implies evicts_before(
            paths[k].last_used,
            k,
            paths[k2].last_used,
            k2,
        ) by {
            assert(rest.contains_key(k2));
        }
        assert(is_reclaim_victim(paths, k, now, h));
    }
}

/// The learned exclusive bound only tightens: it never exceeds the attempt
/// that was rejected, nor the bound learned before.
pub proof fn lemma_learned_only_tightens(learned: Option<u16>, attempted: u16)
    ensures
        tightened(learned, attempted) <= attempted,
        learned matches Some(l) ==> tightened(learned, attempted) <= l,
{
}

/// The APDU budget of a path never lets the forwarded NPDU exceed its
/// configured limit (or the conservative 228-octet envelope), nor reach a
/// size that a router has rejected as too long.
pub proof fn lemma_budget_respects_evidence(e: PathEntryView, npci: u16)
    ensures
        path_max_apdu(e, npci) > 0 ==> path_max_apdu(e, npci) + npci <= match e.configured {
            Some(c) => c,
            None => CONSERVATIVE_ROUTED_PATH_MAX_NPDU,
        },
        e.learned matches Some(l) ==> (path_max_apdu(e, npci) > 0 ==> path_max_apdu(e, npci) + npci < l),
{
}

/// A cleared path uses the conservative envelope, and a configured one its
/// configured limit, whatever was learned before.
pub proof fn lemma_reset_budgets(e: PathEntryView, npci: u16, max_npdu: u16)
    ensures
        path_max_apdu(PathEntryView { configured: None, learned: None, ..e }, npci) == if npci
            <= CONSERVATIVE_ROUTED_PATH_MAX_NPDU {
            (CONSERVATIVE_ROUTED_PATH_MAX_NPDU - npci) as u16
        } else {
            0u16
        },
        path_max_apdu(PathEntryView { configured: Some(max_npdu), learned: None, ..e }, npci) == if npci
            <= max_npdu {
            (max_npdu - npci) as u16
        } else {
            0u16
        },
{
}

/// Configuring a path whose lock was reserved: the path is then in the
/// table, so it can be configured; once configured with `max_npdu` its APDU
/// budget for a forwarded NPCI of `npci` octets is `max_npdu - npci` (0 when
/// the NPCI alone exceeds it), whatever was configured or learned before,
/// and releasing its lease, reserving it again or checking its quarantine
/// keeps that budget.
pub proof fn lemma_configured_path_budget(
    t: RoutedPathTable,
    k: (Seq<u8>, u16),
    now: u64,
    paths: Map<(Seq<u8>, u16), PathEntryView>,
    r: Result<(), Error>,
    max_npdu: u16,
    npci: u16,
    later: u64,
    u: u64,
)
    requires
        reserve_outcome(t, k, now, paths, r),
        r is Ok,
    ensures
        paths.contains_key(k),
        ({
            let e = PathEntryView { configured: Some(max_npdu), learned: None, ..paths[k] };
            let budget = if npci <= max_npdu {
                (max_npdu - npci) as u16
            } else {
                0u16
            };
            &&& path_max_apdu(e, npci) == budget
            &&& path_max_apdu(released(e, later), npci) == budget
            &&& path_max_apdu(rereserved(e, u), npci) == budget
            &&& path_max_apdu(after_quarantine_check(e, u, later, t.quarantine_horizon_ms), npci)
                == budget
        }),
{
    if !t.paths.contains_key(k) && !(t.paths.dom().len() < t.capacity) {
        let h = t.quarantine_horizon_ms;
        let v = choose|v: (Seq<u8>, u16)|
            is_reclaim_victim(t.paths, v, now, h) && paths == t.paths.remove(v).insert(
                k,
                fresh_path(bumped(t.next_use)),
            );
        assert(paths.contains_key(k));
    }
}

/// A reason-4 control can claim only an authorized send on its own path, and
/// only if it was received after the send was installed; once claimed, the
/// send is gone and no second control can claim it.
pub proof fn lemma_claim_at_most_once(
    paths: Map<(Seq<u8>, u16), PathEntryView>,
    k: (Seq<u8>, u16),
    a: ActiveSendView,
    ingress_sequence: u64,
)
    requires
        paths.contains_key(k),
    ensures
        claimable(a, k, ingress_sequence) ==> a.outgoing_apdu_len is Some && a.path == k
            && a.ingress_floor < ingress_sequence,
        paths.insert(k, PathEntryView { active: None, ..paths[k] })[k].active is None,
{
}

/// Releasing a lease ends its active send and its generation, and starts a
/// quarantine exactly when the generation transmitted without proving that
/// it saw its terminal response.
pub proof fn lemma_release_quarantines_ambiguous_generations(e: PathEntryView, now: u64)
    ensures
        released(e, now).active is None,
        released(e, now).generation_attempts == 0,
        !released(e, now).generation_terminal_observed,
        (e.generation_attempts > 0 && !e.generation_terminal_observed) ==> released(e, now).quarantine_started
            == Some(now),
        !(e.generation_attempts > 0 && !e.generation_terminal_observed) ==> released(
            e,
            now,
        ).quarantine_started == e.quarantine_started,
        released(e, now).configured == e.configured,
        released(e, now).learned == e.learned,
{
}

proof fn lemma_slot_pub(t: &RoutedPathLimits, i: int)
    requires
        t.wf(),
        0 <= i < t.entries.len(),
    ensures
        t@.paths.contains_key(t.entries@[i].key@),
        t@.paths[t.entries@[i].key@] == t.entries@[i]@,
{
    lemma_slot(t.entries@, i);
}

/// `a` precedes `b` in lexicographic byte order.
pub open spec fn bytes_lt(a: Seq<u8>, b: Seq<u8>) -> bool {
    exists|i: int|
        #![trigger a.take(i), b.take(i)]
        0 <= i <= a.len() && i <= b.len() && a.take(i) == b.take(i) && ((i == a.len() && i < b.len())
            || (i < a.len() && i < b.len() && a[i] < b[i]))
}

/// Path keys ordered by router MAC bytes, then DNET.
pub open spec fn key_lt(a: (Seq<u8>, u16), b: (Seq<u8>, u16)) -> bool {
    bytes_lt(a.0, b.0) || (a.0 == b.0 && a.1 < b.1)
}

/// `a` is reclaimed before `b`: least recently used first, then by key.
pub open spec fn evicts_before(a_used: u64, a: (Seq<u8>, u16), b_used: u64, b: (Seq<u8>, u16)) -> bool {
    a_used < b_used || (a_used == b_used && key_lt(a, b))
}

proof fn lemma_bytes_lt_transitive(a: Seq<u8>, b: Seq<u8>, c: Seq<u8>)
    requires
        bytes_lt(a, b),
        bytes_lt(b, c),
    ensures
        bytes_lt(a, c),
{
    let i = choose|i: int|
        #![trigger a.take(i), b.take(i)]
        0 <= i <= a.len() && i <= b.len() && a.take(i) == b.take(i) && ((i == a.len() && i < b.len())
            || (i < a.len() && i < b.len() && a[i] < b[i]));
    let j = choose|j: int|
        #![trigger b.take(j), c.take(j)]
        0 <= j <= b.len() && j <= c.len() && b.take(j) == c.take(j) && ((j == b.len() && j < c.len())
            || (j < b.len() && j < c.len() && b[j] < c[j]));
    let m = if i <= j { i } else { j };
    assert forall|x: int| 0 <= x < m implies a[x] == c[x] by {
        assert(a.take(i)[x] == b.take(i)[x]);
        assert(b.take(j)[x] == c.take(j)[x]);
    }
    assert(a.take(m) =~= c.take(m));
    if i < j {
        assert(b.take(j)[i] == c.take(j)[i]);
    } else if j < i {
        assert(a.take(i)[j] == b.take(i)[j]);
    }
    assert(0 <= m <= a.len() && m <= c.len() && a.take(m) == c.take(m) && ((m == a.len() && m
        < c.len()) || (m < a.len() && m < c.len() && a[m] < c[m])));
}

proof fn lemma_bytes_lt_total(a: Seq<u8>, b: Seq<u8>)
    requires
        a != b,
    ensures
        bytes_lt(a, b) || bytes_lt(b, a),
    decreases a.len(),
{
    if a.len() == 0 {
        assert(a.take(0) =~= b.take(0));
        assert(b.len() > 0) by {
            if b.len() == 0 {
                assert(a =~= b);
            }
        }
    } else if b.len() == 0 {
        assert(a.take(0) =~= b.take(0));
    } else if a[0] != b[0] {
        assert(a.take(0) =~= b.take(0));
    } else {
        let a1 = a.drop_first();
        let b1 = b.drop_first();
        assert(a1 != b1) by {
            if a1 == b1 {
                assert(a =~= seq![a[0]] + a1);
                assert(b =~= seq![b[0]] + b1);
            }
        }
        lemma_bytes_lt_total(a1, b1);
        if bytes_lt(a1, b1) {
            let i = choose|i: int|
                #![trigger a1.take(i), b1.take(i)]
                0 <= i <= a1.len() && i <= b1.len() && a1.take(i) == b1.take(i) && ((i == a1.len()
                    && i < b1.len()) || (i < a1.len() && i < b1.len() && a1[i] < b1[i]));
            assert forall|x: int| 0 <= x < i + 1 implies a[x] == b[x] by {
                if x > 0 {
                    assert(a1.take(i)[x - 1] == b1.take(i)[x - 1]);
                }
            }
            assert(a.take(i + 1) =~= b.take(i + 1));
        } else {
            let i = choose|i: int|
                #![trigger b1.take(i), a1.take(i)]
                0 <= i <= b1.len() && i <= a1.len() && b1.take(i) == a1.take(i) && ((i == b1.len()
                    && i < a1.len()) || (i < b1.len() && i < a1.len() && b1[i] < a1[i]));
            assert forall|x: int| 0 <= x < i + 1 implies b[x] == a[x] by {
                if x > 0 {
                    assert(b1.take(i)[x - 1] == a1.take(i)[x - 1]);
                }
            }
            assert(b.take(i + 1) =~= a.take(i + 1));
        }
    }
}

proof fn lemma_bytes_lt_asymmetric(a: Seq<u8>, b: Seq<u8>)
    requires
        bytes_lt(a, b),
    ensures
        !bytes_lt(b, a),
{
    if bytes_lt(b, a) {
        lemma_bytes_lt_transitive(a, b, a);
    }
}

proof fn lemma_evicts_before_transitive(
    au: u64,
    a: (Seq<u8>, u16),
    bu: u64,
    b: (Seq<u8>, u16),
    cu: u64,
    c: (Seq<u8>, u16),
)
    requires
        evicts_before(au, a, bu, b),
        evicts_before(bu, b, cu, c),
    ensures
        evicts_before(au, a, cu, c),
{
    if au == bu && bu == cu {
        if bytes_lt(a.0, b.0) && bytes_lt(b.0, c.0) {
            lemma_bytes_lt_transitive(a.0, b.0, c.0);
        }
    }
}

proof fn lemma_evicts_before_total(au: u64, a: (Seq<u8>, u16), bu: u64, b: (Seq<u8>, u16))
    requires
        a != b,
    ensures
        evicts_before(au, a, bu, b) || evicts_before(bu, b, au, a),
{
    if au == bu && a.0 != b.0 {
        lemma_bytes_lt_total(a.0, b.0);
    }
}

/// Lexicographic comparison of byte strings.
pub fn bytes_less(a: &[u8], b: &[u8]) -> (r: bool)
    ensures
        r == bytes_lt(a@, b@),
{
    let mut i: usize = 0;
    while i < a.len() && i < b.len()
        invariant
            i <= a.len(),
            i <= b.len(),
            a@.take(i as int) == b@.take(i as int),
        decreases a.len() - i,
    {
        if a[i] != b[i] {
            proof {
                if a[i as int] > b[i as int] {
                    assert(bytes_lt(b@, a@));
                    lemma_bytes_lt_asymmetric(b@, a@);
                }
            }
            return a[i] < b[i];
        }
        assert(a@.take(i + 1) =~= b@.take(i + 1)) by {
            assert(a@.take(i + 1) =~= a@.take(i as int).push(a@[i as int]));
            assert(b@.take(i + 1) =~= b@.take(i as int).push(b@[i as int]));
        }
        i = i + 1;
    }
    proof {
        if i < b.len() {
            assert(bytes_lt(a@, b@));
        } else {
            if bytes_lt(a@, b@) {
                let j = choose|j: int|
                    #![trigger a@.take(j), b@.take(j)]
                    0 <= j <= a@.len() && j <= b@.len() && a@.take(j) == b@.take(j) && ((j
                        == a@.len() && j < b@.len()) || (j < a@.len() && j < b@.len() && a@[j]
                        < b@[j]));
                assert(a@.take(i as int)[j] == b@.take(i as int)[j]);
            }
        }
    }
    i < b.len()
}

/// Path-key order.
fn key_less(a: &RoutedPathKey, b: &RoutedPathKey) -> (r: bool)
    ensures
        r == key_lt(a@, b@),
{
    if bytes_less(a.immediate_router_mac.as_slice(), b.immediate_router_mac.as_slice()) {
        return true;
    }
    bytes_equal(a.immediate_router_mac.as_slice(), b.immediate_router_mac.as_slice())
        && a.dnet < b.dnet
}

/// Byte-wise equality of two slices.
pub fn bytes_equal(a: &[u8], b: &[u8]) -> (r: bool)
    ensures
        r == (a@ == b@),
{
    if a.len() != b.len() {
        return false;
    }
    let mut i: usize = 0;
    while i < a.len()
        invariant
            a.len() == b.len(),
            i <= a.len(),
            forall|j: int| 0 <= j < i ==> a@[j] == b@[j],
        decreases a.len() - i,
    {
        if a[i] != b[i] {
            return false;
        }
        i = i + 1;
    }
    assert(a@ =~= b@);
    true
}

} // verus!
