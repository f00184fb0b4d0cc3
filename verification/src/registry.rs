//! The device manager's registry: the set of live device sessions keyed by
//! device id, with a reverse view by transport so that discovery never binds
//! the same link twice.
//!
//! All mutation goes through the manager actor, so the operations here are
//! plain sequential functions with exact contracts.

use vstd::prelude::*;

use crate::errors::{ErrorKind, ManagerError};
use crate::ids::{transport_eq, transports_equal, DeviceId, DeviceInfo, FirmwareVersion,
    TransportSpec};
use crate::ids::DeviceKind;

verus! {

/// Relies on `uuid::Uuid::new_v4`: a freshly drawn random 128-bit id.
/// Nothing is assumed of the value — every process and every call may get
/// another one — so callers treat a collision like any other duplicate.
#[verifier::external_body]
fn fresh_device_id() -> DeviceId {
    DeviceId { value: uuid::Uuid::new_v4().as_u128() }
}

/// Some entry carries this device id.
pub open spec fn seq_contains_id(entries: Seq<DeviceInfo>, id: DeviceId) -> bool {
    exists|i: int| 0 <= i < entries.len() && #[trigger] entries[i].id == id
}

/// Some entry is bound to an equal transport.
pub open spec fn seq_transport_bound(entries: Seq<DeviceInfo>, t: TransportSpec) -> bool {
    exists|i: int| 0 <= i < entries.len() && transport_eq(#[trigger] entries[i].transport, t)
}

/// A candidate neither reuses an id nor re-binds a transport.
pub open spec fn fresh_candidate(entries: Seq<DeviceInfo>, d: DeviceInfo) -> bool {
    !seq_contains_id(entries, d.id) && !seq_transport_bound(entries, d.transport)
}

/// What discovery leaves behind: the candidates folded in from the front,
/// each admitted only while still fresh against everything before it.
pub open spec fn merge_candidates(entries: Seq<DeviceInfo>, cands: Seq<DeviceInfo>) -> Seq<
    DeviceInfo,
>
    decreases cands.len(),
{
    if cands.len() == 0 {
        entries
    } else {
        let next = if fresh_candidate(entries, cands[0]) {
            entries.push(cands[0])
        } else {
            entries
        };
        merge_candidates(next, cands.skip(1))
    }
}

/// The registry of live sessions. Entries are unique by id and by transport.
pub struct DeviceRegistry {
    pub entries: Vec<DeviceInfo>,
}

impl DeviceRegistry {
    /// No two entries share an id, and no two share a transport.
    pub open spec fn wf(self) -> bool {
        forall|i: int, j: int|
            #![trigger self.entries@[i], self.entries@[j]]
            0 <= i < j < self.entries@.len() ==> self.entries@[i].id != self.entries@[j].id
                && !transport_eq(self.entries@[i].transport, self.entries@[j].transport)
    }

    pub open spec fn contains_id(self, id: DeviceId) -> bool {
        seq_contains_id(self.entries@, id)
    }

    pub open spec fn transport_bound(self, t: TransportSpec) -> bool {
        seq_transport_bound(self.entries@, t)
    }

    /// An empty registry.
    pub fn new() -> (r: DeviceRegistry)
        ensures
            r.wf(),
            r.entries@.len() == 0,
    {
        DeviceRegistry { entries: Vec::new() }
    }

    /// Finds the index of the entry carrying `id`, if any.
    pub fn index_of_id(&self, id: DeviceId) -> (r: Option<usize>)
        ensures
            r matches Some(i) ==> i < self.entries@.len() && self.entries@[i as int].id == id,
            (r is Some) <==> self.contains_id(id),
    {
        let mut i: usize = 0;
        while i < self.entries.len()
            invariant
                i <= self.entries@.len(),
                forall|j: int| 0 <= j < i ==> #[trigger] self.entries@[j].id != id,
            decreases self.entries@.len() - i,
        {
            if self.entries[i].id == id {
                return Some(i);
            }
            i = i + 1;
        }
        None
    }

    /// Whether some entry is bound to an equal transport.
    pub fn is_transport_bound(&self, t: &TransportSpec) -> (r: bool)
        ensures
            r == self.transport_bound(*t),
    {
        let mut i: usize = 0;
        while i < self.entries.len()
            invariant
                i <= self.entries@.len(),
                forall|j: int|
                    0 <= j < i ==> !transport_eq(#[trigger] self.entries@[j].transport, *t),
            decreases self.entries@.len() - i,
        {
            if transports_equal(&self.entries[i].transport, t) {
                return true;
            }
            i = i + 1;
        }
        false
    }

    /// Registers one device. Fails with `Duplicate` — leaving the registry
    /// unchanged — when the id is taken or the transport already bound;
    /// otherwise the entry is appended and handed back.
    pub fn create(&mut self, info: DeviceInfo) -> (r: Result<DeviceInfo, ManagerError>)
        requires
            old(self).wf(),
        ensures
            final(self).wf(),
            (r is Ok) <==> fresh_candidate(old(self).entries@, info),
            r matches Ok(i) ==> i == info && final(self).entries@ == old(self).entries@.push(info),
            r matches Err(e) ==> e.kind == ErrorKind::Duplicate && *final(self) == *old(self),
    {
        if self.index_of_id(info.id).is_some() {
            return Err(
                ManagerError::new(
                    ErrorKind::Duplicate,
                    String::from_str("device id is already registered"),
                ),
            );
        }
        if self.is_transport_bound(&info.transport) {
            return Err(
                ManagerError::new(
                    ErrorKind::Duplicate,
                    String::from_str("transport is already bound to a device"),
                ),
            );
        }
        let out = info.clone();
        self.entries.push(info);
        Ok(out)
    }

    /// Registers a device under a freshly drawn random id. A transport that
    /// is already bound is always rejected with `Duplicate`; a success means
    /// the transport was free (the random id colliding with a registered one
    /// is rejected the same way, however unlikely).
    pub fn create_with_fresh_id(
        &mut self,
        kind: DeviceKind,
        transport: TransportSpec,
        firmware: FirmwareVersion,
        device_id_byte: u8,
    ) -> (r: Result<DeviceInfo, ManagerError>)
        requires
            old(self).wf(),
        ensures
            final(self).wf(),
            r is Ok ==> !old(self).transport_bound(transport),
            old(self).transport_bound(transport) ==> r is Err,
            r matches Ok(info) ==> info.kind == kind && transport_eq(info.transport, transport)
                && info.firmware == firmware && info.device_id_byte == device_id_byte
                && final(self).entries@ == old(self).entries@.push(info),
            r matches Err(e) ==> e.kind == ErrorKind::Duplicate && *final(self) == *old(self),
    {
        let id = fresh_device_id();
        let info = DeviceInfo { id, kind, transport, firmware, device_id_byte };
        self.create(info)
    }

    /// Evicts the entry carrying `id` (on delete, or when its session actor
    /// exits). Fails with `NotFound` when no entry carries it.
    pub fn delete(&mut self, id: DeviceId) -> (r: Result<DeviceInfo, ManagerError>)
        requires
            old(self).wf(),
        ensures
            final(self).wf(),
            (r is Ok) <==> old(self).contains_id(id),
            r matches Ok(info) ==> info.id == id && !final(self).contains_id(id) && exists|i: int|
                0 <= i < old(self).entries@.len() && #[trigger] old(self).entries@[i] == info
                    && final(self).entries@ == old(self).entries@.remove(i),
            r matches Err(e) ==> e.kind == ErrorKind::NotFound && *final(self) == *old(self),
    {
        match self.index_of_id(id) {
            Some(i) => {
                let ghost before = self.entries@;
                let info = self.entries.remove(i);
                proof {
                    assert forall|j: int|
                        0 <= j < self.entries@.len() implies #[trigger] self.entries@[j].id
                        != id by {
                        if j < i {
                            assert(self.entries@[j] == before[j]);
                        } else {
                            assert(self.entries@[j] == before[j + 1]);
                        }
                    }
                }
                Ok(info)
            },
            None => Err(
                ManagerError::new(ErrorKind::NotFound, String::from_str("unknown device id")),
            ),
        }
    }

    /// The cached information of one device.
    pub fn info(&self, id: DeviceId) -> (r: Result<DeviceInfo, ManagerError>)
        ensures
            (r is Ok) <==> self.contains_id(id),
            r matches Ok(info) ==> exists|i: int|
                0 <= i < self.entries@.len() && #[trigger] self.entries@[i] == info && info.id
                    == id,
            r matches Err(e) ==> e.kind == ErrorKind::NotFound,
    {
        match self.index_of_id(id) {
            Some(i) => Ok(self.entries[i].clone()),
            None => Err(
                ManagerError::new(ErrorKind::NotFound, String::from_str("unknown device id")),
            ),
        }
    }

    /// Every registered device, in registration order.
    pub fn list(&self) -> (r: Vec<DeviceInfo>)
        ensures
            r@ == self.entries@,
    {
        let mut out: Vec<DeviceInfo> = Vec::new();
        let mut i: usize = 0;
        while i < self.entries.len()
            invariant
                i <= self.entries@.len(),
                out@ == self.entries@.subrange(0, i as int),
            decreases self.entries@.len() - i,
        {
            proof {
                assert(out@.push(self.entries@[i as int]) =~= self.entries@.subrange(0, i + 1));
            }
            out.push(self.entries[i].clone());
            i = i + 1;
        }
        proof {
            assert(out@ =~= self.entries@);
        }
        out
    }

    /// Discovery: admits every candidate that is still fresh — same-transport
    /// duplicates, within the batch or against the registry, are suppressed —
    /// and returns the admitted ones. The registry afterwards is exactly the
    /// fold of the candidates over what was there.
    pub fn auto_create(&mut self, candidates: &Vec<DeviceInfo>) -> (r: Vec<DeviceInfo>)
        requires
            old(self).wf(),
        ensures
            final(self).wf(),
            final(self).entries@ == merge_candidates(old(self).entries@, candidates@),
            final(self).entries@ == old(self).entries@ + r@,
    {
        let ghost orig = self.entries@;
        let ghost n0 = self.entries@.len() as int;
        let mut created: Vec<DeviceInfo> = Vec::new();
        let mut j: usize = 0;
        while j < candidates.len()
            invariant
                old(self).wf(),
                j <= candidates@.len(),
                self.entries@ == merge_candidates(orig, candidates@.subrange(0, j as int)),
                self.entries@ == orig + created@,
                self.wf(),
            decreases candidates@.len() - j,
        {
            let c = &candidates[j];
            let fresh_id = self.index_of_id(c.id).is_none();
            let fresh_transport = !self.is_transport_bound(&c.transport);
            proof {
                lemma_merge_push(orig, candidates@.subrange(0, j as int), candidates@[j as int]);
                assert(candidates@.subrange(0, j as int).push(candidates@[j as int])
                    =~= candidates@.subrange(0, j + 1));
            }
            if fresh_id && fresh_transport {
                created.push(c.clone());
                self.entries.push(c.clone());
                proof {
                    assert(self.entries@ =~= orig + created@);
                }
            }
            j = j + 1;
        }
        proof {
            assert(candidates@.subrange(0, candidates@.len() as int) =~= candidates@);
        }
        created
    }
}

/// Folding one more candidate either appends it (if still fresh against the
/// merged result) or changes nothing.
proof fn lemma_merge_push(entries: Seq<DeviceInfo>, cands: Seq<DeviceInfo>, x: DeviceInfo)
    ensures
        merge_candidates(entries, cands.push(x)) == if fresh_candidate(
            merge_candidates(entries, cands),
            x,
        ) {
            merge_candidates(entries, cands).push(x)
        } else {
            merge_candidates(entries, cands)
        },
    decreases cands.len(),
{
    if cands.len() == 0 {
        assert(cands.push(x)[0] == x);
        assert(cands.push(x).skip(1) =~= Seq::<DeviceInfo>::empty());
        let next = if fresh_candidate(entries, x) {
            entries.push(x)
        } else {
            entries
        };
        assert(merge_candidates(next, cands.push(x).skip(1)) == next);
        assert(merge_candidates(entries, cands.push(x)) == next);
        assert(merge_candidates(entries, cands) == entries);
    } else {
        let next = if fresh_candidate(entries, cands[0]) {
            entries.push(cands[0])
        } else {
            entries
        };
        assert(cands.push(x)[0] == cands[0]);
        assert(cands.push(x).skip(1) =~= cands.skip(1).push(x));
        lemma_merge_push(next, cands.skip(1), x);
    }
}

/// Merging only appends: the old entries stay, in place.
proof fn lemma_merge_extends(entries: Seq<DeviceInfo>, cands: Seq<DeviceInfo>)
    ensures
        merge_candidates(entries, cands).len() >= entries.len(),
        forall|i: int|
            0 <= i < entries.len() ==> #[trigger] merge_candidates(entries, cands)[i] == entries[i],
    decreases cands.len(),
{
    if cands.len() == 0 {
    } else {
        let next = if fresh_candidate(entries, cands[0]) {
            entries.push(cands[0])
        } else {
            entries
        };
        lemma_merge_extends(next, cands.skip(1));
    }
}

/// A candidate that is stale before a merge is still stale after it.
proof fn lemma_stale_stays(entries: Seq<DeviceInfo>, cands: Seq<DeviceInfo>, d: DeviceInfo)
    requires
        !fresh_candidate(entries, d),
    ensures
        !fresh_candidate(merge_candidates(entries, cands), d),
{
    lemma_merge_extends(entries, cands);
    let m = merge_candidates(entries, cands);
    if !seq_contains_id(entries, d.id) {
        let i = choose|i: int|
            0 <= i < entries.len() && transport_eq(#[trigger] entries[i].transport, d.transport);
        assert(transport_eq(m[i].transport, d.transport));
    } else {
        let i = choose|i: int| 0 <= i < entries.len() && #[trigger] entries[i].id == d.id;
        assert(m[i].id == d.id);
    }
}

/// After one merge, every candidate of the batch is stale.
proof fn lemma_merge_saturates(entries: Seq<DeviceInfo>, cands: Seq<DeviceInfo>, k: int)
    requires
        0 <= k < cands.len(),
    ensures
        !fresh_candidate(merge_candidates(entries, cands), cands[k]),
    decreases cands.len(),
{
    let next = if fresh_candidate(entries, cands[0]) {
        entries.push(cands[0])
    } else {
        entries
    };
    if k == 0 {
        if fresh_candidate(entries, cands[0]) {
            assert(next[entries.len() as int] == cands[0]);
            assert(!fresh_candidate(next, cands[0]));
        } else {
            assert(!fresh_candidate(next, cands[0])) by {
                lemma_stale_stays(entries, Seq::<DeviceInfo>::empty(), cands[0]);
                if !seq_contains_id(entries, cands[0].id) {
                    let i = choose|i: int|
                        0 <= i < entries.len() && transport_eq(
                            #[trigger] entries[i].transport,
                            cands[0].transport,
                        );
                    assert(transport_eq(next[i].transport, cands[0].transport));
                } else {
                    let i = choose|i: int|
                        0 <= i < entries.len() && #[trigger] entries[i].id == cands[0].id;
                    assert(next[i].id == cands[0].id);
                }
            }
        }
        lemma_stale_stays(next, cands.skip(1), cands[0]);
    } else {
        lemma_merge_saturates(next, cands.skip(1), k - 1);
        assert(cands.skip(1)[k - 1] == cands[k]);
    }
}

/// Merging a batch whose members are all stale changes nothing.
proof fn lemma_merge_noop(entries: Seq<DeviceInfo>, cands: Seq<DeviceInfo>)
    requires
        forall|k: int| 0 <= k < cands.len() ==> !fresh_candidate(entries, #[trigger] cands[k]),
    ensures
        merge_candidates(entries, cands) == entries,
    decreases cands.len(),
{
    if cands.len() == 0 {
    } else {
        assert(!fresh_candidate(entries, cands[0]));
        assert(forall|k: int|
            0 <= k < cands.skip(1).len() ==> !fresh_candidate(
                entries,
                #[trigger] cands.skip(1)[k],
            )) by {
            assert(forall|k: int|
                0 <= k < cands.skip(1).len() ==> #[trigger] cands.skip(1)[k] == cands[k + 1]);
        }
        lemma_merge_noop(entries, cands.skip(1));
    }
}

/// Discovery is idempotent: running the same candidate batch twice adds
/// nothing the second time.
pub proof fn lemma_auto_create_idempotent(entries: Seq<DeviceInfo>, cands: Seq<DeviceInfo>)
    ensures
        merge_candidates(merge_candidates(entries, cands), cands) == merge_candidates(
            entries,
            cands,
        ),
{
    let m = merge_candidates(entries, cands);
    assert(forall|k: int| 0 <= k < cands.len() ==> !fresh_candidate(m, #[trigger] cands[k])) by {
        assert forall|k: int| 0 <= k < cands.len() implies !fresh_candidate(
            m,
            #[trigger] cands[k],
        ) by {
            lemma_merge_saturates(entries, cands, k);
        }
    }
    lemma_merge_noop(m, cands);
}

/// At most one registry entry carries any given device id.
pub proof fn lemma_registry_id_unique(r: DeviceRegistry, i: int, j: int)
    requires
        r.wf(),
        0 <= i < r.entries@.len(),
        0 <= j < r.entries@.len(),
        r.entries@[i].id == r.entries@[j].id,
    ensures
        i == j,
{
}

} // verus!
