//! The machine registry: a table from opaque 64-bit handles to live machine
//! instances, with a monotone handle counter.
//!
//! Handles are unique for the lifetime of the registry: the counter only
//! grows, every stored handle lies below it, and a removed handle is never
//! issued again.

use crate::MachineConfig;
use std::collections::HashMap;
use vstd::prelude::*;

verus! {

broadcast use vstd::std_specs::hash::group_hash_axioms;

/// A live machine instance as this layer tracks it: the validated creation
/// parameters. The engine evolves its own state internally; this layer never
/// reads it.
pub struct MachineState {
    pub engine_version: u64,
    pub config: MachineConfig,
    pub epoch: u64,
    pub token_amount: u64,
    pub network_version: u32,
    pub state_root: Vec<u8>,
    pub blockstore_id: u64,
    pub externs_id: u64,
}

/// The registry owns every machine instance from creation until removal.
pub struct MachineRegistry {
    next_id: u64,
    machines: HashMap<u64, MachineState>,
}

impl MachineRegistry {
    /// The table of live machines.
    pub closed spec fn machines_spec(&self) -> Map<u64, MachineState> {
        self.machines@
    }

    /// The handle the next successful create will issue.
    pub closed spec fn next_handle(&self) -> u64 {
        self.next_id
    }

    /// Well-formed: every stored handle lies below the counter.
    pub open spec fn wf(&self) -> bool {
        forall|k: u64| self.machines_spec().dom().contains(k) ==> k < self.next_handle()
    }

    /// Whether a machine is live under this handle.
    pub open spec fn contains(&self, h: u64) -> bool {
        self.machines_spec().dom().contains(h)
    }

    /// Whether this handle was issued at some point (it lies below the
    /// counter).
    pub open spec fn issued(&self, h: u64) -> bool {
        h < self.next_handle()
    }

    pub fn new() -> (r: Self)
        ensures
            r.wf(),
            r.machines_spec() == Map::<u64, MachineState>::empty(),
            r.next_handle() == 0,
    {
        MachineRegistry { next_id: 0, machines: HashMap::new() }
    }

    /// Issues a fresh handle and stores the machine under it.
    pub fn register(&mut self, m: MachineState) -> (h: u64)
        requires
            old(self).wf(),
            old(self).next_handle() < u64::MAX,
        ensures
            final(self).wf(),
            create_transition(*old(self), *final(self), h, m),
    {
        let h = self.next_id;
        self.next_id = self.next_id + 1;
        self.machines.insert(h, m);
        assert forall|k: u64| self.machines_spec().dom().contains(k) implies k
            < self.next_handle() by {
            if k != h {
                assert(old(self).machines_spec().dom().contains(k));
            }
        }
        h
    }

    /// The handle the next successful create will issue, for callers that
    /// must check there is one left.
    pub fn next_handle_value(&self) -> (r: u64)
        ensures
            r == self.next_handle(),
    {
        self.next_id
    }

    pub fn contains_handle(&self, h: u64) -> (r: bool)
        ensures
            r == self.contains(h),
    {
        self.machines.contains_key(&h)
    }

    /// Existence check plus read access to the stored machine.
    pub fn lookup(&self, h: u64) -> (r: Option<&MachineState>)
        ensures
            match r {
                Some(m) => self.contains(h) && *m == self.machines_spec()[h],
                None => !self.contains(h),
            },
    {
        self.machines.get(&h)
    }

    /// Removes and drops the machine stored under the handle; reports whether
    /// one was there. The counter never moves, so the handle is not reissued.
    pub fn remove(&mut self, h: u64) -> (r: bool)
        requires
            old(self).wf(),
        ensures
            final(self).wf(),
            final(self).next_handle() == old(self).next_handle(),
            r == old(self).contains(h),
            r ==> final(self).machines_spec() == old(self).machines_spec().remove(h),
            !r ==> final(self).machines_spec() == old(self).machines_spec(),
    {
        let found = match self.machines.remove(&h) {
            Some(_) => true,
            None => false,
        };
        proof {
            if !found {
                assert(self.machines_spec() =~= old(self).machines_spec());
            }
            assert forall|k: u64| self.machines_spec().dom().contains(k) implies k
                < self.next_handle() by {
                assert(old(self).machines_spec().dom().contains(k));
            }
        }
        found
    }
}

/// How a successful create changes the registry: the issued handle is the old
/// counter value, the counter advances by one, and the machine is stored
/// under the new handle.
pub open spec fn create_transition(
    pre: MachineRegistry,
    post: MachineRegistry,
    h: u64,
    m: MachineState,
) -> bool {
    &&& h == pre.next_handle()
    &&& post.next_handle() == h + 1
    &&& post.machines_spec() == pre.machines_spec().insert(h, m)
}

/// Law: handles issued by successive creates are strictly increasing, and so
/// pairwise distinct. Every boundary call either keeps the counter or, on a
/// successful create, advances it; hence between any two creates the counter
/// never falls, and the later handle is strictly above the earlier one.
pub proof fn lemma_handles_strictly_increasing(
    r0: MachineRegistry,
    r1: MachineRegistry,
    h1: u64,
    m1: MachineState,
    r2: MachineRegistry,
    r3: MachineRegistry,
    h2: u64,
    m2: MachineState,
)
    requires
        create_transition(r0, r1, h1, m1),
        r1.next_handle() <= r2.next_handle(),
        create_transition(r2, r3, h2, m2),
    ensures
        h1 < h2,
{
}

/// The counter of the earlier create's post-state never falls on the way to
/// the later create's pre-state: every boundary call between them either
/// keeps it or advances it.
pub open spec fn creates_chained(
    pres: Seq<MachineRegistry>,
    posts: Seq<MachineRegistry>,
    handles: Seq<u64>,
    machines: Seq<MachineState>,
) -> bool {
    &&& posts.len() == pres.len()
    &&& handles.len() == pres.len()
    &&& machines.len() == pres.len()
    &&& forall|i: int|
        0 <= i < pres.len() ==> create_transition(pres[i], posts[i], handles[i], machines[i])
    &&& forall|i: int|
        0 <= i < pres.len() - 1 ==> posts[i].next_handle() <= pres[i + 1].next_handle()
}

proof fn lemma_chain_counter_grows(
    pres: Seq<MachineRegistry>,
    posts: Seq<MachineRegistry>,
    handles: Seq<u64>,
    machines: Seq<MachineState>,
    i: int,
    j: int,
)
    requires
        creates_chained(pres, posts, handles, machines),
        0 <= i <= j < pres.len(),
    ensures
        pres[i].next_handle() + (j - i) <= pres[j].next_handle(),
    decreases j - i,
{
    if i < j {
        lemma_chain_counter_grows(pres, posts, handles, machines, i + 1, j);
        assert(create_transition(pres[i], posts[i], handles[i], machines[i]));
        assert(posts[i].next_handle() <= pres[i + 1].next_handle());
    }
}

/// Law: over every sequence of successful creates — with any other boundary
/// calls between them, none of which lowers the counter — the issued handles
/// are strictly increasing, and so pairwise distinct.
pub proof fn lemma_handle_sequence_strictly_increasing(
    pres: Seq<MachineRegistry>,
    posts: Seq<MachineRegistry>,
    handles: Seq<u64>,
    machines: Seq<MachineState>,
)
    requires
        creates_chained(pres, posts, handles, machines),
    ensures
        forall|i: int, j: int| 0 <= i < j < handles.len() ==> handles[i] < handles[j],
{
    assert forall|i: int, j: int| 0 <= i < j < handles.len() implies handles[i] < handles[j] by {
        lemma_chain_counter_grows(pres, posts, handles, machines, i, j);
    }
}

/// Law: a handle that was ever issued is never issued again. A later create
/// from any state whose counter has not fallen returns a different, larger
/// handle, and the once-issued handle stays below the counter.
pub proof fn lemma_handle_never_reissued(
    pre: MachineRegistry,
    post: MachineRegistry,
    h_old: u64,
    h_new: u64,
    m: MachineState,
)
    requires
        pre.issued(h_old),
        create_transition(pre, post, h_new, m),
    ensures
        h_new != h_old,
        post.issued(h_old),
{
}

/// Law: a well-formed registry holds no handle that was never issued, so a
/// call on such a handle finds nothing.
pub proof fn lemma_unissued_handle_absent(r: MachineRegistry, h: u64)
    requires
        r.wf(),
        !r.issued(h),
    ensures
        !r.contains(h),
{
}

/// Law: after a successful drop of a handle the registry no longer contains
/// it, so a second drop of the same handle must fail.
pub proof fn lemma_second_drop_fails(pre: Map<u64, MachineState>, h: u64)
    requires
        pre.contains_key(h),
    ensures
        !pre.remove(h).contains_key(h),
{
}

} // verus!
