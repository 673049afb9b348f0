//! Typed store of shared singleton resources.
//!
//! The registry maps a resource kind to a single shared instance with
//! insert-once / read-many semantics. An instance is identified by the
//! slot it was allocated in: two handles are the same instance exactly
//! when they carry the same identifier. The registry is owned exclusively
//! by the builder during the attach phase; it never removes an entry, so
//! a binding, once made, is stable for the rest of the build.

use vstd::prelude::*;

use crate::error::NodeError;
use crate::layer::LayerKind;

verus! {

/// Identity of a shared resource type.
#[derive(Clone, Copy, Debug, PartialEq, Eq, Structural)]
pub enum ResourceKind {
    /// Read-write database connection pool.
    MasterPool,
    /// Read-only replica database connection pool.
    ReplicaPool,
    /// RPC client for the upstream main node.
    MainNodeClient,
    /// Application health state reported by the healthcheck server.
    HealthState,
}

/// First slot bound to kind `k`, if any. Since the registry never binds a
/// kind twice, this is the one instance of `k`.
pub open spec fn lookup(s: Seq<ResourceKind>, k: ResourceKind) -> Option<int>
    decreases s.len(),
{
    if s.len() == 0 {
        None
    } else {
        match lookup(s.drop_last(), k) {
            Some(i) => Some(i),
            None => if s.last() == k {
                Some(s.len() - 1)
            } else {
                None
            },
        }
    }
}

/// Fetch-or-create transition: the registry contents and the instance
/// identifier that a `get_or_insert` of kind `k` yields.
pub open spec fn upsert(s: Seq<ResourceKind>, k: ResourceKind) -> (Seq<ResourceKind>, int) {
    match lookup(s, k) {
        Some(i) => (s, i),
        None => (s.push(k), s.len() as int),
    }
}

/// Typed store of shared singleton resources, keyed by [`ResourceKind`].
#[derive(Debug)]
pub struct ResourceRegistry {
    entries: Vec<ResourceKind>,
}

impl ResourceRegistry {
    /// The kinds bound so far, in allocation order; the instance bound to
    /// a kind is the slot index where the kind sits.
    pub closed spec fn kinds(self) -> Seq<ResourceKind> {
        self.entries@
    }

    /// Each kind is bound at most once.
    pub open spec fn wf(self) -> bool {
        forall|i: int, j: int|
            0 <= i < j < self.kinds().len() ==> self.kinds()[i] != self.kinds()[j]
    }

    /// An empty registry.
    pub fn new() -> (r: ResourceRegistry)
        ensures
            r.kinds() == Seq::<ResourceKind>::empty(),
            r.wf(),
    {
        ResourceRegistry { entries: Vec::new() }
    }

    /// Slot of kind `k`, if bound.
    fn find(&self, k: ResourceKind) -> (r: Option<usize>)
        ensures
            match r {
                Some(i) => lookup(self.kinds(), k) == Some(i as int),
                None => lookup(self.kinds(), k) is None,
            },
    {
        let mut i: usize = 0;
        while i < self.entries.len()
            invariant
                0 <= i <= self.entries.len(),
                lookup(self.kinds().take(i as int), k) is None,
            decreases self.entries.len() - i,
        {
            proof {
                assert(self.kinds().take(i as int + 1).drop_last() =~= self.kinds().take(
                    i as int,
                ));
                assert(self.kinds().take(i as int + 1).last() == self.kinds()[i as int]);
            }
            if self.entries[i] == k {
                proof {
                    lemma_lookup_extend_found(self.kinds(), k, i as int);
                }
                return Some(i);
            }
            i = i + 1;
        }
        proof {
            assert(self.kinds().take(self.kinds().len() as int) =~= self.kinds());
        }
        None
    }

    /// Whether a resource of kind `k` has been published.
    pub fn contains(&self, k: ResourceKind) -> (r: bool)
        ensures
            r == self.kinds().contains(k),
    {
        proof {
            lemma_lookup_contains(self.kinds(), k);
        }
        self.find(k).is_some()
    }

    /// Publishes a new resource of kind `k` on behalf of `requester`.
    /// Fails with a duplicate-resource error if `k` is already bound;
    /// reinsertion is a wiring defect, never silently tolerated.
    pub fn insert(&mut self, k: ResourceKind, requester: LayerKind) -> (r: Result<
        usize,
        NodeError,
    >)
        requires
            old(self).wf(),
        ensures
            final(self).wf(),
            lookup(old(self).kinds(), k) is None ==> {
                &&& r matches Ok(id) && id as int == old(self).kinds().len()
                &&& final(self).kinds() == old(self).kinds().push(k)
            },
            lookup(old(self).kinds(), k) is Some ==> {
                &&& r == Result::<usize, NodeError>::Err(
                    NodeError::DuplicateResource { kind: k, layer: requester },
                )
                &&& final(self).kinds() == old(self).kinds()
            },
    {
        match self.find(k) {
            Some(_) => Err(NodeError::DuplicateResource { kind: k, layer: requester }),
            None => {
                let id = self.entries.len();
                self.entries.push(k);
                proof {
                    lemma_lookup_push(old(self).kinds(), k, k);
                    lemma_lookup_contains(old(self).kinds(), k);
                }
                Ok(id)
            },
        }
    }

    /// Fetches the shared resource of kind `k` for `requester`. Fails with
    /// a missing-resource error naming the kind and the requesting layer
    /// if no layer has produced it yet — a wiring-order defect.
    pub fn get(&self, k: ResourceKind, requester: LayerKind) -> (r: Result<usize, NodeError>)
        ensures
            match lookup(self.kinds(), k) {
                Some(i) => r matches Ok(id) && id as int == i,
                None => r == Result::<usize, NodeError>::Err(
                    NodeError::MissingResource { kind: k, layer: requester },
                ),
            },
    {
        match self.find(k) {
            Some(id) => Ok(id),
            None => Err(NodeError::MissingResource { kind: k, layer: requester }),
        }
    }

    /// Fetches the shared resource of kind `k`, creating and installing it
    /// first if absent, so exactly one instance of `k` ever exists
    /// regardless of which layer asks first.
    pub fn get_or_insert(&mut self, k: ResourceKind) -> (id: usize)
        requires
            old(self).wf(),
        ensures
            final(self).wf(),
            (final(self).kinds(), id as int) == upsert(old(self).kinds(), k),
    {
        match self.find(k) {
            Some(id) => id,
            None => {
                let id = self.entries.len();
                self.entries.push(k);
                proof {
                    lemma_lookup_push(old(self).kinds(), k, k);
                    lemma_lookup_contains(old(self).kinds(), k);
                }
                id
            },
        }
    }
}

/// If `k` is not bound among the first `i` slots and slot `i` holds `k`,
/// then `k`'s first binding in any extension of that prefix through slot
/// `i` is slot `i`.
proof fn lemma_lookup_extend_found(s: Seq<ResourceKind>, k: ResourceKind, i: int)
    requires
        0 <= i < s.len(),
        lookup(s.take(i), k) is None,
        s[i] == k,
    ensures
        lookup(s, k) == Some(i),
    decreases s.len(),
{
    if s.len() == i + 1 {
        assert(s.take(i) =~= s.drop_last());
    } else {
        assert(s.drop_last().take(i) =~= s.take(i));
        lemma_lookup_extend_found(s.drop_last(), k, i);
    }
}

/// Binding a fresh kind appends it; every existing binding is untouched.
pub proof fn lemma_lookup_push(s: Seq<ResourceKind>, k: ResourceKind, x: ResourceKind)
    ensures
        lookup(s.push(x), k) == match lookup(s, k) {
            Some(i) => Some(i),
            None => if x == k {
                Some(s.len() as int)
            } else {
                None
            },
        },
{
    assert(s.push(x).drop_last() =~= s);
}

/// A kind is bound exactly when it occurs among the registry's contents.
pub proof fn lemma_lookup_contains(s: Seq<ResourceKind>, k: ResourceKind)
    ensures
        lookup(s, k) is Some <==> s.contains(k),
        lookup(s, k) matches Some(i) ==> 0 <= i < s.len() && s[i] == k,
    decreases s.len(),
{
    if s.len() > 0 {
        lemma_lookup_contains(s.drop_last(), k);
        if s.contains(k) {
            let w = choose|w: int| 0 <= w < s.len() && s[w] == k;
            if w < s.len() - 1 {
                assert(s.drop_last()[w] == k);
                assert(s.drop_last().contains(k));
            }
        }
        match lookup(s.drop_last(), k) {
            Some(i) => {
                assert(s.drop_last()[i] == k);
                assert(s[i] == k);
            },
            None => {},
        }
    }
}

} // verus!
