//! The node store: a bounded, append-only sequence of nodes.

use vstd::prelude::*;

use crate::node::{children, Bin, ByteCode, Error};

verus! {

/// The largest number of slots a store can have: slots are addressed by
/// 16-bit indices.
pub const POOL_SIZE: usize = 65535;

/// Every child of `n`, a node stored at slot `i`, sits at an earlier slot and
/// was issued by store `store` in `epoch`.
pub open spec fn linked_below(n: ByteCode, i: int, store: nat, epoch: nat) -> bool {
    forall|k: int|
        0 <= k < children(n).len() ==> {
            &&& (#[trigger] children(n)[k]).slot() < i
            &&& children(n)[k].store() == store
            &&& children(n)[k].epoch() == epoch
        }
}

/// Relies on std's `RandomState::new` for keys that differ from one store to
/// the next, and on `BuildHasher::hash_one` to turn them into a number. Nothing
/// is promised of the value.
#[verifier::external_body]
fn fresh_identity() -> (r: u64) {
    std::hash::BuildHasher::hash_one(&std::collections::hash_map::RandomState::new(), 0u8)
}

/// A store of nodes (the pool). Slots `0 .. len` are occupied; a node is only
/// ever added at the end, and may refer only to nodes stored before it.
///
/// `reset` empties the store and starts a new epoch: references issued before
/// it are no longer live, even once their slots are filled again.
#[derive(Debug)]
pub struct Handle {
    pub(crate) nodes: Vec<ByteCode>,
    pub(crate) capacity: usize,
    pub(crate) id: u64,
    pub(crate) epoch: u64,
}

impl Handle {
    /// The stored nodes, by slot.
    pub open(crate) spec fn nodes(&self) -> Seq<ByteCode> {
        self.nodes@
    }

    /// How many nodes the store can hold.
    pub open(crate) spec fn capacity(&self) -> nat {
        self.capacity as nat
    }

    /// The identity of the store, carried by every reference it issues.
    /// Nothing is known of it beyond that: a reference issued by another
    /// store can never be shown to be live here.
    pub open(crate) spec fn id(&self) -> nat {
        self.id as nat
    }

    /// How many times the store has been reset.
    pub open(crate) spec fn epoch(&self) -> nat {
        self.epoch as nat
    }

    /// The store's invariant: within capacity, and every node links only to
    /// earlier slots of this store in the current epoch.
    pub open(crate) spec fn wf(&self) -> bool {
        &&& self.capacity <= POOL_SIZE
        &&& self.nodes@.len() <= self.capacity
        &&& forall|i: int|
            0 <= i < self.nodes@.len() ==> linked_below(#[trigger] self.nodes@[i], i, self.id(), self.epoch())
    }

    /// `b` was issued by this store in its current epoch and points at a stored node.
    pub open spec fn live(&self, b: Bin) -> bool {
        &&& b.store() == self.id()
        &&& b.epoch() == self.epoch()
        &&& b.slot() < self.nodes().len()
    }

    /// The node that `b` points at.
    pub open spec fn node_at(&self, b: Bin) -> ByteCode {
        self.nodes()[b.slot() as int]
    }

    /// Every child of `n` is live here, so `n` may be stored.
    pub open spec fn admits(&self, n: ByteCode) -> bool {
        forall|k: int| 0 <= k < children(n).len() ==> self.live(#[trigger] children(n)[k])
    }
}

/// What `insert` of `node` into `pre` does, leaving `post` and returning `r`:
/// with room left, the node goes into the next slot and a reference to it
/// comes back; on a full store nothing changes and `NoSpace` comes back.
pub open spec fn insert_post(pre: Handle, node: ByteCode, post: Handle, r: Result<Bin, Error>) -> bool {
    &&& post.capacity() == pre.capacity()
    &&& post.id() == pre.id()
    &&& post.epoch() == pre.epoch()
    &&& if pre.nodes().len() < pre.capacity() {
        &&& r matches Ok(b)
        &&& post.nodes() == pre.nodes().push(node)
        &&& b.slot() == pre.nodes().len()
        &&& b.store() == pre.id()
        &&& b.epoch() == pre.epoch()
    } else {
        &&& r == Err::<Bin, Error>(Error::NoSpace)
        &&& post == pre
    }
}

/// What `reset` of `pre` leaves: the same store, empty, with the same
/// capacity, one epoch later.
pub open spec fn reset_post(pre: Handle, post: Handle) -> bool {
    &&& post.nodes() == Seq::<ByteCode>::empty()
    &&& post.capacity() == pre.capacity()
    &&& post.id() == pre.id()
    &&& post.epoch() == pre.epoch() + 1
}

impl Handle {
    /// An empty store with room for `capacity` nodes, with an identity of its
    /// own.
    pub fn create(capacity: usize) -> (h: Handle)
        requires
            capacity <= POOL_SIZE,
        ensures
            h.wf(),
            h.nodes() == Seq::<ByteCode>::empty(),
            h.capacity() == capacity,
            h.epoch() == 0,
    {
        Handle { nodes: Vec::with_capacity(capacity), capacity, id: fresh_identity(), epoch: 0 }
    }

    /// Puts `b` into the next slot and returns that slot.
    fn store(&mut self, b: ByteCode) -> (slot: u16)
        requires
            old(self).wf(),
            old(self).admits(b),
            old(self).nodes().len() < old(self).capacity(),
        ensures
            final(self).wf(),
            final(self).nodes() == old(self).nodes().push(b),
            final(self).capacity() == old(self).capacity(),
            final(self).id() == old(self).id(),
            final(self).epoch() == old(self).epoch(),
            slot == old(self).nodes().len(),
    {
        let slot = self.nodes.len() as u16;
        self.nodes.push(b);
        assert forall|i: int| 0 <= i < self.nodes@.len() implies linked_below(
            #[trigger] self.nodes@[i],
            i,
            self.id(),
            self.epoch(),
        ) by {
            if i == slot as int {
                assert forall|k: int| 0 <= k < children(b).len() implies {
                    &&& (#[trigger] children(b)[k]).slot() < i
                    &&& children(b)[k].store() == self.id()
                    &&& children(b)[k].epoch() == self.epoch()
                } by {
                    assert(old(self).live(children(b)[k]));
                }
            } else {
                assert(self.nodes@[i] == old(self).nodes@[i]);
            }
        }
        slot
    }

    /// Stores `node`, whose children must be live here, and returns a
    /// reference to it; `NoSpace` when the store is full.
    pub fn insert(&mut self, node: ByteCode) -> (r: Result<Bin, Error>)
        requires
            old(self).wf(),
            old(self).admits(node),
        ensures
            final(self).wf(),
            insert_post(*old(self), node, *final(self), r),
    {
        if self.nodes.len() >= self.capacity {
            return Err(Error::NoSpace);
        }
        let slot = self.store(node);
        Ok(Bin { slot, store: self.id, epoch: self.epoch })
    }

    /// The node that `b` points at.
    pub fn get(&self, b: Bin) -> (r: &ByteCode)
        requires
            self.live(b),
        ensures
            *r == self.node_at(b),
    {
        &self.nodes[b.slot as usize]
    }

    /// Whether `b` is live in this store.
    pub fn is_live(&self, b: Bin) -> (r: bool)
        ensures
            r == self.live(b),
    {
        b.store == self.id && b.epoch == self.epoch && (b.slot as usize) < self.nodes.len()
    }

    /// Whether every child of `node` is live here, so that it may be inserted.
    pub fn accepts(&self, node: &ByteCode) -> (r: bool)
        ensures
            r == self.admits(*node),
    {
        match *node {
            ByteCode::Nil | ByteCode::Number(_) | ByteCode::Hexlit(_) | ByteCode::Bool(_)
            | ByteCode::Symbol(_) => {
                assert(children(*node).len() == 0);
                true
            },
            ByteCode::List(a) | ByteCode::Dict(a) | ByteCode::Ioverb(a) | ByteCode::NameInt(a)
            | ByteCode::SymbolInt(a) | ByteCode::SequenceInt(a) | ByteCode::Name(a)
            | ByteCode::Sequence(a) | ByteCode::Cell(a) => {
                assert(children(*node)[0] == a);
                self.is_live(a)
            },
            ByteCode::Cons(a, b) | ByteCode::Call(a, b) | ByteCode::Lambda(a, b)
            | ByteCode::Verb(_, a, b) | ByteCode::Adverb(_, a, b) | ByteCode::Assign(a, b) => {
                assert(children(*node)[0] == a && children(*node)[1] == b);
                self.is_live(a) && self.is_live(b)
            },
            ByteCode::Cond(a, b, c) => {
                assert(children(*node)[0] == a && children(*node)[1] == b && children(*node)[2] == c);
                self.is_live(a) && self.is_live(b) && self.is_live(c)
            },
        }
    }

    /// The number of stored nodes: the next slot to be filled.
    pub fn len(&self) -> (r: usize)
        ensures
            r == self.nodes().len(),
    {
        self.nodes.len()
    }

    /// Whether another `reset` can still start a fresh epoch.
    pub fn can_reset(&self) -> (r: bool)
        ensures
            r == (self.epoch() < u64::MAX),
    {
        self.epoch < u64::MAX
    }

    /// Empties the store and starts a new epoch, so that every reference
    /// issued before stops being live.
    pub fn reset(&mut self)
        requires
            old(self).wf(),
            old(self).epoch() < u64::MAX,
        ensures
            final(self).wf(),
            reset_post(*old(self), *final(self)),
            forall|b: Bin| #[trigger] old(self).live(b) ==> b.epoch() < final(self).epoch(),
    {
        self.nodes.clear();
        self.epoch = self.epoch + 1;
    }
}

/// A store with the largest capacity.
pub fn handle() -> (h: Handle)
    ensures
        h.wf(),
        h.nodes() == Seq::<ByteCode>::empty(),
        h.capacity() == POOL_SIZE,
        h.epoch() == 0,
{
    Handle::create(POOL_SIZE)
}

impl Bin {
    /// Stores `x` in `h` and returns a reference to it; `NoSpace` when `h` is full.
    pub fn new(h: &mut Handle, x: ByteCode) -> (r: Result<Bin, Error>)
        requires
            old(h).wf(),
            old(h).admits(x),
        ensures
            final(h).wf(),
            insert_post(*old(h), x, *final(h), r),
    {
        h.insert(x)
    }

    /// The node this reference points at in `h`.
    pub fn bc<'a>(&self, h: &'a Handle) -> (r: &'a ByteCode)
        requires
            h.live(*self),
        ensures
            *r == h.node_at(*self),
    {
        h.get(*self)
    }
}

impl ByteCode {
    /// Commits this node to `h`: the second step of building a node, after
    /// its children were committed.
    pub fn bin(self, h: &mut Handle) -> (r: Result<Bin, Error>)
        requires
            old(h).wf(),
            old(h).admits(self),
        ensures
            final(h).wf(),
            insert_post(*old(h), self, *final(h), r),
    {
        h.insert(self)
    }
}

} // verus!
