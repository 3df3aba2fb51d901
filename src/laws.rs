//! Properties of the store and the renderer that hold across calls.

use vstd::prelude::*;

use crate::node::{children, Bin, ByteCode, Error};
use crate::pool::{insert_post, linked_below, reset_post, Handle};
use crate::render::render_post;

verus! {

/// `pools[k + 1]` is what `insert` of `nodes[k]` into `pools[k]` left, with
/// result `results[k]`, for each step `k` of a run of inserts.
pub open spec fn insert_run(
    pools: Seq<Handle>,
    nodes: Seq<ByteCode>,
    results: Seq<Result<Bin, Error>>,
) -> bool {
    &&& pools.len() == nodes.len() + 1
    &&& results.len() == nodes.len()
    &&& forall|k: int|
        0 <= k < nodes.len() ==> insert_post(
            #[trigger] pools[k],
            nodes[k],
            pools[k + 1],
            results[k],
        )
}

/// A path of `n` child links leads from the node at `from` to `to`.
pub open spec fn reaches(nodes: Seq<ByteCode>, from: Bin, to: Bin, n: nat) -> bool
    decreases n,
{
    if n == 0 {
        from == to
    } else {
        exists|k: int|
            0 <= k < children(nodes[from.slot() as int]).len() && reaches(
                nodes,
                #[trigger] children(nodes[from.slot() as int])[k],
                to,
                (n - 1) as nat,
            )
    }
}

/// In a run of inserts, every reference that an insert returned stays live
/// and keeps pointing at the node that was inserted, unchanged, through all
/// the inserts that follow.
pub proof fn lemma_inserted_nodes_kept(
    pools: Seq<Handle>,
    nodes: Seq<ByteCode>,
    results: Seq<Result<Bin, Error>>,
    k: int,
    j: int,
)
    requires
        insert_run(pools, nodes, results),
        0 <= k < j < pools.len(),
    ensures
        results[k] matches Ok(b) ==> pools[j].live(b) && pools[j].node_at(b) == nodes[k],
    decreases j - k,
{
    assert(insert_post(pools[k], nodes[k], pools[k + 1], results[k]));
    if j > k + 1 {
        lemma_inserted_nodes_kept(pools, nodes, results, k, j - 1);
        assert(insert_post(pools[j - 1], nodes[j - 1], pools[j], results[j - 1]));
        if results[k] is Ok {
            let b = results[k]->Ok_0;
            if pools[j - 1].nodes().len() < pools[j - 1].capacity() {
                assert(pools[j].nodes()[b.slot() as int] == pools[j - 1].nodes()[b.slot() as int]);
            }
        }
    }
}

/// An insert into a full store returns `NoSpace` and leaves the store as it was.
pub proof fn lemma_full_insert_unchanged(
    pre: Handle,
    node: ByteCode,
    post: Handle,
    r: Result<Bin, Error>,
)
    requires
        pre.nodes().len() == pre.capacity(),
        insert_post(pre, node, post, r),
    ensures
        r == Err::<Bin, Error>(Error::NoSpace),
        post == pre,
{
}

/// Rendering the same tree twice gives the same text, or the same error.
pub proof fn lemma_render_deterministic(
    h: Handle,
    b: Bin,
    r1: Result<String, Error>,
    r2: Result<String, Error>,
)
    requires
        render_post(h, b, r1),
        render_post(h, b, r2),
    ensures
        match (r1, r2) {
            (Ok(s1), Ok(s2)) => s1@ == s2@,
            (Err(e1), Err(e2)) => e1 == e2,
            _ => false,
        },
{
}

/// A reference that was live before a reset is not live after it, nor after
/// any run of inserts that follows, even once its slot is filled again: the
/// inserts keep the epoch that the reset began. So neither `get` nor
/// `Bin::bc` can be called with it again, and no new node can link to it.
pub proof fn lemma_reset_retires(
    pre: Handle,
    c: Bin,
    pools: Seq<Handle>,
    nodes: Seq<ByteCode>,
    results: Seq<Result<Bin, Error>>,
    j: int,
)
    requires
        pre.live(c),
        insert_run(pools, nodes, results),
        reset_post(pre, pools[0]),
        0 <= j < pools.len(),
    ensures
        !pools[j].live(c),
        pools[j].epoch() == pools[0].epoch(),
    decreases j,
{
    if j > 0 {
        lemma_reset_retires(pre, c, pools, nodes, results, j - 1);
        assert(insert_post(pools[j - 1], nodes[j - 1], pools[j], results[j - 1]));
    }
}

/// The nodes of a store form no cycle: every node reached from a live
/// reference by one or more child links sits at an earlier slot, and is live.
pub proof fn lemma_acyclic(h: Handle, from: Bin, to: Bin, n: nat)
    requires
        h.wf(),
        h.live(from),
        n > 0,
        reaches(h.nodes(), from, to, n),
    ensures
        to.slot() < from.slot(),
        h.live(to),
    decreases n,
{
    let nodes = h.nodes();
    let k = choose|k: int|
        0 <= k < children(nodes[from.slot() as int]).len() && reaches(
            nodes,
            #[trigger] children(nodes[from.slot() as int])[k],
            to,
            (n - 1) as nat,
        );
    let c = children(nodes[from.slot() as int])[k];
    assert(linked_below(nodes[from.slot() as int], from.slot() as int, h.id(), h.epoch()));
    assert(c.slot() < from.slot());
    if n > 1 {
        lemma_acyclic(h, c, to, (n - 1) as nat);
    }
}

} // verus!
