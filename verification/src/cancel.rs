//! Hierarchical cancellation signals.
//!
//! Cancellation forms a forest: every session gets a fresh child signal
//! under the signal it was spawned beneath, so cancelling a parent cancels
//! every session below it while tearing one session down leaves its
//! siblings untouched. A node observes cancellation when its own flag or
//! any ancestor's flag is raised.

use vstd::prelude::*;

verus! {

/// One node of the cancellation forest.
#[derive(Debug)]
struct CancelNode {
    /// The node this one was spawned beneath, if any. Always an earlier node.
    parent: Option<usize>,
    /// Whether this node itself has been cancelled.
    flagged: bool,
}

/// A forest of cancellation signals.
#[derive(Debug)]
pub struct CancelTree {
    nodes: Vec<CancelNode>,
}

/// How a cancellation forest changes when node `id`'s flag is raised:
/// nothing else moves, and a node observes cancellation afterwards exactly
/// when it did before or when `id` is the node itself or one of its
/// ancestors.
pub open spec fn cancel_post(pre: CancelTree, post: CancelTree, id: int) -> bool {
    &&& post.wf()
    &&& post.len() == pre.len()
    &&& post.flagged(id)
    &&& forall|i: int|
        0 <= i < pre.len() ==> post.observes_cancel(i) == (pre.observes_cancel(i) || pre.reaches(
            i,
            id,
        ))
    &&& forall|i: int, a: int| 0 <= i < pre.len() ==> post.reaches(i, a) == pre.reaches(i, a)
}

impl CancelTree {
    /// How many signals exist.
    pub closed spec fn len(self) -> nat {
        self.nodes@.len()
    }

    /// Every node's parent was created before the node itself, so parent
    /// chains terminate.
    pub closed spec fn wf(self) -> bool {
        forall|i: int|
            0 <= i < self.nodes@.len() ==> (match (#[trigger] self.nodes@[i]).parent {
                Some(p) => p < i,
                None => true,
            })
    }

    /// Whether node `i`'s own flag is raised.
    pub closed spec fn flagged(self, i: int) -> bool {
        self.nodes@[i].flagged
    }

    /// Whether node `i` observes cancellation: its own flag or any
    /// ancestor's flag is raised.
    pub closed spec fn observes_cancel(self, i: int) -> bool
        decreases i,
        when self.wf() && 0 <= i < self.len()
    {
        self.nodes@[i].flagged || (match self.nodes@[i].parent {
            Some(p) => self.observes_cancel(p as int),
            None => false,
        })
    }

    /// Whether node `a` is `i` itself or one of `i`'s ancestors.
    pub closed spec fn reaches(self, i: int, a: int) -> bool
        decreases i,
        when self.wf() && 0 <= i < self.len()
    {
        i == a || (match self.nodes@[i].parent {
            Some(p) => self.reaches(p as int, a),
            None => false,
        })
    }

    /// A forest with no signals yet.
    pub fn new() -> (t: Self)
        ensures
            t.wf(),
            t.len() == 0,
    {
        CancelTree { nodes: Vec::new() }
    }

    /// Creates an independent root signal and returns its identifier.
    pub fn add_root(&mut self) -> (id: usize)
        requires
            old(self).wf(),
        ensures
            final(self).wf(),
            id == old(self).len(),
            final(self).len() == old(self).len() + 1,
            !final(self).observes_cancel(id as int),
            forall|i: int|
                0 <= i < old(self).len() ==> final(self).observes_cancel(i)
                    == old(self).observes_cancel(i),
            forall|i: int, a: int|
                0 <= i < old(self).len() ==> final(self).reaches(i, a) == old(self).reaches(i, a),
    {
        let id = self.nodes.len();
        self.nodes.push(CancelNode { parent: None, flagged: false });
        proof {
            assert forall|i: int| 0 <= i < old(self).len() implies final(self).observes_cancel(i)
                == old(self).observes_cancel(i) by {
                lemma_append_preserves_cancel(*old(self), *self, i);
            }
            assert forall|i: int, a: int| 0 <= i < old(self).len() implies final(self).reaches(
                i,
                a,
            ) == old(self).reaches(i, a) by {
                lemma_append_preserves_reaches(*old(self), *self, i, a);
            }
        }
        id
    }

    /// Creates a fresh child signal beneath `parent` and returns its
    /// identifier. The child observes cancellation exactly when the parent
    /// already does.
    pub fn add_child(&mut self, parent: usize) -> (id: usize)
        requires
            old(self).wf(),
            parent < old(self).len(),
        ensures
            final(self).wf(),
            id == old(self).len(),
            final(self).len() == old(self).len() + 1,
            final(self).reaches(id as int, parent as int),
            final(self).observes_cancel(id as int) == old(self).observes_cancel(parent as int),
            !final(self).flagged(id as int),
            forall|i: int|
                0 <= i < old(self).len() ==> final(self).observes_cancel(i)
                    == old(self).observes_cancel(i),
            forall|i: int, a: int|
                0 <= i < old(self).len() ==> final(self).reaches(i, a) == old(self).reaches(i, a),
    {
        let id = self.nodes.len();
        self.nodes.push(CancelNode { parent: Some(parent), flagged: false });
        proof {
            assert forall|i: int| 0 <= i < old(self).len() implies final(self).observes_cancel(i)
                == old(self).observes_cancel(i) by {
                lemma_append_preserves_cancel(*old(self), *self, i);
            }
            assert forall|i: int, a: int| 0 <= i < old(self).len() implies final(self).reaches(
                i,
                a,
            ) == old(self).reaches(i, a) by {
                lemma_append_preserves_reaches(*old(self), *self, i, a);
            }
            lemma_append_preserves_cancel(*old(self), *self, parent as int);
            assert(self.reaches(parent as int, parent as int));
        }
        id
    }

    /// Raises the flag of node `id`. Afterwards a node observes
    /// cancellation exactly when it did before or when `id` is the node
    /// itself or one of its ancestors: cancelling a parent cancels every
    /// signal spawned beneath it.
    pub fn cancel(&mut self, id: usize)
        requires
            old(self).wf(),
            id < old(self).len(),
        ensures
            cancel_post(*old(self), *final(self), id as int),
    {
        let parent = self.nodes[id].parent;
        self.nodes.set(id, CancelNode { parent, flagged: true });
        proof {
            assert forall|i: int| 0 <= i < old(self).len() implies final(self).observes_cancel(i)
                == (old(self).observes_cancel(i) || old(self).reaches(i, id as int)) by {
                lemma_flag_propagates(*old(self), *self, id as int, i);
            }
            assert forall|i: int, a: int| 0 <= i < old(self).len() implies final(self).reaches(
                i,
                a,
            ) == old(self).reaches(i, a) by {
                lemma_same_parents_same_reaches(*old(self), *self, i, a);
            }
        }
    }

    /// Whether node `id` observes cancellation, climbing the parent chain.
    pub fn is_cancelled(&self, id: usize) -> (r: bool)
        requires
            self.wf(),
            id < self.len(),
        ensures
            r == self.observes_cancel(id as int),
    {
        let mut cur = id;
        loop
            invariant
                self.wf(),
                cur < self.len(),
                self.observes_cancel(id as int) == self.observes_cancel(cur as int),
            decreases cur,
        {
            if self.nodes[cur].flagged {
                return true;
            }
            match self.nodes[cur].parent {
                Some(p) => {
                    cur = p;
                },
                None => {
                    return false;
                },
            }
        }
    }
}

/// Every node reaches itself.
pub proof fn lemma_reaches_self(t: CancelTree, i: int)
    requires
        t.wf(),
        0 <= i < t.len(),
    ensures
        t.reaches(i, i),
{
}

/// Appending a node leaves cancellation of the existing nodes unchanged.
proof fn lemma_append_preserves_cancel(pre: CancelTree, post: CancelTree, i: int)
    requires
        pre.wf(),
        post.wf(),
        0 <= i < pre.len(),
        post.len() == pre.len() + 1,
        forall|j: int| 0 <= j < pre.len() ==> post.nodes@[j] == pre.nodes@[j],
    ensures
        post.observes_cancel(i) == pre.observes_cancel(i),
    decreases i,
{
    match pre.nodes@[i].parent {
        Some(p) => {
            lemma_append_preserves_cancel(pre, post, p as int);
        },
        None => {},
    }
}

/// Appending a node leaves ancestry of the existing nodes unchanged.
proof fn lemma_append_preserves_reaches(pre: CancelTree, post: CancelTree, i: int, a: int)
    requires
        pre.wf(),
        post.wf(),
        0 <= i < pre.len(),
        post.len() == pre.len() + 1,
        forall|j: int| 0 <= j < pre.len() ==> post.nodes@[j] == pre.nodes@[j],
    ensures
        post.reaches(i, a) == pre.reaches(i, a),
    decreases i,
{
    match pre.nodes@[i].parent {
        Some(p) => {
            lemma_append_preserves_reaches(pre, post, p as int, a);
        },
        None => {},
    }
}

/// Raising one flag makes exactly that node and its descendants observe
/// cancellation, beyond those that already did.
proof fn lemma_flag_propagates(pre: CancelTree, post: CancelTree, id: int, i: int)
    requires
        pre.wf(),
        post.wf(),
        0 <= id < pre.len(),
        0 <= i < pre.len(),
        post.len() == pre.len(),
        forall|j: int| 0 <= j < pre.len() && j != id ==> post.nodes@[j] == pre.nodes@[j],
        post.nodes@[id].parent == pre.nodes@[id].parent,
        post.nodes@[id].flagged,
        pre.nodes@[id].flagged ==> pre.observes_cancel(id),
    ensures
        post.observes_cancel(i) == (pre.observes_cancel(i) || pre.reaches(i, id)),
    decreases i,
{
    match pre.nodes@[i].parent {
        Some(p) => {
            lemma_flag_propagates(pre, post, id, p as int);
        },
        None => {},
    }
}

/// Trees with the same parents agree on ancestry.
proof fn lemma_same_parents_same_reaches(pre: CancelTree, post: CancelTree, i: int, a: int)
    requires
        pre.wf(),
        post.wf(),
        0 <= i < pre.len(),
        post.len() == pre.len(),
        forall|j: int| 0 <= j < pre.len() ==> post.nodes@[j].parent == pre.nodes@[j].parent,
    ensures
        post.reaches(i, a) == pre.reaches(i, a),
    decreases i,
{
    match pre.nodes@[i].parent {
        Some(p) => {
            lemma_same_parents_same_reaches(pre, post, p as int, a);
        },
        None => {},
    }
}

} // verus!
