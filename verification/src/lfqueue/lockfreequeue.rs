//! Unbounded multi-producer/multi-consumer linked queue in the
//! Michael–Scott style: a singly-linked chain of nodes with a permanent
//! sentinel at the head, a tail pointer that may lag one node behind, and
//! a "helping" step that swings a stale tail forward.
//!
//! Nodes live in an arena and are addressed by stable indices; `None`
//! stands for the null pointer. Every node is, at every instant, either
//! reachable from the head or parked on the free list, never both and
//! never twice — the accounting that rules out leaks and double frees.
//! A dequeued payload is taken out of its node only after the head swing
//! that claims the node, never before, so no payload can be observed
//! twice; the claimed node's predecessor moves to the free list and the
//! claimed node becomes the new sentinel.

use vstd::prelude::*;

verus! {

/// One heap record of the linked queue: an optional payload and the
/// index of the next node, `None` until the node is linked.
struct Node<T> {
    data: Option<T>,
    next: Option<usize>,
}

/// The queue handle: the node arena, the free list of reclaimed nodes,
/// and the head (sentinel) and tail indices.
pub struct LockFreeQueue<T> {
    nodes: Vec<Node<T>>,
    free: Vec<usize>,
    head: usize,
    tail: usize,
    links: Ghost<Seq<int>>,
}

impl<T> LockFreeQueue<T> {
    /// Indices of the linked chain, sentinel first, in list order.
    spec fn chain(self) -> Seq<int> {
        self.links@
    }

    /// Total number of nodes the arena holds.
    pub closed spec fn node_total(self) -> int {
        self.nodes.len() as int
    }

    /// Number of reclaimed nodes waiting for reuse.
    pub closed spec fn free_count(self) -> int {
        self.free.len() as int
    }

    /// The chain is a well-formed singly-linked list through the arena:
    /// it starts at the sentinel `head`, each link agrees with the
    /// `next` fields, it ends at the only node with no successor, every
    /// non-sentinel node carries a payload, and `tail` is the last node
    /// or — transiently, while an enqueue is "mid-flight" — the one
    /// before it.
    spec fn links_ok(self) -> bool {
        let c = self.chain();
        &&& c.len() >= 1
        &&& forall|k: int| 0 <= k < c.len() ==> 0 <= #[trigger] c[k] < self.nodes.len()
        &&& c[0] == self.head
        &&& forall|k1: int, k2: int| 0 <= k1 < k2 < c.len() ==> c[k1] != c[k2]
        &&& forall|k: int|
            0 <= k < c.len() - 1 ==> self.nodes[#[trigger] c[k]].next == Some(c[k + 1] as usize)
        &&& self.nodes[c.last()].next is None
        &&& self.nodes[c[0]].data is None
        &&& forall|k: int| 1 <= k < c.len() ==> self.nodes[#[trigger] c[k]].data is Some
        &&& (self.tail == c.last() || (c.len() >= 2 && self.tail == c[c.len() - 2]))
    }

    /// The arena is fully accounted for: the free list holds in-bounds,
    /// pairwise distinct indices, disjoint from the chain, each holding
    /// no payload; together with the chain (and at most one node just
    /// allocated but not yet linked) they make up the whole arena.
    spec fn arena_ok(self, extra: Option<int>) -> bool {
        let c = self.chain();
        &&& forall|k: int| 0 <= k < self.free.len() ==> 0 <= #[trigger] self.free[k] < self.nodes.len()
        &&& forall|k1: int, k2: int| 0 <= k1 < k2 < self.free.len() ==> self.free[k1] != self.free[k2]
        &&& forall|k1: int, k2: int|
            0 <= k1 < c.len() && 0 <= k2 < self.free.len() ==> c[k1] != self.free[k2]
        &&& forall|k: int| 0 <= k < self.free.len() ==> self.nodes[#[trigger] self.free[k] as int].data is None
        &&& c.len() + self.free.len() + (match extra {
            Some(_) => 1int,
            None => 0int,
        }) == self.nodes.len()
        &&& match extra {
            Some(e) => {
                &&& 0 <= e < self.nodes.len()
                &&& forall|k: int| 0 <= k < c.len() ==> c[k] != e
                &&& forall|k: int| 0 <= k < self.free.len() ==> self.free[k] != e
            },
            None => true,
        }
    }

    /// The queue invariant.
    pub closed spec fn wf(self) -> bool {
        self.links_ok() && self.arena_ok(None)
    }

    /// How far the tail pointer lags behind the last linked node.
    spec fn tail_lag(self) -> int {
        if self.tail == self.chain().last() {
            0
        } else {
            1
        }
    }
}

impl<T> View for LockFreeQueue<T> {
    type V = Seq<T>;

    /// The queued payloads, oldest first: the chain without its sentinel.
    closed spec fn view(&self) -> Seq<T> {
        Seq::new((self.chain().len() - 1) as nat, |k: int| self.nodes[self.chain()[k + 1]].data->0)
    }
}

/// Every node of the arena is spoken for: the queued payloads, the one
/// permanent sentinel, and the reclaimed nodes on the free list add up
/// to the whole arena — no node leaks and none is claimed twice.
pub proof fn lemma_node_conservation<T>(q: LockFreeQueue<T>)
    requires
        q.wf(),
    ensures
        q.node_total() == q@.len() + 1 + q.free_count(),
{
}

impl<T> LockFreeQueue<T> {
    /// Builds an empty queue: one permanent sentinel node and nothing
    /// else.
    pub fn new() -> (q: Self)
        ensures
            q.wf(),
            q@ == Seq::<T>::empty(),
            q.node_total() == 1,
            q.free_count() == 0,
    {
        let mut nodes: Vec<Node<T>> = Vec::new();
        nodes.push(Node { data: None, next: None });
        let ghost c: Seq<int> = seq![0int];
        let q = LockFreeQueue { nodes, free: Vec::new(), head: 0, tail: 0, links: Ghost(c) };
        proof {
            assert(q@ =~= Seq::<T>::empty());
        }
        q
    }
}

impl<T> LockFreeQueue<T> {
    /// Enqueues `data`; never fails. A node is taken from the free list
    /// (or freshly allocated), filled while still unreachable, then
    /// linked after the last node and the tail swung onto it. A lagging
    /// tail found on the way is first helped forward, as any concurrent
    /// enqueuer would do.
    #[verifier::rlimit(50)]
    pub fn push(&mut self, data: T)
        requires
            old(self).wf(),
        ensures
            final(self).wf(),
            final(self)@ == old(self)@.push(data),
            old(self).free_count() > 0 ==> {
                &&& final(self).node_total() == old(self).node_total()
                &&& final(self).free_count() == old(self).free_count() - 1
            },
            old(self).free_count() == 0 ==> {
                &&& final(self).node_total() == old(self).node_total() + 1
                &&& final(self).free_count() == 0
            },
    {
        // An unlinked node carrying the payload; invisible to any
        // traversal until the next-pointer of the last node is swung.
        let new_idx: usize = match self.free.pop() {
            Some(idx) => {
                self.nodes[idx] = Node { data: Some(data), next: None };
                idx
            },
            None => {
                self.nodes.push(Node { data: Some(data), next: None });
                self.nodes.len() - 1
            },
        };
        loop
            invariant_except_break
                self.links_ok(),
                self.arena_ok(Some(new_idx as int)),
                self.nodes[new_idx as int].data == Some(data),
                self.nodes[new_idx as int].next is None,
                self.chain() == old(self).chain(),
                self.head == old(self).head,
                self@ == old(self)@,
                old(self).free_count() > 0 ==> {
                    &&& self.nodes.len() == old(self).nodes.len()
                    &&& self.free.len() == old(self).free.len() - 1
                },
                old(self).free_count() == 0 ==> {
                    &&& self.nodes.len() == old(self).nodes.len() + 1
                    &&& self.free.len() == 0
                },
            ensures
                self.wf(),
                self@ == old(self)@.push(data),
                old(self).free_count() > 0 ==> {
                    &&& self.nodes.len() == old(self).nodes.len()
                    &&& self.free.len() == old(self).free.len() - 1
                },
                old(self).free_count() == 0 ==> {
                    &&& self.nodes.len() == old(self).nodes.len() + 1
                    &&& self.free.len() == 0
                },
            decreases self.tail_lag(),
        {
            let ghost pre = *self;
            let ghost c = self.chain();
            let tail_idx = self.tail;
            proof {
                if self.tail == c.last() {
                    assert(0 <= c[c.len() - 1] < self.nodes.len());
                } else {
                    assert(0 <= c[c.len() - 2] < self.nodes.len());
                }
            }
            let next = self.nodes[tail_idx].next;
            match next {
                Some(nxt) => {
                    // The recorded tail is stale: an enqueue is
                    // mid-flight. Help it along by swinging the tail to
                    // the successor, then retry the whole loop.
                    proof {
                        assert(self.nodes[c.last()].next is None);
                        assert(self.tail == c[c.len() - 2]);
                        assert(nxt == c[c.len() - 1]);
                    }
                    self.tail = nxt;
                },
                None => {
                    // The recorded tail really is the last node: swing
                    // its null next-pointer onto the new node, making
                    // the payload reachable, then publish the tail.
                    proof {
                        assert(self.tail == c.last()) by {
                            if self.tail != c.last() {
                                assert(self.nodes[#[trigger] c[c.len() - 2]].next == Some(
                                    c[c.len() - 1] as usize,
                                ));
                            }
                        }
                    }
                    self.nodes[tail_idx].next = Some(new_idx);
                    let ghost c2 = c.push(new_idx as int);
                    self.links = Ghost(c2);
                    self.tail = new_idx;
                    proof {
                        let s = *self;
                        assert(c2[0] == c[0]);
                        assert(c2.last() == new_idx as int);
                        assert forall|k1: int, k2: int| 0 <= k1 < k2 < c2.len() implies c2[k1]
                            != c2[k2] by {
                            if k2 == c2.len() - 1 {
                                assert(c[k1] != new_idx as int);
                            }
                        }
                        assert forall|k: int| 0 <= k < c2.len() - 1 implies s.nodes[
                            #[trigger] c2[k]].next == Some(c2[k + 1] as usize) by {
                            if k < c.len() - 1 {
                                assert(c[k] != c.last());
                                assert(c[k] != new_idx as int);
                                assert(s.nodes[c2[k]] == pre.nodes[c[k]]);
                            }
                        }
                        assert(s.nodes[c2.last()].next is None);
                        assert forall|k: int| 1 <= k < c2.len() implies s.nodes[
                            #[trigger] c2[k]].data is Some by {
                            if k < c.len() {
                                assert(pre.nodes[c[k]].data is Some);
                            }
                        }
                        assert(s.links_ok());
                        assert(s.arena_ok(None));
                        assert forall|k: int| 0 <= k < c2.len() - 1 implies s.nodes[c2[k
                            + 1]].data->0 == old(self)@.push(data)[k] by {
                            if k + 1 < c.len() {
                                assert(pre@[k] == pre.nodes[c[k + 1]].data->0);
                                assert(s.nodes[c2[k + 1]].data == pre.nodes[c[k + 1]].data);
                            }
                        }
                        assert(s@ =~= old(self)@.push(data));
                    }
                    break ;
                },
            }
        }
    }
}

impl<T> LockFreeQueue<T> {
    /// Dequeues the oldest payload, or reports an empty queue. The
    /// claim is the head swing from the sentinel to its successor; the
    /// payload is taken out of the claimed node strictly after that, the
    /// claimed node becomes the new sentinel, and the outgoing sentinel
    /// is reclaimed onto the free list. A lagging tail found while the
    /// queue looks empty is helped forward first.
    #[verifier::rlimit(50)]
    pub fn pop(&mut self) -> (r: Option<T>)
        requires
            old(self).wf(),
        ensures
            final(self).wf(),
            match r {
                Some(v) => {
                    &&& old(self)@.len() > 0
                    &&& v == old(self)@[0]
                    &&& final(self)@ == old(self)@.drop_first()
                    &&& final(self).node_total() == old(self).node_total()
                    &&& final(self).free_count() == old(self).free_count() + 1
                },
                None => {
                    &&& old(self)@.len() == 0
                    &&& *final(self) == *old(self)
                },
            },
    {
        loop
            invariant
                self.wf(),
                self.nodes == old(self).nodes,
                self.free == old(self).free,
                self.head == old(self).head,
                self.chain() == old(self).chain(),
                self.tail == old(self).tail || old(self)@.len() >= 1,
            decreases self.tail_lag(),
        {
            let ghost pre = *self;
            let ghost c = self.chain();
            proof {
                assert(0 <= c[0] < self.nodes.len());
            }
            let head_idx = self.head;
            let tail_idx = self.tail;
            let next = self.nodes[head_idx].next;
            if head_idx == tail_idx {
                match next {
                    None => {
                        // The sentinel is also the last node: the queue
                        // is empty.
                        proof {
                            if c.len() >= 2 {
                                assert(self.nodes[#[trigger] c[0]].next == Some(c[1] as usize));
                            }
                            assert(old(self)@.len() == 0);
                            assert(self.tail == old(self).tail);
                        }
                        return None;
                    },
                    Some(nxt) => {
                        // An enqueue is mid-flight: the linked node is
                        // not yet published. Help by swinging the tail
                        // forward, then retry the whole loop.
                        proof {
                            assert(self.nodes[c.last()].next is None);
                            assert(self.tail == c[c.len() - 2]);
                            assert(nxt == c[c.len() - 1]);
                        }
                        self.tail = nxt;
                    },
                }
            } else {
                match next {
                    None => {
                        // A sentinel with no successor is the whole
                        // chain, and then head and tail coincide; this
                        // arm is unreachable.
                        proof {
                            assert(c.len() >= 2);
                            assert(self.nodes[#[trigger] c[0]].next == Some(c[1] as usize));
                            assert(false);
                        }
                    },
                    Some(nxt) => {
                        // Win the head swing: from here on this caller
                        // owns the claimed node and its payload.
                        proof {
                            assert(c.len() >= 2) by {
                                if c.len() < 2 {
                                    assert(self.tail == c.last());
                                }
                            }
                            assert(self.nodes[#[trigger] c[0]].next == Some(c[1] as usize));
                            assert(nxt == c[1]);
                            assert(0 <= c[1] < self.nodes.len());
                            assert(self.nodes[#[trigger] c[1]].data is Some);
                        }
                        self.head = nxt;
                        // The payload leaves the node only after the
                        // claim; the claimed node is the new sentinel.
                        let v = self.nodes[nxt].data.take();
                        // The outgoing sentinel is unreachable from any
                        // traversal now: reclaim it.
                        self.free.push(head_idx);
                        let ghost c2 = c.drop_first();
                        self.links = Ghost(c2);
                        proof {
                            let s = *self;
                            assert forall|k1: int, k2: int| 0 <= k1 < k2 < c2.len() implies c2[k1]
                                != c2[k2] by {
                                assert(c[k1 + 1] != c[k2 + 1]);
                            }
                            assert forall|k: int| 0 <= k < c2.len() implies 0 <= #[trigger] c2[k]
                                < s.nodes.len() by {
                                assert(0 <= c[k + 1] < pre.nodes.len());
                            }
                            assert forall|k: int| 0 <= k < c2.len() - 1 implies s.nodes[
                                #[trigger] c2[k]].next == Some(c2[k + 1] as usize) by {
                                assert(pre.nodes[#[trigger] c[k + 1]].next == Some(
                                    c[k + 2] as usize,
                                ));
                                assert(c[k + 1] == c2[k]);
                            }
                            assert(s.nodes[c2.last()].next is None) by {
                                assert(c2.last() == c[c.len() - 1]);
                                if c.len() - 1 == 1 {
                                } else {
                                    assert(c[c.len() - 1] != c[1]);
                                }
                            }
                            assert(s.nodes[c2[0]].data is None);
                            assert forall|k: int| 1 <= k < c2.len() implies s.nodes[
                                #[trigger] c2[k]].data is Some by {
                                assert(pre.nodes[#[trigger] c[k + 1]].data is Some);
                                assert(c[k + 1] != c[1]);
                            }
                            assert(s.tail == c2.last() || (c2.len() >= 2 && s.tail == c2[c2.len()
                                - 2])) by {
                                if pre.tail == c.last() {
                                    assert(s.tail == c2.last());
                                } else {
                                    assert(pre.tail == c[c.len() - 2]);
                                }
                            }
                            assert(s.links_ok());
                            assert forall|k: int| 0 <= k < s.free.len() implies 0 <= #[trigger] s
                                .free[k] < s.nodes.len() by {
                                if k < pre.free.len() {
                                    assert(0 <= pre.free[k] < pre.nodes.len());
                                }
                            }
                            assert forall|k1: int, k2: int| 0 <= k1 < k2 < s.free.len() implies s
                                .free[k1] != s.free[k2] by {
                                if k2 == s.free.len() - 1 {
                                    assert(c[0] != pre.free[k1]);
                                } else {
                                    assert(pre.free[k1] != pre.free[k2]);
                                }
                            }
                            assert forall|k1: int, k2: int|
                                0 <= k1 < c2.len() && 0 <= k2 < s.free.len() implies c2[k1] != s
                                .free[k2] by {
                                assert(c2[k1] == c[k1 + 1]);
                                if k2 == s.free.len() - 1 {
                                    assert(c[k1 + 1] != c[0]);
                                } else {
                                    assert(c[k1 + 1] != pre.free[k2]);
                                }
                            }
                            assert forall|k: int| 0 <= k < s.free.len() implies s.nodes[
                                #[trigger] s.free[k] as int].data is None by {
                                if k == s.free.len() - 1 {
                                    assert(s.free[k] == pre.head);
                                    assert(pre.nodes[c[0]].data is None);
                                    assert(c[0] != c[1]);
                                } else {
                                    assert(pre.nodes[pre.free[k] as int].data is None);
                                    assert(pre.free[k] != c[1]);
                                }
                            }
                            assert(s.arena_ok(None));
                            assert forall|k: int| 0 <= k < c2.len() - 1 implies s.nodes[c2[k
                                + 1]].data->0 == old(self)@.drop_first()[k] by {
                                assert(c2[k + 1] == c[k + 2]);
                                assert(c[k + 2] != c[1]);
                                assert(old(self)@[k + 1] == pre.nodes[c[k + 2]].data->0);
                            }
                            assert(s@ =~= old(self)@.drop_first());
                            assert(v == Some(old(self)@[0]));
                        }
                        return Some(v.unwrap());
                    },
                }
            }
        }
    }
}

impl<T> LockFreeQueue<T> {
    /// Total number of nodes the arena holds: queued payloads, the
    /// sentinel, and reclaimed nodes awaiting reuse.
    pub fn total_nodes(&self) -> (n: usize)
        ensures
            n == self.node_total(),
    {
        self.nodes.len()
    }

    /// Number of reclaimed nodes waiting on the free list.
    pub fn free_nodes(&self) -> (n: usize)
        ensures
            n == self.free_count(),
    {
        self.free.len()
    }

    /// Teardown: dequeues until empty. Every payload still queued is
    /// handed back exactly once, oldest first; every node but the
    /// permanent sentinel ends up reclaimed, none freed twice.
    pub fn drain(&mut self) -> (r: Vec<T>)
        requires
            old(self).wf(),
        ensures
            final(self).wf(),
            r@ == old(self)@,
            final(self)@.len() == 0,
            final(self).node_total() == old(self).node_total(),
            final(self).free_count() == old(self).free_count() + old(self)@.len(),
    {
        let mut out: Vec<T> = Vec::new();
        loop
            invariant
                self.wf(),
                out@ + self@ == old(self)@,
                self.node_total() == old(self).node_total(),
                self.free_count() == old(self).free_count() + out@.len(),
            ensures
                self.wf(),
                out@ == old(self)@,
                self@.len() == 0,
                self.node_total() == old(self).node_total(),
                self.free_count() == old(self).free_count() + old(self)@.len(),
            decreases self@.len(),
        {
            match self.pop() {
                Some(v) => {
                    out.push(v);
                    proof {
                        assert(out@ + self@ =~= old(self)@);
                    }
                },
                None => {
                    proof {
                        assert(out@ =~= old(self)@);
                    }
                    break ;
                },
            }
        }
        out
    }
}

} // verus!
