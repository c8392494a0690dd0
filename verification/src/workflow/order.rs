//! The order in which a workflow's elements run.

use vstd::prelude::*;
use crate::json::clone_bytes;
use crate::text::bytes_eq;
use crate::workflow::{byte_seqs, link_edges, node_ids, Workflow};

verus! {

/// The ids of all elements: the nodes' in order, then the links'.
pub open spec fn element_ids(nodes: Seq<Seq<u8>>, links: Seq<(Seq<u8>, Seq<u8>)>) -> Seq<Seq<u8>> {
    nodes + Seq::new(links.len(), |j: int| links[j].0)
}

/// `order` lists every element exactly once, and every link after the element
/// it hangs from (so a link that hangs from no element can never be placed).
pub open spec fn is_run_order(
    nodes: Seq<Seq<u8>>,
    links: Seq<(Seq<u8>, Seq<u8>)>,
    order: Seq<Seq<u8>>,
) -> bool {
    let ids = element_ids(nodes, links);
    &&& order.len() == ids.len()
    &&& order.no_duplicates()
    &&& forall|k: int| 0 <= k < order.len() ==> ids.contains(#[trigger] order[k])
    &&& forall|i: int| 0 <= i < ids.len() ==> order.contains(#[trigger] ids[i])
    &&& forall|j: int| 0 <= j < links.len() ==> #[trigger] comes_after_parent(order, links[j])
}

/// The link (id, parent) appears in `order` after its parent.
pub open spec fn comes_after_parent(order: Seq<Seq<u8>>, link: (Seq<u8>, Seq<u8>)) -> bool {
    exists|p: int, q: int|
        #![trigger order[p], order[q]]
        0 <= p < q < order.len() && order[p] == link.1 && order[q] == link.0
}

/// `done` holds every node and, with any element, every link hanging from it.
pub open spec fn closed_under_links(nodes: Seq<Seq<u8>>, links: Seq<(Seq<u8>, Seq<u8>)>, done: Seq<Seq<u8>>) -> bool {
    &&& forall|i: int| 0 <= i < nodes.len() ==> done.contains(#[trigger] nodes[i])
    &&& forall|j: int| 0 <= j < links.len() && done.contains(#[trigger] links[j].1) ==> done.contains(links[j].0)
}

/// `x` is reached from the nodes by following links: every list closed
/// under links holds it.
pub open spec fn reached(nodes: Seq<Seq<u8>>, links: Seq<(Seq<u8>, Seq<u8>)>, x: Seq<u8>) -> bool {
    forall|done: Seq<Seq<u8>>| #[trigger] closed_under_links(nodes, links, done) ==> done.contains(x)
}

/// Some element is not reached from the nodes (a link on a cycle, or under a
/// link that hangs from nothing), or two elements share an id.
pub open spec fn unorderable(nodes: Seq<Seq<u8>>, links: Seq<(Seq<u8>, Seq<u8>)>) -> bool {
    let ids = element_ids(nodes, links);
    !ids.no_duplicates() || exists|i: int| 0 <= i < ids.len() && !reached(nodes, links, #[trigger] ids[i])
}

pub open spec fn cyclic_message() -> Seq<char> {
    "Cyclic dependency detected in the workflow"@
}

/// A duplicate-free list whose entries lie in [0, n) has at most n entries.
proof fn lemma_bounded_len(s: Seq<int>, n: int)
    requires
        0 <= n,
        s.no_duplicates(),
        forall|k: int| 0 <= k < s.len() ==> 0 <= #[trigger] s[k] < n,
    ensures
        s.len() <= n,
{
    vstd::set_lib::lemma_int_range(0, n);
    assert(s.to_set().subset_of(vstd::set_lib::set_int_range(0, n))) by {
        assert forall|x: int| s.to_set().contains(x) implies vstd::set_lib::set_int_range(0, n).contains(x) by {
            let k = choose|k: int| 0 <= k < s.len() && s[k] == x;
        }
    }
    vstd::set_lib::lemma_len_subset(s.to_set(), vstd::set_lib::set_int_range(0, n));
    s.unique_seq_to_set();
}

/// Two duplicate-free lists with the same entries have the same length.
proof fn lemma_same_entries_len<A>(a: Seq<A>, b: Seq<A>)
    requires
        a.no_duplicates(),
        b.no_duplicates(),
        forall|k: int| 0 <= k < a.len() ==> b.contains(#[trigger] a[k]),
        forall|k: int| 0 <= k < b.len() ==> a.contains(#[trigger] b[k]),
    ensures
        a.len() == b.len(),
{
    assert(a.to_set() =~= b.to_set()) by {
        assert forall|x: A| a.to_set().contains(x) implies b.to_set().contains(x) by {
            let k = choose|k: int| 0 <= k < a.len() && a[k] == x;
        }
        assert forall|x: A| b.to_set().contains(x) implies a.to_set().contains(x) by {
            let k = choose|k: int| 0 <= k < b.len() && b[k] == x;
        }
    }
    a.unique_seq_to_set();
    b.unique_seq_to_set();
}

/// A list with a repeated entry admits no run order.
proof fn lemma_no_order_with_duplicates(
    nodes: Seq<Seq<u8>>,
    links: Seq<(Seq<u8>, Seq<u8>)>,
    order: Seq<Seq<u8>>,
)
    requires
        !element_ids(nodes, links).no_duplicates(),
    ensures
        !is_run_order(nodes, links, order),
{
    let ids = element_ids(nodes, links);
    if is_run_order(nodes, links, order) {
        ids.lemma_cardinality_of_set();
        if ids.to_set().len() == ids.len() {
            ids.lemma_no_dup_set_cardinality();
        }
        assert(order.to_set().subset_of(ids.to_set())) by {
            assert forall|x: Seq<u8>| order.to_set().contains(x) implies ids.to_set().contains(x) by {
                let k = choose|k: int| 0 <= k < order.len() && order[k] == x;
            }
        }
        vstd::seq_lib::seq_to_set_is_finite(ids);
        vstd::set_lib::lemma_len_subset(order.to_set(), ids.to_set());
        order.unique_seq_to_set();
    }
}

/// Whatever contains every node and, with any element, every link hanging from
/// it, contains every entry of a run order.
proof fn lemma_closed_covers_order(
    nodes: Seq<Seq<u8>>,
    links: Seq<(Seq<u8>, Seq<u8>)>,
    done: Seq<Seq<u8>>,
    order: Seq<Seq<u8>>,
    q: int,
)
    requires
        is_run_order(nodes, links, order),
        0 <= q < order.len(),
        forall|i: int| 0 <= i < nodes.len() ==> done.contains(#[trigger] nodes[i]),
        forall|j: int|
            0 <= j < links.len() && done.contains(#[trigger] links[j].1) ==> done.contains(links[j].0),
    ensures
        done.contains(order[q]),
    decreases q,
{
    let ids = element_ids(nodes, links);
    assert(ids.contains(order[q]));
    let i = choose|i: int| 0 <= i < ids.len() && ids[i] == order[q];
    if i < nodes.len() {
        assert(ids[i] == nodes[i]);
    } else {
        let j = i - nodes.len();
        assert(ids[i] == links[j].0);
        assert(0 <= j < links.len());
        assert(comes_after_parent(order, links[j]));
        let (p, q2) = choose|p: int, q2: int|
            0 <= p < q2 < order.len() && order[p] == links[j].1 && order[q2] == links[j].0;
        assert(q2 == q);
        lemma_closed_covers_order(nodes, links, done, order, p);
    }
}

impl Workflow {
    /// Orders the elements for a run, depth first: the nodes start on a stack;
    /// each element taken from it is placed next, and the links hanging from it
    /// go on the stack. Refused when some element could not be placed (a cycle,
    /// a link hanging from no element, or two elements sharing an id): exactly
    /// when some element is not reached from the nodes by following links or
    /// two share an id. A run order exists exactly when it succeeds.
    #[verifier::rlimit(50)]
    pub fn topological_sort(&self) -> (res: Result<Vec<Vec<u8>>, String>)
        ensures
            match res {
                Ok(order) => is_run_order(self.node_id_seq(), self.link_edge_seq(), byte_seqs(order@)),
                Err(e) => e@ == cyclic_message(),
            },
            res is Ok <==> exists|order: Seq<Seq<u8>>|
                is_run_order(self.node_id_seq(), self.link_edge_seq(), order),
            res is Err <==> unorderable(self.node_id_seq(), self.link_edge_seq()),
    {
        let ghost nv = self.node_id_seq();
        let ghost lv = self.link_edge_seq();
        let ghost idv = element_ids(nv, lv);
        let n = self.nodes.len();
        let m = self.links.len();
        let mut ids: Vec<Vec<u8>> = Vec::new();
        let mut in_degree: Vec<usize> = Vec::new();
        let mut i: usize = 0;
        while i < n
            invariant
                n == self.nodes@.len(),
                0 <= i <= n,
                ids@.len() == i,
                in_degree@.len() == i,
                forall|k: int| 0 <= k < i ==> (#[trigger] ids@[k])@ == idv[k],
                forall|k: int| 0 <= k < i ==> #[trigger] in_degree@[k] == 0,
                nv == self.node_id_seq(),
                idv == element_ids(nv, link_edges(self.links@)),
            decreases n - i,
        {
            ids.push(clone_bytes(&self.nodes[i].id));
            in_degree.push(0);
            i = i + 1;
        }
        let mut j: usize = 0;
        while j < m
            invariant
                n == self.nodes@.len(),
                m == self.links@.len(),
                0 <= j <= m,
                ids@.len() == n + j,
                in_degree@.len() == n + j,
                forall|k: int| 0 <= k < n + j ==> (#[trigger] ids@[k])@ == idv[k],
                forall|k: int| 0 <= k < n ==> #[trigger] in_degree@[k] == 0,
                forall|k: int| n <= k < n + j ==> #[trigger] in_degree@[k] == 1,
                nv == self.node_id_seq(),
                lv == self.link_edge_seq(),
                idv == element_ids(nv, lv),
            decreases m - j,
        {
            ids.push(clone_bytes(&self.links[j].id));
            in_degree.push(1);
            j = j + 1;
        }
        let total = ids.len();
        assert(idv.len() == total);
        // Two elements sharing an id can never both be placed.
        let mut a: usize = 0;
        while a < total
            invariant
                total == ids@.len(),
                total == idv.len(),
                0 <= a <= total,
                forall|k: int| 0 <= k < total ==> (#[trigger] ids@[k])@ == idv[k],
                forall|x: int, y: int| 0 <= x < a && x < y < total ==> idv[x] != idv[y],
                nv == self.node_id_seq(),
                lv == self.link_edge_seq(),
                idv == element_ids(nv, lv),
            decreases total - a,
        {
            let mut b: usize = a + 1;
            while b < total
                invariant
                    total == ids@.len(),
                    total == idv.len(),
                    0 <= a < total,
                    a + 1 <= b <= total,
                    forall|k: int| 0 <= k < total ==> (#[trigger] ids@[k])@ == idv[k],
                    forall|x: int, y: int| 0 <= x < a && x < y < total ==> idv[x] != idv[y],
                    forall|y: int| a < y < b ==> idv[a as int] != idv[y],
                    nv == self.node_id_seq(),
                    lv == self.link_edge_seq(),
                    idv == element_ids(nv, lv),
                decreases total - b,
            {
                if bytes_eq(ids[a].as_slice(), ids[b].as_slice()) {
                    proof {
                        assert(!idv.no_duplicates());
                        assert forall|order: Seq<Seq<u8>>| !is_run_order(nv, lv, order) by {
                            lemma_no_order_with_duplicates(nv, lv, order);
                        }
                    }
                    return Err(crate::text::owned("Cyclic dependency detected in the workflow"));
                }
                b = b + 1;
            }
            a = a + 1;
        }
        assert(idv.no_duplicates());

        let mut stack: Vec<usize> = Vec::new();
        let mut v: usize = 0;
        while v < total
            invariant
                total == in_degree@.len(),
                n <= total,
                0 <= v <= total,
                forall|k: int| 0 <= k < n ==> #[trigger] in_degree@[k] == 0,
                forall|k: int| n <= k < total ==> #[trigger] in_degree@[k] == 1,
                stack@.len() == if v <= n { v as int } else { n as int },
                forall|k: int| 0 <= k < stack@.len() ==> #[trigger] stack@[k] == k,
            decreases total - v,
        {
            if in_degree[v] == 0 {
                stack.push(v);
            }
            v = v + 1;
        }

        let mut sorted: Vec<Vec<u8>> = Vec::new();
        let ghost mut out: Seq<int> = Seq::empty();
        assert(byte_seqs(sorted@) =~= Seq::new(0, |k: int| idv[out[k]]));
        proof {
            assert(stack@.len() == n);
            assert forall|x: int| 0 <= x < n implies #[trigger] stack@.contains(x as usize) by {
                assert(stack@[x] == x);
            }
            assert forall|y: int| 0 <= y < m implies !#[trigger] stack@.contains((n + y) as usize) by {
                if stack@.contains((n + y) as usize) {
                    let k = choose|k: int| 0 <= k < stack@.len() && stack@[k] == (n + y) as usize;
                    assert(stack@[k] == k);
                }
            }
            assert(stack@.no_duplicates()) by {
                assert forall|k1: int, k2: int| 0 <= k1 < k2 < stack@.len() implies stack@[k1] != stack@[k2] by {
                    assert(stack@[k1] == k1);
                    assert(stack@[k2] == k2);
                }
            }
        }
        while stack.len() > 0
            invariant
                total == ids@.len(),
                total == idv.len(),
                total == n + m,
                n == nv.len(),
                n == self.nodes@.len(),
                m == lv.len(),
                m == self.links@.len(),
                nv == self.node_id_seq(),
                lv == self.link_edge_seq(),
                idv == element_ids(nv, lv),
                idv.no_duplicates(),
                forall|k: int| 0 <= k < total ==> (#[trigger] ids@[k])@ == idv[k],
                in_degree@.len() == total,
                stack@.no_duplicates(),
                out.no_duplicates(),
                forall|k: int| 0 <= k < stack@.len() ==> (#[trigger] stack@[k]) < total,
                forall|k: int| 0 <= k < out.len() ==> 0 <= #[trigger] out[k] < total,
                forall|k: int| 0 <= k < stack@.len() ==> !out.contains(#[trigger] stack@[k] as int),
                out.len() <= total,
                byte_seqs(sorted@) == Seq::new(out.len(), |k: int| idv[out[k]]),
                forall|x: int|
                    0 <= x < n ==> #[trigger] in_degree@[x] == 0 && (stack@.contains(x as usize) || out.contains(x)),
                forall|y: int|
                    #![trigger lv[y]]
                    0 <= y < m ==> {
                        let placed = byte_seqs(sorted@).contains(lv[y].1);
                        &&& in_degree@[n + y] == (if placed { 0usize } else { 1usize })
                        &&& (stack@.contains((n + y) as usize) || out.contains(n + y)) <==> placed
                    },
                forall|k: int|
                    #![trigger out[k]]
                    0 <= k < out.len() && out[k] >= n ==> exists|p: int|
                        0 <= p < k && #[trigger] byte_seqs(sorted@)[p] == lv[out[k] - n].1,
            decreases total - out.len(),
        {
            let ghost stack0 = stack@;
            let current = stack.pop().unwrap();
            let ghost before = byte_seqs(sorted@);
            let ghost out0 = out;
            proof {
                assert(stack0 == stack@.push(current));
                assert(stack0[stack0.len() - 1] == current);
                assert(!out0.contains(current as int));
                assert forall|k: int| 0 <= k < stack@.len() implies stack0[k] == #[trigger] stack@[k] by {}
            }
            sorted.push(clone_bytes(&ids[current]));
            proof {
                out = out.push(current as int);
                assert(byte_seqs(sorted@) =~= before.push(idv[current as int]));
                assert(byte_seqs(sorted@) =~= Seq::new(out.len(), |k: int| idv[out[k]]));
                assert forall|k1: int, k2: int| 0 <= k1 < k2 < out.len() implies out[k1] != out[k2] by {
                    if k2 == out.len() - 1 {
                        assert(out0[k1] == out[k1]);
                    }
                }
                lemma_bounded_len(out, total as int);
                // the element just placed was not placed before
                assert forall|v: usize| stack0.contains(v) <==> (stack@.contains(v) || v == current) by {
                    if stack0.contains(v) && v != current {
                        let k = choose|k: int| 0 <= k < stack0.len() && stack0[k] == v;
                        assert(k < stack@.len());
                        assert(stack@[k] == v);
                    }
                    if stack@.contains(v) {
                        let k = choose|k: int| 0 <= k < stack@.len() && stack@[k] == v;
                        assert(stack0[k] == v);
                    }
                }
                assert forall|x: int| out.contains(x) <==> (out0.contains(x) || x == current as int) by {
                    if out.contains(x) && x != current as int {
                        let k = choose|k: int| 0 <= k < out.len() && out[k] == x;
                        assert(out0[k] == x);
                    }
                    if out0.contains(x) {
                        let k = choose|k: int| 0 <= k < out0.len() && out0[k] == x;
                        assert(out[k] == x);
                    }
                    if x == current as int {
                        assert(out[out0.len() as int] == x);
                    }
                }
                assert forall|k: int| 0 <= k < stack@.len() implies !out.contains(#[trigger] stack@[k] as int) by {
                    assert(stack0[k] == stack@[k]);
                    assert(stack0.contains(stack@[k]));
                    assert(stack@[k] != current);
                }
                assert forall|x: int|
                    0 <= x < n implies #[trigger] in_degree@[x] == 0 && (stack@.contains(x as usize) || out.contains(x)) by {
                    assert(in_degree@[x] == 0);
                    assert(stack0.contains(x as usize) || out0.contains(x));
                }
                assert(!before.contains(idv[current as int])) by {
                    if before.contains(idv[current as int]) {
                        let k = choose|k: int| 0 <= k < before.len() && before[k] == idv[current as int];
                        assert(idv[out0[k]] == idv[current as int]);
                        assert(out0[k] == current as int);
                    }
                }
            }
            let ghost after = byte_seqs(sorted@);
            let mut j: usize = 0;
            while j < m
                invariant
                    total == ids@.len(),
                    total == idv.len(),
                    total == n + m,
                    n == nv.len(),
                    n == self.nodes@.len(),
                    m == lv.len(),
                    m == self.links@.len(),
                    nv == self.node_id_seq(),
                    lv == self.link_edge_seq(),
                    idv == element_ids(nv, lv),
                    forall|k: int| 0 <= k < total ==> (#[trigger] ids@[k])@ == idv[k],
                    0 <= j <= m,
                    current < total,
                    in_degree@.len() == total,
                    stack@.no_duplicates(),
                    forall|k: int| 0 <= k < stack@.len() ==> (#[trigger] stack@[k]) < total,
                    forall|k: int| 0 <= k < stack@.len() ==> !out.contains(#[trigger] stack@[k] as int),
                    out == out0.push(current as int),
                    after == before.push(idv[current as int]),
                    byte_seqs(sorted@) == after,
                    !before.contains(idv[current as int]),
                    forall|x: int|
                        0 <= x < n ==> #[trigger] in_degree@[x] == 0 && (stack@.contains(x as usize) || out.contains(x)),
                    forall|y: int|
                        #![trigger lv[y]]
                        0 <= y < m ==> {
                            let placed = if y < j { after.contains(lv[y].1) } else { before.contains(lv[y].1) };
                            &&& in_degree@[n + y] == (if placed { 0usize } else { 1usize })
                            &&& (stack@.contains((n + y) as usize) || out.contains(n + y)) <==> placed
                        },
                decreases m - j,
            {
                let ghost stack1 = stack@;
                let ghost deg1 = in_degree@;
                proof {
                    let _ = lv[j as int];
                    assert(after.contains(lv[j as int].1) <==> (before.contains(lv[j as int].1) || lv[j as int].1 == idv[current as int])) by {
                        if after.contains(lv[j as int].1) && lv[j as int].1 != idv[current as int] {
                            let k = choose|k: int| 0 <= k < after.len() && after[k] == lv[j as int].1;
                            assert(before[k] == after[k]);
                        }
                        if before.contains(lv[j as int].1) {
                            let k = choose|k: int| 0 <= k < before.len() && before[k] == lv[j as int].1;
                            assert(after[k] == before[k]);
                        }
                        if lv[j as int].1 == idv[current as int] {
                            assert(after[before.len() as int] == idv[current as int]);
                        }
                    }
                }
                if bytes_eq(self.links[j].adapter_id.as_slice(), ids[current].as_slice()) {
                    assert(lv[j as int].1 == idv[current as int]);
                    assert(in_degree@[n + j] == 1usize);
                    let d = in_degree[n + j] - 1;
                    in_degree.set(n + j, d);
                    proof {
                        assert(!stack@.contains((n + j) as usize));
                        assert(!out.contains((n + j) as int));
                    }
                    stack.push(n + j);
                    proof {
                        assert forall|k1: int, k2: int| 0 <= k1 < k2 < stack@.len() implies stack@[k1] != stack@[k2] by {
                            if k2 == stack@.len() - 1 {
                                assert(stack1[k1] == stack@[k1]);
                                assert(stack1.contains(stack@[k1]));
                            }
                        }
                        assert(stack@[stack@.len() - 1] == (n + j) as usize);
                        assert(stack@.contains((n + j) as usize));
                        assert forall|v: usize| stack1.contains(v) implies stack@.contains(v) by {
                            let k = choose|k: int| 0 <= k < stack1.len() && stack1[k] == v;
                            assert(stack@[k] == v);
                        }
                        assert forall|v: usize| stack@.contains(v) && v != (n + j) as usize implies stack1.contains(v) by {
                            let k = choose|k: int| 0 <= k < stack@.len() && stack@[k] == v;
                            if k < stack1.len() {
                                assert(stack1[k] == v);
                            }
                        }
                        assert forall|k: int| 0 <= k < stack@.len() implies !out.contains(#[trigger] stack@[k] as int) by {
                            if k < stack1.len() {
                                assert(stack1[k] == stack@[k]);
                            }
                        }
                        assert forall|x: int|
                            0 <= x < n implies #[trigger] in_degree@[x] == 0 && (stack@.contains(x as usize) || out.contains(x)) by {
                            assert(in_degree@[x] == deg1[x]);
                            if stack1.contains(x as usize) {
                                assert(stack@.contains(x as usize));
                            }
                        }
                        assert forall|y: int|
                            #![trigger lv[y]]
                            0 <= y < m implies {
                                let placed = if y < j + 1 { after.contains(lv[y].1) } else { before.contains(lv[y].1) };
                                &&& in_degree@[n + y] == (if placed { 0usize } else { 1usize })
                                &&& (stack@.contains((n + y) as usize) || out.contains(n + y)) <==> placed
                            } by {
                            if y != j {
                                assert(in_degree@[n + y] == deg1[n + y]);
                                assert(stack@.contains((n + y) as usize) <==> stack1.contains((n + y) as usize));
                            }
                        }
                    }
                } else {
                    assert(lv[j as int].1 != idv[current as int]);
                }
                j = j + 1;
            }
            proof {
                assert forall|k: int|
                    #![trigger out[k]]
                    0 <= k < out.len() && out[k] >= n implies exists|p: int|
                        0 <= p < k && #[trigger] byte_seqs(sorted@)[p] == lv[out[k] - n].1 by {
                    if k < out0.len() {
                        assert(out0[k] == out[k]);
                        let p = choose|p: int| 0 <= p < k && #[trigger] before[p] == lv[out0[k] - n].1;
                        assert(after[p] == before[p]);
                    } else {
                        let y = current as int - n;
                        let _ = lv[y];
                        assert(stack0.contains(current));
                        assert(stack0.contains((n + y) as usize));
                        assert(before.contains(lv[y].1));
                        let p = choose|p: int| 0 <= p < before.len() && before[p] == lv[y].1;
                        assert(after[p] == before[p]);
                    }
                }
                assert forall|k1: int, k2: int| 0 <= k1 < k2 < out.len() implies out[k1] != out[k2] by {}
            }
        }
        let ghost done = byte_seqs(sorted@);
        proof {
            assert(stack@.len() == 0);
            assert forall|i: int| 0 <= i < n implies done.contains(#[trigger] nv[i]) by {
                assert(in_degree@[i] == 0);
                assert(!stack@.contains(i as usize));
                assert(out.contains(i));
                let k = choose|k: int| 0 <= k < out.len() && out[k] == i;
                assert(done[k] == idv[i]);
                assert(idv[i] == nv[i]);
            }
            assert forall|y: int| 0 <= y < m && done.contains(#[trigger] lv[y].1) implies done.contains(lv[y].0) by {
                let _ = lv[y];
                assert(!stack@.contains((n + y) as usize));
                assert(out.contains(n + y));
                let k = choose|k: int| 0 <= k < out.len() && out[k] == n + y;
                assert(done[k] == idv[n + y]);
                assert(idv[n + y] == lv[y].0);
            }
            assert(done.no_duplicates()) by {
                assert forall|k1: int, k2: int| 0 <= k1 < k2 < done.len() implies done[k1] != done[k2] by {
                    assert(done[k1] == idv[out[k1]]);
                    assert(done[k2] == idv[out[k2]]);
                }
            }
            assert forall|k: int| 0 <= k < done.len() implies idv.contains(#[trigger] done[k]) by {
                assert(done[k] == idv[out[k]]);
            }
        }
        if sorted.len() != total {
            proof {
                assert forall|order: Seq<Seq<u8>>| !is_run_order(nv, lv, order) by {
                    if is_run_order(nv, lv, order) {
                        assert forall|q: int| 0 <= q < order.len() implies done.contains(#[trigger] order[q]) by {
                            lemma_closed_covers_order(nv, lv, done, order, q);
                        }
                        assert forall|i: int| 0 <= i < idv.len() implies done.contains(#[trigger] idv[i]) by {
                            assert(order.contains(idv[i]));
                            let q = choose|q: int| 0 <= q < order.len() && order[q] == idv[i];
                        }
                        lemma_same_entries_len(done, idv);
                    }
                }
                assert(closed_under_links(nv, lv, done));
                assert(exists|i: int| 0 <= i < idv.len() && !done.contains(#[trigger] idv[i])) by {
                    if forall|i: int| 0 <= i < idv.len() ==> done.contains(#[trigger] idv[i]) {
                        lemma_same_entries_len(done, idv);
                    }
                }
                let i = choose|i: int| 0 <= i < idv.len() && !done.contains(#[trigger] idv[i]);
                assert(!reached(nv, lv, idv[i]));
            }
            return Err(crate::text::owned("Cyclic dependency detected in the workflow"));
        }
        proof {
            lemma_full_range(out, total as int);
            assert forall|i: int| 0 <= i < idv.len() implies done.contains(#[trigger] idv[i]) by {
                assert(out.contains(i));
                let k = choose|k: int| 0 <= k < out.len() && out[k] == i;
                assert(done[k] == idv[i]);
            }
            assert forall|y: int| 0 <= y < lv.len() implies #[trigger] comes_after_parent(done, lv[y]) by {
                assert(out.contains(n + y));
                let q = choose|q: int| 0 <= q < out.len() && out[q] == n + y;
                assert(done[q] == idv[n + y]);
                assert(out[q] >= n);
                let p = choose|p: int| 0 <= p < q && #[trigger] done[p] == lv[out[q] - n].1;
                assert(done[p] == lv[y].1 && done[q] == lv[y].0);
            }
            assert(done.len() == idv.len());
            assert forall|k: int| 0 <= k < done.len() implies idv.contains(#[trigger] done[k]) by {}
            assert(done.no_duplicates());
            assert(forall|k: int| 0 <= k < done.len() ==> idv.contains(#[trigger] done[k]));
            assert(forall|i: int| 0 <= i < idv.len() ==> done.contains(#[trigger] idv[i]));
            assert(is_run_order(nv, lv, done));
            assert forall|i: int| 0 <= i < idv.len() implies reached(nv, lv, #[trigger] idv[i]) by {
                let q = choose|q: int| 0 <= q < done.len() && done[q] == idv[i];
                assert forall|d: Seq<Seq<u8>>| #[trigger] closed_under_links(nv, lv, d) implies d.contains(idv[i]) by {
                    lemma_closed_covers_order(nv, lv, d, done, q);
                }
            }
        }
        Ok(sorted)
    }
}

/// A duplicate-free list of n entries from [0, n) holds each of them.
proof fn lemma_full_range(s: Seq<int>, n: int)
    requires
        s.no_duplicates(),
        s.len() == n,
        forall|k: int| 0 <= k < s.len() ==> 0 <= #[trigger] s[k] < n,
    ensures
        forall|i: int| 0 <= i < n ==> s.contains(i),
{
    vstd::set_lib::lemma_int_range(0, n);
    let r = vstd::set_lib::set_int_range(0, n);
    assert(s.to_set().subset_of(r)) by {
        assert forall|x: int| s.to_set().contains(x) implies r.contains(x) by {
            let k = choose|k: int| 0 <= k < s.len() && s[k] == x;
        }
    }
    vstd::set_lib::lemma_len_subset(s.to_set(), r);
    s.unique_seq_to_set();
    vstd::set_lib::lemma_subset_equality(s.to_set(), r);
    assert forall|i: int| 0 <= i < n implies s.contains(i) by {
        assert(r.contains(i));
        assert(s.to_set().contains(i));
    }
}

} // verus!
