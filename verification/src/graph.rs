use vstd::prelude::*;

use crate::errors::GraphError;
use petgraph::graph::UnGraph;

verus! {

// ---------------------------------------------------------------------------
// The backing store: a petgraph undirected graph. The node weights are entity
// identifiers and the edge weights are plain scalars. Verus sees the store
// through the two names below and the contracts of the wrappers around the
// petgraph calls.
// ---------------------------------------------------------------------------

#[verifier::external_type_specification]
#[verifier::external_body]
#[verifier::reject_recursive_types(N)]
#[verifier::reject_recursive_types(E)]
#[verifier::reject_recursive_types(Ty)]
#[verifier::reject_recursive_types(Ix)]
pub struct ExGraph<N, E, Ty, Ix>(petgraph::graph::Graph<N, E, Ty, Ix>);

#[verifier::external_type_specification]
#[verifier::external_body]
pub struct ExUndirected(petgraph::Undirected);

/// The node weights the backing graph holds, in insertion order. The node
/// with petgraph index `i` carries the weight at position `i`.
pub uninterp spec fn stored_nodes(g: UnGraph<u64, u64>) -> Seq<u64>;

/// The edges the backing graph holds, as pairs of node indices, in insertion
/// order, each pair listed as it was passed to `add_edge`.
pub uninterp spec fn stored_edges(g: UnGraph<u64, u64>) -> Seq<(nat, nat)>;

/// How many of the edges in `es` touch the node index `v`: an edge counts
/// once whether `v` is its first endpoint, its second, or both.
pub open spec fn incident_count(es: Seq<(nat, nat)>, v: nat) -> nat
    decreases es.len(),
{
    if es.len() == 0 {
        0
    } else {
        incident_count(es.drop_last(), v) + if es.last().0 == v || es.last().1 == v {
            1nat
        } else {
            0nat
        }
    }
}

/// Relies on petgraph's `Graph::new_undirected`: a graph with no nodes and no
/// edges.
#[verifier::external_body]
fn backing_new() -> (g: UnGraph<u64, u64>)
    ensures
        stored_nodes(g) == Seq::<u64>::empty(),
        stored_edges(g) == Seq::<(nat, nat)>::empty(),
{
    UnGraph::new_undirected()
}

/// Relies on petgraph's `Graph::add_node`: appends one node and returns its
/// index, which equals the node count before the call. The call panics once
/// the node count reaches the index type's maximum, so that count is kept
/// below it.
#[verifier::external_body]
fn backing_add_node(g: &mut UnGraph<u64, u64>, w: u64) -> (i: usize)
    requires
        stored_nodes(*old(g)).len() < u32::MAX,
    ensures
        stored_nodes(*final(g)) == stored_nodes(*old(g)).push(w),
        stored_edges(*final(g)) == stored_edges(*old(g)),
        i == stored_nodes(*old(g)).len(),
{
    g.add_node(w).index()
}

/// Relies on petgraph's `Graph::add_edge`: appends one edge between the two
/// node indices and leaves the node weights alone. The call panics if an
/// endpoint is out of bounds or the edge count has reached the index type's
/// maximum, so both are excluded here.
#[verifier::external_body]
fn backing_add_edge(g: &mut UnGraph<u64, u64>, a: usize, b: usize, w: u64)
    requires
        a < stored_nodes(*old(g)).len(),
        b < stored_nodes(*old(g)).len(),
        stored_edges(*old(g)).len() < u32::MAX,
    ensures
        stored_nodes(*final(g)) == stored_nodes(*old(g)),
        stored_edges(*final(g)) == stored_edges(*old(g)).push((a as nat, b as nat)),
{
    g.add_edge(
        petgraph::graph::NodeIndex::new(a),
        petgraph::graph::NodeIndex::new(b),
        w,
    );
}

/// Relies on petgraph's `Graph::edge_count`: the number of edges held.
#[verifier::external_body]
fn backing_edge_count(g: &UnGraph<u64, u64>) -> (n: usize)
    ensures
        n == stored_edges(*g).len(),
{
    g.edge_count()
}

/// Relies on petgraph's `Graph::edges_directed` and `Iterator::count`: on an
/// undirected graph the iterator visits every edge incident to the node,
/// self-loops once, so the count is the number of incident edges.
#[verifier::external_body]
fn backing_degree(g: &UnGraph<u64, u64>, i: usize) -> (d: usize)
    requires
        i < stored_nodes(*g).len(),
    ensures
        d == incident_count(stored_edges(*g), i as nat),
{
    g.edges_directed(petgraph::graph::NodeIndex::new(i), petgraph::Direction::Outgoing).count()
}

// ---------------------------------------------------------------------------
// The verified graph.
// ---------------------------------------------------------------------------

/// An opaque handle to a node of a `RelGraph`, produced by `add_node`. Its
/// view is the node's position in insertion order.
#[derive(Clone, Copy, Debug, PartialEq, Eq, Structural)]
pub struct NodeHandle {
    index: usize,
}

impl View for NodeHandle {
    type V = nat;

    closed spec fn view(&self) -> nat {
        self.index as nat
    }
}

impl NodeHandle {
    /// The node's position in insertion order.
    pub fn index(&self) -> (i: usize)
        ensures
            i == self@,
    {
        self.index
    }
}

/// An undirected graph over entity identifiers, backed by a petgraph
/// `UnGraph`. Beside the store it keeps a mirror of the node weights, so the
/// duplicate check on insertion is ordinary verified code.
pub struct RelGraph {
    inner: UnGraph<u64, u64>,
    ids: Vec<u64>,
}

/// Whether an edge may stand in a graph of `n` nodes: both endpoints are
/// valid node positions and distinct.
pub open spec fn edge_ok(e: (nat, nat), n: nat) -> bool {
    e.0 < n && e.1 < n && e.0 != e.1
}

impl RelGraph {
    /// The entity identifiers of the nodes, in insertion order; a handle `h`
    /// refers to `node_ids()[h@]`.
    pub closed spec fn node_ids(self) -> Seq<u64> {
        self.ids@
    }

    /// The edges, as pairs of node positions, in insertion order.
    pub closed spec fn edge_list(self) -> Seq<(nat, nat)> {
        stored_edges(self.inner)
    }

    /// The degree of the node at position `v`: how many edges touch it.
    pub open spec fn spec_degree(self, v: nat) -> nat {
        incident_count(self.edge_list(), v)
    }

    /// Well-formed: the mirror of identifiers matches the backing store, the
    /// identifiers are pairwise distinct, and every edge joins two distinct
    /// valid nodes.
    pub closed spec fn wf(self) -> bool {
        &&& self.ids@ == stored_nodes(self.inner)
        &&& forall|i: int, j: int|
            0 <= i < j < self.ids@.len() ==> self.ids@[i] != self.ids@[j]
        &&& forall|k: int|
            0 <= k < stored_edges(self.inner).len() ==> edge_ok(
                #[trigger] stored_edges(self.inner)[k],
                self.ids@.len(),
            )
    }

    /// An empty undirected graph.
    pub fn new_undirected() -> (g: RelGraph)
        ensures
            g.wf(),
            g.node_ids() == Seq::<u64>::empty(),
            g.edge_list() == Seq::<(nat, nat)>::empty(),
    {
        RelGraph { inner: backing_new(), ids: Vec::new() }
    }

    /// How many nodes the graph has.
    pub fn node_count(&self) -> (n: usize)
        ensures
            n == self.node_ids().len(),
    {
        self.ids.len()
    }

    /// How many edges the graph has, parallel edges each counted.
    pub fn edge_count(&self) -> (n: usize)
        ensures
            n == self.edge_list().len(),
    {
        backing_edge_count(&self.inner)
    }

    /// Registers a node keyed by the entity identifier `id` and returns its
    /// handle. Fails with `DuplicateNode`, and changes nothing, if `id` was
    /// already added to this graph.
    pub fn add_node(&mut self, id: u64) -> (r: Result<NodeHandle, GraphError>)
        requires
            old(self).wf(),
            old(self).node_ids().len() < u32::MAX,
        ensures
            final(self).wf(),
            old(self).node_ids().contains(id) ==> {
                &&& r == Err::<NodeHandle, GraphError>(GraphError::DuplicateNode)
                &&& *final(self) == *old(self)
            },
            !old(self).node_ids().contains(id) ==> {
                &&& r matches Ok(h) && h@ == old(self).node_ids().len()
                &&& final(self).node_ids() == old(self).node_ids().push(id)
                &&& final(self).edge_list() == old(self).edge_list()
            },
    {
        let n = self.ids.len();
        let mut k: usize = 0;
        while k < n
            invariant
                *self == *old(self),
                old(self).wf(),
                n == self.ids@.len(),
                k <= n,
                forall|j: int| 0 <= j < k ==> self.ids@[j] != id,
            decreases n - k,
        {
            if self.ids[k] == id {
                assert(self.ids@.contains(id));
                return Err(GraphError::DuplicateNode);
            }
            k += 1;
        }
        assert(!self.ids@.contains(id));
        let i = backing_add_node(&mut self.inner, id);
        self.ids.push(id);
        Ok(NodeHandle { index: i })
    }

    /// Inserts an undirected edge between the nodes `a` and `b`, carrying the
    /// given weight. Fails with `UnknownNode` if either handle is not a node
    /// of this graph, and otherwise with `SelfLoop` if the two handles name
    /// the same node; in both cases the graph is unchanged.
    pub fn add_edge(&mut self, a: NodeHandle, b: NodeHandle, weight: u64) -> (r: Result<
        (),
        GraphError,
    >)
        requires
            old(self).wf(),
            old(self).edge_list().len() < u32::MAX,
        ensures
            final(self).wf(),
            final(self).node_ids() == old(self).node_ids(),
            a@ >= old(self).node_ids().len() || b@ >= old(self).node_ids().len() ==> {
                &&& r == Err::<(), GraphError>(GraphError::UnknownNode)
                &&& *final(self) == *old(self)
            },
            a@ < old(self).node_ids().len() && b@ < old(self).node_ids().len() && a@ == b@ ==> {
                &&& r == Err::<(), GraphError>(GraphError::SelfLoop)
                &&& *final(self) == *old(self)
            },
            a@ < old(self).node_ids().len() && b@ < old(self).node_ids().len() && a@ != b@ ==> {
                &&& r == Ok::<(), GraphError>(())
                &&& final(self).edge_list() == old(self).edge_list().push((a@, b@))
            },
    {
        if a.index >= self.ids.len() || b.index >= self.ids.len() {
            return Err(GraphError::UnknownNode);
        }
        if a.index == b.index {
            return Err(GraphError::SelfLoop);
        }
        backing_add_edge(&mut self.inner, a.index, b.index, weight);
        Ok(())
    }

    /// The degree of the node `h`: the count of edges incident to it, each
    /// inserted edge once, so parallel insertions each count. Fails with
    /// `UnknownNode` if `h` is not a node of this graph; it never falls back
    /// to a default count.
    pub fn degree(&self, h: NodeHandle) -> (r: Result<usize, GraphError>)
        requires
            self.wf(),
        ensures
            h@ < self.node_ids().len() ==> (r matches Ok(d) && d == self.spec_degree(h@)),
            h@ >= self.node_ids().len() ==> r == Err::<usize, GraphError>(GraphError::UnknownNode),
    {
        if h.index < self.ids.len() {
            Ok(backing_degree(&self.inner, h.index))
        } else {
            Err(GraphError::UnknownNode)
        }
    }
}

/// Law: the graph is undirected. One inserted edge contributes exactly one to
/// the degree of each of its two endpoints, and nothing to any other node.
pub proof fn lemma_edge_degree_symmetric(es: Seq<(nat, nat)>, a: nat, b: nat, c: nat)
    requires
        a != b,
    ensures
        incident_count(es.push((a, b)), a) == incident_count(es, a) + 1,
        incident_count(es.push((a, b)), b) == incident_count(es, b) + 1,
        c != a && c != b ==> incident_count(es.push((a, b)), c) == incident_count(es, c),
{
    assert(es.push((a, b)).drop_last() =~= es);
    assert(es.push((a, b)).last() == (a, b));
}

} // verus!
