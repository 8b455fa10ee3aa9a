use relgraph::errors::GraphError;
use relgraph::graph::RelGraph;
use relgraph::registry::{EntityRegistry, Fighter};

#[test]
fn fighter_new_keeps_name() {
    let fighter = Fighter::new("John");
    assert_eq!(fighter.name(), "John");
}

#[test]
fn registry_issues_sequential_ids_and_returns_labels() {
    let mut reg = EntityRegistry::new();
    assert_eq!(reg.len(), 0);
    let a = reg.add("Alice");
    let b = reg.add("Bob");
    let c = reg.add("Alice"); // labels may repeat
    assert_eq!((a, b, c), (0, 1, 2));
    assert_eq!(reg.len(), 3);
    assert_eq!(reg.get_label(a).unwrap(), "Alice");
    assert_eq!(reg.get_label(b).unwrap(), "Bob");
    assert_eq!(reg.get_label(c).unwrap(), "Alice");
}

#[test]
fn registry_unknown_id_is_not_found() {
    let mut reg = EntityRegistry::new();
    reg.add("Alice");
    assert_eq!(reg.get_label(1), Err(GraphError::NotFound));
    assert_eq!(reg.get_label(u64::MAX), Err(GraphError::NotFound));
    let empty = EntityRegistry::new();
    assert_eq!(empty.get_label(0), Err(GraphError::NotFound));
}

#[test]
fn edge_is_symmetric_for_degree() {
    let mut g = RelGraph::new_undirected();
    let a = g.add_node(0).unwrap();
    let b = g.add_node(1).unwrap();
    let c = g.add_node(2).unwrap();
    assert_eq!(g.degree(a).unwrap(), 0);
    assert_eq!(g.degree(b).unwrap(), 0);
    g.add_edge(a, b, 1).unwrap();
    // the one edge contributes exactly 1 to each endpoint and 0 elsewhere
    assert_eq!(g.degree(a).unwrap(), 1);
    assert_eq!(g.degree(b).unwrap(), 1);
    assert_eq!(g.degree(c).unwrap(), 0);
}

#[test]
fn edge_direction_of_insertion_does_not_matter() {
    let mut g = RelGraph::new_undirected();
    let a = g.add_node(0).unwrap();
    let b = g.add_node(1).unwrap();
    g.add_edge(b, a, 1).unwrap();
    assert_eq!(g.degree(a).unwrap(), 1);
    assert_eq!(g.degree(b).unwrap(), 1);
}

#[test]
fn parallel_edges_each_count() {
    // the graph permits parallel edges; callers must not rely on dedup
    let mut g = RelGraph::new_undirected();
    let a = g.add_node(0).unwrap();
    let b = g.add_node(1).unwrap();
    g.add_edge(a, b, 1).unwrap();
    g.add_edge(a, b, 1).unwrap();
    assert_eq!(g.degree(a).unwrap(), 2);
    assert_eq!(g.degree(b).unwrap(), 2);
    assert_eq!(g.edge_count(), 2);
}

#[test]
fn edge_count_follows_insertions() {
    let mut g = RelGraph::new_undirected();
    let a = g.add_node(0).unwrap();
    let b = g.add_node(1).unwrap();
    let c = g.add_node(2).unwrap();
    assert_eq!(g.edge_count(), 0);
    g.add_edge(a, b, 1).unwrap();
    assert_eq!(g.edge_count(), 1);
    g.add_edge(b, c, 1).unwrap();
    assert_eq!(g.edge_count(), 2);
    // rejected insertions change nothing
    assert_eq!(g.add_edge(c, c, 1), Err(GraphError::SelfLoop));
    assert_eq!(g.edge_count(), 2);
}

#[test]
fn degree_of_unknown_node_fails() {
    let mut big = RelGraph::new_undirected();
    for id in 0..4 {
        big.add_node(id).unwrap();
    }
    let stray = big.add_node(9).unwrap(); // position 4
    let mut small = RelGraph::new_undirected();
    small.add_node(0).unwrap();
    assert_eq!(small.degree(stray), Err(GraphError::UnknownNode));
}

#[test]
fn add_edge_with_unknown_node_fails_and_changes_nothing() {
    let mut big = RelGraph::new_undirected();
    big.add_node(0).unwrap();
    big.add_node(1).unwrap();
    let stray = big.add_node(2).unwrap();
    let mut g = RelGraph::new_undirected();
    let a = g.add_node(0).unwrap();
    g.add_node(1).unwrap();
    assert_eq!(g.add_edge(a, stray, 1), Err(GraphError::UnknownNode));
    assert_eq!(g.add_edge(stray, a, 1), Err(GraphError::UnknownNode));
    assert_eq!(g.degree(a).unwrap(), 0);
}

#[test]
fn self_loop_is_rejected() {
    let mut g = RelGraph::new_undirected();
    let a = g.add_node(0).unwrap();
    assert_eq!(g.add_edge(a, a, 1), Err(GraphError::SelfLoop));
    assert_eq!(g.degree(a).unwrap(), 0);
}

#[test]
fn duplicate_node_is_rejected() {
    let mut g = RelGraph::new_undirected();
    let a = g.add_node(7).unwrap();
    g.add_node(8).unwrap();
    assert_eq!(g.add_node(7), Err(GraphError::DuplicateNode));
    assert_eq!(g.node_count(), 2);
    assert_eq!(a.index(), 0);
}

#[test]
fn node_handles_are_positions_in_insertion_order() {
    let mut g = RelGraph::new_undirected();
    let a = g.add_node(40).unwrap();
    let b = g.add_node(41).unwrap();
    let c = g.add_node(42).unwrap();
    assert_eq!((a.index(), b.index(), c.index()), (0, 1, 2));
    assert_eq!(g.node_count(), 3);
}
