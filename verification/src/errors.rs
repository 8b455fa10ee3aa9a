use vstd::prelude::*;

verus! {

/// The failures that registry construction and graph queries can report.
/// Every operation returns one of these instead of panicking or producing a
/// sentinel value.
#[derive(Clone, Copy, Debug, PartialEq, Eq, Structural)]
pub enum GraphError {
    /// An entity identifier that the registry never issued.
    NotFound,
    /// A node handle that this graph did not produce.
    UnknownNode,
    /// An identifier that was already registered as a node of the graph.
    DuplicateNode,
    /// An edge whose two endpoints are the same node.
    SelfLoop,
    /// A centrality query on a node of degree zero, whose reciprocal is
    /// undefined.
    DivisionByZero,
}

} // verus!
