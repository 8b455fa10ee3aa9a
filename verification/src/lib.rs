//! An undirected relationship graph over uniquely identified entities, with a
//! degree-based centrality score: the closeness centrality of a node is the
//! reciprocal of its degree (a simplified local metric, not the shortest-path
//! one). The graph itself is held in a petgraph `UnGraph`; the logic around
//! it is verified against contracts on that store.

pub mod centrality;
pub mod errors;
pub mod graph;
pub mod registry;
