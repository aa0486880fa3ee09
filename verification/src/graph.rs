//! The graph model: typed nodes sized for collision, typed edges, and a
//! well-formedness invariant that keeps every edge endpoint in range.

use vstd::prelude::*;

use crate::geometry::size_ok;
use crate::geometry::Size;
use crate::route::EdgeKind;

verus! {

/// A node: an extent (from which its collision radius derives) and an
/// opaque label.
#[derive(Clone, Debug)]
pub struct GraphNode {
    pub size: Size,
    pub label: String,
}

pub open spec fn node_ok(n: GraphNode) -> bool {
    size_ok(n.size)
}

/// A directed edge between two node indices, with its relationship kind.
#[derive(Clone, Copy, Debug)]
pub struct GraphEdge {
    pub source: usize,
    pub target: usize,
    pub kind: EdgeKind,
}

/// A directed graph over indexed nodes.
#[derive(Clone, Debug)]
pub struct Graph {
    pub nodes: Vec<GraphNode>,
    pub edges: Vec<GraphEdge>,
}

impl Graph {
    /// Every node has a positive, bounded extent, and every edge endpoint
    /// names an existing node.
    pub open spec fn wf(self) -> bool {
        &&& (forall|i: int| 0 <= i < self.nodes@.len() ==> node_ok(#[trigger] self.nodes@[i]))
        &&& (forall|i: int|
            0 <= i < self.edges@.len() ==> (#[trigger] self.edges@[i]).source < self.nodes@.len()
                && self.edges@[i].target < self.nodes@.len())
    }

    pub fn new() -> (g: Graph)
        ensures
            g.wf(),
            g.nodes@.len() == 0,
            g.edges@.len() == 0,
    {
        Graph { nodes: Vec::new(), edges: Vec::new() }
    }

    /// Append a node; its identity is the index handed back.
    pub fn add_node(&mut self, size: Size, label: String) -> (idx: usize)
        requires
            old(self).wf(),
            size_ok(size),
            old(self).nodes@.len() < usize::MAX,
        ensures
            final (self).wf(),
            idx == old(self).nodes@.len(),
            final (self).nodes@ == old(self).nodes@.push(GraphNode { size, label }),
            final (self).edges@ == old(self).edges@,
    {
        let idx = self.nodes.len();
        self.nodes.push(GraphNode { size, label });
        idx
    }

    /// Append a directed edge between two existing nodes.
    pub fn add_edge(&mut self, source: usize, target: usize, kind: EdgeKind)
        requires
            old(self).wf(),
            source < old(self).nodes@.len(),
            target < old(self).nodes@.len(),
            old(self).edges@.len() < usize::MAX,
        ensures
            final (self).wf(),
            final (self).edges@ == old(self).edges@.push(GraphEdge { source, target, kind }),
            final (self).nodes@ == old(self).nodes@,
    {
        self.edges.push(GraphEdge { source, target, kind });
    }

    pub fn node_count(&self) -> (n: usize)
        ensures
            n == self.nodes@.len(),
    {
        self.nodes.len()
    }

    pub fn edge_count(&self) -> (n: usize)
        ensures
            n == self.edges@.len(),
    {
        self.edges.len()
    }
}

} // verus!
