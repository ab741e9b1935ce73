//! How a block numbers its degrees of freedom, and literal blocks.

use vstd::prelude::*;
use crate::atoms::NodeId;
use crate::containers::mesh::SubMesh;

verus! {

/// How a `(node, variable)` pair of a block maps to a flat matrix index.
#[derive(Clone, Copy, Debug, PartialEq, Eq, Structural)]
pub enum DofOrdering {
    /// Node-major: the variables of a node are contiguous,
    /// `index = node · n_vars + var`.
    NodesThenVars,
    /// Variable-major: the nodes of a variable are contiguous,
    /// `index = var · n_nodes + node`.
    VarsThenNodes,
}

/// The flat index of `(node, var)` in a block of `n_nodes` nodes carrying
/// `n_vars` variables each.
pub open spec fn spec_to_index(o: DofOrdering, node: int, var: int, n_nodes: int, n_vars: int) -> int {
    match o {
        DofOrdering::NodesThenVars => node * n_vars + var,
        DofOrdering::VarsThenNodes => var * n_nodes + node,
    }
}

impl DofOrdering {
    /// The flat index of `(node, var)`; it always lies inside the block.
    pub fn to_index(self, node: usize, var: usize, n_nodes: usize, n_vars: usize) -> (r: usize)
        requires
            node < n_nodes,
            var < n_vars,
            n_nodes * n_vars <= usize::MAX,
        ensures
            r == spec_to_index(self, node as int, var as int, n_nodes as int, n_vars as int),
            r < n_nodes * n_vars,
    {
        proof {
            lemma_to_index_in_block(self, node as int, var as int, n_nodes as int, n_vars as int);
        }
        match self {
            DofOrdering::NodesThenVars => node * n_vars + var,
            DofOrdering::VarsThenNodes => var * n_nodes + node,
        }
    }
}

/// Every `(node, var)` inside the block has its index inside the block.
pub proof fn lemma_to_index_in_block(o: DofOrdering, node: int, var: int, n_nodes: int, n_vars: int)
    requires
        0 <= node < n_nodes,
        0 <= var < n_vars,
    ensures
        0 <= spec_to_index(o, node, var, n_nodes, n_vars) < n_nodes * n_vars,
{
    match o {
        DofOrdering::NodesThenVars => {
            assert(0 <= node * n_vars + var < n_nodes * n_vars) by (nonlinear_arith)
                requires 0 <= node < n_nodes, 0 <= var < n_vars;
        },
        DofOrdering::VarsThenNodes => {
            assert(0 <= var * n_nodes + node < n_nodes * n_vars) by (nonlinear_arith)
                requires 0 <= node < n_nodes, 0 <= var < n_vars;
        },
    }
}

/// Both orderings number the degrees of freedom of a block one-to-one: two
/// distinct `(node, var)` pairs never share an index.
pub proof fn lemma_to_index_injective(
    o: DofOrdering,
    node1: int,
    var1: int,
    node2: int,
    var2: int,
    n_nodes: int,
    n_vars: int,
)
    requires
        0 <= node1 < n_nodes,
        0 <= var1 < n_vars,
        0 <= node2 < n_nodes,
        0 <= var2 < n_vars,
        spec_to_index(o, node1, var1, n_nodes, n_vars) == spec_to_index(o, node2, var2, n_nodes, n_vars),
    ensures
        node1 == node2,
        var1 == var2,
{
    match o {
        DofOrdering::NodesThenVars => {
            assert(node1 == node2 && var1 == var2) by (nonlinear_arith)
                requires
                    0 <= var1 < n_vars,
                    0 <= var2 < n_vars,
                    node1 * n_vars + var1 == node2 * n_vars + var2;
        },
        DofOrdering::VarsThenNodes => {
            assert(node1 == node2 && var1 == var2) by (nonlinear_arith)
                requires
                    0 <= node1 < n_nodes,
                    0 <= node2 < n_nodes,
                    var1 * n_nodes + node1 == var2 * n_nodes + node2;
        },
    }
}

/// One entry of a literal block: the value at `(row_node, row_var)`,
/// `(col_node, col_var)`.
#[derive(Debug)]
pub struct MatrixEntry<V> {
    /// Row node.
    pub row_node: NodeId,
    /// Row (dual) variable.
    pub row_var: String,
    /// Column node.
    pub col_node: NodeId,
    /// Column (primal) variable.
    pub col_var: String,
    /// The value.
    pub value: V,
}

/// A block whose entries are given one by one (a constraint's bordering
/// blocks), with its node supports and variables on each side.
#[derive(Debug)]
pub struct SubMatrix<V> {
    /// Row node support.
    pub row_support: SubMesh,
    /// Column node support.
    pub col_support: SubMesh,
    /// Row (dual) variables.
    pub row_vars: Vec<String>,
    /// Column (primal) variables.
    pub col_vars: Vec<String>,
    /// `(node, variable)` ↔ matrix-index ordering.
    pub ordering: DofOrdering,
    /// Whether the block is symmetric.
    pub symmetric: bool,
    /// The entries, in insertion order.
    pub entries: Vec<MatrixEntry<V>>,
}

impl<V> SubMatrix<V> {
    /// An empty block over the given supports and variables.
    pub fn new(
        row_support: SubMesh,
        col_support: SubMesh,
        row_vars: Vec<String>,
        col_vars: Vec<String>,
        ordering: DofOrdering,
        symmetric: bool,
    ) -> (r: Self)
        ensures
            r.row_support == row_support,
            r.col_support == col_support,
            r.row_vars == row_vars,
            r.col_vars == col_vars,
            r.ordering == ordering,
            r.symmetric == symmetric,
            r.entries@.len() == 0,
    {
        SubMatrix { row_support, col_support, row_vars, col_vars, ordering, symmetric, entries: Vec::new() }
    }

    /// Append the entry `value` at `(row_node, row_var)`, `(col_node, col_var)`.
    pub fn add_entry(&mut self, row_node: NodeId, row_var: String, col_node: NodeId, col_var: String, value: V)
        ensures
            final(self).row_support == old(self).row_support,
            final(self).col_support == old(self).col_support,
            final(self).row_vars == old(self).row_vars,
            final(self).col_vars == old(self).col_vars,
            final(self).ordering == old(self).ordering,
            final(self).symmetric == old(self).symmetric,
            final(self).entries@ == old(self).entries@.push(MatrixEntry { row_node, row_var, col_node, col_var, value }),
    {
        self.entries.push(MatrixEntry { row_node, row_var, col_node, col_var, value });
    }
}

} // verus!
