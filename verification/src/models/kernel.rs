//! The symbolic side of block assembly: where each cell's nodes sit in the
//! node supports of a block, and the `(row, col)` index of every entry a cell
//! contributes — regenerated from those positions rather than stored.

use vstd::prelude::*;
use crate::atoms::NodeId;
use crate::containers::finite_element_space::SubFiniteElementSpace;
use crate::containers::matrix::{DofOrdering, spec_to_index, lemma_to_index_in_block, lemma_to_index_injective};
use crate::containers::mesh::{SubMesh, spec_unique, lemma_unique};
use crate::error::{ModelError, Side};
use std::collections::HashMap;

verus! {

/// Refuse a subspace that declares **no field basis**: a `MODEL_EMBEDDED`
/// subspace leaves the interpolation to its own formulation, so it has no
/// `what` (shape values, curvature, …) to lend.
pub fn require_field_basis(fespace: &SubFiniteElementSpace, what: &str) -> (r: Result<(), ModelError>)
    ensures
        r is Err <==> fespace.interpolation.is_model_embedded_spec(),
        r matches Err(e) ==> e matches ModelError::FieldBasisMissing { what: w } && w@ == what@,
{
    if fespace.interpolation().is_model_embedded() {
        return Err(ModelError::FieldBasisMissing { what: what.to_string() });
    }
    Ok(())
}

/// `i` is the first position of `n` in `s`.
pub open spec fn is_first_position(s: Seq<NodeId>, n: NodeId, i: int) -> bool {
    &&& 0 <= i < s.len()
    &&& s[i] == n
    &&& forall|j: int| 0 <= j < i ==> s[j] != n
}

/// Each entry of `slots` is the first position, in `support`, of the node at
/// the same place in `conn`.
pub open spec fn slots_locate(slots: Seq<u32>, conn: Seq<NodeId>, support: Seq<NodeId>) -> bool {
    &&& slots.len() == conn.len()
    &&& forall|k: int| 0 <= k < conn.len() ==> is_first_position(support, conn[k], #[trigger] slots[k] as int)
}

/// Every node of `conn` is in `support`.
pub open spec fn all_in(conn: Seq<NodeId>, support: Seq<NodeId>) -> bool {
    forall|k: int| 0 <= k < conn.len() ==> support.contains(#[trigger] conn[k])
}

/// The first node of `conn` that is not in `support`.
pub open spec fn first_stray(conn: Seq<NodeId>, support: Seq<NodeId>, node: NodeId) -> bool {
    exists|k: int|
        0 <= k < conn.len() && conn[k] == node && !support.contains(node) && (forall|j: int|
            0 <= j < k ==> support.contains(#[trigger] conn[j]))
}

/// Node → position in a support (first occurrence wins).
fn position_map(nodes: &[NodeId]) -> (m: HashMap<NodeId, u32>)
    requires
        nodes@.len() <= u32::MAX + 1,
    ensures
        forall|n: NodeId| #[trigger] m@.contains_key(n) <==> nodes@.contains(n),
        forall|n: NodeId| #[trigger] m@.contains_key(n) ==> is_first_position(nodes@, n, m@[n] as int),
{
    let mut m: HashMap<NodeId, u32> = HashMap::with_capacity(nodes.len());
    let mut i: usize = 0;
    while i < nodes.len()
        invariant
            i <= nodes@.len(),
            nodes@.len() <= u32::MAX + 1,
            forall|n: NodeId| #[trigger] m@.contains_key(n) <==> nodes@.take(i as int).contains(n),
            forall|n: NodeId| #[trigger] m@.contains_key(n) ==> is_first_position(nodes@, n, m@[n] as int),
        decreases nodes@.len() - i,
    {
        let n = nodes[i];
        let ghost pre = nodes@.take(i as int);
        assert(nodes@.take(i + 1) == pre.push(n));
        proof {
            crate::containers::mesh::lemma_push_contains(pre, n);
        }
        if !m.contains_key(&n) {
            assert forall|j: int| 0 <= j < i implies nodes@[j] != n by {
                if nodes@[j] == n {
                    assert(pre[j] == n);
                }
            }
            m.insert(n, i as u32);
        }
        i += 1;
    }
    assert(nodes@.take(i as int) == nodes@);
    m
}

/// Positions of a cell's nodes in a support, refusing a stray node by name.
fn local_positions(ids: &[NodeId], pos: &HashMap<NodeId, u32>, side: Side) -> (r: Result<Vec<u32>, ModelError>)
    ensures
        r is Ok <==> forall|k: int| 0 <= k < ids@.len() ==> pos@.contains_key(#[trigger] ids@[k]),
        r matches Ok(v) ==> v@.len() == ids@.len() && forall|k: int|
            0 <= k < ids@.len() ==> #[trigger] v@[k] == pos@[ids@[k]],
        r matches Err(e) ==> exists|k: int|
            0 <= k < ids@.len() && !pos@.contains_key(ids@[k]) && (forall|j: int|
                0 <= j < k ==> pos@.contains_key(#[trigger] ids@[j])) && e == (ModelError::NodeNotInSupport {
                node: ids@[k],
                side,
            }),
{
    let mut out: Vec<u32> = Vec::new();
    let mut i: usize = 0;
    while i < ids.len()
        invariant
            i <= ids@.len(),
            out@.len() == i,
            forall|k: int| 0 <= k < i ==> pos@.contains_key(#[trigger] ids@[k]),
            forall|k: int| 0 <= k < i ==> #[trigger] out@[k] == pos@[ids@[k]],
        decreases ids@.len() - i,
    {
        let nid = ids[i];
        match pos.get(&nid) {
            Some(p) => {
                out.push(*p);
            },
            None => {
                return Err(ModelError::NodeNotInSupport { node: nid, side });
            },
        }
        i += 1;
    }
    Ok(out)
}

/// The slots of `conn` in `support`, or the first stray node on `side`.
fn locate(conn: &[NodeId], support: &[NodeId], side: Side) -> (r: Result<Vec<u32>, ModelError>)
    requires
        support@.len() <= u32::MAX + 1,
    ensures
        r is Ok <==> all_in(conn@, support@),
        r matches Ok(v) ==> slots_locate(v@, conn@, support@),
        r matches Err(e) ==> exists|node: NodeId|
            first_stray(conn@, support@, node) && e == (ModelError::NodeNotInSupport { node, side }),
{
    let pos = position_map(support);
    let r = local_positions(conn, &pos, side);
    match r {
        Ok(v) => {
            assert forall|k: int| 0 <= k < conn@.len() implies is_first_position(support@, conn@[k], #[trigger] v@[k] as int) by {
                assert(pos@.contains_key(conn@[k]));
            }
            Ok(v)
        },
        Err(e) => {
            proof {
                let k = choose|k: int|
                    0 <= k < conn@.len() && !pos@.contains_key(conn@[k]) && (forall|j: int|
                        0 <= j < k ==> pos@.contains_key(#[trigger] conn@[j])) && e == (ModelError::NodeNotInSupport {
                        node: conn@[k],
                        side,
                    });
                assert(first_stray(conn@, support@, conn@[k]));
            }
            Err(e)
        },
    }
}

/// The subspace that drives a block's cell loop: the first of `fespaces`.
/// Refused, naming the block's driver `what`, when there is none, or when the
/// subspaces do not all lie on the first one's sub-mesh.
pub fn primary_subspace<'a>(what: &str, fespaces: &'a [SubFiniteElementSpace]) -> (r: Result<
    &'a SubFiniteElementSpace,
    ModelError,
>)
    ensures
        r is Ok <==> fespaces@.len() > 0 && forall|i: int|
            0 <= i < fespaces@.len() ==> (#[trigger] fespaces@[i]).submesh@ == fespaces@[0].submesh@,
        r matches Ok(p) ==> *p == fespaces@[0],
        r matches Err(e) ==> if fespaces@.len() == 0 {
            e matches ModelError::NoSubspace { what: w } && w@ == what@
        } else {
            e matches ModelError::SubspacesApart { what: w } && w@ == what@
        },
{
    if fespaces.len() == 0 {
        return Err(ModelError::NoSubspace { what: what.to_string() });
    }
    let primary = &fespaces[0];
    let mut i: usize = 1;
    while i < fespaces.len()
        invariant
            1 <= i <= fespaces@.len(),
            *primary == fespaces@[0],
            forall|k: int| 0 <= k < i ==> (#[trigger] fespaces@[k]).submesh@ == fespaces@[0].submesh@,
        decreases fespaces@.len() - i,
    {
        if !fespaces[i].submesh.same_as(&primary.submesh) {
            return Err(ModelError::SubspacesApart { what: what.to_string() });
        }
        i += 1;
    }
    Ok(primary)
}

/// Width of a cell's gather buffer: nodal values read for one cell.
pub const MAX_CELL_DOFS: usize = 96;

/// Refuse a field read point by point that does not span the subspace's
/// cells and Gauss points, naming its role `what` and both shapes.
pub fn check_point_field(what: &str, cells: usize, gauss: usize, n_cells: usize, n_gauss: usize) -> (r: Result<(), ModelError>)
    ensures
        r is Ok <==> cells == n_cells && gauss == n_gauss,
        r matches Err(e) ==> e matches ModelError::FieldShape {
            what: w,
            cells: c,
            gauss: g,
            expected_cells: ec,
            expected_gauss: eg,
        } && w@ == what@ && c == cells && g == gauss && ec == n_cells && eg == n_gauss,
{
    if cells != n_cells || gauss != n_gauss {
        return Err(ModelError::FieldShape {
            what: what.to_string(),
            cells,
            gauss,
            expected_cells: n_cells,
            expected_gauss: n_gauss,
        });
    }
    Ok(())
}

/// The range `[start, end)` of the row of Gauss point `g` of `cell` in a
/// field of `stride` values per point and `n_gauss` points per cell, rows
/// cell after cell.
pub fn point_row(stride: usize, n_gauss: usize, cell: usize, g: usize) -> (r: (usize, usize))
    requires
        g < n_gauss,
        (cell * n_gauss + g + 1) * stride <= usize::MAX,
    ensures
        r.0 == (cell * n_gauss + g) * stride,
        r.1 == r.0 + stride,
{
    proof {
        assert((cell * n_gauss + g) * stride + stride == (cell * n_gauss + g + 1) * stride) by (nonlinear_arith);
    }
    if stride == 0 {
        proof {
            assert((cell * n_gauss + g) * stride == 0) by (nonlinear_arith)
                requires stride == 0;
        }
        return (0, 0);
    }
    proof {
        let k = cell * n_gauss + g + 1;
        assert(0 <= cell * n_gauss) by (nonlinear_arith);
        assert(k <= k * stride) by (nonlinear_arith)
            requires k >= 1, stride >= 1;
    }
    let start = (cell * n_gauss + g) * stride;
    (start, start + stride)
}

/// The width of a cell's gather of `components` values at each of its
/// `nodes` nodes, refused beyond [`MAX_CELL_DOFS`].
pub fn gather_width(nodes: usize, components: usize) -> (r: Result<usize, ModelError>)
    ensures
        r is Ok <==> nodes * components <= MAX_CELL_DOFS,
        r matches Ok(w) ==> w == nodes * components,
        r matches Err(e) ==> e == (ModelError::GatherTooWide { nodes, components }),
{
    match nodes.checked_mul(components) {
        Some(w) => {
            if w > MAX_CELL_DOFS {
                Err(ModelError::GatherTooWide { nodes, components })
            } else {
                Ok(w)
            }
        },
        None => Err(ModelError::GatherTooWide { nodes, components }),
    }
}

/// `i` is the last position of `n` in `s`.
pub open spec fn is_last_position(s: Seq<NodeId>, n: NodeId, i: int) -> bool {
    &&& 0 <= i < s.len()
    &&& s[i] == n
    &&& forall|j: int| i < j < s.len() ==> s[j] != n
}

/// Node → position in a support, the last occurrence winning.
fn last_position_map(nodes: &[NodeId]) -> (m: HashMap<NodeId, usize>)
    ensures
        forall|n: NodeId| #[trigger] m@.contains_key(n) <==> nodes@.contains(n),
        forall|n: NodeId| #[trigger] m@.contains_key(n) ==> is_last_position(nodes@, n, m@[n] as int),
{
    let mut m: HashMap<NodeId, usize> = HashMap::with_capacity(nodes.len());
    let mut i: usize = 0;
    while i < nodes.len()
        invariant
            i <= nodes@.len(),
            forall|n: NodeId| #[trigger] m@.contains_key(n) <==> nodes@.take(i as int).contains(n),
            forall|n: NodeId| #[trigger] m@.contains_key(n) ==> is_last_position(nodes@.take(i as int), n, m@[n] as int),
        decreases nodes@.len() - i,
    {
        let n = nodes[i];
        let ghost pre = nodes@.take(i as int);
        assert(nodes@.take(i + 1) == pre.push(n));
        proof {
            crate::containers::mesh::lemma_push_contains(pre, n);
        }
        m.insert(n, i);
        proof {
            assert forall|x: NodeId| #[trigger] m@.contains_key(x) implies is_last_position(nodes@.take(i + 1), x, m@[x] as int) by {
                if x != n {
                    assert(pre.contains(x));
                    let p = m@[x] as int;
                    assert(nodes@.take(i + 1)[p] == pre[p]);
                }
            }
        }
        i += 1;
    }
    assert(nodes@.take(i as int) == nodes@);
    m
}

/// Where each node of a connectivity lands in the node support of a nodal
/// vector: its last position there. Refused, naming it, at the first node
/// the support does not cover.
pub fn scatter_slots(conn: &[NodeId], support: &[NodeId]) -> (r: Result<Vec<usize>, ModelError>)
    ensures
        r is Ok <==> all_in(conn@, support@),
        r matches Ok(v) ==> v@.len() == conn@.len() && forall|k: int|
            0 <= k < conn@.len() ==> is_last_position(support@, conn@[k], #[trigger] v@[k] as int),
        r matches Err(e) ==> exists|node: NodeId|
            first_stray(conn@, support@, node) && e == (ModelError::NodeNotInSupport { node, side: Side::Row }),
{
    let pos = last_position_map(support);
    let mut out: Vec<usize> = Vec::new();
    let mut i: usize = 0;
    while i < conn.len()
        invariant
            i <= conn@.len(),
            out@.len() == i,
            forall|n: NodeId| #[trigger] pos@.contains_key(n) <==> support@.contains(n),
            forall|n: NodeId| #[trigger] pos@.contains_key(n) ==> is_last_position(support@, n, pos@[n] as int),
            forall|k: int| 0 <= k < i ==> support@.contains(#[trigger] conn@[k]),
            forall|k: int| 0 <= k < i ==> is_last_position(support@, conn@[k], #[trigger] out@[k] as int),
        decreases conn@.len() - i,
    {
        let nid = conn[i];
        match pos.get(&nid) {
            Some(p) => {
                out.push(*p);
            },
            None => {
                assert(first_stray(conn@, support@, nid));
                return Err(ModelError::NodeNotInSupport { node: nid, side: Side::Row });
            },
        }
        i += 1;
    }
    Ok(out)
}

/// The **symbolic** structure of a block, in compact form: where each cell's
/// nodes sit in the row support and in the column support, plus the DOF layout
/// that turns those positions into `(row, col)` pairs. No geometry, no values.
#[derive(Debug)]
pub struct BlockPattern {
    /// Number of block rows.
    pub nrows: usize,
    /// Number of block columns.
    pub ncols: usize,
    /// Number of cells the block walks.
    pub n_cells: usize,
    /// Row-support position of each entry of the row connectivity,
    /// `n_cells × row_nodes_per_cell`.
    pub row_slot: Vec<u32>,
    /// Column-support position of each entry of the column connectivity,
    /// `n_cells × col_nodes_per_cell`.
    pub col_slot: Vec<u32>,
    /// Nodes per cell on the row side.
    pub row_nodes_per_cell: usize,
    /// Nodes per cell on the column side.
    pub col_nodes_per_cell: usize,
    /// Nodes in the row support.
    pub n_row_support: usize,
    /// Nodes in the column support.
    pub n_col_support: usize,
    /// Dual variables per row node.
    pub n_dual: usize,
    /// Primal variables per column node.
    pub n_primal: usize,
    /// How `(node, variable)` maps to a flat index.
    pub ordering: DofOrdering,
}

impl BlockPattern {
    /// The pattern is consistent: one slot per cell node on each side, every
    /// slot inside its support, and the block sized by its supports.
    pub open spec fn wf(&self) -> bool {
        &&& self.row_slot@.len() == self.n_cells * self.row_nodes_per_cell
        &&& self.col_slot@.len() == self.n_cells * self.col_nodes_per_cell
        &&& forall|k: int| 0 <= k < self.row_slot@.len() ==> #[trigger] self.row_slot@[k] < self.n_row_support
        &&& forall|k: int| 0 <= k < self.col_slot@.len() ==> #[trigger] self.col_slot@[k] < self.n_col_support
        &&& self.nrows == self.n_row_support * self.n_dual
        &&& self.ncols == self.n_col_support * self.n_primal
    }

    /// Block row of local node `li`, dual variable `di` of `cell`.
    pub open spec fn spec_row_index(&self, cell: int, li: int, di: int) -> int {
        spec_to_index(
            self.ordering,
            self.row_slot@[cell * self.row_nodes_per_cell + li] as int,
            di,
            self.n_row_support as int,
            self.n_dual as int,
        )
    }

    /// Block column of local node `lj`, primal variable `pj` of `cell`.
    pub open spec fn spec_col_index(&self, cell: int, lj: int, pj: int) -> int {
        spec_to_index(
            self.ordering,
            self.col_slot@[cell * self.col_nodes_per_cell + lj] as int,
            pj,
            self.n_col_support as int,
            self.n_primal as int,
        )
    }

    /// Whether the pattern is consistent ([`wf`](Self::wf)) — what a pattern
    /// assembled by hand must pass before its indices are regenerated.
    pub fn is_wf(&self) -> (r: bool)
        ensures
            r == self.wf(),
    {
        let row_len = self.n_cells.checked_mul(self.row_nodes_per_cell);
        let col_len = self.n_cells.checked_mul(self.col_nodes_per_cell);
        let nrows = self.n_row_support.checked_mul(self.n_dual);
        let ncols = self.n_col_support.checked_mul(self.n_primal);
        if row_len != Some(self.row_slot.len()) || col_len != Some(self.col_slot.len()) || nrows != Some(self.nrows)
            || ncols != Some(self.ncols) {
            return false;
        }
        let mut k: usize = 0;
        while k < self.row_slot.len()
            invariant
                k <= self.row_slot@.len(),
                forall|j: int| 0 <= j < k ==> #[trigger] self.row_slot@[j] < self.n_row_support,
            decreases self.row_slot@.len() - k,
        {
            if self.row_slot[k] as usize >= self.n_row_support {
                return false;
            }
            k += 1;
        }
        let mut k: usize = 0;
        while k < self.col_slot.len()
            invariant
                k <= self.col_slot@.len(),
                forall|j: int| 0 <= j < k ==> #[trigger] self.col_slot@[j] < self.n_col_support,
            decreases self.col_slot@.len() - k,
        {
            if self.col_slot[k] as usize >= self.n_col_support {
                return false;
            }
            k += 1;
        }
        true
    }

    /// Block-local **row** index of the entry at local node `li`, dual
    /// variable `di` of `cell`. It always lies inside the block.
    pub fn row_index(&self, cell: usize, li: usize, di: usize) -> (r: usize)
        requires
            self.wf(),
            cell < self.n_cells,
            li < self.row_nodes_per_cell,
            di < self.n_dual,
        ensures
            r == self.spec_row_index(cell as int, li as int, di as int),
            r < self.nrows,
    {
        let n_slots = self.row_slot.len();
        proof {
            lemma_cell_slot(cell as int, li as int, self.n_cells as int, self.row_nodes_per_cell as int);
            assert(cell * self.row_nodes_per_cell <= cell * self.row_nodes_per_cell + li < n_slots);
        }
        let p = self.row_slot[cell * self.row_nodes_per_cell + li] as usize;
        self.ordering.to_index(p, di, self.n_row_support, self.n_dual)
    }

    /// Block-local **column** index of the entry at local node `lj`, primal
    /// variable `pj` of `cell`. It always lies inside the block.
    pub fn col_index(&self, cell: usize, lj: usize, pj: usize) -> (r: usize)
        requires
            self.wf(),
            cell < self.n_cells,
            lj < self.col_nodes_per_cell,
            pj < self.n_primal,
        ensures
            r == self.spec_col_index(cell as int, lj as int, pj as int),
            r < self.ncols,
    {
        let n_slots = self.col_slot.len();
        proof {
            lemma_cell_slot(cell as int, lj as int, self.n_cells as int, self.col_nodes_per_cell as int);
            assert(cell * self.col_nodes_per_cell <= cell * self.col_nodes_per_cell + lj < n_slots);
        }
        let p = self.col_slot[cell * self.col_nodes_per_cell + lj] as usize;
        self.ordering.to_index(p, pj, self.n_col_support, self.n_primal)
    }

    /// Entries one cell contributes — the length of its element matrix.
    pub fn entries_per_cell(&self) -> (r: usize)
        requires
            (self.row_nodes_per_cell * self.n_dual) * (self.col_nodes_per_cell * self.n_primal) <= usize::MAX,
        ensures
            r == (self.row_nodes_per_cell * self.n_dual) * (self.col_nodes_per_cell * self.n_primal),
    {
        proof {
            let (a, b, c, d) = (self.row_nodes_per_cell as int, self.n_dual as int, self.col_nodes_per_cell as int, self.n_primal as int);
            assert(a * b <= (a * b) * (c * d) || c * d == 0) by (nonlinear_arith)
                requires a >= 0, b >= 0, c >= 0, d >= 0;
            assert(c * d <= (a * b) * (c * d) || a * b == 0) by (nonlinear_arith)
                requires a >= 0, b >= 0, c >= 0, d >= 0;
            assert(a * b == 0 || c * d == 0 || (a * b <= usize::MAX && c * d <= usize::MAX));
        }
        if self.row_nodes_per_cell == 0 || self.n_dual == 0 || self.col_nodes_per_cell == 0 || self.n_primal == 0 {
            proof {
                let (a, b, c, d) = (self.row_nodes_per_cell as int, self.n_dual as int, self.col_nodes_per_cell as int, self.n_primal as int);
                assert((a * b) * (c * d) == 0) by (nonlinear_arith)
                    requires a == 0 || b == 0 || c == 0 || d == 0;
            }
            return 0;
        }
        proof {
            let (a, b, c, d) = (self.row_nodes_per_cell as int, self.n_dual as int, self.col_nodes_per_cell as int, self.n_primal as int);
            assert(a * b <= (a * b) * (c * d) && c * d <= (a * b) * (c * d)) by (nonlinear_arith)
                requires a >= 1, b >= 1, c >= 1, d >= 1;
        }
        (self.row_nodes_per_cell * self.n_dual) * (self.col_nodes_per_cell * self.n_primal)
    }

    /// The triplet at position `q` of the stream of `cell` whose element
    /// matrix is `ke`: entry `q` of the row-major `ke`, at local row
    /// `q / w` and local column `q % w` (`w` the local column count), where
    /// local row `li·n_dual + di` is node `li`, dual `di` and local column
    /// `lj·n_primal + pj` is node `lj`, primal `pj`.
    pub open spec fn spec_triplet<V>(&self, cell: int, ke: Seq<V>, q: int) -> (int, int, V) {
        let w = self.col_nodes_per_cell * self.n_primal;
        let r = q / w;
        let c = q % w;
        (
            self.spec_row_index(cell, r / self.n_dual as int, r % self.n_dual as int),
            self.spec_col_index(cell, c / self.n_primal as int, c % self.n_primal as int),
            ke[q],
        )
    }

    /// The `(row, col, value)` triplets of `cell`, whose element matrix
    /// `ke` is given row-major: one per entry of `ke`, in its order — local
    /// node, then dual variable, then local node, then primal variable —
    /// each at the block row and column of its degrees of freedom.
    pub fn cell_triplets<V: Copy>(&self, cell: usize, ke: &[V]) -> (r: Vec<(usize, usize, V)>)
        requires
            self.wf(),
            cell < self.n_cells,
            ke@.len() == (self.row_nodes_per_cell * self.n_dual) * (self.col_nodes_per_cell * self.n_primal),
        ensures
            r@.len() == ke@.len(),
            forall|q: int| 0 <= q < r@.len() ==> {
                let t = #[trigger] self.spec_triplet(cell as int, ke@, q);
                &&& r@[q].0 == t.0
                &&& r@[q].1 == t.1
                &&& r@[q].2 == t.2
                &&& r@[q].0 < self.nrows
                &&& r@[q].1 < self.ncols
            },
    {
        let mut out: Vec<(usize, usize, V)> = Vec::new();
        let n = ke.len();
        if n == 0 {
            return out;
        }
        let ghost (a, b, c, d) = (self.row_nodes_per_cell as int, self.n_dual as int, self.col_nodes_per_cell as int, self.n_primal as int);
        proof {
            assert(a >= 1 && b >= 1 && c >= 1 && d >= 1 && c * d <= n) by (nonlinear_arith)
                requires a >= 0, b >= 0, c >= 0, d >= 0, n == (a * b) * (c * d), n > 0;
        }
        let w = self.col_nodes_per_cell * self.n_primal;
        let mut q: usize = 0;
        while q < n
            invariant
                self.wf(),
                cell < self.n_cells,
                n == ke@.len(),
                n == (a * b) * (c * d),
                a == self.row_nodes_per_cell,
                b == self.n_dual,
                c == self.col_nodes_per_cell,
                d == self.n_primal,
                a >= 1 && b >= 1 && c >= 1 && d >= 1,
                w == c * d,
                q <= n,
                out@.len() == q,
                forall|k: int| 0 <= k < q ==> {
                    let t = #[trigger] self.spec_triplet(cell as int, ke@, k);
                    &&& out@[k].0 == t.0
                    &&& out@[k].1 == t.1
                    &&& out@[k].2 == t.2
                    &&& out@[k].0 < self.nrows
                    &&& out@[k].1 < self.ncols
                },
            decreases n - q,
        {
            let row = q / w;
            let col = q % w;
            proof {
                lemma_split(q as int, a * b, w as int);
                lemma_split(row as int, a, b);
                lemma_split(col as int, c, d);
            }
            let ri = self.row_index(cell, row / self.n_dual, row % self.n_dual);
            let ci = self.col_index(cell, col / self.n_primal, col % self.n_primal);
            let ghost t = self.spec_triplet(cell as int, ke@, q as int);
            assert(ri == t.0 && ci == t.1);
            let ghost before = out@;
            out.push((ri, ci, ke[q]));
            proof {
                assert forall|k: int| 0 <= k < q + 1 implies {
                    let t = #[trigger] self.spec_triplet(cell as int, ke@, k);
                    &&& out@[k].0 == t.0
                    &&& out@[k].1 == t.1
                    &&& out@[k].2 == t.2
                    &&& out@[k].0 < self.nrows
                    &&& out@[k].1 < self.ncols
                } by {
                    if k < q {
                        assert(out@[k] == before[k]);
                    }
                }
            }
            q += 1;
        }
        out
    }
}

/// The triplet stream of a cell carries, at position
/// `((li·n_dual + di)·col_nodes + lj)·n_primal + pj`, the entry of `ke` there at
/// exactly the block row of local node `li`, dual `di` and the block column
/// of local node `lj`, primal `pj`: the pattern regenerates the index pairs
/// of the stream, entry for entry.
pub proof fn lemma_triplet_of_dofs<V>(p: BlockPattern, cell: int, ke: Seq<V>, li: int, di: int, lj: int, pj: int)
    requires
        0 <= li < p.row_nodes_per_cell,
        0 <= di < p.n_dual,
        0 <= lj < p.col_nodes_per_cell,
        0 <= pj < p.n_primal,
    ensures
        ({
            let k = ((li * p.n_dual + di) * p.col_nodes_per_cell + lj) * p.n_primal + pj;
            &&& 0 <= k < (p.row_nodes_per_cell * p.n_dual) * (p.col_nodes_per_cell * p.n_primal)
            &&& p.spec_triplet(cell, ke, k) == (p.spec_row_index(cell, li, di), p.spec_col_index(cell, lj, pj), ke[k])
        }),
{
    let (a, b, c, d) = (p.row_nodes_per_cell as int, p.n_dual as int, p.col_nodes_per_cell as int, p.n_primal as int);
    let w = c * d;
    let row = li * b + di;
    let col = lj * d + pj;
    let k = ((li * b + di) * c + lj) * d + pj;
    assert(k == row * w + col && 0 <= col < w && 0 <= row < a * b) by (nonlinear_arith)
        requires
            0 <= li < a,
            0 <= di < b,
            0 <= lj < c,
            0 <= pj < d,
            w == c * d,
            row == li * b + di,
            col == lj * d + pj,
            k == ((li * b + di) * c + lj) * d + pj;
    assert(0 <= k < (a * b) * w) by (nonlinear_arith)
        requires
            k == row * w + col,
            0 <= col < w,
            0 <= row < a * b;
    vstd::arithmetic::div_mod::lemma_fundamental_div_mod_converse(k, w, row, col);
    vstd::arithmetic::div_mod::lemma_fundamental_div_mod_converse(row, b, li, di);
    vstd::arithmetic::div_mod::lemma_fundamental_div_mod_converse(col, d, lj, pj);
}

/// Position `q` of an `a × b` row-major array is row `q / b`, column `q % b`,
/// both inside the array.
proof fn lemma_split(q: int, a: int, b: int)
    requires
        0 <= q < a * b,
        b >= 1,
    ensures
        0 <= q / b < a,
        0 <= q % b < b,
{
    vstd::arithmetic::div_mod::lemma_fundamental_div_mod(q, b);
    vstd::arithmetic::div_mod::lemma_mod_bound(q, b);
    vstd::arithmetic::div_mod::lemma_div_pos_is_pos(q, b);
    let (x, y) = (q / b, q % b);
    assert(x < a) by (nonlinear_arith)
        requires q == b * x + y, 0 <= y, q < a * b, b >= 1;
}

/// The flat slot of local node `l` of `cell` lies inside the connectivity.
proof fn lemma_cell_slot(cell: int, l: int, n_cells: int, per_cell: int)
    requires
        0 <= cell < n_cells,
        0 <= l < per_cell,
    ensures
        0 <= cell * per_cell + l < n_cells * per_cell,
{
    assert(0 <= cell * per_cell + l < n_cells * per_cell) by (nonlinear_arith)
        requires 0 <= cell < n_cells, 0 <= l < per_cell;
}

/// A whole number `len = n·k` of `k`-node cells: dividing by the cell count
/// gives back the cell size, and no cell means no node.
proof fn lemma_cells(len: int, k: int)
    requires
        k >= 1,
        len >= 0,
        len % k == 0,
    ensures
        len / k == 0 ==> len == 0,
        len / k > 0 ==> len / (len / k) == k,
        (len / k) * k == len,
{
    let n = len / k;
    assert(len == n * k) by (nonlinear_arith)
        requires len % k == 0, k >= 1, n == len / k;
    if n == 0 {
        assert(len == 0) by (nonlinear_arith)
            requires len == n * k, n == 0;
    }
    if n > 0 {
        assert(len / n == k) by (nonlinear_arith)
            requires len == n * k, n > 0, k >= 1;
    }
}

/// Nodes per cell of a connectivity of `len` node ids over `n_cells` cells
/// (zero for no cell).
pub open spec fn spec_nodes_per_cell(len: nat, n_cells: nat) -> nat {
    if n_cells == 0 { 0 } else { len / n_cells }
}

/// The [`BlockPattern`] of a block on one subspace — where each cell's nodes
/// sit in the row and column supports. Refused, naming the node, when a cell
/// node is missing from the row support (checked first) or the column support.
pub fn element_block_pattern(
    fespace: &SubFiniteElementSpace,
    row_support: &SubMesh,
    col_support: &SubMesh,
    n_dual: usize,
    n_primal: usize,
    ordering: DofOrdering,
) -> (r: Result<BlockPattern, ModelError>)
    requires
        fespace.wf(),
        row_support.connectivity@.len() <= u32::MAX + 1,
        col_support.connectivity@.len() <= u32::MAX + 1,
        row_support.connectivity@.len() * n_dual <= usize::MAX,
        col_support.connectivity@.len() * n_primal <= usize::MAX,
    ensures
        ({
            let conn = fespace.submesh.connectivity@;
            let rs = row_support.connectivity@;
            let cs = col_support.connectivity@;
            &&& r is Ok <==> all_in(conn, rs) && all_in(conn, cs)
            &&& r matches Err(e) ==> exists|node: NodeId|
                if all_in(conn, rs) {
                    first_stray(conn, cs, node) && e == (ModelError::NodeNotInSupport { node, side: Side::Column })
                } else {
                    first_stray(conn, rs, node) && e == (ModelError::NodeNotInSupport { node, side: Side::Row })
                }
            &&& r matches Ok(p) ==> {
                &&& p.wf()
                &&& p.nrows == rs.len() * n_dual
                &&& p.ncols == cs.len() * n_primal
                &&& p.n_cells == fespace.submesh.spec_cell_count()
                &&& p.row_nodes_per_cell == spec_nodes_per_cell(conn.len(), p.n_cells as nat)
                &&& p.col_nodes_per_cell == p.row_nodes_per_cell
                &&& p.n_row_support == rs.len()
                &&& p.n_col_support == cs.len()
                &&& p.n_dual == n_dual
                &&& p.n_primal == n_primal
                &&& p.ordering == ordering
                &&& slots_locate(p.row_slot@, conn, rs)
                &&& slots_locate(p.col_slot@, conn, cs)
            }
        }),
{
    let conn = fespace.submesh.connectivity();
    let n_cells = fespace.cell_count();
    let n_nodes = if n_cells == 0 { 0 } else { conn.len() / n_cells };
    proof {
        lemma_cells(conn@.len() as int, fespace.submesh.element_type.spec_node_count() as int);
    }
    let row_nodes = row_support.connectivity();
    let col_nodes = col_support.connectivity();
    let n_row_support = row_nodes.len();
    let n_col_support = col_nodes.len();
    let row_slot = match locate(conn, row_nodes, Side::Row) {
        Ok(v) => v,
        Err(e) => {
            return Err(e);
        },
    };
    let col_slot = match locate(conn, col_nodes, Side::Column) {
        Ok(v) => v,
        Err(e) => {
            return Err(e);
        },
    };
    let p = BlockPattern {
        nrows: n_row_support * n_dual,
        ncols: n_col_support * n_primal,
        n_cells,
        row_slot,
        col_slot,
        row_nodes_per_cell: n_nodes,
        col_nodes_per_cell: n_nodes,
        n_row_support,
        n_col_support,
        n_dual,
        n_primal,
        ordering,
    };
    assert(p.wf());
    Ok(p)
}

/// The point support of a connectivity — its distinct nodes — covers every
/// node of it: a block on a subspace's own support always has a pattern, and
/// every node of its cells a slot to scatter to.
pub proof fn lemma_own_support_covers(conn: Seq<NodeId>)
    ensures
        all_in(conn, spec_unique(conn)),
{
    lemma_unique(conn);
    assert forall|k: int| 0 <= k < conn.len() implies spec_unique(conn).contains(#[trigger] conn[k]) by {
        assert(conn.contains(conn[k]));
    }
}

/// Two cell nodes share a slot exactly when they are the same node.
pub proof fn lemma_slots_identify(slots: Seq<u32>, conn: Seq<NodeId>, support: Seq<NodeId>, k1: int, k2: int)
    requires
        slots_locate(slots, conn, support),
        0 <= k1 < conn.len(),
        0 <= k2 < conn.len(),
    ensures
        slots[k1] == slots[k2] <==> conn[k1] == conn[k2],
{
    assert(is_first_position(support, conn[k1], slots[k1] as int));
    assert(is_first_position(support, conn[k2], slots[k2] as int));
    if conn[k1] == conn[k2] {
        let (i, j) = (slots[k1] as int, slots[k2] as int);
        if i < j {
            assert(support[i] != conn[k2]);
        } else if j < i {
            assert(support[j] != conn[k1]);
        }
    }
}

/// In a pattern whose row slots locate the connectivity `conn` in the row
/// support, two entries land on the same block row exactly when they carry the
/// same node and the same dual variable — the same degree of freedom.
pub proof fn lemma_rows_identify_dofs(
    p: BlockPattern,
    conn: Seq<NodeId>,
    support: Seq<NodeId>,
    cell1: int,
    li1: int,
    di1: int,
    cell2: int,
    li2: int,
    di2: int,
)
    requires
        p.wf(),
        slots_locate(p.row_slot@, conn, support),
        0 <= cell1 < p.n_cells,
        0 <= cell2 < p.n_cells,
        0 <= li1 < p.row_nodes_per_cell,
        0 <= li2 < p.row_nodes_per_cell,
        0 <= di1 < p.n_dual,
        0 <= di2 < p.n_dual,
    ensures
        p.spec_row_index(cell1, li1, di1) == p.spec_row_index(cell2, li2, di2) <==> (conn[cell1
            * p.row_nodes_per_cell + li1] == conn[cell2 * p.row_nodes_per_cell + li2] && di1 == di2),
{
    let k1 = cell1 * p.row_nodes_per_cell + li1;
    let k2 = cell2 * p.row_nodes_per_cell + li2;
    lemma_cell_slot(cell1, li1, p.n_cells as int, p.row_nodes_per_cell as int);
    lemma_cell_slot(cell2, li2, p.n_cells as int, p.row_nodes_per_cell as int);
    lemma_slots_identify(p.row_slot@, conn, support, k1, k2);
    if p.spec_row_index(cell1, li1, di1) == p.spec_row_index(cell2, li2, di2) {
        lemma_to_index_injective(
            p.ordering,
            p.row_slot@[k1] as int,
            di1,
            p.row_slot@[k2] as int,
            di2,
            p.n_row_support as int,
            p.n_dual as int,
        );
    }
}

/// The column counterpart of [`lemma_rows_identify_dofs`]: two entries land
/// on the same block column exactly when they carry the same node and the same
/// primal variable.
pub proof fn lemma_cols_identify_dofs(
    p: BlockPattern,
    conn: Seq<NodeId>,
    support: Seq<NodeId>,
    cell1: int,
    lj1: int,
    pj1: int,
    cell2: int,
    lj2: int,
    pj2: int,
)
    requires
        p.wf(),
        slots_locate(p.col_slot@, conn, support),
        0 <= cell1 < p.n_cells,
        0 <= cell2 < p.n_cells,
        0 <= lj1 < p.col_nodes_per_cell,
        0 <= lj2 < p.col_nodes_per_cell,
        0 <= pj1 < p.n_primal,
        0 <= pj2 < p.n_primal,
    ensures
        p.spec_col_index(cell1, lj1, pj1) == p.spec_col_index(cell2, lj2, pj2) <==> (conn[cell1
            * p.col_nodes_per_cell + lj1] == conn[cell2 * p.col_nodes_per_cell + lj2] && pj1 == pj2),
{
    let k1 = cell1 * p.col_nodes_per_cell + lj1;
    let k2 = cell2 * p.col_nodes_per_cell + lj2;
    lemma_cell_slot(cell1, lj1, p.n_cells as int, p.col_nodes_per_cell as int);
    lemma_cell_slot(cell2, lj2, p.n_cells as int, p.col_nodes_per_cell as int);
    lemma_slots_identify(p.col_slot@, conn, support, k1, k2);
    if p.spec_col_index(cell1, lj1, pj1) == p.spec_col_index(cell2, lj2, pj2) {
        lemma_to_index_injective(
            p.ordering,
            p.col_slot@[k1] as int,
            pj1,
            p.col_slot@[k2] as int,
            pj2,
            p.n_col_support as int,
            p.n_primal as int,
        );
    }
}

/// Check that two subspaces face each other cell for cell, and return the
/// shared `(cell count, row nodes/cell, col nodes/cell)`.
fn check_conforming(
    row_fe: &SubFiniteElementSpace,
    col_fe: &SubFiniteElementSpace,
    row_conn: &[NodeId],
    col_conn: &[NodeId],
) -> (r: Result<(usize, usize, usize), ModelError>)
    requires
        row_fe.wf(),
        col_fe.wf(),
        row_conn@ == row_fe.submesh.connectivity@,
        col_conn@ == col_fe.submesh.connectivity@,
    ensures
        r is Err <==> row_fe.submesh.spec_cell_count() != col_fe.submesh.spec_cell_count(),
        r matches Err(e) ==> e == (ModelError::NonConformingInterface {
            row_cells: row_fe.submesh.spec_cell_count() as usize,
            col_cells: col_fe.submesh.spec_cell_count() as usize,
        }),
        r matches Ok(t) ==> {
            &&& t.0 == row_fe.submesh.spec_cell_count()
            &&& t.1 == spec_nodes_per_cell(row_conn@.len(), t.0 as nat)
            &&& t.2 == spec_nodes_per_cell(col_conn@.len(), t.0 as nat)
        },
{
    let n_row_cells = row_fe.cell_count();
    let n_col_cells = col_fe.cell_count();
    if n_row_cells != n_col_cells {
        return Err(ModelError::NonConformingInterface { row_cells: n_row_cells, col_cells: n_col_cells });
    }
    let n_row_nodes = if n_row_cells == 0 { 0 } else { row_conn.len() / n_row_cells };
    let n_col_nodes = if n_col_cells == 0 { 0 } else { col_conn.len() / n_col_cells };
    Ok((n_row_cells, n_row_nodes, n_col_nodes))
}

/// The [`BlockPattern`] of an inter-mesh block: rows on one subspace, columns
/// on the facing one, paired cell by cell. Refused when the two sides are not
/// conforming (checked first), then naming the first row-side node missing
/// from the row support, then the first column-side node missing from the
/// column support.
#[verifier::spinoff_prover]
pub fn coupling_block_pattern(
    row_fespace: &SubFiniteElementSpace,
    col_fespace: &SubFiniteElementSpace,
    row_support: &SubMesh,
    col_support: &SubMesh,
    n_dual: usize,
    n_primal: usize,
    ordering: DofOrdering,
) -> (r: Result<BlockPattern, ModelError>)
    requires
        row_fespace.wf(),
        col_fespace.wf(),
        row_support.connectivity@.len() <= u32::MAX + 1,
        col_support.connectivity@.len() <= u32::MAX + 1,
        row_support.connectivity@.len() * n_dual <= usize::MAX,
        col_support.connectivity@.len() * n_primal <= usize::MAX,
    ensures
        ({
            let rconn = row_fespace.submesh.connectivity@;
            let cconn = col_fespace.submesh.connectivity@;
            let rs = row_support.connectivity@;
            let cs = col_support.connectivity@;
            let n_row_cells = row_fespace.submesh.spec_cell_count();
            let n_col_cells = col_fespace.submesh.spec_cell_count();
            &&& r is Ok <==> n_row_cells == n_col_cells && all_in(rconn, rs) && all_in(cconn, cs)
            &&& r matches Err(e) ==> if n_row_cells != n_col_cells {
                e == (ModelError::NonConformingInterface {
                    row_cells: n_row_cells as usize,
                    col_cells: n_col_cells as usize,
                })
            } else {
                exists|node: NodeId|
                    if all_in(rconn, rs) {
                        first_stray(cconn, cs, node) && e == (ModelError::NodeNotInSupport { node, side: Side::Column })
                    } else {
                        first_stray(rconn, rs, node) && e == (ModelError::NodeNotInSupport { node, side: Side::Row })
                    }
            }
            &&& r matches Ok(p) ==> {
                &&& p.wf()
                &&& p.nrows == rs.len() * n_dual
                &&& p.ncols == cs.len() * n_primal
                &&& p.n_cells == n_row_cells
                &&& p.row_nodes_per_cell == spec_nodes_per_cell(rconn.len(), p.n_cells as nat)
                &&& p.col_nodes_per_cell == spec_nodes_per_cell(cconn.len(), p.n_cells as nat)
                &&& p.n_row_support == rs.len()
                &&& p.n_col_support == cs.len()
                &&& p.n_dual == n_dual
                &&& p.n_primal == n_primal
                &&& p.ordering == ordering
                &&& slots_locate(p.row_slot@, rconn, rs)
                &&& slots_locate(p.col_slot@, cconn, cs)
            }
        }),
{
    let row_conn = row_fespace.submesh.connectivity();
    let col_conn = col_fespace.submesh.connectivity();
    let (n_cells, row_nodes_per_cell, col_nodes_per_cell) = match check_conforming(
        row_fespace,
        col_fespace,
        row_conn,
        col_conn,
    ) {
        Ok(t) => t,
        Err(e) => {
            return Err(e);
        },
    };
    proof {
        lemma_cells(row_conn@.len() as int, row_fespace.submesh.element_type.spec_node_count() as int);
        lemma_cells(col_conn@.len() as int, col_fespace.submesh.element_type.spec_node_count() as int);
    }
    let row_nodes = row_support.connectivity();
    let col_nodes = col_support.connectivity();
    let n_row_support = row_nodes.len();
    let n_col_support = col_nodes.len();
    let row_slot = match locate(row_conn, row_nodes, Side::Row) {
        Ok(v) => v,
        Err(e) => {
            return Err(e);
        },
    };
    let col_slot = match locate(col_conn, col_nodes, Side::Column) {
        Ok(v) => v,
        Err(e) => {
            return Err(e);
        },
    };
    let p = BlockPattern {
        nrows: n_row_support * n_dual,
        ncols: n_col_support * n_primal,
        n_cells,
        row_slot,
        col_slot,
        row_nodes_per_cell,
        col_nodes_per_cell,
        n_row_support,
        n_col_support,
        n_dual,
        n_primal,
        ordering,
    };
    assert(p.wf());
    Ok(p)
}

} // verus!
