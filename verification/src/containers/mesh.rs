//! Meshes: sub-meshes of one element type, and meshes made of sub-meshes that
//! share a coordinate store.

use vstd::prelude::*;
use crate::atoms::{ElementType, NodeId};
use crate::error::ModelError;
use std::collections::HashSet;

verus! {

/// The distinct elements of `s`, in order of first occurrence.
pub open spec fn spec_unique(s: Seq<NodeId>) -> Seq<NodeId>
    decreases s.len(),
{
    if s.len() == 0 {
        Seq::empty()
    } else {
        let u = spec_unique(s.drop_last());
        if u.contains(s.last()) {
            u
        } else {
            u.push(s.last())
        }
    }
}

/// `spec_unique(s)` holds exactly the elements of `s`, each once.
pub proof fn lemma_unique(s: Seq<NodeId>)
    ensures
        forall|x: NodeId| spec_unique(s).contains(x) <==> s.contains(x),
        spec_unique(s).no_duplicates(),
        spec_unique(s).len() <= s.len(),
    decreases s.len(),
{
    if s.len() > 0 {
        let t = s.drop_last();
        lemma_unique(t);
        assert forall|x: NodeId| s.contains(x) <==> (t.contains(x) || x == s.last()) by {
            if s.contains(x) {
                let i = choose|i: int| 0 <= i < s.len() && s[i] == x;
                if i < s.len() - 1 {
                    assert(t[i] == x);
                }
            }
            if t.contains(x) {
                let i = choose|i: int| 0 <= i < t.len() && t[i] == x;
                assert(s[i] == x);
            }
            if x == s.last() {
                assert(s[s.len() - 1] == x);
            }
        }
        let u = spec_unique(t);
        if !u.contains(s.last()) {
            lemma_push_contains(u, s.last());
        }
    }
}

/// The elements of `s.push(a)` are those of `s` and `a`.
pub(crate) proof fn lemma_push_contains(s: Seq<NodeId>, a: NodeId)
    ensures
        forall|x: NodeId| s.push(a).contains(x) <==> (s.contains(x) || x == a),
{
    assert forall|x: NodeId| s.push(a).contains(x) <==> (s.contains(x) || x == a) by {
        if s.push(a).contains(x) {
            let i = choose|i: int| 0 <= i < s.push(a).len() && s.push(a)[i] == x;
            if i < s.len() {
                assert(s[i] == x);
            }
        }
        if s.contains(x) {
            let i = choose|i: int| 0 <= i < s.len() && s[i] == x;
            assert(s.push(a)[i] == x);
        }
        if x == a {
            assert(s.push(a)[s.len() as int] == x);
        }
    }
}

/// A set of cells of one element type, stored as a flat connectivity
/// (`node_count` node ids per cell), over the coordinate store `coords`.
#[derive(Clone, Debug)]
pub struct SubMesh {
    /// Identity of the coordinate store the node ids refer to.
    pub coords: u64,
    /// Dimension of the space the nodes live in.
    pub space_dim: usize,
    /// The element type of every cell.
    pub element_type: ElementType,
    /// Node ids, cell after cell.
    pub connectivity: Vec<NodeId>,
}

/// A copy of a node list.
pub fn copy_nodes(nodes: &[NodeId]) -> (r: Vec<NodeId>)
    ensures
        r@ == nodes@,
{
    let mut out: Vec<NodeId> = Vec::new();
    let mut i: usize = 0;
    while i < nodes.len()
        invariant
            i <= nodes@.len(),
            out@ == nodes@.take(i as int),
        decreases nodes@.len() - i,
    {
        out.push(nodes[i]);
        assert(nodes@.take(i + 1) == nodes@.take(i as int).push(nodes@[i as int]));
        i += 1;
    }
    assert(nodes@.take(i as int) == nodes@);
    out
}

impl View for SubMesh {
    type V = (u64, usize, ElementType, Seq<NodeId>);

    open spec fn view(&self) -> Self::V {
        (self.coords, self.space_dim, self.element_type, self.connectivity@)
    }
}

impl SubMesh {
    /// A copy of this sub-mesh.
    pub fn duplicate(&self) -> (r: SubMesh)
        ensures
            r@ == self@,
    {
        SubMesh {
            coords: self.coords,
            space_dim: self.space_dim,
            element_type: self.element_type,
            connectivity: copy_nodes(self.connectivity.as_slice()),
        }
    }

    /// The connectivity holds a whole number of cells.
    pub open spec fn wf(&self) -> bool {
        self.connectivity@.len() % self.element_type.spec_node_count() == 0
    }

    /// Number of cells.
    pub open spec fn spec_cell_count(&self) -> nat {
        self.connectivity@.len() / self.element_type.spec_node_count()
    }

    /// An empty sub-mesh of `element_type` cells over the coordinate store `coords`.
    pub fn new(coords: u64, space_dim: usize, element_type: ElementType) -> (r: SubMesh)
        ensures
            r.wf(),
            r.coords == coords,
            r.space_dim == space_dim,
            r.element_type == element_type,
            r.connectivity@.len() == 0,
    {
        SubMesh { coords, space_dim, element_type, connectivity: Vec::new() }
    }

    /// Append one cell. Refused when `nodes` is not one cell's worth of nodes.
    pub fn add_cell(&mut self, nodes: &[NodeId]) -> (r: Result<(), ModelError>)
        requires
            old(self).wf(),
        ensures
            final(self).wf(),
            final(self).coords == old(self).coords,
            final(self).space_dim == old(self).space_dim,
            final(self).element_type == old(self).element_type,
            nodes@.len() == old(self).element_type.spec_node_count() <==> r is Ok,
            r is Ok ==> final(self).connectivity@ == old(self).connectivity@ + nodes@,
            r is Err ==> final(self).connectivity@ == old(self).connectivity@,
            r matches Err(e) ==> e == (ModelError::CellSize {
                expected: old(self).element_type.spec_node_count() as usize,
                given: nodes@.len() as usize,
            }),
    {
        let expected = self.element_type.node_count();
        if nodes.len() != expected {
            return Err(ModelError::CellSize { expected, given: nodes.len() });
        }
        let ghost before = self.connectivity@;
        let mut i: usize = 0;
        while i < nodes.len()
            invariant
                i <= nodes@.len(),
                self.coords == old(self).coords,
                self.space_dim == old(self).space_dim,
                self.element_type == old(self).element_type,
                before == old(self).connectivity@,
                self.connectivity@ == before + nodes@.take(i as int),
            decreases nodes@.len() - i,
        {
            self.connectivity.push(nodes[i]);
            assert(nodes@.take(i + 1) == nodes@.take(i as int).push(nodes@[i as int]));
            i += 1;
        }
        assert(nodes@.take(i as int) == nodes@);
        proof {
            let k = self.element_type.spec_node_count() as int;
            let a = before.len() as int;
            assert((a + k) % k == 0) by (nonlinear_arith)
                requires a % k == 0, k >= 1;
        }
        Ok(())
    }

    /// Whether the connectivity holds whole cells ([`wf`](Self::wf)).
    pub fn is_wf(&self) -> (r: bool)
        ensures
            r == self.wf(),
    {
        self.connectivity.len() % self.element_type.node_count() == 0
    }

    /// Whether `other` is the same sub-mesh: same coordinate store,
    /// dimension, element type and connectivity.
    pub fn same_as(&self, other: &SubMesh) -> (r: bool)
        ensures
            r == (self@ == other@),
    {
        if self.coords != other.coords || self.space_dim != other.space_dim || self.element_type != other.element_type
            || self.connectivity.len() != other.connectivity.len() {
            return false;
        }
        let mut i: usize = 0;
        while i < self.connectivity.len()
            invariant
                i <= self.connectivity@.len(),
                self.connectivity@.len() == other.connectivity@.len(),
                forall|k: int| 0 <= k < i ==> self.connectivity@[k] == other.connectivity@[k],
            decreases self.connectivity@.len() - i,
        {
            if self.connectivity[i] != other.connectivity[i] {
                return false;
            }
            i += 1;
        }
        assert(self.connectivity@ =~= other.connectivity@);
        true
    }

    /// Number of cells.
    pub fn cell_count(&self) -> (r: usize)
        ensures
            r == self.spec_cell_count(),
    {
        self.connectivity.len() / self.element_type.node_count()
    }

    /// The connectivity, cell after cell.
    pub fn connectivity(&self) -> (r: &[NodeId])
        ensures
            r@ == self.connectivity@,
    {
        self.connectivity.as_slice()
    }

    /// The point sub-mesh over the distinct nodes of this one, in order of
    /// first appearance: the node support of a block built on it.
    pub fn to_poi1(&self) -> (r: SubMesh)
        ensures
            r.wf(),
            r.coords == self.coords,
            r.space_dim == self.space_dim,
            r.element_type == ElementType::POI1,
            r.connectivity@ == spec_unique(self.connectivity@),
    {
        let mut seen: HashSet<NodeId> = HashSet::new();
        let mut out: Vec<NodeId> = Vec::new();
        let n = self.connectivity.len();
        let mut i: usize = 0;
        while i < n
            invariant
                n == self.connectivity@.len(),
                i <= n,
                out@ == spec_unique(self.connectivity@.take(i as int)),
                forall|x: NodeId| seen@.contains(x) <==> out@.contains(x),
            decreases n - i,
        {
            let node = self.connectivity[i];
            let ghost pre = self.connectivity@.take(i as int);
            assert(self.connectivity@.take(i + 1).drop_last() == pre);
            assert(self.connectivity@.take(i + 1).last() == node);
            if !seen.contains(&node) {
                proof {
                    lemma_push_contains(out@, node);
                }
                seen.insert(node);
                out.push(node);
            }
            i += 1;
        }
        assert(self.connectivity@.take(n as int) == self.connectivity@);
        SubMesh { coords: self.coords, space_dim: self.space_dim, element_type: ElementType::POI1, connectivity: out }
    }
}

/// A mesh: sub-meshes of possibly different element types over one
/// coordinate store.
#[derive(Clone, Debug)]
pub struct Mesh {
    /// The sub-meshes, in order.
    pub submeshes: Vec<SubMesh>,
}

impl Mesh {
    /// Every sub-mesh holds whole cells and shares the first one's coordinate store.
    pub open spec fn wf(&self) -> bool {
        &&& forall|i: int| 0 <= i < self.submeshes@.len() ==> #[trigger] self.submeshes@[i].wf()
        &&& forall|i: int| 0 <= i < self.submeshes@.len()
            ==> #[trigger] self.submeshes@[i].coords == self.submeshes@[0].coords
    }

    /// The views of the sub-meshes.
    pub open spec fn spec_subs(&self) -> Seq<<SubMesh as View>::V> {
        self.submeshes@.map_values(|s: SubMesh| s@)
    }

    /// A mesh made of one sub-mesh.
    pub fn from_submesh(submesh: SubMesh) -> (r: Mesh)
        requires
            submesh.wf(),
        ensures
            r.wf(),
            r.submeshes@ == seq![submesh],
    {
        let mut v = Vec::new();
        v.push(submesh);
        Mesh { submeshes: v }
    }

    /// Number of sub-meshes.
    pub fn len(&self) -> (r: usize)
        ensures
            r == self.submeshes@.len(),
    {
        self.submeshes.len()
    }

    /// Cells of the first `n` sub-meshes.
    pub open spec fn spec_cells_upto(&self, n: int) -> int
        decreases n,
    {
        if n <= 0 || n > self.submeshes@.len() {
            0
        } else {
            self.spec_cells_upto(n - 1) + self.submeshes@[n - 1].spec_cell_count()
        }
    }

    /// Cells over all sub-meshes.
    pub open spec fn spec_cell_count(&self) -> int {
        self.spec_cells_upto(self.submeshes@.len() as int)
    }

    /// Number of cells over all sub-meshes, saturating at `usize::MAX`.
    pub fn cell_count(&self) -> (r: usize)
        ensures
            r == if self.spec_cell_count() <= usize::MAX { self.spec_cell_count() } else { usize::MAX as int },
    {
        let mut total: usize = 0;
        let mut i: usize = 0;
        while i < self.submeshes.len()
            invariant
                i <= self.submeshes@.len(),
                total == if self.spec_cells_upto(i as int) <= usize::MAX { self.spec_cells_upto(i as int) } else { usize::MAX as int },
                self.spec_cells_upto(i as int) >= 0,
            decreases self.submeshes@.len() - i,
        {
            total = total.saturating_add(self.submeshes[i].cell_count());
            i += 1;
        }
        total
    }

    /// Whether some sub-mesh carries at least one cell.
    pub fn has_cells(&self) -> (r: bool)
        ensures
            r == exists|i: int| 0 <= i < self.submeshes@.len() && #[trigger] self.submeshes@[i].spec_cell_count() > 0,
    {
        let n = self.submeshes.len();
        let mut i: usize = 0;
        while i < n
            invariant
                n == self.submeshes@.len(),
                i <= n,
                forall|k: int| 0 <= k < i ==> #[trigger] self.submeshes@[k].spec_cell_count() == 0,
            decreases n - i,
        {
            if self.submeshes[i].cell_count() > 0 {
                return true;
            }
            i += 1;
        }
        false
    }

    /// The coordinate store of this mesh; a mesh with no sub-mesh has none.
    pub fn coords(&self) -> (r: Result<u64, ModelError>)
        ensures
            self.submeshes@.len() == 0 <==> r is Err,
            r matches Err(e) ==> e == ModelError::EmptyMesh,
            r matches Ok(c) ==> c == self.submeshes@[0].coords,
    {
        if self.submeshes.len() == 0 {
            Err(ModelError::EmptyMesh)
        } else {
            Ok(self.submeshes[0].coords)
        }
    }
}

} // verus!
