//! Finite-element subspaces: a sub-mesh, an interpolation and a quadrature.

use vstd::prelude::*;
use crate::atoms::ElementType;
use crate::containers::mesh::SubMesh;

verus! {

/// How a subspace interpolates a field inside its cells.
#[derive(Clone, Copy, Debug, PartialEq, Eq, Structural)]
pub enum Interpolation {
    /// First-order Lagrange: the geometric basis is the field basis.
    Lagrange1,
    /// A C¹ basis carrying a value and a slope per node.
    Hermite,
    /// No field basis: the formulation owns the interpolation.
    ModelEmbedded,
}

impl Interpolation {
    /// Whether this subspace declares no field basis.
    pub open spec fn is_model_embedded_spec(self) -> bool {
        self == Interpolation::ModelEmbedded
    }

    /// Whether this subspace declares no field basis.
    pub fn is_model_embedded(self) -> (r: bool)
        ensures
            r == self.is_model_embedded_spec(),
    {
        matches!(self, Interpolation::ModelEmbedded)
    }

    /// Whether this is a C¹ interpolation.
    pub fn is_hermite(self) -> (r: bool)
        ensures
            r == (self == Interpolation::Hermite),
    {
        matches!(self, Interpolation::Hermite)
    }
}

/// The Gauss rule of a subspace.
#[derive(Clone, Copy, Debug, PartialEq, Eq, Structural)]
pub enum QuadratureRule {
    /// The full rule of the element.
    Full,
    /// The reduced rule (one order lower).
    Reduced,
}

/// A finite-element subspace over one sub-mesh.
#[derive(Clone, Debug)]
pub struct SubFiniteElementSpace {
    /// The cells this subspace integrates over.
    pub submesh: SubMesh,
    /// The field interpolation.
    pub interpolation: Interpolation,
    /// The Gauss rule.
    pub quadrature: QuadratureRule,
}

impl View for SubFiniteElementSpace {
    type V = (<SubMesh as View>::V, Interpolation, QuadratureRule);

    open spec fn view(&self) -> Self::V {
        (self.submesh@, self.interpolation, self.quadrature)
    }
}

impl SubFiniteElementSpace {
    /// A copy of this subspace.
    pub fn duplicate(&self) -> (r: SubFiniteElementSpace)
        ensures
            r@ == self@,
    {
        SubFiniteElementSpace {
            submesh: self.submesh.duplicate(),
            interpolation: self.interpolation,
            quadrature: self.quadrature,
        }
    }

    /// The sub-mesh holds whole cells.
    pub open spec fn wf(&self) -> bool {
        self.submesh.wf()
    }

    /// A subspace over `submesh` with the given interpolation and rule.
    pub fn new(submesh: SubMesh, interpolation: Interpolation, quadrature: QuadratureRule) -> (r: Self)
        ensures
            r.submesh == submesh,
            r.interpolation == interpolation,
            r.quadrature == quadrature,
    {
        SubFiniteElementSpace { submesh, interpolation, quadrature }
    }

    /// The first-order Lagrange subspace over `submesh`, full quadrature.
    pub fn lagrange1(submesh: SubMesh) -> (r: Self)
        ensures
            r.submesh == submesh,
            r.interpolation == Interpolation::Lagrange1,
            r.quadrature == QuadratureRule::Full,
    {
        SubFiniteElementSpace {
            submesh,
            interpolation: Interpolation::Lagrange1,
            quadrature: QuadratureRule::Full,
        }
    }

    /// Number of cells.
    pub fn cell_count(&self) -> (r: usize)
        ensures
            r == self.submesh.spec_cell_count(),
    {
        self.submesh.cell_count()
    }

    /// Dimension of the space.
    pub fn space_dim(&self) -> (r: usize)
        ensures
            r == self.submesh.space_dim,
    {
        self.submesh.space_dim
    }

    /// Dimension of the reference element.
    pub fn ref_dim(&self) -> (r: usize)
        ensures
            r == self.submesh.element_type.spec_ref_dim(),
    {
        self.submesh.element_type.ref_dim()
    }

    /// The element type of the cells.
    pub fn element_type(&self) -> (r: ElementType)
        ensures
            r == self.submesh.element_type,
    {
        self.submesh.element_type
    }

    /// The field interpolation.
    pub fn interpolation(&self) -> (r: Interpolation)
        ensures
            r == self.interpolation,
    {
        self.interpolation
    }
}

} // verus!
