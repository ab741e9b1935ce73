//! The errors of the model layer. Each variant names one refused input and
//! carries the values a message about it needs.

use vstd::prelude::*;
use crate::atoms::{ElementType, NodeId};
use crate::models::shell::ShellModel;
use crate::models::{MatrixKind, views};
use crate::models::kernel::MAX_CELL_DOFS;
use crate::text::{decimal, decimal_u64, debug_list, spec_debug_list, spec_decimal};
use crate::models::tensor::{ElasticityModel, Kinematics};

verus! {

/// Which side of a block a support belongs to.
#[derive(Clone, Copy, Debug, PartialEq, Eq, Structural)]
pub enum Side {
    /// The row (dual) side.
    Row,
    /// The column (primal) side.
    Column,
}

/// Why a model-layer operation refused its input.
#[derive(Clone, Debug, PartialEq, Eq)]
pub enum ModelError {
    /// A cell was given with the wrong number of nodes for its element type.
    CellSize { expected: usize, given: usize },
    /// A mesh with no sub-mesh has no coordinate store.
    EmptyMesh,
    /// The FE subspace declares no field basis (it is `MODEL_EMBEDDED`), so it
    /// has no `what` to lend.
    FieldBasisMissing { what: String },
    /// A block was given no FE subspace; `what` names the block's driver.
    NoSubspace { what: String },
    /// The FE subspaces of a block lie on different sub-meshes.
    SubspacesApart { what: String },
    /// A cell node is absent from the support of one side of a block.
    NodeNotInSupport { node: NodeId, side: Side },
    /// A field lacks a component a physics reads from it; `what` names the
    /// field's role (deformation, previous state, material, state).
    MissingComponent { what: String, component: String },
    /// A matrix kernel of this kind reads a state field and none was given.
    StateNotSupplied { kind: MatrixKind },
    /// A field read point by point spans `cells × gauss` points where the
    /// subspace has `expected_cells × expected_gauss`.
    FieldShape { what: String, cells: usize, gauss: usize, expected_cells: usize, expected_gauss: usize },
    /// A cell's gather of `nodes × components` values exceeds its buffer.
    GatherTooWide { nodes: usize, components: usize },
    /// The two sides of an interface do not face each other cell for cell.
    NonConformingInterface { row_cells: usize, col_cells: usize },
    /// A 2-D/3-D elasticity model that does not fit the space dimension.
    IncompatibleModel { model: ElasticityModel, space_dim: usize },
    /// A kinematics that does not fit the space dimension.
    IncompatibleKinematics { kinematics: Kinematics, space_dim: usize },
    /// A relation sense spelled neither `=`, `>=` nor `<=`.
    UnknownRelationSense { spelling: String },
    /// A shell must be a 2-D element in a 3-D space.
    ShellNotASurface { ref_dim: usize, space_dim: usize },
    /// A shell is meshed with TRI3 or QUA4 only.
    ShellElement { model: ShellModel, element: ElementType },
    /// A discrete Kirchhoff facet is a triangle or a quadrangle.
    KirchhoffFacet { cell: usize, nodes: usize },
    /// A multi-point constraint term names a variable its target does not declare.
    NotAPrimal { variable: String, declared: Vec<String> },
    /// A multi-point constraint needs at least one term.
    MpcNoTerm,
    /// The multiplier mesh of a multi-point constraint carries no node.
    MpcNoMultiplier,
    /// A multiplier sub-mesh is not made of points.
    MpcMultiplierNotPoi1 { submesh: usize, element: ElementType },
    /// A term mesh does not share the multiplier mesh's coordinate store.
    MpcCoords { term: usize },
    /// A term mesh has a different number of sub-meshes than the multiplier mesh.
    MpcSubmeshCount { term: usize, expected: usize, given: usize },
    /// A term sub-mesh is not made of points.
    MpcTermNotPoi1 { term: usize, submesh: usize, element: ElementType },
    /// A term sub-mesh has a different number of nodes than its multiplier sub-mesh.
    MpcNodeCount { term: usize, submesh: usize, given: usize, expected: usize },
}

impl Side {
    /// The side's name, as messages spell it.
    pub open spec fn spec_name(self) -> Seq<char> {
        match self {
            Side::Row => "row"@,
            Side::Column => "column"@,
        }
    }

    /// The side's name, as messages spell it.
    pub fn name(self) -> (r: &'static str)
        ensures
            r@ == self.spec_name(),
    {
        match self {
            Side::Row => "row",
            Side::Column => "column",
        }
    }
}

impl ModelError {
    /// The text of the refusal: what was refused, with each value the
    /// variant carries.
    pub open spec fn spec_message(&self) -> Seq<char> {
        match self {
            ModelError::CellSize { expected, given } =>
                "a cell of this element type has "@ + spec_decimal(*expected as nat) + " node(s), "@
                    + spec_decimal(*given as nat) + " given"@,
            ModelError::EmptyMesh => "the mesh has no submesh, hence no coordinate store"@,
            ModelError::NoSubspace { what } => what@ + ": no FE subspace"@,
            ModelError::SubspacesApart { what } => what@ + ": all FE subspaces of a block must share one submesh"@,
            ModelError::FieldBasisMissing { what } =>
                "this FE subspace is MODEL_EMBEDDED \u{2014} it declares no field basis, so it has no "@ + what@
                    + ". Its formulation owns the interpolation, so evaluating a field inside one of its elements is that formulation's business."@,
            ModelError::NodeNotInSupport { node, side } =>
                "node "@ + spec_decimal(*node as nat) + " is not in the "@ + side.spec_name() + " support"@,
            ModelError::MissingComponent { what, component } =>
                what@ + ": the field has no component `"@ + component@ + "`"@,
            ModelError::StateNotSupplied { kind } =>
                kind.spec_variant_name() + ": this kernel reads the state field, and none was supplied"@,
            ModelError::FieldShape { what, cells, gauss, expected_cells, expected_gauss } =>
                what@ + ": "@ + spec_decimal(*cells as nat) + " cells \u{d7} "@ + spec_decimal(*gauss as nat)
                    + " Gauss points, but this FE subspace has "@ + spec_decimal(*expected_cells as nat) + " \u{d7} "@
                    + spec_decimal(*expected_gauss as nat),
            ModelError::GatherTooWide { nodes, components } =>
                "nodal_pointwise: "@ + spec_decimal(*nodes as nat) + " nodes \u{d7} "@ + spec_decimal(*components as nat)
                    + " components exceeds the "@ + spec_decimal(MAX_CELL_DOFS as nat)
                    + " values a cell's gather buffer holds"@,
            ModelError::NonConformingInterface { row_cells, col_cells } =>
                "coupling block: the two sides of an interface must be conforming \u{2014} "@
                    + spec_decimal(*row_cells as nat) + " cell(s) facing "@ + spec_decimal(*col_cells as nat),
            ModelError::IncompatibleModel { model, space_dim } =>
                model.spec_variant_name() + " does not fit a "@ + spec_decimal(*space_dim as nat) + "-D space"@,
            ModelError::IncompatibleKinematics { kinematics, space_dim } =>
                kinematics.spec_variant_name() + " does not fit a "@ + spec_decimal(*space_dim as nat) + "-D space"@,
            ModelError::UnknownRelationSense { spelling } =>
                "unknown relation sense '"@ + spelling@ + "' (expected '=', '>=' or '<=')"@,
            ModelError::ShellNotASurface { ref_dim, space_dim } =>
                "Shell: a shell is a surface in space \u{2014} expected a 2-D element in a 3-D configuration, got a "@
                    + spec_decimal(*ref_dim as nat) + "-D element in "@ + spec_decimal(*space_dim as nat) + "-D"@,
            ModelError::ShellElement { model, element } =>
                "Shell ("@ + model.spec_name() + "): expected TRI3 or QUA4, got "@ + element.spec_name(),
            ModelError::KirchhoffFacet { cell, nodes } =>
                "Shell (kirchhoff): cell "@ + spec_decimal(*cell as nat) + " has "@ + spec_decimal(*nodes as nat)
                    + " nodes \u{2014} a discrete Kirchhoff facet is a triangle (DKT) or a quadrangle (DKQ)"@,
            ModelError::NotAPrimal { variable, declared } =>
                "MpcTerm: `"@ + variable@ + "` is not a primal of the model it constrains \u{2014} it declares "@
                    + spec_debug_list(views(declared@)),
            ModelError::MpcNoTerm => "Mpc: at least one term is required"@,
            ModelError::MpcNoMultiplier => "Mpc: multiplier_mesh must carry at least one node"@,
            ModelError::MpcMultiplierNotPoi1 { submesh, element } =>
                "Mpc: multiplier_mesh submesh "@ + spec_decimal(*submesh as nat) + " must be POI1, got "@ + element.spec_name(),
            ModelError::MpcCoords { term } =>
                "Mpc: term "@ + spec_decimal(*term as nat) + " mesh and multiplier_mesh must share a Coords"@,
            ModelError::MpcSubmeshCount { term, expected, given } =>
                "Mpc: multiplier_mesh has "@ + spec_decimal(*expected as nat) + " submesh(es) but term "@
                    + spec_decimal(*term as nat) + " has "@ + spec_decimal(*given as nat),
            ModelError::MpcTermNotPoi1 { term, submesh, element } =>
                "Mpc: term "@ + spec_decimal(*term as nat) + " submesh "@ + spec_decimal(*submesh as nat)
                    + " must be POI1, got "@ + element.spec_name(),
            ModelError::MpcNodeCount { term, submesh, given, expected } =>
                "Mpc: term "@ + spec_decimal(*term as nat) + " submesh "@ + spec_decimal(*submesh as nat) + " has "@
                    + spec_decimal(*given as nat) + " node(s) but multiplier has "@ + spec_decimal(*expected as nat),
        }
    }

    /// The text of the refusal: what was refused, with each value the
    /// variant carries.
    pub fn message(&self) -> (r: String)
        ensures
            r@ == self.spec_message(),
    {
        match self {
            ModelError::CellSize { expected, given } => {
                let mut s = "a cell of this element type has ".to_string();
                s.append(decimal(*expected).as_str());
                s.append(" node(s), ");
                s.append(decimal(*given).as_str());
                s.append(" given");
                s
            },
            ModelError::EmptyMesh => "the mesh has no submesh, hence no coordinate store".to_string(),
            ModelError::NoSubspace { what } => {
                let mut s = what.clone();
                s.append(": no FE subspace");
                s
            },
            ModelError::SubspacesApart { what } => {
                let mut s = what.clone();
                s.append(": all FE subspaces of a block must share one submesh");
                s
            },
            ModelError::FieldBasisMissing { what } => {
                let mut s = "this FE subspace is MODEL_EMBEDDED \u{2014} it declares no field basis, so it has no ".to_string();
                s.append(what.as_str());
                s.append(". Its formulation owns the interpolation, so evaluating a field inside one of its elements is that formulation's business.");
                s
            },
            ModelError::NodeNotInSupport { node, side } => {
                let mut s = "node ".to_string();
                s.append(decimal_u64(*node).as_str());
                s.append(" is not in the ");
                s.append(side.name());
                s.append(" support");
                s
            },
            ModelError::MissingComponent { what, component } => {
                let mut s = what.clone();
                s.append(": the field has no component `");
                s.append(component.as_str());
                s.append("`");
                s
            },
            ModelError::StateNotSupplied { kind } => {
                let mut s = kind.variant_name().to_string();
                s.append(": this kernel reads the state field, and none was supplied");
                s
            },
            ModelError::FieldShape { what, cells, gauss, expected_cells, expected_gauss } => {
                let mut s = what.clone();
                s.append(": ");
                s.append(decimal(*cells).as_str());
                s.append(" cells \u{d7} ");
                s.append(decimal(*gauss).as_str());
                s.append(" Gauss points, but this FE subspace has ");
                s.append(decimal(*expected_cells).as_str());
                s.append(" \u{d7} ");
                s.append(decimal(*expected_gauss).as_str());
                s
            },
            ModelError::GatherTooWide { nodes, components } => {
                let mut s = "nodal_pointwise: ".to_string();
                s.append(decimal(*nodes).as_str());
                s.append(" nodes \u{d7} ");
                s.append(decimal(*components).as_str());
                s.append(" components exceeds the ");
                s.append(decimal(MAX_CELL_DOFS).as_str());
                s.append(" values a cell's gather buffer holds");
                s
            },
            ModelError::NonConformingInterface { row_cells, col_cells } => {
                let mut s = "coupling block: the two sides of an interface must be conforming \u{2014} ".to_string();
                s.append(decimal(*row_cells).as_str());
                s.append(" cell(s) facing ");
                s.append(decimal(*col_cells).as_str());
                s
            },
            ModelError::IncompatibleModel { model, space_dim } => {
                let mut s = model.variant_name().to_string();
                s.append(" does not fit a ");
                s.append(decimal(*space_dim).as_str());
                s.append("-D space");
                s
            },
            ModelError::IncompatibleKinematics { kinematics, space_dim } => {
                let mut s = kinematics.variant_name().to_string();
                s.append(" does not fit a ");
                s.append(decimal(*space_dim).as_str());
                s.append("-D space");
                s
            },
            ModelError::UnknownRelationSense { spelling } => {
                let mut s = "unknown relation sense '".to_string();
                s.append(spelling.as_str());
                s.append("' (expected '=', '>=' or '<=')");
                s
            },
            ModelError::ShellNotASurface { ref_dim, space_dim } => {
                let mut s = "Shell: a shell is a surface in space \u{2014} expected a 2-D element in a 3-D configuration, got a ".to_string();
                s.append(decimal(*ref_dim).as_str());
                s.append("-D element in ");
                s.append(decimal(*space_dim).as_str());
                s.append("-D");
                s
            },
            ModelError::ShellElement { model, element } => {
                let mut s = "Shell (".to_string();
                s.append(model.name());
                s.append("): expected TRI3 or QUA4, got ");
                s.append(element.name());
                s
            },
            ModelError::KirchhoffFacet { cell, nodes } => {
                let mut s = "Shell (kirchhoff): cell ".to_string();
                s.append(decimal(*cell).as_str());
                s.append(" has ");
                s.append(decimal(*nodes).as_str());
                s.append(" nodes \u{2014} a discrete Kirchhoff facet is a triangle (DKT) or a quadrangle (DKQ)");
                s
            },
            ModelError::NotAPrimal { variable, declared } => {
                let mut s = "MpcTerm: `".to_string();
                s.append(variable.as_str());
                s.append("` is not a primal of the model it constrains \u{2014} it declares ");
                s.append(debug_list(declared.as_slice()).as_str());
                s
            },
            ModelError::MpcNoTerm => "Mpc: at least one term is required".to_string(),
            ModelError::MpcNoMultiplier => "Mpc: multiplier_mesh must carry at least one node".to_string(),
            ModelError::MpcMultiplierNotPoi1 { submesh, element } => {
                let mut s = "Mpc: multiplier_mesh submesh ".to_string();
                s.append(decimal(*submesh).as_str());
                s.append(" must be POI1, got ");
                s.append(element.name());
                s
            },
            ModelError::MpcCoords { term } => {
                let mut s = "Mpc: term ".to_string();
                s.append(decimal(*term).as_str());
                s.append(" mesh and multiplier_mesh must share a Coords");
                s
            },
            ModelError::MpcSubmeshCount { term, expected, given } => {
                let mut s = "Mpc: multiplier_mesh has ".to_string();
                s.append(decimal(*expected).as_str());
                s.append(" submesh(es) but term ");
                s.append(decimal(*term).as_str());
                s.append(" has ");
                s.append(decimal(*given).as_str());
                s
            },
            ModelError::MpcTermNotPoi1 { term, submesh, element } => {
                let mut s = "Mpc: term ".to_string();
                s.append(decimal(*term).as_str());
                s.append(" submesh ");
                s.append(decimal(*submesh).as_str());
                s.append(" must be POI1, got ");
                s.append(element.name());
                s
            },
            ModelError::MpcNodeCount { term, submesh, given, expected } => {
                let mut s = "Mpc: term ".to_string();
                s.append(decimal(*term).as_str());
                s.append(" submesh ");
                s.append(decimal(*submesh).as_str());
                s.append(" has ");
                s.append(decimal(*given).as_str());
                s.append(" node(s) but multiplier has ");
                s.append(decimal(*expected).as_str());
                s
            },
        }
    }
}

} // verus!
