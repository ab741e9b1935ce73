//! Node identifiers and the reference element types a mesh is made of.

use vstd::prelude::*;

verus! {

/// Identifier of a node in its coordinate store.
pub type NodeId = u64;

/// Reference element types.
#[allow(non_camel_case_types)]
#[derive(Clone, Copy, Debug, PartialEq, Eq, Structural)]
pub enum ElementType {
    /// A single point.
    POI1,
    /// A two-node segment.
    SEG2,
    /// A three-node triangle.
    TRI3,
    /// A six-node (quadratic) triangle.
    TRI6,
    /// A four-node quadrangle.
    QUA4,
    /// An eight-node (serendipity) quadrangle.
    QUA8,
    /// An eight-node hexahedron.
    HEX8,
}

impl ElementType {
    /// The type's name, as messages spell it.
    pub open spec fn spec_name(self) -> Seq<char> {
        match self {
            ElementType::POI1 => "POI1"@,
            ElementType::SEG2 => "SEG2"@,
            ElementType::TRI3 => "TRI3"@,
            ElementType::TRI6 => "TRI6"@,
            ElementType::QUA4 => "QUA4"@,
            ElementType::QUA8 => "QUA8"@,
            ElementType::HEX8 => "HEX8"@,
        }
    }

    /// The type's name, as messages spell it.
    pub fn name(self) -> (r: &'static str)
        ensures
            r@ == self.spec_name(),
    {
        match self {
            ElementType::POI1 => "POI1",
            ElementType::SEG2 => "SEG2",
            ElementType::TRI3 => "TRI3",
            ElementType::TRI6 => "TRI6",
            ElementType::QUA4 => "QUA4",
            ElementType::QUA8 => "QUA8",
            ElementType::HEX8 => "HEX8",
        }
    }

    /// Number of nodes of one cell of this type.
    pub open spec fn spec_node_count(self) -> nat {
        match self {
            ElementType::POI1 => 1,
            ElementType::SEG2 => 2,
            ElementType::TRI3 => 3,
            ElementType::TRI6 => 6,
            ElementType::QUA4 => 4,
            ElementType::QUA8 => 8,
            ElementType::HEX8 => 8,
        }
    }

    /// Dimension of the reference element.
    pub open spec fn spec_ref_dim(self) -> nat {
        match self {
            ElementType::POI1 => 0,
            ElementType::SEG2 => 1,
            ElementType::TRI3 | ElementType::TRI6 | ElementType::QUA4 | ElementType::QUA8 => 2,
            ElementType::HEX8 => 3,
        }
    }

    /// Number of nodes of one cell of this type.
    pub fn node_count(self) -> (r: usize)
        ensures
            r == self.spec_node_count(),
            r >= 1,
    {
        match self {
            ElementType::POI1 => 1,
            ElementType::SEG2 => 2,
            ElementType::TRI3 => 3,
            ElementType::TRI6 => 6,
            ElementType::QUA4 => 4,
            ElementType::QUA8 => 8,
            ElementType::HEX8 => 8,
        }
    }

    /// Dimension of the reference element.
    pub fn ref_dim(self) -> (r: usize)
        ensures
            r == self.spec_ref_dim(),
    {
        match self {
            ElementType::POI1 => 0,
            ElementType::SEG2 => 1,
            ElementType::TRI3 | ElementType::TRI6 | ElementType::QUA4 | ElementType::QUA8 => 2,
            ElementType::HEX8 => 3,
        }
    }
}

} // verus!
