//! Discrete Kirchhoff facets (DKT on a triangle, DKQ on a quadrangle).

use vstd::prelude::*;
use crate::atoms::ElementType;
use crate::error::ModelError;

verus! {

/// The linear geometry element of an `n`-node facet and the quadratic element
/// whose side-midpoint rotations the discrete Kirchhoff hypothesis eliminates.
/// A facet that is neither a triangle nor a quadrangle is refused.
pub fn element_pair(n: usize, cell: usize) -> (r: Result<(ElementType, ElementType), ModelError>)
    ensures
        n == 3 ==> r == Ok::<(ElementType, ElementType), ModelError>((ElementType::TRI3, ElementType::TRI6)),
        n == 4 ==> r == Ok::<(ElementType, ElementType), ModelError>((ElementType::QUA4, ElementType::QUA8)),
        n != 3 && n != 4 ==> r == Err::<(ElementType, ElementType), ModelError>(ModelError::KirchhoffFacet { cell, nodes: n }),
{
    match n {
        3 => Ok((ElementType::TRI3, ElementType::TRI6)),
        4 => Ok((ElementType::QUA4, ElementType::QUA8)),
        _ => Err(ModelError::KirchhoffFacet { cell, nodes: n }),
    }
}

} // verus!
