//! Kinematics, elasticity models and the component names of symmetric tensors
//! shared by the continuum physics.

use vstd::prelude::*;
use crate::models::views;

verus! {

broadcast use vstd::string::group_string_axioms;

/// The 2-D/3-D elasticity model of a continuum.
#[derive(Clone, Copy, Debug, PartialEq, Eq, Structural)]
pub enum ElasticityModel {
    /// 2-D, `σ_zz = 0`.
    PlaneStress,
    /// 2-D, `ε_zz = 0`.
    PlaneStrain,
    /// 3-D.
    Solid,
}

/// The kinematics of a continuum.
#[derive(Clone, Copy, Debug, PartialEq, Eq, Structural)]
pub enum Kinematics {
    /// 2-D, `σ_zz = 0`.
    PlaneStress,
    /// 2-D, `ε_zz = 0`.
    PlaneStrain,
    /// 2-D meridian plane of a body of revolution.
    Axisymmetric,
    /// 3-D.
    Full3D,
}

impl ElasticityModel {
    /// The variant's own name, as a summary spells it.
    pub open spec fn spec_variant_name(self) -> Seq<char> {
        match self {
            ElasticityModel::PlaneStress => "PlaneStress"@,
            ElasticityModel::PlaneStrain => "PlaneStrain"@,
            ElasticityModel::Solid => "Solid"@,
        }
    }

    /// The variant's own name, as a summary spells it.
    pub fn variant_name(self) -> (r: &'static str)
        ensures
            r@ == self.spec_variant_name(),
    {
        match self {
            ElasticityModel::PlaneStress => "PlaneStress",
            ElasticityModel::PlaneStrain => "PlaneStrain",
            ElasticityModel::Solid => "Solid",
        }
    }
}

impl Kinematics {
    /// The variant's own name, as a summary spells it.
    pub open spec fn spec_variant_name(self) -> Seq<char> {
        match self {
            Kinematics::PlaneStress => "PlaneStress"@,
            Kinematics::PlaneStrain => "PlaneStrain"@,
            Kinematics::Axisymmetric => "Axisymmetric"@,
            Kinematics::Full3D => "Full3D"@,
        }
    }

    /// The variant's own name, as a summary spells it.
    pub fn variant_name(self) -> (r: &'static str)
        ensures
            r@ == self.spec_variant_name(),
    {
        match self {
            Kinematics::PlaneStress => "PlaneStress",
            Kinematics::PlaneStrain => "PlaneStrain",
            Kinematics::Axisymmetric => "Axisymmetric",
            Kinematics::Full3D => "Full3D",
        }
    }

    /// Whether this is the meridian plane of a body of revolution.
    pub fn is_axisymmetric(self) -> (r: bool)
        ensures
            r == (self == Kinematics::Axisymmetric),
    {
        matches!(self, Kinematics::Axisymmetric)
    }
}

/// The suffix of tensor component `i` in Voigt order `[xx, yy, zz, yz, xz, xy]`.
pub open spec fn spec_tensor_suffix(i: int) -> Seq<char> {
    if i == 0 {
        "xx"@
    } else if i == 1 {
        "yy"@
    } else if i == 2 {
        "zz"@
    } else if i == 3 {
        "yz"@
    } else if i == 4 {
        "xz"@
    } else {
        "xy"@
    }
}

/// The suffix of tensor component `i` in Voigt order `[xx, yy, zz, yz, xz, xy]`.
pub fn tensor_suffix(i: usize) -> (r: &'static str)
    requires
        i < 6,
    ensures
        r@ == spec_tensor_suffix(i as int),
{
    if i == 0 {
        "xx"
    } else if i == 1 {
        "yy"
    } else if i == 2 {
        "zz"
    } else if i == 3 {
        "yz"
    } else if i == 4 {
        "xz"
    } else {
        "xy"
    }
}

/// The six suffixes are distinct, each two characters long.
pub proof fn lemma_tensor_suffixes()
    ensures
        forall|i: int| 0 <= i < 6 ==> (#[trigger] spec_tensor_suffix(i)).len() == 2,
        forall|i: int, j: int|
            0 <= i < 6 && 0 <= j < 6 && i != j ==> #[trigger] spec_tensor_suffix(i) != #[trigger] spec_tensor_suffix(j),
{
    reveal_strlit("xx");
    reveal_strlit("yy");
    reveal_strlit("zz");
    reveal_strlit("yz");
    reveal_strlit("xz");
    reveal_strlit("xy");
    assert forall|i: int, j: int|
        0 <= i < 6 && 0 <= j < 6 && i != j implies #[trigger] spec_tensor_suffix(i) != #[trigger] spec_tensor_suffix(j) by {
        assert(spec_tensor_suffix(i)[0] != spec_tensor_suffix(j)[0] || spec_tensor_suffix(i)[1] != spec_tensor_suffix(j)[1]);
    }
}

/// `prefix` followed by the suffix of each listed tensor slot.
pub open spec fn spec_prefixed(prefix: Seq<char>, slots: Seq<usize>) -> Seq<Seq<char>> {
    slots.map_values(|i: usize| prefix + spec_tensor_suffix(i as int))
}

/// `prefix` followed by the suffix of each listed tensor slot, as names.
pub fn prefixed_names(prefix: &str, slots: &[usize]) -> (r: Vec<String>)
    requires
        forall|k: int| 0 <= k < slots@.len() ==> #[trigger] slots@[k] < 6,
    ensures
        views(r@) == spec_prefixed(prefix@, slots@),
{
    let mut out: Vec<String> = Vec::new();
    let mut i: usize = 0;
    while i < slots.len()
        invariant
            i <= slots@.len(),
            forall|k: int| 0 <= k < slots@.len() ==> #[trigger] slots@[k] < 6,
            views(out@) == spec_prefixed(prefix@, slots@.take(i as int)),
        decreases slots@.len() - i,
    {
        let mut s = prefix.to_string();
        s.append(tensor_suffix(slots[i]));
        proof {
            assert(views(out@.push(s)) =~= views(out@).push(s@));
            assert(spec_prefixed(prefix@, slots@.take(i + 1)) =~= spec_prefixed(prefix@, slots@.take(i as int)).push(
                prefix@ + spec_tensor_suffix(slots@[i as int] as int),
            ));
        }
        out.push(s);
        i += 1;
    }
    assert(slots@.take(i as int) =~= slots@);
    out
}

/// The displacement component along axis `a`.
pub open spec fn spec_primal_name(a: int) -> Seq<char> {
    if a == 0 { "u_x"@ } else if a == 1 { "u_y"@ } else { "u_z"@ }
}

/// The nodal force component along axis `a`.
pub open spec fn spec_dual_name(a: int) -> Seq<char> {
    if a == 0 { "f_x"@ } else if a == 1 { "f_y"@ } else { "f_z"@ }
}

/// The displacement components of a `d`-dimensional continuum.
pub open spec fn spec_primal_names(d: int) -> Seq<Seq<char>> {
    Seq::new(d as nat, |a: int| spec_primal_name(a))
}

/// The nodal force components of a `d`-dimensional continuum.
pub open spec fn spec_dual_names(d: int) -> Seq<Seq<char>> {
    Seq::new(d as nat, |a: int| spec_dual_name(a))
}

/// The displacement component along axis `a`.
pub fn primal_name(a: usize) -> (r: String)
    requires
        a < 3,
    ensures
        r@ == spec_primal_name(a as int),
{
    if a == 0 {
        "u_x".to_string()
    } else if a == 1 {
        "u_y".to_string()
    } else {
        "u_z".to_string()
    }
}

/// The nodal force component along axis `a`.
pub fn dual_name(a: usize) -> (r: String)
    requires
        a < 3,
    ensures
        r@ == spec_dual_name(a as int),
{
    if a == 0 {
        "f_x".to_string()
    } else if a == 1 {
        "f_y".to_string()
    } else {
        "f_z".to_string()
    }
}

/// The displacement components of a `d`-dimensional continuum, `d ≤ 3`.
pub fn primal_names(d: usize) -> (r: Vec<String>)
    requires
        d <= 3,
    ensures
        views(r@) == spec_primal_names(d as int),
{
    let mut out: Vec<String> = Vec::new();
    let mut a: usize = 0;
    while a < d
        invariant
            a <= d <= 3,
            views(out@) == spec_primal_names(a as int),
        decreases d - a,
    {
        let s = primal_name(a);
        proof {
            assert(views(out@.push(s)) =~= views(out@).push(s@));
        }
        out.push(s);
        assert(views(out@) =~= spec_primal_names(a + 1));
        a += 1;
    }
    out
}

/// The nodal force components of a `d`-dimensional continuum, `d ≤ 3`.
pub fn dual_names(d: usize) -> (r: Vec<String>)
    requires
        d <= 3,
    ensures
        views(r@) == spec_dual_names(d as int),
{
    let mut out: Vec<String> = Vec::new();
    let mut a: usize = 0;
    while a < d
        invariant
            a <= d <= 3,
            views(out@) == spec_dual_names(a as int),
        decreases d - a,
    {
        let s = dual_name(a);
        proof {
            assert(views(out@.push(s)) =~= views(out@).push(s@));
        }
        out.push(s);
        assert(views(out@) =~= spec_dual_names(a + 1));
        a += 1;
    }
    out
}

} // verus!
