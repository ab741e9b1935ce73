//! The physics of the model layer: the kinds of matrices they contribute,
//! their natures, the senses of constraint relations, and the structural
//! declarations the assembler reads.

pub mod kernel;
pub mod mazars;
pub mod mpc;
pub mod plastic;
pub mod plasticity;
pub mod radiation;
pub mod shell;
pub mod tensor;

use vstd::prelude::*;
use crate::atoms::NodeId;
use crate::containers::field::{
    ABSENT_COMPONENT, all_present, first_missing, resolved, resolved_optional, resolve_components,
    resolve_optional_components,
};
use crate::containers::finite_element_space::SubFiniteElementSpace;
use crate::containers::matrix::{DofOrdering, MatrixEntry, SubMatrix};
use crate::containers::mesh::SubMesh;
use crate::error::ModelError;
use crate::text::{decimal, join, spec_decimal, spec_join, str_eq};

verus! {

broadcast use vstd::string::group_string_axioms;

/// The kind of element matrix a physics contributes.
#[derive(Clone, Copy, Debug, PartialEq, Eq, Structural)]
pub enum MatrixKind {
    /// Stiffness / conductivity `K`.
    Stiffness,
    /// Mass / capacity `M`.
    Mass,
    /// Geometric (initial-stress) stiffness `K_g`.
    Geometric,
    /// Consistent tangent `K_t`.
    Tangent,
}

impl Default for MatrixKind {
    /// The stiffness, the matrix every physics has.
    fn default() -> (r: MatrixKind)
        ensures
            r == MatrixKind::Stiffness,
    {
        MatrixKind::Stiffness
    }
}

impl MatrixKind {
    /// Number of kinds — the width of a per-kind cache.
    pub const COUNT: usize = 4;

    /// The kind's own name, as messages spell it.
    pub open spec fn spec_variant_name(self) -> Seq<char> {
        match self {
            MatrixKind::Stiffness => "Stiffness"@,
            MatrixKind::Mass => "Mass"@,
            MatrixKind::Geometric => "Geometric"@,
            MatrixKind::Tangent => "Tangent"@,
        }
    }

    /// The kind's own name, as messages spell it.
    pub fn variant_name(self) -> (r: &'static str)
        ensures
            r@ == self.spec_variant_name(),
    {
        match self {
            MatrixKind::Stiffness => "Stiffness",
            MatrixKind::Mass => "Mass",
            MatrixKind::Geometric => "Geometric",
            MatrixKind::Tangent => "Tangent",
        }
    }

    /// Dense index of a kind, in declaration order.
    pub open spec fn spec_index(self) -> nat {
        match self {
            MatrixKind::Stiffness => 0,
            MatrixKind::Mass => 1,
            MatrixKind::Geometric => 2,
            MatrixKind::Tangent => 3,
        }
    }

    /// Dense index in `0..COUNT`, for indexing per-kind caches.
    pub fn index(self) -> (r: usize)
        ensures
            r == self.spec_index(),
            r < Self::COUNT,
    {
        match self {
            MatrixKind::Stiffness => 0,
            MatrixKind::Mass => 1,
            MatrixKind::Geometric => 2,
            MatrixKind::Tangent => 3,
        }
    }
}

/// Distinct kinds have distinct indices, so a per-kind cache never mixes two kinds.
pub proof fn lemma_matrix_kind_index_injective(a: MatrixKind, b: MatrixKind)
    ensures
        a.spec_index() == b.spec_index() <==> a == b,
{
}

/// The nature of a physics.
#[derive(Clone, Copy, Debug, PartialEq, Eq, Structural)]
pub enum Physics {
    /// Solid mechanics.
    Mechanical,
    /// Heat conduction.
    Thermal,
    /// A Lagrange constraint.
    Constraint,
    /// Explicitly classified as none of the others.
    Other,
    /// Mass transport.
    Diffusion,
    /// Radiative exchange.
    Radiation,
}

impl Physics {
    /// The lowercase name of this nature.
    pub open spec fn spec_name(self) -> Seq<char> {
        match self {
            Physics::Mechanical => "mechanical"@,
            Physics::Thermal => "thermal"@,
            Physics::Constraint => "constraint"@,
            Physics::Other => "other"@,
            Physics::Diffusion => "diffusion"@,
            Physics::Radiation => "radiation"@,
        }
    }

    /// The lowercase name of this nature.
    pub fn name(self) -> (r: &'static str)
        ensures
            r@ == self.spec_name(),
    {
        match self {
            Physics::Mechanical => "mechanical",
            Physics::Thermal => "thermal",
            Physics::Constraint => "constraint",
            Physics::Other => "other",
            Physics::Diffusion => "diffusion",
            Physics::Radiation => "radiation",
        }
    }

    /// The display form of this nature: its name.
    pub fn to_string(&self) -> (r: String)
        ensures
            r@ == self.spec_name(),
    {
        self.name().to_string()
    }
}

/// Two natures never share a name, so a name designates one nature.
pub proof fn lemma_physics_names_distinct(a: Physics, b: Physics)
    ensures
        a.spec_name() == b.spec_name() <==> a == b,
{
    reveal_strlit("mechanical");
    reveal_strlit("thermal");
    reveal_strlit("constraint");
    reveal_strlit("other");
    reveal_strlit("diffusion");
    reveal_strlit("radiation");
    if a != b {
        assert(a.spec_name().len() != b.spec_name().len() || a.spec_name()[0] != b.spec_name()[0]);
    }
}

/// How a physics' consistent tangent is obtained.
#[derive(Clone, Copy, Debug, PartialEq, Eq, Structural)]
pub enum TangentSource {
    /// A closed form.
    Analytic,
    /// Finite differences of the update.
    Numerical,
}

/// The sense of a constraint relation.
#[derive(Clone, Copy, Debug, PartialEq, Eq, Structural)]
pub enum RelationSense {
    /// `Σₖ aₖ·uₖ = g`.
    Equality,
    /// `Σₖ aₖ·uₖ ≥ g`.
    GreaterEqual,
    /// `Σₖ aₖ·uₖ ≤ g`.
    LessEqual,
}

/// The sense a spelling stands for: `None`, `=` or `==` for an equality,
/// `>=` or `≥`, `<=` or `≤`; any other spelling stands for none.
pub open spec fn spec_parse_sense(sense: Option<Seq<char>>) -> Option<RelationSense> {
    match sense {
        None => Some(RelationSense::Equality),
        Some(s) => if s == "="@ || s == "=="@ {
            Some(RelationSense::Equality)
        } else if s == ">="@ || s == "≥"@ {
            Some(RelationSense::GreaterEqual)
        } else if s == "<="@ || s == "≤"@ {
            Some(RelationSense::LessEqual)
        } else {
            None
        },
    }
}

impl Default for RelationSense {
    /// Equality, the relation every constraint imposes unless told otherwise.
    fn default() -> (r: RelationSense)
        ensures
            r == RelationSense::Equality,
    {
        RelationSense::Equality
    }
}

impl RelationSense {
    /// The display form: `=`, `>=` or `<=`.
    pub open spec fn spec_symbol(self) -> Seq<char> {
        match self {
            RelationSense::Equality => "="@,
            RelationSense::GreaterEqual => ">="@,
            RelationSense::LessEqual => "<="@,
        }
    }

    /// Parse the user-facing spelling: `"="` (equality), `">="` (`≥`), `"<="`
    /// (`≤`). `None` defaults to equality. Any other spelling is refused.
    pub fn parse(sense: Option<&str>) -> (r: Result<RelationSense, ModelError>)
        ensures
            ({
                let spelled = match sense {
                    None => None,
                    Some(s) => Some(s@),
                };
                &&& r matches Ok(v) ==> spec_parse_sense(spelled) == Some(v)
                &&& r is Err <==> spec_parse_sense(spelled) is None
                &&& r matches Err(e) ==> e matches ModelError::UnknownRelationSense { spelling } && Some(spelling@) == spelled
            }),
    {
        match sense {
            None => Ok(RelationSense::Equality),
            Some(s) => {
                if str_eq(s, "=") || str_eq(s, "==") {
                    Ok(RelationSense::Equality)
                } else if str_eq(s, ">=") || str_eq(s, "≥") {
                    Ok(RelationSense::GreaterEqual)
                } else if str_eq(s, "<=") || str_eq(s, "≤") {
                    Ok(RelationSense::LessEqual)
                } else {
                    Err(ModelError::UnknownRelationSense { spelling: s.to_string() })
                }
            },
        }
    }

    /// The display form: `=`, `>=` or `<=`.
    pub fn to_string(&self) -> (r: String)
        ensures
            r@ == self.spec_symbol(),
    {
        match self {
            RelationSense::Equality => "=".to_string(),
            RelationSense::GreaterEqual => ">=".to_string(),
            RelationSense::LessEqual => "<=".to_string(),
        }
    }
}

/// Parsing the display form of a sense gives the sense back.
pub proof fn lemma_relation_sense_round_trip(s: RelationSense)
    ensures
        spec_parse_sense(Some(s.spec_symbol())) == Some(s),
{
    reveal_strlit("=");
    reveal_strlit("==");
    reveal_strlit(">=");
    reveal_strlit("≥");
    reveal_strlit("<=");
    reveal_strlit("≤");
    assert(">="@[0] != "="@[0] && ">="@[0] != "=="@[0]);
    assert("<="@[0] != "="@[0] && "<="@[0] != "=="@[0] && "<="@[0] != ">="@[0] && "<="@.len() != "≥"@.len());
}

/// One term `coefficient · u(node, variable)` of a linear constraint relation;
/// its reaction lands in `target_dual`, the dual row of `variable`.
#[derive(Debug)]
pub struct ConstraintTerm<C> {
    /// Constrained node.
    pub node: NodeId,
    /// Constrained primal variable.
    pub variable: String,
    /// Dual row of `variable` where the reaction is injected.
    pub target_dual: String,
    /// Scalar coefficient.
    pub coefficient: C,
}

impl<C> View for ConstraintTerm<C> {
    type V = (NodeId, Seq<char>, Seq<char>, C);

    open spec fn view(&self) -> Self::V {
        (self.node, self.variable@, self.target_dual@, self.coefficient)
    }
}

/// One linear relation `Σₖ coeffₖ · u(nodeₖ, varₖ) ⋈ g`, enforced by the
/// multiplier at `multiplier_node`; its right-hand side `g` is read at that
/// node in the `imposed_value` component.
#[derive(Debug)]
pub struct Relation<C> {
    /// The multiplier node enforcing the relation.
    pub multiplier_node: NodeId,
    /// The component holding the relation's right-hand side.
    pub imposed_value: String,
    /// The terms of the left-hand side.
    pub terms: Vec<ConstraintTerm<C>>,
    /// Equality or unilateral inequality.
    pub sense: RelationSense,
}

impl<C> View for Relation<C> {
    type V = (NodeId, Seq<char>, Seq<(NodeId, Seq<char>, Seq<char>, C)>, RelationSense);

    open spec fn view(&self) -> Self::V {
        (self.multiplier_node, self.imposed_value@, self.terms@.map_values(|t: ConstraintTerm<C>| t@), self.sense)
    }
}

/// Structural declaration of a volumetric block: the subspaces its element
/// kernel integrates over (the first drives the cell loop), the node support
/// giving both its rows and columns, its variables, ordering and symmetry.
#[derive(Debug)]
pub struct MatrixLayout {
    /// FE subspaces the element kernel integrates over.
    pub fespaces: Vec<SubFiniteElementSpace>,
    /// POI1 sub-mesh giving the block's row and column node sequence.
    pub support: SubMesh,
    /// Row variable names (dual).
    pub dual_vars: Vec<String>,
    /// Column variable names (primal).
    pub primal_vars: Vec<String>,
    /// `(node_local, var)` ↔ matrix-index ordering.
    pub ordering: DofOrdering,
    /// Whether the block is numerically symmetric.
    pub symmetric: bool,
}

/// Structural declaration of an inter-mesh block: rows integrated on one
/// mesh, columns on another, paired cell by cell.
#[derive(Debug)]
pub struct CouplingLayout {
    /// FE subspaces carrying the rows.
    pub fespaces: Vec<SubFiniteElementSpace>,
    /// FE subspaces carrying the columns, on the facing mesh.
    pub col_fespaces: Vec<SubFiniteElementSpace>,
    /// POI1 sub-mesh giving the block's row node sequence.
    pub row_support: SubMesh,
    /// POI1 sub-mesh giving the block's column node sequence.
    pub col_support: SubMesh,
    /// Row variable names (dual).
    pub dual_vars: Vec<String>,
    /// Column variable names (primal).
    pub primal_vars: Vec<String>,
    /// `(node_local, var)` ↔ matrix-index ordering.
    pub ordering: DofOrdering,
}

/// One matrix contribution of a sub-model, as the assembler consumes it;
/// `V` is the scalar type of literal entries.
#[derive(Debug)]
pub enum Contribution<V> {
    /// A block integrated on the fly from its layout.
    Computed(MatrixLayout),
    /// Blocks whose entries the sub-model has already filled in.
    Literal(Vec<SubMatrix<V>>),
    /// An off-diagonal block coupling two distinct meshes.
    Coupling(CouplingLayout),
}

/// Where a physics' components sit in the rows its point kernel is handed.
#[derive(Debug)]
pub struct ZoneLayout {
    /// Position of each deformation component.
    pub deformation: Vec<u32>,
    /// Position of each previous-state component.
    pub state: Vec<u32>,
    /// Position of each required material component.
    pub material: Vec<u32>,
    /// Position of each optional material component.
    pub optional_material: Vec<u32>,
}

/// Where a matrix kernel's components sit in the rows it is handed.
#[derive(Debug)]
pub struct ElementLayout {
    /// Position of each required material component.
    pub material: Vec<u32>,
    /// Position of each optional material component.
    pub optional_material: Vec<u32>,
    /// Position of each state component.
    pub state: Vec<u32>,
}

/// Resolve a physics' conventions against the component lists of the fields
/// its point kernel is handed: the deformation it reads, the previous state
/// it reads back, its required and optional material. Refused at the first
/// missing required component — deformation first, then previous state, then
/// material; an absent optional component is marked
/// [`ABSENT_COMPONENT`](crate::containers::field::ABSENT_COMPONENT).
pub fn zone_layout(
    deformation_reads: &[String],
    state_reads: &[String],
    material_components: &[String],
    optional_material: &[&str],
    deformation: &[String],
    prev: &[String],
    material: &[String],
) -> (r: Result<ZoneLayout, ModelError>)
    requires
        deformation@.len() < ABSENT_COMPONENT,
        prev@.len() < ABSENT_COMPONENT,
        material@.len() < ABSENT_COMPONENT,
    ensures
        ({
            let (d, s, m) = (views(deformation@), views(prev@), views(material@));
            let (dr, sr, mr) = (views(deformation_reads@), views(state_reads@), views(material_components@));
            &&& r is Ok <==> all_present(d, dr) && all_present(s, sr) && all_present(m, mr)
            &&& r matches Err(e) ==> e matches ModelError::MissingComponent { what: w, component: c } && if !all_present(d, dr) {
                w@ == "deformation"@ && first_missing(d, dr, c@)
            } else if !all_present(s, sr) {
                w@ == "previous state"@ && first_missing(s, sr, c@)
            } else {
                w@ == "material"@ && first_missing(m, mr, c@)
            }
            &&& r matches Ok(z) ==> {
                &&& resolved(d, dr, z.deformation@)
                &&& resolved(s, sr, z.state@)
                &&& resolved(m, mr, z.material@)
                &&& resolved_optional(m, str_views(optional_material@), z.optional_material@)
            }
        }),
{
    let deformation = match resolve_components(deformation, deformation_reads, "deformation") {
        Ok(v) => v,
        Err(e) => {
            return Err(e);
        },
    };
    let state = match resolve_components(prev, state_reads, "previous state") {
        Ok(v) => v,
        Err(e) => {
            return Err(e);
        },
    };
    let mat = match resolve_components(material, material_components, "material") {
        Ok(v) => v,
        Err(e) => {
            return Err(e);
        },
    };
    let optional = resolve_optional_components(material, optional_material);
    Ok(ZoneLayout { deformation, state, material: mat, optional_material: optional })
}

/// Resolve a matrix kernel's conventions against the fields it is handed:
/// the state components it reads for `kind` (none read ⇒ none resolved, and
/// no state needed), its required and optional material. Refused when it
/// reads a state and none is given, then at the first missing state
/// component, then at the first missing material component.
pub fn element_layout(
    kind: MatrixKind,
    material_components: &[String],
    optional_material: &[&str],
    element_state_reads: &[String],
    material: &[String],
    state: Option<&[String]>,
) -> (r: Result<ElementLayout, ModelError>)
    requires
        material@.len() < ABSENT_COMPONENT,
        state matches Some(s) ==> s@.len() < ABSENT_COMPONENT,
    ensures
        ({
            let m = views(material@);
            let mr = views(material_components@);
            let sr = views(element_state_reads@);
            let state_ok = sr.len() == 0 || (state matches Some(s) && all_present(views(s@), sr));
            &&& r is Ok <==> state_ok && all_present(m, mr)
            &&& r matches Err(e) ==> if sr.len() > 0 && state is None {
                e == (ModelError::StateNotSupplied { kind })
            } else if !state_ok {
                state matches Some(s) && e matches ModelError::MissingComponent { what: w, component: c }
                    && w@ == "state"@ && first_missing(views(s@), sr, c@)
            } else {
                e matches ModelError::MissingComponent { what: w, component: c } && w@ == "material"@
                    && first_missing(m, mr, c@)
            }
            &&& r matches Ok(l) ==> {
                &&& resolved(m, mr, l.material@)
                &&& resolved_optional(m, str_views(optional_material@), l.optional_material@)
                &&& if sr.len() == 0 {
                    l.state@.len() == 0
                } else {
                    state matches Some(s) && resolved(views(s@), sr, l.state@)
                }
            }
        }),
{
    let state_lay = if element_state_reads.len() == 0 {
        Vec::new()
    } else {
        match state {
            Some(s) => match resolve_components(s, element_state_reads, "state") {
                Ok(v) => v,
                Err(e) => {
                    return Err(e);
                },
            },
            None => {
                return Err(ModelError::StateNotSupplied { kind });
            },
        }
    };
    let mat = match resolve_components(material, material_components, "material") {
        Ok(v) => v,
        Err(e) => {
            return Err(e);
        },
    };
    let optional = resolve_optional_components(material, optional_material);
    Ok(ElementLayout { material: mat, optional_material: optional, state: state_lay })
}

/// The one-line summary of a sub-model: `SubModel<label>`.
pub open spec fn spec_display(label: Seq<char>) -> Seq<char> {
    "SubModel<"@ + label + ">"@
}

/// The one-line summary of a sub-model: `SubModel<label>`.
pub fn display_label(label: &str) -> (r: String)
    ensures
        r@ == spec_display(label@),
{
    let mut s = "SubModel<".to_string();
    s.append(label);
    s.append(">");
    s
}

/// The multi-line summary of a domain physics: its header line, its primal
/// and dual variables, and the node count of its support.
pub open spec fn spec_domain_render(header: Seq<char>, primal: Seq<Seq<char>>, dual: Seq<Seq<char>>, nodes: nat) -> Seq<char> {
    header + "\n  primal var(s): "@ + spec_join(primal, ", "@) + "\n  dual var(s):   "@ + spec_join(dual, ", "@)
        + "\n  support: "@ + spec_decimal(nodes) + " node(s)"@
}

/// The multi-line summary of a domain physics: its header line, its primal
/// and dual variables, and the node count of its support.
pub fn domain_render(header: String, primal: &[String], dual: &[String], nodes: usize) -> (r: String)
    ensures
        r@ == spec_domain_render(header@, views(primal@), views(dual@), nodes as nat),
{
    let mut s = header;
    s.append("\n  primal var(s): ");
    s.append(join(primal, ", ").as_str());
    s.append("\n  dual var(s):   ");
    s.append(join(dual, ", ").as_str());
    s.append("\n  support: ");
    s.append(decimal(nodes).as_str());
    s.append(" node(s)");
    s
}

/// The views of a list of strings.
pub open spec fn views(names: Seq<String>) -> Seq<Seq<char>> {
    names.map_values(|s: String| s@)
}

/// The views of a list of string slices.
pub open spec fn str_views(names: Seq<&str>) -> Seq<Seq<char>> {
    names.map_values(|s: &str| s@)
}

/// A static component list in owned form.
pub fn owned_components(names: &[&str]) -> (r: Vec<String>)
    ensures
        views(r@) == str_views(names@),
{
    let mut out: Vec<String> = Vec::new();
    let mut i: usize = 0;
    while i < names.len()
        invariant
            i <= names@.len(),
            views(out@) == str_views(names@.take(i as int)),
        decreases names@.len() - i,
    {
        let s = names[i].to_string();
        proof {
            assert(views(out@.push(s)) =~= views(out@).push(s@));
            assert(str_views(names@.take(i + 1)) =~= str_views(names@.take(i as int)).push(names@[i as int]@));
        }
        out.push(s);
        i += 1;
    }
    assert(names@.take(i as int) =~= names@);
    out
}

/// A string holding the characters of `s`.
pub fn owned(s: &str) -> (r: String)
    ensures
        r@ == s@,
{
    s.to_string()
}

/// One literal entry per paired node, in pairing order.
pub open spec fn bordering_entries<V>(
    row_nodes: Seq<NodeId>,
    col_nodes: Seq<NodeId>,
    row_var: Seq<char>,
    col_var: Seq<char>,
    value: V,
    entries: Seq<MatrixEntry<V>>,
) -> bool {
    &&& entries.len() == if row_nodes.len() <= col_nodes.len() { row_nodes.len() } else { col_nodes.len() }
    &&& forall|k: int| 0 <= k < entries.len() ==> {
        &&& (#[trigger] entries[k]).row_node == row_nodes[k]
        &&& entries[k].col_node == col_nodes[k]
        &&& entries[k].row_var@ == row_var
        &&& entries[k].col_var@ == col_var
        &&& entries[k].value == value
    }
}

/// `c` and `ct` are the `C` / `Cᵀ` pair of one constraint term over the
/// paired sub-meshes `mult` (multipliers) and `cons` (constrained nodes):
/// `C` has rows `(mult, imposed)` and columns `(cons, variable)`, `Cᵀ` rows
/// `(cons, target_dual)` and columns `(mult, multiplier)`; both are
/// unsymmetric, nodes-then-variables, with one entry `coefficient` per
/// paired node.
pub open spec fn is_block_pair<V>(
    mult: <SubMesh as View>::V,
    cons: <SubMesh as View>::V,
    variable: Seq<char>,
    target_dual: Seq<char>,
    multiplier: Seq<char>,
    imposed: Seq<char>,
    coefficient: V,
    c: SubMatrix<V>,
    ct: SubMatrix<V>,
) -> bool {
    &&& c.row_support@ == mult
    &&& c.col_support@ == cons
    &&& views(c.row_vars@) == seq![imposed]
    &&& views(c.col_vars@) == seq![variable]
    &&& c.ordering == DofOrdering::NodesThenVars
    &&& !c.symmetric
    &&& bordering_entries(mult.3, cons.3, imposed, variable, coefficient, c.entries@)
    &&& ct.row_support@ == cons
    &&& ct.col_support@ == mult
    &&& views(ct.row_vars@) == seq![target_dual]
    &&& views(ct.col_vars@) == seq![multiplier]
    &&& ct.ordering == DofOrdering::NodesThenVars
    &&& !ct.symmetric
    &&& bordering_entries(cons.3, mult.3, target_dual, multiplier, coefficient, ct.entries@)
}

/// The Lagrange `C` / `Cᵀ` block pair of **one** constraint term over one
/// paired sub-mesh (multiplier ↔ constrained, node `r` with node `r`), every
/// entry equal to `coefficient`:
///
/// - `C`  — rows `(multiplier, imposed_value)`, cols `(constrained, variable)`;
/// - `Cᵀ` — rows `(constrained, target_dual)`, cols `(multiplier, multiplier)`.
pub fn constraint_block_pair<V: Copy>(
    multiplier_sm: &SubMesh,
    constrained_sm: &SubMesh,
    variable: &str,
    target_dual: &str,
    multiplier: &str,
    imposed_value: &str,
    coefficient: V,
) -> (r: (SubMatrix<V>, SubMatrix<V>))
    ensures
        is_block_pair(multiplier_sm@, constrained_sm@, variable@, target_dual@, multiplier@, imposed_value@, coefficient, r.0, r.1),
{
    let mult_nodes = multiplier_sm.connectivity();
    let cons_nodes = constrained_sm.connectivity();
    let mut c = SubMatrix::new(
        multiplier_sm.duplicate(),
        constrained_sm.duplicate(),
        single(imposed_value),
        single(variable),
        DofOrdering::NodesThenVars,
        false,
    );
    let mut ct = SubMatrix::new(
        constrained_sm.duplicate(),
        multiplier_sm.duplicate(),
        single(target_dual),
        single(multiplier),
        DofOrdering::NodesThenVars,
        false,
    );
    let n = if cons_nodes.len() <= mult_nodes.len() { cons_nodes.len() } else { mult_nodes.len() };
    let mut i: usize = 0;
    while i < n
        invariant
            n <= cons_nodes@.len(),
            n <= mult_nodes@.len(),
            n == cons_nodes@.len() || n == mult_nodes@.len(),
            i <= n,
            mult_nodes@ == multiplier_sm.connectivity@,
            cons_nodes@ == constrained_sm.connectivity@,
            c.row_support@ == multiplier_sm@,
            c.col_support@ == constrained_sm@,
            views(c.row_vars@) == seq![imposed_value@],
            views(c.col_vars@) == seq![variable@],
            c.ordering == DofOrdering::NodesThenVars,
            !c.symmetric,
            ct.row_support@ == constrained_sm@,
            ct.col_support@ == multiplier_sm@,
            views(ct.row_vars@) == seq![target_dual@],
            views(ct.col_vars@) == seq![multiplier@],
            ct.ordering == DofOrdering::NodesThenVars,
            !ct.symmetric,
            c.entries@.len() == i,
            ct.entries@.len() == i,
            forall|k: int| 0 <= k < i ==> {
                &&& (#[trigger] c.entries@[k]).row_node == mult_nodes@[k]
                &&& c.entries@[k].col_node == cons_nodes@[k]
                &&& c.entries@[k].row_var@ == imposed_value@
                &&& c.entries@[k].col_var@ == variable@
                &&& c.entries@[k].value == coefficient
            },
            forall|k: int| 0 <= k < i ==> {
                &&& (#[trigger] ct.entries@[k]).row_node == cons_nodes@[k]
                &&& ct.entries@[k].col_node == mult_nodes@[k]
                &&& ct.entries@[k].row_var@ == target_dual@
                &&& ct.entries@[k].col_var@ == multiplier@
                &&& ct.entries@[k].value == coefficient
            },
        decreases n - i,
    {
        let cons = cons_nodes[i];
        let mult = mult_nodes[i];
        c.add_entry(mult, owned(imposed_value), cons, owned(variable), coefficient);
        ct.add_entry(cons, owned(target_dual), mult, owned(multiplier), coefficient);
        i += 1;
    }
    (c, ct)
}

/// A one-name variable list.
fn single(name: &str) -> (r: Vec<String>)
    ensures
        views(r@) == seq![name@],
{
    let mut v = Vec::new();
    v.push(name.to_string());
    proof {
        assert(views(v@) =~= seq![name@]);
    }
    v
}

} // verus!
