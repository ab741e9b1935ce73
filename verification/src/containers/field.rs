//! The components of a field, as a kernel resolves them: each name it reads
//! becomes the position of that component in the field's rows, matched once
//! per zone so that the kernel indexes instead of searching.

use vstd::prelude::*;
use crate::error::ModelError;
use crate::models::{views, str_views};
use crate::text::str_eq;

verus! {

broadcast use vstd::string::group_string_axioms;

/// Position marking an optional component the field does not carry.
pub const ABSENT_COMPONENT: u32 = 0xffff_ffff;

/// `i` is the first position of `name` among `components`.
pub open spec fn first_index(components: Seq<Seq<char>>, name: Seq<char>, i: int) -> bool {
    &&& 0 <= i < components.len()
    &&& components[i] == name
    &&& forall|j: int| 0 <= j < i ==> components[j] != name
}

/// Every wanted name is a component.
pub open spec fn all_present(components: Seq<Seq<char>>, wanted: Seq<Seq<char>>) -> bool {
    forall|k: int| 0 <= k < wanted.len() ==> components.contains(#[trigger] wanted[k])
}

/// `name` is the first wanted name that is not a component.
pub open spec fn first_missing(components: Seq<Seq<char>>, wanted: Seq<Seq<char>>, name: Seq<char>) -> bool {
    exists|k: int|
        0 <= k < wanted.len() && wanted[k] == name && !components.contains(name) && (forall|j: int|
            0 <= j < k ==> components.contains(#[trigger] wanted[j]))
}

/// `idx` gives, for each wanted name, its first position among `components`.
pub open spec fn resolved(components: Seq<Seq<char>>, wanted: Seq<Seq<char>>, idx: Seq<u32>) -> bool {
    &&& idx.len() == wanted.len()
    &&& forall|k: int| 0 <= k < wanted.len() ==> first_index(components, wanted[k], #[trigger] idx[k] as int)
}

/// `idx` gives, for each optional name, its first position among
/// `components`, or [`ABSENT_COMPONENT`] when the field does not carry it.
pub open spec fn resolved_optional(components: Seq<Seq<char>>, wanted: Seq<Seq<char>>, idx: Seq<u32>) -> bool {
    &&& idx.len() == wanted.len()
    &&& forall|k: int| 0 <= k < wanted.len() ==> if components.contains(wanted[k]) {
        first_index(components, wanted[k], #[trigger] idx[k] as int)
    } else {
        idx[k] == ABSENT_COMPONENT
    }
}

/// The first position of `name` among `components`, if any.
fn find_component(components: &[String], name: &str) -> (r: Option<u32>)
    requires
        components@.len() < ABSENT_COMPONENT,
    ensures
        r matches Some(i) ==> first_index(views(components@), name@, i as int),
        r is None <==> !views(components@).contains(name@),
{
    let mut i: usize = 0;
    while i < components.len()
        invariant
            i <= components@.len(),
            components@.len() < ABSENT_COMPONENT,
            forall|j: int| 0 <= j < i ==> views(components@)[j] != name@,
        decreases components@.len() - i,
    {
        if str_eq(components[i].as_str(), name) {
            assert(views(components@)[i as int] == name@);
            return Some(i as u32);
        }
        i += 1;
    }
    proof {
        if views(components@).contains(name@) {
            let j = choose|j: int| 0 <= j < views(components@).len() && views(components@)[j] == name@;
            assert(views(components@)[j] != name@);
        }
    }
    None
}

/// The positions of the `wanted` components among a field's `components`,
/// in the order wanted. Refused at the first wanted name the field lacks,
/// naming it and the field's role `what`.
pub fn resolve_components(components: &[String], wanted: &[String], what: &str) -> (r: Result<Vec<u32>, ModelError>)
    requires
        components@.len() < ABSENT_COMPONENT,
    ensures
        r is Ok <==> all_present(views(components@), views(wanted@)),
        r matches Ok(v) ==> resolved(views(components@), views(wanted@), v@),
        r matches Err(e) ==> e matches ModelError::MissingComponent { what: w, component: c } && w@ == what@
            && first_missing(views(components@), views(wanted@), c@),
{
    let mut out: Vec<u32> = Vec::new();
    let mut k: usize = 0;
    while k < wanted.len()
        invariant
            k <= wanted@.len(),
            components@.len() < ABSENT_COMPONENT,
            out@.len() == k,
            forall|j: int| 0 <= j < k ==> views(components@).contains(#[trigger] views(wanted@)[j]),
            forall|j: int| 0 <= j < k ==> first_index(views(components@), views(wanted@)[j], #[trigger] out@[j] as int),
        decreases wanted@.len() - k,
    {
        match find_component(components, wanted[k].as_str()) {
            Some(i) => {
                out.push(i);
            },
            None => {
                let missing = wanted[k].clone();
                proof {
                    assert(views(wanted@)[k as int] == missing@);
                    assert(!views(components@).contains(missing@));
                    assert(first_missing(views(components@), views(wanted@), missing@));
                }
                return Err(ModelError::MissingComponent { what: what.to_string(), component: missing });
            },
        }
        k += 1;
    }
    Ok(out)
}

/// The positions of the optional `wanted` components among a field's
/// `components`, [`ABSENT_COMPONENT`] for each the field does not carry.
pub fn resolve_optional_components(components: &[String], wanted: &[&str]) -> (r: Vec<u32>)
    requires
        components@.len() < ABSENT_COMPONENT,
    ensures
        resolved_optional(views(components@), str_views(wanted@), r@),
{
    let mut out: Vec<u32> = Vec::new();
    let mut k: usize = 0;
    while k < wanted.len()
        invariant
            k <= wanted@.len(),
            components@.len() < ABSENT_COMPONENT,
            out@.len() == k,
            forall|j: int| 0 <= j < k ==> if views(components@).contains(str_views(wanted@)[j]) {
                first_index(views(components@), str_views(wanted@)[j], #[trigger] out@[j] as int)
            } else {
                out@[j] == ABSENT_COMPONENT
            },
        decreases wanted@.len() - k,
    {
        match find_component(components, wanted[k]) {
            Some(i) => {
                out.push(i);
            },
            None => {
                out.push(ABSENT_COMPONENT);
            },
        }
        k += 1;
    }
    out
}

} // verus!
