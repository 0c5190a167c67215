//! The provision relation: which properties can be held by which subjects.
//!
//! Asserting "X provides P" grants X permission to have property P.
use vstd::prelude::*;
use vstd::string::StringExecFns;
use crate::text::owned_text;
use crate::calculus::{
    BpFamily, BpFamilyMethods, BinaryPredicate, BinaryPredicates, BPTerms, BpTermDetails, BpMethodOwner, pair_made, ALWAYS_MATCH,
};
use crate::knowledge::inference_subjects::InferenceSubject;
use crate::knowledge::inferences::{Inference, InferenceFamily};
use crate::knowledge::properties::Property;
use crate::knowledge::property_inferences::PropertyInferenceData;
use crate::knowledge::property_permissions::{PropertyPermission, first_grant};

verus! {

/// Index of the provision family in its family registry.
pub const PROVISION_FAMILY: usize = 0;

/// Index of the provision predicate (its reversal is at index 1).
pub const R_PROVISION: usize = 0;

/// The provision relation.
pub struct ProvisionRelation;

/// A term implying nothing and called nothing.
pub open spec fn plain_term() -> BpTermDetails {
    BpTermDetails { implies_infs: None, implies_kind: None, called_name: None, function_of_other: None, index_term_as: None }
}

/// `t1` is `t0` with its index description set to `d`.
pub open spec fn term_redescribed(t0: BpTermDetails, t1: BpTermDetails, d: Seq<char>) -> bool {
    &&& t1.implies_infs == t0.implies_infs
    &&& t1.implies_kind == t0.implies_kind
    &&& t1.called_name == t0.called_name
    &&& t1.function_of_other == t0.function_of_other
    &&& owned_text(t1.index_term_as) == Some(d)
}

/// `b1` is `b0` with its terms described as `d0` and `d1` for the index.
pub open spec fn bp_redescribed(b0: BinaryPredicate, b1: BinaryPredicate, d0: Seq<char>, d1: Seq<char>) -> bool {
    &&& b1 == BinaryPredicate { term_details: b1.term_details, ..b0 }
    &&& term_redescribed(b0.term_details[0], b1.term_details[0], d0)
    &&& term_redescribed(b0.term_details[1], b1.term_details[1], d1)
}

/// What stocking the provision family at stage `n` does: at stage 1 it
/// creates "provides" and its reversal "is-provided-by" (registry `mid`),
/// then describes the terms of the predicate at `R_PROVISION` as "value" and
/// "property" for the index, and those of that predicate's reversal the
/// other way round; at other stages nothing.
pub open spec fn provision_stocked(n: u8, r0: Seq<BinaryPredicate>, r1: Seq<BinaryPredicate>) -> bool {
    if n != 1 {
        r1 == r0
    } else {
        exists|mid: Seq<BinaryPredicate>| {
            &&& mid.len() == r0.len() + 2
            &&& mid.take(r0.len() as int) == r0
            &&& pair_made(mid, r0.len() as int, PROVISION_FAMILY, plain_term(), plain_term(), "provides"@, "is-provided-by"@,
                None, None, Some("provision"@))
            &&& provision_described(mid, r1)
        }
    }
}

/// `r1` is `mid` with the provision predicate's terms described for the index.
pub open spec fn provision_described(mid: Seq<BinaryPredicate>, r1: Seq<BinaryPredicate>) -> bool {
    let rev = mid[R_PROVISION as int].reversal;
    &&& r1.len() == mid.len()
    &&& match rev {
        Some(rv) => if rv < mid.len() && rv != R_PROVISION {
            &&& bp_redescribed(mid[R_PROVISION as int], r1[R_PROVISION as int], "value"@, "property"@)
            &&& bp_redescribed(mid[rv as int], r1[rv as int], "property"@, "value"@)
            &&& forall|j: int| 0 <= j < mid.len() && j != R_PROVISION && j != rv ==> #[trigger] r1[j] == mid[j]
        } else if rv == R_PROVISION {
            &&& bp_redescribed(mid[R_PROVISION as int], r1[R_PROVISION as int], "property"@, "value"@)
            &&& forall|j: int| 0 <= j < mid.len() && j != R_PROVISION ==> #[trigger] r1[j] == mid[j]
        } else {
            &&& bp_redescribed(mid[R_PROVISION as int], r1[R_PROVISION as int], "value"@, "property"@)
            &&& forall|j: int| 0 <= j < mid.len() && j != R_PROVISION ==> #[trigger] r1[j] == mid[j]
        },
        None => {
            &&& bp_redescribed(mid[R_PROVISION as int], r1[R_PROVISION as int], "value"@, "property"@)
            &&& forall|j: int| 0 <= j < mid.len() && j != R_PROVISION ==> #[trigger] r1[j] == mid[j]
        },
    }
}

impl ProvisionRelation {
    /// The provision family (with stock, typecheck, assert, schema and
    /// index description methods) and an empty predicate registry.
    pub fn start() -> (r: (Vec<BpFamily>, Vec<BinaryPredicate>))
        ensures
            r.0@.len() == 1,
            r.0@[0].name@ == "provision"@,
            r.0@[0].methods == (BpFamilyMethods {
                stock: Some(BpMethodOwner::Provision),
                typecheck: Some(BpMethodOwner::Provision),
                assert_that: Some(BpMethodOwner::Provision),
                schema: Some(BpMethodOwner::Provision),
                describe_for_index: Some(BpMethodOwner::Provision),
                describe_for_problems: None,
            }),
            r.1@.len() == 0,
    {
        let mut families = Vec::new();
        families.push(BpFamily {
            name: "provision",
            methods: BpFamilyMethods {
                stock: Some(BpMethodOwner::Provision),
                typecheck: Some(BpMethodOwner::Provision),
                assert_that: Some(BpMethodOwner::Provision),
                schema: Some(BpMethodOwner::Provision),
                describe_for_index: Some(BpMethodOwner::Provision),
                describe_for_problems: None,
            },
        });
        (families, Vec::new())
    }

    /// Stock the provision family: at stage 1, create the provision relation
    /// and describe its terms for the index.
    pub fn stock(family: &BpFamily, n: u8, bp_registry: &mut Vec<BinaryPredicate>, property_registry: &[Property])
        ensures
            provision_stocked(n, old(bp_registry)@, final(bp_registry)@),
    {
        if n == 1 {
            let family_idx = PROVISION_FAMILY;
            let left_term = BPTerms::new(None);
            let right_term = BPTerms::new(None);
            let idx = BinaryPredicates::make_pair(
                family_idx, left_term, right_term, "provides", "is-provided-by", None, None, Some("provision"), bp_registry,
            );
            let ghost mid = bp_registry@;
            let rev_idx = bp_registry[R_PROVISION].reversal;
            bp_registry[R_PROVISION].term_details[0].index_term_as = Some(String::from_str("value"));
            bp_registry[R_PROVISION].term_details[1].index_term_as = Some(String::from_str("property"));
            if let Some(rev) = rev_idx {
                if rev < bp_registry.len() {
                    bp_registry[rev].term_details[0].index_term_as = Some(String::from_str("property"));
                    bp_registry[rev].term_details[1].index_term_as = Some(String::from_str("value"));
                }
            }
            proof {
                assert(mid.take(old(bp_registry)@.len() as int) == old(bp_registry)@);
            }
        }
    }

    /// Typecheck a use of the provision relation: it always matches.
    pub fn typecheck(
        family: &BpFamily,
        bp: &BinaryPredicate,
        kinds_of_terms: &[Option<usize>],
        kinds_required: &[Option<usize>],
    ) -> (r: i8)
        ensures
            r == ALWAYS_MATCH,
    {
        ALWAYS_MATCH
    }

    /// Assert that subject `subj0` provides the property named by `spec1`:
    /// grant it permission (marked as granted by "provision"). Without a
    /// property name, nothing happens and the result is false.
    pub fn assert_that(
        family: &BpFamily,
        bp: &BinaryPredicate,
        subj0: usize,
        spec0: Option<&'static str>,
        subj1: usize,
        spec1: Option<&'static str>,
        subjects: &mut Vec<InferenceSubject>,
        permissions: &mut Vec<PropertyPermission>,
        inference_families: &[InferenceFamily],
        inferences: &mut Vec<Inference>,
        data_registry: &mut Vec<PropertyInferenceData>,
        property_registry: &[Property],
    ) -> (r: bool)
        requires
            spec1 is Some ==> subj0 < old(subjects)@.len(),
        ensures
            r == spec1 is Some,
            *final(inferences) == *old(inferences),
            *final(data_registry) == *old(data_registry),
            spec1 is None ==> *final(subjects) == *old(subjects) && *final(permissions) == *old(permissions),
            spec1 matches Some(prop) ==> provision_granted(*old(subjects), *final(subjects), *old(permissions), *final(permissions), subj0, prop),
    {
        match spec1 {
            Some(property_name) => {
                let ghost s0 = subjects@[subj0 as int];
                let empty: Vec<InferenceSubject> = Vec::new();
                PropertyPermission::grant(
                    &mut subjects[subj0], property_name, Some("provision"), subj0, empty.as_slice(), permissions,
                );
                proof {
                    assert forall|j: int| 0 <= j < old(subjects)@.len() && j != subj0 implies subjects@[j] == old(subjects)@[j] by {}
                }
                true
            },
            None => false,
        }
    }

    /// Compile a schema for the provision relation: declines (false).
    pub fn schema(family: &BpFamily, task: u8, bp: &BinaryPredicate) -> (r: bool)
        ensures
            !r,
    {
        false
    }

    /// The provision relation's description in the index: "provision".
    pub fn describe_for_index(family: &BpFamily, bp: &BinaryPredicate) -> (s: String)
        ensures
            s@ == "provision"@,
    {
        String::from_str("provision")
    }
}

/// What granting by the provision relation does: subject `subj` gets
/// permission for `prop` (an existing one is reused), as `grant` states.
pub open spec fn provision_granted(
    subjects0: Vec<InferenceSubject>, subjects1: Vec<InferenceSubject>,
    perms0: Vec<PropertyPermission>, perms1: Vec<PropertyPermission>,
    subj: usize, prop: &'static str,
) -> bool {
    let s0 = subjects0@[subj as int];
    let s1 = subjects1@[subj as int];
    &&& subjects1@.len() == subjects0@.len()
    &&& forall|j: int| 0 <= j < subjects0@.len() && j != subj ==> subjects1@[j] == subjects0@[j]
    &&& match first_grant(s0.permissions_list@, perms0@, prop@, 0) {
        Some(pp) => s1 == s0 && perms1@ == perms0@,
        None => {
            &&& perms1@ == perms0@.push(PropertyPermission {
                property_owner: subj,
                property_granted: prop,
                where_granted: Some("provision"),
                storage_data: None,
            })
            &&& s1.permissions_list@ == s0.permissions_list@.push(perms0@.len() as usize)
            &&& s1.broader_than == s0.broader_than
            &&& s1.infs_family == s0.infs_family
            &&& s1.represents == s0.represents
            &&& s1.inf_list@ == s0.inf_list@
            &&& s1.imp_list@ == s0.imp_list@
            &&& s1.alias_variable == s0.alias_variable
            &&& s1.log_name == s0.log_name
        },
    }
}

} // verus!
