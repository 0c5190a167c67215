//! Binary predicates (relations) and their families.
//!
//! Relations come in pairs: each right-way-round predicate has a reversal,
//! stored at the next index. Each belongs to a family, which supplies the
//! methods used to stock, typecheck, assert and compile it.
use vstd::prelude::*;
use vstd::string::StringExecFns;
use crate::text::{owned_text, opt_text};
use crate::knowledge::inference_subjects::InferenceSubject;
use crate::knowledge::inferences::{Inference, InferenceFamily};
use crate::knowledge::properties::Property;
use crate::knowledge::property_inferences::PropertyInferenceData;
use crate::knowledge::property_permissions::PropertyPermission;
use crate::knowledge::provision_relation::{ProvisionRelation, provision_stocked, provision_granted};
use crate::knowledge::same_property_relation::{SameAsRelations, same_as_stocked};
use crate::knowledge::setting_property_relation::{
    SettingPropertyRelations, setting_stocked, fixable, pending_of, property_index_of,
};
use crate::knowledge::property_inferences::{has_property_family, drawn};
use crate::knowledge::inferences::{JoinResult, Certainty};

verus! {

/// Typecheck answer: the terms always match.
pub const ALWAYS_MATCH: i8 = 1;

/// Typecheck answer: the family declines to judge, leaving it to the
/// standard machinery.
pub const DECLINE_TO_MATCH: i8 = -1;

/// Details of one term of a binary predicate.
#[derive(Debug, PartialEq)]
pub struct BpTermDetails {
    /// The subject a term implies, if any.
    pub implies_infs: Option<usize>,
    /// The kind a term implies, if any.
    pub implies_kind: Option<usize>,
    /// The name the term is called by, if any.
    pub called_name: Option<String>,
    /// The term as a function of the other term, if any.
    pub function_of_other: Option<String>,
    /// How the term is described in the index, if set.
    pub index_term_as: Option<String>,
}

/// A binary predicate: one way round of a relation.
#[derive(Debug, PartialEq)]
pub struct BinaryPredicate {
    /// Index of the family this predicate belongs to.
    pub relation_family: usize,
    /// Family-specific data, encoded as text.
    pub family_specific: Option<String>,
    /// The name of the relation, if it has one.
    pub relation_name: Option<String>,
    /// The name used in logs.
    pub debugging_log_name: Option<String>,
    /// The two terms.
    pub term_details: [BpTermDetails; 2],
    /// The index of the reversal of this predicate.
    pub reversal: Option<usize>,
    /// Whether this is the right-way-round one of the pair.
    pub right_way_round: bool,
    /// Schemas for the atom tasks (index 1: test, index 2: make true).
    pub task_functions: [Option<String>; 4],
    /// Loop optimisation proviso, if any.
    pub loop_parent_optimisation_proviso: Option<String>,
    /// Loop optimisation ranger, if any.
    pub loop_parent_optimisation_ranger: Option<String>,
    /// The inference subject for knowledge about this predicate, if any.
    pub knowledge_about_bp: Option<usize>,
}

/// Which module implements a method of a family of binary predicates.
#[derive(Clone, Copy, Debug, PartialEq, Eq, Structural)]
pub enum BpMethodOwner {
    /// The provision relation.
    Provision,
    /// The same-property-value relations.
    SameProperty,
    /// The property-setting relations.
    PropertySetting,
}

/// The methods a family of binary predicates provides; each names the
/// module implementing it, or is `None` when the family lacks it.
#[derive(Clone, Copy, Debug, PartialEq, Eq)]
pub struct BpFamilyMethods {
    /// Stocking the family with predicates.
    pub stock: Option<BpMethodOwner>,
    /// Typechecking a use of a predicate.
    pub typecheck: Option<BpMethodOwner>,
    /// Asserting that a predicate holds.
    pub assert_that: Option<BpMethodOwner>,
    /// Compiling a schema for a predicate.
    pub schema: Option<BpMethodOwner>,
    /// Describing a predicate for the index.
    pub describe_for_index: Option<BpMethodOwner>,
    /// Describing a predicate in problem messages.
    pub describe_for_problems: Option<BpMethodOwner>,
}

impl BpFamilyMethods {
    /// No methods at all.
    pub fn none() -> (m: BpFamilyMethods)
        ensures
            m.stock is None && m.typecheck is None && m.assert_that is None,
            m.schema is None && m.describe_for_index is None && m.describe_for_problems is None,
    {
        BpFamilyMethods {
            stock: None,
            typecheck: None,
            assert_that: None,
            schema: None,
            describe_for_index: None,
            describe_for_problems: None,
        }
    }
}

/// A family of binary predicates.
#[derive(Clone, Copy, Debug)]
pub struct BpFamily {
    /// Name of this family.
    pub name: &'static str,
    /// The methods of this family.
    pub methods: BpFamilyMethods,
}

/// Operations on the terms of binary predicates.
pub struct BPTerms;

impl BPTerms {
    /// A term implying the given subject (if any) and nothing else.
    pub fn new(infs: Option<usize>) -> (t: BpTermDetails)
        ensures
            t.implies_infs == infs,
            t.implies_kind is None,
            t.called_name is None,
            t.function_of_other is None,
            t.index_term_as is None,
    {
        BpTermDetails { implies_infs: infs, implies_kind: None, called_name: None, function_of_other: None, index_term_as: None }
    }
}

/// A copy of an optional text.
pub fn copy_text(o: &Option<String>) -> (r: Option<String>)
    ensures
        r == *o,
{
    match o {
        Some(s) => Some(s.clone()),
        None => None,
    }
}

/// A copy of term details.
pub fn copy_term(t: &BpTermDetails) -> (r: BpTermDetails)
    ensures
        r == *t,
{
    BpTermDetails {
        implies_infs: t.implies_infs,
        implies_kind: t.implies_kind,
        called_name: copy_text(&t.called_name),
        function_of_other: copy_text(&t.function_of_other),
        index_term_as: copy_text(&t.index_term_as),
    }
}

/// An optional owned copy of an optional text.
pub fn own_text(o: Option<&str>) -> (r: Option<String>)
    ensures
        match o {
            Some(s) => r matches Some(t) && t@ == s@,
            None => r is None,
        },
{
    match o {
        Some(s) => Some(String::from_str(s)),
        None => None,
    }
}

/// The two predicates `make_pair` creates are in place at `idx` and `idx + 1`.
pub open spec fn pair_made(
    reg: Seq<BinaryPredicate>, idx: int, family: usize, left: BpTermDetails, right: BpTermDetails,
    name: Seq<char>, rev_name: Seq<char>, make_true: Option<Seq<char>>, test: Option<Seq<char>>, source_name: Option<Seq<char>>,
) -> bool {
    let bp = reg[idx];
    let rev = reg[idx + 1];
    &&& bp.relation_family == family
    &&& bp.family_specific is None
    &&& owned_text(bp.relation_name) == source_name
    &&& owned_text(bp.debugging_log_name) == Some(name)
    &&& bp.term_details[0] == left
    &&& bp.term_details[1] == right
    &&& bp.reversal == Some((idx + 1) as usize)
    &&& bp.right_way_round
    &&& bp.task_functions[0] is None
    &&& owned_text(bp.task_functions[1]) == test
    &&& owned_text(bp.task_functions[2]) == make_true
    &&& bp.task_functions[3] is None
    &&& bp.loop_parent_optimisation_proviso is None
    &&& bp.loop_parent_optimisation_ranger is None
    &&& bp.knowledge_about_bp is None
    &&& rev.relation_family == family
    &&& rev.family_specific is None
    &&& owned_text(rev.relation_name) == source_name
    &&& owned_text(rev.debugging_log_name) == Some(rev_name)
    &&& rev.term_details[0] == right
    &&& rev.term_details[1] == left
    &&& rev.reversal == Some(idx as usize)
    &&& !rev.right_way_round
    &&& rev.task_functions[0] is None
    &&& rev.task_functions[1] is None
    &&& rev.task_functions[2] is None
    &&& rev.task_functions[3] is None
    &&& rev.loop_parent_optimisation_proviso is None
    &&& rev.loop_parent_optimisation_ranger is None
    &&& rev.knowledge_about_bp is None
}

/// Creation of binary predicates.
pub struct BinaryPredicates;

impl BinaryPredicates {
    /// Create a relation as a pair of predicates: the right-way-round one
    /// (named `name`, with the given schemas) at the returned index, and its
    /// reversal (named `rev_name`, terms swapped) just after it.
    pub fn make_pair(
        family: usize,
        left: BpTermDetails,
        right: BpTermDetails,
        name: &str,
        rev_name: &str,
        make_true: Option<&str>,
        test: Option<&str>,
        source_name: Option<&str>,
        registry: &mut Vec<BinaryPredicate>,
    ) -> (r: usize)
        ensures
            r == old(registry)@.len(),
            final(registry)@.len() == old(registry)@.len() + 2,
            final(registry)@.take(r as int) == old(registry)@,
            pair_made(final(registry)@, r as int, family, left, right, name@, rev_name@,
                opt_text(make_true), opt_text(test), opt_text(source_name)),
    {
        let left2 = copy_term(&left);
        let right2 = copy_term(&right);
        let idx = registry.len();
        registry.push(BinaryPredicate {
            relation_family: family,
            family_specific: None,
            relation_name: own_text(source_name),
            debugging_log_name: Some(String::from_str(name)),
            term_details: [left, right],
            reversal: None,
            right_way_round: true,
            task_functions: [None, own_text(test), own_text(make_true), None],
            loop_parent_optimisation_proviso: None,
            loop_parent_optimisation_ranger: None,
            knowledge_about_bp: None,
        });
        let rev_idx = registry.len();
        registry.push(BinaryPredicate {
            relation_family: family,
            family_specific: None,
            relation_name: own_text(source_name),
            debugging_log_name: Some(String::from_str(rev_name)),
            term_details: [right2, left2],
            reversal: Some(idx),
            right_way_round: false,
            task_functions: [None, None, None, None],
            loop_parent_optimisation_proviso: None,
            loop_parent_optimisation_ranger: None,
            knowledge_about_bp: None,
        });
        registry[idx].reversal = Some(rev_idx);
        proof {
            assert(registry@.take(idx as int) =~= old(registry)@);
        }
        idx
    }
}

/// Dispatch of the methods of binary predicate families.
pub struct BinaryPredicateFamilies;

/// The family a predicate belongs to, when its index lies inside `families`.
pub open spec fn family_of(bp: BinaryPredicate, families: Seq<BpFamily>) -> Option<BpFamily> {
    if bp.relation_family < families.len() { Some(families[bp.relation_family as int]) } else { None }
}

/// Every predicate of the registry can be fixed without running off it.
pub open spec fn all_fixable(reg: Seq<BinaryPredicate>, props: Seq<Property>) -> bool {
    forall|i: int| 0 <= i < reg.len() ==> fixable(reg, i, props)
}

/// What the stock method of the module `owner` does at stage `n`.
pub open spec fn stocked_by(owner: Option<BpMethodOwner>, n: u8, props: Seq<Property>, r0: Seq<BinaryPredicate>, r1: Seq<BinaryPredicate>) -> bool {
    match owner {
        None => r1 == r0,
        Some(BpMethodOwner::Provision) => provision_stocked(n, r0, r1),
        Some(BpMethodOwner::SameProperty) => same_as_stocked(n, props, r0, r1),
        Some(BpMethodOwner::PropertySetting) => setting_stocked(n, props, r0, r1),
    }
}

/// What stocking all families at stage `n` does: each family in turn, from
/// the first, stocks the registry.
pub open spec fn families_stocked(families: Seq<BpFamily>, n: u8, props: Seq<Property>, r0: Seq<BinaryPredicate>, r1: Seq<BinaryPredicate>) -> bool {
    exists|chain: Seq<Seq<BinaryPredicate>>| {
        &&& chain.len() == families.len() + 1
        &&& chain[0] == r0
        &&& chain[families.len() as int] == r1
        &&& forall|k: int| 0 <= k < families.len() ==>
            stocked_by(families[k].methods.stock, n, props, #[trigger] chain[k], chain[k + 1])
    }
}

/// The answer the typecheck method of a predicate's family gives.
pub open spec fn typecheck_answer(bp: BinaryPredicate, families: Seq<BpFamily>) -> i8 {
    match family_of(bp, families) {
        Some(f) => match f.methods.typecheck {
            Some(BpMethodOwner::Provision) => ALWAYS_MATCH,
            Some(BpMethodOwner::PropertySetting) => if property_index_of(bp.family_specific) is Some { ALWAYS_MATCH } else { DECLINE_TO_MATCH },
            _ => DECLINE_TO_MATCH,
        },
        None => DECLINE_TO_MATCH,
    }
}

/// The module implementing the assert method of a predicate's family.
pub open spec fn assert_owner(bp: BinaryPredicate, families: Seq<BpFamily>) -> Option<BpMethodOwner> {
    match family_of(bp, families) {
        Some(f) => f.methods.assert_that,
        None => None,
    }
}

/// Stocking that adds only predicates without pending text keeps every
/// predicate fixable.
proof fn lemma_same_as_keeps_fixable(props: Seq<Property>, r0: Seq<BinaryPredicate>, r1: Seq<BinaryPredicate>)
    requires
        same_as_stocked(2, props, r0, r1),
        all_fixable(r0, props),
    ensures
        all_fixable(r1, props),
{
    assert forall|i: int| 0 <= i < r1.len() implies fixable(r1, i, props) by {
        if i < r0.len() {
            assert(r1[i] == r1.take(r0.len() as int)[i]);
            assert(fixable(r0, i, props));
        } else {
            assert(pending_of(r1[i].family_specific) is None);
        }
    }
}

impl BinaryPredicateFamilies {
    /// Stock every family at stage `n`, in order.
    fn stock_all(families: &[BpFamily], n: u8, bp_registry: &mut Vec<BinaryPredicate>, properties: &[Property])
        requires
            n == 1 || n == 2,
            n == 2 ==> all_fixable(old(bp_registry)@, properties@),
        ensures
            families_stocked(families@, n, properties@, old(bp_registry)@, final(bp_registry)@),
    {
        let ghost r0 = bp_registry@;
        let ghost mut chain: Seq<Seq<BinaryPredicate>> = seq![r0];
        let count = families.len();
        let mut k: usize = 0;
        while k < count
            invariant
                count == families@.len(),
                n == 1 || n == 2,
                0 <= k <= count,
                chain.len() == k + 1,
                chain[0] == r0,
                chain[k as int] == bp_registry@,
                forall|j: int| 0 <= j < k ==>
                    stocked_by(families@[j].methods.stock, n, properties@, #[trigger] chain[j], chain[j + 1]),
                n == 2 ==> all_fixable(bp_registry@, properties@),
            decreases count - k,
        {
            let family = &families[k];
            let ghost before = bp_registry@;
            match family.methods.stock {
                Some(BpMethodOwner::Provision) => {
                    ProvisionRelation::stock(family, n, bp_registry, properties);
                },
                Some(BpMethodOwner::SameProperty) => {
                    SameAsRelations::stock(family, n, bp_registry, properties);
                    proof {
                        if n == 2 {
                            lemma_same_as_keeps_fixable(properties@, before, bp_registry@);
                        }
                    }
                },
                Some(BpMethodOwner::PropertySetting) => {
                    SettingPropertyRelations::stock(family, n, bp_registry, properties);
                },
                None => {},
            }
            proof {
                chain = chain.push(bp_registry@);
                assert forall|j: int| 0 <= j < k + 1 implies
                    stocked_by(families@[j].methods.stock, n, properties@, #[trigger] chain[j], chain[j + 1]) by {
                    if j < k {
                        assert(chain[j] == chain.drop_last()[j]);
                        assert(chain[j + 1] == chain.drop_last()[j + 1]);
                    }
                }
            }
            k += 1;
        }
        proof {
            assert(chain[families@.len() as int] == bp_registry@);
        }
    }

    /// Stage 1 of stocking: each family, in order, stocks the registry
    /// before any property is known.
    pub fn first_stock(families: &[BpFamily], bp_registry: &mut Vec<BinaryPredicate>)
        ensures
            families_stocked(families@, 1, Seq::empty(), old(bp_registry)@, final(bp_registry)@),
    {
        let no_properties: Vec<Property> = Vec::new();
        BinaryPredicateFamilies::stock_all(families, 1, bp_registry, no_properties.as_slice());
        proof {
            assert(no_properties@ =~= Seq::<Property>::empty());
        }
    }

    /// Stage 2 of stocking: each family, in order, stocks the registry once
    /// all properties are known.
    pub fn second_stock(families: &[BpFamily], bp_registry: &mut Vec<BinaryPredicate>, properties: &[Property])
        requires
            all_fixable(old(bp_registry)@, properties@),
        ensures
            families_stocked(families@, 2, properties@, old(bp_registry)@, final(bp_registry)@),
    {
        BinaryPredicateFamilies::stock_all(families, 2, bp_registry, properties)
    }

    /// Typecheck a use of a predicate by its family's method; a family
    /// without one (or a predicate outside the families) declines.
    pub fn typecheck(
        bp: &BinaryPredicate,
        kinds_of_terms: &[Option<usize>],
        kinds_required: &[Option<usize>],
        families: &[BpFamily],
    ) -> (r: i8)
        ensures
            r == typecheck_answer(*bp, families@),
    {
        if bp.relation_family >= families.len() {
            return DECLINE_TO_MATCH;
        }
        let family = &families[bp.relation_family];
        match family.methods.typecheck {
            Some(BpMethodOwner::Provision) => ProvisionRelation::typecheck(family, bp, kinds_of_terms, kinds_required),
            Some(BpMethodOwner::SameProperty) => SameAsRelations::typecheck(family, bp, kinds_of_terms, kinds_required),
            Some(BpMethodOwner::PropertySetting) => SettingPropertyRelations::typecheck(family, bp, kinds_of_terms, kinds_required),
            None => DECLINE_TO_MATCH,
        }
    }

    /// Compile a schema for a predicate by its family's method: every
    /// family declines, as does a family without the method.
    pub fn get_schema(task: u8, bp: &BinaryPredicate, families: &[BpFamily]) -> (r: bool)
        ensures
            !r,
    {
        if bp.relation_family >= families.len() {
            return false;
        }
        let family = &families[bp.relation_family];
        match family.methods.schema {
            Some(BpMethodOwner::Provision) => ProvisionRelation::schema(family, task, bp),
            Some(BpMethodOwner::PropertySetting) => SettingPropertyRelations::schema(family, task, bp),
            _ => false,
        }
    }

    /// Describe a predicate for the index by its family's method: only the
    /// provision relation describes itself ("provision"); otherwise the
    /// description is empty.
    pub fn describe_for_index(bp: &BinaryPredicate, families: &[BpFamily]) -> (s: String)
        ensures
            s@ == match family_of(*bp, families@) {
                Some(f) => if f.methods.describe_for_index == Some(BpMethodOwner::Provision) { "provision"@ } else { Seq::empty() },
                None => Seq::empty(),
            },
    {
        if bp.relation_family >= families.len() {
            return String::new();
        }
        let family = &families[bp.relation_family];
        match family.methods.describe_for_index {
            Some(BpMethodOwner::Provision) => ProvisionRelation::describe_for_index(family, bp),
            _ => String::new(),
        }
    }

    /// Assert that a predicate holds between two terms, by its family's
    /// method: the provision relation grants a property permission, a
    /// property-setting relation draws a property inference; a family
    /// without the method asserts nothing and answers false.
    pub fn assert_that(
        bp: &BinaryPredicate,
        subj0: usize,
        spec0: Option<&'static str>,
        subj1: usize,
        spec1: Option<&'static str>,
        families: &[BpFamily],
        subjects: &mut Vec<InferenceSubject>,
        permissions: &mut Vec<PropertyPermission>,
        inference_families: &[InferenceFamily],
        inferences: &mut Vec<Inference>,
        data_registry: &mut Vec<PropertyInferenceData>,
        property_registry: &[Property],
    ) -> (r: bool)
        requires
            assert_owner(*bp, families@) == Some(BpMethodOwner::Provision) ==>
                (spec1 is Some ==> subj0 < old(subjects)@.len()),
            assert_owner(*bp, families@) == Some(BpMethodOwner::PropertySetting) ==>
                (property_index_of(bp.family_specific) matches Some(k) ==> {
                    &&& k < property_registry@.len()
                    &&& has_property_family(inference_families@)
                    &&& subj0 < old(subjects)@.len()
                }),
        ensures
            match assert_owner(*bp, families@) {
                Some(BpMethodOwner::Provision) => {
                    &&& r == spec1 is Some
                    &&& *final(inferences) == *old(inferences)
                    &&& *final(data_registry) == *old(data_registry)
                    &&& spec1 is None ==> *final(subjects) == *old(subjects) && *final(permissions) == *old(permissions)
                    &&& spec1 matches Some(prop) ==> provision_granted(*old(subjects), *final(subjects), *old(permissions), *final(permissions), subj0, prop)
                },
                Some(BpMethodOwner::PropertySetting) => {
                    &&& *final(permissions) == *old(permissions)
                    &&& match property_index_of(bp.family_specific) {
                        None => {
                            &&& !r
                            &&& *final(subjects) == *old(subjects)
                            &&& *final(inferences) == *old(inferences)
                            &&& *final(data_registry) == *old(data_registry)
                        },
                        Some(k) => exists|jr: JoinResult| {
                            &&& drawn(*old(subjects), *final(subjects), *old(inferences), *final(inferences),
                                *old(data_registry), *final(data_registry), inference_families@, subj0,
                                property_registry@[k as int].name, spec1, Certainty::Likely, false, jr)
                            &&& r == (jr == JoinResult::Joined || jr == JoinResult::Replaced)
                        },
                    }
                },
                _ => {
                    &&& !r
                    &&& *final(subjects) == *old(subjects)
                    &&& *final(permissions) == *old(permissions)
                    &&& *final(inferences) == *old(inferences)
                    &&& *final(data_registry) == *old(data_registry)
                },
            },
    {
        if bp.relation_family >= families.len() {
            return false;
        }
        let family = &families[bp.relation_family];
        match family.methods.assert_that {
            Some(BpMethodOwner::Provision) => ProvisionRelation::assert_that(
                family, bp, subj0, spec0, subj1, spec1, subjects, permissions, inference_families, inferences,
                data_registry, property_registry,
            ),
            Some(BpMethodOwner::PropertySetting) => SettingPropertyRelations::assert_that(
                family, bp, subj0, spec0, subj1, spec1, subjects, permissions, inference_families, inferences,
                data_registry, property_registry,
            ),
            _ => false,
        }
    }
}

} // verus!
