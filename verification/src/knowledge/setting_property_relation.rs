//! The property-setting relations: for a valued property, such as "weight",
//! a relation meaning "the weight of X is Y".
//!
//! A relation may be made before its property exists: it then records the
//! property's name as pending text ("pending:weight"), and at stage 2 the
//! name is resolved to the property's index ("property:3").
use vstd::prelude::*;
use vstd::string::StringExecFns;
use crate::text::{owned_text, stripped, parsed_usize, decimal, decimal_text, strip_prefix_text, parse_usize,
    lemma_decimal_reads_back, str_eq};
use crate::search::{first_where, first_from, lemma_first_where};
use crate::calculus::{
    BinaryPredicate, BinaryPredicates, BpFamily, BpFamilyMethods, BpMethodOwner, BPTerms, copy_text, pair_made,
    ALWAYS_MATCH, DECLINE_TO_MATCH,
};
use crate::knowledge::inference_subjects::InferenceSubject;
use crate::knowledge::inferences::{Inference, InferenceFamily, JoinResult, join_result};
use crate::knowledge::properties::{Property, find_property, property_named};
use crate::knowledge::property_inferences::{PropertyInferences, PropertyInferenceData, has_property_family, drawn,
    property_inference};
use crate::knowledge::property_permissions::PropertyPermission;
use crate::knowledge::provision_relation::plain_term;

verus! {

/// Index of the property-setting family in its family registry.
pub const PROPERTY_SETTING_FAMILY: usize = 0;

/// The property-setting relations.
pub struct SettingPropertyRelations;

/// The family-specific data of a property-setting predicate, kept as text:
/// `pending:<name>` before the property is known, `property:<index>` after.
pub struct PropertySettingBpData;

/// The pending property name recorded in family-specific data.
pub open spec fn pending_of(fs: Option<String>) -> Option<Seq<char>> {
    match owned_text(fs) {
        Some(t) => stripped(t, "pending:"@),
        None => None,
    }
}

/// The property index recorded in family-specific data.
pub open spec fn property_index_of(fs: Option<String>) -> Option<usize> {
    match owned_text(fs) {
        Some(t) => match stripped(t, "property:"@) {
            Some(rest) => parsed_usize(rest),
            None => None,
        },
        None => None,
    }
}

/// The text recording the property at index `k`.
pub open spec fn resolved_tag(k: nat) -> Seq<char> {
    "property:"@ + decimal(k)
}

/// The text recording a pending property name.
pub open spec fn pending_tag(name: Seq<char>) -> Seq<char> {
    "pending:"@ + name
}

/// The schema testing a property's value.
pub open spec fn setting_test(p: Seq<char>) -> Seq<char> {
    "*1."@ + p + " == *2"@
}

/// The schema setting a property's value.
pub open spec fn setting_now(p: Seq<char>) -> Seq<char> {
    "*1."@ + p + " = *2"@
}

/// `b1` is `b0` with its test and make-true schemas set for the property `p`.
pub open spec fn schemas_set(b0: BinaryPredicate, b1: BinaryPredicate, p: Seq<char>) -> bool {
    &&& BinaryPredicate { task_functions: b0.task_functions, ..b1 } == b0
    &&& b1.task_functions[0] == b0.task_functions[0]
    &&& b1.task_functions[3] == b0.task_functions[3]
    &&& owned_text(b1.task_functions[1]) == Some(setting_test(p))
    &&& owned_text(b1.task_functions[2]) == Some(setting_now(p))
}

/// `b1` is `b0` with its family-specific data set to the text `t`.
pub open spec fn tagged(b0: BinaryPredicate, b1: BinaryPredicate, t: Seq<char>) -> bool {
    &&& BinaryPredicate { family_specific: b0.family_specific, ..b1 } == b0
    &&& owned_text(b1.family_specific) == Some(t)
}

/// The property a predicate of the family is to be resolved to: the first
/// property named by its pending text.
pub open spec fn resolution(bp: BinaryPredicate, props: Seq<Property>) -> Option<int> {
    if bp.relation_family != PROPERTY_SETTING_FAMILY {
        None
    } else {
        match pending_of(bp.family_specific) {
            Some(name) => first_where(props, property_named(name)),
            None => None,
        }
    }
}

/// The predicate whose schemas fixing the predicate at `i` sets: `i`
/// itself when it is the right way round, else its reversal.
pub open spec fn schema_target(reg: Seq<BinaryPredicate>, i: int) -> Option<int> {
    if reg[i].right_way_round {
        Some(i)
    } else {
        match reg[i].reversal {
            Some(rv) => Some(rv as int),
            None => None,
        }
    }
}

/// Fixing the predicate at `i` is possible without running off the registry.
pub open spec fn fixable(reg: Seq<BinaryPredicate>, i: int, props: Seq<Property>) -> bool {
    &&& 0 <= i < reg.len()
    &&& (resolution(reg[i], props) is Some && !reg[i].right_way_round) ==>
        (reg[i].reversal matches Some(rv) ==> rv < reg.len())
}

/// What fixing the predicate at `i` does: when its pending text names a
/// property at index `k`, the predicate and its reversal (when inside the
/// registry) record `k`, and the schemas of the right-way-round one of the
/// two are set for the property; otherwise nothing changes.
pub open spec fn fix_step(r0: Seq<BinaryPredicate>, r1: Seq<BinaryPredicate>, i: int, props: Seq<Property>) -> bool {
    match resolution(r0[i], props) {
        None => r1 == r0,
        Some(k) => {
            let tag = resolved_tag(k as nat);
            let rev = r0[i].reversal;
            let target = schema_target(r0, i);
            let p = props[k].name@;
            &&& r1.len() == r0.len()
            &&& forall|j: int| 0 <= j < r0.len() ==> {
                let retagged = j == i || (rev == Some(j as usize));
                let b0 = r0[j];
                let b1 = #[trigger] r1[j];
                &&& (retagged ==> owned_text(b1.family_specific) == Some(tag))
                &&& (!retagged ==> b1.family_specific == b0.family_specific)
                &&& (target == Some(j) ==> schemas_set(b0, BinaryPredicate { family_specific: b0.family_specific, ..b1 }, p))
                &&& (target != Some(j) ==> BinaryPredicate { family_specific: b0.family_specific, ..b1 } == b0)
            }
        },
    }
}

/// What stocking at stage `n` does: at stage 2, each predicate in turn,
/// from the first, is fixed; at any other stage nothing changes.
pub open spec fn setting_stocked(n: u8, props: Seq<Property>, r0: Seq<BinaryPredicate>, r1: Seq<BinaryPredicate>) -> bool {
    if n != 2 {
        r1 == r0
    } else {
        exists|chain: Seq<Seq<BinaryPredicate>>| {
            &&& chain.len() == r0.len() + 1
            &&& chain[0] == r0
            &&& chain[r0.len() as int] == r1
            &&& forall|k: int| 0 <= k < r0.len() ==> fix_step(#[trigger] chain[k], chain[k + 1], k, props)
        }
    }
}

/// Fixing never moves predicates nor changes which family they belong to,
/// which way round they are, or their reversal.
pub open spec fn same_shape(r0: Seq<BinaryPredicate>, r1: Seq<BinaryPredicate>) -> bool {
    &&& r1.len() == r0.len()
    &&& forall|j: int| 0 <= j < r0.len() ==> {
        &&& (#[trigger] r1[j]).relation_family == r0[j].relation_family
        &&& r1[j].right_way_round == r0[j].right_way_round
        &&& r1[j].reversal == r0[j].reversal
    }
}

impl PropertySettingBpData {
    /// The text recording a pending property name.
    pub fn encode_pending(name: &str) -> (s: String)
        ensures
            s@ == pending_tag(name@),
    {
        let mut s = String::from_str("pending:");
        s.append(name);
        proof {
            reveal_strlit("pending:");
        }
        s
    }

    /// The text recording the property at index `idx`.
    pub fn encode_property(idx: usize) -> (s: String)
        ensures
            s@ == resolved_tag(idx as nat),
    {
        let mut s = String::from_str("property:");
        let digits = decimal_text(idx);
        s.append(digits.as_str());
        proof {
            reveal_strlit("property:");
        }
        s
    }

    /// The pending property name in family-specific data.
    pub fn get_pending(family_specific: &Option<String>) -> (r: Option<&str>)
        ensures
            match r {
                Some(t) => pending_of(*family_specific) == Some(t@),
                None => pending_of(*family_specific) is None,
            },
    {
        proof {
            reveal_strlit("pending:");
        }
        match family_specific {
            Some(s) => strip_prefix_text(s.as_str(), "pending:"),
            None => None,
        }
    }

    /// The property index in family-specific data.
    pub fn get_property(family_specific: &Option<String>) -> (r: Option<usize>)
        ensures
            r == property_index_of(*family_specific),
    {
        proof {
            reveal_strlit("property:");
        }
        match family_specific {
            Some(s) => match strip_prefix_text(s.as_str(), "property:") {
                Some(rest) => parse_usize(rest),
                None => None,
            },
            None => None,
        }
    }
}

/// Recorded property indices are never taken for pending text.
pub proof fn lemma_resolved_not_pending(k: nat)
    ensures
        stripped(resolved_tag(k), "pending:"@) is None,
{
    reveal_strlit("property:");
    reveal_strlit("pending:");
    let t = resolved_tag(k);
    assert(t[1] == 'r');
    assert("pending:"@[1] == 'e');
    if 8 <= t.len() && t.take(8) == "pending:"@ {
        assert(t.take(8)[1] == t[1]);
    }
}

/// The pair of predicates at `idx` is a property-setting relation whose two
/// predicates both record the text `tag`.
pub open spec fn setting_pair(reg: Seq<BinaryPredicate>, idx: int, tag: Seq<char>) -> bool {
    let clear = reg.update(idx, BinaryPredicate { family_specific: None, ..reg[idx] })
        .update(idx + 1, BinaryPredicate { family_specific: None, ..reg[idx + 1] });
    &&& 0 <= idx
    &&& idx + 1 < reg.len()
    &&& pair_made(clear, idx, PROPERTY_SETTING_FAMILY, plain_term(), plain_term(),
        "set-property"@, "set-property-reversed"@, None, None, None)
    &&& owned_text(reg[idx].family_specific) == Some(tag)
    &&& owned_text(reg[idx + 1].family_specific) == Some(tag)
}

/// Right-way-round predicates of the family whose pending text is `name`.
pub open spec fn pending_setter(name: Seq<char>) -> spec_fn(BinaryPredicate) -> bool {
    |b: BinaryPredicate| b.relation_family == PROPERTY_SETTING_FAMILY && b.right_way_round
        && pending_of(b.family_specific) == Some(name)
}

/// The property index a predicate of the family records.
pub open spec fn set_property_of(bp: BinaryPredicate) -> Option<usize> {
    if bp.relation_family != PROPERTY_SETTING_FAMILY { None } else { property_index_of(bp.family_specific) }
}

impl SettingPropertyRelations {
    /// The property-setting family, with its stock, typecheck, assert and
    /// schema methods, and an empty registry of predicates.
    pub fn start() -> (r: (Vec<BpFamily>, Vec<BinaryPredicate>))
        ensures
            r.0@.len() == 1,
            r.0@[0].name@ == "property_setting"@,
            r.0@[0].methods == (BpFamilyMethods {
                stock: Some(BpMethodOwner::PropertySetting),
                typecheck: Some(BpMethodOwner::PropertySetting),
                assert_that: Some(BpMethodOwner::PropertySetting),
                schema: Some(BpMethodOwner::PropertySetting),
                describe_for_index: None,
                describe_for_problems: None,
            }),
            r.1@.len() == 0,
    {
        proof {
            reveal_strlit("property_setting");
        }
        let family = BpFamily {
            name: "property_setting",
            methods: BpFamilyMethods {
                stock: Some(BpMethodOwner::PropertySetting),
                typecheck: Some(BpMethodOwner::PropertySetting),
                assert_that: Some(BpMethodOwner::PropertySetting),
                schema: Some(BpMethodOwner::PropertySetting),
                describe_for_index: None,
                describe_for_problems: None,
            },
        };
        (vec![family], Vec::new())
    }

    /// Set the test and make-true schemas of the predicate at `bp_idx` for
    /// the property at `prn_idx`.
    fn set_property_BP_schemas_internal(
        bp_idx: usize,
        prn_idx: usize,
        bp_registry: &mut Vec<BinaryPredicate>,
        properties: &[Property],
    )
        requires
            bp_idx < old(bp_registry)@.len(),
            prn_idx < properties@.len(),
        ensures
            final(bp_registry)@ == old(bp_registry)@.update(bp_idx as int, final(bp_registry)@[bp_idx as int]),
            schemas_set(old(bp_registry)@[bp_idx as int], final(bp_registry)@[bp_idx as int], properties@[prn_idx as int].name@),
    {
        proof {
            reveal_strlit("*1.");
            reveal_strlit(" == *2");
            reveal_strlit(" = *2");
        }
        let p = properties[prn_idx].name;
        let mut test = String::from_str("*1.");
        test.append(p);
        test.append(" == *2");
        let mut now = String::from_str("*1.");
        now.append(p);
        now.append(" = *2");
        let t0 = copy_text(&bp_registry[bp_idx].task_functions[0]);
        let t3 = copy_text(&bp_registry[bp_idx].task_functions[3]);
        bp_registry[bp_idx].task_functions = [t0, Some(test), Some(now), t3];
        proof {
            assert(final(bp_registry)@ =~= old(bp_registry)@.update(bp_idx as int, final(bp_registry)@[bp_idx as int]));
        }
    }

    /// Set the test and make-true schemas of the predicate at `bp_idx` for
    /// the property at `prn_idx`.
    pub fn set_property_BP_schemas(
        bp_idx: usize,
        prn_idx: usize,
        bp_registry: &mut Vec<BinaryPredicate>,
        properties: &[Property],
    )
        requires
            bp_idx < old(bp_registry)@.len(),
            prn_idx < properties@.len(),
        ensures
            final(bp_registry)@ == old(bp_registry)@.update(bp_idx as int, final(bp_registry)@[bp_idx as int]),
            schemas_set(old(bp_registry)@[bp_idx as int], final(bp_registry)@[bp_idx as int], properties@[prn_idx as int].name@),
    {
        SettingPropertyRelations::set_property_BP_schemas_internal(bp_idx, prn_idx, bp_registry, properties)
    }

    /// Resolve the pending text of the predicate at `bp_idx`: when it names
    /// a property, the predicate and its reversal (when inside the registry)
    /// record the property's index, and the schemas of the right-way-round
    /// one are set for the property. Otherwise nothing changes.
    fn fix_property_bp_internal(bp_idx: usize, bp_registry: &mut Vec<BinaryPredicate>, properties: &[Property])
        requires
            fixable(old(bp_registry)@, bp_idx as int, properties@),
        ensures
            fix_step(old(bp_registry)@, final(bp_registry)@, bp_idx as int, properties@),
            same_shape(old(bp_registry)@, final(bp_registry)@),
    {
        if bp_registry[bp_idx].relation_family != PROPERTY_SETTING_FAMILY {
            return;
        }
        let found = match PropertySettingBpData::get_pending(&bp_registry[bp_idx].family_specific) {
            Some(name) => find_property(name, properties),
            None => {
                return;
            },
        };
        let prn_idx = match found {
            Some(i) => i,
            None => {
                return;
            },
        };
        let ghost r0 = bp_registry@;
        let encoded = PropertySettingBpData::encode_property(prn_idx);
        let copy = String::from_str(encoded.as_str());
        bp_registry[bp_idx].family_specific = Some(encoded);
        let rev = bp_registry[bp_idx].reversal;
        if let Some(rev_idx) = rev {
            if rev_idx < bp_registry.len() {
                bp_registry[rev_idx].family_specific = Some(copy);
            }
        }
        let ghost r1 = bp_registry@;
        if bp_registry[bp_idx].right_way_round {
            SettingPropertyRelations::set_property_BP_schemas_internal(bp_idx, prn_idx, bp_registry, properties);
        } else if let Some(rev_idx) = bp_registry[bp_idx].reversal {
            SettingPropertyRelations::set_property_BP_schemas_internal(rev_idx, prn_idx, bp_registry, properties);
        }
        proof {
            let r2 = bp_registry@;
            let target = schema_target(r0, bp_idx as int);
            assert(r1.len() == r0.len());
            assert forall|j: int| 0 <= j < r0.len() implies {
                let retagged = j == bp_idx || (rev == Some(j as usize));
                let b0 = r0[j];
                let b1 = #[trigger] r2[j];
                &&& (retagged ==> owned_text(b1.family_specific) == Some(resolved_tag(prn_idx as nat)))
                &&& (!retagged ==> b1.family_specific == b0.family_specific)
                &&& (target == Some(j) ==> schemas_set(b0, BinaryPredicate { family_specific: b0.family_specific, ..b1 }, properties@[prn_idx as int].name@))
                &&& (target != Some(j) ==> BinaryPredicate { family_specific: b0.family_specific, ..b1 } == b0)
            } by {
                if target != Some(j) {
                    assert(r2[j] == r1[j]);
                }
            }
        }
    }

    /// Resolve the pending text of the predicate at `bp_idx` (see `stock`).
    pub fn fix_property_bp(bp_idx: usize, bp_registry: &mut Vec<BinaryPredicate>, property_registry: &[Property])
        requires
            fixable(old(bp_registry)@, bp_idx as int, property_registry@),
        ensures
            fix_step(old(bp_registry)@, final(bp_registry)@, bp_idx as int, property_registry@),
            same_shape(old(bp_registry)@, final(bp_registry)@),
    {
        SettingPropertyRelations::fix_property_bp_internal(bp_idx, bp_registry, property_registry)
    }

    /// Stock the family: at stage 2, resolve the pending text of each of its
    /// predicates in turn (see `fix_property_bp`); at any other stage, do nothing.
    pub fn stock(family: &BpFamily, n: u8, bp_registry: &mut Vec<BinaryPredicate>, property_registry: &[Property])
        requires
            n == 2 ==> forall|i: int| 0 <= i < old(bp_registry)@.len() ==> fixable(old(bp_registry)@, i, property_registry@),
        ensures
            setting_stocked(n, property_registry@, old(bp_registry)@, final(bp_registry)@),
            n == 2 ==> forall|i: int| 0 <= i < final(bp_registry)@.len() ==> fixable(final(bp_registry)@, i, property_registry@),
    {
        if n != 2 {
            return;
        }
        let ghost r0 = bp_registry@;
        let ghost props = property_registry@;
        let ghost mut chain: Seq<Seq<BinaryPredicate>> = seq![r0];
        let len = bp_registry.len();
        let mut i: usize = 0;
        while i < len
            invariant
                len == r0.len(),
                props == property_registry@,
                0 <= i <= len,
                chain.len() == i + 1,
                chain[0] == r0,
                chain[i as int] == bp_registry@,
                forall|k: int| 0 <= k < i ==> fix_step(#[trigger] chain[k], chain[k + 1], k, props),
                same_shape(r0, bp_registry@),
                forall|j: int| 0 <= j < len ==> fixable(bp_registry@, j, props),
            decreases len - i,
        {
            let ghost before = bp_registry@;
            SettingPropertyRelations::fix_property_bp_internal(i, bp_registry, property_registry);
            proof {
                let after = bp_registry@;
                assert forall|j: int| 0 <= j < len implies fixable(after, j, props) by {
                    assert(fixable(before, j, props));
                    match resolution(before[i as int], props) {
                        None => {},
                        Some(k) => {
                            if owned_text(after[j].family_specific) == Some(resolved_tag(k as nat)) {
                                lemma_resolved_not_pending(k as nat);
                                assert(resolution(after[j], props) is None);
                            } else {
                                assert(after[j].family_specific == before[j].family_specific);
                            }
                        },
                    }
                }
                chain = chain.push(after);
                assert forall|k: int| 0 <= k < i + 1 implies fix_step(#[trigger] chain[k], chain[k + 1], k, props) by {
                    if k < i {
                        assert(chain[k] == chain.drop_last()[k]);
                    }
                }
            }
            i += 1;
        }
        proof {
            assert(chain[r0.len() as int] == bp_registry@);
        }
    }

    /// Typecheck a use of a property-setting relation: it matches once its
    /// property is resolved, and is left to the standard machinery before.
    pub fn typecheck(
        family: &BpFamily,
        bp: &BinaryPredicate,
        kinds_of_terms: &[Option<usize>],
        kinds_required: &[Option<usize>],
    ) -> (r: i8)
        ensures
            r == if property_index_of(bp.family_specific) is Some { ALWAYS_MATCH } else { DECLINE_TO_MATCH },
    {
        if PropertySettingBpData::get_property(&bp.family_specific).is_some() {
            ALWAYS_MATCH
        } else {
            DECLINE_TO_MATCH
        }
    }

    /// Assert that a property-setting relation holds: draw an inference
    /// that the subject at `subj0` has the relation's property, with the
    /// value `spec1`. True when the inference was joined or raised an
    /// existing one; false, with nothing drawn, when the relation's property
    /// is not resolved.
    pub fn assert_that(
        family: &BpFamily,
        bp: &BinaryPredicate,
        subj0: usize,
        spec0: Option<&'static str>,
        subj1: usize,
        spec1: Option<&'static str>,
        subjects: &mut Vec<InferenceSubject>,
        permissions: &mut Vec<PropertyPermission>,
        inference_families: &[InferenceFamily],
        inferences: &mut Vec<Inference>,
        data_registry: &mut Vec<PropertyInferenceData>,
        property_registry: &[Property],
    ) -> (r: bool)
        requires
            property_index_of(bp.family_specific) matches Some(k) ==> {
                &&& k < property_registry@.len()
                &&& has_property_family(inference_families@)
                &&& subj0 < old(subjects)@.len()
            },
        ensures
            *final(permissions) == *old(permissions),
            match property_index_of(bp.family_specific) {
                None => {
                    &&& !r
                    &&& *final(subjects) == *old(subjects)
                    &&& *final(inferences) == *old(inferences)
                    &&& *final(data_registry) == *old(data_registry)
                },
                Some(k) => exists|jr: JoinResult| {
                    &&& drawn(*old(subjects), *final(subjects), *old(inferences), *final(inferences),
                        *old(data_registry), *final(data_registry), inference_families@, subj0,
                        property_registry@[k as int].name, spec1, crate::knowledge::inferences::Certainty::Likely, false, jr)
                    &&& r == (jr == JoinResult::Joined || jr == JoinResult::Replaced)
                },
            },
    {
        let prn_idx = match PropertySettingBpData::get_property(&bp.family_specific) {
            Some(i) => i,
            None => {
                return false;
            },
        };
        let prn = property_registry[prn_idx].name;
        let result = PropertyInferences::draw(subj0, prn, spec1, inference_families, inferences, subjects, data_registry);
        match result {
            JoinResult::Joined => true,
            JoinResult::Replaced => true,
            _ => false,
        }
    }

    /// Compile a schema for a property-setting relation: the family declines.
    pub fn schema(family: &BpFamily, task: u8, bp: &BinaryPredicate) -> (r: bool)
        ensures
            !r,
    {
        false
    }

    /// Make a property-setting relation for the property named
    /// `property_name`, which need not exist yet: both predicates of the new
    /// pair record the name as pending text. Returns the index of the
    /// right-way-round predicate.
    pub fn make_set_property_BP(property_name: &str, bp_registry: &mut Vec<BinaryPredicate>) -> (r: usize)
        ensures
            r == old(bp_registry)@.len(),
            final(bp_registry)@.len() == old(bp_registry)@.len() + 2,
            final(bp_registry)@.take(r as int) == old(bp_registry)@,
            setting_pair(final(bp_registry)@, r as int, pending_tag(property_name@)),
    {
        proof {
            reveal_strlit("set-property");
            reveal_strlit("set-property-reversed");
        }
        let idx = BinaryPredicates::make_pair(
            PROPERTY_SETTING_FAMILY,
            BPTerms::new(None),
            BPTerms::new(None),
            "set-property",
            "set-property-reversed",
            None,
            None,
            None,
            bp_registry,
        );
        let ghost made = bp_registry@;
        let pending = PropertySettingBpData::encode_pending(property_name);
        let copy = String::from_str(pending.as_str());
        bp_registry[idx].family_specific = Some(pending);
        let rev = bp_registry[idx].reversal;
        if let Some(rev_idx) = rev {
            if rev_idx < bp_registry.len() {
                bp_registry[rev_idx].family_specific = Some(copy);
            }
        }
        proof {
            let reg = bp_registry@;
            let clear = reg.update(idx as int, BinaryPredicate { family_specific: None, ..reg[idx as int] })
                .update(idx + 1, BinaryPredicate { family_specific: None, ..reg[idx + 1] });
            assert(clear =~= made);
            assert(reg.take(idx as int) =~= made.take(idx as int));
        }
        idx
    }

    /// The first right-way-round predicate of the family whose pending text
    /// is `property_name`.
    pub fn find_set_property_BP(property_name: &str, bp_registry: &[BinaryPredicate]) -> (r: Option<usize>)
        ensures
            match r {
                Some(i) => first_where(bp_registry@, pending_setter(property_name@)) == Some(i as int),
                None => first_where(bp_registry@, pending_setter(property_name@)) is None,
            },
    {
        let n = bp_registry.len();
        let mut i: usize = 0;
        while i < n
            invariant
                n == bp_registry@.len(),
                0 <= i <= n,
                first_where(bp_registry@, pending_setter(property_name@))
                    == first_from(bp_registry@, pending_setter(property_name@), i as int),
            decreases n - i,
        {
            let bp = &bp_registry[i];
            if bp.relation_family == PROPERTY_SETTING_FAMILY && bp.right_way_round {
                if let Some(pending) = PropertySettingBpData::get_pending(&bp.family_specific) {
                    if str_eq(pending, property_name) {
                        return Some(i);
                    }
                }
            }
            i += 1;
        }
        None
    }

    /// Make a property-setting relation for the existing property at
    /// `prn_idx`: both predicates record its index, and the right-way-round
    /// one has its schemas set for the property.
    pub fn make_set_nameless_property_BP(
        prn_idx: usize,
        bp_registry: &mut Vec<BinaryPredicate>,
        property_registry: &[Property],
    ) -> (r: usize)
        requires
            prn_idx < property_registry@.len(),
        ensures
            r == old(bp_registry)@.len(),
            final(bp_registry)@.len() == old(bp_registry)@.len() + 2,
            final(bp_registry)@.take(r as int) == old(bp_registry)@,
            ({
                let reg = final(bp_registry)@;
                let plain = BinaryPredicate { task_functions: [None, None, None, None], ..reg[r as int] };
                &&& setting_pair(reg.update(r as int, plain), r as int, resolved_tag(prn_idx as nat))
                &&& schemas_set(plain, reg[r as int], property_registry@[prn_idx as int].name@)
            }),
    {
        let idx = BinaryPredicates::make_pair(
            PROPERTY_SETTING_FAMILY,
            BPTerms::new(None),
            BPTerms::new(None),
            "set-property",
            "set-property-reversed",
            None,
            None,
            None,
            bp_registry,
        );
        let ghost made = bp_registry@;
        let encoded = PropertySettingBpData::encode_property(prn_idx);
        let copy = String::from_str(encoded.as_str());
        bp_registry[idx].family_specific = Some(encoded);
        let rev = bp_registry[idx].reversal;
        if let Some(rev_idx) = rev {
            if rev_idx < bp_registry.len() {
                bp_registry[rev_idx].family_specific = Some(copy);
            }
        }
        let ghost tagged_reg = bp_registry@;
        SettingPropertyRelations::set_property_BP_schemas_internal(idx, prn_idx, bp_registry, property_registry);
        proof {
            reveal_strlit("set-property");
            reveal_strlit("set-property-reversed");
            let reg = bp_registry@;
            let plain = BinaryPredicate { task_functions: [None, None, None, None], ..reg[idx as int] };
            let none4: [Option<String>; 4] = [None, None, None, None];
            assert(tagged_reg[idx as int].task_functions =~= none4);
            assert(plain == tagged_reg[idx as int]);
            assert(reg.update(idx as int, plain) =~= tagged_reg);
            let clear = tagged_reg.update(idx as int, BinaryPredicate { family_specific: None, ..tagged_reg[idx as int] })
                .update(idx + 1, BinaryPredicate { family_specific: None, ..tagged_reg[idx + 1] });
            assert(clear =~= made);
            assert(reg.take(idx as int) =~= made.take(idx as int));
        }
        idx
    }

    /// Whether a predicate belongs to the property-setting family.
    pub fn bp_sets_a_property(bp: &BinaryPredicate) -> (r: bool)
        ensures
            r == (bp.relation_family == PROPERTY_SETTING_FAMILY),
    {
        bp.relation_family == PROPERTY_SETTING_FAMILY
    }

    /// The resolved property index of a predicate of the family.
    pub fn bp_get_set_property(bp: &BinaryPredicate) -> (r: Option<usize>)
        ensures
            r == set_property_of(*bp),
    {
        if bp.relation_family != PROPERTY_SETTING_FAMILY {
            return None;
        }
        PropertySettingBpData::get_property(&bp.family_specific)
    }

    /// The pending property name of a predicate of the family.
    pub fn bp_get_pending_text(bp: &BinaryPredicate) -> (r: Option<&str>)
        ensures
            bp.relation_family != PROPERTY_SETTING_FAMILY ==> r is None,
            bp.relation_family == PROPERTY_SETTING_FAMILY ==> match r {
                Some(t) => pending_of(bp.family_specific) == Some(t@),
                None => pending_of(bp.family_specific) is None,
            },
    {
        if bp.relation_family != PROPERTY_SETTING_FAMILY {
            return None;
        }
        PropertySettingBpData::get_pending(&bp.family_specific)
    }
}

/// A recorded property index reads back as itself.
proof fn lemma_resolved_reads_back(k: nat)
    requires
        k <= usize::MAX,
    ensures
        ({
            let t = resolved_tag(k);
            stripped(t, "property:"@) matches Some(rest) && parsed_usize(rest) == Some(k as usize)
        }),
{
    reveal_strlit("property:");
    lemma_decimal_reads_back(k);
    let t = resolved_tag(k);
    assert(t.take(9) =~= "property:"@);
    assert(t.skip(9) =~= decimal(k));
}

/// A recorded pending name reads back as itself.
proof fn lemma_pending_reads_back(name: Seq<char>)
    ensures
        stripped(pending_tag(name), "pending:"@) == Some(name),
{
    reveal_strlit("pending:");
    let t = pending_tag(name);
    assert(t.take(8) =~= "pending:"@);
    assert(t.skip(8) =~= name);
}

/// A relation made for a property name is found by that name, and gives
/// the name back as its pending text, unless an earlier relation of the
/// family already had that pending text.
pub proof fn law_made_relation_is_found(name: Seq<char>, r0: Seq<BinaryPredicate>, r1: Seq<BinaryPredicate>)
    requires
        r1.len() == r0.len() + 2,
        r1.take(r0.len() as int) == r0,
        setting_pair(r1, r0.len() as int, pending_tag(name)),
        first_where(r0, pending_setter(name)) is None,
    ensures
        first_where(r1, pending_setter(name)) == Some(r0.len() as int),
        pending_of(r1[r0.len() as int].family_specific) == Some(name),
{
    lemma_pending_reads_back(name);
    let idx = r0.len() as int;
    let clear = r1.update(idx, BinaryPredicate { family_specific: None, ..r1[idx] })
        .update(idx + 1, BinaryPredicate { family_specific: None, ..r1[idx + 1] });
    assert(clear[idx].relation_family == r1[idx].relation_family);
    assert(clear[idx].right_way_round == r1[idx].right_way_round);
    lemma_first_where(r0, pending_setter(name));
    assert forall|j: int| 0 <= j < idx implies !(#[trigger] pending_setter(name)(r1[j])) by {
        assert(r1[j] == r1.take(idx)[j]);
    }
    crate::search::lemma_first_is(r1, pending_setter(name), idx);
}

/// Fixing a relation whose pending text names a property makes it record
/// that property's index.
pub proof fn law_fix_resolves(r0: Seq<BinaryPredicate>, r1: Seq<BinaryPredicate>, i: int, props: Seq<Property>)
    requires
        0 <= i < r0.len(),
        props.len() <= usize::MAX,
        fix_step(r0, r1, i, props),
        resolution(r0[i], props) is Some,
    ensures
        set_property_of(r1[i]) == Some(resolution(r0[i], props).unwrap() as usize),
{
    let k = resolution(r0[i], props).unwrap();
    lemma_first_where(props, property_named(pending_of(r0[i].family_specific).unwrap()));
    lemma_resolved_reads_back(k as nat);
    assert(r1[i].relation_family == r0[i].relation_family);
}

/// A relation made for an existing property records that property's index.
pub proof fn law_nameless_relation_records_property(reg: Seq<BinaryPredicate>, r: int, prn_idx: usize)
    requires
        0 <= r < reg.len(),
        ({
            let plain = BinaryPredicate { task_functions: [None, None, None, None], ..reg[r] };
            setting_pair(reg.update(r, plain), r, resolved_tag(prn_idx as nat))
        }),
    ensures
        set_property_of(reg[r]) == Some(prn_idx),
{
    lemma_resolved_reads_back(prn_idx as nat);
    let plain = BinaryPredicate { task_functions: [None, None, None, None], ..reg[r] };
    assert(reg.update(r, plain)[r] == plain);
}

/// What `encode_property` and `encode_pending` record, `get_property` and
/// `get_pending` read back: the property index, or the pending name; and a
/// recorded index is never read as a pending name.
pub proof fn law_recorded_data_reads_back(resolved: String, pending: String, k: nat, name: Seq<char>)
    requires
        k <= usize::MAX,
        resolved@ == resolved_tag(k),
        pending@ == pending_tag(name),
    ensures
        property_index_of(Some(resolved)) == Some(k as usize),
        pending_of(Some(pending)) == Some(name),
        pending_of(Some(resolved)) is None,
{
    lemma_resolved_reads_back(k);
    lemma_pending_reads_back(name);
    lemma_resolved_not_pending(k);
}

/// Once the only relation found for a property name has been fixed to a
/// property of that name, no relation is found for the name any more.
pub proof fn law_fixed_relation_is_not_found(
    name: Seq<char>,
    r0: Seq<BinaryPredicate>,
    r1: Seq<BinaryPredicate>,
    b: int,
    props: Seq<Property>,
)
    requires
        first_where(r0, pending_setter(name)) == Some(b),
        forall|j: int| b < j < r0.len() ==> !(#[trigger] pending_setter(name)(r0[j])),
        first_where(props, property_named(name)) is Some,
        fix_step(r0, r1, b, props),
    ensures
        first_where(r1, pending_setter(name)) is None,
{
    lemma_first_where(r0, pending_setter(name));
    let k = resolution(r0[b], props).unwrap();
    lemma_resolved_not_pending(k as nat);
    let rev = r0[b].reversal;
    assert forall|j: int| 0 <= j < r1.len() implies !(#[trigger] pending_setter(name)(r1[j])) by {
        let b0 = r0[j];
        let b1 = r1[j];
        if j == b || rev == Some(j as usize) {
            assert(owned_text(b1.family_specific) == Some(resolved_tag(k as nat)));
        } else {
            assert(b1.family_specific == b0.family_specific);
            let plain = BinaryPredicate { family_specific: b0.family_specific, ..b1 };
            if schema_target(r0, b) == Some(j) {
                assert(BinaryPredicate { task_functions: b0.task_functions, ..plain } == b0);
            } else {
                assert(plain == b0);
            }
            assert(b1.relation_family == b0.relation_family && b1.right_way_round == b0.right_way_round);
            assert(!pending_setter(name)(r0[j]));
        }
    }
    lemma_first_where(r1, pending_setter(name));
}

} // verus!
