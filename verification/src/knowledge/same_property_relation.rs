//! The same-property-value relations: for each valued property, such as
//! "height", a relation "same-height-as" comparing that property's value
//! between two owners.
use vstd::prelude::*;
use vstd::string::StringExecFns;
use crate::text::{owned_text, stripped, parsed_usize, decimal, decimal_text, hyphenated, hyphenate,
    strip_prefix_text, parse_usize, lemma_decimal_reads_back};
use crate::calculus::{
    BinaryPredicate, BinaryPredicates, BpFamily, BpFamilyMethods, BpMethodOwner, BPTerms, DECLINE_TO_MATCH,
    pair_made,
};
use crate::knowledge::properties::Property;
use crate::knowledge::provision_relation::plain_term;
use crate::knowledge::setting_property_relation::{pending_of, resolved_tag, lemma_resolved_not_pending};

verus! {

/// Index of the same property family in its family registry.
pub const SAME_PROPERTY_FAMILY: usize = 0;

/// The same-property-value relations.
pub struct SameAsRelations;

/// The name of the same-property relation of a property: "same-height-as"
/// for "height", with spaces in the name turned into hyphens.
pub open spec fn same_as_name(prop: Seq<char>) -> Seq<char> {
    "same-"@ + hyphenated(prop) + "-as"@
}

/// The schema that makes two owners' values of a property equal.
pub open spec fn same_as_make_true(prop: Seq<char>) -> Seq<char> {
    "*1."@ + prop + " = *2."@ + prop
}

/// The schema that tests two owners' values of a property for equality.
pub open spec fn same_as_test(prop: Seq<char>) -> Seq<char> {
    "*1."@ + prop + " == *2."@ + prop
}

/// The family-specific text that records the property at index `j`.
pub open spec fn property_tag(j: nat) -> Seq<char> {
    "property:"@ + decimal(j)
}

/// The number of valued properties among the first `k` of `props`.
pub open spec fn valued_count(props: Seq<Property>, k: int) -> nat
    decreases k,
{
    if k <= 0 {
        0
    } else {
        valued_count(props, k - 1) + if props[k - 1].value_data is Some { 1nat } else { 0nat }
    }
}

/// Where the pair of the property `j` lies when stocking starts with `base` predicates.
pub open spec fn same_as_slot(base: nat, props: Seq<Property>, j: int) -> int {
    (base + 2 * valued_count(props, j)) as int
}

/// The pair of predicates at `idx` is the same-property relation of the
/// property `j` of `props`: a pair made as for any relation, whose
/// right-way-round predicate records the property index.
pub open spec fn same_as_pair(reg: Seq<BinaryPredicate>, idx: int, props: Seq<Property>, j: int) -> bool {
    let p = props[j].name@;
    let bp = reg[idx];
    &&& 0 <= idx
    &&& idx + 1 < reg.len()
    &&& pair_made(reg.update(idx, BinaryPredicate { family_specific: None, ..bp }), idx, SAME_PROPERTY_FAMILY,
        plain_term(), plain_term(), same_as_name(p), same_as_name(p) + "-reversed"@,
        Some(same_as_make_true(p)), Some(same_as_test(p)), Some(same_as_name(p)))
    &&& owned_text(bp.family_specific) == Some(property_tag(j as nat))
}

/// What stocking at stage `n` does to the registry: at stage 2, one pair per
/// valued property, in the order of the properties, after what was there.
pub open spec fn same_as_stocked(n: u8, props: Seq<Property>, r0: Seq<BinaryPredicate>, r1: Seq<BinaryPredicate>) -> bool {
    if n != 2 {
        r1 == r0
    } else {
        &&& r1.len() == r0.len() + 2 * valued_count(props, props.len() as int)
        &&& r1.take(r0.len() as int) == r0
        &&& forall|j: int| 0 <= j < props.len() && (#[trigger] props[j]).value_data is Some ==>
            same_as_pair(r1, same_as_slot(r0.len(), props, j), props, j)
        &&& forall|x: int| r0.len() <= x < r1.len() ==> pending_of((#[trigger] r1[x]).family_specific) is None
    }
}

/// The property index a predicate of the family records, for a
/// right-way-round predicate of the family.
pub open spec fn same_as_property_of(bp: BinaryPredicate) -> Option<usize> {
    if bp.relation_family != SAME_PROPERTY_FAMILY || !bp.right_way_round {
        None
    } else {
        match owned_text(bp.family_specific) {
            Some(t) => match stripped(t, "property:"@) {
                Some(rest) => parsed_usize(rest),
                None => None,
            },
            None => None,
        }
    }
}

/// A pair stays in place when the registry grows after it.
proof fn lemma_pair_kept(r: Seq<BinaryPredicate>, s: Seq<BinaryPredicate>, idx: int, props: Seq<Property>, j: int)
    requires
        same_as_pair(r, idx, props, j),
        r.len() <= s.len(),
        s.take(r.len() as int) == r,
    ensures
        same_as_pair(s, idx, props, j),
{
    assert(s[idx] == r[idx]);
    assert(s[idx + 1] == r[idx + 1]);
    let bp = r[idx];
    let r2 = r.update(idx, BinaryPredicate { family_specific: None, ..bp });
    let s2 = s.update(idx, BinaryPredicate { family_specific: None, ..bp });
    assert(s2[idx] == r2[idx]);
    assert(s2[idx + 1] == r2[idx + 1]);
}

impl SameAsRelations {
    /// The same property family, with its stock and typecheck methods, and
    /// an empty registry of predicates.
    pub fn start() -> (r: (Vec<BpFamily>, Vec<BinaryPredicate>))
        ensures
            r.0@.len() == 1,
            r.0@[0].name@ == "same_property"@,
            r.0@[0].methods == (BpFamilyMethods {
                stock: Some(BpMethodOwner::SameProperty),
                typecheck: Some(BpMethodOwner::SameProperty),
                assert_that: None,
                schema: None,
                describe_for_index: None,
                describe_for_problems: None,
            }),
            r.1@.len() == 0,
    {
        proof {
            reveal_strlit("same_property");
        }
        let family = BpFamily {
            name: "same_property",
            methods: BpFamilyMethods {
                stock: Some(BpMethodOwner::SameProperty),
                typecheck: Some(BpMethodOwner::SameProperty),
                assert_that: None,
                schema: None,
                describe_for_index: None,
                describe_for_problems: None,
            },
        };
        (vec![family], Vec::new())
    }

    /// The name of the same-property relation of a property.
    pub fn derive_relation_name(property_name: &str) -> (s: String)
        ensures
            s@ == same_as_name(property_name@),
    {
        let mut s = String::from_str("same-");
        let middle = hyphenate(property_name);
        s.append(middle.as_str());
        s.append("-as");
        proof {
            reveal_strlit("same-");
            reveal_strlit("-as");
        }
        s
    }

    /// The text `a` + `p` + `b` + `p`.
    fn schema_text(a: &str, p: &str, b: &str) -> (s: String)
        ensures
            s@ == a@ + p@ + b@ + p@,
    {
        let mut s = String::from_str(a);
        s.append(p);
        s.append(b);
        s.append(p);
        s
    }

    /// Stock the family: at stage 2, make one relation for each valued
    /// property, in order, recording the property's index in the
    /// right-way-round predicate; at any other stage, do nothing.
    pub fn stock(family: &BpFamily, n: u8, bp_registry: &mut Vec<BinaryPredicate>, property_registry: &[Property])
        ensures
            same_as_stocked(n, property_registry@, old(bp_registry)@, final(bp_registry)@),
    {
        if n != 2 {
            return;
        }
        proof {
            reveal_strlit("*1.");
            reveal_strlit(" = *2.");
            reveal_strlit(" == *2.");
            reveal_strlit("-reversed");
            reveal_strlit("property:");
        }
        let ghost r0 = bp_registry@;
        let ghost props = property_registry@;
        let count = property_registry.len();
        let mut k: usize = 0;
        while k < count
            invariant
                count == props.len(),
                props == property_registry@,
                0 <= k <= count,
                bp_registry@.len() == r0.len() + 2 * valued_count(props, k as int),
                bp_registry@.take(r0.len() as int) == r0,
                forall|j: int| 0 <= j < k && (#[trigger] props[j]).value_data is Some ==>
                    same_as_pair(bp_registry@, same_as_slot(r0.len(), props, j), props, j),
                forall|x: int| r0.len() <= x < bp_registry@.len() ==> pending_of((#[trigger] bp_registry@[x]).family_specific) is None,
            decreases count - k,
        {
            if property_registry[k].value_data.is_some() {
                let name = property_registry[k].name;
                let rel_name = SameAsRelations::derive_relation_name(name);
                let make_true = SameAsRelations::schema_text("*1.", name, " = *2.");
                let test = SameAsRelations::schema_text("*1.", name, " == *2.");
                let mut rev_name = String::from_str(rel_name.as_str());
                rev_name.append("-reversed");
                let ghost before = bp_registry@;
                let idx = BinaryPredicates::make_pair(
                    SAME_PROPERTY_FAMILY,
                    BPTerms::new(None),
                    BPTerms::new(None),
                    rel_name.as_str(),
                    rev_name.as_str(),
                    Some(make_true.as_str()),
                    Some(test.as_str()),
                    Some(rel_name.as_str()),
                    bp_registry,
                );
                let ghost made = bp_registry@;
                let mut tag = String::from_str("property:");
                let digits = decimal_text(k);
                tag.append(digits.as_str());
                bp_registry[idx].family_specific = Some(tag);
                proof {
                    let bp = bp_registry@[idx as int];
                    assert(bp_registry@ == made.update(idx as int, bp));
                    assert(bp_registry@.update(idx as int, BinaryPredicate { family_specific: None, ..bp }) =~= made);
                    assert(same_as_pair(bp_registry@, idx as int, props, k as int));
                    assert(bp_registry@.take(before.len() as int) =~= before);
                    assert forall|j: int| 0 <= j < k + 1 && (#[trigger] props[j]).value_data is Some implies
                        same_as_pair(bp_registry@, same_as_slot(r0.len(), props, j), props, j) by {
                        if j < k {
                            lemma_pair_kept(before, bp_registry@, same_as_slot(r0.len(), props, j), props, j);
                        }
                    }
                    assert(bp_registry@.take(r0.len() as int) =~= before.take(r0.len() as int));
                    assert forall|x: int| r0.len() <= x < bp_registry@.len() implies
                        pending_of((#[trigger] bp_registry@[x]).family_specific) is None by {
                        if x < before.len() {
                            assert(bp_registry@[x] == before[x]);
                        } else if x == idx {
                            assert(property_tag(k as nat) == resolved_tag(k as nat));
                            lemma_resolved_not_pending(k as nat);
                        } else {
                            assert(bp_registry@[x] == made[x]);
                        }
                    }
                }
            }
            k += 1;
        }
    }

    /// Typecheck a use of a same-property relation: the family declines to
    /// judge, leaving it to the standard machinery.
    pub fn typecheck(
        family: &BpFamily,
        bp: &BinaryPredicate,
        kinds_of_terms: &[Option<usize>],
        kinds_required: &[Option<usize>],
    ) -> (r: i8)
        ensures
            r == DECLINE_TO_MATCH,
    {
        DECLINE_TO_MATCH
    }

    /// The index of the property whose values a right-way-round predicate of
    /// the family compares; `None` for any other predicate.
    pub fn bp_get_same_as_property(bp: &BinaryPredicate) -> (r: Option<usize>)
        ensures
            r == same_as_property_of(*bp),
    {
        if bp.relation_family != SAME_PROPERTY_FAMILY || !bp.right_way_round {
            return None;
        }
        match &bp.family_specific {
            Some(t) => {
                proof {
                    reveal_strlit("property:");
                }
                match strip_prefix_text(t.as_str(), "property:") {
                    Some(rest) => parse_usize(rest),
                    None => None,
                }
            },
            None => None,
        }
    }
}

/// Each relation the family stocks names its own property: the predicate
/// made for the property at index `j` gives back `j`.
pub proof fn law_same_as_names_its_property(n: u8, props: Seq<Property>, r0: Seq<BinaryPredicate>, r1: Seq<BinaryPredicate>, j: int)
    requires
        n == 2,
        same_as_stocked(n, props, r0, r1),
        0 <= j < props.len(),
        j <= usize::MAX,
        props[j].value_data is Some,
    ensures
        same_as_property_of(r1[same_as_slot(r0.len(), props, j)]) == Some(j as usize),
{
    reveal_strlit("property:");
    let idx = same_as_slot(r0.len(), props, j);
    assert(same_as_pair(r1, idx, props, j));
    let bp = r1[idx];
    let bp2 = BinaryPredicate { family_specific: None, ..bp };
    assert(r1.update(idx, bp2)[idx] == bp2);
    lemma_decimal_reads_back(j as nat);
    let t = property_tag(j as nat);
    assert(t.take(9) =~= "property:"@);
    assert(t.skip(9) =~= decimal(j as nat));
    let d = decimal(j as nat);
    assert(d.len() > 0 && d[0] != '+');
}

} // verus!
