//! Either-or properties used as adjectives: the property "open" gives the
//! adjective "open", as in "the door is open".
use vstd::prelude::*;
use crate::knowledge::adjectives::{
    Adjective, AdjectiveAmbiguity, AdjectiveMeaning, AdjectiveMeaningDomains, AdjectiveMeaningFamily,
    AdjectiveMeaningFamilyMethods, AdjectiveMeanings, AdjectiveMethodOwner, Adjectives, declared, new_meaning,
    meaning_admits, empty_domain, AdjectiveDomainData, adjective_named,
};
use crate::search::lemma_first_where;
use crate::knowledge::inference_subjects::InferenceSubject;
use crate::knowledge::inferences::{Certainty, Inference, InferenceFamily, JoinResult};
use crate::knowledge::measurements::MeasurementDefinition;
use crate::knowledge::properties::{EitherOrProperties, EitherOrPropertyData, Property};
use crate::knowledge::property_inferences::{
    PropertyInferenceData, PropertyInferences, drawn, has_property_family, negated_certainty,
};

verus! {

/// Index of the either-or property family in its family registry.
pub const EITHER_OR_PROPERTY_FAMILY: usize = 0;

/// Either-or properties used as adjectives.
pub struct EitherOrPropertyAdjectives;

/// The adjective at `i` gains the meaning `m` and is otherwise unchanged,
/// as are all other adjectives.
pub open spec fn adjective_gains(a0: Seq<Adjective>, a1: Seq<Adjective>, i: int, m: usize) -> bool {
    &&& 0 <= i < a0.len()
    &&& a1.len() == a0.len()
    &&& forall|j: int| 0 <= j < a0.len() && j != i ==> #[trigger] a1[j] == a0[j]
    &&& a1[i].name == a0[i].name
    &&& a1[i].meanings@ == a0[i].meanings@.push(m)
    &&& a1[i].sorted_meanings@ == a0[i].sorted_meanings@
    &&& a1[i].compilation_data == a0[i].compilation_data
}

/// The meaning an adjective family adds: new, owned by the adjective `adj`,
/// with the domain of the kind `kind`.
pub open spec fn owned_meaning(family: usize, details: Option<usize>, name: Option<&'static str>, adj: usize, kind: usize) -> AdjectiveMeaning {
    AdjectiveMeaning {
        owning_adjective: Some(adj),
        domain: AdjectiveDomainData { domain_kind: Some(kind), ..empty_domain() },
        ..new_meaning(family, details, name)
    }
}

/// Whether the adjective `a` already has a meaning admitting the kind `kind`.
pub open spec fn already_applies(adjs: Seq<Adjective>, meanings: Seq<AdjectiveMeaning>, a: usize, kind: usize) -> bool {
    exists|i: int| 0 <= i < adjs[a as int].meanings@.len()
        && #[trigger] meaning_admits(adjs[a as int].meanings@, meanings, Some(kind), i)
}

/// The property named by the family-specific data of a meaning, when it is
/// the index of a property.
pub open spec fn meaning_property(am: AdjectiveMeaning, props: Seq<Property>) -> Option<&'static str> {
    match am.family_specific_data {
        Some(i) => if i < props.len() { Some(props[i as int].name) } else { None },
        None => None,
    }
}

/// The certainty an assertion of the given parity draws: likely, or the
/// negation of likely.
pub open spec fn parity_certainty(parity: bool) -> Certainty {
    if parity { Certainty::Likely } else { negated_certainty(Certainty::Likely) }
}

/// What asserting the either-or meaning at `am_idx` does: when its
/// property is known, draw an inference that the subject has the property
/// (likely), or lacks it (unlikely) for a negative parity, and answer true;
/// otherwise change nothing and answer false.
pub open spec fn eo_asserted(
    meanings: Seq<AdjectiveMeaning>, props: Seq<Property>, inf_families: Seq<InferenceFamily>,
    am_idx: usize, subj_idx: usize, parity: bool,
    subjects0: Vec<InferenceSubject>, subjects1: Vec<InferenceSubject>,
    infs0: Vec<Inference>, infs1: Vec<Inference>,
    data0: Vec<PropertyInferenceData>, data1: Vec<PropertyInferenceData>,
    r: bool,
) -> bool {
    match meaning_property(meanings[am_idx as int], props) {
        None => !r && subjects1 == subjects0 && infs1 == infs0 && data1 == data0,
        Some(p) => r && exists|jr: JoinResult| #[trigger] drawn(subjects0, subjects1, infs0, infs1, data0, data1, inf_families,
            subj_idx, p, None, parity_certainty(parity), false, jr),
    }
}

/// What making the either-or property at `prn_idx` an adjective named
/// `name` for the kind `kind_idx` does (see `create_for_property`): from
/// adjectives `a0`, meanings `m0` and properties `p0` to `a1`, `m1`, `p1`,
/// returning `r`.
pub open spec fn eo_adjective_made(
    prn_idx: usize, name: &'static str, kind_idx: usize,
    a0: Seq<Adjective>, a1: Seq<Adjective>, m0: Seq<AdjectiveMeaning>, m1: Seq<AdjectiveMeaning>,
    p0: Seq<Property>, p1: Seq<Property>, r: usize,
) -> bool {
    match p0[prn_idx as int].either_or_data {
        None => {
            &&& declared(a0, a1, name, r)
            &&& m1 == m0
            &&& p1 == p0
        },
        Some(d) => {
            let m = m0.len() as usize;
            match d.as_adjective {
                Some(a) => {
                    &&& r == a
                    &&& p1 == p0
                    &&& if already_applies(a0, m0, a, kind_idx) {
                        a1 == a0 && m1 == m0
                    } else {
                        &&& adjective_gains(a0, a1, a as int, m)
                        &&& m1 == m0.push(owned_meaning(EITHER_OR_PROPERTY_FAMILY, Some(prn_idx), Some(name), r, kind_idx))
                    }
                },
                None => {
                    &&& exists|mid: Seq<Adjective>| declared(a0, mid, name, r)
                        && #[trigger] adjective_gains(mid, a1, r as int, m)
                    &&& p1 == p0.update(prn_idx as int, Property {
                        either_or_data: Some(EitherOrPropertyData { as_adjective: Some(r), ..d }),
                        ..p0[prn_idx as int]
                    })
                    &&& m1 == m0.push(owned_meaning(EITHER_OR_PROPERTY_FAMILY, Some(prn_idx), Some(name), r, kind_idx))
                },
            }
        },
    }
}

/// After making an either-or property an adjective for a kind, its
/// adjective applies to that kind, and the property records the adjective.
proof fn lemma_made_applies(
    prn_idx: usize, name: &'static str, kind_idx: usize,
    a0: Seq<Adjective>, a1: Seq<Adjective>, m0: Seq<AdjectiveMeaning>, m1: Seq<AdjectiveMeaning>,
    p0: Seq<Property>, p1: Seq<Property>, r: usize,
)
    requires
        prn_idx < p0.len(),
        p0[prn_idx as int].either_or_data is Some,
        m0.len() < usize::MAX,
        eo_adjective_made(prn_idx, name, kind_idx, a0, a1, m0, m1, p0, p1, r),
    ensures
        already_applies(a1, m1, r, kind_idx),
        p1[prn_idx as int].either_or_data matches Some(d1) && d1.as_adjective == Some(r),
{
    let d = p0[prn_idx as int].either_or_data.unwrap();
    let m = m0.len() as usize;
    if d.as_adjective is Some && already_applies(a0, m0, r, kind_idx) {
    } else {
        let list = a1[r as int].meanings@;
        let last = list.len() - 1;
        assert(list[last] == m);
        assert(m1[m as int].domain.domain_kind == Some(kind_idx));
        assert(meaning_admits(list, m1, Some(kind_idx), last));
    }
}

/// Making an either-or property an adjective for a kind a second time
/// returns the same adjective and changes nothing.
pub proof fn law_create_for_property_again(
    prn_idx: usize, name: &'static str, kind_idx: usize,
    a0: Seq<Adjective>, a1: Seq<Adjective>, a2: Seq<Adjective>,
    m0: Seq<AdjectiveMeaning>, m1: Seq<AdjectiveMeaning>, m2: Seq<AdjectiveMeaning>,
    p0: Seq<Property>, p1: Seq<Property>, p2: Seq<Property>,
    r: usize, r2: usize,
)
    requires
        prn_idx < p0.len(),
        p0[prn_idx as int].either_or_data is Some,
        m0.len() < usize::MAX,
        eo_adjective_made(prn_idx, name, kind_idx, a0, a1, m0, m1, p0, p1, r),
        eo_adjective_made(prn_idx, name, kind_idx, a1, a2, m1, m2, p1, p2, r2),
    ensures
        r2 == r,
        a2 == a1,
        m2 == m1,
        p2 == p1,
{
    lemma_made_applies(prn_idx, name, kind_idx, a0, a1, m0, m1, p0, p1, r);
}

/// Making an either-or property an adjective for a second, different kind
/// returns the same adjective and gives it exactly one new meaning, for
/// that kind, when no meaning it had before admitted that kind.
pub proof fn law_create_for_property_new_kind(
    prn_idx: usize, name: &'static str, kind_idx: usize, kind2: usize,
    a0: Seq<Adjective>, a1: Seq<Adjective>, a2: Seq<Adjective>,
    m0: Seq<AdjectiveMeaning>, m1: Seq<AdjectiveMeaning>, m2: Seq<AdjectiveMeaning>,
    p0: Seq<Property>, p1: Seq<Property>, p2: Seq<Property>,
    r: usize, r2: usize,
)
    requires
        prn_idx < p0.len(),
        p0[prn_idx as int].either_or_data is Some,
        m0.len() < usize::MAX,
        kind2 != kind_idx,
        p0[prn_idx as int].either_or_data.unwrap().as_adjective matches Some(a) ==> a < a0.len(),
        r < a0.len() ==> !already_applies(a0, m0, r, kind2),
        eo_adjective_made(prn_idx, name, kind_idx, a0, a1, m0, m1, p0, p1, r),
        eo_adjective_made(prn_idx, name, kind2, a1, a2, m1, m2, p1, p2, r2),
    ensures
        r2 == r,
        p2 == p1,
        adjective_gains(a1, a2, r as int, m1.len() as usize),
        m2 == m1.push(owned_meaning(EITHER_OR_PROPERTY_FAMILY, Some(prn_idx), Some(name), r, kind2)),
{
    lemma_made_applies(prn_idx, name, kind_idx, a0, a1, m0, m1, p0, p1, r);
    let d = p0[prn_idx as int].either_or_data.unwrap();
    let m = m0.len() as usize;
    if d.as_adjective is Some && already_applies(a0, m0, r, kind_idx) {
    } else {
        let list = a1[r as int].meanings@;
        assert(list.len() >= 1);
        assert forall|i: int| 0 <= i < list.len() implies !(#[trigger] meaning_admits(list, m1, Some(kind2), i)) by {
            if i == list.len() - 1 {
                assert(list[i] == m);
            } else {
                if d.as_adjective is Some {
                    assert(list[i] == a0[r as int].meanings@[i]);
                    if list[i] < m0.len() {
                        assert(m1[list[i] as int] == m0[list[i] as int]);
                        assert(!meaning_admits(a0[r as int].meanings@, m0, Some(kind2), i));
                    }
                } else {
                    let mid = choose|mid: Seq<Adjective>| declared(a0, mid, name, r)
                        && #[trigger] adjective_gains(mid, a1, r as int, m);
                    lemma_first_where(a0, adjective_named(name@));
                    if r < a0.len() {
                        assert(mid == a0);
                        assert(list[i] == a0[r as int].meanings@[i]);
                        if list[i] < m0.len() {
                            assert(m1[list[i] as int] == m0[list[i] as int]);
                            assert(!meaning_admits(a0[r as int].meanings@, m0, Some(kind2), i));
                        }
                    } else {
                        assert(mid[r as int].meanings@.len() == 0);
                    }
                }
            }
        }
        assert(!already_applies(a1, m1, r, kind2));
    }
}

impl EitherOrPropertyAdjectives {
    /// The either-or property family (priority 1, with assert, schema and
    /// index methods), with no meanings or adjectives yet.
    pub fn start() -> (r: (Vec<AdjectiveMeaningFamily>, Vec<AdjectiveMeaning>, Vec<Adjective>))
        ensures
            r.0@.len() == 1,
            r.0@[0].name@ == "either_or_property"@,
            r.0@[0].definition_claim_priority == 1,
            r.0@[0].methods == (AdjectiveMeaningFamilyMethods {
                assert_that: Some(AdjectiveMethodOwner::EitherOrProperty),
                claim_definition: None,
                prepare_schemas: Some(AdjectiveMethodOwner::EitherOrProperty),
                index: Some(AdjectiveMethodOwner::EitherOrProperty),
            }),
            r.1@.len() == 0,
            r.2@.len() == 0,
    {
        proof {
            reveal_strlit("either_or_property");
        }
        let family = AdjectiveMeaningFamily {
            name: "either_or_property",
            definition_claim_priority: 1,
            methods: AdjectiveMeaningFamilyMethods {
                assert_that: Some(AdjectiveMethodOwner::EitherOrProperty),
                claim_definition: None,
                prepare_schemas: Some(AdjectiveMethodOwner::EitherOrProperty),
                index: Some(AdjectiveMethodOwner::EitherOrProperty),
            },
        };
        (vec![family], Vec::new(), Vec::new())
    }

    /// Whether the meaning at `am_idx` exists and belongs to the family.
    pub fn is(am_idx: usize, meanings: &[AdjectiveMeaning]) -> (r: bool)
        ensures
            r == (am_idx < meanings@.len() && meanings@[am_idx as int].family == EITHER_OR_PROPERTY_FAMILY),
    {
        am_idx < meanings.len() && meanings[am_idx].family == EITHER_OR_PROPERTY_FAMILY
    }

    /// Make the either-or property at `prn_idx` an adjective (named `name`)
    /// applying to the kind `kind_idx`, and return the adjective's index.
    ///
    /// The property's adjective is reused when it has one (and nothing is
    /// done when that adjective already applies to the kind); otherwise one
    /// is declared and recorded in the property. A new meaning, recording
    /// the property and applying to the kind, is added to the adjective. A
    /// property that is not either-or only has its name declared.
    pub fn create_for_property(
        prn_idx: usize,
        name: &'static str,
        kind_idx: usize,
        adjectives: &mut Vec<Adjective>,
        meanings: &mut Vec<AdjectiveMeaning>,
        families: &[AdjectiveMeaningFamily],
        properties: &mut Vec<Property>,
    ) -> (r: usize)
        requires
            prn_idx < old(properties)@.len(),
            old(properties)@[prn_idx as int].either_or_data matches Some(d) ==> (d.as_adjective matches Some(a) ==> {
                &&& a < old(adjectives)@.len()
                &&& forall|i: int| 0 <= i < old(adjectives)@[a as int].meanings@.len() ==>
                    (forall|j: int| 0 <= j < i ==> !meaning_admits(old(adjectives)@[a as int].meanings@, old(meanings)@, Some(kind_idx), j))
                    ==> #[trigger] old(adjectives)@[a as int].meanings@[i] < old(meanings)@.len()
            }),
        ensures
            eo_adjective_made(prn_idx, name, kind_idx, old(adjectives)@, final(adjectives)@, old(meanings)@,
                final(meanings)@, old(properties)@, final(properties)@, r),
    {
        let eo = properties[prn_idx].either_or_data;
        let d = match eo {
            Some(d) => d,
            None => {
                return Adjectives::declare(name, adjectives);
            },
        };
        let adj_idx = match d.as_adjective {
            Some(a) => {
                if AdjectiveAmbiguity::can_be_applied_to(a, Some(kind_idx), adjectives, meanings) {
                    return a;
                }
                a
            },
            None => {
                let a = Adjectives::declare(name, adjectives);
                properties[prn_idx].either_or_data = Some(EitherOrPropertyData { as_adjective: Some(a), ..d });
                a
            },
        };
        let ghost mid = adjectives@;
        EitherOrPropertyAdjectives::add_meaning(prn_idx, name, kind_idx, adj_idx, adjectives, meanings);
        proof {
            assert(adjective_gains(mid, adjectives@, adj_idx as int, old(meanings)@.len() as usize));
        }
        adj_idx
    }

    /// Give the adjective at `adj_idx` a new meaning of the family,
    /// recording the property at `prn_idx` and applying to the kind `kind_idx`.
    fn add_meaning(
        prn_idx: usize,
        name: &'static str,
        kind_idx: usize,
        adj_idx: usize,
        adjectives: &mut Vec<Adjective>,
        meanings: &mut Vec<AdjectiveMeaning>,
    )
        requires
            adj_idx < old(adjectives)@.len(),
        ensures
            adjective_gains(old(adjectives)@, final(adjectives)@, adj_idx as int, old(meanings)@.len() as usize),
            final(meanings)@ == old(meanings)@.push(owned_meaning(EITHER_OR_PROPERTY_FAMILY, Some(prn_idx), Some(name), adj_idx, kind_idx)),
    {
        let am = AdjectiveMeanings::new(EITHER_OR_PROPERTY_FAMILY, Some(prn_idx), Some(name), meanings);
        AdjectiveAmbiguity::add_meaning_to_adjective(am, adj_idx, adjectives, meanings);
        AdjectiveMeaningDomains::set_from_kind(am, kind_idx, meanings);
        proof {
            assert(meanings@ =~= old(meanings)@.push(owned_meaning(EITHER_OR_PROPERTY_FAMILY, Some(prn_idx), Some(name), adj_idx, kind_idx)));
        }
    }

    /// Assert the either-or meaning at `am_idx` about the subject at
    /// `subj_idx` (see `eo_asserted`).
    pub fn assert_that(
        am_idx: usize,
        subj_idx: usize,
        parity: bool,
        meanings: &mut Vec<AdjectiveMeaning>,
        subjects: &mut Vec<InferenceSubject>,
        properties: &[Property],
        families: &[InferenceFamily],
        inferences: &mut Vec<Inference>,
        data_registry: &mut Vec<PropertyInferenceData>,
        definitions: &mut Vec<MeasurementDefinition>,
    ) -> (r: bool)
        requires
            am_idx < old(meanings)@.len(),
            meaning_property(old(meanings)@[am_idx as int], properties@) is Some ==> {
                &&& has_property_family(families@)
                &&& subj_idx < old(subjects)@.len()
            },
        ensures
            *final(meanings) == *old(meanings),
            *final(definitions) == *old(definitions),
            eo_asserted(old(meanings)@, properties@, families@, am_idx, subj_idx, parity,
                *old(subjects), *final(subjects), *old(inferences), *final(inferences),
                *old(data_registry), *final(data_registry), r),
    {
        let prn_idx = match meanings[am_idx].family_specific_data {
            Some(i) => i,
            None => {
                return false;
            },
        };
        if prn_idx >= properties.len() {
            return false;
        }
        let prn_name = properties[prn_idx].name;
        if parity {
            let _ = PropertyInferences::draw(subj_idx, prn_name, None, families, inferences, subjects, data_registry);
        } else {
            let _ = PropertyInferences::draw_negated(subj_idx, prn_name, None, families, inferences, subjects, data_registry);
        }
        true
    }

    /// Prepare the schemas of a meaning: there are none to prepare.
    pub fn prepare_schemas(am_idx: usize, task: i32) {
    }

    /// The index text of a meaning: there is none.
    pub fn index(am_idx: usize) -> (r: Option<&'static str>)
        ensures
            r is None,
    {
        None
    }
}

} // verus!
