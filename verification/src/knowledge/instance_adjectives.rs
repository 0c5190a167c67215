//! Instances used as adjectives: an instance of an enumerated kind, such as
//! "blue" of the kind "colour", gives an adjective ("the door is blue"),
//! which sets the property named after the kind.
use vstd::prelude::*;
use crate::search::first_where;
use crate::kinds::KindConstructor;
use crate::knowledge::adjectives::{
    Adjective, AdjectiveAmbiguity, AdjectiveMeaning, AdjectiveMeaningDomains, AdjectiveMeaningFamily,
    AdjectiveMeaningFamilyMethods, AdjectiveMeanings, AdjectiveMethodOwner, Adjectives, declared, new_meaning,
    empty_domain, AdjectiveDomainData,
};
use crate::knowledge::either_or_property_adjectives::{adjective_gains, meaning_property};
use crate::knowledge::inference_subjects::InferenceSubject;
use crate::knowledge::inferences::{Certainty, Inference, InferenceFamily, JoinResult};
use crate::knowledge::instances::{Instance, Instances, instance_kind};
use crate::knowledge::measurements::MeasurementDefinition;
use crate::knowledge::properties::{Properties, Property, valued_property_named};
use crate::knowledge::property_inferences::{PropertyInferenceData, PropertyInferences, drawn, has_property_family};

verus! {

/// Index of the enumerative family in its family registry.
pub const ENUMERATIVE_FAMILY: usize = 0;

/// Instances used as adjectives.
pub struct InstanceAdjectives;

/// The kind within which an instance's adjective applies: the kind of the
/// singleton instance when there is one and its kind is known, else the
/// kind given.
pub open spec fn adjectival_domain(
    singleton: Option<usize>, set_kind: Option<usize>,
    instances: Seq<Instance>, subjects: Seq<InferenceSubject>, constructors: Seq<KindConstructor>,
) -> Option<usize> {
    match singleton {
        Some(s) => match instance_kind(s, instances, subjects, constructors) {
            Some(i) => Some(i as usize),
            None => set_kind,
        },
        None => set_kind,
    }
}

/// The property an instance's adjective sets: the one given, else the
/// first valued property named after the instance's kind.
pub open spec fn adjectival_property(
    inst_idx: usize, prn: Option<usize>,
    instances: Seq<Instance>, subjects: Seq<InferenceSubject>, constructors: Seq<KindConstructor>, properties: Seq<Property>,
) -> Option<usize> {
    match prn {
        Some(p) => Some(p),
        None => match instance_kind(inst_idx, instances, subjects, constructors) {
            Some(i) => match first_where(properties, valued_property_named(constructors[i].name@)) {
                Some(j) => Some(j as usize),
                None => None,
            },
            None => None,
        },
    }
}

/// What asserting the enumerative meaning at `am_idx` does: for a positive
/// parity and a known property, draw an inference that the subject has the
/// property with the instance (the meaning's indexing text) as its value,
/// and answer true; otherwise change nothing and answer false.
pub open spec fn instance_asserted(
    meanings: Seq<AdjectiveMeaning>, props: Seq<Property>, inf_families: Seq<InferenceFamily>,
    am_idx: usize, subj_idx: usize, parity: bool,
    subjects0: Vec<InferenceSubject>, subjects1: Vec<InferenceSubject>,
    infs0: Vec<Inference>, infs1: Vec<Inference>,
    data0: Vec<PropertyInferenceData>, data1: Vec<PropertyInferenceData>,
    r: bool,
) -> bool {
    if !parity {
        !r && subjects1 == subjects0 && infs1 == infs0 && data1 == data0
    } else {
        match meaning_property(meanings[am_idx as int], props) {
            None => !r && subjects1 == subjects0 && infs1 == infs0 && data1 == data0,
            Some(p) => r && exists|jr: JoinResult| #[trigger] drawn(subjects0, subjects1, infs0, infs1, data0, data1,
                inf_families, subj_idx, p, meanings[am_idx as int].indexing_text, Certainty::Likely, false, jr),
        }
    }
}

impl InstanceAdjectives {
    /// The enumerative family (priority 2, with an assert method), with no
    /// meanings or adjectives yet.
    pub fn start() -> (r: (Vec<AdjectiveMeaningFamily>, Vec<AdjectiveMeaning>, Vec<Adjective>))
        ensures
            r.0@.len() == 1,
            r.0@[0].name@ == "enumerative"@,
            r.0@[0].definition_claim_priority == 2,
            r.0@[0].methods == (AdjectiveMeaningFamilyMethods {
                assert_that: Some(AdjectiveMethodOwner::Enumerative),
                claim_definition: None,
                prepare_schemas: None,
                index: None,
            }),
            r.1@.len() == 0,
            r.2@.len() == 0,
    {
        proof {
            reveal_strlit("enumerative");
        }
        let family = AdjectiveMeaningFamily {
            name: "enumerative",
            definition_claim_priority: 2,
            methods: AdjectiveMeaningFamilyMethods {
                assert_that: Some(AdjectiveMethodOwner::Enumerative),
                claim_definition: None,
                prepare_schemas: None,
                index: None,
            },
        };
        (vec![family], Vec::new(), Vec::new())
    }

    /// Whether the meaning at `am_idx` exists and belongs to the family.
    pub fn is_enumerative(am_idx: usize, meanings: &[AdjectiveMeaning]) -> (r: bool)
        ensures
            r == (am_idx < meanings@.len() && meanings@[am_idx as int].family == ENUMERATIVE_FAMILY),
    {
        am_idx < meanings.len() && meanings[am_idx].family == ENUMERATIVE_FAMILY
    }

    /// Make the instance at `inst_idx` an adjective and return the
    /// adjective's index.
    ///
    /// The adjective applies within the kind of the singleton instance, when
    /// there is one and its kind is known, else within the kind given; it
    /// sets the property given, else the valued property named after the
    /// instance's kind. With no kind to apply within (or no such instance),
    /// only a name is declared: the instance's, or "?".
    pub fn make_adjectival(
        inst_idx: usize,
        prn_idx: Option<usize>,
        set_kind_idx: Option<usize>,
        singleton_idx: Option<usize>,
        adjectives: &mut Vec<Adjective>,
        meanings: &mut Vec<AdjectiveMeaning>,
        families: &[AdjectiveMeaningFamily],
        properties: &[Property],
        instances: &mut Vec<Instance>,
        subjects: &[InferenceSubject],
        constructors: &[KindConstructor],
    ) -> (r: usize)
        ensures
            ({
                let domain = adjectival_domain(singleton_idx, set_kind_idx, old(instances)@, subjects@, constructors@);
                if domain is None || inst_idx >= old(instances)@.len() {
                    &&& (inst_idx < old(instances)@.len() ==> declared(old(adjectives)@, final(adjectives)@, old(instances)@[inst_idx as int].name, r))
                    &&& (inst_idx >= old(instances)@.len() ==> declared(old(adjectives)@, final(adjectives)@, "?", r))
                    &&& final(meanings)@ == old(meanings)@
                    &&& final(instances)@ == old(instances)@
                } else {
                    let name = old(instances)@[inst_idx as int].name;
                    let prop = adjectival_property(inst_idx, prn_idx, old(instances)@, subjects@, constructors@, properties@);
                    let dom = match singleton_idx {
                        Some(s) => AdjectiveDomainData { domain_kind: Some(s), ..empty_domain() },
                        None => AdjectiveDomainData { domain_kind: domain, ..empty_domain() },
                    };
                    &&& exists|mid: Seq<Adjective>| declared(old(adjectives)@, mid, name, r)
                        && #[trigger] adjective_gains(mid, final(adjectives)@, r as int, old(meanings)@.len() as usize)
                    &&& final(meanings)@ == old(meanings)@.push(AdjectiveMeaning {
                        owning_adjective: Some(r),
                        domain: dom,
                        ..new_meaning(ENUMERATIVE_FAMILY, prop, Some(name))
                    })
                    &&& final(instances)@ == old(instances)@.update(inst_idx as int,
                        Instance { as_adjective: Some(r), ..old(instances)@[inst_idx as int] })
                }
            }),
    {
        let domain_kind_idx = match singleton_idx {
            Some(singleton) => match Instances::to_kind(singleton, instances, subjects, constructors) {
                Some(k) => Some(k.construct_id),
                None => set_kind_idx,
            },
            None => set_kind_idx,
        };
        let inst_name = match Instances::get_name(inst_idx, instances) {
            Some(n) => n,
            None => {
                return Adjectives::declare("?", adjectives);
            },
        };
        let kind = match domain_kind_idx {
            Some(k) => k,
            None => {
                return Adjectives::declare(inst_name, adjectives);
            },
        };
        let prn_idx_val = match prn_idx {
            Some(p) => Some(p),
            None => match Instances::to_kind(inst_idx, instances, subjects, constructors) {
                Some(k) => {
                    proof {
                        let n = subjects@[subjects@[instances@[inst_idx as int].as_subject.unwrap() as int].broader_than.unwrap() as int].represents.unwrap();
                        crate::search::lemma_first_where(constructors@, crate::kinds::constructor_named(n@));
                    }
                    Properties::property_with_same_name_as(constructors[k.construct_id].name, properties)
                },
                None => None,
            },
        };
        let adj_idx = Adjectives::declare(inst_name, adjectives);
        let ghost mid = adjectives@;
        let am = AdjectiveMeanings::new(ENUMERATIVE_FAMILY, prn_idx_val, Some(inst_name), meanings);
        AdjectiveAmbiguity::add_meaning_to_adjective(am, adj_idx, adjectives, meanings);
        instances[inst_idx].as_adjective = Some(adj_idx);
        match singleton_idx {
            Some(singleton) => {
                AdjectiveMeaningDomains::set_from_instance(am, singleton, meanings);
            },
            None => {
                AdjectiveMeaningDomains::set_from_kind(am, kind, meanings);
            },
        }
        proof {
            assert(adjective_gains(mid, adjectives@, adj_idx as int, old(meanings)@.len() as usize));
        }
        adj_idx
    }

    /// Assert the enumerative meaning at `am_idx` about the subject at
    /// `subj_idx` (see `instance_asserted`).
    pub fn assert_that(
        am_idx: usize,
        subj_idx: usize,
        parity: bool,
        meanings: &mut Vec<AdjectiveMeaning>,
        subjects: &mut Vec<InferenceSubject>,
        properties: &[Property],
        families: &[InferenceFamily],
        inferences: &mut Vec<Inference>,
        data_registry: &mut Vec<PropertyInferenceData>,
        definitions: &mut Vec<MeasurementDefinition>,
    ) -> (r: bool)
        requires
            parity ==> am_idx < old(meanings)@.len(),
            parity && meaning_property(old(meanings)@[am_idx as int], properties@) is Some ==> {
                &&& has_property_family(families@)
                &&& subj_idx < old(subjects)@.len()
            },
        ensures
            *final(meanings) == *old(meanings),
            *final(definitions) == *old(definitions),
            instance_asserted(old(meanings)@, properties@, families@, am_idx, subj_idx, parity,
                *old(subjects), *final(subjects), *old(inferences), *final(inferences),
                *old(data_registry), *final(data_registry), r),
    {
        if !parity {
            return false;
        }
        let am = meanings[am_idx];
        let prn_idx = match am.family_specific_data {
            Some(i) => i,
            None => {
                return false;
            },
        };
        if prn_idx >= properties.len() {
            return false;
        }
        let prn_name = properties[prn_idx].name;
        let _ = PropertyInferences::draw(subj_idx, prn_name, am.indexing_text, families, inferences, subjects, data_registry);
        true
    }
}

} // verus!
