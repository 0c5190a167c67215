//! Measurement adjectives: adjectives defined by comparing a property with a
//! threshold ("roomy" for a carrying capacity of 10 or more).
use vstd::prelude::*;
use crate::text::owned_text;
use crate::knowledge::adjectives::{
    Adjective, AdjectiveAmbiguity, AdjectiveMeaning, AdjectiveMeaningDomains, AdjectiveMeaningFamily,
    AdjectiveMeaningFamilyMethods, AdjectiveMeanings, AdjectiveMethodOwner, Adjectives, declared, new_meaning,
    empty_domain, AdjectiveDomainData,
};
use crate::knowledge::either_or_property_adjectives::adjective_gains;
use crate::knowledge::inference_subjects::InferenceSubject;
use crate::knowledge::inferences::{Certainty, Inference, InferenceFamily, JoinResult};
use crate::knowledge::measurements::{MeasurementDefinition, Measurements, validated_def, is_valid_def};
use crate::knowledge::properties::Property;
use crate::knowledge::property_inferences::{PropertyInferenceData, PropertyInferences, drawn, has_property_family};

verus! {

/// Index of the measurement family in its family registry (after the
/// either-or property and enumerative families).
pub const MEASUREMENT_FAMILY: usize = 2;

/// Measurement adjectives.
pub struct MeasurementAdjectives;

/// The definition a measurement meaning records, when the meaning exists.
pub open spec fn meaning_definition(meanings: Seq<AdjectiveMeaning>, am_idx: usize) -> Option<usize> {
    if am_idx < meanings.len() { meanings[am_idx as int].family_specific_data } else { None }
}

/// The property asserting a measurement meaning sets: for a positive
/// parity, the property of its definition, once the definition is valid
/// and the property exists.
pub open spec fn measurement_target(
    meanings: Seq<AdjectiveMeaning>, defs: Seq<MeasurementDefinition>, props: Seq<Property>, am_idx: usize, parity: bool,
) -> Option<&'static str> {
    match meaning_definition(meanings, am_idx) {
        Some(m) => if m < defs.len() {
            let v = validated_def(defs[m as int], props);
            if is_valid_def(v) && v.prop.unwrap() < props.len() && parity {
                Some(props[v.prop.unwrap() as int].name)
            } else {
                None
            }
        } else {
            None
        },
        None => None,
    }
}

/// What asserting the measurement meaning at `am_idx` does: its definition
/// is validated; then, when there is a property to set (see
/// `measurement_target`), an inference that the subject has it is drawn
/// and the answer is true; otherwise nothing else changes and the answer is false.
pub open spec fn measurement_asserted(
    meanings: Seq<AdjectiveMeaning>, props: Seq<Property>, inf_families: Seq<InferenceFamily>,
    am_idx: usize, subj_idx: usize, parity: bool,
    defs0: Seq<MeasurementDefinition>, defs1: Seq<MeasurementDefinition>,
    subjects0: Vec<InferenceSubject>, subjects1: Vec<InferenceSubject>,
    infs0: Vec<Inference>, infs1: Vec<Inference>,
    data0: Vec<PropertyInferenceData>, data1: Vec<PropertyInferenceData>,
    r: bool,
) -> bool {
    &&& defs1 == match meaning_definition(meanings, am_idx) {
        Some(m) => if m < defs0.len() { defs0.update(m as int, validated_def(defs0[m as int], props)) } else { defs0 },
        None => defs0,
    }
    &&& match measurement_target(meanings, defs0, props, am_idx, parity) {
        None => !r && subjects1 == subjects0 && infs1 == infs0 && data1 == data0,
        Some(p) => r && exists|jr: JoinResult| #[trigger] drawn(subjects0, subjects1, infs0, infs1, data0, data1,
            inf_families, subj_idx, p, None, Certainty::Likely, false, jr),
    }
}

impl MeasurementAdjectives {
    /// The adjective families as the measurement family sees them: the
    /// either-or property and enumerative families (without methods, as
    /// placeholders) and then the measurement family (priority 3, with
    /// assert, claim and schema methods); no meanings, adjectives or
    /// definitions yet.
    pub fn start() -> (r: (Vec<AdjectiveMeaningFamily>, Vec<AdjectiveMeaning>, Vec<Adjective>, Vec<MeasurementDefinition>))
        ensures
            r.0@.len() == 3,
            r.0@[0].name@ == "either_or_property"@,
            r.0@[0].definition_claim_priority == 0,
            r.0@[0].methods == (AdjectiveMeaningFamilyMethods { assert_that: None, claim_definition: None, prepare_schemas: None, index: None }),
            r.0@[1].name@ == "enumerative"@,
            r.0@[1].definition_claim_priority == 0,
            r.0@[1].methods == (AdjectiveMeaningFamilyMethods { assert_that: None, claim_definition: None, prepare_schemas: None, index: None }),
            r.0@[2].name@ == "measurement"@,
            r.0@[2].definition_claim_priority == 3,
            r.0@[2].methods == (AdjectiveMeaningFamilyMethods {
                assert_that: Some(AdjectiveMethodOwner::Measurement),
                claim_definition: Some(AdjectiveMethodOwner::Measurement),
                prepare_schemas: Some(AdjectiveMethodOwner::Measurement),
                index: None,
            }),
            r.1@.len() == 0,
            r.2@.len() == 0,
            r.3@.len() == 0,
    {
        proof {
            reveal_strlit("either_or_property");
            reveal_strlit("enumerative");
            reveal_strlit("measurement");
        }
        let measurement_family = AdjectiveMeaningFamily {
            name: "measurement",
            definition_claim_priority: 3,
            methods: AdjectiveMeaningFamilyMethods {
                assert_that: Some(AdjectiveMethodOwner::Measurement),
                claim_definition: Some(AdjectiveMethodOwner::Measurement),
                prepare_schemas: Some(AdjectiveMethodOwner::Measurement),
                index: None,
            },
        };
        let either_or_placeholder = AdjectiveMeaningFamily {
            name: "either_or_property",
            definition_claim_priority: 0,
            methods: AdjectiveMeaningFamilyMethods { assert_that: None, claim_definition: None, prepare_schemas: None, index: None },
        };
        let enumerative_placeholder = AdjectiveMeaningFamily {
            name: "enumerative",
            definition_claim_priority: 0,
            methods: AdjectiveMeaningFamilyMethods { assert_that: None, claim_definition: None, prepare_schemas: None, index: None },
        };
        (vec![either_or_placeholder, enumerative_placeholder, measurement_family], Vec::new(), Vec::new(), Vec::new())
    }

    /// Whether the meaning at `am_idx` exists and belongs to the measurement family.
    pub fn is_measurement(am_idx: usize, meanings: &[AdjectiveMeaning]) -> (r: bool)
        ensures
            r == (am_idx < meanings@.len() && meanings@[am_idx as int].family == MEASUREMENT_FAMILY),
    {
        am_idx < meanings.len() && meanings[am_idx].family == MEASUREMENT_FAMILY
    }

    /// Claim a measurement definition: add the definition, a meaning of the
    /// measurement family recording it (with its domain given as text), and
    /// the adjective named by the headword owning that meaning; record the
    /// meaning in the definition and return the definition's index.
    pub fn claim_definition(
        headword: &'static str,
        prop: Option<usize>,
        shape: i32,
        threshold_text: Option<&'static str>,
        domain_text: Option<&'static str>,
        definitions: &mut Vec<MeasurementDefinition>,
        adjectives: &mut Vec<Adjective>,
        meanings: &mut Vec<AdjectiveMeaning>,
        families: &[AdjectiveMeaningFamily],
        properties: &[Property],
    ) -> (r: Option<usize>)
        ensures
            r == Some(old(definitions)@.len() as usize),
            final(definitions)@.len() == old(definitions)@.len() + 1,
            final(definitions)@.take(old(definitions)@.len() as int) == old(definitions)@,
            ({
                let d = final(definitions)@[old(definitions)@.len() as int];
                &&& d.headword@ == headword@
                &&& d.headword_as_adjective == Some(old(meanings)@.len() as usize)
                &&& d.superlative is None
                &&& d.prop == prop
                &&& d.name_of_property_to_compare is None
                &&& d.region_shape == shape
                &&& d.region_threshold == 0
                &&& d.region_kind is None
                &&& !d.region_threshold_evaluated
                &&& owned_text(d.region_threshold_text) == match threshold_text {
                    Some(t) => Some(t@),
                    None => None,
                }
            }),
            exists|a: usize, mid: Seq<Adjective>| declared(old(adjectives)@, mid, headword, a)
                && #[trigger] adjective_gains(mid, final(adjectives)@, a as int, old(meanings)@.len() as usize)
                && final(meanings)@ == old(meanings)@.push(AdjectiveMeaning {
                    owning_adjective: Some(a),
                    domain: AdjectiveDomainData { domain_text, ..empty_domain() },
                    ..new_meaning(MEASUREMENT_FAMILY, Some(old(definitions)@.len() as usize), Some(headword))
                }),
    {
        let mdef_idx = Measurements::new(headword, prop, shape, threshold_text, definitions);
        let am_idx = AdjectiveMeanings::new(MEASUREMENT_FAMILY, Some(mdef_idx), Some(headword), meanings);
        let adj_idx = Adjectives::declare(headword, adjectives);
        let ghost mid = adjectives@;
        AdjectiveAmbiguity::add_meaning_to_adjective(am_idx, adj_idx, adjectives, meanings);
        AdjectiveMeaningDomains::set_from_text(am_idx, domain_text, meanings);
        definitions[mdef_idx].headword_as_adjective = Some(am_idx);
        proof {
            assert(adjective_gains(mid, adjectives@, adj_idx as int, old(meanings)@.len() as usize));
            assert(definitions@.take(old(definitions)@.len() as int) =~= old(definitions)@);
        }
        Some(mdef_idx)
    }

    /// Assert the measurement meaning at `am_idx` about the subject at
    /// `subj_idx` (see `measurement_asserted`).
    pub fn assert_that(
        am_idx: usize,
        subj_idx: usize,
        parity: bool,
        meanings: &mut Vec<AdjectiveMeaning>,
        subjects: &mut Vec<InferenceSubject>,
        properties: &[Property],
        families: &[InferenceFamily],
        inferences: &mut Vec<Inference>,
        data_registry: &mut Vec<PropertyInferenceData>,
        definitions: &mut Vec<MeasurementDefinition>,
    ) -> (r: bool)
        requires
            measurement_target(old(meanings)@, old(definitions)@, properties@, am_idx, parity) is Some ==> {
                &&& has_property_family(families@)
                &&& subj_idx < old(subjects)@.len()
            },
        ensures
            *final(meanings) == *old(meanings),
            measurement_asserted(old(meanings)@, properties@, families@, am_idx, subj_idx, parity,
                old(definitions)@, final(definitions)@, *old(subjects), *final(subjects), *old(inferences),
                *final(inferences), *old(data_registry), *final(data_registry), r),
    {
        if am_idx >= meanings.len() {
            return false;
        }
        let mdef_idx = match meanings[am_idx].family_specific_data {
            Some(i) => i,
            None => {
                return false;
            },
        };
        Measurements::validate(mdef_idx, definitions, properties);
        if !Measurements::is_valid(mdef_idx, definitions) {
            return false;
        }
        let p = match definitions[mdef_idx].prop {
            Some(p) => p,
            None => {
                return false;
            },
        };
        if p >= properties.len() {
            return false;
        }
        let prn_name = properties[p].name;
        if !parity {
            return false;
        }
        let _ = PropertyInferences::draw(subj_idx, prn_name, None, families, inferences, subjects, data_registry);
        true
    }

    /// Prepare the schemas of a meaning: there are none to prepare.
    pub fn prepare_schemas(am_idx: usize, task: i32) {
    }
}

} // verus!
