//! Property inferences: the `property_inf` family, saying that a subject has
//! a property (with a value, or as an either-or property).
use vstd::prelude::*;
use crate::text::str_eq;
use crate::search::{first_where, first_from};
use crate::knowledge::inference_subjects::InferenceSubject;
use crate::knowledge::inferences::{
    Certainty, Inference, InferenceFamily, InferenceFamilyMethods, JoinResult, InferenceCompareMethod,
    InferenceLogMethod, join_result, joined_list, joined_registry,
};

verus! {

/// The kind of value stored in a property inference.
#[derive(Clone, Copy, Debug, PartialEq, Eq, Structural)]
pub enum ValueKind {
    /// Value kind is not yet determined.
    Unknown,
    /// Value is not an object reference (a literal or number).
    NonObject,
    /// Value is an object reference.
    Object,
}

/// Data stored in a property inference.
#[derive(Clone, Copy, Debug, PartialEq, Eq)]
pub struct PropertyInferenceData {
    /// The property name.
    pub property: &'static str,
    /// The property value, if any.
    pub value: Option<&'static str>,
    /// The kind of value stored.
    pub value_kind: ValueKind,
}

/// The property inference family.
pub struct PropertyInferences;

/// Inference families whose name is `n`.
pub open spec fn inference_family_named(n: Seq<char>) -> spec_fn(InferenceFamily) -> bool {
    |f: InferenceFamily| f.name@ == n
}

/// The first inference family with the given name.
pub fn find_inference_family(name: &str, families: &[InferenceFamily]) -> (r: Option<usize>)
    ensures
        r matches Some(i) ==> i < families@.len(),
        r matches Some(i) ==> first_where(families@, inference_family_named(name@)) == Some(i as int),
        r is None ==> first_where(families@, inference_family_named(name@)) is None,
{
    let n = families.len();
    let mut i: usize = 0;
    while i < n
        invariant
            n == families@.len(),
            0 <= i <= n,
            first_where(families@, inference_family_named(name@)) == first_from(families@, inference_family_named(name@), i as int),
        decreases n - i,
    {
        if str_eq(families[i].name, name) {
            return Some(i);
        }
        i += 1;
    }
    None
}

/// The index of the `property_inf` family in `families`.
pub open spec fn property_family_index(families: Seq<InferenceFamily>) -> int {
    first_where(families, inference_family_named("property_inf"@)).unwrap()
}

/// The `property_inf` family is present.
pub open spec fn has_property_family(families: Seq<InferenceFamily>) -> bool {
    first_where(families, inference_family_named("property_inf"@)) is Some
}

/// The property inference made for `prn` with the given data index and certainty.
pub open spec fn property_inference(families: Seq<InferenceFamily>, prn: &'static str, data_idx: usize, certainty: Certainty, from_metadata: bool) -> Inference {
    Inference {
        family: property_family_index(families) as usize,
        data: Some(prn),
        data_index: Some(data_idx),
        certainty,
        inferred_from: None,
        drawn_during_stage: 0,
        drawn_from_metadata: from_metadata,
    }
}

/// The certainty of the negation of a statement of the given certainty.
pub open spec fn negated_certainty(c: Certainty) -> Certainty {
    match c {
        Certainty::Impossible => Certainty::Certain,
        Certainty::Unlikely => Certainty::Likely,
        Certainty::Likely => Certainty::Unlikely,
        Certainty::Certain => Certainty::Impossible,
        other => other,
    }
}

impl PropertyInferences {
    /// The `property_inf` family: it logs the topic, compares inferences by
    /// topic (1 when different) and explains its contradictions.
    pub fn start() -> (f: InferenceFamily)
        ensures
            f.name@ == "property_inf"@,
            f.methods.log_details == InferenceLogMethod::Topic,
            f.methods.compare == InferenceCompareMethod::ByData(1),
            f.methods.explains_contradictions,
    {
        InferenceFamily {
            name: "property_inf",
            methods: InferenceFamilyMethods {
                log_details: InferenceLogMethod::Topic,
                compare: InferenceCompareMethod::ByData(1),
                explains_contradictions: true,
            },
        }
    }

    /// Create a new, likely, property inference: record the property and
    /// value in the data registry, and return an inference of the
    /// `property_inf` family about the property, pointing at that record.
    pub fn new(
        subj: &InferenceSubject,
        prn: &'static str,
        val: Option<&'static str>,
        families: &[InferenceFamily],
        data_registry: &mut Vec<PropertyInferenceData>,
    ) -> (inf: Inference)
        requires
            has_property_family(families@),
        ensures
            inf == property_inference(families@, prn, old(data_registry)@.len() as usize, Certainty::Likely, false),
            final(data_registry)@ == old(data_registry)@.push(PropertyInferenceData { property: prn, value: val, value_kind: ValueKind::Unknown }),
    {
        let family_idx = match find_inference_family("property_inf", families) {
            Some(i) => i,
            None => 0,
        };
        let data_idx = data_registry.len();
        data_registry.push(PropertyInferenceData { property: prn, value: val, value_kind: ValueKind::Unknown });
        Inference {
            family: family_idx,
            data: Some(prn),
            data_index: Some(data_idx),
            certainty: Certainty::Likely,
            inferred_from: None,
            drawn_during_stage: 0,
            drawn_from_metadata: false,
        }
    }

    /// Create a likely property inference and join it to the subject at `subj_idx`.
    pub fn draw(
        subj_idx: usize,
        prn: &'static str,
        val: Option<&'static str>,
        families: &[InferenceFamily],
        inferences: &mut Vec<Inference>,
        subjects: &mut Vec<InferenceSubject>,
        data_registry: &mut Vec<PropertyInferenceData>,
    ) -> (r: JoinResult)
        requires
            has_property_family(families@),
            subj_idx < old(subjects)@.len(),
        ensures
            drawn(*old(subjects), *final(subjects), *old(inferences), *final(inferences), *old(data_registry), *final(data_registry),
                families@, subj_idx, prn, val, Certainty::Likely, false, r),
    {
        let inf = PropertyInferences::new(&subjects[subj_idx], prn, val, families, data_registry);
        inf.join(&mut subjects[subj_idx], families, inferences)
    }

    /// Like `draw`, but the inference is marked as drawn from metadata.
    pub fn draw_from_metadata(
        subj_idx: usize,
        prn: &'static str,
        val: Option<&'static str>,
        families: &[InferenceFamily],
        inferences: &mut Vec<Inference>,
        subjects: &mut Vec<InferenceSubject>,
        data_registry: &mut Vec<PropertyInferenceData>,
    ) -> (r: JoinResult)
        requires
            has_property_family(families@),
            subj_idx < old(subjects)@.len(),
        ensures
            drawn(*old(subjects), *final(subjects), *old(inferences), *final(inferences), *old(data_registry), *final(data_registry),
                families@, subj_idx, prn, val, Certainty::Likely, true, r),
    {
        let mut inf = PropertyInferences::new(&subjects[subj_idx], prn, val, families, data_registry);
        inf.drawn_from_metadata = true;
        inf.join(&mut subjects[subj_idx], families, inferences)
    }

    /// Like `draw`, but with the certainty negated: the inference is unlikely.
    pub fn draw_negated(
        subj_idx: usize,
        prn: &'static str,
        val: Option<&'static str>,
        families: &[InferenceFamily],
        inferences: &mut Vec<Inference>,
        subjects: &mut Vec<InferenceSubject>,
        data_registry: &mut Vec<PropertyInferenceData>,
    ) -> (r: JoinResult)
        requires
            has_property_family(families@),
            subj_idx < old(subjects)@.len(),
        ensures
            drawn(*old(subjects), *final(subjects), *old(inferences), *final(inferences), *old(data_registry), *final(data_registry),
                families@, subj_idx, prn, val, negated_certainty(Certainty::Likely), false, r),
    {
        let mut inf = PropertyInferences::new(&subjects[subj_idx], prn, val, families, data_registry);
        inf.certainty = match inf.certainty {
            Certainty::Impossible => Certainty::Certain,
            Certainty::Unlikely => Certainty::Likely,
            Certainty::Likely => Certainty::Unlikely,
            Certainty::Certain => Certainty::Impossible,
            other => other,
        };
        inf.join(&mut subjects[subj_idx], families, inferences)
    }

    /// The property name recorded for a property inference.
    pub fn get_property(inf: &Inference, data_registry: &[PropertyInferenceData]) -> (r: Option<&'static str>)
        ensures
            r == match inf.data_index {
                Some(i) => if i < data_registry@.len() { Some(data_registry@[i as int].property) } else { None },
                None => None,
            },
    {
        match inf.data_index {
            Some(idx) => if idx < data_registry.len() { Some(data_registry[idx].property) } else { None },
            None => None,
        }
    }

    /// The property value recorded for a property inference.
    pub fn get_value(inf: &Inference, data_registry: &[PropertyInferenceData]) -> (r: Option<&'static str>)
        ensures
            r == match inf.data_index {
                Some(i) => if i < data_registry@.len() { data_registry@[i as int].value } else { None },
                None => None,
            },
    {
        match inf.data_index {
            Some(idx) => if idx < data_registry.len() { data_registry[idx].value } else { None },
            None => None,
        }
    }

    /// Set the value kind recorded for a property inference.
    pub fn set_value_kind(inf: &Inference, kind: ValueKind, data_registry: &mut Vec<PropertyInferenceData>)
        ensures
            final(data_registry)@ == match inf.data_index {
                Some(i) => if i < old(data_registry)@.len() {
                    old(data_registry)@.update(i as int, PropertyInferenceData { value_kind: kind, ..old(data_registry)@[i as int] })
                } else {
                    old(data_registry)@
                },
                None => old(data_registry)@,
            },
    {
        if let Some(idx) = inf.data_index {
            if idx < data_registry.len() {
                data_registry[idx].value_kind = kind;
            }
        }
    }
}

/// What drawing a property inference does: it records the property and value,
/// and joins a `property_inf` inference (with the given certainty and
/// metadata mark) to the subject at `subj_idx`; no other subject changes.
pub open spec fn drawn(
    subjects0: Vec<InferenceSubject>, subjects1: Vec<InferenceSubject>,
    infs0: Vec<Inference>, infs1: Vec<Inference>,
    data0: Vec<PropertyInferenceData>, data1: Vec<PropertyInferenceData>,
    families: Seq<InferenceFamily>, subj_idx: usize, prn: &'static str, val: Option<&'static str>,
    certainty: Certainty, from_metadata: bool, r: JoinResult,
) -> bool {
    let inf = property_inference(families, prn, data0@.len() as usize, certainty, from_metadata);
    let s0 = subjects0@[subj_idx as int];
    let s1 = subjects1@[subj_idx as int];
    &&& data1@ == data0@.push(PropertyInferenceData { property: prn, value: val, value_kind: ValueKind::Unknown })
    &&& r == join_result(inf, s0.inf_list@, infs0@, families)
    &&& infs1@ == joined_registry(inf, s0.inf_list@, infs0@, families)
    &&& s1.inf_list@ == joined_list(inf, s0.inf_list@, infs0@, families)
    &&& subjects1@.len() == subjects0@.len()
    &&& forall|j: int| 0 <= j < subjects0@.len() && j != subj_idx ==> subjects1@[j] == subjects0@[j]
    &&& s1.broader_than == s0.broader_than
    &&& s1.infs_family == s0.infs_family
    &&& s1.represents == s0.represents
    &&& s1.imp_list@ == s0.imp_list@
    &&& s1.permissions_list@ == s0.permissions_list@
    &&& s1.alias_variable == s0.alias_variable
    &&& s1.log_name == s0.log_name
}

} // verus!
