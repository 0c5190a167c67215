#![allow(unused_imports)]
#![allow(unused_variables)]
#![allow(unused_mut)]
#![allow(dead_code)]
use conform7_semantics::kinds;
use conform7_semantics::kinds::{Kind, KindConstructor};
use conform7_semantics::knowledge::adjectives::{
    Adjective, AdjectiveAmbiguity, AdjectiveDomainData, AdjectiveMeaning, AdjectiveMeaningDomains,
    AdjectiveMeaningFamily, AdjectiveMeaningFamilyMethods, AdjectiveMeanings, AdjectiveMethodOwner, Adjectives,
};
use conform7_semantics::knowledge::either_or_property_adjectives::{EitherOrPropertyAdjectives, EITHER_OR_PROPERTY_FAMILY};
use conform7_semantics::knowledge::inference_subjects::{InferenceSubject, InferenceSubjectFamily};
use conform7_semantics::knowledge::inferences::{Certainty, Inference, InferenceFamily, JoinResult};
use conform7_semantics::knowledge::instance_adjectives::{InstanceAdjectives, ENUMERATIVE_FAMILY};
use conform7_semantics::knowledge::instance_subjects::{InstanceSubjects, INSTANCES_FAMILY_NAME};
use conform7_semantics::knowledge::instances::{Instance, Instances};
use conform7_semantics::knowledge::kind_subjects;
use conform7_semantics::knowledge::measurement_adjectives::{MeasurementAdjectives, MEASUREMENT_FAMILY};
use conform7_semantics::knowledge::measurements::{
    MeasurementDefinition, Measurements, MEASURE_T_EXACTLY, MEASURE_T_OR_LESS, MEASURE_T_OR_MORE,
};
use conform7_semantics::knowledge::properties::{
    EitherOrProperties, EitherOrPropertyData, Properties, Property, ValuePropertyData,
};
use conform7_semantics::knowledge::property_inferences::{PropertyInferenceData, PropertyInferences, ValueKind};
use conform7_semantics::knowledge::setup::setup_knowledge_module;

/// Helper: create a minimal kind constructor with an inference subject.
fn make_kind_constructor(
    name: &'static str,
    constructors: &mut Vec<KindConstructor>,
    subjects: &mut Vec<InferenceSubject>,
    families: &[InferenceSubjectFamily],
) -> usize {
    let idx = constructors.len();
    let con = KindConstructor::new(name, conform7_semantics::kinds::ConstructorGroup::Base, 0);
    constructors.push(con);
    kind_subjects::new(&mut constructors[idx], subjects, families);
    idx
}

#[test]
fn test_family_has_correct_name() {
    let family = InstanceSubjects::family();
    assert_eq!(family.name, INSTANCES_FAMILY_NAME);
}

#[test]
fn test_family_has_get_name_text_method() {
    let family = InstanceSubjects::family();
    // The get_name_text method should return the represents field
    let subj = InferenceSubject::new(0, None, Some("test_instance"), Some("test_instance"));
    let name = family.methods.get_name_text(&subj);
    assert_eq!(name, Some("test_instance"));
}

#[test]
fn test_family_has_certainty_method() {
    let family = InstanceSubjects::family();
    let subj = InferenceSubject::new(0, None, None, None);
    let certainty = family.methods.get_default_certainty(&subj);
    assert_eq!(certainty, 3); // CERTAIN_CE
}

#[test]
fn test_new_creates_subject_with_correct_family() {
    let families = vec![
        InferenceSubjectFamily::fundamentals(),
        kind_subjects::family(),
        InstanceSubjects::family(),
    ];
    let mut subjects = vec![InferenceSubject::new_fundamental(None, "model_world")];
    let mut constructors = Vec::new();
    let mut instances = Vec::new();

    let colour_idx = make_kind_constructor("colour", &mut constructors, &mut subjects, &families);

    // Create an instance first
    let inst_idx = Instances::new("red", colour_idx, 1, &mut instances, &mut subjects, &families, &constructors);

    // The subject should have been created by Instances::new
    let subj_idx = instances[inst_idx].as_subject.unwrap();
    let subj = &subjects[subj_idx];

    // The family should be the instances family (index 2, after fundamentals and kinds)
    assert_eq!(subj.infs_family, 2);
}

#[test]
fn test_new_creates_subject_with_broader_kind_subject() {
    let families = vec![
        InferenceSubjectFamily::fundamentals(),
        kind_subjects::family(),
        InstanceSubjects::family(),
    ];
    let mut subjects = vec![InferenceSubject::new_fundamental(None, "model_world")];
    let mut constructors = Vec::new();
    let mut instances = Vec::new();

    let colour_idx = make_kind_constructor("colour", &mut constructors, &mut subjects, &families);

    let inst_idx = Instances::new("red", colour_idx, 1, &mut instances, &mut subjects, &families, &constructors);

    let subj_idx = instances[inst_idx].as_subject.unwrap();
    let subj = &subjects[subj_idx];

    // The broader subject should be the colour kind's subject
    assert!(subj.broader_than.is_some());
    let broader = &subjects[subj.broader_than.unwrap()];
    assert_eq!(broader.represents, Some("colour"));
}

#[test]
fn test_to_instance_returns_correct_instance() {
    let families = vec![
        InferenceSubjectFamily::fundamentals(),
        kind_subjects::family(),
        InstanceSubjects::family(),
    ];
    let mut subjects = vec![InferenceSubject::new_fundamental(None, "model_world")];
    let mut constructors = Vec::new();
    let mut instances = Vec::new();

    let colour_idx = make_kind_constructor("colour", &mut constructors, &mut subjects, &families);

    let inst_idx = Instances::new("red", colour_idx, 1, &mut instances, &mut subjects, &families, &constructors);

    let subj_idx = instances[inst_idx].as_subject.unwrap();
    let result = InstanceSubjects::to_instance(subj_idx, &subjects, &instances);

    assert_eq!(result, Some(inst_idx));
}

#[test]
fn test_to_instance_returns_none_for_non_instance_subject() {
    let subjects = vec![InferenceSubject::new_fundamental(None, "model_world")];
    let instances = Vec::new();

    let result = InstanceSubjects::to_instance(0, &subjects, &instances);
    assert_eq!(result, None);
}

#[test]
fn test_to_instance_returns_none_for_invalid_index() {
    let subjects = Vec::new();
    let instances = Vec::new();

    let result = InstanceSubjects::to_instance(0, &subjects, &instances);
    assert_eq!(result, None);
}

#[test]
fn test_certainty_returns_three() {
    assert_eq!(InstanceSubjects::certainty(), 3);
}

#[test]
fn test_get_name_returns_instance_name() {
    let subj = InferenceSubject::new(0, None, Some("red"), Some("red"));
    assert_eq!(InstanceSubjects::get_name(&subj), Some("red"));
}

#[test]
fn test_get_name_returns_none_when_no_represents() {
    let subj = InferenceSubject::new(0, None, None, None);
    assert_eq!(InstanceSubjects::get_name(&subj), None);
}

#[test]
fn test_make_adj_const_domain_is_noop() {
    let subj = InferenceSubject::new(0, None, Some("red"), Some("red"));
    // Should not panic
    InstanceSubjects::make_adj_const_domain(&subj, 0, 0);
}

#[test]
fn test_new_permission_granted_is_noop() {
    let subj = InferenceSubject::new(0, None, Some("red"), Some("red"));
    // Should not panic
    InstanceSubjects::new_permission_granted(&subj, 0);
}
