#![allow(unused_imports)]
#![allow(unused_variables)]
#![allow(unused_mut)]
#![allow(dead_code)]
use conform7_semantics::calculus::{
    BinaryPredicate, BinaryPredicateFamilies, BinaryPredicates, BpFamily, BpFamilyMethods, BpMethodOwner, BpTermDetails,
    BPTerms, ALWAYS_MATCH, DECLINE_TO_MATCH,
};
use conform7_semantics::kinds;
use conform7_semantics::kinds::{Kind, KindConstructor};
use conform7_semantics::knowledge::inference_subjects::{InferenceSubject, InferenceSubjectFamily};
use conform7_semantics::knowledge::inferences::{Certainty, Inference, InferenceFamily, JoinResult};
use conform7_semantics::knowledge::instances::{Instance, Instances};
use conform7_semantics::knowledge::kind_subjects;
use conform7_semantics::knowledge::properties::{
    EitherOrProperties, EitherOrPropertyData, Properties, Property, ValuePropertyData,
};
use conform7_semantics::knowledge::property_inferences::{PropertyInferenceData, PropertyInferences, ValueKind};
use conform7_semantics::knowledge::provision_relation::{ProvisionRelation, PROVISION_FAMILY, R_PROVISION};
use conform7_semantics::knowledge::relation_inferences::{RelationInferenceData, RelationInferences};
use conform7_semantics::knowledge::relation_subjects;
use conform7_semantics::knowledge::relation_subjects::{certainty, check_model, complete_model, family, from_bp, get_name, new, to_bp, RELATIONS_FAMILY};
use conform7_semantics::knowledge::same_property_relation::{SameAsRelations, SAME_PROPERTY_FAMILY};
use conform7_semantics::knowledge::setting_property_relation::{
    PropertySettingBpData, SettingPropertyRelations, PROPERTY_SETTING_FAMILY,
};
use conform7_semantics::knowledge::setup::{setup_knowledge_module, GLOBAL_CONSTANTS, GLOBAL_VARIABLES, MODEL_WORLD};
use conform7_semantics::knowledge::value_properties::ValueProperties;
use conform7_semantics::knowledge::world::{
    World, WORLD_STAGE_I, WORLD_STAGE_II, WORLD_STAGE_III, WORLD_STAGE_IV, WORLD_STAGE_V,
};

fn make_test_bp(name: &'static str) -> BinaryPredicate {
    BinaryPredicate {
        relation_family: 0,
        family_specific: Some(name.to_string()),
        relation_name: Some(name.to_string()),
        debugging_log_name: Some(name.to_string()),
        term_details: [
            BpTermDetails {
                implies_infs: None,
                implies_kind: None,
                called_name: None,
                function_of_other: None,
                index_term_as: None,
            },
            BpTermDetails {
                implies_infs: None,
                implies_kind: None,
                called_name: None,
                function_of_other: None,
                index_term_as: None,
            },
        ],
        reversal: None,
        right_way_round: true,
        task_functions: [None, None, None, None],
        loop_parent_optimisation_proviso: None,
        loop_parent_optimisation_ranger: None,
        knowledge_about_bp: None,
    }
}

#[test]
fn relations_family_has_correct_name() {
    let f = family();
    assert_eq!(f.name, "relations");
}

#[test]
fn relations_family_has_certain_certainty() {
    let f = family();
    let subject = InferenceSubject::new(0, None, None, Some("test"));
    assert_eq!(f.methods.get_default_certainty(&subject), 3);
}

#[test]
fn relations_family_get_name_returns_none() {
    let f = family();
    let subject = InferenceSubject::new(0, None, None, Some("test"));
    assert_eq!(f.methods.get_name_text(&subject), None);
}

#[test]
fn relations_family_check_model_is_noop() {
    let f = family();
    let subject = InferenceSubject::new(0, None, None, Some("test"));
    // Should not panic
    check_model(&subject);
}

#[test]
fn relations_family_complete_model_is_noop() {
    let f = family();
    let subject = InferenceSubject::new(0, None, None, Some("test"));
    // Should not panic
    complete_model(&subject);
}

#[test]
fn new_creates_subject_for_binary_predicate() {
    let (mut subjects, mut families) = setup_knowledge_module();
    families.push(family());

    let bp = make_test_bp("contains");
    let mut bp_registry = vec![bp];
    let mut bp_to_subject: Vec<Option<usize>> = vec![];

    let idx = new(0, &mut subjects, &families, &mut bp_registry, &mut bp_to_subject);

    assert_eq!(idx, 3); // After 3 fundamental subjects
    assert_eq!(subjects[idx].infs_family, RELATIONS_FAMILY);
    assert_eq!(subjects[idx].broader_than, Some(0)); // model_world
    assert_eq!(subjects[idx].represents, Some("relation"));
}

#[test]
fn new_sets_knowledge_about_bp() {
    let (mut subjects, mut families) = setup_knowledge_module();
    families.push(family());

    let bp = make_test_bp("contains");
    let mut bp_registry = vec![bp];
    let mut bp_to_subject: Vec<Option<usize>> = vec![];

    let idx = new(0, &mut subjects, &families, &mut bp_registry, &mut bp_to_subject);

    assert_eq!(bp_registry[0].knowledge_about_bp, Some(idx));
}

#[test]
fn from_bp_returns_correct_subject_index() {
    let (mut subjects, mut families) = setup_knowledge_module();
    families.push(family());

    let bp = make_test_bp("contains");
    let mut bp_registry = vec![bp];
    let mut bp_to_subject: Vec<Option<usize>> = vec![];

    let idx = new(0, &mut subjects, &families, &mut bp_registry, &mut bp_to_subject);

    let result = from_bp(0, &bp_registry);
    assert_eq!(result, Some(idx));
}

#[test]
fn from_bp_returns_none_for_invalid_bp_index() {
    let bp_registry: Vec<BinaryPredicate> = vec![];
    let result = from_bp(0, &bp_registry);
    assert_eq!(result, None);
}

#[test]
fn from_bp_returns_none_for_bp_without_subject() {
    let bp = make_test_bp("contains");
    let bp_registry = vec![bp];
    let result = from_bp(0, &bp_registry);
    assert_eq!(result, None);
}

#[test]
fn to_bp_returns_correct_bp_index() {
    let (mut subjects, mut families) = setup_knowledge_module();
    families.push(family());

    let bp = make_test_bp("contains");
    let mut bp_registry = vec![bp];
    let mut bp_to_subject: Vec<Option<usize>> = vec![];

    let idx = new(0, &mut subjects, &families, &mut bp_registry, &mut bp_to_subject);

    let result = to_bp(idx, &bp_to_subject);
    assert_eq!(result, Some(0));
}

#[test]
fn to_bp_returns_none_for_invalid_subject_index() {
    let bp_to_subject: Vec<Option<usize>> = vec![];
    let result = to_bp(0, &bp_to_subject);
    assert_eq!(result, None);
}

#[test]
fn to_bp_returns_none_for_subject_without_bp() {
    let bp_to_subject: Vec<Option<usize>> = vec![None];
    let result = to_bp(0, &bp_to_subject);
    assert_eq!(result, None);
}

#[test]
fn from_bp_to_bp_round_trip() {
    let (mut subjects, mut families) = setup_knowledge_module();
    families.push(family());

    let bp = make_test_bp("contains");
    let mut bp_registry = vec![bp];
    let mut bp_to_subject: Vec<Option<usize>> = vec![];

    let idx = new(0, &mut subjects, &families, &mut bp_registry, &mut bp_to_subject);

    // from_bp: BP index -> subject index
    let subject_idx = from_bp(0, &bp_registry).unwrap();
    assert_eq!(subject_idx, idx);

    // to_bp: subject index -> BP index
    let bp_idx = to_bp(subject_idx, &bp_to_subject).unwrap();
    assert_eq!(bp_idx, 0);
}

#[test]
fn multiple_relation_subjects_can_be_created() {
    let (mut subjects, mut families) = setup_knowledge_module();
    families.push(family());

    let bp1 = make_test_bp("contains");
    let bp2 = make_test_bp("supports");
    let bp3 = make_test_bp("wears");
    let mut bp_registry = vec![bp1, bp2, bp3];
    let mut bp_to_subject: Vec<Option<usize>> = vec![];

    let idx1 = new(0, &mut subjects, &families, &mut bp_registry, &mut bp_to_subject);
    let idx2 = new(1, &mut subjects, &families, &mut bp_registry, &mut bp_to_subject);
    let idx3 = new(2, &mut subjects, &families, &mut bp_registry, &mut bp_to_subject);

    assert_eq!(idx1, 3); // After 3 fundamental subjects
    assert_eq!(idx2, 4);
    assert_eq!(idx3, 5);

    // Verify round-trip for all three
    assert_eq!(from_bp(0, &bp_registry), Some(3));
    assert_eq!(from_bp(1, &bp_registry), Some(4));
    assert_eq!(from_bp(2, &bp_registry), Some(5));

    assert_eq!(to_bp(3, &bp_to_subject), Some(0));
    assert_eq!(to_bp(4, &bp_to_subject), Some(1));
    assert_eq!(to_bp(5, &bp_to_subject), Some(2));
}

#[test]
fn relation_subject_uses_relations_family_methods() {
    let (mut subjects, mut families) = setup_knowledge_module();
    families.push(family());

    let bp = make_test_bp("contains");
    let mut bp_registry = vec![bp];
    let mut bp_to_subject: Vec<Option<usize>> = vec![];

    let idx = new(0, &mut subjects, &families, &mut bp_registry, &mut bp_to_subject);

    // Test family method dispatch
    let subject = &subjects[idx];
    let name = subject.get_name_text(&families);
    assert_eq!(name, None); // nameless

    let certainty = subject.get_default_certainty(&families);
    assert_eq!(certainty, 3); // CERTAIN_CE
}

#[test]
fn certainty_function_returns_certain() {
    let subject = InferenceSubject::new(0, None, None, Some("test"));
    assert_eq!(certainty(&subject), 3);
}

#[test]
fn get_name_function_returns_none() {
    let subject = InferenceSubject::new(0, None, None, Some("test"));
    assert_eq!(get_name(&subject), None);
}

#[test]
fn check_model_function_is_noop() {
    let subject = InferenceSubject::new(0, None, None, Some("test"));
    // Should not panic
    check_model(&subject);
}

#[test]
fn complete_model_function_is_noop() {
    let subject = InferenceSubject::new(0, None, None, Some("test"));
    // Should not panic
    complete_model(&subject);
}
