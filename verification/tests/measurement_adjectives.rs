#![allow(unused_imports)]
#![allow(unused_variables)]
#![allow(unused_mut)]
#![allow(dead_code)]
use conform7_semantics::kinds;
use conform7_semantics::kinds::{Kind, KindConstructor};
use conform7_semantics::knowledge::adjectives::{
    Adjective, AdjectiveAmbiguity, AdjectiveDomainData, AdjectiveMeaning, AdjectiveMeaningDomains,
    AdjectiveMeaningFamily, AdjectiveMeaningFamilyMethods, AdjectiveMeanings, AdjectiveMethodOwner, Adjectives,
};
use conform7_semantics::knowledge::either_or_property_adjectives::{EitherOrPropertyAdjectives, EITHER_OR_PROPERTY_FAMILY};
use conform7_semantics::knowledge::inference_subjects::{InferenceSubject, InferenceSubjectFamily};
use conform7_semantics::knowledge::inferences::{Certainty, Inference, InferenceFamily, JoinResult};
use conform7_semantics::knowledge::instance_adjectives::{InstanceAdjectives, ENUMERATIVE_FAMILY};
use conform7_semantics::knowledge::instance_subjects::{InstanceSubjects, INSTANCES_FAMILY_NAME};
use conform7_semantics::knowledge::instances::{Instance, Instances};
use conform7_semantics::knowledge::kind_subjects;
use conform7_semantics::knowledge::measurement_adjectives::{MeasurementAdjectives, MEASUREMENT_FAMILY};
use conform7_semantics::knowledge::measurements::{
    MeasurementDefinition, Measurements, MEASURE_T_EXACTLY, MEASURE_T_OR_LESS, MEASURE_T_OR_MORE,
};
use conform7_semantics::knowledge::properties::{
    EitherOrProperties, EitherOrPropertyData, Properties, Property, ValuePropertyData,
};
use conform7_semantics::knowledge::property_inferences::{PropertyInferenceData, PropertyInferences, ValueKind};
use conform7_semantics::knowledge::setup::setup_knowledge_module;


// -----------------------------------------------------------------------
// MeasurementAdjectives::start
// -----------------------------------------------------------------------

#[test]
fn test_start_creates_family() {
    let (families, meanings, adjectives, definitions) = MeasurementAdjectives::start();

    assert_eq!(families.len(), 3);
    assert_eq!(families[MEASUREMENT_FAMILY].name, "measurement");
    assert!(families[MEASUREMENT_FAMILY].methods.assert_that.is_some());
    assert!(families[MEASUREMENT_FAMILY].methods.prepare_schemas.is_some());
    assert!(meanings.is_empty());
    assert!(adjectives.is_empty());
    assert!(definitions.is_empty());
}

// -----------------------------------------------------------------------
// MeasurementAdjectives::is_measurement
// -----------------------------------------------------------------------

#[test]
fn test_is_measurement_returns_true_for_measurement_meaning() {
    let (_families, mut meanings, _, _) = MeasurementAdjectives::start();
    let am_idx = AdjectiveMeanings::new(MEASUREMENT_FAMILY, Some(0), Some("roomy"), &mut meanings);

    assert!(MeasurementAdjectives::is_measurement(am_idx, &meanings));
}

#[test]
fn test_is_measurement_returns_false_for_other_meaning() {
    let (_families, mut meanings, _, _) = MeasurementAdjectives::start();
    // Create a meaning with a different family (index 0 = either_or_property placeholder)
    let am_idx = AdjectiveMeanings::new(0, None, Some("open"), &mut meanings);

    assert!(!MeasurementAdjectives::is_measurement(am_idx, &meanings));
}

#[test]
fn test_is_measurement_returns_false_for_invalid_index() {
    let meanings = Vec::new();

    assert!(!MeasurementAdjectives::is_measurement(0, &meanings));
}

// -----------------------------------------------------------------------
// MeasurementAdjectives::claim_definition
// -----------------------------------------------------------------------

#[test]
fn test_claim_definition_creates_measurement_definition() {
    let (families, mut meanings, mut adjectives, mut definitions) = MeasurementAdjectives::start();
    let properties = Vec::new();

    let mdef_idx = MeasurementAdjectives::claim_definition(
        "roomy",
        Some(0),
        MEASURE_T_OR_MORE,
        Some("10"),
        Some("container"),
        &mut definitions,
        &mut adjectives,
        &mut meanings,
        &families,
        &properties,
    );

    assert!(mdef_idx.is_some());
    let mdef_idx = mdef_idx.unwrap();
    assert_eq!(definitions[mdef_idx].headword, "roomy");
    assert_eq!(definitions[mdef_idx].prop, Some(0));
    assert_eq!(definitions[mdef_idx].region_shape, MEASURE_T_OR_MORE);
    assert_eq!(definitions[mdef_idx].region_threshold_text, Some("10".to_string()));
    assert!(definitions[mdef_idx].headword_as_adjective.is_some());
}

#[test]
fn test_claim_definition_creates_adjective_meaning() {
    let (families, mut meanings, mut adjectives, mut definitions) = MeasurementAdjectives::start();
    let properties = Vec::new();

    let mdef_idx = MeasurementAdjectives::claim_definition(
        "roomy",
        Some(0),
        MEASURE_T_OR_MORE,
        Some("10"),
        Some("container"),
        &mut definitions,
        &mut adjectives,
        &mut meanings,
        &families,
        &properties,
    ).unwrap();

    let am_idx = definitions[mdef_idx].headword_as_adjective.unwrap();
    assert_eq!(meanings[am_idx].family, MEASUREMENT_FAMILY);
    assert_eq!(meanings[am_idx].family_specific_data, Some(mdef_idx));
}

#[test]
fn test_claim_definition_declares_adjective() {
    let (families, mut meanings, mut adjectives, mut definitions) = MeasurementAdjectives::start();
    let properties = Vec::new();

    let mdef_idx = MeasurementAdjectives::claim_definition(
        "roomy",
        Some(0),
        MEASURE_T_OR_MORE,
        Some("10"),
        Some("container"),
        &mut definitions,
        &mut adjectives,
        &mut meanings,
        &families,
        &properties,
    ).unwrap();

    // Check that an adjective was declared
    assert!(!adjectives.is_empty());
    let adj = &adjectives[0];
    assert_eq!(adj.name, "roomy");

    // Check that the meaning was added to the adjective
    let am_idx = definitions[mdef_idx].headword_as_adjective.unwrap();
    assert!(adj.meanings.contains(&am_idx));
}

#[test]
fn test_claim_definition_sets_domain() {
    let (families, mut meanings, mut adjectives, mut definitions) = MeasurementAdjectives::start();
    let properties = Vec::new();

    let mdef_idx = MeasurementAdjectives::claim_definition(
        "roomy",
        Some(0),
        MEASURE_T_OR_MORE,
        Some("10"),
        Some("container"),
        &mut definitions,
        &mut adjectives,
        &mut meanings,
        &families,
        &properties,
    ).unwrap();

    let am_idx = definitions[mdef_idx].headword_as_adjective.unwrap();
    // The domain should be set from text "container"
    assert_eq!(meanings[am_idx].domain.domain_text, Some("container"));
}

#[test]
fn test_claim_definition_without_domain() {
    let (families, mut meanings, mut adjectives, mut definitions) = MeasurementAdjectives::start();
    let properties = Vec::new();

    let mdef_idx = MeasurementAdjectives::claim_definition(
        "tall",
        Some(0),
        MEASURE_T_OR_MORE,
        Some("68"),
        None, // no domain text
        &mut definitions,
        &mut adjectives,
        &mut meanings,
        &families,
        &properties,
    );

    assert!(mdef_idx.is_some());
    let mdef_idx = mdef_idx.unwrap();
    assert_eq!(definitions[mdef_idx].headword, "tall");
    assert_eq!(definitions[mdef_idx].prop, Some(0));
    assert_eq!(definitions[mdef_idx].region_shape, MEASURE_T_OR_MORE);
    assert_eq!(definitions[mdef_idx].region_threshold_text, Some("68".to_string()));
}

#[test]
fn test_claim_definition_exact_measurement() {
    let (families, mut meanings, mut adjectives, mut definitions) = MeasurementAdjectives::start();
    let properties = Vec::new();

    let mdef_idx = MeasurementAdjectives::claim_definition(
        "handy",
        Some(0),
        MEASURE_T_EXACTLY,
        Some("7"),
        Some("person"),
        &mut definitions,
        &mut adjectives,
        &mut meanings,
        &families,
        &properties,
    );

    assert!(mdef_idx.is_some());
    let mdef_idx = mdef_idx.unwrap();
    assert_eq!(definitions[mdef_idx].region_shape, MEASURE_T_EXACTLY);
}

#[test]
fn test_claim_definition_or_less_measurement() {
    let (families, mut meanings, mut adjectives, mut definitions) = MeasurementAdjectives::start();
    let properties = Vec::new();

    let mdef_idx = MeasurementAdjectives::claim_definition(
        "compact",
        Some(0),
        MEASURE_T_OR_LESS,
        Some("5"),
        Some("container"),
        &mut definitions,
        &mut adjectives,
        &mut meanings,
        &families,
        &properties,
    );

    assert!(mdef_idx.is_some());
    let mdef_idx = mdef_idx.unwrap();
    assert_eq!(definitions[mdef_idx].region_shape, MEASURE_T_OR_LESS);
}

// -----------------------------------------------------------------------
// MeasurementAdjectives::assert
// -----------------------------------------------------------------------

#[test]
fn test_assert_positive_parity_returns_true() {
    let (_families, mut meanings, _adjectives, mut definitions) = MeasurementAdjectives::start();
    let properties = vec![Property {
        name: "carrying capacity",
        has_of_in_the_name: false,
        inter_level_only: false,
        permissions: Vec::new(),
        either_or_data: None,
        value_data: Some(ValuePropertyData {
            property_value_kind: Some("number"),
            setting_bp: None,
            name_coincides_with_kind: false,
            as_condition_of_subject: None,
            relation_whose_state_this_stores: None,
        }),
        compilation_data: None,
        possession_marker: false,
    }];

    // Create a measurement definition with a known property and threshold
    let mdef_idx = Measurements::new("roomy", Some(0), MEASURE_T_OR_MORE, Some("10"), &mut definitions);

    // Create an adjective meaning for it
    let am_idx = AdjectiveMeanings::new(MEASUREMENT_FAMILY, Some(mdef_idx), Some("roomy"), &mut meanings);

    // Set up inference infrastructure
    let inference_families = vec![conform7_semantics::knowledge::property_inferences::PropertyInferences::start()];
    let mut inferences = Vec::new();
    let mut data_registry = Vec::new();
    let mut subjects = vec![InferenceSubject {
        broader_than: None,
        infs_family: 0,
        represents: Some("test_subject"),
        inf_list: Vec::new(),
        imp_list: Vec::new(),
        permissions_list: Vec::new(),
        alias_variable: None,
        log_name: None,
    }];

    // Assert with positive parity
    let result = MeasurementAdjectives::assert_that(
        am_idx, 0, true,
        &mut meanings, &mut subjects,
        &properties, &inference_families,
        &mut inferences, &mut data_registry,
        &mut definitions,
    );

    assert!(result);
}

#[test]
fn test_assert_negative_parity_returns_false() {
    let (_families, mut meanings, _adjectives, mut definitions) = MeasurementAdjectives::start();
    let properties = vec![Property {
        name: "carrying capacity",
        has_of_in_the_name: false,
        inter_level_only: false,
        permissions: Vec::new(),
        either_or_data: None,
        value_data: Some(ValuePropertyData {
            property_value_kind: Some("number"),
            setting_bp: None,
            name_coincides_with_kind: false,
            as_condition_of_subject: None,
            relation_whose_state_this_stores: None,
        }),
        compilation_data: None,
        possession_marker: false,
    }];

    let mdef_idx = Measurements::new("roomy", Some(0), MEASURE_T_OR_MORE, Some("10"), &mut definitions);
    let am_idx = AdjectiveMeanings::new(MEASUREMENT_FAMILY, Some(mdef_idx), Some("roomy"), &mut meanings);

    let inference_families = vec![conform7_semantics::knowledge::property_inferences::PropertyInferences::start()];
    let mut inferences = Vec::new();
    let mut data_registry = Vec::new();
    let mut subjects = vec![InferenceSubject {
        broader_than: None,
        infs_family: 0,
        represents: Some("test_subject"),
        inf_list: Vec::new(),
        imp_list: Vec::new(),
        permissions_list: Vec::new(),
        alias_variable: None,
        log_name: None,
    }];

    // Assert with negative parity
    let result = MeasurementAdjectives::assert_that(
        am_idx, 0, false,
        &mut meanings, &mut subjects,
        &properties, &inference_families,
        &mut inferences, &mut data_registry,
        &mut definitions,
    );

    assert!(!result);
}

#[test]
fn test_assert_no_family_specific_data_returns_false() {
    let (_families, mut meanings, _, mut definitions) = MeasurementAdjectives::start();
    let properties = Vec::new();
    let inference_families = vec![conform7_semantics::knowledge::property_inferences::PropertyInferences::start()];
    let mut inferences = Vec::new();
    let mut data_registry = Vec::new();
    let mut subjects = vec![InferenceSubject {
        broader_than: None,
        infs_family: 0,
        represents: Some("test_subject"),
        inf_list: Vec::new(),
        imp_list: Vec::new(),
        permissions_list: Vec::new(),
        alias_variable: None,
        log_name: None,
    }];

    // Create a meaning without family-specific data
    let am_idx = AdjectiveMeanings::new(MEASUREMENT_FAMILY, None, Some("roomy"), &mut meanings);

    let result = MeasurementAdjectives::assert_that(
        am_idx, 0, true,
        &mut meanings, &mut subjects,
        &properties, &inference_families,
        &mut inferences, &mut data_registry,
        &mut definitions,
    );

    assert!(!result);
}

// -----------------------------------------------------------------------
// MeasurementAdjectives::prepare_schemas
// -----------------------------------------------------------------------

#[test]
fn measurement_adjectives_test_prepare_schemas_is_noop() {
    // Should not panic
    MeasurementAdjectives::prepare_schemas(0, 0);
}
