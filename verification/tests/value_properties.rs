#![allow(unused_imports)]
#![allow(unused_variables)]
#![allow(unused_mut)]
#![allow(dead_code)]
use conform7_semantics::calculus::{
    BinaryPredicate, BinaryPredicateFamilies, BinaryPredicates, BpFamily, BpFamilyMethods, BpMethodOwner, BpTermDetails,
    BPTerms, ALWAYS_MATCH, DECLINE_TO_MATCH,
};
use conform7_semantics::kinds;
use conform7_semantics::kinds::{Kind, KindConstructor};
use conform7_semantics::knowledge::inference_subjects::{InferenceSubject, InferenceSubjectFamily};
use conform7_semantics::knowledge::inferences::{Certainty, Inference, InferenceFamily, JoinResult};
use conform7_semantics::knowledge::instances::{Instance, Instances};
use conform7_semantics::knowledge::kind_subjects;
use conform7_semantics::knowledge::properties::{
    EitherOrProperties, EitherOrPropertyData, Properties, Property, ValuePropertyData,
};
use conform7_semantics::knowledge::property_inferences::{PropertyInferenceData, PropertyInferences, ValueKind};
use conform7_semantics::knowledge::provision_relation::{ProvisionRelation, PROVISION_FAMILY, R_PROVISION};
use conform7_semantics::knowledge::relation_inferences::{RelationInferenceData, RelationInferences};
use conform7_semantics::knowledge::relation_subjects;
use conform7_semantics::knowledge::same_property_relation::{SameAsRelations, SAME_PROPERTY_FAMILY};
use conform7_semantics::knowledge::setting_property_relation::{
    PropertySettingBpData, SettingPropertyRelations, PROPERTY_SETTING_FAMILY,
};
use conform7_semantics::knowledge::setup::{setup_knowledge_module, GLOBAL_CONSTANTS, GLOBAL_VARIABLES, MODEL_WORLD};
use conform7_semantics::knowledge::value_properties::ValueProperties;
use conform7_semantics::knowledge::world::{
    World, WORLD_STAGE_I, WORLD_STAGE_II, WORLD_STAGE_III, WORLD_STAGE_IV, WORLD_STAGE_V,
};

// -----------------------------------------------------------------------
// ValueProperties::new_value_data
// -----------------------------------------------------------------------

#[test]
fn test_new_value_data_creates_data_with_no_kind() {
    let vd = ValueProperties::new_value_data();
    assert!(vd.property_value_kind.is_none());
    assert!(vd.setting_bp.is_none());
    assert!(!vd.name_coincides_with_kind);
    assert!(vd.as_condition_of_subject.is_none());
    assert!(vd.relation_whose_state_this_stores.is_none());
}

// -----------------------------------------------------------------------
// ValueProperties::kind
// -----------------------------------------------------------------------

#[test]
fn test_kind_returns_value_kind() {
    let mut registry = Vec::new();
    let idx = Properties::create("carrying capacity", false, &mut registry);
    ValueProperties::set_kind(idx, "number", &mut registry);
    assert_eq!(ValueProperties::kind(idx, &registry), Some("number"));
}

#[test]
fn test_kind_returns_none_when_not_set() {
    let mut registry = Vec::new();
    let idx = Properties::create("carrying capacity", false, &mut registry);
    assert_eq!(ValueProperties::kind(idx, &registry), None);
}

#[test]
fn test_kind_returns_none_for_either_or() {
    let mut registry = Vec::new();
    let idx = Properties::create("open", true, &mut registry);
    assert_eq!(ValueProperties::kind(idx, &registry), None);
}

// -----------------------------------------------------------------------
// ValueProperties::set_kind
// -----------------------------------------------------------------------

#[test]
fn test_set_kind_sets_value_kind() {
    let mut registry = Vec::new();
    let idx = Properties::create("carrying capacity", false, &mut registry);
    ValueProperties::set_kind(idx, "number", &mut registry);
    assert_eq!(
        ValueProperties::kind(idx, &registry),
        Some("number")
    );
}

#[test]
#[should_panic(expected = "non-value property")]
fn test_set_kind_panics_for_either_or() {
    let mut registry = Vec::new();
    let idx = Properties::create("open", true, &mut registry);
    ValueProperties::set_kind(idx, "number", &mut registry);
}

// -----------------------------------------------------------------------
// ValueProperties::make_coincide_with_kind
// -----------------------------------------------------------------------

#[test]
fn test_make_coincide_with_kind_sets_kind_and_marks_coincidence() {
    let mut registry = Vec::new();
    let mut instances = Vec::new();
    let idx = Properties::create("number", false, &mut registry);
    ValueProperties::make_coincide_with_kind(idx, "number", &mut registry, &mut instances);
    assert_eq!(
        ValueProperties::kind(idx, &registry),
        Some("number")
    );
    assert!(ValueProperties::coincides_with_kind(idx, &registry));
}

#[test]
#[should_panic(expected = "non-value property")]
fn test_make_coincide_with_kind_panics_for_either_or() {
    let mut registry = Vec::new();
    let mut instances = Vec::new();
    let idx = Properties::create("open", true, &mut registry);
    ValueProperties::make_coincide_with_kind(idx, "truth_state", &mut registry, &mut instances);
}

// -----------------------------------------------------------------------
// ValueProperties::coincides_with_kind
// -----------------------------------------------------------------------
#[test]
fn test_coincides_with_kind_returns_true_after_make_coincide() {
    let mut registry = Vec::new();
    let mut instances = Vec::new();
    let idx = Properties::create("number", false, &mut registry);
    ValueProperties::make_coincide_with_kind(idx, "number", &mut registry, &mut instances);
    assert!(ValueProperties::coincides_with_kind(idx, &registry));
}

#[test]
fn test_coincides_with_kind_returns_false_for_normal_property() {
    let mut registry = Vec::new();
    let idx = Properties::create("carrying capacity", false, &mut registry);
    assert!(!ValueProperties::coincides_with_kind(idx, &registry));
}

#[test]
#[should_panic(expected = "non-value property")]
fn test_coincides_with_kind_panics_for_either_or() {
    let mut registry = Vec::new();
    let idx = Properties::create("open", true, &mut registry);
    let _ = ValueProperties::coincides_with_kind(idx, &registry);
}

// -----------------------------------------------------------------------
// ValueProperties::make_setting_bp
// -----------------------------------------------------------------------

#[test]
fn test_make_setting_bp_creates_bp_and_stores_in_value_data() {
    // Need a setting property family for BP creation.
    let (families, mut bp_registry) = SettingPropertyRelations::start();
    let _families = families; // keep alive

    let mut properties = Vec::new();
    let idx = Properties::create("weight", false, &mut properties);

    ValueProperties::make_setting_bp(idx, "weight", &mut bp_registry, &mut properties);

    // The setting BP should be stored in the property's value data.
    let stored_bp = ValueProperties::get_setting_bp(idx, &properties);
    assert!(stored_bp.is_some());

    // The BP should be in the registry.
    let bp_idx = stored_bp.unwrap();
    assert!(bp_idx < bp_registry.len());
}

#[test]
fn test_make_setting_bp_creates_new_bp_for_different_properties() {
    let (families, mut bp_registry) = SettingPropertyRelations::start();
    let _families = families;

    let mut properties = Vec::new();
    let weight_idx = Properties::create("weight", false, &mut properties);
    let height_idx = Properties::create("height", false, &mut properties);

    ValueProperties::make_setting_bp(weight_idx, "weight", &mut bp_registry, &mut properties);
    ValueProperties::make_setting_bp(height_idx, "height", &mut bp_registry, &mut properties);

    // Each property should have its own setting BP.
    let weight_bp = ValueProperties::get_setting_bp(weight_idx, &properties);
    let height_bp = ValueProperties::get_setting_bp(height_idx, &properties);
    assert!(weight_bp.is_some());
    assert!(height_bp.is_some());
    // Different properties should have different BPs.
    assert_ne!(weight_bp, height_bp);
}
#[test]
#[should_panic(expected = "non-value property")]
fn test_make_setting_bp_panics_for_either_or() {
    let (families, mut bp_registry) = SettingPropertyRelations::start();
    let _families = families;

    let mut properties = Vec::new();
    let idx = Properties::create("open", true, &mut properties);

    ValueProperties::make_setting_bp(idx, "open", &mut bp_registry, &mut properties);
}

// -----------------------------------------------------------------------
// ValueProperties::get_setting_bp
// -----------------------------------------------------------------------

#[test]
fn test_get_setting_bp_returns_none_when_not_set() {
    let mut properties = Vec::new();
    let idx = Properties::create("weight", false, &mut properties);
    assert_eq!(ValueProperties::get_setting_bp(idx, &properties), None);
}

#[test]
#[should_panic(expected = "non-value property")]
fn test_get_setting_bp_panics_for_either_or() {
    let mut properties = Vec::new();
    let idx = Properties::create("open", true, &mut properties);
    let _ = ValueProperties::get_setting_bp(idx, &properties);
}

// -----------------------------------------------------------------------
// ValueProperties::set_stored_relation / get_stored_relation
// -----------------------------------------------------------------------

#[test]
fn test_set_and_get_stored_relation_round_trip() {
    let mut properties = Vec::new();
    let idx = Properties::create("weight", false, &mut properties);

    // Initially no stored relation.
    assert_eq!(ValueProperties::get_stored_relation(idx, &properties), None);

    // Set a stored relation.
    ValueProperties::set_stored_relation(idx, 42, &mut properties);
    assert_eq!(ValueProperties::get_stored_relation(idx, &properties), Some(42));

    // Overwrite with a different value.
    ValueProperties::set_stored_relation(idx, 99, &mut properties);
    assert_eq!(ValueProperties::get_stored_relation(idx, &properties), Some(99));
}

#[test]
#[should_panic(expected = "non-value property")]
fn test_set_stored_relation_panics_for_either_or() {
    let mut properties = Vec::new();
    let idx = Properties::create("open", true, &mut properties);
    ValueProperties::set_stored_relation(idx, 42, &mut properties);
}

#[test]
#[should_panic(expected = "non-value property")]
fn test_get_stored_relation_panics_for_either_or() {
    let mut properties = Vec::new();
    let idx = Properties::create("open", true, &mut properties);
    let _ = ValueProperties::get_stored_relation(idx, &properties);
}

// -----------------------------------------------------------------------
// ValueProperties::obtain
// -----------------------------------------------------------------------

#[test]
fn test_obtain_creates_new_valued_property() {
    let mut properties = Vec::new();
    let idx = ValueProperties::obtain("weight", &mut properties);
    assert_eq!(properties.len(), 1);
    assert_eq!(properties[idx].name, "weight");
    assert!(properties[idx].value_data.is_some());
    assert!(properties[idx].either_or_data.is_none());
}

#[test]
fn test_obtain_returns_existing_valued_property() {
    let mut properties = Vec::new();
    let idx1 = ValueProperties::obtain("weight", &mut properties);
    let idx2 = ValueProperties::obtain("weight", &mut properties);
    assert_eq!(idx1, idx2);
    assert_eq!(properties.len(), 1);
}

// -----------------------------------------------------------------------
// ValueProperties::obtain_within_kind
// -----------------------------------------------------------------------

#[test]
fn test_obtain_within_kind_creates_new_property_with_kind() {
    let mut properties = Vec::new();
    let idx = ValueProperties::obtain_within_kind("weight", "number", &mut properties);
    assert_eq!(properties[idx].name, "weight");
    assert_eq!(
        ValueProperties::kind(idx, &properties),
        Some("number")
    );
}

#[test]
fn test_obtain_within_kind_sets_kind_on_existing_property() {
    let mut properties = Vec::new();
    let idx = ValueProperties::obtain("weight", &mut properties);
    // Kind should be None initially.
    assert_eq!(ValueProperties::kind(idx, &properties), None);

    // Now obtain within kind — should set the kind.
    let idx2 = ValueProperties::obtain_within_kind("weight", "number", &mut properties);
    assert_eq!(idx, idx2);
    assert_eq!(
        ValueProperties::kind(idx, &properties),
        Some("number")
    );
}

#[test]
fn test_obtain_within_kind_does_not_overwrite_existing_kind() {
    let mut properties = Vec::new();
    let idx = ValueProperties::obtain_within_kind("weight", "number", &mut properties);
    assert_eq!(
        ValueProperties::kind(idx, &properties),
        Some("number")
    );

    // Try to obtain with a different kind — should not overwrite.
    let idx2 = ValueProperties::obtain_within_kind("weight", "text", &mut properties);
    assert_eq!(idx, idx2);
    // Kind should still be "number" (not overwritten).
    assert_eq!(
        ValueProperties::kind(idx, &properties),
        Some("number")
    );
}

// -----------------------------------------------------------------------
// ValueProperties::can_name_coincide_with_kind
// -----------------------------------------------------------------------

#[test]
fn test_can_name_coincide_with_kind_returns_true() {
    assert!(ValueProperties::can_name_coincide_with_kind("number"));
    assert!(ValueProperties::can_name_coincide_with_kind("text"));
    assert!(ValueProperties::can_name_coincide_with_kind(""));
}

// -----------------------------------------------------------------------
// ValueProperties::assert
// -----------------------------------------------------------------------

#[test]
fn test_assert_returns_false() {
    assert!(!ValueProperties::assert_that(0, 0, "test", 1));
}
