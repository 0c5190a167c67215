//! The knowledge module: the world model that stores and reconciles facts.
pub mod inference_subjects;
pub mod inferences;
pub mod property_permissions;
pub mod setup;
pub mod world;
pub mod kind_subjects;
pub mod property_inferences;
pub mod relation_inferences;
pub mod properties;
pub mod provision_relation;
pub mod relation_subjects;
pub mod value_properties;
pub mod same_property_relation;
pub mod setting_property_relation;
pub mod measurements;
pub mod adjectives;
pub mod either_or_property_adjectives;
pub mod instances;
pub mod instance_subjects;
pub mod instance_adjectives;
pub mod measurement_adjectives;
pub mod ordering_instances;
