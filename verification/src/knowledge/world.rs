//! Model completion: the five world-building stages.
use vstd::prelude::*;
use crate::knowledge::inference_subjects::{InferenceSubject, InferenceSubjectFamily};

verus! {

/// World-building stage I: deduce object instance kinds.
pub const WORLD_STAGE_I: i32 = 0;
/// World-building stage II: complete the model.
pub const WORLD_STAGE_II: i32 = 1;
/// World-building stage III: plugin notification after completion.
pub const WORLD_STAGE_III: i32 = 2;
/// World-building stage IV: check the model.
pub const WORLD_STAGE_IV: i32 = 3;
/// World-building stage V: augment model world with low-level properties.
pub const WORLD_STAGE_V: i32 = 4;

/// The world-building process: records which stage has been reached.
#[derive(Debug)]
pub struct World {
    /// The current world-building stage, or -1 if none has been entered.
    pub current_stage: i32,
}

#[allow(non_snake_case)]
impl World {
    /// A world whose building has not started.
    pub fn new() -> (w: World)
        ensures
            w.current_stage == -1,
    {
        World { current_stage: -1 }
    }

    /// The current world-building stage, or -1 if none has been entered.
    pub fn current_building_stage(&self) -> (r: i32)
        ensures
            r == self.current_stage,
    {
        self.current_stage
    }

    /// Stage I: deduce object instance kinds.
    pub fn deduce_object_instance_kinds(&mut self)
        ensures
            final(self).current_stage == WORLD_STAGE_I,
    {
        self.current_stage = WORLD_STAGE_I;
    }

    /// Stages II and III: complete the model for every subject (no family
    /// has work to do here), then notify; ends in stage III.
    pub fn stages_II_and_III(&mut self, subjects: &mut Vec<InferenceSubject>, families: &[InferenceSubjectFamily])
        ensures
            final(self).current_stage == WORLD_STAGE_III,
            final(subjects)@ == old(subjects)@,
    {
        self.current_stage = WORLD_STAGE_II;
        self.current_stage = WORLD_STAGE_III;
    }

    /// Stage IV: check the model for every subject (no family has checks
    /// to make here).
    pub fn stage_IV(&mut self, subjects: &mut Vec<InferenceSubject>, families: &[InferenceSubjectFamily])
        ensures
            final(self).current_stage == WORLD_STAGE_IV,
            final(subjects)@ == old(subjects)@,
    {
        self.current_stage = WORLD_STAGE_IV;
    }

    /// Stage V: augment the model world with low-level properties.
    pub fn stage_V(&mut self)
        ensures
            final(self).current_stage == WORLD_STAGE_V,
    {
        self.current_stage = WORLD_STAGE_V;
    }
}

} // verus!
