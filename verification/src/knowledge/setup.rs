//! Setting up the knowledge module: the fundamental subjects.
use vstd::prelude::*;
use crate::knowledge::inference_subjects::{InferenceSubject, InferenceSubjectFamily, SubjectNameSource};

verus! {

/// The root of the inference subject hierarchy.
pub const MODEL_WORLD: usize = 0;

/// Global constants subject (a child of model_world).
pub const GLOBAL_CONSTANTS: usize = 1;

/// Global variables subject (a child of model_world).
pub const GLOBAL_VARIABLES: usize = 2;

/// Create the fundamental subjects and families.
///
/// Returns `(subjects, families)`: the model world (a root), then global
/// constants and global variables (both within the model world), all of the
/// fundamentals family, which is the only family.
pub fn setup_knowledge_module() -> (r: (Vec<InferenceSubject>, Vec<InferenceSubjectFamily>))
    ensures
        r.0@.len() == 3,
        r.1@.len() == 1,
        r.1@[0].name@ == "fundamentals"@,
        r.1@[0].methods.name_source == SubjectNameSource::Nameless,
        r.1@[0].methods.default_certainty == 3,
        r.0@[MODEL_WORLD as int].broader_than is None,
        r.0@[GLOBAL_CONSTANTS as int].broader_than == Some(MODEL_WORLD),
        r.0@[GLOBAL_VARIABLES as int].broader_than == Some(MODEL_WORLD),
        r.0@[MODEL_WORLD as int].log_name.unwrap()@ == "model world"@,
        r.0@[GLOBAL_CONSTANTS as int].log_name.unwrap()@ == "global constants"@,
        r.0@[GLOBAL_VARIABLES as int].log_name.unwrap()@ == "global variables"@,
        forall|i: int| 0 <= i < 3 ==> {
            &&& (#[trigger] r.0@[i]).infs_family == 0
            &&& r.0@[i].log_name is Some
            &&& r.0@[i].represents is None
            &&& r.0@[i].alias_variable is None
            &&& r.0@[i].inf_list@.len() == 0
            &&& r.0@[i].imp_list@.len() == 0
            &&& r.0@[i].permissions_list@.len() == 0
        },
{
    proof {
        reveal_strlit("model world");
        reveal_strlit("global constants");
        reveal_strlit("global variables");
    }
    let fundamentals = InferenceSubjectFamily::fundamentals();
    let mut families = Vec::new();
    families.push(fundamentals);

    let model_world = InferenceSubject::new_fundamental(None, "model world");
    let global_constants = InferenceSubject::new_fundamental(Some(MODEL_WORLD), "global constants");
    let global_variables = InferenceSubject::new_fundamental(Some(MODEL_WORLD), "global variables");

    let mut subjects = Vec::new();
    subjects.push(model_world);
    subjects.push(global_constants);
    subjects.push(global_variables);
    (subjects, families)
}

} // verus!
