//! Relation subjects: every binary predicate can have an inference subject,
//! so that inferences can be drawn about relations.
use vstd::prelude::*;
use crate::calculus::BinaryPredicate;
use crate::knowledge::inference_subjects::{
    InferenceSubject, InferenceSubjectFamily, InferenceSubjectFamilyMethods, SubjectNameSource,
};

verus! {

/// Index of the relations family in the subject family registry (it
/// follows the fundamentals family).
pub const RELATIONS_FAMILY: usize = 1;

/// The relations family: relation subjects are nameless and certain (3).
pub fn family() -> (f: InferenceSubjectFamily)
    ensures
        f.name@ == "relations"@,
        f.methods.name_source == SubjectNameSource::Nameless,
        f.methods.default_certainty == 3,
{
    InferenceSubjectFamily {
        name: "relations",
        methods: InferenceSubjectFamilyMethods { name_source: SubjectNameSource::Nameless, default_certainty: 3 },
    }
}

/// The inference subject of the binary predicate at `bp_idx`, if any.
pub fn from_bp(bp_idx: usize, bp_registry: &[BinaryPredicate]) -> (r: Option<usize>)
    ensures
        r == if bp_idx < bp_registry@.len() { bp_registry@[bp_idx as int].knowledge_about_bp } else { None },
{
    if bp_idx < bp_registry.len() {
        bp_registry[bp_idx].knowledge_about_bp
    } else {
        None
    }
}

/// Create an inference subject for the binary predicate at `bp_idx`: a
/// subject of the relations family within the model world, representing
/// "relation". The predicate (when it exists) records the new subject, and
/// `bp_to_subject` (grown with `None` as needed) maps the subject back to
/// the predicate. Returns the subject's index.
pub fn new(
    bp_idx: usize,
    subjects: &mut Vec<InferenceSubject>,
    families: &[InferenceSubjectFamily],
    bp_registry: &mut Vec<BinaryPredicate>,
    bp_to_subject: &mut Vec<Option<usize>>,
) -> (r: usize)
    ensures
        r == old(subjects)@.len(),
        final(subjects)@.len() == old(subjects)@.len() + 1,
        final(subjects)@.take(r as int) == old(subjects)@,
        final(subjects)@[r as int].broader_than == Some(0usize),
        final(subjects)@[r as int].infs_family == RELATIONS_FAMILY,
        final(subjects)@[r as int].represents matches Some(t) && t@ == "relation"@,
        final(subjects)@[r as int].log_name is None,
        final(subjects)@[r as int].alias_variable is None,
        final(subjects)@[r as int].inf_list@.len() == 0,
        final(subjects)@[r as int].imp_list@.len() == 0,
        final(subjects)@[r as int].permissions_list@.len() == 0,
        final(bp_registry)@ == if bp_idx < old(bp_registry)@.len() {
            old(bp_registry)@.update(bp_idx as int, BinaryPredicate { knowledge_about_bp: Some(r), ..old(bp_registry)@[bp_idx as int] })
        } else {
            old(bp_registry)@
        },
        final(bp_to_subject)@.len() == if r < old(bp_to_subject)@.len() { old(bp_to_subject)@.len() as int } else { r + 1 },
        final(bp_to_subject)@[r as int] == Some(bp_idx),
        forall|j: int| 0 <= j < final(bp_to_subject)@.len() && j != r ==>
            #[trigger] final(bp_to_subject)@[j] == if j < old(bp_to_subject)@.len() { old(bp_to_subject)@[j] } else { None },
{
    proof {
        reveal_strlit("relation");
    }
    let parent: usize = 0;
    let subject = InferenceSubject::new(RELATIONS_FAMILY, Some(parent), Some("relation"), None);
    let subject_idx = subjects.len();
    subjects.push(subject);
    let total = subjects.len();
    assert(total == subject_idx + 1);
    proof {
        assert(subjects@.take(subject_idx as int) =~= old(subjects)@);
    }
    if bp_idx < bp_registry.len() {
        bp_registry[bp_idx].knowledge_about_bp = Some(subject_idx);
    }
    let ghost t0 = bp_to_subject@;
    while bp_to_subject.len() <= subject_idx
        invariant
            subject_idx < usize::MAX,
            t0 == old(bp_to_subject)@,
            bp_to_subject@.len() <= (if subject_idx < t0.len() { t0.len() as int } else { subject_idx + 1 }),
            bp_to_subject@.len() >= t0.len(),
            forall|j: int| 0 <= j < bp_to_subject@.len() ==>
                #[trigger] bp_to_subject@[j] == if j < t0.len() { t0[j] } else { None },
        decreases subject_idx + 1 - bp_to_subject@.len(),
    {
        bp_to_subject.push(None);
    }
    bp_to_subject.set(subject_idx, Some(bp_idx));
    subject_idx
}

/// The binary predicate whose subject is at `infs_idx`, if recorded.
pub fn to_bp(infs_idx: usize, bp_to_subject: &[Option<usize>]) -> (r: Option<usize>)
    ensures
        r == if infs_idx < bp_to_subject@.len() { bp_to_subject@[infs_idx as int] } else { None },
{
    if infs_idx < bp_to_subject.len() {
        bp_to_subject[infs_idx]
    } else {
        None
    }
}

/// The default certainty of relation subjects: certain (3).
pub fn certainty(infs: &InferenceSubject) -> (r: i8)
    ensures
        r == 3,
{
    3
}

/// The name of a relation subject: relations are nameless.
pub fn get_name(infs: &InferenceSubject) -> (r: Option<&'static str>)
    ensures
        r is None,
{
    None
}

/// Check the model for violations of the relation's rules: no rule is
/// checked, and nothing changes.
pub fn check_model(infs: &InferenceSubject) {
}

/// Complete the model for a relation: nothing remains to be completed.
pub fn complete_model(infs: &InferenceSubject) {
}

} // verus!
