//! Relation inferences: the `relation_inf` family, saying that a relation
//! holds between two subjects or two values.
use vstd::prelude::*;
use crate::text::opt_text;
use crate::search::{first_where, first_from};
use crate::knowledge::inference_subjects::{InferenceSubject, InferenceSubjectFamily};
use crate::knowledge::inferences::{
    Certainty, Inference, InferenceFamily, InferenceFamilyMethods, JoinResult, InferenceCompareMethod,
    InferenceLogMethod, join_result, joined_list, joined_registry,
};
use crate::knowledge::property_inferences::{find_inference_family, inference_family_named};

verus! {

/// Data stored in a relation inference: two terms, either as subject
/// indices or as values.
#[derive(Clone, Copy, Debug, PartialEq, Eq)]
pub struct RelationInferenceData {
    /// The two terms as subject indices (if subject-based).
    pub terms_as_subjects: [Option<usize>; 2],
    /// The two terms as values (if value-based).
    pub terms_as_values: [Option<&'static str>; 2],
}

/// The relation inference family.
pub struct RelationInferences;

/// The index of the `relation_inf` family in `families`.
pub open spec fn relation_family_index(families: Seq<InferenceFamily>) -> int {
    first_where(families, inference_family_named("relation_inf"@)).unwrap()
}

/// The `relation_inf` family is present.
pub open spec fn has_relation_family(families: Seq<InferenceFamily>) -> bool {
    first_where(families, inference_family_named("relation_inf"@)) is Some
}

/// The certain relation inference pointing at data record `data_idx`.
pub open spec fn relation_inference(families: Seq<InferenceFamily>, data_idx: usize) -> Inference {
    Inference {
        family: relation_family_index(families) as usize,
        data: None,
        data_index: Some(data_idx),
        certainty: Certainty::Certain,
        inferred_from: None,
        drawn_during_stage: 0,
        drawn_from_metadata: false,
    }
}

/// Subjects whose log name is `n`.
pub open spec fn subject_logged_as(n: Seq<char>) -> spec_fn(InferenceSubject) -> bool {
    |s: InferenceSubject| opt_text(s.log_name) == Some(n)
}

/// The index of the subject for a relation name: the first subject logged
/// under that name, or else the index a new subject gets.
pub open spec fn relation_subject_index(rel_name: &'static str, subjects: Seq<InferenceSubject>) -> int {
    match first_where(subjects, subject_logged_as(rel_name@)) {
        Some(i) => i,
        None => subjects.len() as int,
    }
}

/// The subject made for a relation name: a nameless fundamental subject
/// within the model world, logged under the name, with empty lists.
pub open spec fn is_new_relation_subject(s: InferenceSubject, rel_name: &'static str) -> bool {
    &&& s.broader_than == Some(0usize)
    &&& s.infs_family == 0
    &&& s.represents is None
    &&& s.inf_list@.len() == 0
    &&& s.imp_list@.len() == 0
    &&& s.permissions_list@.len() == 0
    &&& s.alias_variable is None
    &&& s.log_name == Some(rel_name)
}

impl RelationInferences {
    /// The `relation_inf` family: it logs the data index, compares
    /// inferences by data index and does not explain contradictions.
    pub fn start() -> (f: InferenceFamily)
        ensures
            f.name@ == "relation_inf"@,
            f.methods.log_details == InferenceLogMethod::RelationDataIndex,
            f.methods.compare == InferenceCompareMethod::ByDataIndex,
            !f.methods.explains_contradictions,
    {
        InferenceFamily {
            name: "relation_inf",
            methods: InferenceFamilyMethods {
                log_details: InferenceLogMethod::RelationDataIndex,
                compare: InferenceCompareMethod::ByDataIndex,
                explains_contradictions: false,
            },
        }
    }

    /// Create a new, certain, relation inference with the given terms, add
    /// it to the registry (not to any subject) and return its index.
    pub fn new(
        subj0: Option<usize>,
        subj1: Option<usize>,
        val0: Option<&'static str>,
        val1: Option<&'static str>,
        data_registry: &mut Vec<RelationInferenceData>,
        families: &[InferenceFamily],
        inferences: &mut Vec<Inference>,
    ) -> (r: usize)
        requires
            has_relation_family(families@),
        ensures
            r == old(inferences)@.len(),
            final(data_registry)@ == old(data_registry)@.push(RelationInferenceData {
                terms_as_subjects: [subj0, subj1], terms_as_values: [val0, val1],
            }),
            final(inferences)@ == old(inferences)@.push(relation_inference(families@, old(data_registry)@.len() as usize)),
    {
        let family_idx = match find_inference_family("relation_inf", families) {
            Some(i) => i,
            None => 0,
        };
        let data_idx = data_registry.len();
        data_registry.push(RelationInferenceData { terms_as_subjects: [subj0, subj1], terms_as_values: [val0, val1] });
        let idx = inferences.len();
        inferences.push(Inference {
            family: family_idx,
            data: None,
            data_index: Some(data_idx),
            certainty: Certainty::Certain,
            inferred_from: None,
            drawn_during_stage: 0,
            drawn_from_metadata: false,
        });
        idx
    }

    /// Create a relation inference between two subjects and join it to the
    /// subject of the relation (found by log name, or created within the
    /// model world).
    pub fn draw(
        rel_name: &'static str,
        subj0: Option<usize>,
        subj1: Option<usize>,
        data_registry: &mut Vec<RelationInferenceData>,
        families: &[InferenceFamily],
        inferences: &mut Vec<Inference>,
        subjects: &mut Vec<InferenceSubject>,
        subject_families: &[InferenceSubjectFamily],
    ) -> (r: JoinResult)
        requires
            has_relation_family(families@),
        ensures
            relation_drawn(*old(subjects), *final(subjects), *old(inferences), *final(inferences), *old(data_registry), *final(data_registry),
                families@, rel_name, RelationInferenceData { terms_as_subjects: [subj0, subj1], terms_as_values: [None, None] }, r),
    {
        Self::draw_data(rel_name, RelationInferenceData { terms_as_subjects: [subj0, subj1], terms_as_values: [None, None] },
            data_registry, families, inferences, subjects, subject_families)
    }

    /// Create a relation inference between two values and join it to the
    /// subject of the relation (found by log name, or created within the
    /// model world).
    pub fn draw_spec(
        rel_name: &'static str,
        val0: &'static str,
        val1: &'static str,
        data_registry: &mut Vec<RelationInferenceData>,
        families: &[InferenceFamily],
        inferences: &mut Vec<Inference>,
        subjects: &mut Vec<InferenceSubject>,
        subject_families: &[InferenceSubjectFamily],
    ) -> (r: JoinResult)
        requires
            has_relation_family(families@),
        ensures
            relation_drawn(*old(subjects), *final(subjects), *old(inferences), *final(inferences), *old(data_registry), *final(data_registry),
                families@, rel_name, RelationInferenceData { terms_as_subjects: [None, None], terms_as_values: [Some(val0), Some(val1)] }, r),
    {
        Self::draw_data(rel_name, RelationInferenceData { terms_as_subjects: [None, None], terms_as_values: [Some(val0), Some(val1)] },
            data_registry, families, inferences, subjects, subject_families)
    }

    /// Record `data`, make the relation inference for it and join it to the
    /// relation's subject.
    fn draw_data(
        rel_name: &'static str,
        data: RelationInferenceData,
        data_registry: &mut Vec<RelationInferenceData>,
        families: &[InferenceFamily],
        inferences: &mut Vec<Inference>,
        subjects: &mut Vec<InferenceSubject>,
        subject_families: &[InferenceSubjectFamily],
    ) -> (r: JoinResult)
        requires
            has_relation_family(families@),
        ensures
            relation_drawn(*old(subjects), *final(subjects), *old(inferences), *final(inferences), *old(data_registry), *final(data_registry),
                families@, rel_name, data, r),
    {
        let rel_subj_idx = find_or_create_relation_subject(rel_name, subjects, subject_families);
        let family_idx = match find_inference_family("relation_inf", families) {
            Some(i) => i,
            None => 0,
        };
        let data_idx = data_registry.len();
        data_registry.push(data);
        let inf = Inference {
            family: family_idx,
            data: None,
            data_index: Some(data_idx),
            certainty: Certainty::Certain,
            inferred_from: None,
            drawn_during_stage: 0,
            drawn_from_metadata: false,
        };
        let ghost mid = subjects@;
        let r = inf.join(&mut subjects[rel_subj_idx], families, inferences);
        proof {
            let k = rel_subj_idx as int;
            assert(inf == relation_inference(families@, old(data_registry)@.len() as usize));
            if k < old(subjects)@.len() {
                assert(mid[k] == old(subjects)@[k]);
            } else {
                assert(mid[k].inf_list@ == Seq::<usize>::empty());
            }
            assert forall|j: int| 0 <= j < old(subjects)@.len() && j != k implies subjects@[j] == old(subjects)@[j] by {
                if k >= old(subjects)@.len() {
                    assert(mid.take(k)[j] == mid[j]);
                }
                assert(mid[j] == old(subjects)@[j]);
            }
        }
        r
    }

    /// The subject terms of a relation inference, or `(None, None)` when its
    /// data record is missing.
    pub fn get_term_subjects(inf: &Inference, data_registry: &[RelationInferenceData]) -> (r: (Option<usize>, Option<usize>))
        ensures
            r == match inf.data_index {
                Some(i) => if i < data_registry@.len() {
                    (data_registry@[i as int].terms_as_subjects[0], data_registry@[i as int].terms_as_subjects[1])
                } else {
                    (None, None)
                },
                None => (None, None),
            },
    {
        match inf.data_index {
            Some(i) => if i < data_registry.len() {
                (data_registry[i].terms_as_subjects[0], data_registry[i].terms_as_subjects[1])
            } else {
                (None, None)
            },
            None => (None, None),
        }
    }

    /// The value terms of a relation inference, or `(None, None)` when its
    /// data record is missing.
    pub fn get_term_specs(inf: &Inference, data_registry: &[RelationInferenceData]) -> (r: (Option<&'static str>, Option<&'static str>))
        ensures
            r == match inf.data_index {
                Some(i) => if i < data_registry@.len() {
                    (data_registry@[i as int].terms_as_values[0], data_registry@[i as int].terms_as_values[1])
                } else {
                    (None, None)
                },
                None => (None, None),
            },
    {
        match inf.data_index {
            Some(i) => if i < data_registry.len() {
                (data_registry[i].terms_as_values[0], data_registry[i].terms_as_values[1])
            } else {
                (None, None)
            },
            None => (None, None),
        }
    }
}

/// What drawing a relation inference does: the relation's subject is found
/// or created, the data is recorded, and a certain relation inference for
/// it is joined to that subject.
pub open spec fn relation_drawn(
    subjects0: Vec<InferenceSubject>, subjects1: Vec<InferenceSubject>,
    infs0: Vec<Inference>, infs1: Vec<Inference>,
    data0: Vec<RelationInferenceData>, data1: Vec<RelationInferenceData>,
    families: Seq<InferenceFamily>, rel_name: &'static str, data: RelationInferenceData, r: JoinResult,
) -> bool {
    let k = relation_subject_index(rel_name, subjects0@);
    let found = k < subjects0@.len();
    let inf = relation_inference(families, data0@.len() as usize);
    let list0 = if found { subjects0@[k].inf_list@ } else { Seq::empty() };
    let s1 = subjects1@[k];
    &&& data1@ == data0@.push(data)
    &&& subjects1@.len() == if found { subjects0@.len() } else { subjects0@.len() + 1 }
    &&& r == join_result(inf, list0, infs0@, families)
    &&& infs1@ == joined_registry(inf, list0, infs0@, families)
    &&& s1.inf_list@ == joined_list(inf, list0, infs0@, families)
    &&& forall|j: int| 0 <= j < subjects0@.len() && j != k ==> subjects1@[j] == subjects0@[j]
    &&& if found {
        let s0 = subjects0@[k];
        &&& s1.broader_than == s0.broader_than
        &&& s1.infs_family == s0.infs_family
        &&& s1.represents == s0.represents
        &&& s1.imp_list@ == s0.imp_list@
        &&& s1.permissions_list@ == s0.permissions_list@
        &&& s1.alias_variable == s0.alias_variable
        &&& s1.log_name == s0.log_name
    } else {
        &&& s1.broader_than == Some(0usize)
        &&& s1.infs_family == 0
        &&& s1.represents is None
        &&& s1.imp_list@.len() == 0
        &&& s1.permissions_list@.len() == 0
        &&& s1.alias_variable is None
        &&& s1.log_name == Some(rel_name)
    }
}

/// Find the subject whose log name is the relation's name, or create one (a
/// fundamental subject within the model world) and return its index.
pub fn find_or_create_relation_subject(
    rel_name: &'static str,
    subjects: &mut Vec<InferenceSubject>,
    families: &[InferenceSubjectFamily],
) -> (r: usize)
    ensures
        r < final(subjects)@.len(),
        r as int == relation_subject_index(rel_name, old(subjects)@),
        r < old(subjects)@.len() ==> final(subjects)@ == old(subjects)@,
        r >= old(subjects)@.len() ==> {
            &&& final(subjects)@.len() == old(subjects)@.len() + 1
            &&& final(subjects)@.take(r as int) == old(subjects)@
            &&& is_new_relation_subject(final(subjects)@[r as int], rel_name)
        },
{
    let n = subjects.len();
    let mut i: usize = 0;
    while i < n
        invariant
            n == subjects@.len(),
            0 <= i <= n,
            first_where(subjects@, subject_logged_as(rel_name@)) == first_from(subjects@, subject_logged_as(rel_name@), i as int),
        decreases n - i,
    {
        if crate::text::opt_str_eq(subjects[i].log_name, Some(rel_name)) {
            return i;
        }
        i += 1;
    }
    let idx = subjects.len();
    subjects.push(InferenceSubject::new_fundamental(Some(0), rel_name));
    proof {
        assert(subjects@.take(idx as int) =~= old(subjects)@);
    }
    idx
}

} // verus!
