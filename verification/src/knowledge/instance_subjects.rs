//! Instance subjects: every instance gets an inference subject, lying
//! within the subject of its kind.
use vstd::prelude::*;
use crate::text::str_eq;
use crate::search::{first_where, first_from};
use crate::kinds::KindConstructor;
use crate::knowledge::inference_subjects::{
    InferenceSubject, InferenceSubjectFamily, InferenceSubjectFamilyMethods, SubjectNameSource,
};
use crate::knowledge::instances::Instance;
use crate::knowledge::kind_subjects::{find_family, family_named};

verus! {

/// The name of the instances family.
pub const INSTANCES_FAMILY_NAME: &'static str = "instances";

/// The subjects of instances.
pub struct InstanceSubjects;

/// Instances whose name is `n`.
pub open spec fn instance_named(n: Seq<char>) -> spec_fn(Instance) -> bool {
    |i: Instance| i.name@ == n
}

impl InstanceSubjects {
    /// The instances family: its subjects are named by what they represent,
    /// and are certain (3).
    pub fn family() -> (f: InferenceSubjectFamily)
        ensures
            f.name == INSTANCES_FAMILY_NAME,
            f.methods == (InferenceSubjectFamilyMethods { name_source: SubjectNameSource::Represents, default_certainty: 3 }),
    {
        InferenceSubjectFamily::new(
            INSTANCES_FAMILY_NAME,
            InferenceSubjectFamilyMethods { name_source: SubjectNameSource::Represents, default_certainty: 3 },
        )
    }

    /// Add the subject of an instance named `inst_name`, of the kind whose
    /// constructor is at `kind_idx`: it belongs to the instances family,
    /// lies within the kind's subject and represents the instance's name.
    pub fn new(
        inst_name: &'static str,
        kind_idx: usize,
        subjects: &mut Vec<InferenceSubject>,
        families: &[InferenceSubjectFamily],
        constructors: &[KindConstructor],
    ) -> (r: usize)
        requires
            first_where(families@, family_named(INSTANCES_FAMILY_NAME@)) is Some,
            kind_idx < constructors@.len(),
            constructors@[kind_idx as int].base_as_infs is Some,
        ensures
            r == old(subjects)@.len(),
            final(subjects)@.len() == old(subjects)@.len() + 1,
            final(subjects)@.take(r as int) == old(subjects)@,
            ({
                let s = final(subjects)@[r as int];
                &&& s.infs_family as int == first_where(families@, family_named(INSTANCES_FAMILY_NAME@)).unwrap()
                &&& s.broader_than == constructors@[kind_idx as int].base_as_infs
                &&& s.represents == Some(inst_name)
                &&& s.log_name == Some(inst_name)
                &&& s.alias_variable is None
                &&& s.inf_list@.len() == 0
                &&& s.imp_list@.len() == 0
                &&& s.permissions_list@.len() == 0
            }),
    {
        let family_idx = find_family(INSTANCES_FAMILY_NAME, families).unwrap();
        let kind_subj_idx = constructors[kind_idx].base_as_infs.unwrap();
        let subject = InferenceSubject::new(family_idx, Some(kind_subj_idx), Some(inst_name), Some(inst_name));
        let idx = subjects.len();
        subjects.push(subject);
        proof {
            assert(subjects@.take(idx as int) =~= old(subjects)@);
        }
        idx
    }

    /// The instance a subject stands for: the first instance named by what
    /// the subject at `subj_idx` represents.
    pub fn to_instance(subj_idx: usize, subjects: &[InferenceSubject], instances: &[Instance]) -> (r: Option<usize>)
        ensures
            r == if subj_idx < subjects@.len() {
                match subjects@[subj_idx as int].represents {
                    Some(n) => match first_where(instances@, instance_named(n@)) {
                        Some(i) => Some(i as usize),
                        None => None,
                    },
                    None => None,
                }
            } else {
                None
            },
    {
        if subj_idx >= subjects.len() {
            return None;
        }
        let name = match subjects[subj_idx].represents {
            Some(n) => n,
            None => {
                return None;
            },
        };
        let n = instances.len();
        let mut i: usize = 0;
        while i < n
            invariant
                n == instances@.len(),
                0 <= i <= n,
                subj_idx < subjects@.len(),
                subjects@[subj_idx as int].represents == Some(name),
                first_where(instances@, instance_named(name@)) == first_from(instances@, instance_named(name@), i as int),
            decreases n - i,
        {
            if str_eq(instances[i].name, name) {
                proof {
                    crate::search::lemma_first_where(instances@, instance_named(name@));
                }
                return Some(i);
            }
            i += 1;
        }
        None
    }

    /// The certainty of an instance subject: certain (3).
    pub fn certainty() -> (r: i8)
        ensures
            r == 3,
    {
        3
    }

    /// The name of an instance subject: what it represents.
    pub fn get_name(subj: &InferenceSubject) -> (r: Option<&'static str>)
        ensures
            r == subj.represents,
    {
        subj.represents
    }

    /// Tell the subject that an adjectival constant's domain was made:
    /// nothing is done with the notice.
    pub fn make_adj_const_domain(subj: &InferenceSubject, domain_infs: usize, to_what: usize) {
    }

    /// Tell the subject that a permission was granted: nothing is done with
    /// the notice.
    pub fn new_permission_granted(subj: &InferenceSubject, pp: usize) {
    }
}

} // verus!
