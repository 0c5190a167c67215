//! Instances: named values of kinds ("the red door", "blue").
use vstd::prelude::*;
use crate::text::str_eq;
use crate::search::{first_where, first_from};
use crate::kinds::{Kind, KindConstructor, ConstructorGroup, constructor_named};
use crate::knowledge::inference_subjects::{InferenceSubject, InferenceSubjectFamily};
use crate::knowledge::instance_subjects::{InstanceSubjects, INSTANCES_FAMILY_NAME, instance_named};
use crate::knowledge::kind_subjects::{family_named, to_kind};

verus! {

/// An instance.
#[derive(Clone, Copy, Debug)]
pub struct Instance {
    /// The name of the instance.
    pub name: &'static str,
    /// The adjective the instance gives, if any.
    pub as_adjective: Option<usize>,
    /// The inference subject of the instance.
    pub as_subject: Option<usize>,
    /// The position of the instance among the values of its kind.
    pub enumeration_index: i32,
    /// Whether the instance's name coincides with a kind's.
    pub kind_coincident: bool,
}

/// Creation and lookup of instances.
pub struct Instances;

/// The kind an instance has: worked out from the subject its subject lies within.
pub open spec fn instance_kind(inst_idx: usize, instances: Seq<Instance>, subjects: Seq<InferenceSubject>, constructors: Seq<KindConstructor>) -> Option<int> {
    if inst_idx < instances.len() {
        match instances[inst_idx as int].as_subject {
            Some(s) => if s < subjects.len() {
                match subjects[s as int].broader_than {
                    Some(b) => if b < subjects.len() {
                        match subjects[b as int].represents {
                            Some(n) => first_where(constructors, constructor_named(n@)),
                            None => None,
                        }
                    } else {
                        None
                    },
                    None => None,
                }
            } else {
                None
            },
            None => None,
        }
    } else {
        None
    }
}

impl Instances {
    /// Add an instance named `name` of the kind whose constructor is at
    /// `kind_idx`, with its subject, and return its index.
    pub fn new(
        name: &'static str,
        kind_idx: usize,
        enumeration_index: i32,
        instances: &mut Vec<Instance>,
        subjects: &mut Vec<InferenceSubject>,
        families: &[InferenceSubjectFamily],
        constructors: &[KindConstructor],
    ) -> (r: usize)
        requires
            first_where(families@, family_named(INSTANCES_FAMILY_NAME@)) is Some,
            kind_idx < constructors@.len(),
            constructors@[kind_idx as int].base_as_infs is Some,
        ensures
            r == old(instances)@.len(),
            final(instances)@ == old(instances)@.push(Instance {
                name,
                as_adjective: None,
                as_subject: Some(old(subjects)@.len() as usize),
                enumeration_index,
                kind_coincident: false,
            }),
            final(subjects)@.len() == old(subjects)@.len() + 1,
            final(subjects)@.take(old(subjects)@.len() as int) == old(subjects)@,
            ({
                let s = final(subjects)@[old(subjects)@.len() as int];
                &&& s.infs_family as int == first_where(families@, family_named(INSTANCES_FAMILY_NAME@)).unwrap()
                &&& s.broader_than == constructors@[kind_idx as int].base_as_infs
                &&& s.represents == Some(name)
                &&& s.log_name == Some(name)
                &&& s.alias_variable is None
                &&& s.inf_list@.len() == 0
                &&& s.imp_list@.len() == 0
                &&& s.permissions_list@.len() == 0
            }),
    {
        let inst_idx = instances.len();
        instances.push(Instance { name, as_adjective: None, as_subject: None, enumeration_index, kind_coincident: false });
        let subj_idx = InstanceSubjects::new(name, kind_idx, subjects, families, constructors);
        instances[inst_idx].as_subject = Some(subj_idx);
        inst_idx
    }

    /// The name of the instance at `inst_idx`, if it exists.
    pub fn get_name(inst_idx: usize, instances: &[Instance]) -> (r: Option<&'static str>)
        ensures
            r == if inst_idx < instances@.len() { Some(instances@[inst_idx as int].name) } else { None },
    {
        if inst_idx < instances.len() { Some(instances[inst_idx].name) } else { None }
    }

    /// The subject of the instance at `inst_idx`, if it exists and has one.
    pub fn as_subject(inst_idx: usize, instances: &[Instance]) -> (r: Option<usize>)
        ensures
            r == if inst_idx < instances@.len() { instances@[inst_idx as int].as_subject } else { None },
    {
        if inst_idx < instances.len() { instances[inst_idx].as_subject } else { None }
    }

    /// The adjective of the instance at `inst_idx`, if it exists and has one.
    pub fn as_adjective(inst_idx: usize, instances: &[Instance]) -> (r: Option<usize>)
        ensures
            r == if inst_idx < instances@.len() { instances@[inst_idx as int].as_adjective } else { None },
    {
        if inst_idx < instances.len() { instances[inst_idx].as_adjective } else { None }
    }

    /// The kind of the instance at `inst_idx`: the kind represented by the
    /// subject its subject lies within, looked up among the constructors.
    pub fn to_kind(
        inst_idx: usize,
        instances: &[Instance],
        subjects: &[InferenceSubject],
        constructors: &[KindConstructor],
    ) -> (r: Option<Kind>)
        ensures
            match instance_kind(inst_idx, instances@, subjects@, constructors@) {
                None => r is None,
                Some(i) => r matches Some(k) && {
                    &&& k.construct_id == i
                    &&& k.construct == KindConstructor::built_in_spec("value", ConstructorGroup::Protocol, 0)
                    &&& k.kind_variable_number == 0
                    &&& k.kc_args@.len() == 0
                },
            },
    {
        if inst_idx >= instances.len() {
            return None;
        }
        let subj_idx = match instances[inst_idx].as_subject {
            Some(s) => s,
            None => {
                return None;
            },
        };
        if subj_idx >= subjects.len() {
            return None;
        }
        let inherits_from = match subjects[subj_idx].narrowest_broader_subject() {
            Some(b) => b,
            None => {
                return None;
            },
        };
        if inherits_from >= subjects.len() {
            return None;
        }
        to_kind(&subjects[inherits_from], subjects, constructors)
    }

    /// The position of the instance at `inst_idx` among the values of its
    /// kind, if it exists.
    pub fn get_numerical_value(inst_idx: usize, instances: &[Instance]) -> (r: Option<i32>)
        ensures
            r == if inst_idx < instances@.len() { Some(instances@[inst_idx as int].enumeration_index) } else { None },
    {
        if inst_idx < instances.len() { Some(instances[inst_idx].enumeration_index) } else { None }
    }

    /// Mark the first instance named `kind_name` as coinciding with a kind;
    /// without one, nothing changes.
    pub fn make_kind_coincident(kind_name: &'static str, prn_idx: usize, instances: &mut Vec<Instance>)
        ensures
            final(instances)@ == match first_where(old(instances)@, instance_named(kind_name@)) {
                Some(i) => old(instances)@.update(i, Instance { kind_coincident: true, ..old(instances)@[i] }),
                None => old(instances)@,
            },
    {
        let n = instances.len();
        let mut i: usize = 0;
        while i < n
            invariant
                n == instances@.len(),
                *instances == *old(instances),
                0 <= i <= n,
                first_where(instances@, instance_named(kind_name@)) == first_from(instances@, instance_named(kind_name@), i as int),
            decreases n - i,
        {
            if str_eq(instances[i].name, kind_name) {
                instances[i].kind_coincident = true;
                return;
            }
            i += 1;
        }
    }
}

} // verus!
