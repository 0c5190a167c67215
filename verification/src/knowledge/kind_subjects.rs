//! Kind subjects: every base kind gets an inference subject, so that
//! inferences can be drawn about kinds.
use vstd::prelude::*;
use crate::text::{str_eq, opt_text};
use crate::search::{first_where, first_from, lemma_first_where};
use crate::kinds::{
    Kind, KindConstructor, ConstructorGroup, find_constructor, constructor_named, con_value, super_constructor,
    lemma_familiar_names,
};
use crate::knowledge::inference_subjects::{
    InferenceSubject, InferenceSubjectFamily, InferenceSubjectFamilyMethods, SubjectNameSource, walk_to_ok, reaches,
};

verus! {

/// The name of the superkind of the constructor named `n`.
pub open spec fn superkind_name_of(n: Seq<char>) -> Option<Seq<char>> {
    if n == "value"@ { None }
    else if n == "stored value"@ { Some("value"@) }
    else if n == "sayable value"@ { Some("stored value"@) }
    else if n == "understandable value"@ { Some("sayable value"@) }
    else if n == "arithmetic value"@ { Some("understandable value"@) }
    else if n == "real arithmetic value"@ { Some("arithmetic value"@) }
    else if n == "enumerated value"@ { Some("understandable value"@) }
    else if n == "pointer value"@ { Some("sayable value"@) }
    else if n == "number"@ { Some("real number"@) }
    else if n == "real number"@ { Some("arithmetic value"@) }
    else if n == "text"@ { Some("sayable value"@) }
    else if n == "truth state"@ { Some("enumerated value"@) }
    else if n == "object"@ { Some("pointer value"@) }
    else if n == "table"@ { Some("stored value"@) }
    else if n == "unicode character"@ { Some("arithmetic value"@) }
    else if n == "verb"@ { Some("value"@) }
    else { Some("value"@) }
}

/// The name of the superkind of a constructor, looked up by its name alone
/// (see `law_superkind_names_agree`).
fn superkind_name(con_name: &str) -> (r: Option<&'static str>)
    ensures
        opt_text(r) == superkind_name_of(con_name@),
{
    if str_eq(con_name, "value") { None }
    else if str_eq(con_name, "stored value") { Some("value") }
    else if str_eq(con_name, "sayable value") { Some("stored value") }
    else if str_eq(con_name, "understandable value") { Some("sayable value") }
    else if str_eq(con_name, "arithmetic value") { Some("understandable value") }
    else if str_eq(con_name, "real arithmetic value") { Some("arithmetic value") }
    else if str_eq(con_name, "enumerated value") { Some("understandable value") }
    else if str_eq(con_name, "pointer value") { Some("sayable value") }
    else if str_eq(con_name, "number") { Some("real number") }
    else if str_eq(con_name, "real number") { Some("arithmetic value") }
    else if str_eq(con_name, "text") { Some("sayable value") }
    else if str_eq(con_name, "truth state") { Some("enumerated value") }
    else if str_eq(con_name, "object") { Some("pointer value") }
    else if str_eq(con_name, "table") { Some("stored value") }
    else if str_eq(con_name, "unicode character") { Some("arithmetic value") }
    else if str_eq(con_name, "verb") { Some("value") }
    else { Some("value") }
}

/// For the built-in constructors placed in the kind hierarchy, the table
/// of superkind names agrees with the hierarchy: it names the constructor
/// above, or none for "value".
pub proof fn law_superkind_names_agree(c: KindConstructor)
    requires
        c.familiar,
        super_constructor(c) is Some || c.name@ == "value"@,
    ensures
        superkind_name_of(c.name@) == match super_constructor(c) {
            Some(s) => Some(s.name@),
            None => None,
        },
{
    lemma_familiar_names();
}

/// Families whose name is `n`.
pub open spec fn family_named(n: Seq<char>) -> spec_fn(InferenceSubjectFamily) -> bool {
    |f: InferenceSubjectFamily| f.name@ == n
}

/// Subjects that represent `n`.
pub open spec fn subject_representing(n: Seq<char>) -> spec_fn(InferenceSubject) -> bool {
    |s: InferenceSubject| s.represents matches Some(r) && r@ == n
}

/// The first family with the given name.
pub fn find_family(name: &str, families: &[InferenceSubjectFamily]) -> (r: Option<usize>)
    ensures
        r matches Some(i) ==> i < families@.len(),
        r matches Some(i) ==> first_where(families@, family_named(name@)) == Some(i as int),
        r is None ==> first_where(families@, family_named(name@)) is None,
{
    let n = families.len();
    let mut i: usize = 0;
    while i < n
        invariant
            n == families@.len(),
            0 <= i <= n,
            first_where(families@, family_named(name@)) == first_from(families@, family_named(name@), i as int),
        decreases n - i,
    {
        if str_eq(families[i].name, name) {
            return Some(i);
        }
        i += 1;
    }
    None
}

/// The first subject representing the given text.
pub fn find_subject_representing(name: &str, subjects: &[InferenceSubject]) -> (r: Option<usize>)
    ensures
        r matches Some(i) ==> i < subjects@.len(),
        r matches Some(i) ==> first_where(subjects@, subject_representing(name@)) == Some(i as int),
        r is None ==> first_where(subjects@, subject_representing(name@)) is None,
{
    let n = subjects.len();
    let mut i: usize = 0;
    while i < n
        invariant
            n == subjects@.len(),
            0 <= i <= n,
            first_where(subjects@, subject_representing(name@)) == first_from(subjects@, subject_representing(name@), i as int),
        decreases n - i,
    {
        match subjects[i].represents {
            Some(r) => {
                if str_eq(r, name) {
                    return Some(i);
                }
            },
            None => {},
        }
        i += 1;
    }
    None
}

/// The kinds family: a kind subject's name text is its log name, and
/// inferences about kinds are likely (1), not certain.
pub fn family() -> (f: InferenceSubjectFamily)
    ensures
        f.name@ == "kinds"@,
        f.methods.name_source == SubjectNameSource::LogName,
        f.methods.default_certainty == 1,
{
    InferenceSubjectFamily {
        name: "kinds",
        methods: InferenceSubjectFamilyMethods { name_source: SubjectNameSource::LogName, default_certainty: 1 },
    }
}

/// The subject index a base constructor's subject gets broader than: the
/// first subject representing the superkind's name.
pub open spec fn kind_subject_parent(con_name: Seq<char>, subjects: Seq<InferenceSubject>) -> Option<usize> {
    match superkind_name_of(con_name) {
        None => None,
        Some(sn) => match first_where(subjects, subject_representing(sn)) {
            Some(i) => Some(i as usize),
            None => None,
        },
    }
}

/// Whether a constructor gets an inference subject: base constructors
/// (arity 0) other than kind variables and intermediate results.
pub open spec fn gets_kind_subject(con: KindConstructor) -> bool {
    con.arity == 0 && con.name@ != "kind variable"@ && con.name@ != "intermediate"@
}

/// Create an inference subject for a base kind constructor, within the
/// subject of its superkind (when there is one), in the kinds family; record
/// it on the constructor. Other constructors, or a missing kinds family, give `None`.
pub fn new(
    con: &mut KindConstructor,
    subjects: &mut Vec<InferenceSubject>,
    families: &[InferenceSubjectFamily],
) -> (r: Option<usize>)
    ensures
        (gets_kind_subject(*old(con)) && first_where(families@, family_named("kinds"@)) is Some) == (r is Some),
        r is None ==> *final(con) == *old(con) && final(subjects)@ == old(subjects)@,
        r matches Some(idx) ==> {
            &&& idx == old(subjects)@.len()
            &&& *final(con) == (KindConstructor { base_as_infs: Some(idx), ..*old(con) })
            &&& final(subjects)@.len() == old(subjects)@.len() + 1
            &&& final(subjects)@.take(idx as int) == old(subjects)@
            &&& final(subjects)@[idx as int].infs_family as int == first_where(families@, family_named("kinds"@)).unwrap()
            &&& final(subjects)@[idx as int].broader_than == kind_subject_parent(old(con).name@, old(subjects)@)
            &&& final(subjects)@[idx as int].represents == Some(old(con).name)
            &&& final(subjects)@[idx as int].log_name == Some(old(con).name)
            &&& final(subjects)@[idx as int].alias_variable is None
            &&& final(subjects)@[idx as int].inf_list@.len() == 0
            &&& final(subjects)@[idx as int].imp_list@.len() == 0
            &&& final(subjects)@[idx as int].permissions_list@.len() == 0
        },
{
    if con.arity != 0 || str_eq(con.name, "kind variable") || str_eq(con.name, "intermediate") {
        return None;
    }
    let family_idx = match find_family("kinds", families) {
        Some(i) => i,
        None => return None,
    };
    let broader_than = match superkind_name(con.name) {
        Some(super_name) => find_subject_representing(super_name, subjects),
        None => None,
    };
    let subject = InferenceSubject::new(family_idx, broader_than, Some(con.name), Some(con.name));
    let idx = subjects.len();
    subjects.push(subject);
    proof {
        assert(final(subjects)@.take(idx as int) =~= old(subjects)@);
    }
    con.set_base_as_infs(idx);
    Some(idx)
}

/// The subject recorded on the first constructor with the kind's constructor
/// name, if any.
pub open spec fn kind_subject_of(kind: Kind, constructors: Seq<KindConstructor>) -> Option<usize> {
    match first_where(constructors, constructor_named(kind.construct.name@)) {
        Some(i) => constructors[i].base_as_infs,
        None => None,
    }
}

/// The inference subject of a kind: the one recorded on the first
/// constructor in `constructors` with the kind's constructor name.
pub fn from_kind(kind: &Kind, constructors: &[KindConstructor]) -> (r: Option<usize>)
    ensures
        r == kind_subject_of(*kind, constructors@),
{
    match find_constructor(kind.construct.name, constructors) {
        Some(i) => constructors[i].base_as_infs,
        None => None,
    }
}

/// The kind an inference subject stands for: for a subject representing the
/// name of a constructor in `constructors`, a kind whose constructor id is
/// the first such constructor's index (its constructor is the "value"
/// placeholder); otherwise `None`.
pub fn to_kind(
    infs: &InferenceSubject,
    subjects: &[InferenceSubject],
    constructors: &[KindConstructor],
) -> (r: Option<Kind>)
    ensures
        match infs.represents {
            None => r is None,
            Some(n) => match first_where(constructors@, constructor_named(n@)) {
                None => r is None,
                Some(i) => r matches Some(k) && {
                    &&& k.construct_id == i
                    &&& k.construct == KindConstructor::built_in_spec("value", ConstructorGroup::Protocol, 0)
                    &&& k.kind_variable_number == 0
                    &&& k.kc_args@.len() == 0
                },
            },
        },
{
    let con_name = match infs.represents {
        Some(n) => n,
        None => return None,
    };
    let idx = match find_constructor(con_name, constructors) {
        Some(i) => i,
        None => return None,
    };
    Some(Kind { construct: con_value(), kind_variable_number: 0, kc_args: Vec::new(), construct_id: idx })
}

/// Whether a kind can have properties: whether it is an enumeration or a
/// kind of object, going by the first constructor with its name in
/// `constructors` when there is one, else by its own constructor.
pub fn has_properties(kind: &Kind, constructors: &[KindConstructor]) -> (r: bool)
    ensures
        r == match first_where(constructors@, constructor_named(kind.construct.name@)) {
            Some(i) => constructors@[i].enumeration || constructors@[i].object_kind,
            None => kind.construct.enumeration || kind.construct.object_kind,
        },
{
    match find_constructor(kind.construct.name, constructors) {
        Some(i) => constructors[i].enumeration || constructors[i].object_kind,
        None => kind.construct.enumeration || kind.construct.object_kind,
    }
}

/// Lattice callback: the subject broader than a kind's subject.
pub fn super_callback(
    kind: &Kind,
    subjects: &[InferenceSubject],
    constructors: &[KindConstructor],
) -> (r: Option<usize>)
    requires
        kind_subject_of(*kind, constructors@) matches Some(i) ==> i < subjects@.len(),
    ensures
        r == match kind_subject_of(*kind, constructors@) {
            Some(i) => subjects@[i as int].broader_than,
            None => None,
        },
{
    let infs_idx = match from_kind(kind, constructors) {
        Some(i) => i,
        None => return None,
    };
    subjects[infs_idx].narrowest_broader_subject()
}

/// Lattice callback: make a kind's subject fall within its new superkind's
/// subject. `None` (and no change) when either kind has no subject.
pub fn move_within_callback(
    sub: &Kind,
    super_kind: &Kind,
    subjects: &mut Vec<InferenceSubject>,
    constructors: &[KindConstructor],
) -> (r: Option<()>)
    requires
        kind_subject_of(*sub, constructors@) matches Some(i) ==> i < old(subjects)@.len(),
    ensures
        match (kind_subject_of(*sub, constructors@), kind_subject_of(*super_kind, constructors@)) {
            (Some(a), Some(b)) => r is Some && final(subjects)@ == old(subjects)@.update(a as int,
                InferenceSubject { broader_than: Some(b), ..old(subjects)@[a as int] }),
            _ => r is None && final(subjects)@ == old(subjects)@,
        },
{
    let sub_infs = match from_kind(sub, constructors) {
        Some(i) => i,
        None => return None,
    };
    let super_infs = match from_kind(super_kind, constructors) {
        Some(i) => i,
        None => return None,
    };
    subjects[sub_infs].falls_within(super_infs);
    Some(())
}

/// Lattice callback: whether a kind lies in the object hierarchy, that is,
/// its subject is the subject of the first constructor named "object" or
/// lies within it.
pub fn allow_sometimes_callback(
    from: &Kind,
    subjects: &[InferenceSubject],
    constructors: &[KindConstructor],
) -> (r: bool)
    requires
        kind_subject_of(*from, constructors@) matches Some(i) ==> {
            &&& i < subjects@.len()
            &&& match first_where(constructors@, constructor_named("object"@)) {
                Some(o) => constructors@[o].base_as_infs matches Some(oi) ==> (oi < subjects@.len() ==> walk_to_ok(subjects@, subjects@[i as int].broader_than, oi)),
                None => true,
            }
        },
    ensures
        r == match (kind_subject_of(*from, constructors@), first_where(constructors@, constructor_named("object"@))) {
            (Some(i), Some(o)) => match constructors@[o].base_as_infs {
                Some(oi) => i == oi || (oi < subjects@.len() && reaches(subjects@, subjects@[i as int].broader_than, oi)),
                None => false,
            },
            _ => false,
        },
{
    let from_infs = match from_kind(from, constructors) {
        Some(i) => i,
        None => return false,
    };
    let object_con = match find_constructor("object", constructors) {
        Some(i) => i,
        None => return false,
    };
    let object_infs = match constructors[object_con].base_as_infs {
        Some(i) => i,
        None => return false,
    };
    from_infs == object_infs || subjects[from_infs].is_within(object_infs, subjects)
}

} // verus!
