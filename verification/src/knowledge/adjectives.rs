//! Adjectives and their meanings: words applied to subjects ("empty",
//! "open"), each with meanings belonging to families, each meaning with a
//! domain it applies to.
use vstd::prelude::*;
use crate::text::str_eq;
use crate::search::{first_where, first_from, lemma_first_push};
use crate::knowledge::inference_subjects::InferenceSubject;
use crate::knowledge::inferences::{Inference, InferenceFamily};
use crate::knowledge::properties::Property;
use crate::knowledge::property_inferences::{PropertyInferenceData, has_property_family};
use crate::knowledge::measurements::MeasurementDefinition;
use crate::knowledge::either_or_property_adjectives::{EitherOrPropertyAdjectives, eo_asserted, meaning_property};
use crate::knowledge::instance_adjectives::{InstanceAdjectives, instance_asserted};
use crate::knowledge::measurement_adjectives::{MeasurementAdjectives, measurement_asserted, measurement_target};

verus! {

/// Task index: testing whether an adjective holds.
pub const TEST_ATOM_TASK: usize = 0;
/// Task index: making an adjective hold.
pub const NOW_ATOM_TRUE_TASK: usize = 1;
/// Task index: making an adjective not hold.
pub const NOW_ATOM_FALSE_TASK: usize = 2;

/// Task mode: no way to perform the task.
pub const NO_TASKMODE: i8 = 0;
/// Task mode: the task is performed directly.
pub const DIRECT_TASKMODE: i8 = 1;
/// Task mode: the task is performed via a support function.
pub const VIA_SUPPORT_FUNCTION_TASKMODE: i8 = 2;

/// An adjective.
#[derive(Clone, Debug)]
pub struct Adjective {
    /// The name of the adjective.
    pub name: &'static str,
    /// Indices of its meanings, in the order they were defined.
    pub meanings: Vec<usize>,
    /// Indices of its meanings, in order of precedence.
    pub sorted_meanings: Vec<usize>,
    /// Compilation data.
    pub compilation_data: Option<&'static str>,
}

/// The domain of an adjective meaning: what it can apply to.
#[derive(Clone, Copy, Debug, PartialEq, Eq)]
pub struct AdjectiveDomainData {
    /// Text the author gave for the domain.
    pub domain_text: Option<&'static str>,
    /// The inference subject of the domain.
    pub domain_infs: Option<usize>,
    /// The kind of values of the domain.
    pub domain_kind: Option<usize>,
    /// Whether the domain is being worked out (for circularity detection).
    pub currently_determining: bool,
}

/// One meaning an adjective can have.
#[derive(Clone, Copy, Debug)]
pub struct AdjectiveMeaning {
    /// The adjective this meaning belongs to.
    pub owning_adjective: Option<usize>,
    /// The domain of this meaning.
    pub domain: AdjectiveDomainData,
    /// The family this meaning belongs to.
    pub family: usize,
    /// Family-specific data (an index into a family-specific registry).
    pub family_specific_data: Option<usize>,
    /// The meaning this one negates, if any.
    pub negated_from: Option<usize>,
    /// Text to use in the index.
    pub indexing_text: Option<&'static str>,
    /// Whether schemas have been prepared.
    pub schemas_prepared: bool,
    /// The mode of each task (test, make true, make false, unused).
    pub task_modes: [i8; 4],
}

/// Which module implements a method of a family of adjective meanings.
#[derive(Clone, Copy, Debug, PartialEq, Eq, Structural)]
pub enum AdjectiveMethodOwner {
    /// Either-or properties used as adjectives.
    EitherOrProperty,
    /// Instances of enumerated kinds used as adjectives.
    Enumerative,
    /// Measurements of properties against thresholds.
    Measurement,
}

/// The methods a family of adjective meanings provides; each names the
/// module implementing it, or is `None` when the family lacks it.
#[derive(Clone, Copy, Debug, PartialEq, Eq, Structural)]
pub struct AdjectiveMeaningFamilyMethods {
    /// Asserting a meaning of the family about a subject.
    pub assert_that: Option<AdjectiveMethodOwner>,
    /// Claiming a definition.
    pub claim_definition: Option<AdjectiveMethodOwner>,
    /// Preparing schemas.
    pub prepare_schemas: Option<AdjectiveMethodOwner>,
    /// Producing index text.
    pub index: Option<AdjectiveMethodOwner>,
}

/// A family of adjective meanings.
#[derive(Clone, Copy, Debug)]
pub struct AdjectiveMeaningFamily {
    /// Name of the family.
    pub name: &'static str,
    /// Priority for claiming definitions (0 to 9: lower is better).
    pub definition_claim_priority: u8,
    /// The methods of this family.
    pub methods: AdjectiveMeaningFamilyMethods,
}

/// Creation and lookup of adjectives.
pub struct Adjectives;

/// Creation of adjective meanings and their families.
pub struct AdjectiveMeanings;

/// Adjectives with several meanings.
pub struct AdjectiveAmbiguity;

/// The domains of adjective meanings.
pub struct AdjectiveMeaningDomains;

/// Adjectives whose name is `n`.
pub open spec fn adjective_named(n: Seq<char>) -> spec_fn(Adjective) -> bool {
    |a: Adjective| a.name@ == n
}

/// A new adjective with the given name and no meanings.
pub open spec fn is_new_adjective(a: Adjective, name: &'static str) -> bool {
    &&& a.name == name
    &&& a.meanings@.len() == 0
    &&& a.sorted_meanings@.len() == 0
    &&& a.compilation_data is None
}

/// The domain of nothing in particular.
pub open spec fn empty_domain() -> AdjectiveDomainData {
    AdjectiveDomainData { domain_text: None, domain_infs: None, domain_kind: None, currently_determining: false }
}

/// The meaning `new` makes.
pub open spec fn new_meaning(family: usize, details: Option<usize>, name: Option<&'static str>) -> AdjectiveMeaning {
    AdjectiveMeaning {
        owning_adjective: None,
        domain: empty_domain(),
        family,
        family_specific_data: details,
        negated_from: None,
        indexing_text: name,
        schemas_prepared: false,
        task_modes: [0i8, 0i8, 0i8, 0i8],
    }
}

/// What `declare` does to the registry and returns.
pub open spec fn declared(reg0: Seq<Adjective>, reg1: Seq<Adjective>, name: &'static str, r: usize) -> bool {
    match first_where(reg0, adjective_named(name@)) {
        Some(i) => r == i && reg1 == reg0,
        None => {
            &&& r == reg0.len()
            &&& reg1.len() == reg0.len() + 1
            &&& reg1.take(r as int) == reg0
            &&& is_new_adjective(reg1[r as int], name)
        },
    }
}

impl Adjectives {
    /// Find the adjective with the given name, or create one without
    /// meanings; return its index.
    pub fn declare(name: &'static str, registry: &mut Vec<Adjective>) -> (r: usize)
        ensures
            declared(old(registry)@, final(registry)@, name, r),
            r < final(registry)@.len(),
            final(registry)@[r as int].name@ == name@,
    {
        let n = registry.len();
        let mut i: usize = 0;
        while i < n
            invariant
                n == registry@.len(),
                *registry == *old(registry),
                0 <= i <= n,
                first_where(registry@, adjective_named(name@)) == first_from(registry@, adjective_named(name@), i as int),
            decreases n - i,
        {
            if str_eq(registry[i].name, name) {
                proof {
                    crate::search::lemma_first_where(registry@, adjective_named(name@));
                }
                return i;
            }
            i += 1;
        }
        let adj = Adjective { name, meanings: Vec::new(), sorted_meanings: Vec::new(), compilation_data: None };
        registry.push(adj);
        proof {
            assert(registry@.take(n as int) =~= old(registry)@);
        }
        n
    }

    /// The index of the first adjective with the given name.
    pub fn find(name: &str, registry: &[Adjective]) -> (r: Option<usize>)
        ensures
            match r {
                Some(i) => first_where(registry@, adjective_named(name@)) == Some(i as int),
                None => first_where(registry@, adjective_named(name@)) is None,
            },
    {
        let n = registry.len();
        let mut i: usize = 0;
        while i < n
            invariant
                n == registry@.len(),
                0 <= i <= n,
                first_where(registry@, adjective_named(name@)) == first_from(registry@, adjective_named(name@), i as int),
            decreases n - i,
        {
            if str_eq(registry[i].name, name) {
                return Some(i);
            }
            i += 1;
        }
        None
    }

    /// The nominative singular of an adjective: its name.
    pub fn get_nominative_singular(adj: &Adjective) -> (r: &str)
        ensures
            r == adj.name,
    {
        adj.name
    }
}

/// Declaring is idempotent: declaring a name a second time returns the
/// index the first declaration returned and changes nothing.
pub proof fn law_declare_twice(reg0: Seq<Adjective>, reg1: Seq<Adjective>, reg2: Seq<Adjective>, name: &'static str, r1: usize, r2: usize)
    requires
        declared(reg0, reg1, name, r1),
        declared(reg1, reg2, name, r2),
    ensures
        r2 == r1,
        reg2 == reg1,
        reg1[r1 as int].name@ == name@,
{
    crate::search::lemma_first_where(reg0, adjective_named(name@));
    if first_where(reg0, adjective_named(name@)) is None {
        assert(reg1 =~= reg0.push(reg1[r1 as int]));
        lemma_first_push(reg0, adjective_named(name@), reg1[r1 as int]);
    }
    crate::search::lemma_first_where(reg1, adjective_named(name@));
}

impl AdjectiveMeanings {
    /// Add a family of adjective meanings and return its index.
    pub fn new_family(
        name: &'static str,
        priority: u8,
        methods: AdjectiveMeaningFamilyMethods,
        families: &mut Vec<AdjectiveMeaningFamily>,
    ) -> (r: usize)
        ensures
            r == old(families)@.len(),
            final(families)@ == old(families)@.push(AdjectiveMeaningFamily { name, definition_claim_priority: priority, methods }),
    {
        let idx = families.len();
        families.push(AdjectiveMeaningFamily { name, definition_claim_priority: priority, methods });
        idx
    }

    /// Add a meaning of the given family, with the given family-specific
    /// data and indexing text, no adjective, an empty domain and no way to
    /// perform any task; return its index.
    pub fn new(
        family_idx: usize,
        details: Option<usize>,
        name: Option<&'static str>,
        registry: &mut Vec<AdjectiveMeaning>,
    ) -> (r: usize)
        ensures
            r == old(registry)@.len(),
            final(registry)@ == old(registry)@.push(new_meaning(family_idx, details, name)),
    {
        let am = AdjectiveMeaning {
            owning_adjective: None,
            domain: AdjectiveDomainData { domain_text: None, domain_infs: None, domain_kind: None, currently_determining: false },
            family: family_idx,
            family_specific_data: details,
            negated_from: None,
            indexing_text: name,
            schemas_prepared: false,
            task_modes: [0, 0, 0, 0],
        };
        let idx = registry.len();
        registry.push(am);
        proof {
            assert(registry@ =~= old(registry)@.push(new_meaning(family_idx, details, name)));
        }
        idx
    }

    /// Add the negation of the meaning at `other_idx`: a copy of it, without
    /// an adjective and with schemas unprepared, marked as negating it;
    /// return its index.
    pub fn negate(other_idx: usize, registry: &mut Vec<AdjectiveMeaning>) -> (r: usize)
        requires
            other_idx < old(registry)@.len(),
        ensures
            r == old(registry)@.len(),
            final(registry)@ == old(registry)@.push(negation_of(old(registry)@, other_idx)),
    {
        let other = registry[other_idx];
        let am = AdjectiveMeaning {
            owning_adjective: None,
            domain: other.domain,
            family: other.family,
            family_specific_data: other.family_specific_data,
            negated_from: Some(other_idx),
            indexing_text: other.indexing_text,
            schemas_prepared: false,
            task_modes: other.task_modes,
        };
        let idx = registry.len();
        registry.push(am);
        idx
    }

    /// Mark a task of the meaning at `am_idx` as performed via a support
    /// function; an index outside the meanings, or a task outside the four,
    /// changes nothing.
    pub fn perform_task_via_function(am_idx: usize, task: usize, meanings: &mut Vec<AdjectiveMeaning>)
        ensures
            !(am_idx < old(meanings)@.len() && task < 4) ==> final(meanings)@ == old(meanings)@,
            am_idx < old(meanings)@.len() && task < 4 ==> {
                let m0 = old(meanings)@[am_idx as int];
                let m1 = final(meanings)@[am_idx as int];
                &&& final(meanings)@ == old(meanings)@.update(am_idx as int, m1)
                &&& m1 == AdjectiveMeaning { task_modes: m1.task_modes, ..m0 }
                &&& m1.task_modes@ == m0.task_modes@.update(task as int, VIA_SUPPORT_FUNCTION_TASKMODE)
            },
    {
        if am_idx < meanings.len() && task < 4 {
            let mut modes = meanings[am_idx].task_modes;
            modes[task] = VIA_SUPPORT_FUNCTION_TASKMODE;
            meanings[am_idx].task_modes = modes;
        }
    }
}

/// A meaning with this domain applies to values of the kind `kind` (or of
/// any kind, when `kind` is `None`): its domain kind is undetermined, or
/// the kinds agree.
pub open spec fn domain_admits(d: AdjectiveDomainData, kind: Option<usize>) -> bool {
    d.domain_kind is None || kind is None || d.domain_kind == kind
}

/// The meaning at position `i` of `list` exists and admits `kind`.
pub open spec fn meaning_admits(list: Seq<usize>, meanings: Seq<AdjectiveMeaning>, kind: Option<usize>, i: int) -> bool {
    list[i] < meanings.len() && domain_admits(meanings[list[i] as int].domain, kind)
}

impl AdjectiveAmbiguity {
    /// Give the adjective at `adj_idx` the meaning at `am_idx`: add it to
    /// the adjective's meanings and make the adjective its owner.
    pub fn add_meaning_to_adjective(
        am_idx: usize,
        adj_idx: usize,
        adjectives: &mut Vec<Adjective>,
        meanings: &mut Vec<AdjectiveMeaning>,
    )
        requires
            adj_idx < old(adjectives)@.len(),
            am_idx < old(meanings)@.len(),
        ensures
            final(adjectives)@.len() == old(adjectives)@.len(),
            forall|j: int| 0 <= j < old(adjectives)@.len() && j != adj_idx ==> #[trigger] final(adjectives)@[j] == old(adjectives)@[j],
            final(adjectives)@[adj_idx as int].name == old(adjectives)@[adj_idx as int].name,
            final(adjectives)@[adj_idx as int].meanings@ == old(adjectives)@[adj_idx as int].meanings@.push(am_idx),
            final(adjectives)@[adj_idx as int].sorted_meanings@ == old(adjectives)@[adj_idx as int].sorted_meanings@,
            final(adjectives)@[adj_idx as int].compilation_data == old(adjectives)@[adj_idx as int].compilation_data,
            final(meanings)@ == old(meanings)@.update(am_idx as int,
                AdjectiveMeaning { owning_adjective: Some(adj_idx), ..old(meanings)@[am_idx as int] }),
    {
        adjectives[adj_idx].meanings.push(am_idx);
        meanings[am_idx].owning_adjective = Some(adj_idx);
    }

    /// Whether the adjective at `adj_idx` can be applied to values of the
    /// kind `kind_idx`: whether one of its meanings has an undetermined
    /// domain kind or the same kind (any meaning will do for no kind).
    pub fn can_be_applied_to(
        adj_idx: usize,
        kind_idx: Option<usize>,
        adjectives: &[Adjective],
        meanings: &[AdjectiveMeaning],
    ) -> (r: bool)
        requires
            adj_idx < adjectives@.len(),
            forall|i: int| 0 <= i < adjectives@[adj_idx as int].meanings@.len() ==>
                (forall|j: int| 0 <= j < i ==> !meaning_admits(adjectives@[adj_idx as int].meanings@, meanings@, kind_idx, j))
                ==> #[trigger] adjectives@[adj_idx as int].meanings@[i] < meanings@.len(),
        ensures
            r == exists|i: int| 0 <= i < adjectives@[adj_idx as int].meanings@.len()
                && #[trigger] meaning_admits(adjectives@[adj_idx as int].meanings@, meanings@, kind_idx, i),
    {
        let list = &adjectives[adj_idx].meanings;
        let n = list.len();
        let mut i: usize = 0;
        while i < n
            invariant
                list@ == adjectives@[adj_idx as int].meanings@,
                n == list@.len(),
                0 <= i <= n,
                forall|j: int| 0 <= j < i ==> !meaning_admits(list@, meanings@, kind_idx, j),
                forall|k: int| 0 <= k < list@.len() ==>
                    (forall|j: int| 0 <= j < k ==> !meaning_admits(list@, meanings@, kind_idx, j))
                    ==> #[trigger] list@[k] < meanings@.len(),
            decreases n - i,
        {
            let am_idx = list[i];
            let am = &meanings[am_idx];
            match am.domain.domain_kind {
                Some(am_kind) => match kind_idx {
                    Some(target) => {
                        if am_kind == target {
                            proof {
                                assert(meaning_admits(list@, meanings@, kind_idx, i as int));
                            }
                            return true;
                        }
                    },
                    None => {
                        proof {
                            assert(meaning_admits(list@, meanings@, kind_idx, i as int));
                        }
                        return true;
                    },
                },
                None => {
                    proof {
                        assert(meaning_admits(list@, meanings@, kind_idx, i as int));
                    }
                    return true;
                },
            }
            i += 1;
        }
        false
    }

    /// The first meaning of the adjective at `adj_idx`, if it exists and has one.
    pub fn first_meaning(adj_idx: usize, adjectives: &[Adjective]) -> (r: Option<usize>)
        ensures
            r == if adj_idx < adjectives@.len() && adjectives@[adj_idx as int].meanings@.len() > 0 {
                Some(adjectives@[adj_idx as int].meanings@[0])
            } else {
                None
            },
    {
        if adj_idx < adjectives.len() && adjectives[adj_idx].meanings.len() > 0 {
            Some(adjectives[adj_idx].meanings[0])
        } else {
            None
        }
    }
}

impl AdjectiveMeaningDomains {
    /// The domain of the values of a kind.
    pub fn new_from_kind(kind_idx: usize) -> (d: AdjectiveDomainData)
        ensures
            d == (AdjectiveDomainData { domain_kind: Some(kind_idx), ..empty_domain() }),
    {
        AdjectiveDomainData { domain_text: None, domain_infs: None, domain_kind: Some(kind_idx), currently_determining: false }
    }

    /// A domain given only as text, not yet worked out.
    pub fn new_from_text(text: Option<&'static str>) -> (d: AdjectiveDomainData)
        ensures
            d == (AdjectiveDomainData { domain_text: text, ..empty_domain() }),
    {
        AdjectiveDomainData { domain_text: text, domain_infs: None, domain_kind: None, currently_determining: false }
    }

    /// The domain of a single instance, recorded by the instance's index in
    /// place of a kind.
    pub fn new_from_instance(instance_idx: usize) -> (d: AdjectiveDomainData)
        ensures
            d == (AdjectiveDomainData { domain_kind: Some(instance_idx), ..empty_domain() }),
    {
        AdjectiveDomainData { domain_text: None, domain_infs: None, domain_kind: Some(instance_idx), currently_determining: false }
    }

    /// Give the meaning at `am_idx` the domain of a kind.
    pub fn set_from_kind(am_idx: usize, kind_idx: usize, meanings: &mut Vec<AdjectiveMeaning>)
        requires
            am_idx < old(meanings)@.len(),
        ensures
            final(meanings)@ == old(meanings)@.update(am_idx as int, AdjectiveMeaning {
                domain: AdjectiveDomainData { domain_kind: Some(kind_idx), ..empty_domain() },
                ..old(meanings)@[am_idx as int]
            }),
    {
        meanings[am_idx].domain = AdjectiveMeaningDomains::new_from_kind(kind_idx);
    }

    /// Give the meaning at `am_idx` the domain of an instance.
    pub fn set_from_instance(am_idx: usize, instance_idx: usize, meanings: &mut Vec<AdjectiveMeaning>)
        requires
            am_idx < old(meanings)@.len(),
        ensures
            final(meanings)@ == old(meanings)@.update(am_idx as int, AdjectiveMeaning {
                domain: AdjectiveDomainData { domain_kind: Some(instance_idx), ..empty_domain() },
                ..old(meanings)@[am_idx as int]
            }),
    {
        meanings[am_idx].domain = AdjectiveMeaningDomains::new_from_instance(instance_idx);
    }

    /// Give the meaning at `am_idx` a domain given as text.
    pub fn set_from_text(am_idx: usize, text: Option<&'static str>, meanings: &mut Vec<AdjectiveMeaning>)
        requires
            am_idx < old(meanings)@.len(),
        ensures
            final(meanings)@ == old(meanings)@.update(am_idx as int, AdjectiveMeaning {
                domain: AdjectiveDomainData { domain_text: text, ..empty_domain() },
                ..old(meanings)@[am_idx as int]
            }),
    {
        meanings[am_idx].domain = AdjectiveMeaningDomains::new_from_text(text);
    }

    /// The domain kind of the meaning at `am_idx`, if it exists and has one.
    pub fn get_kind(am_idx: usize, meanings: &[AdjectiveMeaning]) -> (r: Option<usize>)
        ensures
            r == if am_idx < meanings@.len() { meanings@[am_idx as int].domain.domain_kind } else { None },
    {
        if am_idx < meanings.len() {
            meanings[am_idx].domain.domain_kind
        } else {
            None
        }
    }

    /// The domain subject of the meaning at `am_idx`, if it exists and has one.
    pub fn get_subject(am_idx: usize, meanings: &[AdjectiveMeaning]) -> (r: Option<usize>)
        ensures
            r == if am_idx < meanings@.len() { meanings@[am_idx as int].domain.domain_infs } else { None },
    {
        if am_idx < meanings.len() {
            meanings[am_idx].domain.domain_infs
        } else {
            None
        }
    }

    /// Whether the meaning at `am_idx` has the domain kind `kind_idx`; an
    /// undetermined domain never matches.
    pub fn weak_match(kind_idx: usize, am_idx: usize, meanings: &[AdjectiveMeaning]) -> (r: bool)
        ensures
            r == (am_idx < meanings@.len() && meanings@[am_idx as int].domain.domain_kind == Some(kind_idx)),
    {
        match AdjectiveMeaningDomains::get_kind(am_idx, meanings) {
            Some(k) => k == kind_idx,
            None => false,
        }
    }

    /// Work out the domain of the meaning at `am_idx`: domains are taken as
    /// given, so nothing changes.
    pub fn determine(am_idx: usize, meanings: &mut Vec<AdjectiveMeaning>)
        ensures
            final(meanings)@ == old(meanings)@,
    {
    }
}

/// The negation of the meaning at `orig`: a copy of it, without an
/// adjective and with schemas unprepared, marked as negating it.
pub open spec fn negation_of(meanings: Seq<AdjectiveMeaning>, orig: usize) -> AdjectiveMeaning {
    AdjectiveMeaning {
        owning_adjective: None,
        negated_from: Some(orig),
        schemas_prepared: false,
        ..meanings[orig as int]
    }
}

/// The meaning an assertion is really about, and its parity: a negated
/// meaning is asserted as the meaning it negates, with the parity flipped.
pub open spec fn actual_meaning(meanings: Seq<AdjectiveMeaning>, am_idx: usize, parity: bool) -> (usize, bool) {
    match meanings[am_idx as int].negated_from {
        Some(n) => (n, !parity),
        None => (am_idx, parity),
    }
}

/// The module implementing the assert method of the family of the meaning
/// at `a`.
pub open spec fn assert_owner_of(meanings: Seq<AdjectiveMeaning>, families: Seq<AdjectiveMeaningFamily>, a: usize) -> Option<AdjectiveMethodOwner> {
    families[meanings[a as int].family as int].methods.assert_that
}

impl AdjectiveMeanings {
    /// Assert the meaning at `am_idx` about the subject at `subj_idx`, with
    /// the given parity, by the assert method of its family (a negated
    /// meaning being asserted as the meaning it negates, with the parity
    /// flipped). A family without the method declines: nothing changes and
    /// the answer is false.
    pub fn assert_that(
        am_idx: usize,
        subj_idx: usize,
        parity: bool,
        meanings: &mut Vec<AdjectiveMeaning>,
        subjects: &mut Vec<InferenceSubject>,
        properties: &[Property],
        families: &[AdjectiveMeaningFamily],
        inference_families: &[InferenceFamily],
        inferences: &mut Vec<Inference>,
        data_registry: &mut Vec<PropertyInferenceData>,
        definitions: &mut Vec<MeasurementDefinition>,
    ) -> (r: bool)
        requires
            am_idx < old(meanings)@.len(),
            ({
                let (a, p) = actual_meaning(old(meanings)@, am_idx, parity);
                &&& a < old(meanings)@.len()
                &&& old(meanings)@[a as int].family < families@.len()
                &&& assert_owner_of(old(meanings)@, families@, a) == Some(AdjectiveMethodOwner::EitherOrProperty) ==>
                    (meaning_property(old(meanings)@[a as int], properties@) is Some ==>
                        has_property_family(inference_families@) && subj_idx < old(subjects)@.len())
                &&& assert_owner_of(old(meanings)@, families@, a) == Some(AdjectiveMethodOwner::Enumerative) ==>
                    (p && meaning_property(old(meanings)@[a as int], properties@) is Some ==>
                        has_property_family(inference_families@) && subj_idx < old(subjects)@.len())
                &&& assert_owner_of(old(meanings)@, families@, a) == Some(AdjectiveMethodOwner::Measurement) ==>
                    (measurement_target(old(meanings)@, old(definitions)@, properties@, a, p) is Some ==>
                        has_property_family(inference_families@) && subj_idx < old(subjects)@.len())
            }),
        ensures
            *final(meanings) == *old(meanings),
            ({
                let (a, p) = actual_meaning(old(meanings)@, am_idx, parity);
                match assert_owner_of(old(meanings)@, families@, a) {
                    Some(AdjectiveMethodOwner::EitherOrProperty) => {
                        &&& *final(definitions) == *old(definitions)
                        &&& eo_asserted(old(meanings)@, properties@, inference_families@, a, subj_idx, p,
                            *old(subjects), *final(subjects), *old(inferences), *final(inferences),
                            *old(data_registry), *final(data_registry), r)
                    },
                    Some(AdjectiveMethodOwner::Enumerative) => {
                        &&& *final(definitions) == *old(definitions)
                        &&& instance_asserted(old(meanings)@, properties@, inference_families@, a, subj_idx, p,
                            *old(subjects), *final(subjects), *old(inferences), *final(inferences),
                            *old(data_registry), *final(data_registry), r)
                    },
                    Some(AdjectiveMethodOwner::Measurement) => {
                        measurement_asserted(old(meanings)@, properties@, inference_families@, a, subj_idx, p,
                            old(definitions)@, final(definitions)@, *old(subjects), *final(subjects), *old(inferences),
                            *final(inferences), *old(data_registry), *final(data_registry), r)
                    },
                    None => {
                        &&& !r
                        &&& *final(subjects) == *old(subjects)
                        &&& *final(inferences) == *old(inferences)
                        &&& *final(data_registry) == *old(data_registry)
                        &&& *final(definitions) == *old(definitions)
                    },
                }
            }),
    {
        let (actual, actual_parity) = match meanings[am_idx].negated_from {
            Some(n) => (n, !parity),
            None => (am_idx, parity),
        };
        let family = meanings[actual].family;
        match families[family].methods.assert_that {
            Some(AdjectiveMethodOwner::EitherOrProperty) => EitherOrPropertyAdjectives::assert_that(
                actual, subj_idx, actual_parity, meanings, subjects, properties, inference_families, inferences,
                data_registry, definitions,
            ),
            Some(AdjectiveMethodOwner::Enumerative) => InstanceAdjectives::assert_that(
                actual, subj_idx, actual_parity, meanings, subjects, properties, inference_families, inferences,
                data_registry, definitions,
            ),
            Some(AdjectiveMethodOwner::Measurement) => MeasurementAdjectives::assert_that(
                actual, subj_idx, actual_parity, meanings, subjects, properties, inference_families, inferences,
                data_registry, definitions,
            ),
            None => false,
        }
    }
}

/// Asserting the negation that `negate` adds for a meaning, with some
/// parity, is asserting that meaning with the opposite parity, through the
/// assert method of the same family.
pub proof fn law_negation_flips_parity(
    meanings: Seq<AdjectiveMeaning>,
    families: Seq<AdjectiveMeaningFamily>,
    orig: usize,
    parity: bool,
)
    requires
        orig < meanings.len() <= usize::MAX,
    ensures
        ({
            let after = meanings.push(negation_of(meanings, orig));
            &&& actual_meaning(after, meanings.len() as usize, parity) == (orig, !parity)
            &&& assert_owner_of(after, families, orig) == assert_owner_of(meanings, families, orig)
            &&& after[orig as int] == meanings[orig as int]
        }),
{
}

} // verus!
