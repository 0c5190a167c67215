//! Inferences: single facts about the world model, each with a certainty.
use vstd::prelude::*;
use vstd::string::StringExecFns;
use crate::text::{opt_text, opt_str_eq, decimal, decimal_text};
use crate::knowledge::inference_subjects::InferenceSubject;

verus! {

/// Certainty levels for inferences, from impossible to certain.
#[derive(Clone, Copy, Debug, PartialEq, Eq, Structural, PartialOrd, Ord)]
pub enum Certainty {
    /// Known to be false.
    Impossible,
    /// Unlikely to be true.
    Unlikely,
    /// No information.
    Unknown,
    /// Likely to be true.
    Likely,
    /// Initially true (for start-of-play state).
    Initially,
    /// Certainly true.
    Certain,
}

/// The numerical level of a certainty: -2 (impossible) up to 3 (certain).
pub open spec fn certainty_level(c: Certainty) -> int {
    match c {
        Certainty::Impossible => -2,
        Certainty::Unlikely => -1,
        Certainty::Unknown => 0,
        Certainty::Likely => 1,
        Certainty::Initially => 2,
        Certainty::Certain => 3,
    }
}

impl Certainty {
    /// The numerical level of this certainty.
    pub fn value(&self) -> (r: i8)
        ensures
            r == certainty_level(*self),
    {
        match self {
            Certainty::Impossible => -2,
            Certainty::Unlikely => -1,
            Certainty::Unknown => 0,
            Certainty::Likely => 1,
            Certainty::Initially => 2,
            Certainty::Certain => 3,
        }
    }
}

/// Results of comparing two inferences.
#[derive(Clone, Copy, Debug, PartialEq, Eq, Structural)]
pub enum InferenceComparison {
    /// One exists, the other doesn't (1).
    DifferInExistence,
    /// Different families (2).
    DifferInFamily,
    /// Different topics (3).
    DifferInTopic,
    /// Different Boolean content (4).
    DifferInBooleanContent,
    /// Different content (5).
    DifferInContent,
    /// Different but duplicate inferences (6).
    DifferInCopyOnly,
    /// The same inference (0).
    Identical,
}

/// The code of a comparison result.
pub open spec fn comparison_code(c: InferenceComparison) -> int {
    match c {
        InferenceComparison::DifferInExistence => 1,
        InferenceComparison::DifferInFamily => 2,
        InferenceComparison::DifferInTopic => 3,
        InferenceComparison::DifferInBooleanContent => 4,
        InferenceComparison::DifferInContent => 5,
        InferenceComparison::DifferInCopyOnly => 6,
        InferenceComparison::Identical => 0,
    }
}

impl InferenceComparison {
    /// The code of this comparison result.
    pub fn value(&self) -> (r: i8)
        ensures
            r == comparison_code(*self),
    {
        match self {
            InferenceComparison::DifferInExistence => 1,
            InferenceComparison::DifferInFamily => 2,
            InferenceComparison::DifferInTopic => 3,
            InferenceComparison::DifferInBooleanContent => 4,
            InferenceComparison::DifferInContent => 5,
            InferenceComparison::DifferInCopyOnly => 6,
            InferenceComparison::Identical => 0,
        }
    }
}

/// A single fact about the world model.
#[derive(Clone, Copy, Debug)]
pub struct Inference {
    /// Index of the family this inference belongs to.
    pub family: usize,
    /// The topic of the inference (a property name, for instance).
    pub data: Option<&'static str>,
    /// Index into a family-specific data registry.
    pub data_index: Option<usize>,
    /// The certainty of this inference.
    pub certainty: Certainty,
    /// Where this inference was drawn from.
    pub inferred_from: Option<&'static str>,
    /// The building stage during which this was drawn.
    pub drawn_during_stage: i32,
    /// Whether this was drawn from the project's metadata file.
    pub drawn_from_metadata: bool,
}

/// How a family compares two inferences of its own.
#[derive(Clone, Copy, Debug, PartialEq, Eq, Structural)]
pub enum InferenceCompareMethod {
    /// 0 when the topics are the same text, else the given code.
    ByData(i32),
    /// By the data index (a missing index counts as the largest): 3 when the
    /// first is larger, -3 when it is smaller, 0 when they are equal.
    ByDataIndex,
}

/// How a family writes the details of an inference into a log.
#[derive(Clone, Copy, Debug, PartialEq, Eq, Structural)]
pub enum InferenceLogMethod {
    /// The topic in round brackets, or nothing without a topic.
    Topic,
    /// The data index, as `(relation_inference_data[i])`, or nothing without one.
    RelationDataIndex,
}

/// The methods of an inference family.
#[derive(Clone, Copy, Debug)]
pub struct InferenceFamilyMethods {
    /// How family details are logged.
    pub log_details: InferenceLogMethod,
    /// How two inferences of the family are compared.
    pub compare: InferenceCompareMethod,
    /// Whether the family explains (and so handles) contradictions.
    pub explains_contradictions: bool,
}

/// A family of related inferences.
#[derive(Clone, Copy, Debug)]
pub struct InferenceFamily {
    /// Name of this family.
    pub name: &'static str,
    /// The methods of this family.
    pub methods: InferenceFamilyMethods,
}

/// Result of joining an inference to a subject.
#[derive(Clone, Copy, Debug, PartialEq, Eq, Structural)]
pub enum JoinResult {
    /// Inference was added to the list.
    Joined,
    /// Inference raised the certainty of an existing one.
    Replaced,
    /// Inference was discarded as redundant.
    DiscardedRedundant,
    /// Inference was discarded as a harmless contradiction.
    DiscardedContradiction,
    /// Inference was discarded because we already know better.
    DiscardedWeaker,
}

/// The code a family's comparison gives to two inferences.
pub open spec fn family_compare(m: InferenceCompareMethod, a: Inference, b: Inference) -> int {
    match m {
        InferenceCompareMethod::ByData(d) => if opt_text(a.data) == opt_text(b.data) { 0 } else { d as int },
        InferenceCompareMethod::ByDataIndex => {
            let ai: usize = match a.data_index { Some(i) => i, None => usize::MAX };
            let bi: usize = match b.data_index { Some(i) => i, None => usize::MAX };
            if ai > bi { 3 } else if ai < bi { -3 } else { 0 }
        },
    }
}

/// The comparison result named by a code (unknown codes mean different content).
pub open spec fn comparison_of_code(c: int) -> InferenceComparison {
    if c == 1 { InferenceComparison::DifferInExistence }
    else if c == 2 { InferenceComparison::DifferInFamily }
    else if c == 3 { InferenceComparison::DifferInTopic }
    else if c == 4 { InferenceComparison::DifferInBooleanContent }
    else if c == 5 { InferenceComparison::DifferInContent }
    else if c == 6 { InferenceComparison::DifferInCopyOnly }
    else { InferenceComparison::DifferInContent }
}

/// How two inferences compare.
pub open spec fn comparison_of(a: Inference, b: Inference, families: Seq<InferenceFamily>) -> InferenceComparison {
    if a.family != b.family {
        InferenceComparison::DifferInFamily
    } else if opt_text(a.data) != opt_text(b.data) {
        InferenceComparison::DifferInTopic
    } else if a.family < families.len()
        && family_compare(families[a.family as int].methods.compare, a, b) != 0 {
        comparison_of_code(family_compare(families[a.family as int].methods.compare, a, b))
    } else {
        InferenceComparison::Identical
    }
}

/// The entry `idx` of a subject's list is an existing inference identical to `x`.
pub open spec fn same_as_entry(x: Inference, idx: usize, infs: Seq<Inference>, families: Seq<InferenceFamily>) -> bool {
    idx < infs.len() && comparison_of(x, infs[idx as int], families) == InferenceComparison::Identical
}

/// The first position, from `i` on, of a list entry identical to `x`.
pub open spec fn first_same(x: Inference, list: Seq<usize>, infs: Seq<Inference>, families: Seq<InferenceFamily>, i: int) -> Option<int>
    decreases list.len() - i,
{
    if i < 0 || i >= list.len() {
        None
    } else if same_as_entry(x, list[i], infs, families) {
        Some(i)
    } else {
        first_same(x, list, infs, families, i + 1)
    }
}

/// What joining `x` to a subject with inference list `list` does: whether it
/// is added, and otherwise the position of the identical entry it meets.
pub open spec fn join_result(x: Inference, list: Seq<usize>, infs: Seq<Inference>, families: Seq<InferenceFamily>) -> JoinResult {
    match first_same(x, list, infs, families, 0) {
        None => JoinResult::Joined,
        Some(p) => {
            let e = infs[list[p] as int];
            if certainty_level(x.certainty) > certainty_level(e.certainty) {
                JoinResult::Replaced
            } else if certainty_level(x.certainty) < certainty_level(e.certainty) {
                JoinResult::DiscardedWeaker
            } else {
                JoinResult::DiscardedRedundant
            }
        },
    }
}

/// The subject's inference list after joining `x`.
pub open spec fn joined_list(x: Inference, list: Seq<usize>, infs: Seq<Inference>, families: Seq<InferenceFamily>) -> Seq<usize> {
    match first_same(x, list, infs, families, 0) {
        None => list.push(infs.len() as usize),
        Some(p) => list,
    }
}

/// The inference registry after joining `x`.
pub open spec fn joined_registry(x: Inference, list: Seq<usize>, infs: Seq<Inference>, families: Seq<InferenceFamily>) -> Seq<Inference> {
    match first_same(x, list, infs, families, 0) {
        None => infs.push(x),
        Some(p) => if join_result(x, list, infs, families) == JoinResult::Replaced {
            infs.update(list[p] as int, Inference { certainty: x.certainty, ..infs[list[p] as int] })
        } else {
            infs
        },
    }
}

/// Every position in `[i, p)` holds an entry not identical to `x`, and `p`
/// holds one: then the first identical entry from `i` on is at `p`.
proof fn lemma_first_same_from(x: Inference, list: Seq<usize>, infs: Seq<Inference>, families: Seq<InferenceFamily>, i: int)
    requires
        0 <= i <= list.len(),
    ensures
        first_same(x, list, infs, families, i) == first_same(x, list, infs, families, 0)
            <== (forall|q: int| 0 <= q < i ==> !same_as_entry(x, list[q], infs, families)),
    decreases i,
{
    if i > 0 {
        lemma_first_same_from(x, list, infs, families, i - 1);
        if forall|q: int| 0 <= q < i ==> !same_as_entry(x, list[q], infs, families) {
            assert(!same_as_entry(x, list[i - 1], infs, families));
        }
    }
}

/// The first identical entry, when there is one, lies in the list and is identical.
pub proof fn lemma_first_same_found(x: Inference, list: Seq<usize>, infs: Seq<Inference>, families: Seq<InferenceFamily>, i: int)
    requires
        0 <= i,
    ensures
        match first_same(x, list, infs, families, i) {
            Some(p) => i <= p < list.len() && same_as_entry(x, list[p], infs, families)
                && forall|q: int| i <= q < p ==> !same_as_entry(x, list[q], infs, families),
            None => forall|q: int| i <= q < list.len() ==> !same_as_entry(x, list[q], infs, families),
        },
    decreases list.len() - i,
{
    if i < list.len() {
        lemma_first_same_found(x, list, infs, families, i + 1);
    }
}

impl Inference {
    /// Create a new inference; an unknown certainty becomes certain.
    pub fn new(family: usize, data: Option<&'static str>, certainty: Certainty) -> (inf: Self)
        ensures
            inf.family == family,
            inf.data == data,
            inf.data_index is None,
            inf.certainty == (if certainty == Certainty::Unknown { Certainty::Certain } else { certainty }),
            inf.inferred_from is None,
            inf.drawn_during_stage == 0,
            !inf.drawn_from_metadata,
    {
        let certainty = match certainty {
            Certainty::Unknown => Certainty::Certain,
            other => other,
        };
        Inference {
            family,
            data,
            data_index: None,
            certainty,
            inferred_from: None,
            drawn_during_stage: 0,
            drawn_from_metadata: false,
        }
    }

    /// The certainty of this inference.
    pub fn get_certainty(&self) -> (r: Certainty)
        ensures
            r == self.certainty,
    {
        self.certainty
    }

    /// Where this inference was drawn from.
    pub fn where_inferred(&self) -> (r: Option<&'static str>)
        ensures
            r == self.inferred_from,
    {
        self.inferred_from
    }

    /// The family index of this inference.
    pub fn get_family(&self) -> (r: usize)
        ensures
            r == self.family,
    {
        self.family
    }

    /// Mark this inference as impossible.
    pub fn render_impossible(&mut self)
        ensures
            *final(self) == (Inference { certainty: Certainty::Impossible, ..*old(self) }),
    {
        self.certainty = Certainty::Impossible;
    }

    /// Compare this inference with another: first by family, then by topic,
    /// then by the family's own comparison.
    pub fn cmp(&self, other: &Inference, families: &[InferenceFamily]) -> (r: InferenceComparison)
        ensures
            r == comparison_of(*self, *other, families@),
    {
        if self.family != other.family {
            return InferenceComparison::DifferInFamily;
        }
        if !opt_str_eq(self.data, other.data) {
            return InferenceComparison::DifferInTopic;
        }
        if self.family < families.len() {
            let cmp_result = families[self.family].methods.compare(self, other);
            if cmp_result != 0 {
                return match cmp_result {
                    1 => InferenceComparison::DifferInExistence,
                    2 => InferenceComparison::DifferInFamily,
                    3 => InferenceComparison::DifferInTopic,
                    4 => InferenceComparison::DifferInBooleanContent,
                    5 => InferenceComparison::DifferInContent,
                    6 => InferenceComparison::DifferInCopyOnly,
                    _ => InferenceComparison::DifferInContent,
                };
            }
        }
        InferenceComparison::Identical
    }

    /// Whether this inference and another compare as identical.
    fn is_identical_to(&self, other: &Inference, families: &[InferenceFamily]) -> (r: bool)
        ensures
            r == (comparison_of(*self, *other, families@) == InferenceComparison::Identical),
    {
        let outcome = self.cmp(other, families);
        outcome == InferenceComparison::Identical
    }

    /// Join this inference to a subject's list of inferences.
    ///
    /// The first entry of the list identical to this inference decides: a
    /// higher certainty raises that entry's certainty, a lower one is
    /// discarded as weaker, an equal one as redundant. With no identical
    /// entry, a copy of this inference is added to the registry and its index
    /// to the subject's list.
    pub fn join(
        &self,
        subject: &mut InferenceSubject,
        families: &[InferenceFamily],
        inferences: &mut Vec<Inference>,
    ) -> (r: JoinResult)
        ensures
            r == join_result(*self, old(subject).inf_list@, old(inferences)@, families@),
            final(subject).broader_than == old(subject).broader_than,
            final(subject).infs_family == old(subject).infs_family,
            final(subject).represents == old(subject).represents,
            final(subject).imp_list@ == old(subject).imp_list@,
            final(subject).permissions_list@ == old(subject).permissions_list@,
            final(subject).alias_variable == old(subject).alias_variable,
            final(subject).log_name == old(subject).log_name,
            final(subject).inf_list@ == joined_list(*self, old(subject).inf_list@, old(inferences)@, families@),
            final(inferences)@ == joined_registry(*self, old(subject).inf_list@, old(inferences)@, families@),
    {
        let ghost list0 = subject.inf_list@;
        let ghost infs0 = inferences@;
        let n = subject.inf_list.len();
        let mut i: usize = 0;
        while i < n
            invariant
                n == subject.inf_list@.len(),
                *subject == *old(subject),
                *inferences == *old(inferences),
                list0 == old(subject).inf_list@,
                infs0 == old(inferences)@,
                0 <= i <= n,
                forall|q: int| 0 <= q < i ==> !same_as_entry(*self, list0[q], infs0, families@),
            decreases n - i,
        {
            let existing_idx = subject.inf_list[i];
            if existing_idx < inferences.len() {
                let existing = inferences[existing_idx];
                if self.is_identical_to(&existing, families) {
                    proof {
                        assert(same_as_entry(*self, list0[i as int], infs0, families@));
                        assert(first_same(*self, list0, infs0, families@, i as int) == Some(i as int));
                        lemma_first_same_from(*self, list0, infs0, families@, i as int);
                        assert(first_same(*self, list0, infs0, families@, 0) == Some(i as int));
                    }
                    let mine = self.certainty.value();
                    let theirs = existing.certainty.value();
                    if mine > theirs {
                        inferences[existing_idx].certainty = self.certainty;
                        return JoinResult::Replaced;
                    } else if mine < theirs {
                        return JoinResult::DiscardedWeaker;
                    } else {
                        return JoinResult::DiscardedRedundant;
                    }
                }
            }
            i += 1;
        }
        proof {
            lemma_first_same_found(*self, list0, infs0, families@, 0);
        }
        let idx = inferences.len();
        inferences.push(*self);
        subject.inf_list.push(idx);
        JoinResult::Joined
    }
}

impl InferenceFamilyMethods {
    /// Compare two inferences of the family.
    pub fn compare(&self, a: &Inference, b: &Inference) -> (r: i32)
        ensures
            r == family_compare(self.compare, *a, *b),
    {
        match self.compare {
            InferenceCompareMethod::ByData(d) => if opt_str_eq(a.data, b.data) { 0 } else { d },
            InferenceCompareMethod::ByDataIndex => {
                let ai: usize = match a.data_index { Some(i) => i, None => usize::MAX };
                let bi: usize = match b.data_index { Some(i) => i, None => usize::MAX };
                if ai > bi { 3 } else if ai < bi { -3 } else { 0 }
            },
        }
    }

    /// Whether the family explains (and so handles) a contradiction between
    /// two of its inferences.
    pub fn explain_contradiction(&self, a: &Inference, b: &Inference, similarity: i32, subject: usize) -> (r: bool)
        ensures
            r == self.explains_contradictions,
    {
        self.explains_contradictions
    }

    /// The details of an inference, as the family logs them.
    pub fn log_details(&self, inf: &Inference) -> (s: String)
        ensures
            s@ == match self.log_details {
                InferenceLogMethod::Topic => match inf.data {
                    Some(d) => seq!['('] + d@ + seq![')'],
                    None => Seq::empty(),
                },
                InferenceLogMethod::RelationDataIndex => match inf.data_index {
                    Some(i) => "(relation_inference_data["@ + decimal(i as nat) + "])"@,
                    None => Seq::empty(),
                },
            },
    {
        proof {
            reveal_strlit("(");
            reveal_strlit(")");
            reveal_strlit("");
        }
        match self.log_details {
            InferenceLogMethod::Topic => match inf.data {
                Some(d) => {
                    let mut s = String::from_str("(");
                    s.append(d);
                    s.append(")");
                    s
                },
                None => String::new(),
            },
            InferenceLogMethod::RelationDataIndex => match inf.data_index {
                Some(i) => {
                    let mut s = String::from_str("(relation_inference_data[");
                    let digits = decimal_text(i);
                    s.append(digits.as_str());
                    s.append("])");
                    s
                },
                None => String::new(),
            },
        }
    }
}

impl InferenceFamily {
    /// Create a new inference family.
    pub fn new(name: &'static str, methods: InferenceFamilyMethods) -> (f: Self)
        ensures
            f.name == name,
            f.methods == methods,
    {
        InferenceFamily { name, methods }
    }
}

/// Whether an entry is identical to `x` does not depend on the certainty of
/// the stored inference.
proof fn lemma_same_ignores_certainty(x: Inference, idx: usize, infs: Seq<Inference>, families: Seq<InferenceFamily>, j: usize, c: Certainty)
    requires
        j < infs.len(),
    ensures
        same_as_entry(x, idx, infs, families)
            == same_as_entry(x, idx, infs.update(j as int, Inference { certainty: c, ..infs[j as int] }), families),
{
}

/// An inference compares as identical to itself.
pub proof fn lemma_identical_to_itself(x: Inference, families: Seq<InferenceFamily>)
    ensures
        comparison_of(x, x, families) == InferenceComparison::Identical,
{
}

/// Joining an inference a second time changes nothing more: the second join
/// discards it (as redundant, or as weaker when the first was), and leaves the
/// subject's list and the registry as the first join left them.
pub proof fn law_join_twice(x: Inference, list: Seq<usize>, infs: Seq<Inference>, families: Seq<InferenceFamily>)
    requires
        infs.len() <= usize::MAX,
        forall|q: int| 0 <= q < list.len() ==> list[q] < infs.len(),
    ensures
        ({
            let list1 = joined_list(x, list, infs, families);
            let infs1 = joined_registry(x, list, infs, families);
            &&& join_result(x, list1, infs1, families) != JoinResult::Joined
            &&& join_result(x, list1, infs1, families) != JoinResult::Replaced
            &&& joined_list(x, list1, infs1, families) == list1
            &&& joined_registry(x, list1, infs1, families) == infs1
        }),
{
    let list1 = joined_list(x, list, infs, families);
    let infs1 = joined_registry(x, list, infs, families);
    lemma_first_same_found(x, list, infs, families, 0);
    match first_same(x, list, infs, families, 0) {
        None => {
            assert forall|q: int| 0 <= q < list.len() implies !same_as_entry(x, list1[q], infs1, families) by {
                assert(list1[q] == list[q]);
                assert(infs1[list[q] as int] == infs[list[q] as int]);
            }
            lemma_identical_to_itself(x, families);
            assert(list1[list.len() as int] == infs.len() as usize);
            assert(infs1[infs.len() as int] == x);
            assert(same_as_entry(x, list1[list.len() as int], infs1, families));
            assert(first_same(x, list1, infs1, families, list.len() as int) == Some(list.len() as int));
            lemma_first_same_from(x, list1, infs1, families, list.len() as int);
        },
        Some(p) => {
            let j = list[p];
            if join_result(x, list, infs, families) == JoinResult::Replaced {
                assert forall|q: int| 0 <= q < list.len() implies
                    same_as_entry(x, list1[q], infs1, families) == same_as_entry(x, list[q], infs, families) by {
                    lemma_same_ignores_certainty(x, list[q], infs, families, j, x.certainty);
                }
            }
            assert(same_as_entry(x, list1[p], infs1, families));
            assert(first_same(x, list1, infs1, families, p) == Some(p));
            lemma_first_same_from(x, list1, infs1, families, p);
        },
    }
}

/// The place of a certainty in the order of certainties, from impossible
/// (0) up to certain (5).
pub open spec fn certainty_rank(c: Certainty) -> nat {
    match c {
        Certainty::Impossible => 0,
        Certainty::Unlikely => 1,
        Certainty::Unknown => 2,
        Certainty::Likely => 3,
        Certainty::Initially => 4,
        Certainty::Certain => 5,
    }
}

/// Joining keeps the stronger certainty. When the subject already has an
/// inference identical to `x`, the first such entry in its list ends with whichever of
/// the two certainties is higher in the order of certainties: the result is
/// `Replaced` exactly when `x` is strictly more certain, `DiscardedWeaker`
/// exactly when it is strictly less certain, and `DiscardedRedundant` when
/// they are equally certain; the list is kept and no other entry changes.
/// Otherwise `x` is added at the end of the registry and of the list, and
/// the result is `Joined`. No entry ever loses certainty.
pub proof fn law_join_keeps_the_stronger(x: Inference, list: Seq<usize>, infs: Seq<Inference>, families: Seq<InferenceFamily>)
    requires
        infs.len() <= usize::MAX,
    ensures
        ({
            let r = join_result(x, list, infs, families);
            let list1 = joined_list(x, list, infs, families);
            let infs1 = joined_registry(x, list, infs, families);
            &&& match first_same(x, list, infs, families, 0) {
                Some(p) => {
                    let k = list[p];
                    let e = infs[k as int];
                    &&& 0 <= p < list.len()
                    &&& same_as_entry(x, k, infs, families)
                    &&& forall|q: int| 0 <= q < p ==> !same_as_entry(x, #[trigger] list[q], infs, families)
                    &&& (r == JoinResult::Replaced <==> certainty_rank(x.certainty) > certainty_rank(e.certainty))
                    &&& (r == JoinResult::DiscardedWeaker <==> certainty_rank(x.certainty) < certainty_rank(e.certainty))
                    &&& (r == JoinResult::DiscardedRedundant <==> certainty_rank(x.certainty) == certainty_rank(e.certainty))
                    &&& list1 == list
                    &&& infs1.len() == infs.len()
                    &&& infs1[k as int] == Inference {
                        certainty: if certainty_rank(x.certainty) > certainty_rank(e.certainty) { x.certainty } else { e.certainty },
                        ..e
                    }
                    &&& forall|q: int| 0 <= q < infs.len() && q != k ==> #[trigger] infs1[q] == infs[q]
                },
                None => {
                    &&& forall|q: int| 0 <= q < list.len() ==> !same_as_entry(x, #[trigger] list[q], infs, families)
                    &&& r == JoinResult::Joined
                    &&& list1 == list.push(infs.len() as usize)
                    &&& infs1 == infs.push(x)
                },
            }
            &&& forall|q: int| 0 <= q < infs.len() ==>
                certainty_rank(#[trigger] infs1[q].certainty) >= certainty_rank(infs[q].certainty)
        }),
{
    lemma_first_same_found(x, list, infs, families, 0);
}

} // verus!
