//! Inference subjects: anything about which an inference can be drawn.
//!
//! Subjects live in a registry (a vector) and refer to one another by index.
//! Each subject may name a broader subject; following these links upward
//! gives the subject hierarchy, whose top is the model world.
use vstd::prelude::*;

verus! {

/// Maximum number of plugins that can attach data to a subject.
pub const MAX_PLUGINS: usize = 8;

/// An inference subject.
#[derive(Clone, Debug)]
pub struct InferenceSubject {
    /// The broader (more general) subject, or `None` for a root.
    pub broader_than: Option<usize>,
    /// Index of the family this subject belongs to.
    pub infs_family: usize,
    /// What the subject stands for (a kind name, an instance name, ...).
    pub represents: Option<&'static str>,
    /// Indices of the inferences drawn about this subject.
    pub inf_list: Vec<usize>,
    /// Indices of the implications applying to this subject.
    pub imp_list: Vec<usize>,
    /// Indices of the property permissions of this subject.
    pub permissions_list: Vec<usize>,
    /// Alias variable (for "player" aliasing "yourself").
    pub alias_variable: Option<&'static str>,
    /// Name used in logs.
    pub log_name: Option<&'static str>,
}

/// Where a family of subjects takes the name text of a subject from.
#[derive(Clone, Copy, Debug, PartialEq, Eq, Structural)]
pub enum SubjectNameSource {
    /// The subjects of the family have no name text.
    Nameless,
    /// The name text is the subject's log name.
    LogName,
    /// The name text is what the subject represents.
    Represents,
}

/// The behaviour a family gives its subjects.
///
/// Every family names its subjects in one of three ways and gives all its
/// subjects one default certainty; the hooks for granted permissions,
/// adjectival constants and model completion and checking do nothing.
#[derive(Clone, Copy, Debug)]
pub struct InferenceSubjectFamilyMethods {
    /// How the name text of a subject is found.
    pub name_source: SubjectNameSource,
    /// The default certainty of a subject of the family.
    pub default_certainty: i8,
}

/// A family of related inference subjects.
#[derive(Clone, Debug)]
pub struct InferenceSubjectFamily {
    /// Name of this family.
    pub name: &'static str,
    /// Behaviour of the subjects of this family.
    pub methods: InferenceSubjectFamilyMethods,
}

/// The subject reached from `start` after `k` steps up the broader-than links;
/// the walk stops (gives `None`) at a root or at an index outside the registry.
pub open spec fn chain_at(reg: Seq<InferenceSubject>, start: Option<usize>, k: nat) -> Option<usize>
    decreases k,
{
    match start {
        None => None,
        Some(i) => if k == 0 {
            Some(i)
        } else if i < reg.len() {
            chain_at(reg, reg[i as int].broader_than, (k - 1) as nat)
        } else {
            None
        },
    }
}

/// `target` lies somewhere on the upward walk from `start`.
pub open spec fn reaches(reg: Seq<InferenceSubject>, start: Option<usize>, target: usize) -> bool {
    exists|k: nat| chain_at(reg, start, k) == Some(target)
}

/// The upward walk from `start` meets `stop` or ends, and every subject it
/// visits before meeting `stop` lies inside the registry.
pub open spec fn walk_to_ok(reg: Seq<InferenceSubject>, start: Option<usize>, stop: usize) -> bool {
    &&& exists|n: nat| #[trigger] chain_at(reg, start, n) is None || chain_at(reg, start, n) == Some(stop)
    &&& forall|k: nat|
        (forall|j: nat| j < k ==> chain_at(reg, start, j) != Some(stop)) ==> match #[trigger] chain_at(reg, start, k) {
            Some(i) => i == stop || i < reg.len(),
            None => true,
        }
}

/// One step up from a subject inside the registry reaches its broader subject.
pub proof fn lemma_chain_step(reg: Seq<InferenceSubject>, i: usize)
    requires
        i < reg.len(),
    ensures
        chain_at(reg, Some(i), 1) == reg[i as int].broader_than,
{
    assert(chain_at(reg, Some(i), 1) == chain_at(reg, reg[i as int].broader_than, 0));
    match reg[i as int].broader_than {
        Some(b) => {},
        None => {},
    }
}

/// Once the walk has ended, it stays ended.
pub proof fn lemma_chain_ended(reg: Seq<InferenceSubject>, start: Option<usize>, n: nat, m: nat)
    requires
        chain_at(reg, start, n) is None,
        n <= m,
    ensures
        chain_at(reg, start, m) is None,
    decreases n,
{
    match start {
        None => {},
        Some(i) => {
            if n == 0 {
            } else if i < reg.len() {
                lemma_chain_ended(reg, reg[i as int].broader_than, (n - 1) as nat, (m - 1) as nat);
            }
        },
    }
}

/// Walking `a` steps and then `b` steps is walking `a + b` steps.
pub proof fn lemma_chain_compose(reg: Seq<InferenceSubject>, start: Option<usize>, a: nat, b: nat)
    ensures
        chain_at(reg, start, a + b) == chain_at(reg, chain_at(reg, start, a), b),
    decreases a,
{
    match start {
        None => {},
        Some(i) => {
            if a == 0 {
            } else if i < reg.len() {
                lemma_chain_compose(reg, reg[i as int].broader_than, (a - 1) as nat, b);
            } else {
                assert(chain_at(reg, start, a) is None);
                if a + b > 0 {
                }
            }
        },
    }
}

/// Being within is transitive: if `x` lies within `y` and `y` within `z`,
/// then `x` lies within `z`.
pub proof fn lemma_within_transitive(reg: Seq<InferenceSubject>, x: Option<usize>, y: usize, z: usize)
    requires
        y < reg.len(),
        reaches(reg, x, y),
        reaches(reg, reg[y as int].broader_than, z),
    ensures
        reaches(reg, x, z),
{
    let k1 = choose|k: nat| chain_at(reg, x, k) == Some(y);
    let k2 = choose|k: nat| chain_at(reg, reg[y as int].broader_than, k) == Some(z);
    lemma_chain_compose(reg, x, k1, 1 + k2);
    lemma_chain_compose(reg, Some(y), 1, k2);
    lemma_chain_step(reg, y);
    assert(chain_at(reg, x, k1 + 1 + k2) == Some(z));
}

impl InferenceSubjectFamilyMethods {
    /// The name text the family gives to a subject.
    pub fn get_name_text(&self, subject: &InferenceSubject) -> (r: Option<&'static str>)
        ensures
            r == match self.name_source {
                SubjectNameSource::Nameless => None,
                SubjectNameSource::LogName => subject.log_name,
                SubjectNameSource::Represents => subject.represents,
            },
    {
        match self.name_source {
            SubjectNameSource::Nameless => None,
            SubjectNameSource::LogName => subject.log_name,
            SubjectNameSource::Represents => subject.represents,
        }
    }

    /// The default certainty the family gives to a subject.
    pub fn get_default_certainty(&self, _subject: &InferenceSubject) -> (r: i8)
        ensures
            r == self.default_certainty,
    {
        self.default_certainty
    }
}

impl InferenceSubject {
    /// Create a new inference subject with empty lists.
    pub fn new(
        family: usize,
        broader_than: Option<usize>,
        represents: Option<&'static str>,
        log_name: Option<&'static str>,
    ) -> (s: Self)
        ensures
            s.broader_than == broader_than,
            s.infs_family == family,
            s.represents == represents,
            s.log_name == log_name,
            s.alias_variable is None,
            s.inf_list@.len() == 0,
            s.imp_list@.len() == 0,
            s.permissions_list@.len() == 0,
    {
        InferenceSubject {
            broader_than,
            infs_family: family,
            represents,
            inf_list: Vec::new(),
            imp_list: Vec::new(),
            permissions_list: Vec::new(),
            alias_variable: None,
            log_name,
        }
    }

    /// Create a fundamental subject (model world, global variables, ...),
    /// which belongs to the fundamentals family at index 0.
    pub fn new_fundamental(broader_than: Option<usize>, log_name: &'static str) -> (s: Self)
        ensures
            s.broader_than == broader_than,
            s.infs_family == 0,
            s.represents is None,
            s.log_name == Some(log_name),
            s.alias_variable is None,
            s.inf_list@.len() == 0,
            s.imp_list@.len() == 0,
            s.permissions_list@.len() == 0,
    {
        InferenceSubject::new(0, broader_than, None, Some(log_name))
    }

    /// Test whether this subject lies within the subject at index `larger`:
    /// whether `larger` is met walking upward from this subject's broader subject.
    /// An index outside the registry is never met.
    pub fn is_within(&self, larger: usize, registry: &[InferenceSubject]) -> (r: bool)
        requires
            larger < registry@.len() ==> walk_to_ok(registry@, self.broader_than, larger),
        ensures
            r == (larger < registry@.len() && reaches(registry@, self.broader_than, larger)),
    {
        if larger >= registry.len() {
            return false;
        }
        let ghost reg = registry@;
        let ghost start = self.broader_than;
        let ghost n = choose|n: nat| #[trigger] chain_at(reg, start, n) is None || chain_at(reg, start, n) == Some(larger);
        let mut current = self.broader_than;
        let ghost mut steps: nat = 0;
        while current.is_some()
            invariant
                larger < reg.len(),
                reg == registry@,
                start == self.broader_than,
                walk_to_ok(reg, start, larger),
                chain_at(reg, start, n) is None || chain_at(reg, start, n) == Some(larger),
                current == chain_at(reg, start, steps),
                forall|j: nat| j < steps ==> chain_at(reg, start, j) != Some(larger),
            decreases n - steps,
        {
            let idx = current.unwrap();
            if idx == larger {
                assert(chain_at(reg, start, steps) == Some(larger));
                assert(reaches(reg, start, larger));
                return true;
            }
            proof {
                if steps >= n {
                    if chain_at(reg, start, n) is None {
                        lemma_chain_ended(reg, start, n, steps);
                    }
                }
                assert(idx < reg.len());
            }
            current = registry[idx].broader_than;
            proof {
                lemma_chain_compose(reg, start, steps, 1);
                lemma_chain_step(reg, idx);
                steps = steps + 1;
            }
        }
        proof {
            assert forall|k: nat| chain_at(reg, start, k) != Some(larger) by {
                if k >= steps {
                    lemma_chain_ended(reg, start, steps, k);
                }
            }
        }
        false
    }

    /// Test whether this subject, at index `self_idx`, lies within a different
    /// subject, at index `larger`.
    pub fn is_strictly_within(&self, self_idx: usize, larger: usize, registry: &[InferenceSubject]) -> (r: bool)
        requires
            larger < registry@.len() ==> walk_to_ok(registry@, self.broader_than, larger),
        ensures
            r == (self_idx != larger && larger < registry@.len() && reaches(registry@, self.broader_than, larger)),
    {
        if self_idx == larger {
            return false;
        }
        self.is_within(larger, registry)
    }

    /// The immediate broader subject, if any.
    pub fn narrowest_broader_subject(&self) -> (r: Option<usize>)
        ensures
            r == self.broader_than,
    {
        self.broader_than
    }

    /// Demote this subject so that it falls within the subject at index `broad`.
    pub fn falls_within(&mut self, broad: usize)
        ensures
            *final(self) == (InferenceSubject { broader_than: Some(broad), ..*old(self) }),
    {
        self.broader_than = Some(broad);
    }

    /// The indices of the inferences drawn about this subject.
    pub fn get_inferences(&self) -> (r: &[usize])
        ensures
            r@ == self.inf_list@,
    {
        self.inf_list.as_slice()
    }

    /// The indices of the implications applying to this subject.
    pub fn get_implications(&self) -> (r: &[usize])
        ensures
            r@ == self.imp_list@,
    {
        self.imp_list.as_slice()
    }

    /// The indices of the property permissions of this subject.
    pub fn get_permissions(&self) -> (r: &[usize])
        ensures
            r@ == self.permissions_list@,
    {
        self.permissions_list.as_slice()
    }

    /// The name text of this subject, as its family gives it; `None` when the
    /// family index lies outside `families`.
    pub fn get_name_text(&self, families: &[InferenceSubjectFamily]) -> (r: Option<&'static str>)
        ensures
            r == if self.infs_family < families@.len() {
                match families@[self.infs_family as int].methods.name_source {
                    SubjectNameSource::Nameless => None,
                    SubjectNameSource::LogName => self.log_name,
                    SubjectNameSource::Represents => self.represents,
                }
            } else {
                None
            },
    {
        if self.infs_family < families.len() {
            families[self.infs_family].methods.get_name_text(self)
        } else {
            None
        }
    }

    /// The default certainty of this subject, as its family gives it; 0
    /// (unknown) when the family index lies outside `families`.
    pub fn get_default_certainty(&self, families: &[InferenceSubjectFamily]) -> (r: i8)
        ensures
            r == if self.infs_family < families@.len() {
                families@[self.infs_family as int].methods.default_certainty
            } else {
                0
            },
    {
        if self.infs_family < families.len() {
            families[self.infs_family].methods.get_default_certainty(self)
        } else {
            0
        }
    }

    /// Tell the family that a property permission was granted to this subject.
    /// No family does anything with this notice.
    pub fn new_permission_granted(&self, families: &[InferenceSubjectFamily], pp: usize) {
    }
}

impl InferenceSubjectFamily {
    /// Create a new inference subject family.
    pub fn new(name: &'static str, methods: InferenceSubjectFamilyMethods) -> (f: Self)
        ensures
            f.name == name,
            f.methods == methods,
    {
        InferenceSubjectFamily { name, methods }
    }

    /// The fundamentals family: its subjects are nameless and certain (3).
    pub fn fundamentals() -> (f: Self)
        ensures
            f.name@ == "fundamentals"@,
            f.methods.name_source == SubjectNameSource::Nameless,
            f.methods.default_certainty == 3,
    {
        proof {
            reveal_strlit("fundamentals");
        }
        InferenceSubjectFamily {
            name: "fundamentals",
            methods: InferenceSubjectFamilyMethods {
                name_source: SubjectNameSource::Nameless,
                default_certainty: 3,
            },
        }
    }
}

} // verus!
