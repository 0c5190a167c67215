//! Properties: named attributes that subjects can have, either either-or
//! ("open"/"closed") or valued ("carrying capacity").
use vstd::prelude::*;
use vstd::string::StringExecFns;
use crate::text::{str_eq, text_contains, contains_text};
use crate::search::{first_where, first_from, lemma_first_where, lemma_first_push};

verus! {

/// A property.
#[derive(Clone, Debug)]
pub struct Property {
    /// Name of the property.
    pub name: &'static str,
    /// Whether the name looks like a property test (contains " of ").
    pub has_of_in_the_name: bool,
    /// Whether this property exists only at the Inter level.
    pub inter_level_only: bool,
    /// Indices of the permissions for this property.
    pub permissions: Vec<usize>,
    /// Either-or property data, or `None` for a valued property.
    pub either_or_data: Option<EitherOrPropertyData>,
    /// Valued property data, or `None` for an either-or property.
    pub value_data: Option<ValuePropertyData>,
    /// Compilation data.
    pub compilation_data: Option<&'static str>,
    /// Possession marker, for temporary use when checking implications.
    pub possession_marker: bool,
}

/// Data for an either-or property.
#[derive(Clone, Copy, Debug, PartialEq, Eq)]
pub struct EitherOrPropertyData {
    /// The index of the negation property, if this is one of a pair.
    pub negation: Option<usize>,
    /// The index of the adjective for this property, if any.
    pub as_adjective: Option<usize>,
}

/// Data for a valued property.
#[derive(Clone, Copy, Debug, PartialEq, Eq)]
pub struct ValuePropertyData {
    /// The name of the kind of value stored, once known.
    pub property_value_kind: Option<&'static str>,
    /// The index of the setting relation of this property.
    pub setting_bp: Option<usize>,
    /// Whether the property name coincides with a kind name.
    pub name_coincides_with_kind: bool,
    /// Condition of subject data, if any.
    pub as_condition_of_subject: Option<usize>,
    /// The relation whose state this property stores, if any.
    pub relation_whose_state_this_stores: Option<usize>,
}

/// Creation and accessor functions for properties.
pub struct Properties;

/// Properties whose name is `n`.
pub open spec fn property_named(n: Seq<char>) -> spec_fn(Property) -> bool {
    |p: Property| p.name@ == n
}

/// Valued properties whose name is `n`.
pub open spec fn valued_property_named(n: Seq<char>) -> spec_fn(Property) -> bool {
    |p: Property| p.either_or_data is None && p.name@ == n
}

/// The new property that `create` makes.
pub open spec fn is_new_property(p: Property, name: &'static str, eo: bool) -> bool {
    &&& p.name == name
    &&& p.has_of_in_the_name == text_contains(name@, " of "@)
    &&& !p.inter_level_only
    &&& p.permissions@.len() == 0
    &&& p.either_or_data == if eo { Some(EitherOrPropertyData { negation: None, as_adjective: None }) } else { None }
    &&& p.value_data == if eo { None } else {
        Some(ValuePropertyData {
            property_value_kind: None,
            setting_bp: None,
            name_coincides_with_kind: false,
            as_condition_of_subject: None,
            relation_whose_state_this_stores: None,
        })
    }
    &&& p.compilation_data is None
    &&& !p.possession_marker
}

/// The first property with the given name.
pub fn find_property(name: &str, registry: &[Property]) -> (r: Option<usize>)
    ensures
        r matches Some(i) ==> i < registry@.len(),
        r matches Some(i) ==> first_where(registry@, property_named(name@)) == Some(i as int),
        r is None ==> first_where(registry@, property_named(name@)) is None,
{
    let n = registry.len();
    let mut i: usize = 0;
    while i < n
        invariant
            n == registry@.len(),
            0 <= i <= n,
            first_where(registry@, property_named(name@)) == first_from(registry@, property_named(name@), i as int),
        decreases n - i,
    {
        if str_eq(registry[i].name, name) {
            return Some(i);
        }
        i += 1;
    }
    None
}

impl Properties {
    /// Create a new property, either-or when `eo` is set and valued
    /// otherwise, and return its index.
    pub fn create(name: &'static str, eo: bool, registry: &mut Vec<Property>) -> (r: usize)
        ensures
            r == old(registry)@.len(),
            final(registry)@.len() == old(registry)@.len() + 1,
            final(registry)@.take(r as int) == old(registry)@,
            is_new_property(final(registry)@[r as int], name, eo),
    {
        let has_of = contains_text(name, " of ");
        let prn = Property {
            name,
            has_of_in_the_name: has_of,
            inter_level_only: false,
            permissions: Vec::new(),
            either_or_data: if eo { Some(EitherOrPropertyData { negation: None, as_adjective: None }) } else { None },
            value_data: if eo {
                None
            } else {
                Some(ValuePropertyData {
                    property_value_kind: None,
                    setting_bp: None,
                    name_coincides_with_kind: false,
                    as_condition_of_subject: None,
                    relation_whose_state_this_stores: None,
                })
            },
            compilation_data: None,
            possession_marker: false,
        };
        let idx = registry.len();
        registry.push(prn);
        proof {
            assert(registry@.take(idx as int) =~= old(registry)@);
        }
        idx
    }

    /// Find the property with the given name, or create one (valued when
    /// `valued` is set, either-or otherwise); return its index.
    pub fn obtain(name: &'static str, valued: bool, registry: &mut Vec<Property>) -> (r: usize)
        ensures
            match first_where(old(registry)@, property_named(name@)) {
                Some(i) => r == i && final(registry)@ == old(registry)@,
                None => {
                    &&& r == old(registry)@.len()
                    &&& final(registry)@.len() == old(registry)@.len() + 1
                    &&& final(registry)@.take(r as int) == old(registry)@
                    &&& is_new_property(final(registry)@[r as int], name, !valued)
                },
            },
    {
        if let Some(idx) = find_property(name, registry) {
            return idx;
        }
        Properties::create(name, !valued, registry)
    }

    /// The kind of a property, as text: "truth-state-valued property" for an
    /// either-or property, "K-valued property" for one holding values of kind
    /// K, "value-valued property" when the kind is unknown, and "property"
    /// without any data.
    pub fn to_kind(prn: &Property) -> (s: String)
        ensures
            s@ == if prn.either_or_data is Some {
                "truth-state-valued property"@
            } else if prn.value_data is Some {
                match prn.value_data.unwrap().property_value_kind {
                    Some(k) => k@ + "-valued property"@,
                    None => "value-valued property"@,
                }
            } else {
                "property"@
            },
    {
        if prn.either_or_data.is_some() {
            String::from_str("truth-state-valued property")
        } else {
            match prn.value_data {
                Some(vd) => match vd.property_value_kind {
                    Some(k) => {
                        let mut s = String::from_str(k);
                        s.append("-valued property");
                        s
                    },
                    None => String::from_str("value-valued property"),
                },
                None => String::from_str("property"),
            }
        }
    }

    /// The kind of the values a property holds: "truth_state" for an
    /// either-or property, the value kind for a valued one.
    pub fn kind_of_contents(prn: &Property) -> (r: Option<&'static str>)
        ensures
            prn.either_or_data is Some ==> (r matches Some(k) && k@ == "truth_state"@),
            prn.either_or_data is None ==> r == match prn.value_data {
                Some(vd) => vd.property_value_kind,
                None => None,
            },
    {
        proof {
            reveal_strlit("truth_state");
        }
        if prn.either_or_data.is_some() {
            Some("truth_state")
        } else {
            match prn.value_data {
                Some(vd) => vd.property_value_kind,
                None => None,
            }
        }
    }

    /// The first valued property whose name is the given kind name.
    pub fn property_with_same_name_as(kind_name: &str, properties: &[Property]) -> (r: Option<usize>)
        ensures
            r matches Some(i) ==> i < properties@.len(),
            r matches Some(i) ==> first_where(properties@, valued_property_named(kind_name@)) == Some(i as int),
            r is None ==> first_where(properties@, valued_property_named(kind_name@)) is None,
    {
        let n = properties.len();
        let mut i: usize = 0;
        while i < n
            invariant
                n == properties@.len(),
                0 <= i <= n,
                first_where(properties@, valued_property_named(kind_name@)) == first_from(properties@, valued_property_named(kind_name@), i as int),
            decreases n - i,
        {
            if properties[i].either_or_data.is_none() && str_eq(properties[i].name, kind_name) {
                return Some(i);
            }
            i += 1;
        }
        None
    }
}

/// Operations on either-or properties.
pub struct EitherOrProperties;

/// The property at `i` with its either-or data replaced.
pub open spec fn with_eo_data(p: Property, d: EitherOrPropertyData) -> Property {
    Property { either_or_data: Some(d), ..p }
}

/// Whether `make_pair` pairs the properties at `p` and `q`: both either-or,
/// distinct, and neither already paired with another property.
pub open spec fn can_pair(reg: Seq<Property>, p: usize, q: usize) -> bool {
    &&& p != q
    &&& reg[p as int].either_or_data is Some
    &&& reg[q as int].either_or_data is Some
    &&& (reg[p as int].either_or_data.unwrap().negation matches Some(n) ==> n == q)
    &&& (reg[q as int].either_or_data.unwrap().negation matches Some(n) ==> n == p)
}

impl EitherOrProperties {
    /// Fresh either-or data: unpaired, with no adjective.
    pub fn new_eo_data() -> (d: EitherOrPropertyData)
        ensures
            d == (EitherOrPropertyData { negation: None, as_adjective: None }),
    {
        EitherOrPropertyData { negation: None, as_adjective: None }
    }

    /// Make two either-or properties each other's negation. Returns false,
    /// changing nothing, when they are the same property, either is not
    /// either-or, or either is already paired with another property.
    pub fn make_pair(prn_idx: usize, neg_idx: usize, registry: &mut Vec<Property>) -> (r: bool)
        requires
            prn_idx != neg_idx ==> prn_idx < old(registry)@.len() && neg_idx < old(registry)@.len(),
        ensures
            r == (prn_idx != neg_idx && can_pair(old(registry)@, prn_idx, neg_idx)),
            !r ==> final(registry)@ == old(registry)@,
            r ==> final(registry)@ == old(registry)@
                .update(prn_idx as int, with_eo_data(old(registry)@[prn_idx as int],
                    EitherOrPropertyData { negation: Some(neg_idx), ..old(registry)@[prn_idx as int].either_or_data.unwrap() }))
                .update(neg_idx as int, with_eo_data(old(registry)@[neg_idx as int],
                    EitherOrPropertyData { negation: Some(prn_idx), ..old(registry)@[neg_idx as int].either_or_data.unwrap() })),
    {
        if prn_idx == neg_idx {
            return false;
        }
        let prn_eo = registry[prn_idx].either_or_data;
        let neg_eo = registry[neg_idx].either_or_data;
        let (prn_eod, neg_eod) = match (prn_eo, neg_eo) {
            (Some(a), Some(b)) => (a, b),
            _ => return false,
        };
        if let Some(n) = prn_eod.negation {
            if n != neg_idx {
                return false;
            }
        }
        if let Some(n) = neg_eod.negation {
            if n != prn_idx {
                return false;
            }
        }
        registry[prn_idx].either_or_data = Some(EitherOrPropertyData { negation: Some(neg_idx), ..prn_eod });
        registry[neg_idx].either_or_data = Some(EitherOrPropertyData { negation: Some(prn_idx), ..neg_eod });
        true
    }

    /// The negation of an either-or property, if it has one.
    pub fn get_negation(prn: &Property) -> (r: Option<usize>)
        ensures
            r == match prn.either_or_data {
                Some(d) => d.negation,
                None => None,
            },
    {
        match prn.either_or_data {
            Some(d) => d.negation,
            None => None,
        }
    }

    /// The adjective of the either-or property at `prn_idx`, if any.
    pub fn as_adjective(prn_idx: usize, properties: &[Property]) -> (r: Option<usize>)
        ensures
            r == if prn_idx < properties@.len() {
                match properties@[prn_idx as int].either_or_data {
                    Some(d) => d.as_adjective,
                    None => None,
                }
            } else {
                None
            },
    {
        if prn_idx < properties.len() {
            match properties[prn_idx].either_or_data {
                Some(d) => d.as_adjective,
                None => None,
            }
        } else {
            None
        }
    }
}

/// Obtaining is idempotent: obtaining a name a second time returns the
/// index the first call returned and changes nothing.
pub proof fn law_obtain_twice(reg: Seq<Property>, name: &'static str, valued: bool, p: Property)
    requires
        is_new_property(p, name, !valued),
    ensures
        ({
            let (reg1, r) = match first_where(reg, property_named(name@)) {
                Some(i) => (reg, i),
                None => (reg.push(p), reg.len() as int),
            };
            first_where(reg1, property_named(name@)) == Some(r)
        }),
{
    lemma_first_push(reg, property_named(name@), p);
}

/// Pairing makes the two properties each other's negation.
pub proof fn law_pair_is_mutual(reg: Seq<Property>, p: usize, q: usize)
    requires
        p < reg.len(),
        q < reg.len(),
        can_pair(reg, p, q),
    ensures
        ({
            let reg1 = reg
                .update(p as int, with_eo_data(reg[p as int], EitherOrPropertyData { negation: Some(q), ..reg[p as int].either_or_data.unwrap() }))
                .update(q as int, with_eo_data(reg[q as int], EitherOrPropertyData { negation: Some(p), ..reg[q as int].either_or_data.unwrap() }));
            &&& reg1[p as int].either_or_data.unwrap().negation == Some(q)
            &&& reg1[q as int].either_or_data.unwrap().negation == Some(p)
            &&& can_pair(reg1, p, q)
        }),
{
}

} // verus!
