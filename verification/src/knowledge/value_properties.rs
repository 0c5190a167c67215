//! Valued properties: the management of the data of properties that hold a
//! value of some kind.
use vstd::prelude::*;
use crate::search::first_where;
use crate::knowledge::properties::{
    Properties, Property, ValuePropertyData, find_property, property_named, is_new_property,
};
use crate::calculus::BinaryPredicate;
use crate::knowledge::instances::{Instance, Instances};
use crate::knowledge::instance_subjects::instance_named;
use crate::knowledge::setting_property_relation::{
    SettingPropertyRelations, fix_step, pending_setter, setting_pair, pending_tag, fixable, same_shape,
};

verus! {

/// Operations on valued properties.
pub struct ValueProperties;

/// The property at `i` is a valued one: it has value data and no either-or data.
pub open spec fn is_valued(properties: Seq<Property>, i: usize) -> bool {
    &&& i < properties.len()
    &&& properties[i as int].either_or_data is None
    &&& properties[i as int].value_data is Some
}

/// Where the setting relation of a property named `name` lies: the relation
/// already made for the name, or the next free place.
pub open spec fn setting_slot(reg: Seq<BinaryPredicate>, name: Seq<char>) -> int {
    match first_where(reg, pending_setter(name)) {
        Some(i) => i,
        None => reg.len() as int,
    }
}

/// The property `p` with its value data replaced by `vd`.
pub open spec fn with_value_data(p: Property, vd: ValuePropertyData) -> Property {
    Property { value_data: Some(vd), ..p }
}

/// The value data of the property at `i`.
pub open spec fn value_data_of(properties: Seq<Property>, i: usize) -> ValuePropertyData {
    properties[i as int].value_data.unwrap()
}

impl ValueProperties {
    /// Fresh value data: no kind, no setting relation, no coincidence.
    pub fn new_value_data() -> (vd: ValuePropertyData)
        ensures
            vd == (ValuePropertyData {
                property_value_kind: None,
                setting_bp: None,
                name_coincides_with_kind: false,
                as_condition_of_subject: None,
                relation_whose_state_this_stores: None,
            }),
    {
        ValuePropertyData {
            property_value_kind: None,
            setting_bp: None,
            name_coincides_with_kind: false,
            as_condition_of_subject: None,
            relation_whose_state_this_stores: None,
        }
    }

    /// The kind of the values the property at `prn_idx` holds; `None` for an
    /// either-or property, one without value data, or one whose kind is unknown.
    pub fn kind(prn_idx: usize, properties: &[Property]) -> (r: Option<&'static str>)
        requires
            prn_idx < properties@.len(),
        ensures
            r == if properties@[prn_idx as int].either_or_data is Some {
                None
            } else {
                match properties@[prn_idx as int].value_data {
                    Some(vd) => vd.property_value_kind,
                    None => None,
                }
            },
    {
        let prn = &properties[prn_idx];
        if prn.either_or_data.is_some() {
            return None;
        }
        match prn.value_data {
            Some(vd) => vd.property_value_kind,
            None => None,
        }
    }

    /// Set the kind of the values the valued property at `prn_idx` holds.
    pub fn set_kind(prn_idx: usize, kind_name: &'static str, properties: &mut Vec<Property>)
        requires
            is_valued(old(properties)@, prn_idx),
        ensures
            final(properties)@ == old(properties)@.update(prn_idx as int,
                with_value_data(old(properties)@[prn_idx as int],
                    ValuePropertyData { property_value_kind: Some(kind_name), ..value_data_of(old(properties)@, prn_idx) })),
    {
        let vd = properties[prn_idx].value_data.unwrap();
        properties[prn_idx].value_data = Some(ValuePropertyData { property_value_kind: Some(kind_name), ..vd });
    }

    /// Whether the name of the valued property at `prn_idx` coincides with
    /// the name of a kind.
    pub fn coincides_with_kind(prn_idx: usize, properties: &[Property]) -> (r: bool)
        requires
            is_valued(properties@, prn_idx),
        ensures
            r == value_data_of(properties@, prn_idx).name_coincides_with_kind,
    {
        properties[prn_idx].value_data.unwrap().name_coincides_with_kind
    }

    /// The setting relation of the valued property at `prn_idx`.
    pub fn get_setting_bp(prn_idx: usize, properties: &[Property]) -> (r: Option<usize>)
        requires
            is_valued(properties@, prn_idx),
        ensures
            r == value_data_of(properties@, prn_idx).setting_bp,
    {
        properties[prn_idx].value_data.unwrap().setting_bp
    }

    /// Record that the valued property at `prn_idx` stores the state of the
    /// relation `bp_idx`.
    pub fn set_stored_relation(prn_idx: usize, bp_idx: usize, properties: &mut Vec<Property>)
        requires
            is_valued(old(properties)@, prn_idx),
        ensures
            final(properties)@ == old(properties)@.update(prn_idx as int,
                with_value_data(old(properties)@[prn_idx as int],
                    ValuePropertyData { relation_whose_state_this_stores: Some(bp_idx), ..value_data_of(old(properties)@, prn_idx) })),
    {
        let vd = properties[prn_idx].value_data.unwrap();
        properties[prn_idx].value_data = Some(ValuePropertyData { relation_whose_state_this_stores: Some(bp_idx), ..vd });
    }

    /// The relation whose state the valued property at `prn_idx` stores.
    pub fn get_stored_relation(prn_idx: usize, properties: &[Property]) -> (r: Option<usize>)
        requires
            is_valued(properties@, prn_idx),
        ensures
            r == value_data_of(properties@, prn_idx).relation_whose_state_this_stores,
    {
        properties[prn_idx].value_data.unwrap().relation_whose_state_this_stores
    }

    /// Find the property with the given name, or create a valued one.
    pub fn obtain(name: &'static str, properties: &mut Vec<Property>) -> (r: usize)
        ensures
            match first_where(old(properties)@, property_named(name@)) {
                Some(i) => r == i && final(properties)@ == old(properties)@,
                None => {
                    &&& r == old(properties)@.len()
                    &&& final(properties)@.len() == old(properties)@.len() + 1
                    &&& final(properties)@.take(r as int) == old(properties)@
                    &&& is_new_property(final(properties)@[r as int], name, false)
                },
            },
    {
        Properties::obtain(name, true, properties)
    }

    /// Find the property with the given name, or create a valued one, and
    /// give it the kind `kind_name` unless it already has value data with a
    /// kind (an either-or property is returned unchanged).
    pub fn obtain_within_kind(name: &'static str, kind_name: &'static str, properties: &mut Vec<Property>) -> (r: usize)
        ensures
            match first_where(old(properties)@, property_named(name@)) {
                Some(i) => {
                    &&& r == i
                    &&& final(properties)@ == match old(properties)@[i].value_data {
                        Some(vd) => if vd.property_value_kind is None {
                            old(properties)@.update(i, with_value_data(old(properties)@[i],
                                ValuePropertyData { property_value_kind: Some(kind_name), ..vd }))
                        } else {
                            old(properties)@
                        },
                        None => old(properties)@,
                    }
                },
                None => {
                    &&& r == old(properties)@.len()
                    &&& final(properties)@.len() == old(properties)@.len() + 1
                    &&& final(properties)@.take(r as int) == old(properties)@
                    &&& final(properties)@[r as int].name == name
                    &&& final(properties)@[r as int].either_or_data is None
                    &&& final(properties)@[r as int].value_data == Some(ValuePropertyData {
                        property_value_kind: Some(kind_name),
                        setting_bp: None,
                        name_coincides_with_kind: false,
                        as_condition_of_subject: None,
                        relation_whose_state_this_stores: None,
                    })
                },
            },
    {
        if let Some(idx) = find_property(name, properties) {
            if let Some(vd) = properties[idx].value_data {
                if vd.property_value_kind.is_none() {
                    properties[idx].value_data = Some(ValuePropertyData { property_value_kind: Some(kind_name), ..vd });
                }
            }
            return idx;
        }
        let idx = Properties::obtain(name, true, properties);
        let vd = properties[idx].value_data.unwrap();
        properties[idx].value_data = Some(ValuePropertyData { property_value_kind: Some(kind_name), ..vd });
        idx
    }

    /// Whether a kind's name may coincide with a property's name: every kind may.
    pub fn can_name_coincide_with_kind(kind_name: &str) -> (r: bool)
        ensures
            r,
    {
        true
    }

    /// Assert a value of a property of a subject: no assertion is made, and
    /// the result is always false.
    pub fn assert_that(prn_idx: usize, owner_idx: usize, val: &str, certainty: i32) -> (r: bool)
        ensures
            !r,
    {
        false
    }

    /// Make the name of the valued property at `prn_idx` coincide with the
    /// kind named `kind_name`: the property holds values of that kind, is
    /// marked as coinciding, and the first instance with the kind's name is
    /// marked as coinciding too.
    pub fn make_coincide_with_kind(
        prn_idx: usize,
        kind_name: &'static str,
        properties: &mut Vec<Property>,
        instances: &mut Vec<Instance>,
    )
        requires
            is_valued(old(properties)@, prn_idx),
        ensures
            final(properties)@ == old(properties)@.update(prn_idx as int,
                with_value_data(old(properties)@[prn_idx as int],
                    ValuePropertyData {
                        property_value_kind: Some(kind_name),
                        name_coincides_with_kind: true,
                        ..value_data_of(old(properties)@, prn_idx)
                    })),
            final(instances)@ == match first_where(old(instances)@, instance_named(kind_name@)) {
                Some(i) => old(instances)@.update(i, Instance { kind_coincident: true, ..old(instances)@[i] }),
                None => old(instances)@,
            },
    {
        ValueProperties::set_kind(prn_idx, kind_name, properties);
        let vd = properties[prn_idx].value_data.unwrap();
        properties[prn_idx].value_data = Some(ValuePropertyData { name_coincides_with_kind: true, ..vd });
        Instances::make_kind_coincident(kind_name, prn_idx, instances);
    }

    /// Give the valued property at `prn_idx` its setting relation: the
    /// relation already made for its name (`property_name`), or a new one;
    /// the relation and its reversal are fixed against the properties, and
    /// the property records the relation.
    pub fn make_setting_bp(
        prn_idx: usize,
        property_name: &str,
        bp_registry: &mut Vec<BinaryPredicate>,
        properties: &mut Vec<Property>,
    )
        requires
            is_valued(old(properties)@, prn_idx),
            first_where(old(bp_registry)@, pending_setter(property_name@)) matches Some(i) ==> (
                old(bp_registry)@[i].reversal matches Some(rv) ==> {
                    &&& rv < old(bp_registry)@.len()
                    &&& !old(bp_registry)@[rv as int].right_way_round ==>
                        (old(bp_registry)@[rv as int].reversal matches Some(q) ==> q < old(bp_registry)@.len())
                }),
        ensures
            final(properties)@ == old(properties)@.update(prn_idx as int,
                with_value_data(old(properties)@[prn_idx as int], ValuePropertyData {
                    setting_bp: Some(setting_slot(old(bp_registry)@, property_name@) as usize),
                    ..value_data_of(old(properties)@, prn_idx)
                })),
            exists|made: Seq<BinaryPredicate>, fixed: Seq<BinaryPredicate>| {
                &&& (first_where(old(bp_registry)@, pending_setter(property_name@)) is Some ==> made == old(bp_registry)@)
                &&& (first_where(old(bp_registry)@, pending_setter(property_name@)) is None ==> {
                    &&& made.len() == old(bp_registry)@.len() + 2
                    &&& made.take(old(bp_registry)@.len() as int) == old(bp_registry)@
                    &&& setting_pair(made, setting_slot(old(bp_registry)@, property_name@), pending_tag(property_name@))
                })
                &&& #[trigger] fix_step(made, fixed, setting_slot(old(bp_registry)@, property_name@), old(properties)@)
                &&& match fixed[setting_slot(old(bp_registry)@, property_name@)].reversal {
                    Some(rv) => fix_step(fixed, final(bp_registry)@, rv as int, old(properties)@),
                    None => final(bp_registry)@ == fixed,
                }
            },
    {
        let bp_idx = match SettingPropertyRelations::find_set_property_BP(property_name, bp_registry) {
            Some(i) => i,
            None => SettingPropertyRelations::make_set_property_BP(property_name, bp_registry),
        };
        proof {
            crate::search::lemma_first_where(old(bp_registry)@, pending_setter(property_name@));
        }
        let ghost made = bp_registry@;
        SettingPropertyRelations::fix_property_bp(bp_idx, bp_registry, properties);
        let ghost fixed = bp_registry@;
        if let Some(rev_idx) = bp_registry[bp_idx].reversal {
            SettingPropertyRelations::fix_property_bp(rev_idx, bp_registry, properties);
        }
        let vd = properties[prn_idx].value_data.unwrap();
        properties[prn_idx].value_data = Some(ValuePropertyData { setting_bp: Some(bp_idx), ..vd });
        proof {
            let bi = bp_idx as int;
            assert(exists|m: Seq<BinaryPredicate>, f: Seq<BinaryPredicate>| {
                &&& (first_where(old(bp_registry)@, pending_setter(property_name@)) is Some ==> m == old(bp_registry)@)
                &&& (first_where(old(bp_registry)@, pending_setter(property_name@)) is None ==> {
                    &&& m.len() == old(bp_registry)@.len() + 2
                    &&& m.take(old(bp_registry)@.len() as int) == old(bp_registry)@
                    &&& setting_pair(m, bi, pending_tag(property_name@))
                })
                &&& #[trigger] fix_step(m, f, bi, old(properties)@)
                &&& match f[bi].reversal {
                    Some(rv) => fix_step(f, bp_registry@, rv as int, old(properties)@),
                    None => bp_registry@ == f,
                }
            });
            assert(properties@ == old(properties)@.update(prn_idx as int,
                with_value_data(old(properties)@[prn_idx as int],
                    ValuePropertyData { setting_bp: Some(bp_idx), ..value_data_of(old(properties)@, prn_idx) })));
        }
    }
}

} // verus!
