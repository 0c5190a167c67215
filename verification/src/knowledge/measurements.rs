//! Measurement definitions: adjectives that compare a property's value with
//! a threshold, as in "a container is roomy if its carrying capacity is 10
//! or more".
use vstd::prelude::*;
use vstd::string::StringExecFns;
use crate::text::{owned_text, parsed_i32, parse_i32};
use crate::search::first_where;
use crate::knowledge::properties::{Property, find_property, property_named};

verus! {

/// Region shape: the value is the threshold or less.
pub const MEASURE_T_OR_LESS: i32 = -1;
/// Region shape: the value is exactly the threshold.
pub const MEASURE_T_EXACTLY: i32 = 0;
/// Region shape: the value is the threshold or more.
pub const MEASURE_T_OR_MORE: i32 = 1;

/// A measurement definition: an adjective comparing a property's value with
/// a threshold.
#[derive(Clone, Debug)]
pub struct MeasurementDefinition {
    /// The adjective being defined.
    pub headword: String,
    /// The adjective meaning made for it, once made.
    pub headword_as_adjective: Option<usize>,
    /// The superlative form, once made.
    pub superlative: Option<String>,
    /// The index of the property compared, once known.
    pub prop: Option<usize>,
    /// The name of the property to compare, before it is resolved.
    pub name_of_property_to_compare: Option<String>,
    /// The shape of the region: or less, exactly, or or more.
    pub region_shape: i32,
    /// The threshold, once evaluated.
    pub region_threshold: i32,
    /// The kind of the threshold, if known.
    pub region_kind: Option<usize>,
    /// Whether the threshold has been evaluated.
    pub region_threshold_evaluated: bool,
    /// The text of the threshold ("10").
    pub region_threshold_text: Option<String>,
}

/// A fresh definition for a headword: exactly-shaped, with nothing resolved.
pub open spec fn fresh_definition(d: MeasurementDefinition, headword: Seq<char>) -> bool {
    &&& d.headword@ == headword
    &&& d.headword_as_adjective is None
    &&& d.superlative is None
    &&& d.prop is None
    &&& d.name_of_property_to_compare is None
    &&& d.region_shape == MEASURE_T_EXACTLY
    &&& d.region_threshold == 0
    &&& d.region_kind is None
    &&& !d.region_threshold_evaluated
    &&& d.region_threshold_text is None
}

impl MeasurementDefinition {
    /// A fresh definition for a headword: exactly-shaped, with nothing resolved.
    pub fn new(headword: &str) -> (d: Self)
        ensures
            fresh_definition(d, headword@),
    {
        MeasurementDefinition {
            headword: String::from_str(headword),
            headword_as_adjective: None,
            superlative: None,
            prop: None,
            name_of_property_to_compare: None,
            region_shape: MEASURE_T_EXACTLY,
            region_threshold: 0,
            region_kind: None,
            region_threshold_evaluated: false,
            region_threshold_text: None,
        }
    }
}

/// Operations on measurement definitions.
pub struct Measurements;

/// A definition once validated against the properties: a missing property
/// is filled in from the property name (the first property with that
/// name), and an unevaluated threshold from its text, when the text is a
/// decimal `i32`.
pub open spec fn validated_def(d: MeasurementDefinition, props: Seq<Property>) -> MeasurementDefinition {
    let prop = if d.prop is None {
        match owned_text(d.name_of_property_to_compare) {
            Some(n) => match first_where(props, property_named(n)) {
                Some(i) => Some(i as usize),
                None => None,
            },
            None => None,
        }
    } else {
        d.prop
    };
    let parsed = if !d.region_threshold_evaluated {
        match owned_text(d.region_threshold_text) {
            Some(t) => parsed_i32(t),
            None => None,
        }
    } else {
        None
    };
    match parsed {
        Some(v) => MeasurementDefinition { prop, region_threshold: v, region_threshold_evaluated: true, ..d },
        None => MeasurementDefinition { prop, ..d },
    }
}

/// A definition is valid once its property and threshold are known.
pub open spec fn is_valid_def(d: MeasurementDefinition) -> bool {
    d.prop is Some && d.region_threshold_evaluated
}

/// Definitions that, once validated, compare the property `prn` with a region of the given shape.
pub open spec fn retrieval_match(prn: usize, shape: i32, props: Seq<Property>) -> spec_fn(MeasurementDefinition) -> bool {
    |d: MeasurementDefinition| {
        let v = validated_def(d, props);
        is_valid_def(v) && v.prop == Some(prn) && v.region_shape == shape
    }
}

impl Measurements {
    /// Add a new definition for a headword, comparing the property `prop`
    /// (if known) over a region of the given shape whose threshold has the
    /// given text; return its index.
    pub fn new(
        headword: &str,
        prop: Option<usize>,
        shape: i32,
        threshold_text: Option<&str>,
        definitions: &mut Vec<MeasurementDefinition>,
    ) -> (r: usize)
        ensures
            r == old(definitions)@.len(),
            final(definitions)@.len() == old(definitions)@.len() + 1,
            final(definitions)@.take(r as int) == old(definitions)@,
            ({
                let d = final(definitions)@[r as int];
                &&& d.headword@ == headword@
                &&& d.headword_as_adjective is None
                &&& d.superlative is None
                &&& d.prop == prop
                &&& d.name_of_property_to_compare is None
                &&& d.region_shape == shape
                &&& d.region_threshold == 0
                &&& d.region_kind is None
                &&& !d.region_threshold_evaluated
                &&& owned_text(d.region_threshold_text) == match threshold_text {
                    Some(t) => Some(t@),
                    None => None,
                }
            }),
    {
        let idx = definitions.len();
        let mut mdef = MeasurementDefinition::new(headword);
        mdef.prop = prop;
        mdef.region_shape = shape;
        mdef.region_threshold_text = match threshold_text {
            Some(t) => Some(String::from_str(t)),
            None => None,
        };
        definitions.push(mdef);
        proof {
            assert(definitions@.take(idx as int) =~= old(definitions)@);
        }
        idx
    }

    /// Validate the definition at `mdef_idx` (see `validated_def`); an index
    /// outside the definitions changes nothing.
    pub fn validate(mdef_idx: usize, definitions: &mut Vec<MeasurementDefinition>, properties: &[Property])
        ensures
            final(definitions)@ == if mdef_idx < old(definitions)@.len() {
                old(definitions)@.update(mdef_idx as int, validated_def(old(definitions)@[mdef_idx as int], properties@))
            } else {
                old(definitions)@
            },
    {
        if mdef_idx >= definitions.len() {
            return;
        }
        if definitions[mdef_idx].prop.is_none() {
            let found = match &definitions[mdef_idx].name_of_property_to_compare {
                Some(name) => find_property(name.as_str(), properties),
                None => None,
            };
            if let Some(i) = found {
                definitions[mdef_idx].prop = Some(i);
            }
        }
        if !definitions[mdef_idx].region_threshold_evaluated {
            let parsed = match &definitions[mdef_idx].region_threshold_text {
                Some(t) => parse_i32(t.as_str()),
                None => None,
            };
            if let Some(v) = parsed {
                definitions[mdef_idx].region_threshold = v;
                definitions[mdef_idx].region_threshold_evaluated = true;
            }
        }
        proof {
            assert(definitions@ =~= old(definitions)@.update(mdef_idx as int, validated_def(old(definitions)@[mdef_idx as int], properties@)));
        }
    }

    /// Whether the definition at `mdef_idx` exists and has its property and
    /// threshold resolved.
    pub fn is_valid(mdef_idx: usize, definitions: &[MeasurementDefinition]) -> (r: bool)
        ensures
            r == (mdef_idx < definitions@.len() && is_valid_def(definitions@[mdef_idx as int])),
    {
        mdef_idx < definitions.len() && definitions[mdef_idx].prop.is_some()
            && definitions[mdef_idx].region_threshold_evaluated
    }

    /// The property and region shape of the definition at `mdef_idx`;
    /// `(None, MEASURE_T_EXACTLY)` for an index outside the definitions.
    pub fn read_property_details(mdef_idx: usize, definitions: &[MeasurementDefinition]) -> (r: (Option<usize>, i32))
        ensures
            r == if mdef_idx < definitions@.len() {
                (definitions@[mdef_idx as int].prop, definitions@[mdef_idx as int].region_shape)
            } else {
                (None, MEASURE_T_EXACTLY)
            },
    {
        if mdef_idx < definitions.len() {
            (definitions[mdef_idx].prop, definitions[mdef_idx].region_shape)
        } else {
            (None, MEASURE_T_EXACTLY)
        }
    }

    /// Validate the definitions in turn until one, once validated, compares
    /// the property `prn_idx` over a region of the given shape; return its
    /// index. The definitions after it are left as they were.
    pub fn retrieve(
        prn_idx: usize,
        shape: i32,
        definitions: &mut Vec<MeasurementDefinition>,
        properties: &[Property],
    ) -> (r: Option<usize>)
        ensures
            match r {
                Some(i) => first_where(old(definitions)@, retrieval_match(prn_idx, shape, properties@)) == Some(i as int),
                None => first_where(old(definitions)@, retrieval_match(prn_idx, shape, properties@)) is None,
            },
            final(definitions)@.len() == old(definitions)@.len(),
            forall|j: int| 0 <= j < old(definitions)@.len() ==> #[trigger] final(definitions)@[j] == if (r matches Some(k) && j > k) {
                old(definitions)@[j]
            } else {
                validated_def(old(definitions)@[j], properties@)
            },
    {
        let ghost d0 = definitions@;
        let ghost p = retrieval_match(prn_idx, shape, properties@);
        let n = definitions.len();
        let mut i: usize = 0;
        while i < n
            invariant
                n == d0.len(),
                d0 == old(definitions)@,
                definitions@.len() == n,
                0 <= i <= n,
                p == retrieval_match(prn_idx, shape, properties@),
                forall|j: int| 0 <= j < i ==> !p(d0[j]),
                forall|j: int| 0 <= j < n ==> #[trigger] definitions@[j] == if j < i {
                    validated_def(d0[j], properties@)
                } else {
                    d0[j]
                },
            decreases n - i,
        {
            Measurements::validate(i, definitions, properties);
            if Measurements::is_valid(i, definitions) && definitions[i].prop == Some(prn_idx)
                && definitions[i].region_shape == shape {
                proof {
                    crate::search::lemma_first_is(d0, p, i as int);
                }
                return Some(i);
            }
            i += 1;
        }
        proof {
            crate::search::lemma_first_where(d0, p);
        }
        None
    }

    /// The comparison a region shape makes, weakly: ">=", "==" or "<=".
    pub fn weak_comparison_bp(shape: i32) -> (r: &'static str)
        requires
            shape == MEASURE_T_OR_MORE || shape == MEASURE_T_EXACTLY || shape == MEASURE_T_OR_LESS,
        ensures
            r@ == if shape == MEASURE_T_OR_MORE { ">="@ } else if shape == MEASURE_T_EXACTLY { "=="@ } else { "<="@ },
    {
        proof {
            reveal_strlit(">=");
            reveal_strlit("==");
            reveal_strlit("<=");
        }
        if shape == MEASURE_T_OR_MORE {
            ">="
        } else if shape == MEASURE_T_EXACTLY {
            "=="
        } else {
            "<="
        }
    }

    /// The comparison a region shape makes, strictly: ">" or "<".
    pub fn strict_comparison(shape: i32) -> (r: &'static str)
        requires
            shape == MEASURE_T_OR_MORE || shape == MEASURE_T_OR_LESS,
        ensures
            r@ == if shape == MEASURE_T_OR_MORE { ">"@ } else { "<"@ },
    {
        proof {
            reveal_strlit(">");
            reveal_strlit("<");
        }
        if shape == MEASURE_T_OR_MORE {
            ">"
        } else {
            "<"
        }
    }

    /// Validate every definition.
    pub fn validate_definitions(definitions: &mut Vec<MeasurementDefinition>, properties: &[Property])
        ensures
            final(definitions)@.len() == old(definitions)@.len(),
            forall|j: int| 0 <= j < old(definitions)@.len() ==>
                #[trigger] final(definitions)@[j] == validated_def(old(definitions)@[j], properties@),
    {
        let ghost d0 = definitions@;
        let n = definitions.len();
        let mut i: usize = 0;
        while i < n
            invariant
                n == d0.len(),
                d0 == old(definitions)@,
                definitions@.len() == n,
                0 <= i <= n,
                forall|j: int| 0 <= j < n ==> #[trigger] definitions@[j] == if j < i {
                    validated_def(d0[j], properties@)
                } else {
                    d0[j]
                },
            decreases n - i,
        {
            Measurements::validate(i, definitions, properties);
            i += 1;
        }
    }

    /// Make the comparative forms of the definitions: none are made.
    pub fn create_comparatives(definitions: &[MeasurementDefinition], properties: &[Property]) {
    }
}

} // verus!
