//! The lattice of kinds: the kind directly above a kind, and the join
//! (least upper bound) and meet (greatest lower bound) of two kinds.
use vstd::prelude::*;
use crate::kinds::{
    Kind, KindConstructor, KindShape, shape, base_shape, same_kind, conforms, super_constructor, super_con, depth,
    lemma_super_shallower, well_formed, lemma_args_well_formed, lemma_args_conform, lemma_same_kind_refl,
    lemma_same_kind_sym, lemma_same_kind_trans, lemma_base_conforms_congruent, lemma_same_kind_well_formed, lemma_args_all_well_formed, lemma_conforms_right, lemma_conforms_left, lemma_conforms_refl,
    lemma_base_shape_conforms, base_conforms, args_conform, copy_of, same_con, same_constructor, is_nil, lemma_familiar_names,
};

verus! {

/// A measure of a kind: its depth in the hierarchy, plus one, plus the
/// measures of its arguments.
pub open spec fn rank(x: KindShape) -> nat
    decreases x.2, 1nat,
{
    depth(x.0) + 1 + args_rank(x.2)
}

/// The sum of the measures of argument kinds.
pub open spec fn args_rank(a: Seq<Kind>) -> nat
    decreases a, 0nat,
{
    if a.len() == 0 {
        0
    } else {
        rank(shape(a.last())) + args_rank(a.drop_last())
    }
}

/// An argument measures less than the kind it belongs to.
pub proof fn lemma_arg_rank(a: Seq<Kind>, i: int)
    requires
        0 <= i < a.len(),
    ensures
        rank(shape(a[i])) <= args_rank(a),
    decreases a.len(),
{
    if i < a.len() - 1 {
        lemma_arg_rank(a.drop_last(), i);
        assert(a.drop_last()[i] == a[i]);
    }
}

/// The number of argument positions a kind fills: its arguments, up to
/// the arity of its constructor.
pub open spec fn filled(x: KindShape) -> nat {
    if x.2.len() < x.0.arity { x.2.len() } else { x.0.arity as nat }
}

/// Two kinds made by the same constructor, which takes arguments, filling
/// the same argument positions: their join and meet are taken argument by
/// argument.
pub open spec fn args_case(x: KindShape, y: KindShape) -> bool {
    &&& x.0.arity > 0
    &&& x.0.arity == y.0.arity
    &&& same_con(x.0, y.0)
    &&& filled(x) == filled(y)
}

/// Whether two kinds have a join.
pub open spec fn join_some(x: KindShape, y: KindShape) -> bool
    decreases rank(x) + rank(y), x.0.arity as int + 1,
{
    if same_kind(x, y) || conforms(x, y) || conforms(y, x) {
        true
    } else if args_case(x, y) && all_join_from(x, y, 0) {
        true
    } else {
        proof {
            lemma_super_shallower(x.0);
            lemma_super_shallower(y.0);
        }
        ||| (match super_constructor(x.0) {
            Some(s) => join_some(base_shape(s), y),
            None => false,
        })
        ||| (match super_constructor(y.0) {
            Some(s) => join_some(x, base_shape(s)),
            None => false,
        })
    }
}

/// Whether the arguments of two kinds have joins, from position `i` on.
pub open spec fn all_join_from(x: KindShape, y: KindShape, i: nat) -> bool
    decreases rank(x) + rank(y), filled(x) - i,
{
    if i >= filled(x) || i >= y.2.len() {
        true
    } else {
        proof {
            lemma_arg_rank(x.2, i as int);
            lemma_arg_rank(y.2, i as int);
        }
        join_some(shape(x.2[i as int]), shape(y.2[i as int])) && all_join_from(x, y, i + 1)
    }
}

/// `r` is the join of two kinds: the kind itself, when they are the same;
/// the more general, when one conforms to the other; for kinds made by the
/// same constructor, the constructor applied to the joins of the
/// arguments, when they all have one; else the join of the kind above the
/// first with the second, or of the first with the kind above the second;
/// and none when none of these has a join.
pub open spec fn joined(x: KindShape, y: KindShape, r: Option<Kind>) -> bool
    decreases rank(x) + rank(y), x.0.arity as int + 1,
{
    if same_kind(x, y) {
        r matches Some(j) && j.construct == x.0 && same_kind(shape(j), x)
    } else if conforms(x, y) {
        r matches Some(j) && j.construct == y.0 && same_kind(shape(j), y)
    } else if conforms(y, x) {
        r matches Some(j) && j.construct == x.0 && same_kind(shape(j), x)
    } else if args_case(x, y) && all_join_from(x, y, 0) {
        r matches Some(j) && {
            &&& j.construct == x.0
            &&& j.kind_variable_number == 0
            &&& j.construct_id == usize::MAX
            &&& j.kc_args@.len() == filled(x)
            &&& joined_from(x, y, j.kc_args@, 0)
        }
    } else {
        proof {
            lemma_super_shallower(x.0);
            lemma_super_shallower(y.0);
        }
        let up_x = match super_constructor(x.0) {
            Some(s) => join_some(base_shape(s), y),
            None => false,
        };
        let up_y = match super_constructor(y.0) {
            Some(s) => join_some(x, base_shape(s)),
            None => false,
        };
        if up_x {
            joined(base_shape(super_constructor(x.0).unwrap()), y, r)
        } else if up_y {
            joined(x, base_shape(super_constructor(y.0).unwrap()), r)
        } else {
            r is None
        }
    }
}

/// Each of `js`, from position `i` on, is the join of the arguments of two
/// kinds at that position.
pub open spec fn joined_from(x: KindShape, y: KindShape, js: Seq<Kind>, i: nat) -> bool
    decreases rank(x) + rank(y), filled(x) - i,
{
    if i >= filled(x) || i >= y.2.len() || i >= js.len() {
        true
    } else {
        proof {
            lemma_arg_rank(x.2, i as int);
            lemma_arg_rank(y.2, i as int);
        }
        joined(shape(x.2[i as int]), shape(y.2[i as int]), Some(js[i as int])) && joined_from(x, y, js, i + 1)
    }
}

/// The kind directly above a kind in the hierarchy (see `super_constructor`),
/// made without arguments.
pub fn superkind(k: &Kind) -> (r: Option<Kind>)
    ensures
        match super_constructor(k.construct) {
            Some(c) => r matches Some(s) && {
                &&& s.construct == c
                &&& s.kind_variable_number == 0
                &&& s.kc_args@.len() == 0
                &&& s.construct_id == usize::MAX
            },
            None => r is None,
        },
{
    match super_con(&k.construct) {
        Some(c) => Some(Kind::base_construction(&c)),
        None => None,
    }
}

/// Whether the arguments have joins from position `i` on, position by position.
proof fn lemma_all_join_from(x: KindShape, y: KindShape, i: nat)
    requires
        i <= filled(x),
        filled(x) <= y.2.len(),
    ensures
        all_join_from(x, y, i) <==> forall|j: int| i <= j < filled(x) ==>
            join_some(shape(#[trigger] x.2[j]), shape(y.2[j])),
    decreases filled(x) - i,
{
    if i < filled(x) {
        lemma_all_join_from(x, y, i + 1);
    }
}

/// Whether `js` holds the joins of the arguments from position `i` on, position by position.
proof fn lemma_joined_from(x: KindShape, y: KindShape, js: Seq<Kind>, i: nat)
    requires
        i <= filled(x),
        filled(x) <= y.2.len(),
        js.len() == filled(x),
    ensures
        joined_from(x, y, js, i) <==> forall|j: int| i <= j < filled(x) ==>
            joined(shape(#[trigger] x.2[j]), shape(y.2[j]), Some(js[j])),
    decreases filled(x) - i,
{
    if i < filled(x) {
        lemma_joined_from(x, y, js, i + 1);
    }
}

/// The joins of the arguments of two kinds made by the same constructor,
/// position by position, when the kinds fill the same positions and every
/// pair of arguments has a join.
fn join_args(k1: &Kind, k2: &Kind) -> (r: Option<Vec<Kind>>)
    requires
        k1.construct.arity > 0,
        k1.construct.arity == k2.construct.arity,
    ensures
        (r is Some) == (filled(shape(*k1)) == filled(shape(*k2)) && all_join_from(shape(*k1), shape(*k2), 0)),
        r matches Some(v) ==> v@.len() == filled(shape(*k1)) && joined_from(shape(*k1), shape(*k2), v@, 0),
    decreases rank(shape(*k1)) + rank(shape(*k2)), k1.construct.arity as int,
{
    let ghost x = shape(*k1);
    let ghost y = shape(*k2);
    let arity = k1.construct.arity as usize;
    let n1 = k1.kc_args.len();
    let n2 = k2.kc_args.len();
    let mut args: Vec<Kind> = Vec::new();
    let mut i: usize = 0;
    while i < arity
        invariant
            x == shape(*k1),
            y == shape(*k2),
            arity == k1.construct.arity,
            arity == k2.construct.arity,
            n1 == k1.kc_args@.len(),
            n2 == k2.kc_args@.len(),
            0 <= i <= arity,
            (if i < n1 { i } else { n1 }) == (if i < n2 { i } else { n2 }),
            args@.len() == if i < n1 { i as nat } else { n1 as nat },
            forall|j: int| 0 <= j < args@.len() ==> join_some(shape(#[trigger] x.2[j]), shape(y.2[j])),
            forall|j: int| 0 <= j < args@.len() ==> joined(shape(#[trigger] x.2[j]), shape(y.2[j]), Some(args@[j])),
        decreases arity - i,
    {
        if i < n1 && i < n2 {
            proof {
                lemma_arg_rank(x.2, i as int);
                lemma_arg_rank(y.2, i as int);
            }
            match join(&k1.kc_args[i], &k2.kc_args[i]) {
                Some(j) => {
                    args.push(j);
                },
                None => {
                    proof {
                        assert(filled(x) == filled(y) ==> !all_join_from(x, y, 0)) by {
                            if filled(x) == filled(y) {
                                lemma_all_join_from(x, y, 0);
                            }
                        }
                    }
                    return None;
                },
            }
        } else if i < n1 || i < n2 {
            proof {
                assert(filled(x) != filled(y));
            }
            return None;
        }
        i += 1;
    }
    proof {
        assert(filled(x) == filled(y));
        lemma_all_join_from(x, y, 0);
        lemma_joined_from(x, y, args@, 0);
    }
    Some(args)
}

/// In the cases where the join is one of the two kinds, it is a copy of
/// that kind: of the first when they are the same kind or the second
/// conforms to the first, of the second when the first conforms to it.
pub open spec fn join_copies(k1: Kind, k2: Kind, r: Option<Kind>) -> bool {
    let (x, y) = (shape(k1), shape(k2));
    if same_kind(x, y) {
        r matches Some(j) && copy_of(j, k1)
    } else if conforms(x, y) {
        r matches Some(j) && copy_of(j, k2)
    } else if conforms(y, x) {
        r matches Some(j) && copy_of(j, k1)
    } else {
        true
    }
}

/// In the cases where the meet is one of the two kinds, it is a copy of
/// that kind: of the first when they are the same kind or the first
/// conforms to the second, of the second when the second conforms to it.
pub open spec fn meet_copies(k1: Kind, k2: Kind, r: Option<Kind>) -> bool {
    let (x, y) = (shape(k1), shape(k2));
    if same_kind(x, y) || conforms(x, y) {
        r matches Some(m) && copy_of(m, k1)
    } else if conforms(y, x) {
        r matches Some(m) && copy_of(m, k2)
    } else {
        true
    }
}

/// The join of two kinds (see `joined`), and whether there is one (see `join_some`).
pub fn join(k1: &Kind, k2: &Kind) -> (r: Option<Kind>)
    ensures
        joined(shape(*k1), shape(*k2), r),
        (r is Some) == join_some(shape(*k1), shape(*k2)),
        join_copies(*k1, *k2, r),
    decreases rank(shape(*k1)) + rank(shape(*k2)), k1.construct.arity as int + 1,
{
    let ghost x = shape(*k1);
    let ghost y = shape(*k2);
    if k1.eq(k2) {
        return Some(k1.duplicate());
    }
    if k1.conforms_to(k2) {
        return Some(k2.duplicate());
    }
    if k2.conforms_to(k1) {
        return Some(k1.duplicate());
    }
    if k1.arity() > 0 && k1.arity() == k2.arity() && same_constructor(&k1.construct, &k2.construct) {
        if let Some(args) = join_args(k1, k2) {
            return Some(Kind { construct: k1.construct, kind_variable_number: 0, kc_args: args, construct_id: usize::MAX });
        }
    }
    proof {
        lemma_super_shallower(x.0);
        lemma_super_shallower(y.0);
    }
    if let Some(super_k) = superkind(k1) {
        proof {
            assert(shape(super_k) == base_shape(super_constructor(x.0).unwrap()));
        }
        if let Some(j) = join(&super_k, k2) {
            return Some(j);
        }
    }
    if let Some(super_k) = superkind(k2) {
        proof {
            assert(shape(super_k) == base_shape(super_constructor(y.0).unwrap()));
        }
        if let Some(j) = join(k1, &super_k) {
            return Some(j);
        }
    }
    None
}

/// Whether two kinds have a meet.
pub open spec fn meet_some(x: KindShape, y: KindShape) -> bool
    decreases rank(x) + rank(y), x.0.arity as int + 1,
{
    ||| same_kind(x, y)
    ||| conforms(x, y)
    ||| conforms(y, x)
    ||| (args_case(x, y) && all_meet_from(x, y, 0))
}

/// Whether the arguments of two kinds have meets, from position `i` on.
pub open spec fn all_meet_from(x: KindShape, y: KindShape, i: nat) -> bool
    decreases rank(x) + rank(y), filled(x) - i,
{
    if i >= filled(x) || i >= y.2.len() {
        true
    } else {
        proof {
            lemma_arg_rank(x.2, i as int);
            lemma_arg_rank(y.2, i as int);
        }
        meet_some(shape(x.2[i as int]), shape(y.2[i as int])) && all_meet_from(x, y, i + 1)
    }
}

/// `r` is the meet of two kinds: the kind itself, when they are the same;
/// the more specific, when one conforms to the other; for kinds made by the
/// same constructor, the constructor applied to the meets of the
/// arguments, when they all have one; and none otherwise.
pub open spec fn met(x: KindShape, y: KindShape, r: Option<Kind>) -> bool
    decreases rank(x) + rank(y), x.0.arity as int + 1,
{
    if same_kind(x, y) {
        r matches Some(m) && m.construct == x.0 && same_kind(shape(m), x)
    } else if conforms(x, y) {
        r matches Some(m) && m.construct == x.0 && same_kind(shape(m), x)
    } else if conforms(y, x) {
        r matches Some(m) && m.construct == y.0 && same_kind(shape(m), y)
    } else if args_case(x, y) && all_meet_from(x, y, 0) {
        r matches Some(m) && {
            &&& m.construct == x.0
            &&& m.kind_variable_number == 0
            &&& m.construct_id == usize::MAX
            &&& m.kc_args@.len() == filled(x)
            &&& met_from(x, y, m.kc_args@, 0)
        }
    } else {
        r is None
    }
}

/// Each of `ms`, from position `i` on, is the meet of the arguments of two
/// kinds at that position.
pub open spec fn met_from(x: KindShape, y: KindShape, ms: Seq<Kind>, i: nat) -> bool
    decreases rank(x) + rank(y), filled(x) - i,
{
    if i >= filled(x) || i >= y.2.len() || i >= ms.len() {
        true
    } else {
        proof {
            lemma_arg_rank(x.2, i as int);
            lemma_arg_rank(y.2, i as int);
        }
        met(shape(x.2[i as int]), shape(y.2[i as int]), Some(ms[i as int])) && met_from(x, y, ms, i + 1)
    }
}

/// Whether the arguments have meets from position `i` on, position by position.
proof fn lemma_all_meet_from(x: KindShape, y: KindShape, i: nat)
    requires
        i <= filled(x),
        filled(x) <= y.2.len(),
    ensures
        all_meet_from(x, y, i) <==> forall|j: int| i <= j < filled(x) ==>
            meet_some(shape(#[trigger] x.2[j]), shape(y.2[j])),
    decreases filled(x) - i,
{
    if i < filled(x) {
        lemma_all_meet_from(x, y, i + 1);
    }
}

/// Whether `ms` holds the meets of the arguments from position `i` on, position by position.
proof fn lemma_met_from(x: KindShape, y: KindShape, ms: Seq<Kind>, i: nat)
    requires
        i <= filled(x),
        filled(x) <= y.2.len(),
        ms.len() == filled(x),
    ensures
        met_from(x, y, ms, i) <==> forall|j: int| i <= j < filled(x) ==>
            met(shape(#[trigger] x.2[j]), shape(y.2[j]), Some(ms[j])),
    decreases filled(x) - i,
{
    if i < filled(x) {
        lemma_met_from(x, y, ms, i + 1);
    }
}

/// The meets of the arguments of two kinds made by the same constructor,
/// position by position, when the kinds fill the same positions and every
/// pair of arguments has a meet.
fn meet_args(k1: &Kind, k2: &Kind) -> (r: Option<Vec<Kind>>)
    requires
        k1.construct.arity > 0,
        k1.construct.arity == k2.construct.arity,
    ensures
        (r is Some) == (filled(shape(*k1)) == filled(shape(*k2)) && all_meet_from(shape(*k1), shape(*k2), 0)),
        r matches Some(v) ==> v@.len() == filled(shape(*k1)) && met_from(shape(*k1), shape(*k2), v@, 0),
    decreases rank(shape(*k1)) + rank(shape(*k2)), k1.construct.arity as int,
{
    let ghost x = shape(*k1);
    let ghost y = shape(*k2);
    let arity = k1.construct.arity as usize;
    let n1 = k1.kc_args.len();
    let n2 = k2.kc_args.len();
    let mut args: Vec<Kind> = Vec::new();
    let mut i: usize = 0;
    while i < arity
        invariant
            x == shape(*k1),
            y == shape(*k2),
            arity == k1.construct.arity,
            arity == k2.construct.arity,
            n1 == k1.kc_args@.len(),
            n2 == k2.kc_args@.len(),
            0 <= i <= arity,
            (if i < n1 { i } else { n1 }) == (if i < n2 { i } else { n2 }),
            args@.len() == if i < n1 { i as nat } else { n1 as nat },
            forall|j: int| 0 <= j < args@.len() ==> meet_some(shape(#[trigger] x.2[j]), shape(y.2[j])),
            forall|j: int| 0 <= j < args@.len() ==> met(shape(#[trigger] x.2[j]), shape(y.2[j]), Some(args@[j])),
        decreases arity - i,
    {
        if i < n1 && i < n2 {
            proof {
                lemma_arg_rank(x.2, i as int);
                lemma_arg_rank(y.2, i as int);
            }
            match meet(&k1.kc_args[i], &k2.kc_args[i]) {
                Some(m) => {
                    args.push(m);
                },
                None => {
                    proof {
                        assert(filled(x) == filled(y) ==> !all_meet_from(x, y, 0)) by {
                            if filled(x) == filled(y) {
                                lemma_all_meet_from(x, y, 0);
                            }
                        }
                    }
                    return None;
                },
            }
        } else if i < n1 || i < n2 {
            proof {
                assert(filled(x) != filled(y));
            }
            return None;
        }
        i += 1;
    }
    proof {
        assert(filled(x) == filled(y));
        lemma_all_meet_from(x, y, 0);
        lemma_met_from(x, y, args@, 0);
    }
    Some(args)
}

/// The meet of two kinds (see `met`), and whether there is one (see `meet_some`).
pub fn meet(k1: &Kind, k2: &Kind) -> (r: Option<Kind>)
    ensures
        met(shape(*k1), shape(*k2), r),
        (r is Some) == meet_some(shape(*k1), shape(*k2)),
        meet_copies(*k1, *k2, r),
    decreases rank(shape(*k1)) + rank(shape(*k2)), k1.construct.arity as int + 1,
{
    if k1.eq(k2) {
        return Some(k1.duplicate());
    }
    if k1.conforms_to(k2) {
        return Some(k1.duplicate());
    }
    if k2.conforms_to(k1) {
        return Some(k2.duplicate());
    }
    if k1.arity() > 0 && k1.arity() == k2.arity() && same_constructor(&k1.construct, &k2.construct) {
        if let Some(args) = meet_args(k1, k2) {
            return Some(Kind { construct: k1.construct, kind_variable_number: 0, kc_args: args, construct_id: usize::MAX });
        }
    }
    None
}

/// The kind above a kind is made by a constructor taking no arguments.
proof fn lemma_super_is_base(c: KindConstructor)
    ensures
        super_constructor(c) matches Some(s) ==> s.arity == 0 && well_formed(base_shape(s)),
{
}

/// A kind conforms to the kind directly above it.
pub proof fn law_conforms_to_superkind(x: KindShape, s: KindConstructor)
    requires
        super_constructor(x.0) == Some(s),
    ensures
        conforms(x, base_shape(s)),
{
    lemma_conforms_refl(base_shape(s));
    lemma_base_shape_conforms(s, base_shape(s));
}

/// The join of two well-formed kinds is an upper bound of both: each
/// conforms to it.
pub proof fn law_join_upper_bound(x: KindShape, y: KindShape, r: Option<Kind>)
    requires
        well_formed(x),
        well_formed(y),
        joined(x, y, r),
        r is Some,
    ensures
        conforms(x, shape(r.unwrap())),
        conforms(y, shape(r.unwrap())),
    decreases rank(x) + rank(y), x.0.arity as int + 1,
{
    let j = shape(r.unwrap());
    lemma_super_shallower(x.0);
    lemma_super_shallower(y.0);
    if same_kind(x, y) {
        lemma_same_kind_sym(j, x);
        lemma_conforms_refl(x);
        lemma_conforms_right(x, x, j);
        lemma_same_kind_sym(x, y);
        lemma_same_kind_trans(y, x, j);
        lemma_conforms_refl(y);
        lemma_conforms_right(y, y, j);
    } else if conforms(x, y) {
        lemma_same_kind_sym(j, y);
        lemma_conforms_right(x, y, j);
        lemma_conforms_refl(y);
        lemma_conforms_right(y, y, j);
    } else if conforms(y, x) {
        lemma_same_kind_sym(j, x);
        lemma_conforms_right(y, x, j);
        lemma_conforms_refl(x);
        lemma_conforms_right(x, x, j);
    } else if args_case(x, y) && all_join_from(x, y, 0) {
        let js = j.2;
        crate::kinds::lemma_args_well_formed(x.2, 0);
        lemma_joined_from(x, y, js, 0);
        assert forall|i: int| 0 <= i < js.len() implies
            conforms(shape(x.2[i]), shape(#[trigger] js[i])) && conforms(shape(y.2[i]), shape(js[i])) by {
            lemma_args_well_formed(x.2, i);
            lemma_args_well_formed(y.2, i);
            lemma_arg_rank(x.2, i);
            lemma_arg_rank(y.2, i);
            law_join_upper_bound(shape(x.2[i]), shape(y.2[i]), Some(js[i]));
        }
        lemma_args_conform(x.2, js);
        lemma_args_conform(y.2, js);
    } else {
        let up_x = match super_constructor(x.0) {
            Some(s) => join_some(base_shape(s), y),
            None => false,
        };
        if up_x {
            let s = super_constructor(x.0).unwrap();
            lemma_super_is_base(x.0);
            law_join_upper_bound(base_shape(s), y, r);
            lemma_base_shape_conforms(s, j);
        } else {
            let s = super_constructor(y.0).unwrap();
            lemma_super_is_base(y.0);
            law_join_upper_bound(x, base_shape(s), r);
            lemma_base_shape_conforms(s, j);
        }
    }
}

/// The meet of two well-formed kinds is a lower bound of both: it conforms
/// to each.
pub proof fn law_meet_lower_bound(x: KindShape, y: KindShape, r: Option<Kind>)
    requires
        well_formed(x),
        well_formed(y),
        met(x, y, r),
        r is Some,
    ensures
        conforms(shape(r.unwrap()), x),
        conforms(shape(r.unwrap()), y),
    decreases rank(x) + rank(y), x.0.arity as int + 1,
{
    let m = shape(r.unwrap());
    if same_kind(x, y) {
        lemma_same_kind_sym(m, x);
        lemma_conforms_refl(x);
        lemma_conforms_left(x, m, x);
        lemma_conforms_right(x, x, y);
        lemma_conforms_left(x, m, y);
    } else if conforms(x, y) {
        lemma_same_kind_sym(m, x);
        lemma_conforms_refl(x);
        lemma_conforms_left(x, m, x);
        lemma_conforms_left(x, m, y);
    } else if conforms(y, x) {
        lemma_same_kind_sym(m, y);
        lemma_conforms_refl(y);
        lemma_conforms_left(y, m, y);
        lemma_conforms_left(y, m, x);
    } else {
        let ms = m.2;
        lemma_met_from(x, y, ms, 0);
        assert forall|i: int| 0 <= i < ms.len() implies
            conforms(shape(#[trigger] ms[i]), shape(x.2[i])) && conforms(shape(ms[i]), shape(y.2[i])) by {
            lemma_args_well_formed(x.2, i);
            lemma_args_well_formed(y.2, i);
            lemma_arg_rank(x.2, i);
            lemma_arg_rank(y.2, i);
            law_meet_lower_bound(shape(x.2[i]), shape(y.2[i]), Some(ms[i]));
        }
        lemma_args_conform(ms, x.2);
        lemma_args_conform(ms, y.2);
    }
}


/// A constructor in the hierarchy (not nil) conforms to no kind with
/// arguments.
proof fn lemma_base_conforms_no_args(c: KindConstructor, y: KindShape)
    requires
        !is_nil(c),
        y.2.len() > 0,
    ensures
        !base_conforms(c, y),
    decreases depth(c),
{
    lemma_super_shallower(c);
    lemma_familiar_names();
    if let Some(s) = super_constructor(c) {
        lemma_base_conforms_no_args(s, y);
    }
}

/// A kind that conforms to a well-formed kind with arguments is nil, or is
/// made by the same constructor with the same kind variable number and
/// arguments that conform position by position.
proof fn lemma_conforms_to_args_kind(l: KindShape, x: KindShape)
    requires
        conforms(l, x),
        x.2.len() > 0,
    ensures
        is_nil(l.0) || (same_con(l.0, x.0) && l.1 == x.1 && l.2.len() == x.2.len() && args_conform(l.2, x.2)),
{
    lemma_familiar_names();
    if !is_nil(l.0) && !(same_con(l.0, x.0) && l.1 == x.1 && l.2.len() == x.2.len() && args_conform(l.2, x.2)) {
        let s = super_constructor(l.0).unwrap();
        lemma_base_conforms_no_args(s, x);
    }
}

/// The meet of two well-formed kinds is their greatest lower bound: every
/// kind conforming to both conforms to it.
pub proof fn law_meet_greatest(x: KindShape, y: KindShape, r: Option<Kind>, l: KindShape)
    requires
        well_formed(x),
        well_formed(y),
        met(x, y, r),
        r is Some,
        conforms(l, x),
        conforms(l, y),
    ensures
        conforms(l, shape(r.unwrap())),
    decreases rank(x) + rank(y), x.0.arity as int + 1,
{
    let m = shape(r.unwrap());
    if same_kind(x, y) || conforms(x, y) {
        lemma_same_kind_sym(m, x);
        lemma_conforms_right(l, x, m);
    } else if conforms(y, x) {
        lemma_same_kind_sym(m, y);
        lemma_conforms_right(l, y, m);
    } else {
        lemma_conforms_to_args_kind(l, x);
        lemma_conforms_to_args_kind(l, y);
        if !is_nil(l.0) {
            let ms = m.2;
            lemma_met_from(x, y, ms, 0);
            lemma_args_conform(l.2, x.2);
            lemma_args_conform(l.2, y.2);
            assert forall|i: int| 0 <= i < l.2.len() implies conforms(shape(#[trigger] l.2[i]), shape(ms[i])) by {
                lemma_args_well_formed(x.2, i);
                lemma_args_well_formed(y.2, i);
                lemma_arg_rank(x.2, i);
                lemma_arg_rank(y.2, i);
                law_meet_greatest(shape(x.2[i]), shape(y.2[i]), Some(ms[i]), shape(l.2[i]));
            }
            lemma_args_conform(l.2, ms);
        }
    }
}

/// Two well-formed kinds that are not comparable, and do not have their
/// join taken argument by argument, both conform to an upper bound through
/// the constructors above them.
proof fn lemma_incomparable_up(x: KindShape, y: KindShape, u: KindShape)
    requires
        well_formed(x),
        well_formed(y),
        !same_kind(x, y),
        !conforms(x, y),
        !conforms(y, x),
        !(args_case(x, y) && all_join_from(x, y, 0)),
        conforms(x, u),
        conforms(y, u),
    ensures
        super_constructor(x.0) matches Some(s) && base_conforms(s, u),
        super_constructor(y.0) matches Some(t) && base_conforms(t, u),
    decreases rank(x) + rank(y), 0nat,
{
    lemma_familiar_names();
    let ax = same_con(x.0, u.0) && x.1 == u.1 && x.2.len() == u.2.len() && args_conform(x.2, u.2);
    let ay = same_con(y.0, u.0) && y.1 == u.1 && y.2.len() == u.2.len() && args_conform(y.2, u.2);
    let bx = super_constructor(x.0) matches Some(s) && base_conforms(s, u);
    let by = super_constructor(y.0) matches Some(t) && base_conforms(t, u);
    if ax && ay {
        if x.0.arity == 0 {
            assert(args_conform(x.2, y.2));
            assert(conforms(x, y));
        } else {
            assert(args_case(x, y));
            lemma_args_conform(x.2, u.2);
            lemma_args_conform(y.2, u.2);
            assert forall|j: int| 0 <= j < filled(x) implies join_some(shape(#[trigger] x.2[j]), shape(y.2[j])) by {
                lemma_args_well_formed(x.2, j);
                lemma_args_well_formed(y.2, j);
                lemma_arg_rank(x.2, j);
                lemma_arg_rank(y.2, j);
                lemma_join_exists(shape(x.2[j]), shape(y.2[j]), shape(u.2[j]));
            }
            lemma_all_join_from(x, y, 0);
        }
    }
    if ax && !bx && by {
        let t = super_constructor(y.0).unwrap();
        if x.0.arity == 0 {
            lemma_base_conforms_congruent(t, u, x);
        } else {
            lemma_base_conforms_no_args(t, u);
        }
    }
    if ay && !by && bx {
        let s = super_constructor(x.0).unwrap();
        if y.0.arity == 0 {
            lemma_base_conforms_congruent(s, u, y);
        } else {
            lemma_base_conforms_no_args(s, u);
        }
    }
}

/// Two well-formed kinds with a common upper bound have a join.
pub proof fn lemma_join_exists(x: KindShape, y: KindShape, u: KindShape)
    requires
        well_formed(x),
        well_formed(y),
        conforms(x, u),
        conforms(y, u),
    ensures
        join_some(x, y),
    decreases rank(x) + rank(y), 1nat,
{
    if same_kind(x, y) || conforms(x, y) || conforms(y, x) {
    } else if args_case(x, y) && all_join_from(x, y, 0) {
    } else {
        lemma_incomparable_up(x, y, u);
        let s = super_constructor(x.0).unwrap();
        lemma_super_is_base(x.0);
        lemma_super_shallower(x.0);
        lemma_base_shape_conforms(s, u);
        lemma_join_exists(base_shape(s), y, u);
    }
}

/// The join of two well-formed kinds is their least upper bound: it
/// conforms to every kind both conform to.
pub proof fn law_join_least(x: KindShape, y: KindShape, r: Option<Kind>, u: KindShape)
    requires
        well_formed(x),
        well_formed(y),
        joined(x, y, r),
        r is Some,
        conforms(x, u),
        conforms(y, u),
    ensures
        conforms(shape(r.unwrap()), u),
    decreases rank(x) + rank(y),
{
    let j = shape(r.unwrap());
    lemma_familiar_names();
    lemma_super_shallower(x.0);
    lemma_super_shallower(y.0);
    if same_kind(x, y) {
        lemma_same_kind_sym(j, x);
        lemma_conforms_left(x, j, u);
    } else if conforms(x, y) {
        lemma_same_kind_sym(j, y);
        lemma_conforms_left(y, j, u);
    } else if conforms(y, x) {
        lemma_same_kind_sym(j, x);
        lemma_conforms_left(x, j, u);
    } else if args_case(x, y) && all_join_from(x, y, 0) {
        let bx = super_constructor(x.0) matches Some(s) && base_conforms(s, u);
        if !bx {
            let by = super_constructor(y.0) matches Some(t) && base_conforms(t, u);
            if by {
                lemma_base_conforms_no_args(super_constructor(y.0).unwrap(), u);
            }
            let js = j.2;
            lemma_joined_from(x, y, js, 0);
            lemma_args_conform(x.2, u.2);
            lemma_args_conform(y.2, u.2);
            assert forall|i: int| 0 <= i < js.len() implies conforms(shape(#[trigger] js[i]), shape(u.2[i])) by {
                lemma_args_well_formed(x.2, i);
                lemma_args_well_formed(y.2, i);
                lemma_arg_rank(x.2, i);
                lemma_arg_rank(y.2, i);
                law_join_least(shape(x.2[i]), shape(y.2[i]), Some(js[i]), shape(u.2[i]));
            }
            lemma_args_conform(js, u.2);
        }
    } else {
        lemma_incomparable_up(x, y, u);
        let up_x = match super_constructor(x.0) {
            Some(s) => join_some(base_shape(s), y),
            None => false,
        };
        if up_x {
            let s = super_constructor(x.0).unwrap();
            lemma_super_is_base(x.0);
            lemma_base_shape_conforms(s, u);
            law_join_least(base_shape(s), y, r, u);
        } else {
            let t = super_constructor(y.0).unwrap();
            lemma_super_is_base(y.0);
            lemma_base_shape_conforms(t, u);
            law_join_least(x, base_shape(t), r, u);
        }
    }
}

/// The join of two well-formed kinds is well formed.
pub proof fn law_join_well_formed(x: KindShape, y: KindShape, r: Option<Kind>)
    requires
        well_formed(x),
        well_formed(y),
        joined(x, y, r),
        r is Some,
    ensures
        well_formed(shape(r.unwrap())),
    decreases rank(x) + rank(y),
{
    let j = shape(r.unwrap());
    lemma_super_shallower(x.0);
    lemma_super_shallower(y.0);
    if same_kind(x, y) {
        lemma_same_kind_sym(j, x);
        lemma_same_kind_well_formed(x, j);
    } else if conforms(x, y) {
        lemma_same_kind_sym(j, y);
        lemma_same_kind_well_formed(y, j);
    } else if conforms(y, x) {
        lemma_same_kind_sym(j, x);
        lemma_same_kind_well_formed(x, j);
    } else if args_case(x, y) && all_join_from(x, y, 0) {
        let js = j.2;
        lemma_joined_from(x, y, js, 0);
        assert forall|i: int| 0 <= i < js.len() implies well_formed(shape(#[trigger] js[i])) by {
            lemma_args_well_formed(x.2, i);
            lemma_args_well_formed(y.2, i);
            lemma_arg_rank(x.2, i);
            lemma_arg_rank(y.2, i);
            law_join_well_formed(shape(x.2[i]), shape(y.2[i]), Some(js[i]));
        }
        lemma_args_all_well_formed(js);
    } else {
        let up_x = match super_constructor(x.0) {
            Some(s) => join_some(base_shape(s), y),
            None => false,
        };
        if up_x {
            lemma_super_is_base(x.0);
            law_join_well_formed(base_shape(super_constructor(x.0).unwrap()), y, r);
        } else {
            lemma_super_is_base(y.0);
            law_join_well_formed(x, base_shape(super_constructor(y.0).unwrap()), r);
        }
    }
}

/// The meet of two well-formed kinds is well formed.
pub proof fn law_meet_well_formed(x: KindShape, y: KindShape, r: Option<Kind>)
    requires
        well_formed(x),
        well_formed(y),
        met(x, y, r),
        r is Some,
    ensures
        well_formed(shape(r.unwrap())),
    decreases rank(x) + rank(y),
{
    let m = shape(r.unwrap());
    if same_kind(x, y) || conforms(x, y) {
        lemma_same_kind_sym(m, x);
        lemma_same_kind_well_formed(x, m);
    } else if conforms(y, x) {
        lemma_same_kind_sym(m, y);
        lemma_same_kind_well_formed(y, m);
    } else {
        let ms = m.2;
        lemma_met_from(x, y, ms, 0);
        assert forall|i: int| 0 <= i < ms.len() implies well_formed(shape(#[trigger] ms[i])) by {
            lemma_args_well_formed(x.2, i);
            lemma_args_well_formed(y.2, i);
            lemma_arg_rank(x.2, i);
            lemma_arg_rank(y.2, i);
            law_meet_well_formed(shape(x.2[i]), shape(y.2[i]), Some(ms[i]));
        }
        lemma_args_all_well_formed(ms);
    }
}

/// The join of a kind with a kind it conforms to is the latter; in
/// particular the join of a kind with itself is that kind.
pub proof fn law_join_of_comparable(x: KindShape, y: KindShape, r: Option<Kind>)
    requires
        conforms(x, y),
        joined(x, y, r),
    ensures
        r matches Some(j) && same_kind(shape(j), y),
{
    if same_kind(x, y) {
        let j = r.unwrap();
        lemma_same_kind_trans(shape(j), x, y);
    }
}

/// The meet of a kind with a kind it conforms to is the former; in
/// particular the meet of a kind with itself is that kind.
pub proof fn law_meet_of_comparable(x: KindShape, y: KindShape, r: Option<Kind>)
    requires
        conforms(x, y),
        met(x, y, r),
    ensures
        r matches Some(m) && same_kind(shape(m), x),
{
}

} // verus!
