//! Kinds and kind constructors: the type system of Inform 7.
//!
//! A kind is a constructor applied to zero, one or two argument kinds
//! ("number", "list of numbers"). The built-in constructors (made by the
//! `con_` functions) are each one constructor, known by its name; any other
//! constructor is a different one, even under a built-in name.
use vstd::prelude::*;
use crate::text::str_eq;
use crate::search::{first_where, first_from};

verus! {

/// The broad group a kind constructor belongs to.
#[derive(Clone, Copy, Debug, PartialEq, Eq, Structural)]
pub enum ConstructorGroup {
    /// Punctuation used inside the kind system (kind variables, intermediates).
    Punctuation,
    /// Protocols: abstract kinds such as "arithmetic value".
    Protocol,
    /// Base kinds, taking no arguments ("number", "text").
    Base,
    /// Proper constructors, taking argument kinds ("list of").
    Proper,
}

/// A kind constructor.
#[derive(Clone, Copy, Debug, PartialEq)]
pub struct KindConstructor {
    /// The name of the constructor.
    pub name: &'static str,
    /// The group of the constructor.
    pub group: ConstructorGroup,
    /// The number of argument kinds it takes (0, 1 or 2).
    pub arity: u8,
    /// Whether its values form an enumeration.
    pub enumeration: bool,
    /// Whether it is a kind of object.
    pub object_kind: bool,
    /// The inference subject standing for a base kind, once made.
    pub base_as_infs: Option<usize>,
    /// Whether it is one of the built-in constructors made by the `con_`
    /// functions, whose place in the kind hierarchy is fixed.
    pub familiar: bool,
}

/// A kind: a constructor applied to argument kinds.
#[derive(Debug, PartialEq)]
pub struct Kind {
    /// The constructor.
    pub construct: KindConstructor,
    /// The number of a kind variable (0 when this is not a kind variable).
    pub kind_variable_number: i32,
    /// The argument kinds.
    pub kc_args: Vec<Kind>,
    /// The index of the constructor in a constructor registry, when known
    /// (`usize::MAX` otherwise).
    pub construct_id: usize,
}

impl KindConstructor {
    /// A new constructor with the given name, group and arity, neither an
    /// enumeration nor a kind of object, without an inference subject; it is
    /// not one of the built-in constructors, whatever its name.
    pub fn new(name: &'static str, group: ConstructorGroup, arity: u8) -> (c: KindConstructor)
        ensures
            c.name == name,
            c.group == group,
            c.arity == arity,
            !c.enumeration,
            !c.object_kind,
            c.base_as_infs is None,
            !c.familiar,
    {
        KindConstructor { name, group, arity, enumeration: false, object_kind: false, base_as_infs: None, familiar: false }
    }

    /// Record the inference subject standing for this base kind.
    pub fn set_base_as_infs(&mut self, idx: usize)
        ensures
            *final(self) == (KindConstructor { base_as_infs: Some(idx), ..*old(self) }),
    {
        self.base_as_infs = Some(idx);
    }
}

impl Kind {
    /// The kind made by a constructor that takes no arguments.
    pub fn base_construction(con: &KindConstructor) -> (k: Kind)
        ensures
            k.construct == *con,
            k.kind_variable_number == 0,
            k.kc_args@.len() == 0,
            k.construct_id == usize::MAX,
    {
        Kind { construct: *con, kind_variable_number: 0, kc_args: Vec::new(), construct_id: usize::MAX }
    }

    /// The kind made by a constructor applied to one argument kind.
    pub fn unary_con(con: &KindConstructor, arg: Kind) -> (k: Kind)
        ensures
            k.construct == *con,
            k.kind_variable_number == 0,
            k.kc_args@ == seq![arg],
            k.construct_id == usize::MAX,
    {
        let mut args = Vec::new();
        args.push(arg);
        Kind { construct: *con, kind_variable_number: 0, kc_args: args, construct_id: usize::MAX }
    }

    /// The number of argument kinds the constructor takes.
    pub fn arity(&self) -> (r: u8)
        ensures
            r == self.construct.arity,
    {
        self.construct.arity
    }
}

} // verus!

verus! {

/// Constructors whose name is `n`.
pub open spec fn constructor_named(n: Seq<char>) -> spec_fn(KindConstructor) -> bool {
    |c: KindConstructor| c.name@ == n
}

/// The first constructor in `constructors` with the given name.
pub fn find_constructor(name: &str, constructors: &[KindConstructor]) -> (r: Option<usize>)
    ensures
        r matches Some(i) ==> i < constructors@.len(),
        r matches Some(i) ==> first_where(constructors@, constructor_named(name@)) == Some(i as int),
        r is None ==> first_where(constructors@, constructor_named(name@)) is None,
{
    let n = constructors.len();
    let mut i: usize = 0;
    while i < n
        invariant
            n == constructors@.len(),
            0 <= i <= n,
            first_where(constructors@, constructor_named(name@)) == first_from(constructors@, constructor_named(name@), i as int),
        decreases n - i,
    {
        if str_eq(constructors[i].name, name) {
            return Some(i);
        }
        i += 1;
    }
    None
}

/// A built-in constructor.
fn built_in(name: &'static str, group: ConstructorGroup, arity: u8) -> (c: KindConstructor)
    ensures
        c == KindConstructor::built_in_spec(name, group, arity),
{
    KindConstructor { name, group, arity, enumeration: false, object_kind: false, base_as_infs: None, familiar: true }
}

/// A built-in protocol constructor (taking no arguments).
fn protocol(name: &'static str) -> (c: KindConstructor)
    ensures
        c == KindConstructor::built_in_spec(name, ConstructorGroup::Protocol, 0),
{
    built_in(name, ConstructorGroup::Protocol, 0)
}

/// A built-in base constructor (taking no arguments).
fn base(name: &'static str) -> (c: KindConstructor)
    ensures
        c == KindConstructor::built_in_spec(name, ConstructorGroup::Base, 0),
{
    built_in(name, ConstructorGroup::Base, 0)
}

impl KindConstructor {
    /// The built-in constructor with the given name, group and arity.
    pub open spec fn built_in_spec(name: &'static str, group: ConstructorGroup, arity: u8) -> KindConstructor {
        KindConstructor { name, group, arity, enumeration: false, object_kind: false, base_as_infs: None, familiar: true }
    }
}

/// The "value" protocol: the top of the kind hierarchy.
pub fn con_value() -> (c: KindConstructor) ensures c == KindConstructor::built_in_spec("value", ConstructorGroup::Protocol, 0) { protocol("value") }
/// The "stored value" protocol.
pub fn con_stored_value() -> (c: KindConstructor) ensures c == KindConstructor::built_in_spec("stored value", ConstructorGroup::Protocol, 0) { protocol("stored value") }
/// The "sayable value" protocol.
pub fn con_sayable_value() -> (c: KindConstructor) ensures c == KindConstructor::built_in_spec("sayable value", ConstructorGroup::Protocol, 0) { protocol("sayable value") }
/// The "understandable value" protocol.
pub fn con_understandable_value() -> (c: KindConstructor) ensures c == KindConstructor::built_in_spec("understandable value", ConstructorGroup::Protocol, 0) { protocol("understandable value") }
/// The "arithmetic value" protocol.
pub fn con_arithmetic_value() -> (c: KindConstructor) ensures c == KindConstructor::built_in_spec("arithmetic value", ConstructorGroup::Protocol, 0) { protocol("arithmetic value") }
/// The "real arithmetic value" protocol.
pub fn con_real_arithmetic_value() -> (c: KindConstructor) ensures c == KindConstructor::built_in_spec("real arithmetic value", ConstructorGroup::Protocol, 0) { protocol("real arithmetic value") }
/// The "enumerated value" protocol.
pub fn con_enumerated_value() -> (c: KindConstructor) ensures c == KindConstructor::built_in_spec("enumerated value", ConstructorGroup::Protocol, 0) { protocol("enumerated value") }
/// The "pointer value" protocol.
pub fn con_pointer_value() -> (c: KindConstructor) ensures c == KindConstructor::built_in_spec("pointer value", ConstructorGroup::Protocol, 0) { protocol("pointer value") }
/// The "nil" kind, which conforms to everything.
pub fn con_nil() -> (c: KindConstructor) ensures c == KindConstructor::built_in_spec("nil", ConstructorGroup::Base, 0) { base("nil") }
/// The "void" kind.
pub fn con_void() -> (c: KindConstructor) ensures c == KindConstructor::built_in_spec("void", ConstructorGroup::Base, 0) { base("void") }
/// The "unknown" kind.
pub fn con_unknown() -> (c: KindConstructor) ensures c == KindConstructor::built_in_spec("unknown", ConstructorGroup::Base, 0) { base("unknown") }
/// The "number" kind.
pub fn con_number() -> (c: KindConstructor) ensures c == KindConstructor::built_in_spec("number", ConstructorGroup::Base, 0) { base("number") }
/// The "real number" kind.
pub fn con_real_number() -> (c: KindConstructor) ensures c == KindConstructor::built_in_spec("real number", ConstructorGroup::Base, 0) { base("real number") }
/// The "text" kind.
pub fn con_text() -> (c: KindConstructor) ensures c == KindConstructor::built_in_spec("text", ConstructorGroup::Base, 0) { base("text") }
/// The "truth state" kind.
pub fn con_truth_state() -> (c: KindConstructor) ensures c == KindConstructor::built_in_spec("truth state", ConstructorGroup::Base, 0) { base("truth state") }
/// The "table" kind.
pub fn con_table() -> (c: KindConstructor) ensures c == KindConstructor::built_in_spec("table", ConstructorGroup::Base, 0) { base("table") }
/// The "unicode character" kind.
pub fn con_unicode_character() -> (c: KindConstructor) ensures c == KindConstructor::built_in_spec("unicode character", ConstructorGroup::Base, 0) { base("unicode character") }
/// The "verb" kind.
pub fn con_verb() -> (c: KindConstructor) ensures c == KindConstructor::built_in_spec("verb", ConstructorGroup::Base, 0) { base("verb") }

/// The "object" kind: a kind of object.
pub fn con_object() -> (c: KindConstructor)
    ensures
        c == (KindConstructor { object_kind: true, ..KindConstructor::built_in_spec("object", ConstructorGroup::Base, 0) }),
{
    let mut c = base("object");
    c.object_kind = true;
    c
}

/// The "list of" constructor, taking one argument.
pub fn con_list_of() -> (c: KindConstructor)
    ensures
        c == KindConstructor::built_in_spec("list of", ConstructorGroup::Proper, 1),
{
    built_in("list of", ConstructorGroup::Proper, 1)
}

/// The constructor of kind variables.
pub fn con_kind_variable() -> (c: KindConstructor)
    ensures
        c == KindConstructor::built_in_spec("kind variable", ConstructorGroup::Punctuation, 0),
{
    built_in("kind variable", ConstructorGroup::Punctuation, 0)
}

/// The constructor of intermediate results.
pub fn con_intermediate() -> (c: KindConstructor)
    ensures
        c == KindConstructor::built_in_spec("intermediate", ConstructorGroup::Punctuation, 0),
{
    built_in("intermediate", ConstructorGroup::Punctuation, 0)
}

} // verus!

verus! {

/// The constructor directly above a constructor in the kind hierarchy: the
/// protocols form a chain up to "value", each base kind sits under a
/// protocol (or, for "number", under "real number"), proper constructors sit
/// under "value", and "value", "nil", "void", "unknown" and punctuation
/// have nothing above them. A constructor that is not built in has
/// "value" above it when it is proper, and nothing otherwise.
pub open spec fn super_constructor(c: KindConstructor) -> Option<KindConstructor> {
    let n = c.name@;
    let value = KindConstructor::built_in_spec("value", ConstructorGroup::Protocol, 0);
    let stored = KindConstructor::built_in_spec("stored value", ConstructorGroup::Protocol, 0);
    let sayable = KindConstructor::built_in_spec("sayable value", ConstructorGroup::Protocol, 0);
    let understandable = KindConstructor::built_in_spec("understandable value", ConstructorGroup::Protocol, 0);
    let arithmetic = KindConstructor::built_in_spec("arithmetic value", ConstructorGroup::Protocol, 0);
    let enumerated = KindConstructor::built_in_spec("enumerated value", ConstructorGroup::Protocol, 0);
    let pointer = KindConstructor::built_in_spec("pointer value", ConstructorGroup::Protocol, 0);
    let real_number = KindConstructor::built_in_spec("real number", ConstructorGroup::Base, 0);
    if !c.familiar { if c.group == ConstructorGroup::Proper { Some(value) } else { None } }
    else if n == "value"@ { None }
    else if n == "stored value"@ { Some(value) }
    else if n == "sayable value"@ { Some(stored) }
    else if n == "understandable value"@ { Some(sayable) }
    else if n == "arithmetic value"@ { Some(understandable) }
    else if n == "real arithmetic value"@ { Some(arithmetic) }
    else if n == "enumerated value"@ { Some(understandable) }
    else if n == "pointer value"@ { Some(sayable) }
    else if n == "nil"@ || n == "void"@ || n == "unknown"@ { None }
    else if n == "number"@ { Some(real_number) }
    else if n == "real number"@ { Some(arithmetic) }
    else if n == "text"@ { Some(sayable) }
    else if n == "truth state"@ { Some(enumerated) }
    else if n == "object"@ { Some(pointer) }
    else if n == "table"@ { Some(stored) }
    else if n == "unicode character"@ { Some(arithmetic) }
    else if n == "verb"@ { Some(value) }
    else if c.group == ConstructorGroup::Proper { Some(value) }
    else { None }
}

/// How many steps up the hierarchy lead from a constructor to the top.
pub open spec fn depth(c: KindConstructor) -> nat {
    let n = c.name@;
    if !c.familiar { if c.group == ConstructorGroup::Proper { 1 } else { 0 } }
    else if n == "value"@ { 0 }
    else if n == "stored value"@ { 1 }
    else if n == "sayable value"@ { 2 }
    else if n == "understandable value"@ { 3 }
    else if n == "arithmetic value"@ { 4 }
    else if n == "real arithmetic value"@ { 5 }
    else if n == "enumerated value"@ { 4 }
    else if n == "pointer value"@ { 3 }
    else if n == "nil"@ || n == "void"@ || n == "unknown"@ { 0 }
    else if n == "number"@ { 6 }
    else if n == "real number"@ { 5 }
    else if n == "text"@ { 3 }
    else if n == "truth state"@ { 5 }
    else if n == "object"@ { 4 }
    else if n == "table"@ { 2 }
    else if n == "unicode character"@ { 5 }
    else if n == "verb"@ { 1 }
    else if c.group == ConstructorGroup::Proper { 1 }
    else { 0 }
}

/// The names of the familiar constructors: their lengths and first
/// letters, which tell them apart.
pub proof fn lemma_familiar_names()
    ensures
        "value"@.len() == 5,
        "stored value"@.len() == 12,
        "sayable value"@.len() == 13,
        "understandable value"@.len() == 20,
        "arithmetic value"@.len() == 16,
        "real arithmetic value"@.len() == 21,
        "enumerated value"@.len() == 16,
        "pointer value"@.len() == 13,
        "nil"@.len() == 3,
        "void"@.len() == 4,
        "unknown"@.len() == 7,
        "number"@.len() == 6,
        "real number"@.len() == 11,
        "text"@.len() == 4,
        "truth state"@.len() == 11,
        "object"@.len() == 6,
        "table"@.len() == 5,
        "unicode character"@.len() == 17,
        "verb"@.len() == 4,
        "value"@[0] == 'v',
        "stored value"@[0] == 's',
        "sayable value"@[0] == 's',
        "understandable value"@[0] == 'u',
        "arithmetic value"@[0] == 'a',
        "real arithmetic value"@[0] == 'r',
        "enumerated value"@[0] == 'e',
        "pointer value"@[0] == 'p',
        "nil"@[0] == 'n',
        "void"@[0] == 'v',
        "unknown"@[0] == 'u',
        "number"@[0] == 'n',
        "real number"@[0] == 'r',
        "text"@[0] == 't',
        "truth state"@[0] == 't',
        "object"@[0] == 'o',
        "table"@[0] == 't',
        "unicode character"@[0] == 'u',
        "verb"@[0] == 'v',
        "void"@[1] == 'o',
        "verb"@[1] == 'e',
{
    reveal_strlit("value");
    reveal_strlit("stored value");
    reveal_strlit("sayable value");
    reveal_strlit("understandable value");
    reveal_strlit("arithmetic value");
    reveal_strlit("real arithmetic value");
    reveal_strlit("enumerated value");
    reveal_strlit("pointer value");
    reveal_strlit("nil");
    reveal_strlit("void");
    reveal_strlit("unknown");
    reveal_strlit("number");
    reveal_strlit("real number");
    reveal_strlit("text");
    reveal_strlit("truth state");
    reveal_strlit("object");
    reveal_strlit("table");
    reveal_strlit("unicode character");
    reveal_strlit("verb");
}

/// The constructor above another is one step nearer the top.
pub proof fn lemma_super_shallower(c: KindConstructor)
    ensures
        super_constructor(c) matches Some(s) ==> depth(s) < depth(c),
{
    lemma_familiar_names();
    assert(depth(KindConstructor::built_in_spec("value", ConstructorGroup::Protocol, 0)) == 0);
    assert(depth(KindConstructor::built_in_spec("stored value", ConstructorGroup::Protocol, 0)) == 1);
    assert(depth(KindConstructor::built_in_spec("sayable value", ConstructorGroup::Protocol, 0)) == 2);
    assert(depth(KindConstructor::built_in_spec("understandable value", ConstructorGroup::Protocol, 0)) == 3);
    assert(depth(KindConstructor::built_in_spec("arithmetic value", ConstructorGroup::Protocol, 0)) == 4);
    assert(depth(KindConstructor::built_in_spec("enumerated value", ConstructorGroup::Protocol, 0)) == 4);
    assert(depth(KindConstructor::built_in_spec("pointer value", ConstructorGroup::Protocol, 0)) == 3);
    assert(depth(KindConstructor::built_in_spec("real number", ConstructorGroup::Base, 0)) == 5);
}

/// A kind as the lattice sees it: constructor, kind variable number and
/// argument kinds.
pub type KindShape = (KindConstructor, i32, Seq<Kind>);

/// The shape of a kind.
pub open spec fn shape(k: Kind) -> KindShape {
    (k.construct, k.kind_variable_number, k.kc_args@)
}

/// The shape of the kind a constructor makes without arguments.
pub open spec fn base_shape(c: KindConstructor) -> KindShape {
    (c, 0i32, Seq::empty())
}

/// Two constructors are the same constructor: both built in, or both not,
/// with the same name, group and arity.
pub open spec fn same_con(a: KindConstructor, b: KindConstructor) -> bool {
    a.familiar == b.familiar && a.name@ == b.name@ && a.group == b.group && a.arity == b.arity
}

/// The built-in "nil" constructor, whose kind conforms to every kind.
pub open spec fn is_nil(c: KindConstructor) -> bool {
    c.familiar && c.name@ == "nil"@
}

/// Two kinds are the same kind: the same constructor, the same kind
/// variable number, and the same argument kinds.
pub open spec fn same_kind(x: KindShape, y: KindShape) -> bool
    decreases x.2, 1nat,
{
    &&& same_con(x.0, y.0)
    &&& x.1 == y.1
    &&& x.2.len() == y.2.len()
    &&& same_args(x.2, y.2)
}

/// Two sequences of argument kinds are the same, position by position
/// (from the end; lengths are compared by the caller).
pub open spec fn same_args(a: Seq<Kind>, b: Seq<Kind>) -> bool
    decreases a, 0nat,
{
    if a.len() == 0 || b.len() == 0 {
        true
    } else {
        same_kind(shape(a.last()), shape(b.last())) && same_args(a.drop_last(), b.drop_last())
    }
}

/// The kind made by `c` without arguments conforms to `y`: it is nil, or
/// it is `y`, or the constructor above it does.
pub open spec fn base_conforms(c: KindConstructor, y: KindShape) -> bool
    decreases depth(c),
{
    if is_nil(c) {
        true
    } else if same_con(c, y.0) && y.1 == 0 && y.2.len() == 0 {
        true
    } else {
        match super_constructor(c) {
            Some(s) => {
                proof {
                    lemma_super_shallower(c);
                }
                base_conforms(s, y)
            },
            None => false,
        }
    }
}

/// A kind conforms to another: it is nil; or it has the same constructor
/// and kind variable number and its arguments conform, position by
/// position; or the kind above it conforms.
pub open spec fn conforms(x: KindShape, y: KindShape) -> bool
    decreases x.2, 1nat,
{
    ||| is_nil(x.0)
    ||| (same_con(x.0, y.0) && x.1 == y.1 && x.2.len() == y.2.len() && args_conform(x.2, y.2))
    ||| (match super_constructor(x.0) {
        Some(s) => base_conforms(s, y),
        None => false,
    })
}

/// Each argument kind conforms to the corresponding one, position by
/// position (from the end; lengths are compared by the caller).
pub open spec fn args_conform(a: Seq<Kind>, b: Seq<Kind>) -> bool
    decreases a, 0nat,
{
    if a.len() == 0 || b.len() == 0 {
        true
    } else {
        conforms(shape(a.last()), shape(b.last())) && args_conform(a.drop_last(), b.drop_last())
    }
}

/// Same arguments position by position, for sequences of equal length.
pub proof fn lemma_same_args(a: Seq<Kind>, b: Seq<Kind>)
    requires
        a.len() == b.len(),
    ensures
        same_args(a, b) <==> forall|i: int| 0 <= i < a.len() ==> same_kind(shape(#[trigger] a[i]), shape(b[i])),
    decreases a.len(),
{
    if a.len() > 0 {
        let (a0, b0) = (a.drop_last(), b.drop_last());
        lemma_same_args(a0, b0);
        let n = a.len() - 1;
        if forall|i: int| 0 <= i < a.len() ==> same_kind(shape(#[trigger] a[i]), shape(b[i])) {
            assert forall|i: int| 0 <= i < a0.len() implies same_kind(shape(#[trigger] a0[i]), shape(b0[i])) by {
                assert(a0[i] == a[i] && b0[i] == b[i]);
            }
            assert(same_kind(shape(a[n]), shape(b[n])));
        }
        if same_args(a, b) {
            assert forall|i: int| 0 <= i < a.len() implies same_kind(shape(#[trigger] a[i]), shape(b[i])) by {
                if i < n {
                    assert(a0[i] == a[i] && b0[i] == b[i]);
                }
            }
        }
    }
}

/// Arguments conform position by position, for sequences of equal length.
pub proof fn lemma_args_conform(a: Seq<Kind>, b: Seq<Kind>)
    requires
        a.len() == b.len(),
    ensures
        args_conform(a, b) <==> forall|i: int| 0 <= i < a.len() ==> conforms(shape(#[trigger] a[i]), shape(b[i])),
    decreases a.len(),
{
    if a.len() > 0 {
        let (a0, b0) = (a.drop_last(), b.drop_last());
        lemma_args_conform(a0, b0);
        let n = a.len() - 1;
        if forall|i: int| 0 <= i < a.len() ==> conforms(shape(#[trigger] a[i]), shape(b[i])) {
            assert forall|i: int| 0 <= i < a0.len() implies conforms(shape(#[trigger] a0[i]), shape(b0[i])) by {
                assert(a0[i] == a[i] && b0[i] == b[i]);
            }
            assert(conforms(shape(a[n]), shape(b[n])));
        }
        if args_conform(a, b) {
            assert forall|i: int| 0 <= i < a.len() implies conforms(shape(#[trigger] a[i]), shape(b[i])) by {
                if i < n {
                    assert(a0[i] == a[i] && b0[i] == b[i]);
                }
            }
        }
    }
}

/// The constructor above another in the kind hierarchy.
pub fn super_con(c: &KindConstructor) -> (r: Option<KindConstructor>)
    ensures
        r == super_constructor(*c),
{
    let n = c.name;
    if !c.familiar { if c.group == ConstructorGroup::Proper { Some(con_value()) } else { None } }
    else if str_eq(n, "value") { None }
    else if str_eq(n, "stored value") { Some(con_value()) }
    else if str_eq(n, "sayable value") { Some(con_stored_value()) }
    else if str_eq(n, "understandable value") { Some(con_sayable_value()) }
    else if str_eq(n, "arithmetic value") { Some(con_understandable_value()) }
    else if str_eq(n, "real arithmetic value") { Some(con_arithmetic_value()) }
    else if str_eq(n, "enumerated value") { Some(con_understandable_value()) }
    else if str_eq(n, "pointer value") { Some(con_sayable_value()) }
    else if str_eq(n, "nil") || str_eq(n, "void") || str_eq(n, "unknown") { None }
    else if str_eq(n, "number") { Some(con_real_number()) }
    else if str_eq(n, "real number") { Some(con_arithmetic_value()) }
    else if str_eq(n, "text") { Some(con_sayable_value()) }
    else if str_eq(n, "truth state") { Some(con_enumerated_value()) }
    else if str_eq(n, "object") { Some(con_pointer_value()) }
    else if str_eq(n, "table") { Some(con_stored_value()) }
    else if str_eq(n, "unicode character") { Some(con_arithmetic_value()) }
    else if str_eq(n, "verb") { Some(con_value()) }
    else if c.group == ConstructorGroup::Proper { Some(con_value()) }
    else { None }
}

/// Whether two constructors are the same constructor (see `same_con`).
pub fn same_constructor(a: &KindConstructor, b: &KindConstructor) -> (r: bool)
    ensures
        r == same_con(*a, *b),
{
    a.familiar == b.familiar && str_eq(a.name, b.name) && a.group == b.group && a.arity == b.arity
}

/// Whether the kind made by `c` without arguments conforms to `y`.
pub fn base_conforms_to(c: KindConstructor, y: &Kind) -> (r: bool)
    ensures
        r == base_conforms(c, shape(*y)),
    decreases depth(c),
{
    if c.familiar && str_eq(c.name, "nil") {
        return true;
    }
    if same_constructor(&c, &y.construct) && y.kind_variable_number == 0 && y.kc_args.len() == 0 {
        return true;
    }
    match super_con(&c) {
        Some(s) => {
            proof {
                lemma_super_shallower(c);
            }
            base_conforms_to(s, y)
        },
        None => false,
    }
}

/// `j` is a copy of `k`: the same constructor, kind variable number and
/// constructor index, and arguments that are copies of `k`'s, position by
/// position.
pub open spec fn copy_of(j: Kind, k: Kind) -> bool
    decreases k,
{
    &&& j.construct == k.construct
    &&& j.kind_variable_number == k.kind_variable_number
    &&& j.construct_id == k.construct_id
    &&& j.kc_args@.len() == k.kc_args@.len()
    &&& forall|i: int| 0 <= i < k.kc_args@.len() ==> #[trigger] copy_of(j.kc_args@[i], k.kc_args@[i])
}

impl Kind {
    /// Whether this kind conforms to another (see `conforms`).
    pub fn conforms_to(&self, other: &Kind) -> (r: bool)
        ensures
            r == conforms(shape(*self), shape(*other)),
        decreases self,
    {
        if self.construct.familiar && str_eq(self.construct.name, "nil") {
            return true;
        }
        if same_constructor(&self.construct, &other.construct) && self.kind_variable_number == other.kind_variable_number
            && self.kc_args.len() == other.kc_args.len() {
            let n = self.kc_args.len();
            let mut i: usize = 0;
            let mut ok = true;
            while i < n
                invariant
                    n == self.kc_args@.len(),
                    n == other.kc_args@.len(),
                    0 <= i <= n,
                    ok == forall|j: int| 0 <= j < i ==> conforms(shape(#[trigger] self.kc_args@[j]), shape(other.kc_args@[j])),
                decreases n - i,
            {
                proof {
                    assert(decreases_to!(*self => self.kc_args@[i as int]));
                }
                let c = self.kc_args[i].conforms_to(&other.kc_args[i]);
                ok = ok && c;
                i += 1;
            }
            proof {
                lemma_args_conform(self.kc_args@, other.kc_args@);
            }
            if ok {
                return true;
            }
        }
        match super_con(&self.construct) {
            Some(s) => base_conforms_to(s, other),
            None => false,
        }
    }

    /// Whether this kind is the same kind as another (see `same_kind`).
    pub fn eq(&self, other: &Kind) -> (r: bool)
        ensures
            r == same_kind(shape(*self), shape(*other)),
        decreases self,
    {
        if !same_constructor(&self.construct, &other.construct) || self.kind_variable_number != other.kind_variable_number
            || self.kc_args.len() != other.kc_args.len() {
            return false;
        }
        let n = self.kc_args.len();
        let mut i: usize = 0;
        while i < n
            invariant
                n == self.kc_args@.len(),
                n == other.kc_args@.len(),
                0 <= i <= n,
                forall|j: int| 0 <= j < i ==> same_kind(shape(#[trigger] self.kc_args@[j]), shape(other.kc_args@[j])),
            decreases n - i,
        {
            proof {
                assert(decreases_to!(*self => self.kc_args@[i as int]));
            }
            if !self.kc_args[i].eq(&other.kc_args[i]) {
                proof {
                    lemma_same_args(self.kc_args@, other.kc_args@);
                }
                return false;
            }
            i += 1;
        }
        proof {
            lemma_same_args(self.kc_args@, other.kc_args@);
        }
        true
    }

    /// A copy of this kind: the same constructor, kind variable number and
    /// constructor index, with copies of its arguments (see `copy_of`).
    pub fn duplicate(&self) -> (r: Kind)
        ensures
            copy_of(r, *self),
            r.construct == self.construct,
            r.kind_variable_number == self.kind_variable_number,
            r.construct_id == self.construct_id,
            r.kc_args@.len() == self.kc_args@.len(),
            same_kind(shape(r), shape(*self)),
        decreases self,
    {
        let n = self.kc_args.len();
        let mut args: Vec<Kind> = Vec::new();
        let mut i: usize = 0;
        while i < n
            invariant
                n == self.kc_args@.len(),
                0 <= i <= n,
                args@.len() == i,
                forall|j: int| 0 <= j < i ==> same_kind(shape(#[trigger] args@[j]), shape(self.kc_args@[j])),
                forall|j: int| 0 <= j < i ==> copy_of(#[trigger] args@[j], self.kc_args@[j]),
            decreases n - i,
        {
            proof {
                assert(decreases_to!(*self => self.kc_args@[i as int]));
            }
            let a = self.kc_args[i].duplicate();
            args.push(a);
            i += 1;
        }
        let r = Kind { construct: self.construct, kind_variable_number: self.kind_variable_number, kc_args: args, construct_id: self.construct_id };
        proof {
            lemma_same_args(r.kc_args@, self.kc_args@);
        }
        r
    }
}

/// Every kind is the same kind as itself.
pub proof fn lemma_same_kind_refl(x: KindShape)
    ensures
        same_kind(x, x),
    decreases x.2,
{
    assert forall|i: int| 0 <= i < x.2.len() implies same_kind(shape(#[trigger] x.2[i]), shape(x.2[i])) by {
        lemma_same_kind_refl(shape(x.2[i]));
    }
    lemma_same_args(x.2, x.2);
}

/// Being the same kind is symmetric.
pub proof fn lemma_same_kind_sym(x: KindShape, y: KindShape)
    requires
        same_kind(x, y),
    ensures
        same_kind(y, x),
    decreases x.2,
{
    lemma_same_args(x.2, y.2);
    assert forall|i: int| 0 <= i < y.2.len() implies same_kind(shape(#[trigger] y.2[i]), shape(x.2[i])) by {
        lemma_same_kind_sym(shape(x.2[i]), shape(y.2[i]));
    }
    lemma_same_args(y.2, x.2);
}

/// Being the same kind is transitive.
pub proof fn lemma_same_kind_trans(x: KindShape, y: KindShape, z: KindShape)
    requires
        same_kind(x, y),
        same_kind(y, z),
    ensures
        same_kind(x, z),
    decreases x.2,
{
    lemma_same_args(x.2, y.2);
    lemma_same_args(y.2, z.2);
    assert forall|i: int| 0 <= i < x.2.len() implies same_kind(shape(#[trigger] x.2[i]), shape(z.2[i])) by {
        lemma_same_kind_trans(shape(x.2[i]), shape(y.2[i]), shape(z.2[i]));
    }
    lemma_same_args(x.2, z.2);
}

/// Whether a constructor's kind conforms to a kind depends only on that
/// kind's constructor, kind variable number and number of arguments.
pub proof fn lemma_base_conforms_congruent(c: KindConstructor, y: KindShape, z: KindShape)
    requires
        same_con(y.0, z.0),
        y.1 == z.1,
        y.2.len() == z.2.len(),
    ensures
        base_conforms(c, y) == base_conforms(c, z),
    decreases depth(c),
{
    if let Some(s) = super_constructor(c) {
        lemma_super_shallower(c);
        lemma_base_conforms_congruent(s, y, z);
    }
}

/// Conforming to a kind is conforming to any kind the same as it.
pub proof fn lemma_conforms_right(x: KindShape, y: KindShape, z: KindShape)
    requires
        same_kind(y, z),
    ensures
        conforms(x, y) == conforms(x, z),
    decreases x.2,
{
    if let Some(s) = super_constructor(x.0) {
        lemma_base_conforms_congruent(s, y, z);
    }
    lemma_same_args(y.2, z.2);
    if x.2.len() == y.2.len() {
        lemma_args_conform(x.2, y.2);
        lemma_args_conform(x.2, z.2);
        assert forall|i: int| 0 <= i < x.2.len() implies
            conforms(shape(#[trigger] x.2[i]), shape(y.2[i])) == conforms(shape(x.2[i]), shape(z.2[i])) by {
            lemma_conforms_right(shape(x.2[i]), shape(y.2[i]), shape(z.2[i]));
        }
    }
}

/// A kind the same as one that conforms to a kind conforms to it too.
pub proof fn lemma_conforms_left(x: KindShape, w: KindShape, y: KindShape)
    requires
        same_kind(x, w),
    ensures
        conforms(x, y) == conforms(w, y),
    decreases x.2,
{
    lemma_same_args(x.2, w.2);
    assert(super_constructor(x.0) == super_constructor(w.0));
    if x.2.len() == y.2.len() {
        lemma_args_conform(x.2, y.2);
        lemma_args_conform(w.2, y.2);
        assert forall|i: int| 0 <= i < x.2.len() implies
            conforms(shape(#[trigger] x.2[i]), shape(y.2[i])) == conforms(shape(w.2[i]), shape(y.2[i])) by {
            lemma_conforms_left(shape(x.2[i]), shape(w.2[i]), shape(y.2[i]));
        }
        if args_conform(x.2, y.2) {
            assert forall|i: int| 0 <= i < w.2.len() implies conforms(shape(#[trigger] w.2[i]), shape(y.2[i])) by {
                assert(conforms(shape(x.2[i]), shape(y.2[i])));
            }
        }
        if args_conform(w.2, y.2) {
            assert forall|i: int| 0 <= i < x.2.len() implies conforms(shape(#[trigger] x.2[i]), shape(y.2[i])) by {
                assert(conforms(shape(w.2[i]), shape(y.2[i])));
            }
        }
    }
}

/// The same constructor has the same constructor above it.
proof fn lemma_same_con_super(c: KindConstructor, d: KindConstructor)
    requires
        same_con(c, d),
    ensures
        super_constructor(c) == super_constructor(d),
{
}

/// A constructor whose kind conforms to a kind that conforms to a third
/// conforms to the third.
proof fn lemma_base_conforms_trans(c: KindConstructor, y: KindShape, z: KindShape)
    requires
        base_conforms(c, y),
        conforms(y, z),
    ensures
        base_conforms(c, z),
    decreases depth(c),
{
    lemma_super_shallower(c);
    if is_nil(c) {
    } else if same_con(c, y.0) && y.1 == 0 && y.2.len() == 0 {
        lemma_same_con_super(c, y.0);
        if same_con(y.0, z.0) && y.1 == z.1 && y.2.len() == z.2.len() {
        }
    } else {
        let s = super_constructor(c).unwrap();
        lemma_base_conforms_trans(s, y, z);
    }
}

/// Conformance is transitive: a kind that conforms to a kind that conforms
/// to a third conforms to the third.
pub proof fn law_conforms_transitive(x: KindShape, y: KindShape, z: KindShape)
    requires
        conforms(x, y),
        conforms(y, z),
    ensures
        conforms(x, z),
    decreases x.2,
{
    if is_nil(x.0) {
    } else if same_con(x.0, y.0) && x.1 == y.1 && x.2.len() == y.2.len() && args_conform(x.2, y.2) {
        lemma_same_con_super(x.0, y.0);
        if same_con(y.0, z.0) && y.1 == z.1 && y.2.len() == z.2.len() && args_conform(y.2, z.2) {
            lemma_args_conform(x.2, y.2);
            lemma_args_conform(y.2, z.2);
            assert forall|i: int| 0 <= i < x.2.len() implies conforms(shape(#[trigger] x.2[i]), shape(z.2[i])) by {
                law_conforms_transitive(shape(x.2[i]), shape(y.2[i]), shape(z.2[i]));
            }
            lemma_args_conform(x.2, z.2);
        }
    } else {
        let s = super_constructor(x.0).unwrap();
        lemma_base_conforms_trans(s, y, z);
    }
}

/// Every kind conforms to itself.
pub proof fn lemma_conforms_refl(x: KindShape)
    ensures
        conforms(x, x),
    decreases x.2,
{
    assert forall|i: int| 0 <= i < x.2.len() implies conforms(shape(#[trigger] x.2[i]), shape(x.2[i])) by {
        lemma_conforms_refl(shape(x.2[i]));
    }
    lemma_args_conform(x.2, x.2);
}

/// The kind a constructor makes without arguments conforms exactly as the
/// constructor does.
pub proof fn lemma_base_shape_conforms(c: KindConstructor, z: KindShape)
    ensures
        conforms(base_shape(c), z) == base_conforms(c, z),
{
    assert(args_conform(Seq::<Kind>::empty(), z.2));
}

/// A kind is well formed: it has as many arguments as its constructor
/// takes, a kind with arguments is no kind variable, and its arguments are
/// well formed.
pub open spec fn well_formed(x: KindShape) -> bool
    decreases x.2, 1nat,
{
    &&& x.2.len() == x.0.arity
    &&& (x.0.arity > 0 ==> x.1 == 0)
    &&& args_well_formed(x.2)
}

/// Every argument kind is well formed.
pub open spec fn args_well_formed(a: Seq<Kind>) -> bool
    decreases a, 0nat,
{
    if a.len() == 0 {
        true
    } else {
        well_formed(shape(a.last())) && args_well_formed(a.drop_last())
    }
}

/// The arguments of a well-formed kind are well formed, one by one.
pub proof fn lemma_args_well_formed(a: Seq<Kind>, i: int)
    requires
        args_well_formed(a),
        0 <= i < a.len(),
    ensures
        well_formed(shape(a[i])),
    decreases a.len(),
{
    if i < a.len() - 1 {
        lemma_args_well_formed(a.drop_last(), i);
        assert(a.drop_last()[i] == a[i]);
    }
}

/// Argument kinds that are each well formed are well formed.
pub proof fn lemma_args_all_well_formed(a: Seq<Kind>)
    requires
        forall|i: int| 0 <= i < a.len() ==> well_formed(shape(#[trigger] a[i])),
    ensures
        args_well_formed(a),
    decreases a.len(),
{
    if a.len() > 0 {
        let b = a.drop_last();
        assert forall|i: int| 0 <= i < b.len() implies well_formed(shape(#[trigger] b[i])) by {
            assert(b[i] == a[i]);
        }
        lemma_args_all_well_formed(b);
        assert(well_formed(shape(a[a.len() - 1])));
    }
}

/// A kind the same as a well-formed kind is well formed.
pub proof fn lemma_same_kind_well_formed(x: KindShape, y: KindShape)
    requires
        same_kind(x, y),
        well_formed(x),
    ensures
        well_formed(y),
    decreases x.2,
{
    lemma_same_args(x.2, y.2);
    assert forall|i: int| 0 <= i < y.2.len() implies well_formed(shape(#[trigger] y.2[i])) by {
        lemma_args_well_formed(x.2, i);
        lemma_same_kind_well_formed(shape(x.2[i]), shape(y.2[i]));
    }
    lemma_args_all_well_formed(y.2);
}

} // verus!
