//! The ordering of instances: a linked list, threaded through the
//! instances by index, in which they are placed one after another.
use vstd::prelude::*;
use crate::knowledge::instances::Instance;

verus! {

/// An ordering of instances: the first placed, the last placed, and for
/// each instance the one placed after it.
#[derive(Clone, Debug)]
pub struct OrderingInstances {
    /// The first instance placed.
    pub first_instance: Option<usize>,
    /// The last instance placed.
    pub last_instance: Option<usize>,
    /// For each instance, the instance placed after it.
    pub next_instance: Vec<Option<usize>>,
}

/// A walk along an ordering of instances.
#[derive(Clone, Copy, Debug)]
pub struct OrderingIterator {
    /// The instance the walk is at, or `None` once it has ended.
    pub current: Option<usize>,
}

/// An ordering into which more instances can be placed: the last one
/// placed has a slot for its successor.
pub open spec fn can_place(o: OrderingInstances) -> bool {
    o.last_instance matches Some(l) ==> l < o.next_instance@.len()
}

/// `o1` is `o0` with an instance placed after the last one placed (or
/// first, when none has been).
pub open spec fn placed_after(o0: OrderingInstances, o1: OrderingInstances, instance_idx: usize) -> bool {
    &&& o1.last_instance == Some(instance_idx)
    &&& match o0.last_instance {
        Some(l) => {
            &&& o1.first_instance == o0.first_instance
            &&& o1.next_instance@ == o0.next_instance@.update(l as int, Some(instance_idx))
        },
        None => {
            &&& o1.first_instance == Some(instance_idx)
            &&& o1.next_instance@ == o0.next_instance@
        },
    }
}

/// The ordering holds the instances of `order`, in that order: it starts
/// at the first, ends at the last, leads from each to the one after it,
/// and leads nowhere from any other slot (the last included).
pub open spec fn holds_in_order(o: OrderingInstances, order: Seq<usize>) -> bool {
    &&& o.first_instance == if order.len() > 0 { Some(order[0]) } else { None }
    &&& o.last_instance == if order.len() > 0 { Some(order.last()) } else { None }
    &&& forall|i: int| 0 <= i < order.len() - 1 ==>
        order[i] < o.next_instance@.len() && #[trigger] o.next_instance@[order[i] as int] == Some(order[i + 1])
    &&& forall|j: int| 0 <= j < o.next_instance@.len() && (#[trigger] o.next_instance@[j]) is Some ==>
        exists|i: int| 0 <= i < order.len() - 1 && order[i] == j
}

/// The slot after `current` in a walk along the ordering: the instance
/// placed after it, or none at the end or outside the slots.
pub open spec fn step(o: OrderingInstances, current: Option<usize>) -> Option<usize> {
    match current {
        Some(i) => if i < o.next_instance@.len() { o.next_instance@[i as int] } else { None },
        None => None,
    }
}

/// Where a walk along the ordering is after `k` steps from `current`.
pub open spec fn walk(o: OrderingInstances, current: Option<usize>, k: nat) -> Option<usize>
    decreases k,
{
    if k == 0 { current } else { walk(o, step(o, current), (k - 1) as nat) }
}

/// One more step of a walk.
proof fn lemma_walk_step(o: OrderingInstances, current: Option<usize>, k: nat)
    ensures
        walk(o, current, k + 1) == step(o, walk(o, current, k)),
    decreases k,
{
    reveal_with_fuel(walk, 2);
    if k > 0 {
        lemma_walk_step(o, step(o, current), (k - 1) as nat);
    }
}

/// Placing an instance not yet placed after those of `order` gives an
/// ordering that holds them followed by it.
pub proof fn law_place_next_extends(
    o0: OrderingInstances,
    o1: OrderingInstances,
    order: Seq<usize>,
    instance_idx: usize,
)
    requires
        holds_in_order(o0, order),
        order.push(instance_idx).no_duplicates(),
        can_place(o0),
        placed_after(o0, o1, instance_idx),
    ensures
        holds_in_order(o1, order.push(instance_idx)),
{
    let n = order.push(instance_idx);
    assert forall|i: int| 0 <= i < n.len() - 1 implies
        n[i] < o1.next_instance@.len() && #[trigger] o1.next_instance@[n[i] as int] == Some(n[i + 1]) by {
        assert(n[i] == order[i]);
        let l = order.last();
        assert(o0.last_instance == Some(l));
        if i < order.len() - 1 {
            assert(n[i] != n[order.len() - 1]);
            assert(n[i + 1] == order[i + 1]);
            assert(o1.next_instance@[order[i] as int] == o0.next_instance@[order[i] as int]);
        } else {
            assert(n[i + 1] == instance_idx);
            assert(order[i] == l);
        }
    }
    assert forall|j: int| 0 <= j < o1.next_instance@.len() && (#[trigger] o1.next_instance@[j]) is Some implies
        exists|i: int| 0 <= i < n.len() - 1 && n[i] == j by {
        if order.len() > 0 && j == order.last() {
            assert(n[order.len() - 1] == j);
        } else {
            assert(o1.next_instance@[j] == o0.next_instance@[j]);
            let i = choose|i: int| 0 <= i < order.len() - 1 && order[i] == j;
            assert(n[i] == j);
        }
    }
}

/// A walk from the first instance of an ordering that holds `order` meets
/// the instances of `order` one after another, and then ends.
pub proof fn law_walk_yields_order(o: OrderingInstances, order: Seq<usize>)
    requires
        holds_in_order(o, order),
        order.no_duplicates(),
    ensures
        forall|i: int| 0 <= i < order.len() ==> #[trigger] walk(o, o.first_instance, i as nat) == Some(order[i]),
        walk(o, o.first_instance, order.len()) is None,
{
    assert forall|i: int| 0 <= i < order.len() implies #[trigger] walk(o, o.first_instance, i as nat) == Some(order[i]) by {
        lemma_walk_prefix(o, order, i);
    }
    if order.len() == 0 {
    } else {
        let k = (order.len() - 1) as nat;
        lemma_walk_prefix(o, order, k as int);
        lemma_walk_step(o, o.first_instance, k);
        let l = order.last();
        if l < o.next_instance@.len() && o.next_instance@[l as int] is Some {
            let i = choose|i: int| 0 <= i < order.len() - 1 && order[i] == l;
            assert(order[i] == order[order.len() - 1]);
        }
    }
}

/// The walk reaches the `i`-th instance of `order` after `i` steps.
proof fn lemma_walk_prefix(o: OrderingInstances, order: Seq<usize>, i: int)
    requires
        holds_in_order(o, order),
        0 <= i < order.len(),
    ensures
        walk(o, o.first_instance, i as nat) == Some(order[i]),
    decreases i,
{
    if i > 0 {
        lemma_walk_prefix(o, order, i - 1);
        lemma_walk_step(o, o.first_instance, (i - 1) as nat);
        assert(o.next_instance@[order[i - 1] as int] == Some(order[i]));
    }
}

impl OrderingInstances {
    /// An empty ordering, with no slots.
    pub fn new() -> (o: Self)
        ensures
            o.first_instance is None,
            o.last_instance is None,
            o.next_instance@.len() == 0,
    {
        OrderingInstances { first_instance: None, last_instance: None, next_instance: Vec::new() }
    }

    /// Start an empty ordering, with one empty slot for each instance.
    pub fn begin(&mut self, instances: &[Instance])
        ensures
            final(self).first_instance is None,
            final(self).last_instance is None,
            final(self).next_instance@ == Seq::new(instances@.len(), |i: int| None::<usize>),
            holds_in_order(*final(self), Seq::empty()),
    {
        let n = instances.len();
        let mut next: Vec<Option<usize>> = Vec::new();
        let mut i: usize = 0;
        while i < n
            invariant
                n == instances@.len(),
                0 <= i <= n,
                next@ == Seq::new(i as nat, |j: int| None::<usize>),
            decreases n - i,
        {
            next.push(None);
            i += 1;
            proof {
                assert(next@ =~= Seq::new(i as nat, |j: int| None::<usize>));
            }
        }
        self.first_instance = None;
        self.last_instance = None;
        self.next_instance = next;
    }

    /// Place an instance after the last one placed (or first, when none has been).
    pub fn place_next(&mut self, instance_idx: usize)
        requires
            can_place(*old(self)),
        ensures
            placed_after(*old(self), *final(self), instance_idx),
    {
        match self.last_instance {
            Some(l) => {
                self.next_instance.set(l, Some(instance_idx));
            },
            None => {
                self.first_instance = Some(instance_idx);
            },
        }
        self.last_instance = Some(instance_idx);
    }

    /// Order the instances as they were defined: each is followed by the next.
    pub fn objects_in_definition_sequence(&mut self, instances: &[Instance])
        ensures
            final(self).first_instance == if instances@.len() > 0 { Some(0usize) } else { None },
            final(self).last_instance == if instances@.len() > 0 { Some((instances@.len() - 1) as usize) } else { None },
            final(self).next_instance@.len() == instances@.len(),
            forall|i: int| 0 <= i < instances@.len() ==> #[trigger] final(self).next_instance@[i]
                == if i + 1 < instances@.len() { Some((i + 1) as usize) } else { None },
    {
        self.begin(instances);
        let n = instances.len();
        let mut i: usize = 0;
        while i < n
            invariant
                n == instances@.len(),
                0 <= i <= n,
                self.next_instance@.len() == n,
                self.first_instance == if i > 0 { Some(0usize) } else { None },
                self.last_instance == if i > 0 { Some((i - 1) as usize) } else { None },
                forall|j: int| 0 <= j < n ==> #[trigger] self.next_instance@[j]
                    == if j + 1 < i { Some((j + 1) as usize) } else { None },
            decreases n - i,
        {
            self.place_next(i);
            i += 1;
        }
    }

    /// The first instance placed.
    pub fn first(&self) -> (r: Option<usize>)
        ensures
            r == self.first_instance,
    {
        self.first_instance
    }

    /// The instance placed after the one at `instance_idx`, if any.
    pub fn next(&self, instance_idx: usize) -> (r: Option<usize>)
        ensures
            r == if instance_idx < self.next_instance@.len() { self.next_instance@[instance_idx as int] } else { None },
    {
        if instance_idx < self.next_instance.len() {
            self.next_instance[instance_idx]
        } else {
            None
        }
    }

    /// A walk along the ordering, from the first instance placed.
    pub fn iter(&self) -> (it: OrderingIterator)
        ensures
            it.current == self.first_instance,
    {
        OrderingIterator { current: self.first_instance }
    }
}

impl OrderingIterator {
    /// The instance the walk is at, moving the walk on to the one placed
    /// after it; `None` once the walk has ended.
    pub fn next(&mut self, ordering: &OrderingInstances) -> (r: Option<usize>)
        ensures
            r == old(self).current,
            final(self).current == step(*ordering, old(self).current),
    {
        let result = self.current;
        if let Some(idx) = self.current {
            self.current = ordering.next(idx);
        }
        result
    }
}

} // verus!
