//! Property permissions: which subjects may have which properties.
use vstd::prelude::*;
use crate::text::str_eq;
use crate::knowledge::inference_subjects::InferenceSubject;

verus! {

/// A permission for a subject to have a property.
#[derive(Clone, Copy, Debug)]
pub struct PropertyPermission {
    /// Index of the subject to whom permission is granted.
    pub property_owner: usize,
    /// The name of the property permitted.
    pub property_granted: &'static str,
    /// Where this permission was granted.
    pub where_granted: Option<&'static str>,
    /// Storage data for compilation.
    pub storage_data: Option<&'static str>,
}

/// Permission `pp` exists and is for the property named `prop`.
pub open spec fn grants(pp: usize, perms: Seq<PropertyPermission>, prop: Seq<char>) -> bool {
    pp < perms.len() && perms[pp as int].property_granted@ == prop
}

/// The first permission in `list`, from position `i` on, for the property `prop`.
pub open spec fn first_grant(list: Seq<usize>, perms: Seq<PropertyPermission>, prop: Seq<char>, i: int) -> Option<usize>
    decreases list.len() - i,
{
    if i < 0 || i >= list.len() {
        None
    } else if grants(list[i], perms, prop) {
        Some(list[i])
    } else {
        first_grant(list, perms, prop, i + 1)
    }
}

/// The permission for `prop` found by walking up from `cur` through at most
/// `fuel` further broader subjects; the walk stops at a root or at an index
/// outside the registry.
pub open spec fn inherited_grant(reg: Seq<InferenceSubject>, cur: Option<usize>, perms: Seq<PropertyPermission>, prop: Seq<char>, fuel: nat) -> Option<usize>
    decreases fuel,
{
    match cur {
        None => None,
        Some(i) => if i >= reg.len() {
            None
        } else {
            match first_grant(reg[i as int].permissions_list@, perms, prop, 0) {
                Some(pp) => Some(pp),
                None => if fuel == 0 {
                    None
                } else {
                    inherited_grant(reg, reg[i as int].broader_than, perms, prop, (fuel - 1) as nat)
                },
            }
        },
    }
}

/// The walk for `prop` from `cur` ends within `fuel` further steps.
pub open spec fn grant_walk_ends(reg: Seq<InferenceSubject>, cur: Option<usize>, perms: Seq<PropertyPermission>, prop: Seq<char>, fuel: nat) -> bool
    decreases fuel,
{
    match cur {
        None => true,
        Some(i) => if i >= reg.len() {
            true
        } else if first_grant(reg[i as int].permissions_list@, perms, prop, 0) is Some {
            true
        } else if fuel == 0 {
            false
        } else {
            grant_walk_ends(reg, reg[i as int].broader_than, perms, prop, (fuel - 1) as nat)
        },
    }
}

/// The permission `find` returns for a subject with permission list `own`
/// and broader subject `start`.
pub open spec fn found_permission(own: Seq<usize>, start: Option<usize>, reg: Seq<InferenceSubject>, perms: Seq<PropertyPermission>, prop: Seq<char>, allow_inheritance: bool, fuel: nat) -> Option<usize> {
    match first_grant(own, perms, prop, 0) {
        Some(pp) => Some(pp),
        None => if allow_inheritance { inherited_grant(reg, start, perms, prop, fuel) } else { None },
    }
}

/// Once the walk has ended within some fuel, more fuel changes nothing.
proof fn lemma_grant_walk_fuel(reg: Seq<InferenceSubject>, cur: Option<usize>, perms: Seq<PropertyPermission>, prop: Seq<char>, n: nat, m: nat)
    requires
        grant_walk_ends(reg, cur, perms, prop, n),
        n <= m,
    ensures
        grant_walk_ends(reg, cur, perms, prop, m),
        inherited_grant(reg, cur, perms, prop, n) == inherited_grant(reg, cur, perms, prop, m),
    decreases n,
{
    match cur {
        None => {},
        Some(i) => {
            if i < reg.len() && first_grant(reg[i as int].permissions_list@, perms, prop, 0) is None && n > 0 {
                lemma_grant_walk_fuel(reg, reg[i as int].broader_than, perms, prop, (n - 1) as nat, (m - 1) as nat);
            }
        },
    }
}

/// Search a list of permission indices for the first one for `property`.
fn find_in_list(list: &Vec<usize>, property: &str, permissions: &[PropertyPermission]) -> (r: Option<usize>)
    ensures
        r == first_grant(list@, permissions@, property@, 0),
{
    let n = list.len();
    let mut i: usize = 0;
    while i < n
        invariant
            n == list@.len(),
            0 <= i <= n,
            first_grant(list@, permissions@, property@, 0) == first_grant(list@, permissions@, property@, i as int),
        decreases n - i,
    {
        let pp_idx = list[i];
        if pp_idx < permissions.len() && str_eq(permissions[pp_idx].property_granted, property) {
            return Some(pp_idx);
        }
        i += 1;
    }
    None
}

impl PropertyPermission {
    /// Find a permission for a subject/property pair: first among the
    /// subject's own permissions, then, when `allow_inheritance` is set,
    /// among those of each broader subject in turn, stopping at a root or at
    /// an index outside `subjects`.
    pub fn find(
        subject: &InferenceSubject,
        property: &str,
        subjects: &[InferenceSubject],
        permissions: &[PropertyPermission],
        allow_inheritance: bool,
    ) -> (r: Option<usize>)
        requires
            allow_inheritance ==> exists|n: nat| grant_walk_ends(subjects@, subject.broader_than, permissions@, property@, n),
        ensures
            forall|n: nat| grant_walk_ends(subjects@, subject.broader_than, permissions@, property@, n) ==>
                r == found_permission(subject.permissions_list@, subject.broader_than, subjects@, permissions@, property@, allow_inheritance, n),
            !allow_inheritance ==> r == first_grant(subject.permissions_list@, permissions@, property@, 0),
    {
        let own = find_in_list(&subject.permissions_list, property, permissions);
        if own.is_some() {
            return own;
        }
        if !allow_inheritance {
            return None;
        }
        let ghost reg = subjects@;
        let ghost perms = permissions@;
        let ghost start = subject.broader_than;
        let ghost n0 = choose|n: nat| grant_walk_ends(reg, start, perms, property@, n);
        let ghost mut fuel: nat = n0;
        let mut current = subject.broader_than;
        loop
            invariant
                reg == subjects@,
                perms == permissions@,
                start == subject.broader_than,
                grant_walk_ends(reg, start, perms, property@, n0),
                grant_walk_ends(reg, current, perms, property@, fuel),
                inherited_grant(reg, start, perms, property@, n0) == inherited_grant(reg, current, perms, property@, fuel),
                first_grant(subject.permissions_list@, perms, property@, 0) is None,
                allow_inheritance,
            ensures
                inherited_grant(reg, start, perms, property@, n0) is None,
            decreases fuel,
        {
            match current {
                None => {
                    break;
                },
                Some(idx) => {
                    if idx < subjects.len() {
                        let found = find_in_list(&subjects[idx].permissions_list, property, permissions);
                        if found.is_some() {
                            proof {
                                assert forall|n: nat| grant_walk_ends(reg, start, perms, property@, n) implies
                                    inherited_grant(reg, start, perms, property@, n) == inherited_grant(reg, start, perms, property@, n0) by {
                                    if n <= n0 {
                                        lemma_grant_walk_fuel(reg, start, perms, property@, n, n0);
                                    } else {
                                        lemma_grant_walk_fuel(reg, start, perms, property@, n0, n);
                                    }
                                }
                            }
                            return found;
                        }
                        current = subjects[idx].broader_than;
                        proof {
                            fuel = (fuel - 1) as nat;
                        }
                    } else {
                        break;
                    }
                },
            }
        }
        proof {
            assert forall|n: nat| grant_walk_ends(reg, start, perms, property@, n) implies
                inherited_grant(reg, start, perms, property@, n) == inherited_grant(reg, start, perms, property@, n0) by {
                if n <= n0 {
                    lemma_grant_walk_fuel(reg, start, perms, property@, n, n0);
                } else {
                    lemma_grant_walk_fuel(reg, start, perms, property@, n0, n);
                }
            }
        }
        None
    }

    /// Grant a subject permission to have a property: return the subject's
    /// existing permission for it, or create one (owned by `subject_idx`).
    pub fn grant(
        subject: &mut InferenceSubject,
        property: &'static str,
        where_granted: Option<&'static str>,
        subject_idx: usize,
        subjects: &[InferenceSubject],
        permissions: &mut Vec<PropertyPermission>,
    ) -> (r: usize)
        ensures
            match first_grant(old(subject).permissions_list@, old(permissions)@, property@, 0) {
                Some(pp) => {
                    &&& r == pp
                    &&& *final(subject) == *old(subject)
                    &&& final(permissions)@ == old(permissions)@
                },
                None => {
                    &&& r == old(permissions)@.len()
                    &&& final(permissions)@ == old(permissions)@.push(PropertyPermission {
                        property_owner: subject_idx,
                        property_granted: property,
                        where_granted,
                        storage_data: None,
                    })
                    &&& final(subject).permissions_list@ == old(subject).permissions_list@.push(r)
                    &&& final(subject).broader_than == old(subject).broader_than
                    &&& final(subject).infs_family == old(subject).infs_family
                    &&& final(subject).represents == old(subject).represents
                    &&& final(subject).inf_list@ == old(subject).inf_list@
                    &&& final(subject).imp_list@ == old(subject).imp_list@
                    &&& final(subject).alias_variable == old(subject).alias_variable
                    &&& final(subject).log_name == old(subject).log_name
                },
            },
    {
        if let Some(idx) = PropertyPermission::find(subject, property, subjects, permissions, false) {
            return idx;
        }
        let idx = permissions.len();
        permissions.push(PropertyPermission {
            property_owner: subject_idx,
            property_granted: property,
            where_granted,
            storage_data: None,
        });
        subject.permissions_list.push(idx);
        idx
    }

    /// The name of the property permitted.
    pub fn get_property(&self) -> (r: &'static str)
        ensures
            r == self.property_granted,
    {
        self.property_granted
    }

    /// The index of the subject holding the permission.
    pub fn get_owner(&self) -> (r: usize)
        ensures
            r == self.property_owner,
    {
        self.property_owner
    }

    /// The storage data of the permission.
    pub fn get_storage_data(&self) -> (r: Option<&'static str>)
        ensures
            r == self.storage_data,
    {
        self.storage_data
    }

    /// Where the permission was granted.
    pub fn where_granted(&self) -> (r: Option<&'static str>)
        ensures
            r == self.where_granted,
    {
        self.where_granted
    }
}

/// Granting is idempotent: granting a property a second time returns the
/// permission the first grant returned and changes nothing; and the subject's
/// own permissions then contain it.
pub proof fn law_grant_twice(list: Seq<usize>, perms: Seq<PropertyPermission>, prop: &'static str, owner: usize, where_granted: Option<&'static str>)
    requires
        perms.len() <= usize::MAX,
        forall|q: int| 0 <= q < list.len() ==> list[q] < perms.len(),
    ensures
        ({
            let (list1, perms1, pp) = match first_grant(list, perms, prop@, 0) {
                Some(pp) => (list, perms, pp),
                None => (list.push(perms.len() as usize), perms.push(PropertyPermission {
                    property_owner: owner, property_granted: prop, where_granted, storage_data: None,
                }), perms.len() as usize),
            };
            first_grant(list1, perms1, prop@, 0) == Some(pp)
        }),
{
    lemma_first_grant_found(list, perms, prop@, 0);
    match first_grant(list, perms, prop@, 0) {
        Some(pp) => {},
        None => {
            let list1 = list.push(perms.len() as usize);
            let perms1 = perms.push(PropertyPermission {
                property_owner: owner, property_granted: prop, where_granted, storage_data: None,
            });
            assert forall|q: int| 0 <= q < list.len() implies !grants(list1[q], perms1, prop@) by {
                assert(list1[q] == list[q]);
                assert(perms1[list[q] as int] == perms[list[q] as int]);
            }
            assert(grants(list1[list.len() as int], perms1, prop@));
            lemma_first_grant_from(list1, perms1, prop@, list.len() as int);
        },
    }
}

/// The first permission found from position `i` on is one for `prop`, and none before it is.
pub proof fn lemma_first_grant_found(list: Seq<usize>, perms: Seq<PropertyPermission>, prop: Seq<char>, i: int)
    requires
        0 <= i,
    ensures
        match first_grant(list, perms, prop, i) {
            Some(pp) => grants(pp, perms, prop) && exists|p: int| i <= p < list.len() && list[p] == pp
                && forall|q: int| i <= q < p ==> !grants(list[q], perms, prop),
            None => forall|q: int| i <= q < list.len() ==> !grants(list[q], perms, prop),
        },
    decreases list.len() - i,
{
    if i < list.len() {
        lemma_first_grant_found(list, perms, prop, i + 1);
        if grants(list[i], perms, prop) {
            assert(list[i] == list[i]);
        }
    }
}

/// When no position before `i` grants `prop`, the search from 0 and from `i` agree.
proof fn lemma_first_grant_from(list: Seq<usize>, perms: Seq<PropertyPermission>, prop: Seq<char>, i: int)
    requires
        0 <= i <= list.len(),
        forall|q: int| 0 <= q < i ==> !grants(list[q], perms, prop),
    ensures
        first_grant(list, perms, prop, 0) == first_grant(list, perms, prop, i),
    decreases i,
{
    if i > 0 {
        lemma_first_grant_from(list, perms, prop, i - 1);
    }
}

} // verus!
