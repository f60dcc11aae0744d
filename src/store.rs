//! A snapshot of the resources an object holds.
use vstd::prelude::*;

use crate::resource::ResourceType;

verus! {

/// An amount of one resource type.
#[derive(Clone, Copy, Debug, PartialEq, Eq, Structural)]
pub struct ResourceAmount {
    pub resource: ResourceType,
    pub amount: u32,
}

/// The held amounts that a sequence of entries records: a later entry for a
/// resource type stands over an earlier one.
pub open spec fn amounts_of(s: Seq<ResourceAmount>) -> Map<ResourceType, u32>
    decreases s.len(),
{
    if s.len() == 0 {
        Map::empty()
    } else {
        amounts_of(s.drop_last()).insert(s.last().resource, s.last().amount)
    }
}

/// The resources held by an object, as read for the current tick.
pub struct Store {
    entries: Vec<ResourceAmount>,
}

impl View for Store {
    type V = Map<ResourceType, u32>;

    closed spec fn view(&self) -> Map<ResourceType, u32> {
        amounts_of(self.entries@)
    }
}

proof fn lemma_absent(s: Seq<ResourceAmount>, t: ResourceType)
    requires
        forall|j: int| 0 <= j < s.len() ==> (#[trigger] s[j]).resource != t,
    ensures
        !amounts_of(s).contains_key(t),
    decreases s.len(),
{
    if s.len() > 0 {
        lemma_absent(s.drop_last(), t);
    }
}

proof fn lemma_last_entry(s: Seq<ResourceAmount>, i: int)
    requires
        0 <= i < s.len(),
        forall|j: int| i < j < s.len() ==> (#[trigger] s[j]).resource != s[i].resource,
    ensures
        amounts_of(s).contains_key(s[i].resource),
        amounts_of(s)[s[i].resource] == s[i].amount,
    decreases s.len(),
{
    if i < s.len() - 1 {
        lemma_last_entry(s.drop_last(), i);
    }
}

proof fn lemma_replace_last_entry(s: Seq<ResourceAmount>, i: int, e: ResourceAmount)
    requires
        0 <= i < s.len(),
        e.resource == s[i].resource,
        forall|j: int| i < j < s.len() ==> (#[trigger] s[j]).resource != s[i].resource,
    ensures
        amounts_of(s.update(i, e)) == amounts_of(s).insert(e.resource, e.amount),
    decreases s.len(),
{
    let u = s.update(i, e);
    if i == s.len() - 1 {
        assert(u.drop_last() =~= s.drop_last());
        assert(amounts_of(u) =~= amounts_of(s).insert(e.resource, e.amount));
    } else {
        lemma_replace_last_entry(s.drop_last(), i, e);
        assert(u.drop_last() =~= s.drop_last().update(i, e));
        assert(amounts_of(u) =~= amounts_of(s).insert(e.resource, e.amount));
    }
}

impl Store {
    /// A store that holds nothing.
    pub fn new() -> (r: Store)
        ensures
            r@ == Map::<ResourceType, u32>::empty(),
    {
        Store { entries: Vec::new() }
    }

    /// Records that `amount` of `resource` is held, in place of any amount
    /// recorded before.
    pub fn set_amount(&mut self, resource: ResourceType, amount: u32)
        ensures
            final(self)@ == old(self)@.insert(resource, amount),
    {
        let e = ResourceAmount { resource, amount };
        let mut i: usize = self.entries.len();
        while i > 0
            invariant
                i <= self.entries@.len(),
                self.entries@ == old(self).entries@,
                e.resource == resource,
                e.amount == amount,
                forall|j: int| i <= j < self.entries@.len() ==> (#[trigger] self.entries@[j]).resource != resource,
            decreases i,
        {
            if self.entries[i - 1].resource == resource {
                proof {
                    lemma_replace_last_entry(self.entries@, i - 1, e);
                }
                self.entries.set(i - 1, e);
                return;
            }
            i = i - 1;
        }
        self.entries.push(e);
        assert(self.entries@.drop_last() =~= old(self).entries@);
    }

    /// The amount of `resource` held; zero where none is recorded.
    pub fn get_used_capacity(&self, resource: ResourceType) -> (r: u32)
        ensures
            r == (if self@.contains_key(resource) { self@[resource] } else { 0 }),
    {
        let mut i: usize = self.entries.len();
        while i > 0
            invariant
                i <= self.entries@.len(),
                forall|j: int| i <= j < self.entries@.len() ==> (#[trigger] self.entries@[j]).resource != resource,
            decreases i,
        {
            if self.entries[i - 1].resource == resource {
                proof {
                    lemma_last_entry(self.entries@, i - 1);
                }
                return self.entries[i - 1].amount;
            }
            i = i - 1;
        }
        proof {
            lemma_absent(self.entries@, resource);
        }
        0
    }
}

} // verus!
