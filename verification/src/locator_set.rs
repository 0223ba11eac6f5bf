//! A finite set of locators.

use vstd::prelude::*;
use crate::ids::Locator;

verus! {

/// A finite set of locators. Its view is the mathematical set of its members.
#[derive(Debug)]
pub struct LocatorSet {
    items: Vec<Locator>,
}

impl View for LocatorSet {
    type V = Set<Locator>;

    closed spec fn view(&self) -> Set<Locator> {
        self.items@.to_set()
    }
}

/// Removing the element at `i` from a sequence without duplicates removes
/// exactly that element from the set of its members.
pub(crate) proof fn lemma_remove_member(s: Seq<Locator>, i: int)
    requires
        s.no_duplicates(),
        0 <= i < s.len(),
    ensures
        s.remove(i).no_duplicates(),
        s.remove(i).to_set() == s.to_set().remove(s[i]),
{
    let r = s.remove(i);
    assert forall|x: Locator| r.to_set().contains(x) <==> s.to_set().remove(s[i]).contains(
        x,
    ) by {
        if s.contains(x) && x != s[i] {
            let k = choose|k: int| 0 <= k < s.len() && s[k] == x;
            assert(r[if k < i { k } else { k - 1 }] == x);
        }
    }
}

/// Appending an element that is not yet a member keeps the sequence free of
/// duplicates and adds exactly that element.
proof fn lemma_push_member(s: Seq<Locator>, x: Locator)
    requires
        s.no_duplicates(),
        !s.contains(x),
    ensures
        s.push(x).no_duplicates(),
        s.push(x).to_set() == s.to_set().insert(x),
{
    lemma_push_members(s, x);
}

/// The members of a sequence with one more element are those of the
/// sequence and that element.
proof fn lemma_push_members(s: Seq<Locator>, x: Locator)
    ensures
        s.push(x).to_set() == s.to_set().insert(x),
{
    assert forall|y: Locator| s.push(x).to_set().contains(y) <==> s.to_set().insert(x).contains(
        y,
    ) by {
        vstd::seq_lib::lemma_seq_contains_after_push(s, x, y);
    }
}

/// The members of the first `i + 1` elements of a sequence are those of the
/// first `i` and the element at `i`.
proof fn lemma_take_one_more(s: Seq<Locator>, i: int)
    requires
        0 <= i < s.len(),
    ensures
        s.take(i + 1).to_set() == s.take(i).to_set().insert(s[i]),
{
    assert(s.take(i + 1) == s.take(i).push(s[i]));
    lemma_push_members(s.take(i), s[i]);
}

impl LocatorSet {
    #[verifier::type_invariant]
    spec fn inv(&self) -> bool {
        self.items@.no_duplicates()
    }

    /// The empty set.
    pub fn new() -> (s: LocatorSet)
        ensures
            s@ == Set::<Locator>::empty(),
    {
        LocatorSet { items: Vec::new() }
    }

    /// The set holding `locator` alone.
    pub fn singleton(locator: Locator) -> (s: LocatorSet)
        ensures
            s@ == Set::<Locator>::empty().insert(locator),
    {
        let mut s = LocatorSet::new();
        s.insert(locator);
        s
    }

    /// The set of the members of `locators`; repetitions count once.
    pub fn from_vec(locators: Vec<Locator>) -> (s: LocatorSet)
        ensures
            s@ == locators@.to_set(),
    {
        let mut s = LocatorSet::new();
        let mut i: usize = 0;
        while i < locators.len()
            invariant
                i <= locators@.len(),
                s@ == locators@.take(i as int).to_set(),
            decreases locators@.len() - i,
        {
            s.insert(locators[i]);
            proof {
                lemma_take_one_more(locators@, i as int);
            }
            i = i + 1;
        }
        proof {
            assert(locators@.take(locators@.len() as int) == locators@);
        }
        s
    }

    /// Position of `locator` among the stored items.
    fn position(&self, locator: Locator) -> (r: Option<usize>)
        ensures
            match r {
                Some(i) => i < self.items@.len() && self.items@[i as int] == locator,
                None => !self.items@.contains(locator),
            },
    {
        let mut i: usize = 0;
        while i < self.items.len()
            invariant
                i <= self.items@.len(),
                forall|j: int| 0 <= j < i ==> self.items@[j] != locator,
            decreases self.items@.len() - i,
        {
            if self.items[i] == locator {
                return Some(i);
            }
            i = i + 1;
        }
        None
    }

    /// Whether `locator` is a member.
    pub fn contains(&self, locator: Locator) -> (r: bool)
        ensures
            r == self@.contains(locator),
    {
        self.position(locator).is_some()
    }

    /// Whether the set has no member.
    pub fn is_empty(&self) -> (r: bool)
        ensures
            r == (self@ == Set::<Locator>::empty()),
    {
        let r = self.items.len() == 0;
        proof {
            if r {
                assert(self@ =~= Set::<Locator>::empty());
            } else {
                assert(self@.contains(self.items@[0]));
            }
        }
        r
    }

    /// Number of members.
    pub fn len(&self) -> (n: usize)
        ensures
            self@.finite(),
            n == self@.len(),
    {
        proof {
            use_type_invariant(self);
            self.items@.unique_seq_to_set();
            vstd::seq_lib::seq_to_set_is_finite(self.items@);
        }
        self.items.len()
    }

    /// Adds `locator`; returns whether it was new.
    pub fn insert(&mut self, locator: Locator) -> (added: bool)
        ensures
            final(self)@ == old(self)@.insert(locator),
            added == !old(self)@.contains(locator),
    {
        proof {
            use_type_invariant(&*self);
        }
        match self.position(locator) {
            Some(_) => false,
            None => {
                proof {
                    lemma_push_member(self.items@, locator);
                }
                let mut items: Vec<Locator> = Vec::new();
                std::mem::swap(&mut self.items, &mut items);
                items.push(locator);
                self.items = items;
                true
            },
        }
    }

    /// Takes `locator` out; returns whether it was a member.
    pub fn remove(&mut self, locator: Locator) -> (removed: bool)
        ensures
            final(self)@ == old(self)@.remove(locator),
            removed == old(self)@.contains(locator),
    {
        proof {
            use_type_invariant(&*self);
        }
        match self.position(locator) {
            Some(i) => {
                proof {
                    lemma_remove_member(self.items@, i as int);
                }
                let mut items: Vec<Locator> = Vec::new();
                std::mem::swap(&mut self.items, &mut items);
                items.remove(i);
                self.items = items;
                true
            },
            None => false,
        }
    }

    /// Adds every member of `other`.
    pub fn extend(&mut self, other: &LocatorSet)
        ensures
            final(self)@ == old(self)@.union(other@),
    {
        let mut i: usize = 0;
        while i < other.items.len()
            invariant
                i <= other.items@.len(),
                self@ == old(self)@.union(other.items@.take(i as int).to_set()),
            decreases other.items@.len() - i,
        {
            self.insert(other.items[i]);
            proof {
                lemma_take_one_more(other.items@, i as int);
            }
            i = i + 1;
        }
        proof {
            assert(other.items@.take(other.items@.len() as int) == other.items@);
        }
    }

    /// Takes every member out.
    pub fn clear(&mut self)
        ensures
            final(self)@ == Set::<Locator>::empty(),
    {
        self.items = Vec::new();
    }

    /// The members, each once.
    pub fn to_vec(&self) -> (v: Vec<Locator>)
        ensures
            v@.no_duplicates(),
            v@.to_set() == self@,
    {
        proof {
            use_type_invariant(self);
        }
        let mut v: Vec<Locator> = Vec::new();
        let mut i: usize = 0;
        while i < self.items.len()
            invariant
                i <= self.items@.len(),
                v@ == self.items@.take(i as int),
            decreases self.items@.len() - i,
        {
            v.push(self.items[i]);
            i = i + 1;
        }
        proof {
            assert(v@ == self.items@);
        }
        v
    }
}

impl Clone for LocatorSet {
    fn clone(&self) -> (s: LocatorSet)
        ensures
            s@ == self@,
    {
        LocatorSet { items: self.to_vec() }
    }
}

} // verus!
