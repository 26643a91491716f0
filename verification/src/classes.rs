//! The set of class names that a scan found.

use vstd::prelude::*;
use vstd::string::*;

verus! {

/// Whether two strings hold the same text.
pub fn same_text(a: &str, b: &str) -> (r: bool)
    ensures
        r == (a@ == b@),
{
    let left = String::from_str(a);
    let right = String::from_str(b);
    left == right
}

/// A set of class names. Each name is held once, in the order in which it
/// first came.
#[derive(Clone, Debug)]
pub struct Classes {
    names: Vec<String>,
}

impl Classes {
    /// Whether the value is a set: no name is held twice.
    pub open spec fn wf(self) -> bool {
        Self::distinct_names(self.order())
    }

    /// The names in the order in which they first came.
    pub closed spec fn order(self) -> Seq<Seq<char>> {
        Seq::new(self.names@.len(), |i: int| self.names@[i]@)
    }

    /// The names as a set.
    pub open spec fn view(self) -> Set<Seq<char>> {
        Set::new(|name: Seq<char>| self.order().contains(name))
    }

    /// Whether no name stands twice in `order`.
    pub open spec fn distinct_names(order: Seq<Seq<char>>) -> bool {
        forall|i: int, j: int| 0 <= i < j < order.len() ==> order[i] != order[j]
    }

    /// The empty set.
    pub fn new() -> (r: Self)
        ensures
            r.wf(),
            r@ == Set::<Seq<char>>::empty(),
            r.order() == Seq::<Seq<char>>::empty(),
    {
        let r = Classes { names: Vec::new() };
        assert(r.order() =~= Seq::<Seq<char>>::empty());
        assert(r@ =~= Set::<Seq<char>>::empty());
        r
    }

    /// How many names the set holds.
    pub fn len(&self) -> (n: usize)
        ensures
            n == self.order().len(),
            self.wf() ==> self@.finite() && n == self@.len(),
    {
        proof {
            if self.wf() {
                assert(self.order().no_duplicates());
                self.order().unique_seq_to_set();
                assert(self@ =~= self.order().to_set());
            }
        }
        self.names.len()
    }

    /// Whether the set holds no name.
    pub fn is_empty(&self) -> (r: bool)
        ensures
            r == (self.order().len() == 0),
            r == (self@ == Set::<Seq<char>>::empty()),
    {
        let r = self.names.len() == 0;
        proof {
            if r {
                assert(self@ =~= Set::<Seq<char>>::empty());
            } else {
                assert(self.order()[0] == self.names@[0]@);
                assert(self@.contains(self.order()[0]));
            }
        }
        r
    }

    /// Whether `name` is in the set.
    pub fn contains(&self, name: &str) -> (r: bool)
        ensures
            r == self@.contains(name@),
    {
        let n: usize = self.names.len();
        let mut i: usize = 0;
        while i < n
            invariant
                i <= n,
                n == self.names@.len(),
                forall|j: int| 0 <= j < i ==> self.names@[j]@ != name@,
            decreases n - i,
        {
            if same_text(self.names[i].as_str(), name) {
                assert(self.order()[i as int] == name@);
                return true;
            }
            i = i + 1;
        }
        false
    }

    /// Adds `name` to the set. Returns whether it was new.
    pub fn insert(&mut self, name: &str) -> (fresh: bool)
        requires
            old(self).wf(),
        ensures
            final(self).wf(),
            final(self)@ == old(self)@.insert(name@),
            fresh == !old(self)@.contains(name@),
            fresh ==> final(self).order() == old(self).order().push(name@),
            !fresh ==> final(self).order() == old(self).order(),
    {
        if self.contains(name) {
            assert(self@ =~= old(self)@.insert(name@));
            false
        } else {
            let ghost before = self.order();
            assert forall|j: int| 0 <= j < self.names@.len() implies self.names@[j]@ != name@ by {
                assert(self.order()[j] == self.names@[j]@);
            }
            self.names.push(String::from_str(name));
            assert(self.order() =~= before.push(name@));
            assert forall|x: Seq<char>| self@.contains(x) == old(self)@.insert(name@).contains(
                x,
            ) by {
                if before.contains(x) {
                    let k = choose|k: int| 0 <= k < before.len() && before[k] == x;
                    assert(self.order()[k] == x);
                }
                if x == name@ {
                    assert(self.order()[before.len() as int] == x);
                }
            }
            assert(self@ =~= old(self)@.insert(name@));
            true
        }
    }

    /// The name at place `i` of the order.
    pub fn name(&self, i: usize) -> (r: &str)
        requires
            i < self.order().len(),
        ensures
            r@ == self.order()[i as int],
    {
        self.names[i].as_str()
    }

    /// The set of the given names.
    pub fn from_names(names: &Vec<String>) -> (r: Self)
        ensures
            r.wf(),
            r@ == Set::new(|x: Seq<char>| exists|i: int| 0 <= i < names@.len() && names@[i]@ == x),
    {
        let mut r = Classes::new();
        let n: usize = names.len();
        let mut i: usize = 0;
        while i < n
            invariant
                i <= n,
                n == names@.len(),
                r.wf(),
                r@ == Set::new(|x: Seq<char>| exists|k: int| 0 <= k < i && names@[k]@ == x),
            decreases n - i,
        {
            r.insert(names[i].as_str());
            assert(r@ =~= Set::new(
                |x: Seq<char>| exists|k: int| 0 <= k < i + 1 && names@[k]@ == x,
            ));
            i = i + 1;
        }
        r
    }

    /// Adds every name of `other` to the set.
    pub fn extend(&mut self, other: &Classes)
        requires
            old(self).wf(),
        ensures
            final(self).wf(),
            final(self)@ == old(self)@.union(other@),
    {
        let n: usize = other.len();
        let mut i: usize = 0;
        while i < n
            invariant
                i <= n,
                n == other.order().len(),
                self.wf(),
                self@ == old(self)@.union(
                    Set::new(|x: Seq<char>| exists|k: int| 0 <= k < i && other.order()[k] == x),
                ),
            decreases n - i,
        {
            self.insert(other.name(i));
            assert(self@ =~= old(self)@.union(
                Set::new(|x: Seq<char>| exists|k: int| 0 <= k < i + 1 && other.order()[k] == x),
            ));
            i = i + 1;
        }
        assert(self@ =~= old(self)@.union(other@));
    }
}

} // verus!
