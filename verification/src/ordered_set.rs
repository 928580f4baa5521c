//! Sets that are walked in ascending order.

use vstd::prelude::*;

verus! {

/// A strict total order.
pub trait Ordered: Copy {
    spec fn before(self, other: Self) -> bool;

    proof fn irreflexive(value: Self)
        ensures
            !value.before(value),
    ;

    proof fn transitive(first: Self, second: Self, third: Self)
        requires
            first.before(second),
            second.before(third),
        ensures
            first.before(third),
    ;

    proof fn total(first: Self, second: Self)
        ensures
            first.before(second) || second.before(first) || first == second,
    ;

    fn is_before(&self, other: &Self) -> (result: bool)
        ensures
            result == self.before(*other),
    ;
}

impl Ordered for u64 {
    open spec fn before(self, other: Self) -> bool {
        self < other
    }

    proof fn irreflexive(value: Self) {
    }

    proof fn transitive(first: Self, second: Self, third: Self) {
    }

    proof fn total(first: Self, second: Self) {
    }

    fn is_before(&self, other: &Self) -> (result: bool) {
        *self < *other
    }
}

/// Values in ascending order, each of them once.
pub open spec fn ascending<T: Ordered>(values: Seq<T>) -> bool {
    forall|i: int, j: int|
        0 <= i < j < values.len() ==> (#[trigger] values[i]).before(#[trigger] values[j])
}

/// A set, held as its values in ascending order.
#[derive(Debug)]
pub struct OrderedSet<T> {
    pub values: Vec<T>,
}

impl<T: Ordered> View for OrderedSet<T> {
    type V = Set<T>;

    open spec fn view(&self) -> Set<T> {
        self.values@.to_set()
    }
}

impl<T: Ordered> OrderedSet<T> {
    pub open spec fn wf(self) -> bool {
        ascending(self.values@)
    }

    pub fn new() -> (result: Self)
        ensures
            result.wf(),
            result@ == Set::<T>::empty(),
            result.values@.len() == 0,
    {
        let set = OrderedSet { values: Vec::new() };
        assert(set@ =~= Set::<T>::empty());
        set
    }

    /// How many values come before this one.
    fn place(&self, value: &T) -> (result: usize)
        requires
            self.wf(),
        ensures
            result <= self.values@.len(),
            forall|i: int| 0 <= i < result ==> (#[trigger] self.values@[i]).before(*value),
            forall|i: int|
                result <= i < self.values@.len() ==> !(#[trigger] self.values@[i]).before(*value),
    {
        let mut index: usize = 0;
        while index < self.values.len() && self.values[index].is_before(value)
            invariant
                index <= self.values@.len(),
                forall|i: int| 0 <= i < index ==> (#[trigger] self.values@[i]).before(*value),
            decreases self.values@.len() - index,
        {
            index = index + 1;
        }
        proof {
            assert forall|i: int| index <= i < self.values@.len() implies !(
            #[trigger] self.values@[i]).before(*value) by {
                if self.values@[i].before(*value) {
                    let first = self.values@[index as int];
                    if i > index {
                        assert(first.before(self.values@[i]));
                        T::transitive(first, self.values@[i], *value);
                    }
                }
            }
        }
        index
    }

    pub fn contains(&self, value: &T) -> (result: bool)
        requires
            self.wf(),
        ensures
            result == self@.contains(*value),
    {
        let place: usize = self.place(value);
        if place < self.values.len() && !value.is_before(&self.values[place]) {
            proof {
                T::total(*value, self.values@[place as int]);
                assert(self.values@.contains(*value));
            }
            true
        } else {
            proof {
                if self.values@.contains(*value) {
                    let i = self.values@.index_of(*value);
                    T::irreflexive(*value);
                    assert(!(i < place));
                    if place < i {
                        let first = self.values@[place as int];
                        assert(first.before(self.values@[i]));
                        T::transitive(*value, first, *value);
                    }
                }
            }
            false
        }
    }

    /// Adds a value; says whether it was new.
    pub fn insert(&mut self, value: T) -> (result: bool)
        requires
            old(self).wf(),
        ensures
            final(self).wf(),
            final(self)@ == old(self)@.insert(value),
            result == !old(self)@.contains(value),
    {
        let ghost before = self.values@;
        if self.contains(&value) {
            assert(self@.insert(value) =~= self@);
            return false;
        }
        let place: usize = self.place(&value);
        self.values.insert(place, value);
        proof {
            let after = self.values@;
            assert(after =~= before.insert(place as int, value));
            assert forall|i: int, j: int| 0 <= i < j < after.len() implies (
            #[trigger] after[i]).before(#[trigger] after[j]) by {
                if i < place && j == place {
                    assert(before[i].before(value));
                } else if i == place {
                    let other = before[j - 1];
                    assert(!other.before(value));
                    T::total(other, value);
                    if other == value {
                        assert(before.contains(value));
                    }
                } else {
                    let a = if i < place {
                        before[i]
                    } else {
                        before[i - 1]
                    };
                    let b = if j < place {
                        before[j]
                    } else {
                        before[j - 1]
                    };
                    assert(after[i] == a);
                    assert(after[j] == b);
                }
            }
            assert(after.to_set() =~= before.to_set().insert(value)) by {
                assert forall|x: T| after.contains(x) == (before.contains(x) || x == value) by {
                    if before.contains(x) {
                        let i = before.index_of(x);
                        if i < place {
                            assert(after[i] == x);
                        } else {
                            assert(after[i + 1] == x);
                        }
                    }
                    assert(after[place as int] == value);
                    if after.contains(x) {
                        let i = after.index_of(x);
                        if i < place {
                            assert(before[i] == x);
                        } else if i > place {
                            assert(before[i - 1] == x);
                        }
                    }
                }
            }
        }
        true
    }

    /// Takes a value out; says whether it was there.
    pub fn remove(&mut self, value: &T) -> (result: bool)
        requires
            old(self).wf(),
        ensures
            final(self).wf(),
            final(self)@ == old(self)@.remove(*value),
            result == old(self)@.contains(*value),
    {
        let ghost before = self.values@;
        if !self.contains(value) {
            assert(self@.remove(*value) =~= self@);
            return false;
        }
        let place: usize = self.place(value);
        proof {
            let i = before.index_of(*value);
            T::irreflexive(*value);
            assert(!(i < place));
            if place < i {
                let first = before[place as int];
                assert(first.before(before[i]));
            }
            assert(before[place as int] == *value);
        }
        self.values.remove(place);
        proof {
            let after = self.values@;
            assert(after =~= before.remove(place as int));
            assert forall|i: int, j: int| 0 <= i < j < after.len() implies (
            #[trigger] after[i]).before(#[trigger] after[j]) by {
                let a = if i < place {
                    i
                } else {
                    i + 1
                };
                let b = if j < place {
                    j
                } else {
                    j + 1
                };
                assert(before[a].before(before[b]));
            }
            assert(after.to_set() =~= before.to_set().remove(*value)) by {
                assert forall|x: T| after.contains(x) == (before.contains(x) && x != *value) by {
                    if after.contains(x) {
                        let i = after.index_of(x);
                        let a = if i < place {
                            i
                        } else {
                            i + 1
                        };
                        assert(before[a] == x);
                        if x == *value {
                            T::irreflexive(x);
                            if a < place {
                                assert(before[a].before(before[place as int]));
                            } else {
                                assert(before[place as int].before(before[a]));
                            }
                        }
                    }
                    if before.contains(x) && x != *value {
                        let i = before.index_of(x);
                        if i < place {
                            assert(after[i] == x);
                        } else {
                            assert(after[i - 1] == x);
                        }
                    }
                }
            }
        }
        true
    }

    pub fn len(&self) -> (result: usize)
        requires
            self.wf(),
        ensures
            result == self@.len(),
            result == self.values@.len(),
            self@.finite(),
    {
        proof {
            assert(self.values@.no_duplicates()) by {
                assert forall|i: int, j: int|
                    0 <= i < self.values@.len() && 0 <= j < self.values@.len() && i != j implies
                    self.values@[i] != self.values@[j] by {
                    T::irreflexive(self.values@[i]);
                    if i < j {
                        assert(self.values@[i].before(self.values@[j]));
                    } else {
                        assert(self.values@[j].before(self.values@[i]));
                    }
                }
            }
            self.values@.unique_seq_to_set();
        }
        self.values.len()
    }

    pub fn is_empty(&self) -> (result: bool)
        ensures
            result == (self@ == Set::<T>::empty()),
    {
        proof {
            if self.values@.len() == 0 {
                assert(self@ =~= Set::<T>::empty());
            } else {
                assert(self@.contains(self.values@[0]));
            }
        }
        self.values.len() == 0
    }

    pub fn copy(&self) -> (result: Self)
        ensures
            result.values@ == self.values@,
            result@ == self@,
            self.wf() ==> result.wf(),
    {
        OrderedSet { values: crate::collect::copied(&self.values) }
    }
}

/// A set has one representation.
pub proof fn equal_sets_have_equal_values<T: Ordered>(left: Seq<T>, right: Seq<T>)
    requires
        ascending(left),
        ascending(right),
        left.to_set() == right.to_set(),
    ensures
        left == right,
    decreases left.len(),
{
    if left.len() == 0 {
        if right.len() > 0 {
            assert(right.to_set().contains(right[0]));
            assert(left.contains(right[0]));
        }
        assert(left =~= right);
    } else {
        let a = left[left.len() - 1];
        assert(right.to_set().contains(a)) by {
            assert(left.to_set().contains(a));
        }
        assert(right.len() > 0);
        let b = right[right.len() - 1];
        assert(left.contains(b)) by {
            assert(right.to_set().contains(b));
            assert(left.to_set().contains(b));
        }
        let i = left.index_of(b);
        let j = right.index_of(a);
        if i < left.len() - 1 && j < right.len() - 1 {
            assert(left[i].before(a));
            assert(right[j].before(b));
            T::transitive(a, b, a);
            T::irreflexive(a);
        }
        assert(a == b);
        let l = left.drop_last();
        let r = right.drop_last();
        assert(l.to_set() =~= left.to_set().remove(a)) by {
            last_is_the_one_left_out(left);
        }
        assert(r.to_set() =~= right.to_set().remove(b)) by {
            last_is_the_one_left_out(right);
        }
        equal_sets_have_equal_values(l, r);
        assert(left =~= l.push(a));
        assert(right =~= r.push(b));
    }
}

proof fn last_is_the_one_left_out<T: Ordered>(values: Seq<T>)
    requires
        ascending(values),
        values.len() > 0,
    ensures
        values.drop_last().to_set() == values.to_set().remove(values.last()),
{
    let front = values.drop_last();
    assert(front.to_set() =~= values.to_set().remove(values.last())) by {
        assert forall|x: T| front.contains(x) == (values.contains(x) && x != values.last()) by {
            if front.contains(x) {
                let i = front.index_of(x);
                assert(values[i] == x);
                assert(values[i].before(values[values.len() - 1]));
                T::irreflexive(x);
            }
            if values.contains(x) && x != values.last() {
                let i = values.index_of(x);
                assert(front[i] == x);
            }
        }
    }
}

} // verus!
