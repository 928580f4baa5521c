//! What does not depend on the order of a list.

use vstd::multiset::Multiset;
use vstd::prelude::*;

verus! {

/// What the values of a list come to together, whatever part each of them has in
/// it.
pub open spec fn gathered<A, B>(values: Seq<A>, part: spec_fn(A) -> Multiset<B>) -> Multiset<B>
    decreases values.len(),
{
    if values.len() == 0 {
        Multiset::empty()
    } else {
        gathered(values.drop_last(), part).add(part(values.last()))
    }
}

proof fn a_value_adds_its_part<A, B>(
    values: Seq<A>,
    part: spec_fn(A) -> Multiset<B>,
    place: int,
)
    requires
        0 <= place < values.len(),
    ensures
        gathered(values, part) == gathered(values.remove(place), part).add(part(values[place])),
    decreases values.len(),
{
    if place == values.len() - 1 {
        assert(values.remove(place) =~= values.drop_last());
    } else {
        let front = values.drop_last();
        a_value_adds_its_part(front, part, place);
        assert(values.remove(place).drop_last() =~= front.remove(place));
        assert(values.remove(place).last() == values.last());
        assert(gathered(values, part) =~= gathered(values.remove(place), part).add(
            part(values[place]),
        ));
    }
}

/// Lists of the same values, in whatever order, come to the same.
pub proof fn the_order_gathers_the_same<A, B>(
    one: Seq<A>,
    other: Seq<A>,
    part: spec_fn(A) -> Multiset<B>,
)
    requires
        one.to_multiset() == other.to_multiset(),
    ensures
        gathered(one, part) == gathered(other, part),
    decreases one.len(),
{
    broadcast use vstd::seq_lib::group_to_multiset_ensures;

    assert(one.len() == one.to_multiset().len());
    assert(other.len() == other.to_multiset().len());
    if one.len() > 0 {
        let last = one.last();
        let front = one.drop_last();
        assert(one =~= front.push(last));
        assert(one.to_multiset() =~= front.to_multiset().insert(last));
        assert(other.to_multiset().count(last) > 0);
        assert(other.contains(last));
        let place = other.index_of(last);
        assert(other[place] == last);
        let rest = other.remove(place);
        assert(rest.to_multiset() =~= other.to_multiset().remove(last));
        assert(front.to_multiset() =~= rest.to_multiset());
        the_order_gathers_the_same(front, rest, part);
        a_value_adds_its_part(other, part, place);
    }
}

} // verus!
