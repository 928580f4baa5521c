//! Building lists from lists.

use vstd::prelude::*;

verus! {

/// A copy of a list of plain values.
pub fn copied<T: Copy>(values: &Vec<T>) -> (result: Vec<T>)
    ensures
        result@ == values@,
{
    let mut copy: Vec<T> = Vec::new();
    let mut index: usize = 0;
    while index < values.len()
        invariant
            index <= values@.len(),
            copy@ =~= values@.take(index as int),
        decreases values@.len() - index,
    {
        copy.push(values[index]);
        assert(values@.take(index + 1) =~= values@.take(index as int).push(values@[index as int]));
        index = index + 1;
    }
    assert(values@.take(index as int) =~= values@);
    copy
}

/// What a function makes of each value, in order.
pub fn mapped<T, U, F: Fn(&T) -> U>(values: &Vec<T>, make: F) -> (result: Vec<U>)
    requires
        forall|i: int| 0 <= i < values@.len() ==> call_requires(make, (&#[trigger] values@[i],)),
    ensures
        result@.len() == values@.len(),
        forall|i: int|
            0 <= i < values@.len() ==> call_ensures(make, (&values@[i],), #[trigger] result@[i]),
{
    let mut made: Vec<U> = Vec::new();
    let mut index: usize = 0;
    while index < values.len()
        invariant
            index <= values@.len(),
            made@.len() == index,
            forall|i: int|
                0 <= i < values@.len() ==> call_requires(make, (&#[trigger] values@[i],)),
            forall|i: int|
                0 <= i < index ==> call_ensures(make, (&values@[i],), #[trigger] made@[i]),
        decreases values@.len() - index,
    {
        let next: U = make(&values[index]);
        made.push(next);
        index = index + 1;
    }
    made
}

/// The first issue that a list raises, in order.
pub open spec fn first_issue<T, E>(values: Seq<T>, issue: spec_fn(T) -> Option<E>) -> Option<E>
    decreases values.len(),
{
    if values.len() == 0 {
        None
    } else {
        let earlier = first_issue(values.drop_last(), issue);
        if earlier is Some {
            earlier
        } else {
            issue(values.last())
        }
    }
}

/// The first of two issues.
pub open spec fn either_issue<E>(first: Option<E>, second: Option<E>) -> Option<E> {
    if first is Some {
        first
    } else {
        second
    }
}

/// A list raises its first issue at the first value that raises one.
pub proof fn issue_of_prefix<T, E>(
    values: Seq<T>,
    place: int,
    issue: spec_fn(T) -> Option<E>,
)
    requires
        0 <= place < values.len(),
        first_issue(values.take(place), issue) is None,
    ensures
        first_issue(values.take(place + 1), issue) == issue(values[place]),
        issue(values[place]) is Some ==> first_issue(values, issue) == issue(values[place]),
    decreases values.len(),
{
    assert(values.take(place + 1).drop_last() =~= values.take(place));
    if issue(values[place]) is Some {
        if place + 1 == values.len() {
            assert(values.take(place + 1) =~= values);
        } else {
            assert(values.drop_last().take(place) =~= values.take(place));
            issue_of_prefix(values.drop_last(), place, issue);
        }
    }
}

/// A list of values that raise no issue raises none.
pub proof fn no_issue<T, E>(values: Seq<T>, issue: spec_fn(T) -> Option<E>)
    ensures
        first_issue(values, issue) is None <==> forall|i: int|
            0 <= i < values.len() ==> issue(#[trigger] values[i]) is None,
    decreases values.len(),
{
    if values.len() > 0 {
        let front = values.drop_last();
        no_issue(front, issue);
        if first_issue(values, issue) is None {
            assert forall|i: int| 0 <= i < values.len() implies issue(#[trigger] values[i])
                is None by {
                if i < front.len() {
                    assert(front[i] == values[i]);
                }
            }
        } else if first_issue(front, issue) is Some {
            let i = choose|i: int| 0 <= i < front.len() && issue(#[trigger] front[i]) is Some;
            assert(issue(values[i]) is Some);
        } else {
            assert(issue(values[values.len() - 1]) is Some);
        }
    }
}

/// The place of the first value that passes a test.
pub open spec fn first_place<T>(values: Seq<T>, test: spec_fn(T) -> bool) -> Option<int>
    decreases values.len(),
{
    if values.len() == 0 {
        None
    } else {
        let earlier = first_place(values.drop_last(), test);
        if earlier is Some {
            earlier
        } else if test(values.last()) {
            Some(values.len() - 1)
        } else {
            None
        }
    }
}

/// The first value that passes a test.
pub open spec fn first_value<T>(values: Seq<T>, test: spec_fn(T) -> bool) -> Option<T> {
    match first_place(values, test) {
        Some(place) => Some(values[place]),
        None => None,
    }
}

/// The first place is the least one that passes, and there is none exactly when
/// no value passes.
pub proof fn first_place_is_least<T>(values: Seq<T>, test: spec_fn(T) -> bool)
    ensures
        match first_place(values, test) {
            Some(place) => {
                &&& 0 <= place < values.len()
                &&& test(values[place])
                &&& forall|i: int| 0 <= i < place ==> !test(#[trigger] values[i])
            },
            None => forall|i: int| 0 <= i < values.len() ==> !test(#[trigger] values[i]),
        },
    decreases values.len(),
{
    if values.len() > 0 {
        let front = values.drop_last();
        first_place_is_least(front, test);
        match first_place(front, test) {
            Some(place) => {
                assert forall|i: int| 0 <= i < place implies !test(#[trigger] values[i]) by {
                    assert(front[i] == values[i]);
                }
            },
            None => {
                assert forall|i: int| 0 <= i < values.len() - 1 implies !test(
                    #[trigger] values[i],
                ) by {
                    assert(front[i] == values[i]);
                }
            },
        }
    }
}

/// A place that passes after none before it did is the first place.
pub proof fn first_place_found<T>(values: Seq<T>, test: spec_fn(T) -> bool, place: int)
    requires
        0 <= place < values.len(),
        test(values[place]),
        forall|i: int| 0 <= i < place ==> !test(#[trigger] values[i]),
    ensures
        first_place(values, test) == Some(place),
{
    first_place_is_least(values, test);
    if let Some(found) = first_place(values, test) {
        if found < place {
            assert(!test(values[found]));
        }
        if place < found {
            assert(!test(values[place]));
        }
    } else {
        assert(!test(values[place]));
    }
}

/// Looks for the first value that passes a test.
pub(crate) fn find<T, F: Fn(&T) -> bool>(
    values: &Vec<T>,
    test: F,
    Ghost(wanted): Ghost<spec_fn(T) -> bool>,
) -> (result: Option<usize>)
    requires
        forall|value: &T| call_requires(test, (value,)),
        forall|value: &T, passes: bool|
            call_ensures(test, (value,), passes) ==> passes == wanted(*value),
    ensures
        match result {
            Some(place) => first_place(values@, wanted) == Some(place as int) && place
                < values@.len(),
            None => first_place(values@, wanted) is None,
        },
{
    let mut index: usize = 0;
    while index < values.len()
        invariant
            index <= values@.len(),
            forall|value: &T| call_requires(test, (value,)),
            forall|value: &T, passes: bool|
                call_ensures(test, (value,), passes) ==> passes == wanted(*value),
            forall|i: int| 0 <= i < index ==> !wanted(#[trigger] values@[i]),
        decreases values@.len() - index,
    {
        if test(&values[index]) {
            proof {
                first_place_found(values@, wanted, index as int);
            }
            return Some(index);
        }
        index = index + 1;
    }
    proof {
        first_place_is_least(values@, wanted);
    }
    None
}

/// Whether a value occurs in a list.
pub fn lists(values: &Vec<u64>, wanted: u64) -> (result: bool)
    ensures
        result == values@.contains(wanted),
{
    let mut index: usize = 0;
    while index < values.len()
        invariant
            index <= values@.len(),
            forall|i: int| 0 <= i < index ==> values@[i] != wanted,
        decreases values@.len() - index,
    {
        if values[index] == wanted {
            return true;
        }
        index = index + 1;
    }
    false
}

} // verus!
