//! The largest element of a non-empty slice, in a generic form and in forms
//! written out for one element type each.
use vstd::prelude::*;

verus! {

/// Reported when the largest element of an empty slice is asked for.
#[derive(Debug, Clone, Copy, PartialEq, Eq, Structural)]
pub struct EmptyInputError;

/// A type whose values are totally ordered: each value has an integer rank,
/// and distinct values have distinct ranks.
pub trait Comparable: Copy + Sized {
    /// The place of a value in the order.
    spec fn rank(self) -> int;

    /// Two values of the same rank are the same value.
    proof fn lemma_rank_injective(a: Self, b: Self)
        requires
            a.rank() == b.rank(),
        ensures
            a == b,
    ;

    /// Whether `self` comes strictly after `other` in the order.
    fn greater_than(&self, other: &Self) -> (r: bool)
        ensures
            r == (self.rank() > other.rank()),
    ;
}

impl Comparable for i32 {
    open spec fn rank(self) -> int {
        self as int
    }

    proof fn lemma_rank_injective(a: Self, b: Self) {
    }

    fn greater_than(&self, other: &Self) -> (r: bool) {
        *self > *other
    }
}

impl Comparable for char {
    open spec fn rank(self) -> int {
        self as int
    }

    proof fn lemma_rank_injective(a: Self, b: Self) {
    }

    fn greater_than(&self, other: &Self) -> (r: bool) {
        *self > *other
    }
}

/// The result of scanning `s` from the front while keeping the element seen
/// so far that no later element strictly exceeds: the earliest element of
/// greatest rank.
pub open spec fn max_of<T: Comparable>(s: Seq<T>) -> T
    recommends
        s.len() > 0,
    decreases s.len(),
{
    if s.len() <= 1 {
        s[0]
    } else {
        let m = max_of(s.drop_last());
        if s.last().rank() > m.rank() {
            s.last()
        } else {
            m
        }
    }
}

/// Returns the largest element of `list`, the earliest one among equals, or
/// `EmptyInputError` when `list` is empty.
pub fn find_max<T: Comparable>(list: &[T]) -> (r: Result<T, EmptyInputError>)
    ensures
        list@.len() == 0 ==> r == Err::<T, EmptyInputError>(EmptyInputError),
        list@.len() > 0 ==> r == Ok::<T, EmptyInputError>(max_of(list@)),
{
    if list.len() == 0 {
        return Err(EmptyInputError);
    }
    let mut largest = list[0];
    let mut i: usize = 1;
    while i < list.len()
        invariant
            1 <= i <= list@.len(),
            largest == max_of(list@.subrange(0, i as int)),
        decreases list@.len() - i,
    {
        let item = list[i];
        assert(list@.subrange(0, i + 1).drop_last() =~= list@.subrange(0, i as int));
        if item.greater_than(&largest) {
            largest = item;
        }
        i = i + 1;
    }
    assert(list@.subrange(0, list@.len() as int) =~= list@);
    Ok(largest)
}

/// The earliest largest integer of a non-empty sequence, scanned from the front.
pub open spec fn max_i32(s: Seq<i32>) -> i32
    recommends
        s.len() > 0,
    decreases s.len(),
{
    if s.len() <= 1 {
        s[0]
    } else {
        let m = max_i32(s.drop_last());
        if s.last() > m {
            s.last()
        } else {
            m
        }
    }
}

/// The earliest largest character of a non-empty sequence, scanned from the front.
pub open spec fn max_char(s: Seq<char>) -> char
    recommends
        s.len() > 0,
    decreases s.len(),
{
    if s.len() <= 1 {
        s[0]
    } else {
        let m = max_char(s.drop_last());
        if s.last() > m {
            s.last()
        } else {
            m
        }
    }
}

/// Returns the largest integer of `list`, or `EmptyInputError` when `list` is empty.
pub fn largest_fn(list: &[i32]) -> (r: Result<i32, EmptyInputError>)
    ensures
        list@.len() == 0 ==> r == Err::<i32, EmptyInputError>(EmptyInputError),
        list@.len() > 0 ==> r == Ok::<i32, EmptyInputError>(max_i32(list@)),
{
    if list.len() == 0 {
        return Err(EmptyInputError);
    }
    let mut largest: i32 = list[0];
    let mut i: usize = 1;
    while i < list.len()
        invariant
            1 <= i <= list@.len(),
            largest == max_i32(list@.subrange(0, i as int)),
        decreases list@.len() - i,
    {
        let item: i32 = list[i];
        assert(list@.subrange(0, i + 1).drop_last() =~= list@.subrange(0, i as int));
        if item > largest {
            largest = item;
        }
        i = i + 1;
    }
    assert(list@.subrange(0, list@.len() as int) =~= list@);
    Ok(largest)
}

/// Returns the largest integer of `list`, or `EmptyInputError` when `list` is empty.
pub fn largest_i32(list: &[i32]) -> (r: Result<i32, EmptyInputError>)
    ensures
        list@.len() == 0 ==> r == Err::<i32, EmptyInputError>(EmptyInputError),
        list@.len() > 0 ==> r == Ok::<i32, EmptyInputError>(max_i32(list@)),
{
    if list.len() == 0 {
        return Err(EmptyInputError);
    }
    let mut largest: i32 = list[0];
    let mut i: usize = 1;
    while i < list.len()
        invariant
            1 <= i <= list@.len(),
            largest == max_i32(list@.subrange(0, i as int)),
        decreases list@.len() - i,
    {
        let item: i32 = list[i];
        assert(list@.subrange(0, i + 1).drop_last() =~= list@.subrange(0, i as int));
        if item > largest {
            largest = item;
        }
        i = i + 1;
    }
    assert(list@.subrange(0, list@.len() as int) =~= list@);
    Ok(largest)
}

/// Returns the largest character of `list`, or `EmptyInputError` when `list` is empty.
pub fn largest_char(list: &[char]) -> (r: Result<char, EmptyInputError>)
    ensures
        list@.len() == 0 ==> r == Err::<char, EmptyInputError>(EmptyInputError),
        list@.len() > 0 ==> r == Ok::<char, EmptyInputError>(max_char(list@)),
{
    if list.len() == 0 {
        return Err(EmptyInputError);
    }
    let mut largest: char = list[0];
    let mut i: usize = 1;
    while i < list.len()
        invariant
            1 <= i <= list@.len(),
            largest == max_char(list@.subrange(0, i as int)),
        decreases list@.len() - i,
    {
        let item: char = list[i];
        assert(list@.subrange(0, i + 1).drop_last() =~= list@.subrange(0, i as int));
        if item > largest {
            largest = item;
        }
        i = i + 1;
    }
    assert(list@.subrange(0, list@.len() as int) =~= list@);
    Ok(largest)
}

/// The largest element of a non-empty sequence is one of its elements, and
/// no element of the sequence ranks above it.
pub proof fn lemma_max_is_upper_bound<T: Comparable>(s: Seq<T>)
    requires
        s.len() > 0,
    ensures
        s.contains(max_of(s)),
        forall|i: int| 0 <= i < s.len() ==> (#[trigger] s[i]).rank() <= max_of(s).rank(),
    decreases s.len(),
{
    if s.len() > 1 {
        let t = s.drop_last();
        lemma_max_is_upper_bound(t);
        let k = choose|k: int| 0 <= k < t.len() && t[k] == max_of(t);
        if s.last().rank() > max_of(t).rank() {
            assert(s[s.len() - 1] == max_of(s));
        } else {
            assert(s[k] == max_of(s));
        }
        assert forall|i: int| 0 <= i < s.len() implies (#[trigger] s[i]).rank() <= max_of(s).rank() by {
            if i < s.len() - 1 {
                assert(s[i] == t[i]);
            }
        }
    } else {
        assert(s[0] == max_of(s));
    }
}

/// The largest element does not depend on the order of the elements: two
/// sequences that hold the same elements, each as often, have the same
/// largest element.
pub proof fn lemma_max_order_independent<T: Comparable>(s1: Seq<T>, s2: Seq<T>)
    requires
        s1.len() > 0,
        s1.to_multiset() == s2.to_multiset(),
    ensures
        s2.len() > 0,
        max_of(s1) == max_of(s2),
{
    broadcast use vstd::seq_lib::group_to_multiset_ensures;

    assert(s2.len() == s2.to_multiset().len());
    lemma_max_is_upper_bound(s1);
    lemma_max_is_upper_bound(s2);
    let m1 = max_of(s1);
    let m2 = max_of(s2);
    assert(s1.to_multiset().count(m1) > 0);
    assert(s2.contains(m1));
    assert(s1.to_multiset().count(m2) > 0);
    assert(s1.contains(m2));
    let j1 = choose|j: int| 0 <= j < s2.len() && s2[j] == m1;
    let j2 = choose|j: int| 0 <= j < s1.len() && s1[j] == m2;
    assert(s2[j1].rank() <= m2.rank());
    assert(s1[j2].rank() <= m1.rank());
    T::lemma_rank_injective(m1, m2);
}

/// The largest element of a one-element sequence is that element.
pub proof fn lemma_max_of_single<T: Comparable>(v: T)
    ensures
        max_of(seq![v]) == v,
{
}

/// The integer form and the generic form find the same element.
pub proof fn lemma_max_i32_agrees(s: Seq<i32>)
    requires
        s.len() > 0,
    ensures
        max_i32(s) == max_of(s),
    decreases s.len(),
{
    if s.len() > 1 {
        lemma_max_i32_agrees(s.drop_last());
    }
}

/// The character form and the generic form find the same element.
pub proof fn lemma_max_char_agrees(s: Seq<char>)
    requires
        s.len() > 0,
    ensures
        max_char(s) == max_of(s),
    decreases s.len(),
{
    if s.len() > 1 {
        lemma_max_char_agrees(s.drop_last());
    }
}

} // verus!
