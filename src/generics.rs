//! Generic points and pairs, a trait for showing a value as text, and
//! searches for the largest item of a slice.

use vstd::prelude::*;
use core::cmp::Ordering;
use vstd::laws_cmp::obeys_partial_cmp_spec_properties;
use vstd::std_specs::cmp::PartialOrdSpec;
use crate::text::{decimal, i64_to_string};

verus! {

/// A point whose coordinates share one type.
pub struct Point<T> {
    pub x: T,
    pub y: T,
}

impl<T> Point<T> {
    /// The first coordinate.
    pub fn x(&self) -> (r: &T)
        ensures
            *r == self.x,
    {
        &self.x
    }
}

/// A point whose coordinates may have different types.
pub struct Point2<T, U> {
    pub x: T,
    pub y: U,
}

impl<T, U> Point2<T, U> {
    /// A point with the first coordinate of `self` and the second of `other`.
    pub fn mixup<V, W>(self, other: Point2<V, W>) -> (r: Point2<T, W>)
        ensures
            r.x == self.x,
            r.y == other.y,
    {
        Point2 { x: self.x, y: other.y }
    }
}

/// A value that can be shown as a line of text.
pub trait Show {
    /// The text of the value.
    fn show(&self) -> String;

    /// The greeting every showable value gives.
    fn hello(&self) -> (r: &'static str)
        ensures
            r@ == "hello!"@,
    {
        "hello!"
    }
}

impl Show for Point<i32> {
    /// Both coordinates in decimal, separated by a comma and a space.
    fn show(&self) -> (r: String)
        ensures
            r@ == decimal(self.x as int) + ", "@ + decimal(self.y as int),
    {
        let mut s = i64_to_string(self.x as i64);
        s.append(", ");
        let y = i64_to_string(self.y as i64);
        s.append(y.as_str());
        s
    }
}

/// The largest number of a non-empty list.
pub fn largest(list: &[i32]) -> (r: i32)
    requires
        list@.len() > 0,
    ensures
        list@.contains(r),
        forall|i: int| 0 <= i < list@.len() ==> list@[i] <= r,
{
    let mut largest: i32 = list[0];
    let ghost mut at: int = 0;
    let mut i: usize = 1;
    while i < list.len()
        invariant
            1 <= i <= list@.len(),
            0 <= at < i,
            list@[at] == largest,
            forall|j: int| 0 <= j < i ==> list@[j] <= largest,
        decreases list@.len() - i,
    {
        let item = list[i];
        if item > largest {
            largest = item;
            proof {
                at = i as int;
            }
        }
        i = i + 1;
    }
    largest
}


/// `T`'s comparison follows its specification, and that specification is
/// a strict partial order.
pub open spec fn lawful_order<T: PartialOrd>() -> bool {
    T::obeys_partial_cmp_spec() && obeys_partial_cmp_spec_properties::<T>()
}

/// `a` compares greater than `b`.
pub open spec fn greater<T: PartialOrd>(a: T, b: T) -> bool {
    a.partial_cmp_spec(&b) == Some(Ordering::Greater)
}

/// Under a lawful order nothing is greater than itself, and being greater
/// is transitive.
proof fn lemma_greater_laws<T: PartialOrd>()
    requires
        lawful_order::<T>(),
    ensures
        forall|a: T| !greater(a, a),
        forall|a: T, b: T, c: T| greater(a, b) && greater(b, c) ==> greater(a, c),
{
    reveal(obeys_partial_cmp_spec_properties);
    assert forall|a: T| !greater(a, a) by {
        if greater(a, a) {
            assert(a.partial_cmp_spec(&a) == Some(Ordering::Less));
        }
    }
}

/// The largest item of a non-empty list, for any comparable item type.
/// The item returned is always one of the list; under a lawful order no
/// item of the list is greater than it.
pub fn largest_gen<T: PartialOrd + Copy>(list: &[T]) -> (r: T)
    requires
        list@.len() > 0,
    ensures
        list@.contains(r),
        lawful_order::<T>() ==> forall|i: int| 0 <= i < list@.len() ==> !greater(list@[i], r),
{
    proof {
        if lawful_order::<T>() {
            lemma_greater_laws::<T>();
        }
    }
    let mut largest: T = list[0];
    let ghost mut at: int = 0;
    let mut i: usize = 1;
    while i < list.len()
        invariant
            1 <= i <= list@.len(),
            0 <= at < i,
            list@[at] == largest,
            lawful_order::<T>() ==> forall|a: T| !greater(a, a),
            lawful_order::<T>() ==> forall|a: T, b: T, c: T|
                greater(a, b) && greater(b, c) ==> greater(a, c),
            lawful_order::<T>() ==> forall|j: int| 0 <= j < i ==> !greater(list@[j], largest),
        decreases list@.len() - i,
    {
        let item = list[i];
        if item > largest {
            largest = item;
            proof {
                at = i as int;
            }
        }
        i = i + 1;
    }
    proof {
        assert(list@.contains(largest));
    }
    largest
}

/// Like `largest_gen`, without copying: a reference to the largest item.
pub fn largest_gen_ref<T: PartialOrd>(list: &[T]) -> (r: &T)
    requires
        list@.len() > 0,
    ensures
        list@.contains(*r),
        lawful_order::<T>() ==> forall|i: int| 0 <= i < list@.len() ==> !greater(list@[i], *r),
{
    proof {
        if lawful_order::<T>() {
            lemma_greater_laws::<T>();
        }
    }
    let mut largest: &T = &list[0];
    let ghost mut at: int = 0;
    let mut i: usize = 1;
    while i < list.len()
        invariant
            1 <= i <= list@.len(),
            0 <= at < i,
            list@[at] == *largest,
            lawful_order::<T>() ==> forall|a: T| !greater(a, a),
            lawful_order::<T>() ==> forall|a: T, b: T, c: T|
                greater(a, b) && greater(b, c) ==> greater(a, c),
            lawful_order::<T>() ==> forall|j: int| 0 <= j < i ==> !greater(list@[j], *largest),
        decreases list@.len() - i,
    {
        let item = &list[i];
        if *item > *largest {
            largest = item;
            proof {
                at = i as int;
            }
        }
        i = i + 1;
    }
    proof {
        assert(list@.contains(*largest));
    }
    largest
}


/// Two values of one type.
pub struct Pair<T> {
    pub x: T,
    pub y: T,
}

impl<T> Pair<T> {
    /// The pair of `x` and `y`.
    pub fn new(x: T, y: T) -> (r: Self)
        ensures
            r.x == x,
            r.y == y,
    {
        Self { x, y }
    }
}

impl<T: PartialOrd> Pair<T> {
    /// The name and value of the larger member: `x` when `x >= y`, else `y`.
    pub fn largest_member(&self) -> (r: (&'static str, &T))
        ensures
            T::obeys_partial_cmp_spec() ==> r == (if self.x.partial_cmp_spec(&self.y) matches Some(
                Ordering::Greater | Ordering::Equal,
            ) {
                ("x", &self.x)
            } else {
                ("y", &self.y)
            }),
            r.0@ == "x"@ && *r.1 == self.x || r.0@ == "y"@ && *r.1 == self.y,
    {
        if self.x >= self.y {
            ("x", &self.x)
        } else {
            ("y", &self.y)
        }
    }
}

} // verus!
