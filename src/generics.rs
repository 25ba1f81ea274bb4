//! Generic functions and types, and traits.

use std::cmp::Ordering;
use vstd::prelude::*;
use vstd::std_specs::cmp::PartialOrdSpec;
use vstd::string::StringExecFns;

verus! {

/// The largest number of `list`.
pub fn largest_non_generic_i32(list: &[i32]) -> (r: i32)
    requires
        list@.len() > 0,
    ensures
        list@.contains(r),
        forall|i: int| 0 <= i < list@.len() ==> list@[i] <= r,
{
    let mut largest = list[0];
    let mut k: usize = 0;
    while k < list.len()
        invariant
            k <= list@.len(),
            list@.contains(largest),
            forall|i: int| 0 <= i < k ==> list@[i] <= largest,
        decreases list@.len() - k,
    {
        let item = list[k];
        if item > largest {
            largest = item;
        }
        k = k + 1;
    }
    largest
}

/// The largest character of `list`.
pub fn largest_non_generic_char(list: &[char]) -> (r: char)
    requires
        list@.len() > 0,
    ensures
        list@.contains(r),
        forall|i: int| 0 <= i < list@.len() ==> list@[i] <= r,
{
    let mut largest = list[0];
    let mut k: usize = 0;
    while k < list.len()
        invariant
            k <= list@.len(),
            list@.contains(largest),
            forall|i: int| 0 <= i < k ==> list@[i] <= largest,
        decreases list@.len() - k,
    {
        let item = list[k];
        if item > largest {
            largest = item;
        }
        k = k + 1;
    }
    largest
}

/// What a scan of `s` from the front keeps as the largest item: it starts
/// with the first item and takes each later item that compares greater than
/// the one it holds.
pub open spec fn scan_largest<T: PartialOrd>(s: Seq<T>) -> T
    decreases s.len(),
{
    if s.len() <= 1 {
        s[0]
    } else {
        let m = scan_largest(s.drop_last());
        if s.last().partial_cmp_spec(&m) == Some(Ordering::Greater) {
            s.last()
        } else {
            m
        }
    }
}

/// The largest item of `list`, for any partial order. Where the order is
/// not total, the item kept is the one that the front-to-back scan keeps.
pub fn largest_generic<T: PartialOrd + Copy>(list: &[T]) -> (r: T)
    requires
        list@.len() > 0,
    ensures
        list@.contains(r),
        T::obeys_partial_cmp_spec() ==> r == scan_largest(list@),
{
    let mut largest = list[0];
    let mut k: usize = 1;
    assert(list@.subrange(0, 1).drop_last().len() == 0);
    while k < list.len()
        invariant
            1 <= k <= list@.len(),
            list@.contains(largest),
            T::obeys_partial_cmp_spec() ==> largest == scan_largest(list@.subrange(0, k as int)),
        decreases list@.len() - k,
    {
        let item = list[k];
        assert(list@.subrange(0, k + 1).drop_last() =~= list@.subrange(0, k as int));
        if item > largest {
            largest = item;
        }
        k = k + 1;
    }
    assert(list@.subrange(0, list@.len() as int) =~= list@);
    largest
}

/// A point whose coordinates share one type.
pub struct Point<T> {
    pub x: T,
    pub y: T,
}

impl<T> Point<T> {
    /// The first coordinate.
    pub fn x(&self) -> (r: &T)
        ensures
            *r == self.x,
    {
        &self.x
    }
}

/// A point whose coordinates may have different types.
pub struct MixedPoint<T, U> {
    pub x: T,
    pub y: U,
}

impl<X1, Y1> MixedPoint<X1, Y1> {
    /// The point with this point's first coordinate and `other`'s second.
    pub fn mixup<X2, Y2>(self, other: MixedPoint<X2, Y2>) -> (r: MixedPoint<X1, Y2>)
        ensures
            r.x == self.x,
            r.y == other.y,
    {
        MixedPoint { x: self.x, y: other.y }
    }
}

/// Something that can be summed up in a line of text.
pub trait Summary {
    fn summarize(&self) -> String;
}

/// Something that can be summed up, by default with a pointer to more.
pub trait SummaryWithDefault {
    fn summarize(&self) -> String {
        "(Read more...)".to_owned()
    }
}

/// A news article.
pub struct NewsArticle {
    pub headline: String,
    pub location: String,
    pub author: String,
    pub content: String,
}

impl Summary for NewsArticle {
    /// `<headline>, by <author> (<location>)`.
    fn summarize(&self) -> (r: String)
        ensures
            r@ == self.headline@ + ", by "@ + self.author@ + " ("@ + self.location@ + ")"@,
    {
        let mut r = self.headline.clone();
        r.append(", by ");
        r.append(self.author.as_str());
        r.append(" (");
        r.append(self.location.as_str());
        r.append(")");
        r
    }
}

/// A short post.
pub struct Tweet {
    pub username: String,
    pub content: String,
    pub reply: bool,
    pub retweet: bool,
}

impl Summary for Tweet {
    /// `<username>: <content>`.
    fn summarize(&self) -> (r: String)
        ensures
            r@ == self.username@ + ": "@ + self.content@,
    {
        let mut r = self.username.clone();
        r.append(": ");
        r.append(self.content.as_str());
        r
    }
}

/// Hands back `item`, to be used as something with a summary.
pub fn coerce_to_summary<T: Summary>(item: &T) -> (r: &T)
    ensures
        r == item,
{
    item
}

/// Two values of one type.
pub struct Pair<T> {
    pub x: T,
    pub y: T,
}

impl<T> Pair<T> {
    /// The pair of `x` and `y`.
    pub fn new(x: T, y: T) -> (r: Self)
        ensures
            r.x == x,
            r.y == y,
    {
        Self { x, y }
    }
}

} // verus!
