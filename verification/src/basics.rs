//! Small routines that the lessons demonstrate.

use vstd::prelude::*;
use vstd::string::StringExecFns;

verus! {

/// The sum of two integers that fits in an `i32`.
pub fn add(x: i32, y: i32) -> (sum: i32)
    requires
        i32::MIN <= x + y <= i32::MAX,
    ensures
        sum == x + y,
{
    x + y
}

/// The line that greets `name`.
pub fn greet(name: &str) -> (line: String)
    ensures
        line@ == "Hello, "@ + name@ + "!"@,
{
    let mut line = "Hello, ".to_owned();
    line.append(name);
    line.append("!");
    line
}

/// Whether `m` is a largest element of `s`: it occurs in `s` and nothing in `s` exceeds it.
pub open spec fn is_largest_i32(s: Seq<i32>, m: i32) -> bool {
    &&& s.contains(m)
    &&& forall|i: int| 0 <= i < s.len() ==> s[i] <= m
}

/// The largest number of a non-empty list.
pub fn find_largest_i32(list: &[i32]) -> (largest: i32)
    requires
        list@.len() > 0,
    ensures
        is_largest_i32(list@, largest),
{
    let mut largest: i32 = list[0];
    let mut k: usize = 1;
    while k < list.len()
        invariant
            1 <= k <= list@.len(),
            exists|j: int| 0 <= j < k && list@[j] == largest,
            forall|i: int| 0 <= i < k ==> list@[i] <= largest,
        decreases list@.len() - k,
    {
        let item: i32 = list[k];
        if item > largest {
            largest = item;
        }
        k += 1;
    }
    largest
}

/// Whether `m` is a largest element of `s` in the order of code points.
pub open spec fn is_largest_char(s: Seq<char>, m: char) -> bool {
    &&& s.contains(m)
    &&& forall|i: int| 0 <= i < s.len() ==> s[i] <= m
}

/// The largest character of a non-empty list, by code point.
pub fn find_largest_char(list: &[char]) -> (largest: char)
    requires
        list@.len() > 0,
    ensures
        is_largest_char(list@, largest),
{
    let mut largest: char = list[0];
    let mut k: usize = 1;
    while k < list.len()
        invariant
            1 <= k <= list@.len(),
            exists|j: int| 0 <= j < k && list@[j] == largest,
            forall|i: int| 0 <= i < k ==> list@[i] <= largest,
        decreases list@.len() - k,
    {
        let item: char = list[k];
        if item > largest {
            largest = item;
        }
        k += 1;
    }
    largest
}

} // verus!
