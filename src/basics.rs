//! Small helpers on numbers and text.

use vstd::prelude::*;
use vstd::string::{StrSliceExecFns, StringSliceAdditionalSpecFns};

verus! {

/// The cube of `n`, for the `n` whose cube fits in `i32`.
pub fn cube(n: i32) -> (r: i32)
    requires
        -1290 <= n <= 1290,
    ensures
        r == n * n * n,
{
    proof {
        assert(-1664100 <= n * n <= 1664100) by (nonlinear_arith)
            requires
                -1290 <= n <= 1290,
        ;
        assert(-2146689000 <= n * n * n <= 2146689000) by (nonlinear_arith)
            requires
                -1290 <= n <= 1290,
        ;
    }
    n * n * n
}

/// The longer of two texts by their length in bytes; the second on a tie.
pub fn longest<'a>(x: &'a str, y: &'a str) -> (r: &'a str)
    ensures
        r == if x.spec_bytes().len() > y.spec_bytes().len() {
            x
        } else {
            y
        },
{
    if x.as_bytes().len() > y.as_bytes().len() {
        x
    } else {
        y
    }
}

/// The position of the first occurrence of `c` among the characters of `s`.
pub fn find_char(s: &str, c: char) -> (r: Option<usize>)
    ensures
        match r {
            Some(i) => i < s@.len() && s@[i as int] == c && forall|j: int| 0 <= j < i ==> s@[j] != c,
            None => forall|j: int| 0 <= j < s@.len() ==> s@[j] != c,
        },
{
    let n = s.unicode_len();
    let mut i: usize = 0;
    while i < n
        invariant
            n == s@.len(),
            0 <= i <= n,
            forall|j: int| 0 <= j < i ==> s@[j] != c,
        decreases n - i,
    {
        if s.get_char(i) == c {
            return Some(i);
        }
        i = i + 1;
    }
    None
}

} // verus!
