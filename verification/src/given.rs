//! Functions that callers hand in.
//!
//! Sines, cosines, tangents and powers are floating-point functions. What the library
//! computes from their answers is stated of any functions that answer every number and
//! always answer it the same.

use crate::single::Single;
use vstd::prelude::*;

verus! {

/// A function that takes every number and always gives the same answer to it.
pub open spec fn answers<R, F: Fn(Single) -> R>(f: F) -> bool {
    &&& forall|x: Single| #[trigger] call_requires(f, (x,))
    &&& forall|x: Single, y: R, z: R|
        #[trigger] call_ensures(f, (x,), y) && #[trigger] call_ensures(f, (x,), z) ==> y == z
}

/// What a function gives for each number.
pub open spec fn answer_of<R, F: Fn(Single) -> R>(f: F) -> spec_fn(Single) -> R {
    |x: Single| choose|y: R| call_ensures(f, (x,), y)
}

/// Asks a function for a number.
pub fn ask<R, F: Fn(Single) -> R>(f: &F, x: Single) -> (r: R)
    requires
        answers(*f),
    ensures
        r == answer_of(*f)(x),
{
    let r = f(x);
    assert(call_ensures(*f, (x,), r));
    r
}

} // verus!
