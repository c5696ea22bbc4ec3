//! Variable bindings, shadowing, mutability, and scoping.
use vstd::prelude::*;

verus! {

/// A constant is evaluated at compile time; its type annotation is mandatory.
pub const SCALED_CONSTANT: i32 = 666 * 233;

/// Bindings are immutable by default; a new binding may shadow an old one,
/// and a `mut` binding may be reassigned.
pub fn variable() {
    // Type annotation on a binding is optional in general.
    let x: i32 = 5;

    // Reassigning `x` would be rejected; instead a new binding named `x`
    // shadows the old one.
    let x: i32 = x + 3;
    assert(x == 8);

    // A mutable binding can be changed in place.
    let mut m: i32 = 5;
    m += 3;
    assert(m == 8);

    assert(SCALED_CONSTANT == 155178);
}

/// A binding introduced inside a block hides an outer binding of the same
/// name only until the block ends.
pub fn scope() {
    let v: i32 = 233;
    {
        let v: i32 = 666;
        assert(v == 666);
    }
    assert(v == 233);
}

} // verus!
