//! Enum declaration, `match`, and `if let`.
use vstd::prelude::*;

verus! {

/// An enum lists the shapes a value may take; a variant can carry data.
pub enum Money {
    Dime,
    Quarter,
    CustomCheck(u32),
}

/// Declaring enum values, and the built-in `Option` enum.
pub fn enum_syntax() {
    let money_1: Money = Money::Quarter;
    let money_2: Money = Money::CustomCheck(100);
    assert(money_1 is Quarter);
    assert(money_2 matches Money::CustomCheck(amount) && amount == 100);

    // `Option` is an ordinary enum from the standard library.
    let x: Option<i32> = Some(666);
    let y: Option<i32> = None;
    assert(x == Some(666i32) && y is None);
}

/// The larger of two optional values: `None` acts as the unit, and two
/// present values compare as integers.
pub open spec fn spec_opt_max(x: Option<i32>, y: Option<i32>) -> Option<i32> {
    match (x, y) {
        (Some(a), Some(b)) => Some(if a >= b { a } else { b }),
        (Some(a), None) => x,
        (None, Some(b)) => y,
        (None, None) => None,
    }
}

/// Deconstructs both options with one `match` over the pair.
pub fn opt_max(x: Option<i32>, y: Option<i32>) -> (r: Option<i32>)
    ensures
        r == spec_opt_max(x, y),
{
    match (x, y) {
        (Some(a), Some(b)) => Some(if a >= b { a } else { b }),
        (_, None) => x,
        _ => y,
    }
}

/// The same function written with `if let`, which handles one pattern
/// and leaves the rest to `else` branches.
pub fn opt_max_if_let(x: Option<i32>, y: Option<i32>) -> (r: Option<i32>)
    ensures
        r == spec_opt_max(x, y),
{
    if let (Some(a), Some(b)) = (x, y) {
        Some(if a >= b { a } else { b })
    } else if let (_, None) = (x, y) {
        x
    } else {
        y
    }
}

/// `match` deconstructs an enum by enumerating its shapes.
pub fn match_syntax() {
    let x: Option<i32> = Some(666);
    let y: Option<i32> = None;

    let inner: Option<i32> = opt_max(x, y);
    let r: Option<i32> = opt_max(Some(233), inner);
    assert(r == x);

    let n: Option<i32> = opt_max(None, None);
    assert(n is None);
}

/// `if let` is an alternative to `match` for the same deconstruction.
pub fn iflet_syntax() {
    let x: Option<i32> = Some(666);
    let y: Option<i32> = None;

    let inner: Option<i32> = opt_max_if_let(x, y);
    let r: Option<i32> = opt_max_if_let(Some(233), inner);
    assert(r == x);

    let n: Option<i32> = opt_max_if_let(None, None);
    assert(n is None);
}

} // verus!
