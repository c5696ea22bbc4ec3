//! Function calls, `if` as an expression, and the three loop forms.
use vstd::prelude::*;
use vstd::string::*;

verus! {

/// Adds one. A return type annotation is mandatory whenever a function
/// returns a value.
pub fn plus_one(num: i32) -> (r: i32)
    requires
        num < i32::MAX,
    ensures
        r == num + 1,
{
    num + 1
}

/// Sums over a prefix of a sequence of 32-bit integers, as mathematical
/// integers.
pub open spec fn sum_prefix(s: Seq<i32>, n: int) -> int
    decreases n,
{
    if n <= 0 {
        0
    } else {
        sum_prefix(s, n - 1) + s[n - 1]
    }
}

/// Calling a function, and the automatic referencing that method calls
/// perform on their receiver.
pub fn function_call() {
    let mut x: i32 = 0;
    x = plus_one(x);
    assert(x == 1);

    // Method calls auto-reference the receiver: both forms are valid.
    let s: String = String::from_str("bob");
    let l: usize = s.as_str().unicode_len();
    let l2: usize = (&s).as_str().unicode_len();
    assert(l == l2);
}

/// `if` works both as a statement and as an expression whose branches
/// yield the chosen value.
pub fn if_syntax() {
    let cond: bool = true;

    // As a statement.
    if cond {
        // do something
    } else {
        // do something else
    }

    // As an expression, in the role a ternary operator plays elsewhere.
    let x: i32 = if cond { 3 } else { 4 };
    assert(x == 3);
}

/// `loop` runs until a `break` is reached; what is true on exit is stated
/// in the loop's `ensures`.
pub fn loop_syntax() {
    let mut x: i32 = 3;

    loop
        invariant
            3 <= x <= 10,
        ensures
            x == 10,
        decreases 10 - x,
    {
        if x >= 10 {
            break;
        }
        x += 1;
    }

    let y: i32 = x * 2;
    assert(y == 20);
}

/// `while` repeats as long as its condition holds; `for` walks a range.
/// Each loop carries the invariant that justifies what follows it.
pub fn for_and_while() {
    let mut x: i32 = 10;

    while x > 0
        invariant
            0 <= x <= 10,
        decreases x,
    {
        x -= 1;
    }
    assert(x == 0);

    let mut a: [i32; 3] = [233, 666, 999];
    for index in 0..3
        invariant
            a@ =~= seq![233i32, 666i32, 999i32],
            x == sum_prefix(a@, index as int),
    {
        proof {
            // Evaluating the prefix sums bounds `x`, so the addition fits.
            reveal_with_fuel(sum_prefix, 4);
        }
        x += a[index];
    }
    assert(x == 233 + 666 + 999) by {
        reveal_with_fuel(sum_prefix, 4);
    }

    // A range is written 'inclusive..exclusive'; indices count from zero.
    for index in 0..3
        invariant
            forall|j: int| 0 <= j < index ==> a@[j] == j,
    {
        a[index] = index as i32;
    }
    assert(a@ =~= seq![0i32, 1i32, 2i32]);
}

} // verus!
