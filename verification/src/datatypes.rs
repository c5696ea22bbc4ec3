//! Numeric literals, tuples, and fixed-size arrays.
use vstd::prelude::*;

verus! {

/// Numeric types and the literal forms that write them: decimal,
/// hexadecimal, octal, binary, and byte literals.
pub fn numeric() {
    let b: bool = true;
    assert(b);

    let x: i32 = 233;
    let y: u64 = 666666;
    assert(x == 233 && y == 666666);

    let hex: i64 = 0xdeadbeef;
    assert(hex == 3735928559);

    let oct: i64 = 0o233;
    assert(oct == 155);

    let bin: i8 = 0b0011010;
    assert(bin == 26);

    // A character can be narrowed to its code point; for an ASCII
    // character such as '?' the byte value is its ASCII code.
    let question: char = '?';
    let byte: u8 = question as u8;
    assert(byte == 63);
}

/// A tuple groups values of possibly different types; it can be taken
/// apart by destructuring or read by position.
pub fn tuple() {
    let tup: (i32, i32) = (100, 66);
    let (x, y): (i32, i32) = tup;
    assert(y == 66);
    assert(tup.0 == 100);
    assert(x == 100);
}

/// A fixed-size array can be written element by element or as one value
/// repeated; elements are read and written by index.
pub fn array() {
    let arr2: [i32; 6] = [233, 233, 233, 233, 233, 233];
    let mut arr3: [i32; 6] = [233; 6];

    assert(arr2@ =~= arr3@);
    assert(arr2[3] == 233);

    arr3[0] = 666;
    assert(arr3[0] == 666);
}

} // verus!
