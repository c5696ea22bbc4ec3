//! Ownership transfer, borrowing, and slices.
//!
//! Every value has a single owner; assignment of a heap value moves it,
//! while plain stack values are copied. A reference borrows a value
//! without owning it: many shared borrows may coexist, one exclusive
//! borrow stands alone.
use vstd::prelude::*;
use vstd::string::*;

verus! {

/// Takes ownership of its argument, which is dropped when the call ends,
/// and reports how many characters it held.
pub fn takes_ownership(s: String) -> (len: usize)
    ensures
        len == s@.len(),
{
    s.as_str().unicode_len()
}

/// Takes a plain stack value; the caller keeps its own copy.
pub fn copy_by_value(n: i32) -> (r: i32)
    ensures
        r == n,
{
    n
}

/// Borrows a string without taking its ownership.
pub fn calculate_length(s: &String) -> (len: usize)
    ensures
        len == s@.len(),
{
    s.as_str().unicode_len()
}

/// Takes ownership of a string and reports its length; the caller's
/// binding is gone afterwards.
pub fn calculate_length_and_take_ownership(s: String) -> (len: usize)
    ensures
        len == s@.len(),
{
    s.as_str().unicode_len()
}

/// Borrows a string through a shared reference.
pub fn take_ownership(s: &String) -> (len: usize)
    ensures
        len == s@.len(),
{
    s.as_str().unicode_len()
}

/// Appends through an exclusive borrow: only a `&mut` reference may
/// modify the value it points at.
pub fn change(s: &mut String)
    ensures
        final(s)@ == old(s)@ + " likes alice"@,
{
    s.append(" likes alice");
}

/// Assigning a heap value moves it: the source binding becomes invalid,
/// rather than two owners sharing one allocation.
pub fn shallow_transfer() {
    let a: String = String::from_str("bob");
    let ghost before: Seq<char> = a@;

    let b: String = a;
    // `a` is no longer usable here; the string itself is unchanged.
    assert(b@ == before);
}

/// `clone` duplicates the heap allocation, so both bindings stay valid.
pub fn deep_copy() {
    let b: String = String::from_str("bob");
    let c: String = b.clone();

    // Both still usable, and they hold the same characters.
    assert(b@ == c@);
}

/// Stack values are copied on assignment; both bindings stay valid.
pub fn stack_copy() {
    let m: i32 = 50;
    let n: i32 = m;
    assert(m == n);
}

/// Passing a heap value to a function moves it in; passing a stack value
/// copies it, leaving the caller's binding intact.
pub fn ownership_through_function() {
    // A value dropped at the end of its scope.
    {
        let s0: String = String::from_str("bob");
        assert(s0@ == "bob"@);
    } // here `s0` is dropped

    let s1: String = String::from_str("bob");
    let len: usize = takes_ownership(s1);
    // `s1` moved into the call and was dropped there; only `len` remains.
    proof {
        reveal_strlit("bob");
    }
    assert(len == 3);

    let n1: i32 = 666;
    let r: i32 = copy_by_value(n1);
    // `n1` was copied, so it is still usable.
    let n2: i32 = n1 + 3;
    assert(r == 666 && n2 == 669);
}

/// Shared references can be created and used freely: the value stays
/// owned by its original binding, and references copy by value.
pub fn immutable_references() {
    let s: String = String::from_str("bob");

    let ref_of_s: &String = &s;

    let len: usize = calculate_length(ref_of_s);

    // `s` is still usable: the reference never owned it. The reference
    // itself copies by value, so it can be used again.
    let len2: usize = calculate_length(ref_of_s);
    assert(len == len2);

    let len3: usize = calculate_length_and_take_ownership(s);
    // `s` can no longer be used at this point.
    assert(len3 == len);
}

/// An exclusive borrow lets a callee modify the value in place; the
/// contract of the callee relates the new value to the old one.
pub fn mutable_references() {
    let mut bob_name: String = String::from_str("bob");

    let ref_of_name: &mut String = &mut bob_name;

    change(ref_of_name);

    proof {
        reveal_strlit("bob");
        reveal_strlit(" likes alice");
        reveal_strlit("bob likes alice");
    }
    assert(bob_name@ =~= "bob likes alice"@);
}

/// Shared borrows may coexist; once the last of them is used for the
/// last time, an exclusive borrow may begin, and the other way round.
pub fn switch_between_references() {
    let mut bob_name: String = String::from_str("bob");

    let immut_1: &String = &bob_name;
    let immut_2: &String = &bob_name;

    let l1: usize = take_ownership(immut_1);
    let l2: usize = take_ownership(immut_2);
    assert(l1 == l2);

    // The shared borrows are done; an exclusive borrow may now begin.
    let mutab_1: &mut String = &mut bob_name;
    change(mutab_1);

    // The exclusive borrow is done; sharing may resume.
    let ref_of_name_3: &String = &bob_name;
    let l3: usize = take_ownership(ref_of_name_3);

    proof {
        reveal_strlit("bob");
        reveal_strlit(" likes alice");
    }
    assert(l3 == 15);
}

/// A slice borrows a contiguous part of a string or of an array,
/// addressed by an index range.
pub fn slice() {
    let s: &str = "hello rust lang";
    proof {
        reveal_strlit("hello rust lang");
        reveal_strlit("hello");
        reveal_strlit("rust");
        reveal_strlit("lang");
    }
    let hello: &str = s.substring_ascii(0, 5);
    let rust: &str = s.substring_ascii(6, 10);
    let lang: &str = s.substring_ascii(11, 15);
    assert(hello@ =~= "hello"@);
    assert(rust@ =~= "rust"@);
    assert(lang@ =~= "lang"@);

    let t: String = String::from_str("hello rust lang");
    let rust2: &str = t.as_str().substring_ascii(6, 10);
    assert(rust2@ =~= "rust"@);

    // Integer slices work in a similar fashion.
    let a: [i32; 5] = [1, 2, 3, 4, 5];
    let x: &[i32] = &a[1..4];
    assert(x@ =~= seq![2i32, 3i32, 4i32]);
}

/// Returns the longest prefix of `s` that contains no space: the first
/// word if a space follows, the whole string otherwise.
pub fn first_word<'a>(s: &'a String) -> (r: &'a str)
    requires
        string_is_ascii(s),
    ensures
        r@ == s@.subrange(0, r@.len() as int),
        forall|j: int| 0 <= j < r@.len() ==> s@[j] != ' ',
        r@.len() < s@.len() ==> s@[r@.len() as int] == ' ',
{
    let text: &str = s.as_str();
    let len: usize = text.unicode_len();
    let mut i: usize = 0;

    while i < len
        invariant
            string_is_ascii(s),
            text@ == s@,
            len == s@.len(),
            0 <= i <= len,
            forall|j: int| 0 <= j < i ==> s@[j] != ' ',
        decreases len - i,
    {
        let c: u8 = text.get_ascii(i);
        if c == 32 {
            // 32 is the ASCII code of the space character.
            assert(s@[i as int] == ' ');
            return text.substring_ascii(0, i);
        }
        i += 1;
    }

    text.substring_ascii(0, len)
}

/// A slice borrowed from a value becomes unusable once the value is
/// written again: the exclusive access ends every outstanding borrow.
pub fn slice_ownership() {
    let mut s: String = String::from_str("bob likes alice");
    proof {
        reveal_strlit("bob likes alice");
        reveal_strlit("bob");
    }

    let word: &str = first_word(&s);
    proof {
        // The first space of "bob likes alice" stands at index 3, so the
        // word is exactly the first three characters.
        let wl = word@.len() as int;
        if wl < 3 {
            assert(s@[wl] == ' ');
            assert(false);
        }
        if wl > 3 {
            assert(s@[3] != ' ');
            assert(false);
        }
    }
    assert(word@ =~= "bob"@);

    // Writing `s` ends the borrow: `word` may no longer be used below.
    s = String::new();
    assert(s@.len() == 0);
}

} // verus!
