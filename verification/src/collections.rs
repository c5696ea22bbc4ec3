//! Growable vectors, strings, and hash maps.
use vstd::prelude::*;
use vstd::string::*;
use std::collections::HashMap;

verus! {

/// Checked element access: an index inside the vector yields the
/// element, one outside yields `None` instead of halting.
pub fn get_opt(v: &Vec<i32>, i: usize) -> (r: Option<i32>)
    ensures
        r == if i < v@.len() { Some(v@[i as int]) } else { None::<i32> },
{
    if i < v.len() {
        Some(v[i])
    } else {
        None
    }
}

/// Creating a vector, reading elements by index and by checked access,
/// and squaring every element in place.
pub fn vector_syntax() {
    let mut v: Vec<i32> = Vec::new();
    v.push(1);
    v.push(2);
    assert(v@ =~= seq![1i32, 2i32]);

    // Access by index must be proved in bounds; it would halt at run
    // time otherwise.
    let m: i32 = v[1];
    assert(m == 2);

    // Checked access yields an `Option` instead.
    let n: Option<i32> = get_opt(&v, 1);
    assert(n == Some(2i32));
    let far: Option<i32> = get_opt(&v, 5);
    assert(far is None);

    // Iterate over the indices, replacing each element by its square.
    let mut w: Vec<i32> = Vec::new();
    w.push(1);
    w.push(2);
    w.push(3);
    let ghost orig: Seq<i32> = w@;
    for i in 0..3
        invariant
            orig =~= seq![1i32, 2i32, 3i32],
            w@.len() == 3,
            forall|j: int| 0 <= j < i ==> w@[j] == orig[j] * orig[j],
            forall|j: int| i <= j < 3 ==> w@[j] == orig[j],
    {
        let x: i32 = w[i];
        w[i] = x * x;
    }
    assert(w@[0] == 1 && w@[1] == 4 && w@[2] == 9);
    assert(w@ =~= seq![1i32, 4i32, 9i32]);
}

/// Ways to build strings: from a literal, character by character, and
/// by concatenation, which consumes its left operand.
pub fn string_syntax() {
    let s0: String = "str".to_owned();

    let s1: String = String::from_str("str");

    let mut s2: String = String::new();
    s2.append("st");
    s2.append("r");

    let temp1: String = String::from_str("st");
    let temp2: String = String::from_str("r");
    let s3: String = temp1.concat(temp2.as_str());
    // `temp1` moved into the concatenation and is gone; `temp2` is
    // still usable.
    let l: usize = temp2.as_str().unicode_len();

    proof {
        reveal_strlit("str");
        reveal_strlit("st");
        reveal_strlit("r");
    }
    assert(s0@ == s1@);
    assert(s1@ =~= s2@);
    assert(s2@ =~= s3@);
    assert(l == 1);

    // A string is not indexed directly; a character is read out by its
    // position among the characters.
    let s: String = String::from_str("this is a string");
    proof {
        reveal_strlit("this is a string");
    }
    let c: char = s.as_str().get_char(1);
    assert(c == 'h');
}

/// The price recorded for an item, with zero for an item that has none.
pub fn get_price(id: u32, data: &HashMap<u32, i32>) -> (p: i32)
    ensures
        p == if data@.contains_key(id) { data@[id] } else { 0 },
{
    match data.get(&id) {
        Some(v) => *v,
        None => 0,
    }
}

/// Raises the count recorded for `n` by one, starting from zero for a
/// key that has no count yet.
pub fn bump_count(freq: &mut HashMap<i32, u32>, n: i32)
    requires
        old(freq)@.contains_key(n) ==> old(freq)@[n] < u32::MAX,
    ensures
        final(freq)@ == old(freq)@.insert(
            n,
            if old(freq)@.contains_key(n) { (old(freq)@[n] + 1) as u32 } else { 1u32 },
        ),
{
    let c: u32 = match freq.get(&n) {
        Some(v) => *v,
        None => 0,
    };
    freq.insert(n, c + 1);
}

/// Insertion, lookup, overwriting, conditional insertion, and counting
/// occurrences with a map from key to tally.
pub fn hashmap_syntax() {
    // Keys index the values; inserting hands the pair to the map.
    let mut price: HashMap<u32, i32> = HashMap::new();

    let acorn_id: u32 = 1;
    let bread_id: u32 = 2;

    price.insert(bread_id, 4);
    price.insert(acorn_id, 3);

    let bread_price: i32 = get_price(bread_id, &price);
    assert(bread_price == 4);

    // Overwrite by inserting under the same key again.
    let potato_id: u32 = 3;
    price.insert(potato_id, 10);
    let p1: i32 = get_price(potato_id, &price);
    assert(p1 == 10);

    price.insert(potato_id, 15);
    let p2: i32 = get_price(potato_id, &price);
    assert(p2 == 15);

    // Insert only if no value is present yet.
    if !price.contains_key(&potato_id) {
        price.insert(potato_id, 20);
    }
    let p3: i32 = get_price(potato_id, &price);
    assert(p3 == 15);

    // Update an existing value: tally how often each number occurs.
    let mut freq: HashMap<i32, u32> = HashMap::new();
    bump_count(&mut freq, 6);
    bump_count(&mut freq, 6);
    assert(freq@[6] == 2);

    let numbers: [i32; 10] = [-2, 8, 6, 1, 6, 6, 3, -2, 0, 5];
    let mut counts: HashMap<i32, u32> = HashMap::new();
    for idx in 0..10
        invariant
            forall|k: i32| counts@.contains_key(k) ==> counts@[k] <= idx as u32,
    {
        let n: i32 = numbers[idx];
        bump_count(&mut counts, n);
    }
}

} // verus!
