//! Exercises the contract-carrying helpers on concrete values.

use lang_tour::collections::{bump_count, get_opt, get_price};
use lang_tour::control_flow::plus_one;
use lang_tour::enums::{opt_max, opt_max_if_let};
use lang_tour::errors::last_char_of_first_line;
use lang_tour::generics::{first_elem, Area, OrderedPoint, Pair, RightTriangle, Square};
use lang_tour::ownership::{
    calculate_length, calculate_length_and_take_ownership, change, copy_by_value, first_word,
    take_ownership, takes_ownership,
};
use lang_tour::structs::{build_point, ColorRGB, Rectangle};
use std::collections::HashMap;

#[test]
fn plus_one_adds_one() {
    assert_eq!(plus_one(0), 1);
    assert_eq!(plus_one(41), 42);
    assert_eq!(plus_one(-1), 0);
}

#[test]
fn opt_max_picks_the_larger() {
    assert_eq!(opt_max(Some(233), Some(666)), Some(666));
    assert_eq!(opt_max(Some(666), Some(233)), Some(666));
    assert_eq!(opt_max(Some(5), None), Some(5));
    assert_eq!(opt_max(None, Some(7)), Some(7));
    assert_eq!(opt_max(None, None), None);
}

#[test]
fn opt_max_if_let_matches_opt_max() {
    let cases = [
        (Some(233), Some(666)),
        (Some(666), Some(233)),
        (Some(5), None),
        (None, Some(7)),
        (None, None),
    ];
    for (x, y) in cases {
        assert_eq!(opt_max_if_let(x, y), opt_max(x, y));
    }
}

#[test]
fn first_word_stops_at_the_first_space() {
    let s = String::from("bob likes alice");
    assert_eq!(first_word(&s), "bob");
    let one = String::from("bob");
    assert_eq!(first_word(&one), "bob");
    let leading = String::from(" bob");
    assert_eq!(first_word(&leading), "");
    let empty = String::new();
    assert_eq!(first_word(&empty), "");
}

#[test]
fn length_helpers_count_characters() {
    let s = String::from("bob");
    assert_eq!(calculate_length(&s), 3);
    assert_eq!(take_ownership(&s), 3);
    assert_eq!(takes_ownership(s.clone()), 3);
    assert_eq!(calculate_length_and_take_ownership(s), 3);
    assert_eq!(copy_by_value(666), 666);
}

#[test]
fn change_appends_the_suffix() {
    let mut s = String::from("bob");
    change(&mut s);
    assert_eq!(s, "bob likes alice");
}

#[test]
fn last_char_of_first_line_cases() {
    assert_eq!(last_char_of_first_line("bob\nalice"), Some('b'));
    assert_eq!(last_char_of_first_line("bob"), Some('b'));
    assert_eq!(last_char_of_first_line("\nalice"), None);
    assert_eq!(last_char_of_first_line(""), None);
}

#[test]
fn get_opt_checks_the_bound() {
    let v = vec![1, 2];
    assert_eq!(get_opt(&v, 1), Some(2));
    assert_eq!(get_opt(&v, 5), None);
}

#[test]
fn get_price_defaults_to_zero() {
    let mut price: HashMap<u32, i32> = HashMap::new();
    price.insert(2, 4);
    assert_eq!(get_price(2, &price), 4);
    assert_eq!(get_price(9, &price), 0);
}

#[test]
fn bump_count_tallies() {
    let mut freq: HashMap<i32, u32> = HashMap::new();
    bump_count(&mut freq, 6);
    bump_count(&mut freq, 6);
    bump_count(&mut freq, -2);
    assert_eq!(freq.get(&6), Some(&2));
    assert_eq!(freq.get(&(-2)), Some(&1));
    assert_eq!(freq.get(&0), None);
}

#[test]
fn build_point_sets_both_fields() {
    let p = build_point(233, 666);
    assert_eq!(p.x_coord, 233);
    assert_eq!(p.y_coord, 666);
}

#[test]
fn color_fields_read_by_position() {
    let green = ColorRGB(0, 255, 0);
    assert_eq!(green.1, 255);
}

#[test]
fn rectangle_area_and_transpose() {
    let r = Rectangle { width: 5, height: 3 };
    assert_eq!(r.area(), 15);
    let t = r.transpose();
    assert_eq!(t.width, 3);
    assert_eq!(t.height, 5);
    assert_eq!(t.area(), r.area());
}

#[test]
fn first_elem_of_any_slice() {
    let v: Vec<u64> = Vec::new();
    assert_eq!(first_elem(v.as_slice()), None);
    let w = vec!["a", "b"];
    assert_eq!(first_elem(w.as_slice()), Some(&"a"));
}

#[test]
fn pair_methods() {
    let p: Pair<i32, i64> = Pair { x: 3, y: 5 };
    assert_eq!(*p.get_x(), 3);
    let q: Pair<i32, i32> = Pair { x: 7, y: 9 };
    let d = q.create_default();
    assert_eq!(d.x, 0);
    assert_eq!(d.y, 0);
}

#[test]
fn ordered_point_compares_lexicographically() {
    let p1 = OrderedPoint { x: 3, y: 5 };
    let p2 = OrderedPoint { x: 4, y: 4 };
    assert!(p1 <= p2);
    assert!(p2 > p1);
    let p3 = OrderedPoint { x: 3, y: 5 };
    assert!(p1 == p3);
    let p4 = OrderedPoint { x: 3, y: 6 };
    assert!(p1 < p4);
}

#[test]
fn areas_are_exact() {
    let sq = Square { side_len: 4 };
    assert_eq!(sq.area(), 16);
    let tr = RightTriangle { base: 4, height: 5 };
    assert_eq!(tr.area(), 10);
    let odd = RightTriangle { base: 3, height: 3 };
    assert_eq!(odd.area(), 4);
    let wide = Square { side_len: u32::MAX };
    assert_eq!(wide.area(), (u32::MAX as u64) * (u32::MAX as u64));
}
