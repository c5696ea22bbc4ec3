//! Generic functions, generic datatypes, traits, and lifetimes.
use vstd::prelude::*;
use core::cmp::Ordering;

verus! {

/// The first element of any slice, whatever its element type.
pub fn first_elem<T>(list: &[T]) -> (r: Option<&T>)
    ensures
        match r {
            Some(x) => list@.len() > 0 && *x == list@[0],
            None => list@.len() == 0,
        },
{
    list.first()
}

/// A struct can be generic over several type parameters at once.
pub struct Pair<S, T> {
    pub x: S,
    pub y: T,
}

impl<S, T> Pair<S, T> {
    /// Methods on a generic struct are declared in a generic `impl`.
    pub fn get_x(&self) -> (r: &S)
        ensures
            *r == self.x,
    {
        &self.x
    }
}

impl Pair<i32, i32> {
    /// An `impl` can also target one concrete instantiation.
    pub fn create_default(&self) -> (r: Self)
        ensures
            r.x == 0 && r.y == 0,
    {
        Pair { x: 0, y: 0 }
    }
}

/// Enums are generic the same way.
pub enum MaybeValue<T> {
    Present(T),
    Missing,
}

/// Generic functions, structs, methods, and enums in use.
pub fn generic_type() {
    let v: Vec<u64> = Vec::new();
    let none_first: Option<&u64> = first_elem(v.as_slice());
    assert(none_first is None);

    let p: Pair<i32, i64> = Pair { x: 3, y: 5 };
    let px: &i32 = p.get_x();
    assert(*px == 3);

    let q: Pair<i32, i32> = Pair { x: 7, y: 9 };
    let d: Pair<i32, i32> = q.create_default();
    assert(d.x == 0 && d.y == 0);

    let m: MaybeValue<i32> = MaybeValue::Present(666);
    assert(m matches MaybeValue::Present(n) && n == 666);
    let absent: MaybeValue<i32> = MaybeValue::Missing;
    assert(absent is Missing);
}

/// A point ordered first by its x coordinate, then by its y coordinate.
pub struct OrderedPoint {
    pub x: i32,
    pub y: i32,
}

impl PartialEq for OrderedPoint {
    fn eq(&self, other: &Self) -> (r: bool) {
        other.x == self.x && other.y == self.y
    }
}

impl vstd::std_specs::cmp::PartialEqSpecImpl for OrderedPoint {
    open spec fn obeys_eq_spec() -> bool {
        true
    }

    open spec fn eq_spec(&self, other: &Self) -> bool {
        other.x == self.x && other.y == self.y
    }
}

impl PartialOrd for OrderedPoint {
    fn partial_cmp(&self, other: &Self) -> (r: Option<Ordering>) {
        if self.x > other.x {
            Some(Ordering::Greater)
        } else if self.x < other.x {
            Some(Ordering::Less)
        } else {
            self.y.partial_cmp(&other.y)
        }
    }
}

impl vstd::std_specs::cmp::PartialOrdSpecImpl for OrderedPoint {
    open spec fn obeys_partial_cmp_spec() -> bool {
        true
    }

    open spec fn partial_cmp_spec(&self, other: &Self) -> Option<Ordering> {
        if self.x > other.x {
            Some(Ordering::Greater)
        } else if self.x < other.x {
            Some(Ordering::Less)
        } else if self.y > other.y {
            Some(Ordering::Greater)
        } else if self.y < other.y {
            Some(Ordering::Less)
        } else {
            Some(Ordering::Equal)
        }
    }
}

/// A measure shared by several shapes: each implementor states its own
/// area and computes a value proved to match it.
pub trait Area {
    /// The area as a mathematical integer.
    spec fn spec_area(&self) -> int;

    /// The computed area.
    fn area(&self) -> (a: u64)
        ensures
            a as int == self.spec_area(),
    ;
}

/// A square with a given side length.
pub struct Square {
    pub side_len: u32,
}

impl Area for Square {
    open spec fn spec_area(&self) -> int {
        self.side_len as int * self.side_len as int
    }

    fn area(&self) -> (a: u64)
        ensures
            a as int == self.spec_area(),
    {
        let s: u64 = self.side_len as u64;
        proof {
            assert(s * s <= 0xFFFF_FFFFu64 * 0xFFFF_FFFFu64) by (nonlinear_arith)
                requires
                    s <= 0xFFFF_FFFFu64,
            ;
        }
        s * s
    }
}

/// A right triangle with the two legs given.
pub struct RightTriangle {
    pub base: u32,
    pub height: u32,
}

impl Area for RightTriangle {
    open spec fn spec_area(&self) -> int {
        (self.base as int * self.height as int) / 2
    }

    fn area(&self) -> (a: u64)
        ensures
            a as int == self.spec_area(),
    {
        let b: u64 = self.base as u64;
        let h: u64 = self.height as u64;
        proof {
            assert(b * h <= 0xFFFF_FFFFu64 * 0xFFFF_FFFFu64) by (nonlinear_arith)
                requires
                    b <= 0xFFFF_FFFFu64,
                    h <= 0xFFFF_FFFFu64,
            ;
        }
        (b * h) / 2
    }
}

/// Bounding a type parameter by a trait, implementing standard
/// comparison traits by hand, and declaring a trait of one's own.
pub fn trait_for_generic() {
    let p1 = OrderedPoint { x: 3, y: 5 };
    let p2 = OrderedPoint { x: 4, y: 4 };

    let le: bool = p1 <= p2;
    assert(le);

    let sq = Square { side_len: 4 };
    let a1: u64 = sq.area();
    assert(a1 == 16);

    let tr = RightTriangle { base: 4, height: 5 };
    let a2: u64 = tr.area();
    assert(a2 == 10);
}

/// A reference may be used for as long as the value it borrows lives;
/// the borrow ends no later than the value's scope.
pub fn lifetime() {
    let x: i32 = 5;
    let r: &i32 = &x;
    assert(*r == 5);
}

} // verus!
