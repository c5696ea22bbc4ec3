//! Struct declaration, field access, tuple and unit structs, and methods.
use vstd::prelude::*;

verus! {

/// A plain struct with named fields.
pub struct Point {
    pub x_coord: i32,
    pub y_coord: i32,
}

/// Builds a point from its coordinates; field-init shorthand applies
/// when an argument carries the field's name.
pub fn build_point(x_coord: i32, y_coord: i32) -> (p: Point)
    ensures
        p.x_coord == x_coord,
        p.y_coord == y_coord,
{
    Point { x_coord, y_coord }
}

/// Declaring struct values, reordering fields in a literal, and writing
/// a field of a mutable binding.
pub fn struct_syntax() {
    let q: Point = Point { x_coord: 0, y_coord: 0 };
    assert(q.x_coord == 0);

    let mut p: Point = Point {  // note that field order can be swapped
        y_coord: 666,
        x_coord: 233,
    };
    assert(p.x_coord == 233);

    p.y_coord = 6666;
    assert(p.y_coord == 6666);

    let mut r: Point = build_point(0, 0);
    r.x_coord = 2333;
    assert(r.x_coord == 2333 && r.y_coord == 0);
}

/// A tuple struct has positional fields and round brackets.
pub struct ColorRGB(pub u8, pub u8, pub u8);

/// A unit-like struct has no fields at all.
pub struct Unit;

/// Tuple structs are read by position; unit structs carry no data.
pub fn special_struct() {
    let green: ColorRGB = ColorRGB(0, 255, 0);
    assert(green.0 == 0 && green.1 == 255 && green.2 == 0);

    let x: Unit = Unit;
    let _ = x;
}

/// A rectangle with integer sides.
pub struct Rectangle {
    pub width: u32,
    pub height: u32,
}

impl Rectangle {
    /// The area as a mathematical integer, free of overflow concerns.
    pub open spec fn spec_area(&self) -> int {
        self.width as int * self.height as int
    }

    /// The area of the rectangle.
    pub fn area(&self) -> (a: u32)
        requires
            self.spec_area() <= u32::MAX as int,
        ensures
            a == self.spec_area(),
    {
        self.width * self.height
    }

    /// The rectangle with its sides swapped. Swapping the sides keeps
    /// the area, since multiplication commutes.
    pub fn transpose(&self) -> (t: Self)
        ensures
            t.width == self.height,
            t.height == self.width,
            t.spec_area() == self.spec_area(),
    {
        Self {  // `Self` refers to the type of `self`, here `Rectangle`
            width: self.height,
            height: self.width,
        }
    }
}

/// Methods are declared in an `impl` block and called on a receiver;
/// transposing a rectangle does not change its area.
pub fn struct_method() {
    let r = Rectangle { width: 5, height: 3 };
    let a1: u32 = r.area();
    let t: Rectangle = r.transpose();
    let a2: u32 = t.area();
    assert(a1 == a2);
    assert(a1 == 15);
}

} // verus!
