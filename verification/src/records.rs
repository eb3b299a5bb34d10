//! Sample composite types and how each describes itself as a [`Value`].
//!
//! A record keeps its fields in the order of declaration. The types with a
//! coordinate are generic in it: a coordinate is rendered by a function that
//! the caller hands in, which gives the text of one leaf.

use vstd::prelude::*;
use vstd::string::*;
use crate::text::{decimal_text, format_decimal};
use crate::value::{Entry, Field, Tree, Value, quoted_text};

verus! {

/// A person: a name and an age.
#[derive(Debug, PartialEq, Eq)]
pub struct Person {
    pub name: String,
    pub age: u8,
}

/// A type without fields.
#[derive(Clone, Copy, Debug, PartialEq, Eq)]
pub struct Unit;

/// A tuple of an integer and one more value.
#[derive(Debug, PartialEq)]
pub struct Pair<T>(pub i32, pub T);

/// A point in the plane.
#[derive(Debug, PartialEq)]
pub struct Point<T> {
    pub x: T,
    pub y: T,
}

/// A rectangle, given by two of its corners.
#[derive(Debug, PartialEq)]
pub struct Rectangle<T> {
    pub top_left: Point<T>,
    pub bottom_right: Point<T>,
}

/// A tuple of one integer. Its display form is the integer.
#[derive(Clone, Copy, Debug, PartialEq, Eq)]
pub struct Structure(pub i32);

/// A tuple that holds a [`Structure`].
#[derive(Clone, Copy, Debug, PartialEq, Eq)]
pub struct Deep(pub Structure);

/// Two rows of two values.
#[derive(Debug, PartialEq)]
pub struct Matrix<T>(pub T, pub T, pub T, pub T);

/// The rectangle whose top left corner is `point` and whose other corner has
/// `num` for both coordinates.
pub fn square<T: Copy>(point: Point<T>, num: T) -> (r: Rectangle<T>)
    ensures
        r == (Rectangle { top_left: point, bottom_right: Point { x: num, y: num } }),
{
    Rectangle { top_left: point, bottom_right: Point { x: num, y: num } }
}

/// The pair with its members in the other order.
pub fn reverse(pair: (i32, bool)) -> (r: (bool, i32))
    ensures
        r == (pair.1, pair.0),
{
    let (int_param, bool_param) = pair;
    (bool_param, int_param)
}

/// The matrix with rows and columns exchanged.
pub fn transpose<T>(matrix: Matrix<T>) -> (r: Matrix<T>)
    ensures
        r == Matrix(matrix.0, matrix.2, matrix.1, matrix.3),
{
    Matrix(matrix.0, matrix.2, matrix.1, matrix.3)
}

/// Whether `tree` is a leaf with a text that `leaf` gives for `x`.
pub open spec fn leaf_gives<T, F: Fn(&T) -> String>(leaf: F, x: T, tree: Tree) -> bool {
    exists|text: String| #[trigger] call_ensures(leaf, (&x,), text) && tree == Tree::Atom(text@)
}

/// Whether `leaf` may be called on both coordinates of `p`.
pub open spec fn leaf_accepts_point<T, F: Fn(&T) -> String>(leaf: F, p: Point<T>) -> bool {
    call_requires(leaf, (&p.x,)) && call_requires(leaf, (&p.y,))
}

/// Whether `tree` is the record `Point { x, y }` with leaves that `leaf` gives
/// for the coordinates of `p`.
pub open spec fn describes_point<T, F: Fn(&T) -> String>(leaf: F, p: Point<T>, tree: Tree) -> bool {
    &&& tree matches Tree::Record(name, fields)
    &&& name == "Point"@
    &&& fields.len() == 2
    &&& fields[0].name == "x"@
    &&& leaf_gives(leaf, p.x, fields[0].tree)
    &&& fields[1].name == "y"@
    &&& leaf_gives(leaf, p.y, fields[1].tree)
}

/// Whether `tree` is the record `Rectangle { top_left, bottom_right }` with the
/// corners of `r` described as points.
pub open spec fn describes_rectangle<T, F: Fn(&T) -> String>(
    leaf: F,
    r: Rectangle<T>,
    tree: Tree,
) -> bool {
    &&& tree matches Tree::Record(name, fields)
    &&& name == "Rectangle"@
    &&& fields.len() == 2
    &&& fields[0].name == "top_left"@
    &&& describes_point(leaf, r.top_left, fields[0].tree)
    &&& fields[1].name == "bottom_right"@
    &&& describes_point(leaf, r.bottom_right, fields[1].tree)
}

impl Person {
    /// The tree of a person: the record `Person { name, age }`, the name as a
    /// quoted string.
    pub open spec fn tree(self) -> Tree {
        Tree::Record(
            "Person"@,
            seq![
                Entry { name: "name"@, tree: Tree::Atom(quoted_text(self.name@)) },
                Entry { name: "age"@, tree: Tree::Atom(decimal_text(self.age as int)) },
            ],
        )
    }

    /// The person as a value.
    pub fn describe(&self) -> (v: Value)
        ensures
            v@ == self.tree(),
    {
        let mut fields: Vec<Field> = Vec::new();
        fields.push(Field::new("name", Value::quoted(self.name.as_str())));
        fields.push(Field::new("age", Value::integer(self.age as i64)));
        let v = Value::record("Person", fields);
        assert(v@->Record_1 =~= self.tree()->Record_1);
        v
    }
}

impl Unit {
    /// The unit as a value: its name alone.
    pub fn describe(&self) -> (v: Value)
        ensures
            v@ == Tree::Tuple("Unit"@, Seq::empty()),
    {
        let v = Value::tuple("Unit", Vec::new());
        assert(v@->Tuple_1 =~= Seq::<Tree>::empty());
        v
    }
}

impl Structure {
    /// The tree of a structure: the tuple `Structure(n)`.
    pub open spec fn tree(self) -> Tree {
        Tree::Tuple("Structure"@, seq![Tree::Atom(decimal_text(self.0 as int))])
    }

    /// The structure as a value.
    pub fn describe(&self) -> (v: Value)
        ensures
            v@ == self.tree(),
    {
        let mut items: Vec<Value> = Vec::new();
        items.push(Value::integer(self.0 as i64));
        let v = Value::tuple("Structure", items);
        assert(v@->Tuple_1 =~= self.tree()->Tuple_1);
        v
    }

    /// The display form of the structure: the integer in decimal.
    pub fn display(&self) -> (r: String)
        ensures
            r@ == decimal_text(self.0 as int),
    {
        format_decimal(self.0 as i64)
    }
}

impl Deep {
    /// The tree of a deep structure: the tuple `Deep(Structure(n))`.
    pub open spec fn tree(self) -> Tree {
        Tree::Tuple("Deep"@, seq![self.0.tree()])
    }

    /// The deep structure as a value.
    pub fn describe(&self) -> (v: Value)
        ensures
            v@ == self.tree(),
    {
        let mut items: Vec<Value> = Vec::new();
        items.push(self.0.describe());
        let v = Value::tuple("Deep", items);
        assert(v@->Tuple_1 =~= self.tree()->Tuple_1);
        v
    }
}

impl<T> Point<T> {
    /// This point with `x` in place of its first coordinate.
    pub fn with_x(self, x: T) -> (p: Point<T>)
        ensures
            p == (Point { x, y: self.y }),
    {
        Point { x, y: self.y }
    }

    /// This point with `y` in place of its second coordinate.
    pub fn with_y(self, y: T) -> (p: Point<T>)
        ensures
            p == (Point { x: self.x, y }),
    {
        Point { x: self.x, y }
    }

    /// The point as a value; `leaf` gives the text of a coordinate.
    pub fn describe<F: Fn(&T) -> String>(&self, leaf: &F) -> (v: Value)
        requires
            leaf_accepts_point(*leaf, *self),
        ensures
            describes_point(*leaf, *self, v@),
    {
        let x_text: String = leaf(&self.x);
        let y_text: String = leaf(&self.y);
        let mut fields: Vec<Field> = Vec::new();
        fields.push(Field::new("x", Value::atom(x_text.as_str())));
        fields.push(Field::new("y", Value::atom(y_text.as_str())));
        let v = Value::record("Point", fields);
        assert(call_ensures(*leaf, (&self.x,), x_text));
        assert(call_ensures(*leaf, (&self.y,), y_text));
        v
    }
}

impl<T> Rectangle<T> {
    /// The rectangle as a value; `leaf` gives the text of a coordinate.
    pub fn describe<F: Fn(&T) -> String>(&self, leaf: &F) -> (v: Value)
        requires
            leaf_accepts_point(*leaf, self.top_left),
            leaf_accepts_point(*leaf, self.bottom_right),
        ensures
            describes_rectangle(*leaf, *self, v@),
    {
        let mut fields: Vec<Field> = Vec::new();
        fields.push(Field::new("top_left", self.top_left.describe(leaf)));
        fields.push(Field::new("bottom_right", self.bottom_right.describe(leaf)));
        Value::record("Rectangle", fields)
    }
}

/// The display form of a matrix with the leaves `a`, `b`, `c` and `d`: two rows
/// in parentheses.
pub open spec fn matrix_text(a: Seq<char>, b: Seq<char>, c: Seq<char>, d: Seq<char>) -> Seq<char> {
    "( "@ + a + " "@ + b + " )\n( "@ + c + " "@ + d + " )"@
}

/// The display form of a matrix whose members read `a`, `b`, `c` and `d`.
pub fn matrix_display(a: &str, b: &str, c: &str, d: &str) -> (r: String)
    ensures
        r@ == matrix_text(a@, b@, c@, d@),
{
    let mut r: String = "( ".to_owned();
    r.append(a);
    r.append(" ");
    r.append(b);
    r.append(" )\n( ");
    r.append(c);
    r.append(" ");
    r.append(d);
    r.append(" )");
    r
}

} // verus!
