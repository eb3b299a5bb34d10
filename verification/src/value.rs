//! The value model: what can be rendered.
//!
//! A [`Value`] is a tree. Its leaves are atoms, which hold their text. Its inner
//! nodes are records with named fields in a fixed order, tuples with unnamed
//! items, and lists. Each composite type describes itself once as a `Value`, and
//! one renderer serves them all.
//!
//! Contracts speak of a value through its view, a [`Tree`] over `Seq`.

use vstd::prelude::*;
use vstd::string::*;
use crate::text::{decimal_text, format_decimal};

verus! {

/// A structured value, ready to be rendered.
#[derive(Debug, PartialEq, Eq)]
pub enum Value {
    /// A leaf, rendered as the text it holds.
    Atom(String),
    /// A type name and named fields, in the order of declaration.
    Record { name: String, fields: Vec<Field> },
    /// A type name, empty for a plain tuple, and unnamed items.
    Tuple { name: String, items: Vec<Value> },
    /// A run of items.
    List { items: Vec<Value> },
}

/// A named field of a record.
#[derive(Debug, PartialEq, Eq)]
pub struct Field {
    pub name: String,
    pub value: Value,
}

/// The view of a [`Field`].
pub struct Entry {
    pub name: Seq<char>,
    pub tree: Tree,
}

/// The view of a [`Value`].
pub enum Tree {
    Atom(Seq<char>),
    Record(Seq<char>, Seq<Entry>),
    Tuple(Seq<char>, Seq<Tree>),
    List(Seq<Tree>),
}

/// The tree that `v` stands for.
pub open spec fn tree_of(v: Value) -> Tree
    decreases v,
{
    match v {
        Value::Atom(text) => Tree::Atom(text@),
        Value::Record { name, fields } => Tree::Record(name@, entries_of(fields@)),
        Value::Tuple { name, items } => Tree::Tuple(name@, trees_of(items@)),
        Value::List { items } => Tree::List(trees_of(items@)),
    }
}

/// The entries that `fields` stand for, in the same order.
pub open spec fn entries_of(fields: Seq<Field>) -> Seq<Entry>
    decreases fields,
{
    Seq::new(
        fields.len(),
        |i: int|
            if 0 <= i < fields.len() {
                Entry { name: fields[i].name@, tree: tree_of(fields[i].value) }
            } else {
                arbitrary()
            },
    )
}

/// The trees that `items` stand for, in the same order.
pub open spec fn trees_of(items: Seq<Value>) -> Seq<Tree>
    decreases items,
{
    Seq::new(
        items.len(),
        |i: int|
            if 0 <= i < items.len() {
                tree_of(items[i])
            } else {
                arbitrary()
            },
    )
}

impl View for Value {
    type V = Tree;

    open spec fn view(&self) -> Tree {
        tree_of(*self)
    }
}

impl View for Field {
    type V = Entry;

    open spec fn view(&self) -> Entry {
        Entry { name: self.name@, tree: tree_of(self.value) }
    }
}

/// The text that the standard library's `Debug` gives a string: the string in
/// double quotes, with the characters escaped that `Debug` escapes.
pub uninterp spec fn quoted_text(s: Seq<char>) -> Seq<char>;

/// The `Debug` form of `s`, made by the standard library's `format!("{:?}", s)`.
/// The result is a function of the characters of `s` alone; its name is
/// [`quoted_text`].
#[verifier::external_body]
fn quote(s: &str) -> (r: String)
    ensures
        r@ == quoted_text(s@),
{
    format!("{:?}", s)
}

impl Field {
    /// The field `name` with `value`.
    pub fn new(name: &str, value: Value) -> (f: Field)
        ensures
            f@ == (Entry { name: name@, tree: value@ }),
    {
        Field { name: name.to_owned(), value }
    }
}

impl Value {
    /// A leaf with the text `text`.
    pub fn atom(text: &str) -> (v: Value)
        ensures
            v@ == Tree::Atom(text@),
    {
        Value::Atom(text.to_owned())
    }

    /// A leaf that holds `n` in decimal.
    pub fn integer(n: i64) -> (v: Value)
        ensures
            v@ == Tree::Atom(decimal_text(n as int)),
    {
        Value::Atom(format_decimal(n))
    }

    /// A leaf that holds `s` as a quoted string.
    pub fn quoted(s: &str) -> (v: Value)
        ensures
            v@ == Tree::Atom(quoted_text(s@)),
    {
        Value::Atom(quote(s))
    }

    /// A record of type `name` with `fields`.
    pub fn record(name: &str, fields: Vec<Field>) -> (v: Value)
        ensures
            v@ == Tree::Record(name@, entries_of(fields@)),
    {
        Value::Record { name: name.to_owned(), fields }
    }

    /// A tuple of type `name` with `items`; a plain tuple has the empty name.
    pub fn tuple(name: &str, items: Vec<Value>) -> (v: Value)
        ensures
            v@ == Tree::Tuple(name@, trees_of(items@)),
    {
        Value::Tuple { name: name.to_owned(), items }
    }

    /// A list of `items`.
    pub fn list(items: Vec<Value>) -> (v: Value)
        ensures
            v@ == Tree::List(trees_of(items@)),
    {
        Value::List { items }
    }
}

} // verus!
