use renderkit::debug::{debug, debug_pretty, write_debug, write_pretty};
use renderkit::records::{Deep, Person, Point, Rectangle, Structure, Unit};
use renderkit::value::{Field, Value};

#[derive(Debug)]
struct Inner {
    x: i64,
    label: &'static str,
}

#[derive(Debug)]
struct Outer {
    first: Inner,
    pair: Wrapped,
    list: Vec<i64>,
}

#[derive(Debug)]
struct Wrapped(i64, i64);

fn inner_value(x: i64, label: &str) -> Value {
    Value::record(
        "Inner",
        vec![Field::new("x", Value::integer(x)), Field::new("label", Value::quoted(label))],
    )
}

fn outer_value() -> Value {
    Value::record(
        "Outer",
        vec![
            Field::new("first", inner_value(-4, "a b")),
            Field::new("pair", Value::tuple("Wrapped", vec![Value::integer(1), Value::integer(2)])),
            Field::new(
                "list",
                Value::list(vec![Value::integer(10), Value::integer(20), Value::integer(30)]),
            ),
        ],
    )
}

fn float_leaf(c: &f32) -> String {
    format!("{:?}", c)
}

fn without_whitespace(s: &str) -> String {
    s.chars().filter(|c| !c.is_whitespace()).collect()
}

#[test]
fn rectangle_of_points_on_one_line() {
    let rectangle: Rectangle<f32> = Rectangle {
        top_left: Point { x: 0.0, y: 0.0 },
        bottom_right: Point { x: 4.0, y: 2.0 },
    };
    assert_eq!(
        debug(&rectangle.describe(&float_leaf)),
        "Rectangle { top_left: Point { x: 0.0, y: 0.0 }, bottom_right: Point { x: 4.0, y: 2.0 } }"
    );
}

#[test]
fn point_on_one_line() {
    let point: Point<f32> = Point { x: 5.4, y: 0.4 };
    assert_eq!(debug(&point.describe(&float_leaf)), "Point { x: 5.4, y: 0.4 }");
}

#[test]
fn person_on_one_line() {
    let peter: Person = Person { name: "Peter".to_owned(), age: 30 };
    assert_eq!(debug(&peter.describe()), "Person { name: \"Peter\", age: 30 }");
}

#[test]
fn person_pretty() {
    let peter: Person = Person { name: "Peter".to_owned(), age: 27 };
    assert_eq!(debug_pretty(&peter.describe()), "Person {\n    name: \"Peter\",\n    age: 27\n}");
}

#[test]
fn a_quoted_leaf_escapes_what_the_standard_formatter_escapes() {
    let odd: Person = Person { name: "a \"b\"\n\\".to_owned(), age: 0 };
    assert_eq!(
        debug(&odd.describe()),
        format!("Person {{ name: {:?}, age: 0 }}", "a \"b\"\n\\")
    );
    assert_eq!(debug(&Value::quoted("tab\there")), "\"tab\\there\"");
    assert_eq!(debug(&Value::quoted("")), "\"\"");
}

#[test]
fn tuples_nest() {
    assert_eq!(debug(&Structure(3).describe()), "Structure(3)");
    assert_eq!(debug(&Deep(Structure(7)).describe()), "Deep(Structure(7))");
    assert_eq!(debug(&Structure(-12).describe()), format!("{:?}", Structure(-12)));
}

#[test]
fn deep_pretty() {
    assert_eq!(
        debug_pretty(&Deep(Structure(7)).describe()),
        "Deep(\n    Structure(\n        7\n    )\n)"
    );
}

#[test]
fn a_composite_without_parts_is_its_name() {
    assert_eq!(debug(&Unit.describe()), "Unit");
    assert_eq!(debug_pretty(&Unit.describe()), "Unit");
    assert_eq!(debug(&Value::record("Empty", Vec::new())), "Empty");
    assert_eq!(debug_pretty(&Value::record("Empty", Vec::new())), "Empty");
    assert_eq!(debug(&Value::list(Vec::new())), "[]");
    assert_eq!(debug_pretty(&Value::list(Vec::new())), "[]");
}

#[test]
fn lists_and_plain_tuples() {
    let list: Value = Value::list(vec![Value::integer(1), Value::integer(2), Value::integer(3)]);
    assert_eq!(debug(&list), "[1, 2, 3]");
    assert_eq!(debug(&list), format!("{:?}", [1, 2, 3]));
    let pair: Value = Value::tuple("", vec![Value::integer(1), Value::atom("true")]);
    assert_eq!(debug(&pair), "(1, true)");
    assert_eq!(debug(&pair), format!("{:?}", (1, true)));
}

#[test]
fn one_line_agrees_with_the_derived_form() {
    let outer: Outer = Outer {
        first: Inner { x: -4, label: "a b" },
        pair: Wrapped(1, 2),
        list: vec![10, 20, 30],
    };
    assert_eq!(debug(&outer_value()), format!("{:?}", outer));
    assert_eq!(
        debug(&outer_value()),
        "Outer { first: Inner { x: -4, label: \"a b\" }, pair: Wrapped(1, 2), list: [10, 20, 30] }"
    );
    assert_eq!(outer.first.x, -4);
    assert_eq!(outer.first.label, "a b");
    assert_eq!(outer.pair.0 + outer.pair.1, 3);
    assert_eq!(outer.list.len(), 3);
}

#[test]
fn nested_pretty_indents_one_level_per_depth() {
    let expected: &str = "Outer {\n    first: Inner {\n        x: -4,\n        label: \"a b\"\n    },\n    pair: Wrapped(\n        1,\n        2\n    ),\n    list: [\n        10,\n        20,\n        30\n    ]\n}";
    assert_eq!(debug_pretty(&outer_value()), expected);
}

#[test]
fn pretty_and_one_line_differ_in_whitespace_only() {
    let samples: Vec<Value> = vec![
        outer_value(),
        inner_value(0, ""),
        Value::atom("leaf"),
        Value::list(Vec::new()),
        Value::tuple("", vec![Value::list(vec![Value::record("R", Vec::new())])]),
        Deep(Structure(7)).describe(),
    ];
    for v in samples.iter() {
        assert_eq!(without_whitespace(&debug_pretty(v)), without_whitespace(&debug(v)));
    }
}

#[test]
fn debug_shows_every_field_and_its_value() {
    let text: String = debug(&outer_value());
    assert!(text.contains("first: Inner { x: -4, label: \"a b\" }"));
    assert!(text.contains("x: -4"));
    assert!(text.contains("label: \"a b\""));
    assert!(text.contains("pair: Wrapped(1, 2)"));
    assert!(text.contains("list: [10, 20, 30]"));
}

#[test]
fn writing_appends_to_what_is_there() {
    let mut out: String = "value = ".to_owned();
    write_debug(&inner_value(1, "z"), &mut out);
    assert_eq!(out, "value = Inner { x: 1, label: \"z\" }");
    let mut pretty: String = "  value = ".to_owned();
    write_pretty(&inner_value(1, "z"), "  ", &mut pretty);
    assert_eq!(pretty, "  value = Inner {\n      x: 1,\n      label: \"z\"\n  }");
}

#[test]
fn constructors_build_the_variants() {
    assert_eq!(Value::atom("a"), Value::Atom("a".to_owned()));
    assert_eq!(Value::integer(-7), Value::Atom("-7".to_owned()));
    assert_eq!(Value::quoted("q"), Value::Atom("\"q\"".to_owned()));
    assert_eq!(
        Value::record("R", vec![Field::new("f", Value::atom("1"))]),
        Value::Record {
            name: "R".to_owned(),
            fields: vec![Field { name: "f".to_owned(), value: Value::Atom("1".to_owned()) }],
        }
    );
    assert_eq!(
        Value::tuple("T", vec![Value::atom("1")]),
        Value::Tuple { name: "T".to_owned(), items: vec![Value::Atom("1".to_owned())] }
    );
    assert_eq!(Value::list(Vec::new()), Value::List { items: Vec::new() });
}
