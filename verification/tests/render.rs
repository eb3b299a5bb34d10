use renderkit::records::{Person, Structure};
use renderkit::render::{form, render, try_render, Mode, Options, Renderable};
use renderkit::text::Align;
use renderkit::value::Value;

fn structure(n: i32) -> Renderable {
    let s: Structure = Structure(n);
    Renderable::with_display(s.describe(), &s.display())
}

fn person() -> Renderable {
    Renderable::debug_only(Person { name: "Peter".to_owned(), age: 27 }.describe())
}

#[test]
fn display_is_the_form_that_was_given() {
    assert_eq!(render(&structure(3), Mode::Display, &Options::plain()), "3");
    assert_eq!(render(&structure(3), Mode::Display, &Options::pretty()), "3");
    assert_eq!(Structure(3).display(), format!("{}", 3));
}

#[test]
fn debug_is_the_structural_form() {
    assert_eq!(render(&structure(3), Mode::Debug, &Options::plain()), "Structure(3)");
    assert_eq!(render(&structure(3), Mode::Debug, &Options::pretty()), "Structure(\n    3\n)");
}

#[test]
fn a_value_without_display_form_has_its_debug_form() {
    let peter: Renderable = person();
    assert!(!peter.supports(Mode::Display));
    assert!(peter.supports(Mode::Debug));
    assert_eq!(try_render(&peter, Mode::Display, &Options::plain()), None);
    assert_eq!(try_render(&peter, Mode::Display, &Options::pretty()), None);
    assert_eq!(
        try_render(&peter, Mode::Debug, &Options::plain()),
        Some("Person { name: \"Peter\", age: 27 }".to_owned())
    );
    assert_eq!(
        try_render(&peter, Mode::Debug, &Options::pretty()),
        Some("Person {\n    name: \"Peter\",\n    age: 27\n}".to_owned())
    );
}

#[test]
fn a_value_with_display_form_has_both() {
    let three: Renderable = structure(3);
    assert!(three.supports(Mode::Display));
    assert!(three.supports(Mode::Debug));
    assert_eq!(try_render(&three, Mode::Display, &Options::plain()), Some("3".to_owned()));
    assert_eq!(
        try_render(&three, Mode::Debug, &Options::plain()),
        Some("Structure(3)".to_owned())
    );
}

#[test]
fn the_field_is_filled_to_its_width() {
    let right: Options = Options::plain().in_field(5, ' ', Align::Right);
    assert_eq!(render(&structure(1), Mode::Display, &right), "    1");
    let center: Options = Options::plain().in_field(16, '-', Align::Center);
    assert_eq!(render(&structure(3), Mode::Debug, &center), "--Structure(3)--");
    let narrow: Options = Options::plain().in_field(2, '-', Align::Left);
    assert_eq!(render(&structure(3), Mode::Debug, &narrow), "Structure(3)");
}

#[test]
fn form_is_the_text_before_padding() {
    assert_eq!(form(&structure(-9), Mode::Display, false), "-9");
    assert_eq!(form(&structure(-9), Mode::Debug, false), "Structure(-9)");
    assert_eq!(form(&structure(-9), Mode::Debug, true), "Structure(\n    -9\n)");
}

#[test]
fn options_are_what_they_say() {
    assert_eq!(
        Options::plain(),
        Options { pretty: false, width: 0, fill: ' ', align: Align::Left }
    );
    assert_eq!(
        Options::pretty(),
        Options { pretty: true, width: 0, fill: ' ', align: Align::Left }
    );
    assert_eq!(
        Options::pretty().in_field(3, 'x', Align::Center),
        Options { pretty: true, width: 3, fill: 'x', align: Align::Center }
    );
}

#[test]
fn renderables_hold_what_they_were_given() {
    assert_eq!(
        Renderable::debug_only(Value::atom("a")),
        Renderable { structure: Value::Atom("a".to_owned()), display: None }
    );
    assert_eq!(
        Renderable::with_display(Value::atom("a"), "A"),
        Renderable { structure: Value::Atom("a".to_owned()), display: Some("A".to_owned()) }
    );
}
