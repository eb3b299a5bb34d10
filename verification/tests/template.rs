use renderkit::records::Person;
use renderkit::render::{Mode, Renderable};
use renderkit::template::{
    check_piece, check_template, find, render_template, render_well_formed, Argument, Arguments,
    NamedArgument, Piece, Placeholder, Problem, Target, TemplateError, Width,
};
use renderkit::text::Align;
use renderkit::value::Value;

fn word(text: &str) -> Argument {
    Argument::Value(Renderable::with_display(Value::quoted(text), text))
}

fn named(name: &str, argument: Argument) -> NamedArgument {
    NamedArgument { name: name.to_owned(), argument }
}

fn text(t: &str) -> Piece {
    Piece::Text(t.to_owned())
}

fn hole(target: Target, mode: Mode) -> Piece {
    Piece::Hole(Placeholder {
        target,
        mode,
        pretty: false,
        width: Width::Fixed(0),
        fill: ' ',
        align: Align::Left,
    })
}

fn at(k: usize) -> Piece {
    hole(Target::Positional(k), Mode::Display)
}

fn by_name(name: &str) -> Piece {
    hole(Target::Named(name.to_owned()), Mode::Display)
}

#[test]
fn positional_arguments_fill_many_holes() {
    let args: Arguments =
        Arguments { positional: vec![word("Alice"), word("Bob")], named: Vec::new() };
    let pieces: Vec<Piece> =
        vec![at(0), text(", this is "), at(1), text(". "), at(1), text(", this is "), at(0)];
    assert_eq!(
        render_template(&args, &pieces),
        Ok(format!("{0}, this is {1}. {1}, this is {0}", "Alice", "Bob"))
    );
}

#[test]
fn named_arguments_fill_holes_in_any_order() {
    let args: Arguments = Arguments {
        positional: Vec::new(),
        named: vec![
            named("object", word("the lazy dog")),
            named("subject", word("the quick brown fox")),
            named("verb", word("jumps over")),
        ],
    };
    let pieces: Vec<Piece> =
        vec![by_name("subject"), text(" "), by_name("verb"), text(" "), by_name("object")];
    assert_eq!(
        render_template(&args, &pieces),
        Ok("the quick brown fox jumps over the lazy dog".to_owned())
    );
}

#[test]
fn debug_holes_show_the_structure() {
    let args: Arguments = Arguments {
        positional: vec![word("Slater"), word("Christian")],
        named: vec![named("actor", word("actor's"))],
    };
    let pieces: Vec<Piece> = vec![
        hole(Target::Positional(1), Mode::Debug),
        text(" "),
        hole(Target::Positional(0), Mode::Debug),
        text(" is the "),
        hole(Target::Named("actor".to_owned()), Mode::Debug),
        text(" name."),
    ];
    assert_eq!(
        render_template(&args, &pieces),
        Ok(format!("{1:?} {0:?} is the {actor:?} name.", "Slater", "Christian", actor = "actor's"))
    );
}

#[test]
fn a_width_can_come_from_an_argument() {
    let args: Arguments = Arguments {
        positional: Vec::new(),
        named: vec![
            named("number", Argument::Value(Renderable::with_display(Value::atom("1"), "1"))),
            named("width", Argument::Count(5)),
        ],
    };
    let pieces: Vec<Piece> = vec![Piece::Hole(Placeholder {
        target: Target::Named("number".to_owned()),
        mode: Mode::Display,
        pretty: false,
        width: Width::FromArgument(Target::Named("width".to_owned())),
        fill: ' ',
        align: Align::Right,
    })];
    assert_eq!(render_template(&args, &pieces), Ok("    1".to_owned()));
}

#[test]
fn a_count_renders_in_decimal() {
    let args: Arguments =
        Arguments { positional: vec![Argument::Count(31)], named: Vec::new() };
    let pieces: Vec<Piece> = vec![at(0), text(" days, "), hole(Target::Positional(0), Mode::Debug)];
    assert_eq!(render_template(&args, &pieces), Ok("31 days, 31".to_owned()));
    let wide: Vec<Piece> = vec![Piece::Hole(Placeholder {
        target: Target::Positional(0),
        mode: Mode::Display,
        pretty: false,
        width: Width::Fixed(6),
        fill: '0',
        align: Align::Right,
    })];
    assert_eq!(render_template(&args, &wide), Ok("000031".to_owned()));
}

#[test]
fn a_pretty_hole_takes_the_pretty_form() {
    let peter: Person = Person { name: "Peter".to_owned(), age: 27 };
    let args: Arguments = Arguments {
        positional: vec![Argument::Value(Renderable::debug_only(peter.describe()))],
        named: Vec::new(),
    };
    let pieces: Vec<Piece> = vec![Piece::Hole(Placeholder {
        target: Target::Positional(0),
        mode: Mode::Debug,
        pretty: true,
        width: Width::Fixed(0),
        fill: ' ',
        align: Align::Left,
    })];
    assert_eq!(
        render_template(&args, &pieces),
        Ok("Person {\n    name: \"Peter\",\n    age: 27\n}".to_owned())
    );
}

#[test]
fn an_undeclared_position_is_reported() {
    let args: Arguments = Arguments { positional: vec![word("a")], named: Vec::new() };
    let pieces: Vec<Piece> = vec![text("x"), at(0), at(1), at(2)];
    assert_eq!(
        render_template(&args, &pieces),
        Err(TemplateError { piece: 2, problem: Problem::Undeclared })
    );
    assert_eq!(
        check_template(&args, &pieces),
        Err(TemplateError { piece: 2, problem: Problem::Undeclared })
    );
}

#[test]
fn an_undeclared_name_is_reported() {
    let args: Arguments =
        Arguments { positional: vec![word("a")], named: vec![named("here", word("b"))] };
    let pieces: Vec<Piece> = vec![by_name("here"), by_name("missing")];
    assert_eq!(
        render_template(&args, &pieces),
        Err(TemplateError { piece: 1, problem: Problem::Undeclared })
    );
}

#[test]
fn a_width_of_the_wrong_kind_is_reported() {
    let args: Arguments = Arguments {
        positional: vec![word("a"), Argument::Count(3)],
        named: Vec::new(),
    };
    let bad: Vec<Piece> = vec![Piece::Hole(Placeholder {
        target: Target::Positional(1),
        mode: Mode::Display,
        pretty: false,
        width: Width::FromArgument(Target::Positional(0)),
        fill: ' ',
        align: Align::Left,
    })];
    assert_eq!(
        render_template(&args, &bad),
        Err(TemplateError { piece: 0, problem: Problem::WrongKind })
    );
    let missing: Vec<Piece> = vec![Piece::Hole(Placeholder {
        target: Target::Positional(0),
        mode: Mode::Display,
        pretty: false,
        width: Width::FromArgument(Target::Positional(7)),
        fill: ' ',
        align: Align::Left,
    })];
    assert_eq!(
        render_template(&args, &missing),
        Err(TemplateError { piece: 0, problem: Problem::Undeclared })
    );
}

#[test]
fn display_of_a_value_without_display_form_is_reported() {
    let peter: Person = Person { name: "Peter".to_owned(), age: 27 };
    let args: Arguments = Arguments {
        positional: vec![Argument::Value(Renderable::debug_only(peter.describe()))],
        named: Vec::new(),
    };
    let pieces: Vec<Piece> = vec![text("This struct `"), at(0), text("` won't print...")];
    assert_eq!(
        render_template(&args, &pieces),
        Err(TemplateError { piece: 1, problem: Problem::NoDisplayForm })
    );
    let debug: Vec<Piece> = vec![text("Now "), hole(Target::Positional(0), Mode::Debug)];
    assert_eq!(
        render_template(&args, &debug),
        Ok("Now Person { name: \"Peter\", age: 27 }".to_owned())
    );
}

#[test]
fn the_first_piece_at_fault_is_reported() {
    let peter: Person = Person { name: "Peter".to_owned(), age: 27 };
    let args: Arguments = Arguments {
        positional: vec![Argument::Value(Renderable::debug_only(peter.describe()))],
        named: Vec::new(),
    };
    let pieces: Vec<Piece> = vec![text("a"), at(0), at(9)];
    assert_eq!(
        check_template(&args, &pieces),
        Err(TemplateError { piece: 1, problem: Problem::NoDisplayForm })
    );
    let other: Vec<Piece> = vec![at(9), at(0)];
    assert_eq!(
        check_template(&args, &other),
        Err(TemplateError { piece: 0, problem: Problem::Undeclared })
    );
}

#[test]
fn of_two_arguments_with_one_name_the_first_is_meant() {
    let args: Arguments = Arguments {
        positional: Vec::new(),
        named: vec![named("n", word("first")), named("n", word("second"))],
    };
    assert_eq!(render_template(&args, &vec![by_name("n")]), Ok("first".to_owned()));
    assert_eq!(find(&args, &Target::Named("n".to_owned())), Some(&word("first")));
    assert_eq!(find(&args, &Target::Named("m".to_owned())), None);
    assert_eq!(find(&args, &Target::Positional(0)), None);
}

#[test]
fn an_empty_template_is_empty_text() {
    let args: Arguments = Arguments { positional: Vec::new(), named: Vec::new() };
    assert_eq!(render_template(&args, &Vec::new()), Ok(String::new()));
    assert_eq!(check_template(&args, &Vec::new()), Ok(()));
    assert_eq!(render_well_formed(&args, &vec![text("Hello, "), text("world!")]), "Hello, world!");
}

#[test]
fn pieces_are_checked_one_by_one() {
    let args: Arguments = Arguments { positional: vec![word("a")], named: Vec::new() };
    assert_eq!(check_piece(&args, &text("t")), None);
    assert_eq!(check_piece(&args, &at(0)), None);
    assert_eq!(check_piece(&args, &at(1)), Some(Problem::Undeclared));
}
