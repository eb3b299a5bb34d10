//! Templates: literal text with holes that refer to arguments.
//!
//! A hole names its argument by position or by name, and one argument may fill
//! many holes. A hole says in which mode its argument is rendered and how wide
//! the field is; the width is a number, or it refers to an argument that holds a
//! count. A template is checked as a whole before any text is made: a hole that
//! refers to an argument that was not declared, a width that refers to an
//! argument that is no count, and a display form asked of a value that has none
//! are reported with the position of the first piece at fault.

use vstd::prelude::*;
use vstd::string::*;
use crate::text::{Align, Radix, decimal_text, pad, padded, push_radix};
use crate::render::{Mode, Renderable, can_render, form, form_text};

verus! {

/// The argument that a hole refers to.
#[derive(Debug, PartialEq, Eq)]
pub enum Target {
    /// The argument at this position among the positional ones, from 0.
    Positional(usize),
    /// The argument declared with this name.
    Named(String),
}

/// The least width of a field.
#[derive(Debug, PartialEq, Eq)]
pub enum Width {
    /// This many characters.
    Fixed(usize),
    /// As many characters as the count that the argument holds.
    FromArgument(Target),
}

/// A hole in a template.
#[derive(Debug, PartialEq, Eq)]
pub struct Placeholder {
    pub target: Target,
    pub mode: Mode,
    pub pretty: bool,
    pub width: Width,
    pub fill: char,
    pub align: Align,
}

/// A piece of a template.
#[derive(Debug, PartialEq, Eq)]
pub enum Piece {
    /// Text that stands for itself.
    Text(String),
    /// A hole that an argument fills.
    Hole(Placeholder),
}

/// An argument of a template.
#[derive(Debug, PartialEq, Eq)]
pub enum Argument {
    /// A value, rendered in the mode of the hole.
    Value(Renderable),
    /// A count: it renders in decimal in either mode and can serve as a width.
    Count(usize),
}

/// An argument declared with a name.
#[derive(Debug, PartialEq, Eq)]
pub struct NamedArgument {
    pub name: String,
    pub argument: Argument,
}

/// The arguments of a template.
#[derive(Debug, PartialEq, Eq)]
pub struct Arguments {
    pub positional: Vec<Argument>,
    pub named: Vec<NamedArgument>,
}

/// What is wrong with a piece.
#[derive(Clone, Copy, Debug, PartialEq, Eq, Structural)]
pub enum Problem {
    /// A hole or a width refers to an argument that was not declared.
    Undeclared,
    /// A width refers to an argument that is no count.
    WrongKind,
    /// The display form is asked of a value that has none.
    NoDisplayForm,
}

/// Why a template was not rendered: the position of the first piece at fault,
/// and what is wrong with it.
#[derive(Clone, Copy, Debug, PartialEq, Eq)]
pub struct TemplateError {
    pub piece: usize,
    pub problem: Problem,
}

/// The position of the first among the first `n` named arguments that is
/// called `name`.
pub open spec fn named_position(named: Seq<NamedArgument>, name: Seq<char>, n: nat) -> Option<int>
    decreases n,
{
    if n == 0 || n > named.len() {
        None
    } else {
        match named_position(named, name, (n - 1) as nat) {
            Some(k) => Some(k),
            None => if named[n - 1].name@ == name {
                Some(n - 1)
            } else {
                None
            },
        }
    }
}

/// The argument that `target` refers to, if it was declared. Of two arguments
/// with one name the first is meant.
pub open spec fn lookup(args: Arguments, target: Target) -> Option<Argument> {
    match target {
        Target::Positional(k) => if k < args.positional@.len() {
            Some(args.positional@[k as int])
        } else {
            None
        },
        Target::Named(name) => match named_position(args.named@, name@, args.named@.len()) {
            Some(k) => Some(args.named@[k].argument),
            None => None,
        },
    }
}

/// What is wrong with `width`, if anything.
pub open spec fn width_problem(args: Arguments, width: Width) -> Option<Problem> {
    match width {
        Width::Fixed(_) => None,
        Width::FromArgument(target) => match lookup(args, target) {
            None => Some(Problem::Undeclared),
            Some(Argument::Count(_)) => None,
            Some(Argument::Value(_)) => Some(Problem::WrongKind),
        },
    }
}

/// What is wrong with `hole`, if anything: first its own argument, then its
/// width, then the mode.
pub open spec fn hole_problem(args: Arguments, hole: Placeholder) -> Option<Problem> {
    match lookup(args, hole.target) {
        None => Some(Problem::Undeclared),
        Some(argument) => match width_problem(args, hole.width) {
            Some(problem) => Some(problem),
            None => match argument {
                Argument::Value(item) => if can_render(item@, hole.mode) {
                    None
                } else {
                    Some(Problem::NoDisplayForm)
                },
                Argument::Count(_) => None,
            },
        },
    }
}

/// What is wrong with `piece`, if anything. Nothing is wrong with text.
pub open spec fn piece_problem(args: Arguments, piece: Piece) -> Option<Problem> {
    match piece {
        Piece::Text(_) => None,
        Piece::Hole(hole) => hole_problem(args, hole),
    }
}

/// Whether nothing is wrong with any piece.
pub open spec fn well_formed(args: Arguments, pieces: Seq<Piece>) -> bool {
    forall|i: int| 0 <= i < pieces.len() ==> (#[trigger] piece_problem(args, pieces[i])) is None
}

/// The number of characters that `width` asks for.
pub open spec fn width_of(args: Arguments, width: Width) -> nat
    recommends
        width_problem(args, width) is None,
{
    match width {
        Width::Fixed(w) => w as nat,
        Width::FromArgument(target) => match lookup(args, target) {
            Some(Argument::Count(n)) => n as nat,
            _ => 0,
        },
    }
}

/// The text of `argument` in `mode` before padding.
pub open spec fn argument_text(argument: Argument, mode: Mode, pretty: bool) -> Seq<char> {
    match argument {
        Argument::Value(item) => form_text(item@, mode, pretty),
        Argument::Count(n) => decimal_text(n as int),
    }
}

/// The text that fills `hole`.
pub open spec fn hole_text(args: Arguments, hole: Placeholder) -> Seq<char>
    recommends
        hole_problem(args, hole) is None,
{
    padded(
        argument_text(lookup(args, hole.target)->0, hole.mode, hole.pretty),
        width_of(args, hole.width),
        hole.fill,
        hole.align,
    )
}

/// The text of `piece`.
pub open spec fn piece_text(args: Arguments, piece: Piece) -> Seq<char>
    recommends
        piece_problem(args, piece) is None,
{
    match piece {
        Piece::Text(text) => text@,
        Piece::Hole(hole) => hole_text(args, hole),
    }
}

/// The texts of the first `n` pieces, one behind the other.
pub open spec fn template_text(args: Arguments, pieces: Seq<Piece>, n: nat) -> Seq<char>
    decreases n,
{
    if n == 0 || n > pieces.len() {
        Seq::empty()
    } else {
        template_text(args, pieces, (n - 1) as nat) + piece_text(args, pieces[n - 1])
    }
}

/// Whether `e` reports the first piece that something is wrong with.
pub open spec fn reports_first_problem(args: Arguments, pieces: Seq<Piece>, e: TemplateError) -> bool {
    &&& e.piece < pieces.len()
    &&& piece_problem(args, pieces[e.piece as int]) == Some(e.problem)
    &&& forall|j: int| 0 <= j < e.piece ==> (#[trigger] piece_problem(args, pieces[j])) is None
}

/// Once a name is found among the first arguments, it is found at the same
/// place among more of them.
pub proof fn lemma_named_position_stays(named: Seq<NamedArgument>, name: Seq<char>, n: nat, m: nat)
    requires
        n <= m <= named.len(),
        named_position(named, name, n) is Some,
    ensures
        named_position(named, name, m) == named_position(named, name, n),
    decreases m,
{
    if m > n {
        lemma_named_position_stays(named, name, n, (m - 1) as nat);
    }
}

/// The argument that `target` refers to, if it was declared.
pub fn find<'a>(args: &'a Arguments, target: &Target) -> (r: Option<&'a Argument>)
    ensures
        match r {
            Some(argument) => lookup(*args, *target) == Some(*argument),
            None => lookup(*args, *target) is None,
        },
{
    match target {
        Target::Positional(k) => {
            if *k < args.positional.len() {
                Some(&args.positional[*k])
            } else {
                None
            }
        },
        Target::Named(name) => {
            let mut i: usize = 0;
            while i < args.named.len()
                invariant
                    i <= args.named.len(),
                    *target == Target::Named(*name),
                    named_position(args.named@, name@, i as nat) is None,
                decreases args.named.len() - i,
            {
                if args.named[i].name == *name {
                    proof {
                        assert(named_position(args.named@, name@, (i + 1) as nat) == Some(i as int));
                        lemma_named_position_stays(
                            args.named@,
                            name@,
                            (i + 1) as nat,
                            args.named@.len(),
                        );
                    }
                    return Some(&args.named[i].argument);
                }
                i = i + 1;
            }
            None
        },
    }
}

/// What is wrong with `piece`, if anything.
pub fn check_piece(args: &Arguments, piece: &Piece) -> (r: Option<Problem>)
    ensures
        r == piece_problem(*args, *piece),
{
    match piece {
        Piece::Text(_) => None,
        Piece::Hole(hole) => {
            match find(args, &hole.target) {
                None => Some(Problem::Undeclared),
                Some(argument) => {
                    let width_fault: Option<Problem> = match &hole.width {
                        Width::Fixed(_) => None,
                        Width::FromArgument(target) => match find(args, target) {
                            None => Some(Problem::Undeclared),
                            Some(Argument::Count(_)) => None,
                            Some(Argument::Value(_)) => Some(Problem::WrongKind),
                        },
                    };
                    match width_fault {
                        Some(problem) => Some(problem),
                        None => match argument {
                            Argument::Value(item) => if item.supports(hole.mode) {
                                None
                            } else {
                                Some(Problem::NoDisplayForm)
                            },
                            Argument::Count(_) => None,
                        },
                    }
                },
            }
        },
    }
}

/// Checks every piece of a template against the arguments, and reports the
/// first piece that something is wrong with.
pub fn check_template(args: &Arguments, pieces: &Vec<Piece>) -> (r: Result<(), TemplateError>)
    ensures
        match r {
            Ok(_) => well_formed(*args, pieces@),
            Err(e) => reports_first_problem(*args, pieces@, e),
        },
{
    let mut i: usize = 0;
    while i < pieces.len()
        invariant
            i <= pieces.len(),
            forall|j: int| 0 <= j < i ==> (#[trigger] piece_problem(*args, pieces@[j])) is None,
        decreases pieces.len() - i,
    {
        match check_piece(args, &pieces[i]) {
            Some(problem) => {
                return Err(TemplateError { piece: i, problem });
            },
            None => {},
        }
        i = i + 1;
    }
    Ok(())
}

/// Appends the text of `piece` to `out`. Nothing may be wrong with the piece.
pub fn write_piece(args: &Arguments, piece: &Piece, out: &mut String)
    requires
        piece_problem(*args, *piece) is None,
    ensures
        final(out)@ == old(out)@ + piece_text(*args, *piece),
{
    match piece {
        Piece::Text(text) => {
            out.append(text.as_str());
        },
        Piece::Hole(hole) => {
            let width: usize = match &hole.width {
                Width::Fixed(w) => *w,
                Width::FromArgument(target) => match find(args, target) {
                    Some(Argument::Count(n)) => *n,
                    _ => 0,
                },
            };
            let text: String = match find(args, &hole.target) {
                Some(Argument::Value(item)) => form(item, hole.mode, hole.pretty),
                Some(Argument::Count(n)) => {
                    let mut digits_text: String = String::new();
                    push_radix(&mut digits_text, *n as u64, Radix::Decimal, 0);
                    assert(digits_text@ =~= decimal_text(*n as int));
                    digits_text
                },
                None => String::new(),
            };
            let field: String = pad(text.as_str(), width, hole.fill, hole.align);
            out.append(field.as_str());
        },
    }
}

/// The text of a template with nothing wrong in it: the texts of its pieces,
/// one behind the other.
pub fn render_well_formed(args: &Arguments, pieces: &Vec<Piece>) -> (r: String)
    requires
        well_formed(*args, pieces@),
    ensures
        r@ == template_text(*args, pieces@, pieces@.len()),
{
    let mut r: String = String::new();
    let mut i: usize = 0;
    while i < pieces.len()
        invariant
            i <= pieces.len(),
            well_formed(*args, pieces@),
            r@ == template_text(*args, pieces@, i as nat),
        decreases pieces.len() - i,
    {
        assert(piece_problem(*args, pieces@[i as int]) is None);
        write_piece(args, &pieces[i], &mut r);
        i = i + 1;
    }
    r
}

/// Renders a template. Every piece is checked before any text is made: the
/// result is the whole text, or the first piece at fault and no text at all.
pub fn render_template(args: &Arguments, pieces: &Vec<Piece>) -> (r: Result<String, TemplateError>)
    ensures
        match r {
            Ok(text) => well_formed(*args, pieces@) && text@ == template_text(
                *args,
                pieces@,
                pieces@.len(),
            ),
            Err(e) => reports_first_problem(*args, pieces@, e),
        },
{
    match check_template(args, pieces) {
        Ok(_) => Ok(render_well_formed(args, pieces)),
        Err(e) => Err(e),
    }
}

/// A template is rendered exactly when it is well formed, and an error names a
/// piece that keeps it from being so.
pub proof fn lemma_error_excludes_success(args: Arguments, pieces: Seq<Piece>, e: TemplateError)
    requires
        reports_first_problem(args, pieces, e),
    ensures
        !well_formed(args, pieces),
{
    assert(piece_problem(args, pieces[e.piece as int]) is Some);
}

/// Two errors that report the first problem of one template are the same.
pub proof fn lemma_first_problem_is_unique(
    args: Arguments,
    pieces: Seq<Piece>,
    e1: TemplateError,
    e2: TemplateError,
)
    requires
        reports_first_problem(args, pieces, e1),
        reports_first_problem(args, pieces, e2),
    ensures
        e1 == e2,
{
    if e1.piece < e2.piece {
        assert(piece_problem(args, pieces[e1.piece as int]) is None);
    }
    if e2.piece < e1.piece {
        assert(piece_problem(args, pieces[e2.piece as int]) is None);
    }
}

/// Two holes that are the same but for their place in the template are filled
/// with the same text: an argument can be used many times.
pub proof fn lemma_argument_reusable(args: Arguments, pieces: Seq<Piece>, i: int, j: int)
    requires
        0 <= i < pieces.len(),
        0 <= j < pieces.len(),
        pieces[i] == pieces[j],
    ensures
        piece_text(args, pieces[i]) == piece_text(args, pieces[j]),
        piece_problem(args, pieces[i]) == piece_problem(args, pieces[j]),
{
}

} // verus!
