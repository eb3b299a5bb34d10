//! Rendering a value in a mode, with options.
//!
//! The debug form of a value follows from its structure; the display form is
//! text that the caller wrote, and a value has one only if it was given one. To
//! ask for the display form of a value that has none is an error of the caller:
//! [`render`] leaves it out by its precondition, and [`try_render`] answers it
//! with `None`.

use vstd::prelude::*;
use vstd::string::*;
use crate::text::{Align, pad, padded};
use crate::value::{Value, Tree};
use crate::debug::{debug, debug_pretty, debug_text, pretty_text};

verus! {

/// The form that is asked for.
#[derive(Clone, Copy, Debug, PartialEq, Eq, Structural)]
pub enum Mode {
    /// The form that the caller wrote for readers.
    Display,
    /// The structural form.
    Debug,
}

/// How the text is laid out.
#[derive(Clone, Copy, Debug, PartialEq, Eq)]
pub struct Options {
    /// Whether the debug form is the pretty one. The display form is the same
    /// either way.
    pub pretty: bool,
    /// The least number of characters of the result.
    pub width: usize,
    /// The character that fills a field wider than the text.
    pub fill: char,
    /// Where the text stands in such a field.
    pub align: Align,
}

impl Options {
    /// One line, no padding.
    pub fn plain() -> (o: Options)
        ensures
            o == (Options { pretty: false, width: 0, fill: ' ', align: Align::Left }),
    {
        Options { pretty: false, width: 0, fill: ' ', align: Align::Left }
    }

    /// The pretty debug form, no padding.
    pub fn pretty() -> (o: Options)
        ensures
            o == (Options { pretty: true, width: 0, fill: ' ', align: Align::Left }),
    {
        Options { pretty: true, width: 0, fill: ' ', align: Align::Left }
    }

    /// These options with a field of `width` characters, filled with `fill`.
    pub fn in_field(self, width: usize, fill: char, align: Align) -> (o: Options)
        ensures
            o == (Options { pretty: self.pretty, width, fill, align }),
    {
        Options { pretty: self.pretty, width, fill, align }
    }
}

/// A value with the display form that it was given, if any.
#[derive(Debug, PartialEq, Eq)]
pub struct Renderable {
    pub structure: Value,
    pub display: Option<String>,
}

/// The view of a [`Renderable`].
pub struct RenderableView {
    pub structure: Tree,
    pub display: Option<Seq<char>>,
}

impl View for Renderable {
    type V = RenderableView;

    open spec fn view(&self) -> RenderableView {
        RenderableView {
            structure: self.structure@,
            display: match self.display {
                Some(text) => Some(text@),
                None => None,
            },
        }
    }
}

/// Whether `item` has a form in `mode`: the debug form always, the display form
/// if it was given one.
pub open spec fn can_render(item: RenderableView, mode: Mode) -> bool {
    mode == Mode::Debug || item.display is Some
}

/// The form of `item` in `mode` before padding.
pub open spec fn form_text(item: RenderableView, mode: Mode, pretty: bool) -> Seq<char>
    recommends
        can_render(item, mode),
{
    match mode {
        Mode::Display => item.display->0,
        Mode::Debug => if pretty {
            pretty_text(item.structure, Seq::empty())
        } else {
            debug_text(item.structure)
        },
    }
}

/// The text of `item` in `mode` under `options`.
pub open spec fn render_text(item: RenderableView, mode: Mode, options: Options) -> Seq<char>
    recommends
        can_render(item, mode),
{
    padded(form_text(item, mode, options.pretty), options.width as nat, options.fill, options.align)
}

impl Renderable {
    /// A value without a display form.
    pub fn debug_only(structure: Value) -> (r: Renderable)
        ensures
            r@ == (RenderableView { structure: structure@, display: None }),
    {
        Renderable { structure, display: None }
    }

    /// A value with the display form `display`.
    pub fn with_display(structure: Value, display: &str) -> (r: Renderable)
        ensures
            r@ == (RenderableView { structure: structure@, display: Some(display@) }),
    {
        Renderable { structure, display: Some(display.to_owned()) }
    }

    /// Whether the value has a form in `mode`.
    pub fn supports(&self, mode: Mode) -> (b: bool)
        ensures
            b == can_render(self@, mode),
    {
        match mode {
            Mode::Debug => true,
            Mode::Display => self.display.is_some(),
        }
    }
}

/// The form of `item` in `mode` before padding. The value must have a form in
/// that mode.
pub fn form(item: &Renderable, mode: Mode, pretty: bool) -> (r: String)
    requires
        can_render(item@, mode),
    ensures
        r@ == form_text(item@, mode, pretty),
{
    match mode {
        Mode::Display => match &item.display {
            Some(text) => text.clone(),
            None => String::new(),
        },
        Mode::Debug => if pretty {
            debug_pretty(&item.structure)
        } else {
            debug(&item.structure)
        },
    }
}

/// The text of `item` in `mode` under `options`. The value must have a form in
/// that mode.
pub fn render(item: &Renderable, mode: Mode, options: &Options) -> (r: String)
    requires
        can_render(item@, mode),
    ensures
        r@ == render_text(item@, mode, *options),
{
    let text: String = form(item, mode, options.pretty);
    pad(text.as_str(), options.width, options.fill, options.align)
}

/// The text of `item` in `mode` under `options`, or `None` exactly when the
/// display form is asked of a value that has none.
pub fn try_render(item: &Renderable, mode: Mode, options: &Options) -> (r: Option<String>)
    ensures
        match r {
            Some(text) => can_render(item@, mode) && text@ == render_text(item@, mode, *options),
            None => !can_render(item@, mode),
        },
{
    if item.supports(mode) {
        Some(render(item, mode, options))
    } else {
        None
    }
}

/// A value that was given no display form has none, and has its debug form all
/// the same: without padding that is the debug form of its structure, on one
/// line or pretty.
pub proof fn lemma_debug_needs_no_display(structure: Tree, options: Options)
    ensures
        !can_render(RenderableView { structure, display: None }, Mode::Display),
        can_render(RenderableView { structure, display: None }, Mode::Debug),
        options.width == 0 ==> render_text(
            RenderableView { structure, display: None },
            Mode::Debug,
            options,
        ) == if options.pretty {
            pretty_text(structure, Seq::empty())
        } else {
            debug_text(structure)
        },
{
    let item = RenderableView { structure, display: None };
    let form = form_text(item, Mode::Debug, options.pretty);
    if options.width == 0 {
        assert(padded(form, 0, options.fill, options.align) =~= form);
    }
}

} // verus!
