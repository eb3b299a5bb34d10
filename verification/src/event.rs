//! A tagged union of web events and its dispatcher.
//!
//! Exactly one alternative of a [`WebEvent`] is active. [`dispatch`] routes an
//! event to the one handler registered for its alternative and hands it the
//! payload of the event. The handlers come as a [`Handlers`] value with one
//! field per alternative, so a dispatcher that lacks a handler cannot be built.

use vstd::prelude::*;
use vstd::string::*;
use crate::text::{decimal_text, push_decimal};

verus! {

/// An event on a web page. Some alternatives carry nothing, some one unnamed
/// value, one carries named fields.
#[derive(Debug)]
pub enum WebEvent {
    PageLoad,
    PageUnLoad,
    KeyPress(char),
    Paste(String),
    Click { x: i64, y: i64 },
}

/// One handler for each alternative of [`WebEvent`].
pub struct Handlers<A, B, C, D, E> {
    pub page_load: A,
    pub page_unload: B,
    pub key_press: C,
    pub paste: D,
    pub click: E,
}

/// The number of alternatives of [`WebEvent`].
pub open spec fn alternatives() -> nat {
    5
}

/// The position of the active alternative of `event`, in the order of
/// declaration.
pub open spec fn alternative(event: WebEvent) -> nat {
    match event {
        WebEvent::PageLoad => 0,
        WebEvent::PageUnLoad => 1,
        WebEvent::KeyPress(_) => 2,
        WebEvent::Paste(_) => 3,
        WebEvent::Click { .. } => 4,
    }
}

/// Whether the handler at position `k` accepts the payload of `event`.
pub open spec fn handler_accepts<R, A, B, C, D, E>(
    handlers: Handlers<A, B, C, D, E>,
    k: nat,
    event: WebEvent,
) -> bool where
    A: FnOnce() -> R,
    B: FnOnce() -> R,
    C: FnOnce(char) -> R,
    D: FnOnce(String) -> R,
    E: FnOnce(i64, i64) -> R,
 {
    match event {
        WebEvent::PageLoad => k == 0 && call_requires(handlers.page_load, ()),
        WebEvent::PageUnLoad => k == 1 && call_requires(handlers.page_unload, ()),
        WebEvent::KeyPress(c) => k == 2 && call_requires(handlers.key_press, (c,)),
        WebEvent::Paste(s) => k == 3 && call_requires(handlers.paste, (s,)),
        WebEvent::Click { x, y } => k == 4 && call_requires(handlers.click, (x, y)),
    }
}

/// Whether `r` is a result of the handler at position `k`, called with the
/// payload of `event`.
pub open spec fn handler_returns<R, A, B, C, D, E>(
    handlers: Handlers<A, B, C, D, E>,
    k: nat,
    event: WebEvent,
    r: R,
) -> bool where
    A: FnOnce() -> R,
    B: FnOnce() -> R,
    C: FnOnce(char) -> R,
    D: FnOnce(String) -> R,
    E: FnOnce(i64, i64) -> R,
 {
    match event {
        WebEvent::PageLoad => k == 0 && call_ensures(handlers.page_load, (), r),
        WebEvent::PageUnLoad => k == 1 && call_ensures(handlers.page_unload, (), r),
        WebEvent::KeyPress(c) => k == 2 && call_ensures(handlers.key_press, (c,), r),
        WebEvent::Paste(s) => k == 3 && call_ensures(handlers.paste, (s,), r),
        WebEvent::Click { x, y } => k == 4 && call_ensures(handlers.click, (x, y), r),
    }
}

/// Calls the handler of the active alternative of `event` with the payload of
/// the event, and no other handler. The result is what that handler returned.
pub fn dispatch<R, A, B, C, D, E>(event: WebEvent, handlers: Handlers<A, B, C, D, E>) -> (r: R) where
    A: FnOnce() -> R,
    B: FnOnce() -> R,
    C: FnOnce(char) -> R,
    D: FnOnce(String) -> R,
    E: FnOnce(i64, i64) -> R,

    requires
        handler_accepts(handlers, alternative(event), event),
    ensures
        handler_returns(handlers, alternative(event), event, r),
{
    match event {
        WebEvent::PageLoad => (handlers.page_load)(),
        WebEvent::PageUnLoad => (handlers.page_unload)(),
        WebEvent::KeyPress(c) => (handlers.key_press)(c),
        WebEvent::Paste(s) => (handlers.paste)(s),
        WebEvent::Click { x, y } => (handlers.click)(x, y),
    }
}

/// Every event has exactly one active alternative, and only the handler at its
/// position can accept the event or account for a result.
pub proof fn lemma_one_handler_per_event<R, A, B, C, D, E>(
    handlers: Handlers<A, B, C, D, E>,
    event: WebEvent,
    k: nat,
    r: R,
) where
    A: FnOnce() -> R,
    B: FnOnce() -> R,
    C: FnOnce(char) -> R,
    D: FnOnce(String) -> R,
    E: FnOnce(i64, i64) -> R,

    ensures
        alternative(event) < alternatives(),
        handler_accepts(handlers, k, event) ==> k == alternative(event),
        handler_returns(handlers, k, event, r) ==> k == alternative(event),
{
}

/// The message for a key press.
pub open spec fn key_press_text(c: char) -> Seq<char> {
    "Pressed '"@.push(c) + "'."@
}

/// The message for a paste.
pub open spec fn paste_text(pasted: Seq<char>) -> Seq<char> {
    "Pasted \""@ + pasted + "\"."@
}

/// The message for a click.
pub open spec fn click_text(x: int, y: int) -> Seq<char> {
    "Clicked at x="@ + decimal_text(x) + ", y="@ + decimal_text(y) + "."@
}

/// The message that describes `event`.
pub open spec fn inspect_text(event: WebEvent) -> Seq<char> {
    match event {
        WebEvent::PageLoad => "Page loaded!"@,
        WebEvent::PageUnLoad => "Page unloaded!"@,
        WebEvent::KeyPress(c) => key_press_text(c),
        WebEvent::Paste(s) => paste_text(s@),
        WebEvent::Click { x, y } => click_text(x as int, y as int),
    }
}

/// The handler of [`inspect`] for a page load.
pub fn page_load_message() -> (m: String)
    ensures
        m@ == "Page loaded!"@,
{
    "Page loaded!".to_owned()
}

/// The handler of [`inspect`] for a page unload.
pub fn page_unload_message() -> (m: String)
    ensures
        m@ == "Page unloaded!"@,
{
    "Page unloaded!".to_owned()
}

/// The handler of [`inspect`] for a key press.
pub fn key_press_message(c: char) -> (m: String)
    ensures
        m@ == key_press_text(c),
{
    let mut m: String = "Pressed '".to_owned();
    m.push(c);
    m.append("'.");
    m
}

/// The handler of [`inspect`] for a paste.
pub fn paste_message(pasted: String) -> (m: String)
    ensures
        m@ == paste_text(pasted@),
{
    let mut m: String = "Pasted \"".to_owned();
    m.append(pasted.as_str());
    m.append("\".");
    m
}

/// The handler of [`inspect`] for a click.
pub fn click_message(x: i64, y: i64) -> (m: String)
    ensures
        m@ == click_text(x as int, y as int),
{
    let mut m: String = "Clicked at x=".to_owned();
    push_decimal(&mut m, x);
    m.append(", y=");
    push_decimal(&mut m, y);
    m.append(".");
    m
}

/// Describes `event` in one line, by dispatching it to one message per
/// alternative.
pub fn inspect(event: WebEvent) -> (msg: String)
    ensures
        msg@ == inspect_text(event),
{
    dispatch(
        event,
        Handlers {
            page_load: page_load_message,
            page_unload: page_unload_message,
            key_press: key_press_message,
            paste: paste_message,
            click: click_message,
        },
    )
}

} // verus!
