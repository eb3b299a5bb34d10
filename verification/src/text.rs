//! Building blocks of rendered text: digits in a radix, signed decimals,
//! runs of a fill character, and padding to a minimum width.
//!
//! Text is modelled as `Seq<char>`, the view of `String` and `str`. Widths are
//! counted in characters.

use vstd::prelude::*;
use vstd::string::*;
use vstd::arithmetic::div_mod::lemma_div_decreases;

verus! {

/// `String::push` of the standard library: the string afterwards is the string
/// before with `c` appended as its last character. Taken from the method's
/// documentation; Verus does not check it.
pub assume_specification[ String::push ](s: &mut String, c: char)
    ensures
        final(s)@ == old(s)@.push(c),
;

/// The radix in which an unsigned number is written.
#[derive(Clone, Copy, Debug, PartialEq, Eq, Structural)]
pub enum Radix {
    Binary,
    Octal,
    Decimal,
    Hex,
}

impl Radix {
    /// The base of the radix: 2, 8, 10 or 16.
    pub open spec fn base(self) -> int {
        match self {
            Radix::Binary => 2,
            Radix::Octal => 8,
            Radix::Decimal => 10,
            Radix::Hex => 16,
        }
    }

    /// The base as a machine integer.
    pub fn base_value(self) -> (b: u64)
        ensures
            b == self.base(),
    {
        match self {
            Radix::Binary => 2,
            Radix::Octal => 8,
            Radix::Decimal => 10,
            Radix::Hex => 16,
        }
    }
}

/// Where the text stands in a field that is wider than the text.
#[derive(Clone, Copy, Debug, PartialEq, Eq, Structural)]
pub enum Align {
    Left,
    Right,
    Center,
}

/// The character of the digit `d`: `0` to `9`, then `a` to `f`.
pub open spec fn digit_char(d: int) -> char {
    if d < 10 {
        (48 + d) as char
    } else {
        (87 + d) as char
    }
}

/// The digits of `n` in `base`, most significant first, without leading zeros;
/// zero is the single digit `0`.
pub open spec fn digits(n: nat, base: int) -> Seq<char>
    decreases n,
    via digits_decreases
{
    if base < 2 || n < base {
        seq![digit_char(n as int)]
    } else {
        digits(n / (base as nat), base).push(digit_char(n as int % base))
    }
}

#[via_fn]
proof fn digits_decreases(n: nat, base: int) {
    if !(base < 2 || n < base) {
        lemma_div_decreases(n as int, base);
    }
}

/// `count` copies of `c`.
pub open spec fn repeated(c: char, count: nat) -> Seq<char> {
    Seq::new(count, |i: int| c)
}

/// `digits` with zeros in front up to `min_digits` characters.
pub open spec fn zero_padded(digits: Seq<char>, min_digits: nat) -> Seq<char> {
    if digits.len() < min_digits {
        repeated('0', (min_digits - digits.len()) as nat) + digits
    } else {
        digits
    }
}

/// An unsigned number in `radix` with at least `min_digits` digits.
pub open spec fn radix_text(n: nat, radix: Radix, min_digits: nat) -> Seq<char> {
    zero_padded(digits(n, radix.base()), min_digits)
}

/// A signed number in decimal: a minus sign for a negative one, then the digits
/// of its magnitude.
pub open spec fn decimal_text(n: int) -> Seq<char> {
    if n < 0 {
        seq!['-'] + digits((-n) as nat, 10)
    } else {
        digits(n as nat, 10)
    }
}

/// The number of fill characters in front of a text of `len` characters in a
/// field of `width`.
pub open spec fn fill_before(len: nat, width: nat, align: Align) -> nat {
    if len >= width {
        0
    } else {
        match align {
            Align::Left => 0,
            Align::Right => (width - len) as nat,
            Align::Center => ((width - len) / 2) as nat,
        }
    }
}

/// The number of fill characters behind the text.
pub open spec fn fill_after(len: nat, width: nat, align: Align) -> nat {
    if len >= width {
        0
    } else {
        (width - len - fill_before(len, width, align)) as nat
    }
}

/// `text` in a field of at least `width` characters: the missing ones are
/// `fill`, behind the text for `Left`, in front for `Right`, and on both sides
/// for `Center`, where an odd one goes behind. A text that fills the field is
/// left as it is.
pub open spec fn padded(text: Seq<char>, width: nat, fill: char, align: Align) -> Seq<char> {
    repeated(fill, fill_before(text.len(), width, align)) + text + repeated(
        fill,
        fill_after(text.len(), width, align),
    )
}

/// The character of a digit below sixteen.
pub fn digit(d: u8) -> (c: char)
    requires
        d < 16,
    ensures
        c == digit_char(d as int),
{
    if d < 10 {
        (48 + d) as char
    } else {
        (87 + d) as char
    }
}

/// Appends `count` copies of `c` to `out`.
pub fn push_repeated(out: &mut String, c: char, count: usize)
    ensures
        final(out)@ == old(out)@ + repeated(c, count as nat),
{
    let mut i: usize = 0;
    while i < count
        invariant
            i <= count,
            out@ == old(out)@ + repeated(c, i as nat),
        decreases count - i,
    {
        out.push(c);
        i = i + 1;
        assert(out@ =~= old(out)@ + repeated(c, i as nat));
    }
}

/// Appends the characters of `chars` to `out`.
pub fn push_chars(out: &mut String, chars: &Vec<char>)
    ensures
        final(out)@ == old(out)@ + chars@,
{
    let mut i: usize = 0;
    while i < chars.len()
        invariant
            i <= chars.len(),
            out@ == old(out)@ + chars@.subrange(0, i as int),
        decreases chars.len() - i,
    {
        out.push(chars[i]);
        i = i + 1;
        assert(out@ =~= old(out)@ + chars@.subrange(0, i as int));
    }
    assert(chars@.subrange(0, chars.len() as int) =~= chars@);
}

/// The digits of `n` in `radix`, most significant first.
pub fn digits_of(n: u64, radix: Radix) -> (r: Vec<char>)
    ensures
        r@ == digits(n as nat, radix.base()),
{
    let base: u64 = radix.base_value();
    let mut r: Vec<char> = Vec::new();
    let mut rest: u64 = n / base;
    r.push(digit((n % base) as u8));
    assert(r@ =~= seq![digit_char(n as int % base as int)]);
    while rest > 0
        invariant
            base == radix.base(),
            digits(n as nat, base as int) == if rest > 0 {
                digits(rest as nat, base as int) + r@
            } else {
                r@
            },
        decreases rest,
    {
        let d: char = digit((rest % base) as u8);
        let ghost before = r@;
        r.insert(0, d);
        assert(r@ =~= seq![d] + before);
        let next: u64 = rest / base;
        proof {
            if rest < base {
                assert(digits(rest as nat, base as int) =~= seq![d]);
            } else {
                assert(digits(rest as nat, base as int) + before =~= digits(
                    next as nat,
                    base as int,
                ) + r@);
            }
        }
        rest = next;
    }
    r
}

/// Appends `n` in `radix` to `out`, with zeros in front up to `min_digits`
/// digits.
pub fn push_radix(out: &mut String, n: u64, radix: Radix, min_digits: usize)
    ensures
        final(out)@ == old(out)@ + radix_text(n as nat, radix, min_digits as nat),
{
    let found: Vec<char> = digits_of(n, radix);
    if found.len() < min_digits {
        push_repeated(out, '0', min_digits - found.len());
    }
    push_chars(out, &found);
    assert(out@ =~= old(out)@ + radix_text(n as nat, radix, min_digits as nat));
}

/// `n` in `radix` with at least `min_digits` digits.
pub fn format_radix(n: u64, radix: Radix, min_digits: usize) -> (r: String)
    ensures
        r@ == radix_text(n as nat, radix, min_digits as nat),
{
    let mut r: String = String::new();
    push_radix(&mut r, n, radix, min_digits);
    assert(r@ =~= radix_text(n as nat, radix, min_digits as nat));
    r
}

/// Appends `n` in decimal to `out`.
pub fn push_decimal(out: &mut String, n: i64)
    ensures
        final(out)@ == old(out)@ + decimal_text(n as int),
{
    if n < 0 {
        out.push('-');
        let magnitude: u64 = (-(n + 1)) as u64 + 1;
        push_radix(out, magnitude, Radix::Decimal, 0);
        assert(out@ =~= old(out)@ + decimal_text(n as int));
    } else {
        push_radix(out, n as u64, Radix::Decimal, 0);
    }
}

/// `n` in decimal.
pub fn format_decimal(n: i64) -> (r: String)
    ensures
        r@ == decimal_text(n as int),
{
    let mut r: String = String::new();
    push_decimal(&mut r, n);
    assert(r@ =~= decimal_text(n as int));
    r
}

/// `text` in a field of at least `width` characters.
pub fn pad(text: &str, width: usize, fill: char, align: Align) -> (r: String)
    ensures
        r@ == padded(text@, width as nat, fill, align),
{
    let len: usize = text.unicode_len();
    let mut r: String = String::new();
    if len >= width {
        r.append(text);
        assert(r@ =~= padded(text@, width as nat, fill, align));
    } else {
        let missing: usize = width - len;
        let before: usize = match align {
            Align::Left => 0,
            Align::Right => missing,
            Align::Center => missing / 2,
        };
        push_repeated(&mut r, fill, before);
        r.append(text);
        push_repeated(&mut r, fill, missing - before);
        assert(r@ =~= padded(text@, width as nat, fill, align));
    }
    r
}

/// A padded text has the width asked for, or its own where that is greater.
pub proof fn lemma_padded_len(text: Seq<char>, width: nat, fill: char, align: Align)
    ensures
        padded(text, width, fill, align).len() == if text.len() >= width {
            text.len()
        } else {
            width
        },
{
}

} // verus!
