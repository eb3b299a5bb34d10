//! A list of integers with a display form of its own.
//!
//! The list `[1, 2, 3]` displays as `[0: 1, 1: 2, 2: 3]`: an opening bracket,
//! one `index: value` entry for each item in the order of the indices, and a
//! closing bracket. The separator `, ` stands before every entry but the first.

use vstd::prelude::*;
use vstd::string::*;
use vstd::arithmetic::div_mod::lemma_div_decreases;
use crate::text::{Radix, decimal_text, digits, push_decimal, push_radix};
use crate::debug::separator;

verus! {

/// A list of integers.
#[derive(Debug, PartialEq, Eq)]
pub struct List(pub Vec<i32>);

/// The entry of the item `value` at `index`.
pub open spec fn entry_text(index: nat, value: int) -> Seq<char> {
    decimal_text(index as int) + ": "@ + decimal_text(value)
}

/// The first `n` entries of `items`, with the separator before every entry but
/// the first.
pub open spec fn entries_text(items: Seq<i32>, n: nat) -> Seq<char>
    decreases n,
{
    if n == 0 || n > items.len() {
        Seq::empty()
    } else {
        entries_text(items, (n - 1) as nat) + separator(n) + entry_text(
            (n - 1) as nat,
            items[n - 1] as int,
        )
    }
}

/// The display form of a list of `items`.
pub open spec fn list_text(items: Seq<i32>) -> Seq<char> {
    "["@ + entries_text(items, items.len()) + "]"@
}

impl View for List {
    type V = Seq<i32>;

    open spec fn view(&self) -> Seq<i32> {
        self.0@
    }
}

impl List {
    /// The display form of the list.
    pub fn display(&self) -> (r: String)
        ensures
            r@ == list_text(self@),
    {
        let mut r: String = String::new();
        r.append("[");
        let mut i: usize = 0;
        while i < self.0.len()
            invariant
                i <= self.0.len(),
                r@ == "["@ + entries_text(self@, i as nat),
            decreases self.0.len() - i,
        {
            if i != 0 {
                r.append(", ");
            }
            push_radix(&mut r, i as u64, Radix::Decimal, 0);
            r.append(": ");
            push_decimal(&mut r, self.0[i] as i64);
            i = i + 1;
            assert(r@ =~= "["@ + entries_text(self@, i as nat));
        }
        r.append("]");
        r
    }
}

/// Whether `whole` ends with `part`.
pub open spec fn ends_with(whole: Seq<char>, part: Seq<char>) -> bool {
    whole.len() >= part.len() && whole.subrange(whole.len() - part.len(), whole.len() as int)
        == part
}

/// Whether `whole` starts with `part`.
pub open spec fn starts_with(whole: Seq<char>, part: Seq<char>) -> bool {
    whole.len() >= part.len() && whole.subrange(0, part.len() as int) == part
}

/// The number of places in `whole` where `part` ends; a `part` without
/// characters is not counted.
pub open spec fn occurrences(part: Seq<char>, whole: Seq<char>) -> nat
    decreases whole.len(),
{
    if whole.len() == 0 || part.len() == 0 {
        0
    } else {
        occurrences(part, whole.drop_last()) + if ends_with(whole, part) {
            1nat
        } else {
            0nat
        }
    }
}

/// Whether `s` holds neither a comma nor a space.
pub open spec fn solid(s: Seq<char>) -> bool {
    forall|j: int| 0 <= j < s.len() ==> s[j] != ',' && s[j] != ' '
}

/// Whether `s` holds no comma.
pub open spec fn comma_free(s: Seq<char>) -> bool {
    forall|j: int| 0 <= j < s.len() ==> s[j] != ','
}

/// The digits of a number are at least one, and none is a comma or a space.
pub proof fn lemma_digits_solid(n: nat, base: int)
    requires
        2 <= base <= 16,
    ensures
        digits(n, base).len() >= 1,
        solid(digits(n, base)),
    decreases n,
{
    if n < base {
    } else {
        lemma_div_decreases(n as int, base);
        lemma_digits_solid(n / (base as nat), base);
    }
}

/// A number in decimal is at least one character, and none is a comma or a
/// space.
pub proof fn lemma_decimal_solid(n: int)
    ensures
        decimal_text(n).len() >= 1,
        solid(decimal_text(n)),
{
    if n < 0 {
        lemma_digits_solid((-n) as nat, 10);
    } else {
        lemma_digits_solid(n as nat, 10);
    }
}

/// An entry holds no comma, starts with a character that is no comma, and ends
/// with one that is no space.
pub proof fn lemma_entry_shape(index: nat, value: int)
    ensures
        comma_free(entry_text(index, value)),
        entry_text(index, value).len() >= 4,
        entry_text(index, value)[0] != ',',
        entry_text(index, value).last() != ' ',
{
    reveal_strlit(": ");
    lemma_decimal_solid(index as int);
    lemma_decimal_solid(value);
}

/// A text without commas holds no separator.
pub proof fn lemma_no_comma_no_separator(text: Seq<char>)
    requires
        comma_free(text),
    ensures
        occurrences(", "@, text) == 0,
    decreases text.len(),
{
    reveal_strlit(", ");
    if text.len() > 0 {
        lemma_no_comma_no_separator(text.drop_last());
        if ends_with(text, ", "@) {
            let tail = text.subrange(text.len() - 2, text.len() as int);
            assert(tail[0] == ',');
            assert(text[text.len() - 2] == ',');
        }
    }
}

/// A separator and a text without commas behind it add one separator to what
/// stands before them.
pub proof fn lemma_separator_adds_one(before: Seq<char>, entry: Seq<char>)
    requires
        comma_free(entry),
    ensures
        occurrences(", "@, before + ", "@ + entry) == occurrences(", "@, before) + 1,
    decreases entry.len(),
{
    reveal_strlit(", ");
    let sep = ", "@;
    let whole = before + sep + entry;
    if entry.len() == 0 {
        assert(whole =~= before + sep);
        assert(whole.subrange(whole.len() - 2, whole.len() as int) =~= sep);
        let shorter = whole.drop_last();
        assert(shorter =~= before.push(','));
        if ends_with(shorter, sep) {
            let tail = shorter.subrange(shorter.len() - 2, shorter.len() as int);
            assert(tail[1] == ' ');
            assert(shorter[shorter.len() - 1] == ',');
        }
        assert(shorter.drop_last() =~= before);
        assert(occurrences(sep, shorter) == occurrences(sep, before));
        assert(occurrences(sep, whole) == occurrences(sep, shorter) + 1);
    } else {
        assert(whole.drop_last() =~= before + sep + entry.drop_last());
        lemma_separator_adds_one(before, entry.drop_last());
        if ends_with(whole, sep) {
            let tail = whole.subrange(whole.len() - 2, whole.len() as int);
            assert(tail[0] == ',');
            assert(whole[whole.len() - 2] == ',');
            if entry.len() >= 2 {
                assert(whole[whole.len() - 2] == entry[entry.len() - 2]);
            } else {
                assert(whole[whole.len() - 2] == sep[1]);
            }
        }
        assert(occurrences(sep, whole) == occurrences(sep, whole.drop_last()));
    }
}

/// A character that is no space adds no separator behind a text.
pub proof fn lemma_closing_adds_none(text: Seq<char>, c: char)
    requires
        c != ' ',
    ensures
        occurrences(", "@, text.push(c)) == occurrences(", "@, text),
{
    reveal_strlit(", ");
    let whole = text.push(c);
    assert(whole.drop_last() =~= text);
    if ends_with(whole, ", "@) {
        let tail = whole.subrange(whole.len() - 2, whole.len() as int);
        assert(tail[1] == ' ');
    }
}

/// A character that is no comma adds no separator in front of a text.
pub proof fn lemma_opening_adds_none(c: char, text: Seq<char>)
    requires
        c != ',',
    ensures
        occurrences(", "@, seq![c] + text) == occurrences(", "@, text),
    decreases text.len(),
{
    reveal_strlit(", ");
    let sep = ", "@;
    let whole = seq![c] + text;
    if text.len() == 0 {
        assert(whole.drop_last() =~= Seq::<char>::empty());
        assert(occurrences(sep, whole.drop_last()) == 0);
        assert(occurrences(sep, whole) == 0);
    } else {
        assert(whole.drop_last() =~= seq![c] + text.drop_last());
        lemma_opening_adds_none(c, text.drop_last());
        assert(ends_with(whole, sep) == ends_with(text, sep)) by {
            if text.len() >= 2 {
                assert(whole.subrange(whole.len() - 2, whole.len() as int) =~= text.subrange(
                    text.len() - 2,
                    text.len() as int,
                ));
            } else {
                if ends_with(whole, sep) {
                    let tail = whole.subrange(whole.len() - 2, whole.len() as int);
                    assert(tail[0] == ',');
                    assert(whole[0] == c);
                }
            }
        }
        assert(occurrences(sep, whole) == occurrences(sep, whole.drop_last()) + if ends_with(
            whole,
            sep,
        ) {
            1nat
        } else {
            0nat
        });
    }
}

/// The first `n` entries hold one separator fewer than entries, start with no
/// separator and end with none.
pub proof fn lemma_entries_separators(items: Seq<i32>, n: nat)
    requires
        1 <= n <= items.len(),
    ensures
        occurrences(", "@, entries_text(items, n)) == n - 1,
        !starts_with(entries_text(items, n), ", "@),
        !ends_with(entries_text(items, n), ", "@),
    decreases n,
{
    reveal_strlit(", ");
    let sep = ", "@;
    let entry = entry_text((n - 1) as nat, items[n - 1] as int);
    let whole = entries_text(items, n);
    lemma_entry_shape((n - 1) as nat, items[n - 1] as int);
    if n == 1 {
        assert(entries_text(items, 0) =~= Seq::<char>::empty());
        assert(whole =~= entry);
        lemma_no_comma_no_separator(entry);
    } else {
        let before = entries_text(items, (n - 1) as nat);
        lemma_entries_separators(items, (n - 1) as nat);
        assert(whole =~= before + sep + entry);
        lemma_separator_adds_one(before, entry);
        lemma_entry_shape(0, items[0] as int);
        lemma_entries_start(items, (n - 1) as nat);
        assert(whole[0] == before[0]);
    }
    if starts_with(whole, sep) {
        assert(whole.subrange(0, 2)[0] == ',');
        lemma_entries_start(items, n);
    }
    if ends_with(whole, sep) {
        let tail = whole.subrange(whole.len() - 2, whole.len() as int);
        assert(tail[1] == ' ');
        assert(whole.last() == entry.last());
    }
}

/// The first entries start with the first character of the first entry.
pub proof fn lemma_entries_start(items: Seq<i32>, n: nat)
    requires
        1 <= n <= items.len(),
    ensures
        entries_text(items, n).len() >= 1,
        entries_text(items, n)[0] == entry_text(0, items[0] as int)[0],
    decreases n,
{
    lemma_entry_shape(0, items[0] as int);
    if n == 1 {
        assert(entries_text(items, 0) =~= Seq::<char>::empty());
        assert(entries_text(items, n) =~= entry_text(0, items[0] as int));
    } else {
        lemma_entries_start(items, (n - 1) as nat);
    }
}

/// The display form of a list of `n` items holds the separator `n - 1` times,
/// and none for an empty list; no separator stands right behind the opening
/// bracket or right before the closing one.
pub proof fn lemma_list_separators(items: Seq<i32>)
    ensures
        occurrences(", "@, list_text(items)) == if items.len() == 0 {
            0
        } else {
            items.len() - 1
        },
        !starts_with(entries_text(items, items.len()), ", "@),
        !ends_with(entries_text(items, items.len()), ", "@),
{
    reveal_strlit(", ");
    reveal_strlit("[");
    reveal_strlit("]");
    let body = entries_text(items, items.len());
    assert(list_text(items) =~= (seq!['['] + body).push(']'));
    lemma_closing_adds_none(seq!['['] + body, ']');
    lemma_opening_adds_none('[', body);
    if items.len() == 0 {
        lemma_no_comma_no_separator(body);
        assert(!starts_with(body, ", "@));
        assert(!ends_with(body, ", "@));
    } else {
        lemma_entries_separators(items, items.len());
    }
}

} // verus!
