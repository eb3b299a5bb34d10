//! The structural debug form of a value, on one line or pretty.
//!
//! On one line a record reads `Name { a: 1, b: 2 }`, a tuple `Name(1, 2)` and a
//! list `[1, 2]`; a record or tuple without parts is its name alone. The pretty
//! form puts every part on a line of its own, indented by four spaces for each
//! level of nesting. Both forms put `,` before every part but the first, so the
//! two differ in whitespace only.

use vstd::prelude::*;
use vstd::string::*;
use crate::value::{Value, Field, Tree, Entry, entries_of, trees_of};

verus! {

/// The indentation of one level of nesting.
pub open spec fn indent_unit() -> Seq<char> {
    "    "@
}

/// What stands before part `n` of a composite on one line, counting from 1.
pub open spec fn separator(n: nat) -> Seq<char> {
    if n > 1 {
        ", "@
    } else {
        Seq::empty()
    }
}

/// What stands before part `n` of a composite in the pretty form.
pub open spec fn pretty_separator(n: nat) -> Seq<char> {
    if n > 1 {
        ",\n"@
    } else {
        Seq::empty()
    }
}

/// The debug form of `t` on one line.
pub open spec fn debug_text(t: Tree) -> Seq<char>
    decreases t,
{
    match t {
        Tree::Atom(text) => text,
        Tree::Record(name, fields) => if fields.len() == 0 {
            name
        } else {
            name + " { "@ + fields_text(fields, fields.len()) + " }"@
        },
        Tree::Tuple(name, items) => if items.len() == 0 {
            name
        } else {
            name + "("@ + items_text(items, items.len()) + ")"@
        },
        Tree::List(items) => "["@ + items_text(items, items.len()) + "]"@,
    }
}

/// The first `n` fields on one line: `name: value`, with `, ` before every
/// field but the first.
pub open spec fn fields_text(fields: Seq<Entry>, n: nat) -> Seq<char>
    decreases fields, n,
{
    if n == 0 || n > fields.len() {
        Seq::empty()
    } else {
        fields_text(fields, (n - 1) as nat) + separator(n) + fields[n - 1].name + ": "@
            + debug_text(fields[n - 1].tree)
    }
}

/// The first `n` items on one line, with `, ` before every item but the first.
pub open spec fn items_text(items: Seq<Tree>, n: nat) -> Seq<char>
    decreases items, n,
{
    if n == 0 || n > items.len() {
        Seq::empty()
    } else {
        items_text(items, (n - 1) as nat) + separator(n) + debug_text(items[n - 1])
    }
}

/// The pretty debug form of `t`, where the line that `t` starts on is indented
/// by `pad`.
pub open spec fn pretty_text(t: Tree, pad: Seq<char>) -> Seq<char>
    decreases t,
{
    match t {
        Tree::Atom(text) => text,
        Tree::Record(name, fields) => if fields.len() == 0 {
            name
        } else {
            name + " {\n"@ + pretty_fields_text(fields, fields.len(), pad + indent_unit()) + "\n"@
                + pad + "}"@
        },
        Tree::Tuple(name, items) => if items.len() == 0 {
            name
        } else {
            name + "(\n"@ + pretty_items_text(items, items.len(), pad + indent_unit()) + "\n"@
                + pad + ")"@
        },
        Tree::List(items) => if items.len() == 0 {
            "[]"@
        } else {
            "[\n"@ + pretty_items_text(items, items.len(), pad + indent_unit()) + "\n"@ + pad
                + "]"@
        },
    }
}

/// The first `n` fields in the pretty form, each on a line indented by `pad`.
pub open spec fn pretty_fields_text(fields: Seq<Entry>, n: nat, pad: Seq<char>) -> Seq<char>
    decreases fields, n,
{
    if n == 0 || n > fields.len() {
        Seq::empty()
    } else {
        pretty_fields_text(fields, (n - 1) as nat, pad) + pretty_separator(n) + pad + fields[n
            - 1].name + ": "@ + pretty_text(fields[n - 1].tree, pad)
    }
}

/// The first `n` items in the pretty form, each on a line indented by `pad`.
pub open spec fn pretty_items_text(items: Seq<Tree>, n: nat, pad: Seq<char>) -> Seq<char>
    decreases items, n,
{
    if n == 0 || n > items.len() {
        Seq::empty()
    } else {
        pretty_items_text(items, (n - 1) as nat, pad) + pretty_separator(n) + pad + pretty_text(
            items[n - 1],
            pad,
        )
    }
}

/// Appends the one-line debug form of `v` to `out`.
pub fn write_debug(v: &Value, out: &mut String)
    ensures
        final(out)@ == old(out)@ + debug_text(v@),
    decreases v,
{
    match v {
        Value::Atom(text) => {
            out.append(text.as_str());
        },
        Value::Record { name, fields } => {
            out.append(name.as_str());
            if fields.len() > 0 {
                out.append(" { ");
                write_debug_fields(fields, out);
                out.append(" }");
            }
            assert(out@ =~= old(out)@ + debug_text(v@));
        },
        Value::Tuple { name, items } => {
            out.append(name.as_str());
            if items.len() > 0 {
                out.append("(");
                write_debug_items(items, out);
                out.append(")");
            }
            assert(out@ =~= old(out)@ + debug_text(v@));
        },
        Value::List { items } => {
            out.append("[");
            write_debug_items(items, out);
            out.append("]");
            assert(out@ =~= old(out)@ + debug_text(v@));
        },
    }
}

/// Appends the one-line debug form of `fields` to `out`.
pub fn write_debug_fields(fields: &Vec<Field>, out: &mut String)
    ensures
        final(out)@ == old(out)@ + fields_text(entries_of(fields@), fields@.len()),
    decreases fields,
{
    let ghost entries = entries_of(fields@);
    let mut i: usize = 0;
    while i < fields.len()
        invariant
            i <= fields.len(),
            entries == entries_of(fields@),
            out@ == old(out)@ + fields_text(entries, i as nat),
        decreases fields.len() - i,
    {
        if i > 0 {
            out.append(", ");
        }
        out.append(fields[i].name.as_str());
        out.append(": ");
        write_debug(&fields[i].value, out);
        i = i + 1;
        assert(out@ =~= old(out)@ + fields_text(entries, i as nat));
    }
}

/// Appends the one-line debug form of `items` to `out`.
pub fn write_debug_items(items: &Vec<Value>, out: &mut String)
    ensures
        final(out)@ == old(out)@ + items_text(trees_of(items@), items@.len()),
    decreases items,
{
    let ghost trees = trees_of(items@);
    let mut i: usize = 0;
    while i < items.len()
        invariant
            i <= items.len(),
            trees == trees_of(items@),
            out@ == old(out)@ + items_text(trees, i as nat),
        decreases items.len() - i,
    {
        if i > 0 {
            out.append(", ");
        }
        write_debug(&items[i], out);
        i = i + 1;
        assert(out@ =~= old(out)@ + items_text(trees, i as nat));
    }
}

/// Appends the pretty debug form of `v` to `out`; `pad` is the indentation of
/// the line that `v` starts on.
pub fn write_pretty(v: &Value, pad: &str, out: &mut String)
    ensures
        final(out)@ == old(out)@ + pretty_text(v@, pad@),
    decreases v,
{
    match v {
        Value::Atom(text) => {
            out.append(text.as_str());
        },
        Value::Record { name, fields } => {
            out.append(name.as_str());
            if fields.len() > 0 {
                let mut inner: String = pad.to_owned();
                inner.append("    ");
                out.append(" {\n");
                write_pretty_fields(fields, inner.as_str(), out);
                out.append("\n");
                out.append(pad);
                out.append("}");
            }
            assert(out@ =~= old(out)@ + pretty_text(v@, pad@));
        },
        Value::Tuple { name, items } => {
            out.append(name.as_str());
            if items.len() > 0 {
                let mut inner: String = pad.to_owned();
                inner.append("    ");
                out.append("(\n");
                write_pretty_items(items, inner.as_str(), out);
                out.append("\n");
                out.append(pad);
                out.append(")");
            }
            assert(out@ =~= old(out)@ + pretty_text(v@, pad@));
        },
        Value::List { items } => {
            if items.len() > 0 {
                let mut inner: String = pad.to_owned();
                inner.append("    ");
                out.append("[\n");
                write_pretty_items(items, inner.as_str(), out);
                out.append("\n");
                out.append(pad);
                out.append("]");
            } else {
                out.append("[]");
            }
            assert(out@ =~= old(out)@ + pretty_text(v@, pad@));
        },
    }
}

/// Appends the pretty debug form of `fields` to `out`, each on a line indented
/// by `pad`.
pub fn write_pretty_fields(fields: &Vec<Field>, pad: &str, out: &mut String)
    ensures
        final(out)@ == old(out)@ + pretty_fields_text(entries_of(fields@), fields@.len(), pad@),
    decreases fields,
{
    let ghost entries = entries_of(fields@);
    let mut i: usize = 0;
    while i < fields.len()
        invariant
            i <= fields.len(),
            entries == entries_of(fields@),
            out@ == old(out)@ + pretty_fields_text(entries, i as nat, pad@),
        decreases fields.len() - i,
    {
        if i > 0 {
            out.append(",\n");
        }
        out.append(pad);
        out.append(fields[i].name.as_str());
        out.append(": ");
        write_pretty(&fields[i].value, pad, out);
        i = i + 1;
        assert(out@ =~= old(out)@ + pretty_fields_text(entries, i as nat, pad@));
    }
}

/// Appends the pretty debug form of `items` to `out`, each on a line indented
/// by `pad`.
pub fn write_pretty_items(items: &Vec<Value>, pad: &str, out: &mut String)
    ensures
        final(out)@ == old(out)@ + pretty_items_text(trees_of(items@), items@.len(), pad@),
    decreases items,
{
    let ghost trees = trees_of(items@);
    let mut i: usize = 0;
    while i < items.len()
        invariant
            i <= items.len(),
            trees == trees_of(items@),
            out@ == old(out)@ + pretty_items_text(trees, i as nat, pad@),
        decreases items.len() - i,
    {
        if i > 0 {
            out.append(",\n");
        }
        out.append(pad);
        write_pretty(&items[i], pad, out);
        i = i + 1;
        assert(out@ =~= old(out)@ + pretty_items_text(trees, i as nat, pad@));
    }
}

/// The debug form of `v` on one line.
pub fn debug(v: &Value) -> (r: String)
    ensures
        r@ == debug_text(v@),
{
    let mut r: String = String::new();
    write_debug(v, &mut r);
    assert(r@ =~= debug_text(v@));
    r
}

/// The pretty debug form of `v`, starting at the left margin.
pub fn debug_pretty(v: &Value) -> (r: String)
    ensures
        r@ == pretty_text(v@, Seq::empty()),
{
    let mut r: String = String::new();
    write_pretty(v, "", &mut r);
    proof {
        reveal_strlit("");
        assert(""@ =~= Seq::<char>::empty());
    }
    assert(r@ =~= pretty_text(v@, Seq::empty()));
    r
}

/// Whether `c` is whitespace: a space, a line feed, a tab or a carriage return.
pub open spec fn is_blank(c: char) -> bool {
    c == ' ' || c == '\n' || c == '\t' || c == '\r'
}

/// The test that keeps what is no whitespace.
pub open spec fn not_blank() -> spec_fn(char) -> bool {
    |c: char| !is_blank(c)
}

/// `s` with all whitespace taken out.
pub open spec fn without_blanks(s: Seq<char>) -> Seq<char> {
    s.filter(not_blank())
}

/// Whether `part` stands in `whole` as a run of adjacent characters.
pub open spec fn occurs_in(part: Seq<char>, whole: Seq<char>) -> bool {
    exists|k: int|
        0 <= k && k + part.len() <= whole.len() && #[trigger] whole.subrange(
            k,
            k + part.len(),
        ) == part
}

/// Taking out whitespace goes through concatenation.
pub broadcast proof fn lemma_without_blanks_add(a: Seq<char>, b: Seq<char>)
    ensures
        #[trigger] without_blanks(a + b) == without_blanks(a) + without_blanks(b),
{
    Seq::filter_distributes_over_add(a, b, not_blank());
}

/// Taking out whitespace keeps or drops a single character.
pub proof fn lemma_without_blanks_one(c: char)
    ensures
        without_blanks(seq![c]) == if is_blank(c) {
            Seq::<char>::empty()
        } else {
            seq![c]
        },
{
    reveal_with_fuel(Seq::filter, 2);
    assert(seq![c].drop_last() =~= Seq::<char>::empty());
    assert(without_blanks(seq![c]) =~= if is_blank(c) {
        Seq::<char>::empty()
    } else {
        seq![c]
    });
}

/// What is left of the punctuation of both forms without whitespace.
proof fn lemma_punctuation()
    ensures
        without_blanks(" { "@) == seq!['{'],
        without_blanks(" {\n"@) == seq!['{'],
        without_blanks(" }"@) == seq!['}'],
        without_blanks("}"@) == seq!['}'],
        without_blanks("("@) == seq!['('],
        without_blanks("(\n"@) == seq!['('],
        without_blanks(")"@) == seq![')'],
        without_blanks("["@) == seq!['['],
        without_blanks("[\n"@) == seq!['['],
        without_blanks("]"@) == seq![']'],
        without_blanks("[]"@) == seq!['[', ']'],
        without_blanks(", "@) == seq![','],
        without_blanks(",\n"@) == seq![','],
        without_blanks("\n"@) == Seq::<char>::empty(),
        without_blanks("    "@) == Seq::<char>::empty(),
        without_blanks(Seq::<char>::empty()) == Seq::<char>::empty(),
{
    broadcast use lemma_without_blanks_add;

    reveal_strlit(" { ");
    reveal_strlit(" {\n");
    reveal_strlit(" }");
    reveal_strlit("}");
    reveal_strlit("(");
    reveal_strlit("(\n");
    reveal_strlit(")");
    reveal_strlit("[");
    reveal_strlit("[\n");
    reveal_strlit("]");
    reveal_strlit("[]");
    reveal_strlit(", ");
    reveal_strlit(",\n");
    reveal_strlit("\n");
    reveal_strlit("    ");
    lemma_without_blanks_one(' ');
    lemma_without_blanks_one('\n');
    lemma_without_blanks_one('{');
    lemma_without_blanks_one('}');
    lemma_without_blanks_one('(');
    lemma_without_blanks_one(')');
    lemma_without_blanks_one('[');
    lemma_without_blanks_one(']');
    lemma_without_blanks_one(',');
    let sp = seq![' '];
    let nl = seq!['\n'];
    assert(" { "@ =~= sp + seq!['{'] + sp);
    assert(" {\n"@ =~= sp + seq!['{'] + nl);
    assert(" }"@ =~= sp + seq!['}']);
    assert("}"@ =~= seq!['}']);
    assert("("@ =~= seq!['(']);
    assert("(\n"@ =~= seq!['('] + nl);
    assert(")"@ =~= seq![')']);
    assert("["@ =~= seq!['[']);
    assert("[\n"@ =~= seq!['['] + nl);
    assert("]"@ =~= seq![']']);
    assert("[]"@ =~= seq!['['] + seq![']']);
    assert(", "@ =~= seq![','] + sp);
    assert(",\n"@ =~= seq![','] + nl);
    assert("\n"@ =~= nl);
    assert("    "@ =~= sp + sp + sp + sp);
    assert(seq!['['] + seq![']'] =~= seq!['[', ']']);
    reveal_with_fuel(Seq::filter, 1);
}

/// The pretty form and the one-line form of a tree are the same text but for
/// whitespace, whatever blank indentation the pretty form starts with.
pub proof fn lemma_pretty_adds_whitespace_only(t: Tree, pad: Seq<char>)
    requires
        without_blanks(pad) == Seq::<char>::empty(),
    ensures
        without_blanks(pretty_text(t, pad)) == without_blanks(debug_text(t)),
    decreases t,
{
    broadcast use lemma_without_blanks_add;

    lemma_punctuation();
    let inner = pad + indent_unit();
    match t {
        Tree::Atom(_) => {},
        Tree::Record(name, fields) => {
            if fields.len() > 0 {
                lemma_pretty_fields_add_whitespace_only(fields, fields.len(), inner);
                let body = without_blanks(fields_text(fields, fields.len()));
                assert(without_blanks(pretty_text(t, pad)) =~= without_blanks(name) + seq!['{']
                    + body + seq!['}']);
                assert(without_blanks(debug_text(t)) =~= without_blanks(name) + seq!['{'] + body
                    + seq!['}']);
            }
        },
        Tree::Tuple(name, items) => {
            if items.len() > 0 {
                lemma_pretty_items_add_whitespace_only(items, items.len(), inner);
                let body = without_blanks(items_text(items, items.len()));
                assert(without_blanks(pretty_text(t, pad)) =~= without_blanks(name) + seq!['(']
                    + body + seq![')']);
                assert(without_blanks(debug_text(t)) =~= without_blanks(name) + seq!['('] + body
                    + seq![')']);
            }
        },
        Tree::List(items) => {
            if items.len() > 0 {
                lemma_pretty_items_add_whitespace_only(items, items.len(), inner);
                let body = without_blanks(items_text(items, items.len()));
                assert(without_blanks(pretty_text(t, pad)) =~= seq!['['] + body + seq![']']);
                assert(without_blanks(debug_text(t)) =~= seq!['['] + body + seq![']']);
            } else {
                assert(without_blanks(debug_text(t)) =~= seq!['[', ']']);
            }
        },
    }
}

/// The law of [`lemma_pretty_adds_whitespace_only`] for the first `n` fields of
/// a record.
pub proof fn lemma_pretty_fields_add_whitespace_only(fields: Seq<Entry>, n: nat, pad: Seq<char>)
    requires
        without_blanks(pad) == Seq::<char>::empty(),
    ensures
        without_blanks(pretty_fields_text(fields, n, pad)) == without_blanks(
            fields_text(fields, n),
        ),
    decreases fields, n,
{
    broadcast use lemma_without_blanks_add;

    lemma_punctuation();
    if n == 0 || n > fields.len() {
    } else {
        let before = (n - 1) as nat;
        lemma_pretty_fields_add_whitespace_only(fields, before, pad);
        lemma_pretty_adds_whitespace_only(fields[n - 1].tree, pad);
        let comma = without_blanks(separator(n));
        assert(without_blanks(pretty_separator(n)) == comma);
        let rest = without_blanks(fields_text(fields, before)) + comma + without_blanks(
            fields[n - 1].name,
        ) + without_blanks(": "@) + without_blanks(debug_text(fields[n - 1].tree));
        assert(without_blanks(pretty_fields_text(fields, n, pad)) =~= rest);
        assert(without_blanks(fields_text(fields, n)) =~= rest);
    }
}

/// The law of [`lemma_pretty_adds_whitespace_only`] for the first `n` items of
/// a tuple or a list.
pub proof fn lemma_pretty_items_add_whitespace_only(items: Seq<Tree>, n: nat, pad: Seq<char>)
    requires
        without_blanks(pad) == Seq::<char>::empty(),
    ensures
        without_blanks(pretty_items_text(items, n, pad)) == without_blanks(items_text(items, n)),
    decreases items, n,
{
    broadcast use lemma_without_blanks_add;

    lemma_punctuation();
    if n == 0 || n > items.len() {
    } else {
        let before = (n - 1) as nat;
        lemma_pretty_items_add_whitespace_only(items, before, pad);
        lemma_pretty_adds_whitespace_only(items[n - 1], pad);
        let comma = without_blanks(separator(n));
        assert(without_blanks(pretty_separator(n)) == comma);
        let rest = without_blanks(items_text(items, before)) + comma + without_blanks(
            debug_text(items[n - 1]),
        );
        assert(without_blanks(pretty_items_text(items, n, pad)) =~= rest);
        assert(without_blanks(items_text(items, n)) =~= rest);
    }
}

/// The pretty form of a value, as [`debug_pretty`](crate::debug::debug_pretty)
/// returns it, and its one-line form are equal once all whitespace is taken
/// out of both.
pub proof fn lemma_pretty_matches_debug(t: Tree)
    ensures
        without_blanks(pretty_text(t, Seq::empty())) == without_blanks(debug_text(t)),
{
    lemma_punctuation();
    lemma_pretty_adds_whitespace_only(t, Seq::empty());
}

/// A text stands in every text that is built around it.
pub proof fn lemma_occurs_in_middle(before: Seq<char>, part: Seq<char>, after: Seq<char>)
    ensures
        occurs_in(part, before + part + after),
{
    let whole = before + part + after;
    let k = before.len() as int;
    assert(whole.subrange(k, k + part.len()) =~= part);
}

/// What `occurs_in` a part of a text occurs in the text.
pub proof fn lemma_occurs_in_transitive(a: Seq<char>, b: Seq<char>, c: Seq<char>)
    requires
        occurs_in(a, b),
        occurs_in(b, c),
    ensures
        occurs_in(a, c),
{
    let j = choose|j: int|
        0 <= j && j + a.len() <= b.len() && #[trigger] b.subrange(j, j + a.len()) == a;
    let k = choose|k: int|
        0 <= k && k + b.len() <= c.len() && #[trigger] c.subrange(k, k + b.len()) == b;
    assert(c.subrange(k + j, k + j + a.len()) =~= b.subrange(j, j + a.len()));
}

/// What field `i` of a record reads on one line: its name, `: `, and its value.
pub open spec fn field_text(fields: Seq<Entry>, i: int) -> Seq<char> {
    fields[i].name + ": "@ + debug_text(fields[i].tree)
}

/// The first `n` fields on one line are built around field `i`, for each
/// `i < n`. The result is what stands before and behind it.
pub proof fn lemma_fields_text_around(fields: Seq<Entry>, n: nat, i: int) -> (r: (
    Seq<char>,
    Seq<char>,
))
    requires
        0 <= i < n <= fields.len(),
    ensures
        fields_text(fields, n) == r.0 + field_text(fields, i) + r.1,
    decreases n,
{
    let before = (n - 1) as nat;
    if i == n - 1 {
        let r = (fields_text(fields, before) + separator(n), Seq::<char>::empty());
        assert(fields_text(fields, n) =~= r.0 + field_text(fields, i) + r.1);
        r
    } else {
        let inner = lemma_fields_text_around(fields, before, i);
        let r = (inner.0, inner.1 + separator(n) + field_text(fields, n - 1));
        assert(fields_text(fields, n) =~= r.0 + field_text(fields, i) + r.1);
        r
    }
}

/// The first `n` items on one line are built around item `i`, for each `i < n`.
pub proof fn lemma_items_text_around(items: Seq<Tree>, n: nat, i: int) -> (r: (
    Seq<char>,
    Seq<char>,
))
    requires
        0 <= i < n <= items.len(),
    ensures
        items_text(items, n) == r.0 + debug_text(items[i]) + r.1,
    decreases n,
{
    let before = (n - 1) as nat;
    if i == n - 1 {
        let r = (items_text(items, before) + separator(n), Seq::<char>::empty());
        assert(items_text(items, n) =~= r.0 + debug_text(items[i]) + r.1);
        r
    } else {
        let inner = lemma_items_text_around(items, before, i);
        let r = (inner.0, inner.1 + separator(n) + debug_text(items[n - 1]));
        assert(items_text(items, n) =~= r.0 + debug_text(items[i]) + r.1);
        r
    }
}

/// The debug form of a record shows its name and every field: the name of the
/// field, `: `, and the debug form of its value.
pub proof fn lemma_debug_shows_every_field(name: Seq<char>, fields: Seq<Entry>, i: int)
    requires
        0 <= i < fields.len(),
    ensures
        occurs_in(name, debug_text(Tree::Record(name, fields))),
        occurs_in(field_text(fields, i), debug_text(Tree::Record(name, fields))),
{
    let whole = debug_text(Tree::Record(name, fields));
    let around = lemma_fields_text_around(fields, fields.len(), i);
    let before = name + " { "@ + around.0;
    let after = around.1 + " }"@;
    assert(whole =~= before + field_text(fields, i) + after);
    lemma_occurs_in_middle(before, field_text(fields, i), after);
    assert(whole =~= Seq::<char>::empty() + name + (" { "@ + fields_text(fields, fields.len())
        + " }"@));
    lemma_occurs_in_middle(
        Seq::empty(),
        name,
        " { "@ + fields_text(fields, fields.len()) + " }"@,
    );
}

/// The debug form of a tuple and of a list shows every item.
pub proof fn lemma_debug_shows_every_item(t: Tree, items: Seq<Tree>, i: int)
    requires
        0 <= i < items.len(),
        t == Tree::List(items) || exists|name: Seq<char>| t == Tree::Tuple(name, items),
    ensures
        occurs_in(debug_text(items[i]), debug_text(t)),
{
    let around = lemma_items_text_around(items, items.len(), i);
    match t {
        Tree::Tuple(name, _) => {
            let before = name + "("@ + around.0;
            let after = around.1 + ")"@;
            assert(debug_text(t) =~= before + debug_text(items[i]) + after);
            lemma_occurs_in_middle(before, debug_text(items[i]), after);
        },
        _ => {
            let before = "["@ + around.0;
            let after = around.1 + "]"@;
            assert(debug_text(t) =~= before + debug_text(items[i]) + after);
            lemma_occurs_in_middle(before, debug_text(items[i]), after);
        },
    }
}

} // verus!
