//! Template rendering: `$name` tokens are replaced by field values.
//!
//! The substitution is plain text replacement, one field after the other in
//! the order they are given, and ends with `$$` becoming `$`. A value put in
//! by one field is seen by the fields after it, and a field whose name begins
//! with the name of an earlier one never matches where the earlier one did.

use vstd::prelude::*;
use crate::field::{AlertField, FieldValue};
use crate::ids::AlertFieldName;
use crate::text::{chars_of, string_of};

verus! {

/// `to`, then each character of `text` followed by `to`: what replacing the
/// empty pattern gives.
pub open spec fn interleave(text: Seq<char>, to: Seq<char>) -> Seq<char>
    decreases text.len(),
{
    if text.len() == 0 {
        to
    } else {
        to + seq![text[0]] + interleave(text.skip(1), to)
    }
}

/// `text` with every occurrence of `from` replaced by `to`. Occurrences are
/// found from the left and do not overlap: after a match the search goes on
/// behind it, and what was put in is not searched again.
pub open spec fn replace_all(text: Seq<char>, from: Seq<char>, to: Seq<char>) -> Seq<char>
    decreases text.len(),
{
    if from.len() == 0 {
        interleave(text, to)
    } else if text.len() < from.len() {
        text
    } else if text.take(from.len() as int) == from {
        to + replace_all(text.skip(from.len() as int), from, to)
    } else {
        seq![text[0]] + replace_all(text.skip(1), from, to)
    }
}

/// The token that stands for a field in a template: `$` and the field's name.
pub open spec fn token(name: Seq<char>) -> Seq<char> {
    seq!['$'] + name
}

/// `text` after the fields were substituted, first to last.
pub open spec fn substitute(text: Seq<char>, fields: Seq<(Seq<char>, FieldValue)>) -> Seq<char>
    decreases fields.len(),
{
    if fields.len() == 0 {
        text
    } else {
        let (name, value) = fields.last();
        replace_all(substitute(text, fields.drop_last()), token(name), value.text())
    }
}

/// A template rendered with the given fields: every field substituted, then
/// each remaining `$$` turned into `$`.
pub open spec fn render_spec(template: Seq<char>, fields: Seq<(Seq<char>, FieldValue)>) -> Seq<
    char,
> {
    replace_all(substitute(template, fields), seq!['$', '$'], seq!['$'])
}

/// The names and values of `fields`, as `render_spec` takes them.
pub open spec fn pairs_view(fields: Seq<(AlertFieldName, AlertField)>) -> Seq<
    (Seq<char>, FieldValue),
> {
    fields.map_values(|pair: (AlertFieldName, AlertField)| (pair.0@, pair.1@))
}

/// Rendering with no fields only resolves the `$$` escape.
pub proof fn lemma_render_without_fields(text: Seq<char>)
    ensures
        render_spec(text, Seq::empty()) == replace_all(text, seq!['$', '$'], seq!['$']),
{
}

/// Whether `from` stands in `text` at position `at`.
fn matches_at(text: &Vec<char>, at: usize, from: &Vec<char>) -> (found: bool)
    requires
        at + from.len() <= text.len(),
    ensures
        found == (text@.skip(at as int).take(from.len() as int) == from@),
{
    let ghost window = text@.skip(at as int).take(from.len() as int);
    let mut j: usize = 0;
    while j < from.len()
        invariant
            j <= from.len(),
            at + from.len() <= text.len(),
            window == text@.skip(at as int).take(from.len() as int),
            window.take(j as int) == from@.take(j as int),
        decreases from.len() - j,
    {
        if text[at + j] != from[j] {
            return false;
        }
        j = j + 1;
    }
    assert(window.take(from.len() as int) =~= window);
    assert(from@.take(from.len() as int) =~= from@);
    true
}

/// Appends `extra` to `out`.
fn append(out: &mut Vec<char>, extra: &Vec<char>)
    ensures
        final(out)@ == old(out)@ + extra@,
{
    let mut k: usize = 0;
    while k < extra.len()
        invariant
            k <= extra.len(),
            out@ =~= old(out)@ + extra@.take(k as int),
        decreases extra.len() - k,
    {
        out.push(extra[k]);
        k = k + 1;
    }
}

/// `text` with every occurrence of `from` replaced by `to`, as `str::replace`
/// does it.
pub fn replace_chars(text: &Vec<char>, from: &Vec<char>, to: &Vec<char>) -> (out: Vec<char>)
    ensures
        out@ == replace_all(text@, from@, to@),
{
    let mut out: Vec<char> = Vec::new();
    let mut i: usize = 0;
    if from.len() == 0 {
        let ghost mut head = Seq::<char>::empty();
        append(&mut out, to);
        assert(text@.skip(0) =~= text@);
        while i < text.len()
            invariant
                i <= text.len(),
                out@ =~= head + to@,
                interleave(text@, to@) =~= head + interleave(text@.skip(i as int), to@),
            decreases text.len() - i,
        {
            let ghost rest = text@.skip(i as int);
            out.push(text[i]);
            append(&mut out, to);
            proof {
                assert(rest.skip(1) =~= text@.skip(i as int + 1));
                head = head + to@ + seq![text@[i as int]];
            }
            i = i + 1;
        }
        return out;
    }
    assert(text@.skip(0) =~= text@);
    while text.len() - i >= from.len()
        invariant
            i <= text.len(),
            from@.len() > 0,
            replace_all(text@, from@, to@) =~= out@ + replace_all(text@.skip(i as int), from@, to@),
        decreases text.len() - i,
    {
        let ghost rest = text@.skip(i as int);
        if matches_at(text, i, from) {
            append(&mut out, to);
            assert(rest.skip(from.len() as int) =~= text@.skip(i + from.len()));
            i = i + from.len();
        } else {
            out.push(text[i]);
            assert(rest.skip(1) =~= text@.skip(i as int + 1));
            i = i + 1;
        }
    }
    while i < text.len()
        invariant
            i <= text.len(),
            from@.len() > 0,
            text.len() - i < from.len(),
            replace_all(text@, from@, to@) =~= out@ + text@.skip(i as int),
        decreases text.len() - i,
    {
        out.push(text[i]);
        i = i + 1;
    }
    out
}

/// One step of the substitution: the token of `name` replaced by the text of
/// `value`.
pub fn substitute_field(working: &Vec<char>, name: &AlertFieldName, value: &AlertField) -> (out:
    Vec<char>)
    ensures
        out@ == replace_all(working@, token(name@), value@.text()),
{
    let mut pattern: Vec<char> = Vec::new();
    pattern.push('$');
    let name_chars = chars_of(name.as_str());
    append(&mut pattern, &name_chars);
    let shown = value.to_string();
    let replacement = chars_of(shown.as_str());
    replace_chars(working, &pattern, &replacement)
}

/// The last step of rendering: each `$$` becomes `$`.
pub fn resolve_escapes(working: &Vec<char>) -> (out: Vec<char>)
    ensures
        out@ == replace_all(working@, seq!['$', '$'], seq!['$']),
{
    let mut escape: Vec<char> = Vec::new();
    escape.push('$');
    escape.push('$');
    let mut dollar: Vec<char> = Vec::new();
    dollar.push('$');
    assert(escape@ =~= seq!['$', '$']);
    replace_chars(working, &escape, &dollar)
}

/// Renders `template` with `fields`: for each field in order, every `$name`
/// is replaced by the field's value; then every `$$` left becomes `$`.
pub fn render(template: &str, fields: &Vec<(AlertFieldName, AlertField)>) -> (rendered: String)
    ensures
        rendered@ == render_spec(template@, pairs_view(fields@)),
{
    let mut working = chars_of(template);
    let ghost pairs = pairs_view(fields@);
    let mut i: usize = 0;
    while i < fields.len()
        invariant
            i <= fields.len(),
            pairs == pairs_view(fields@),
            working@ == substitute(template@, pairs.take(i as int)),
        decreases fields.len() - i,
    {
        working = substitute_field(&working, &fields[i].0, &fields[i].1);
        assert(pairs.take(i as int + 1).drop_last() =~= pairs.take(i as int));
        i = i + 1;
    }
    assert(pairs.take(fields.len() as int) =~= pairs);
    let resolved = resolve_escapes(&working);
    string_of(&resolved)
}

} // verus!
