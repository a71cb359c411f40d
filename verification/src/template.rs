//! Message templates: text in which `{name}` stands for the value of the
//! field `name`.
//!
//! A placeholder is an opening brace, one or more ASCII letters, digits or
//! underscores, and a closing brace. A placeholder whose name is a known
//! field is replaced by the field's value; every other character of the
//! template, unknown placeholders included, is copied as it stands. The
//! values that were put in are not looked through again.

use crate::text::{chars_of, push_range, string_of_range};
use vstd::hash_map::StringHashMap;
use vstd::prelude::*;
use vstd::string::StringExecFns;

verus! {

/// The fields of one observation: names and the text that stands for each.
pub struct FieldMap {
    entries: StringHashMap<String>,
}

impl View for FieldMap {
    type V = Map<Seq<char>, Seq<char>>;

    closed spec fn view(&self) -> Map<Seq<char>, Seq<char>> {
        self.entries@.map_values(|value: String| value@)
    }
}

impl FieldMap {
    /// A map without fields.
    pub fn new() -> (fields: Self)
        ensures
            fields@ == Map::<Seq<char>, Seq<char>>::empty(),
    {
        let fields = FieldMap { entries: StringHashMap::new() };
        assert(fields@ =~= Map::<Seq<char>, Seq<char>>::empty());
        fields
    }

    /// Sets the field `name` to `value`, in place of an earlier value.
    pub fn insert(&mut self, name: &str, value: String)
        ensures
            final(self)@ == old(self)@.insert(name@, value@),
    {
        self.entries.insert(name.to_owned(), value);
        assert(self@ =~= old(self)@.insert(name@, value@));
    }

    /// The value of the field `name`, if there is one.
    pub fn get(&self, name: &str) -> (value: Option<&String>)
        ensures
            value is Some <==> self@.contains_key(name@),
            value matches Some(text) ==> text@ == self@[name@],
    {
        self.entries.get(name)
    }

    /// Whether the field `name` has a value.
    pub fn contains(&self, name: &str) -> (found: bool)
        ensures
            found == self@.contains_key(name@),
    {
        self.entries.contains_key(name)
    }
}

/// Whether `c` may stand in a placeholder's name.
pub open spec fn is_ident_char(c: char) -> bool {
    ||| 'a' <= c <= 'z'
    ||| 'A' <= c <= 'Z'
    ||| '0' <= c <= '9'
    ||| c == '_'
}

/// The end of the run of name characters that starts at `i`: the first
/// index from `i` on that holds no name character, or the length.
pub open spec fn name_end(t: Seq<char>, i: int) -> int
    decreases t.len() - i,
{
    if 0 <= i < t.len() && is_ident_char(t[i]) {
        name_end(t, i + 1)
    } else {
        i
    }
}

/// Whether a placeholder starts at index `i` of `t`.
pub open spec fn placeholder_at(t: Seq<char>, i: int) -> bool {
    &&& 0 <= i < t.len()
    &&& t[i] == '{'
    &&& i + 1 < name_end(t, i + 1) < t.len()
    &&& t[name_end(t, i + 1)] == '}'
}

/// The name of the placeholder that starts at `i`.
pub open spec fn placeholder_name(t: Seq<char>, i: int) -> Seq<char> {
    t.subrange(i + 1, name_end(t, i + 1))
}

/// The index just behind the placeholder that starts at `i`.
pub open spec fn placeholder_end(t: Seq<char>, i: int) -> int {
    name_end(t, i + 1) + 1
}

/// What stands in the output for the placeholder at `i`: the field's value,
/// or the placeholder itself where the field is unknown.
pub open spec fn replacement(t: Seq<char>, fields: Map<Seq<char>, Seq<char>>, i: int) -> Seq<
    char,
> {
    if fields.contains_key(placeholder_name(t, i)) {
        fields[placeholder_name(t, i)]
    } else {
        t.subrange(i, placeholder_end(t, i))
    }
}

/// The rendering of `t[i..]`.
pub open spec fn rendered_from(t: Seq<char>, fields: Map<Seq<char>, Seq<char>>, i: int) -> Seq<
    char,
>
    decreases t.len() - i,
{
    if i < 0 || i >= t.len() {
        Seq::empty()
    } else if placeholder_at(t, i) {
        replacement(t, fields, i) + rendered_from(t, fields, placeholder_end(t, i))
    } else {
        seq![t[i]] + rendered_from(t, fields, i + 1)
    }
}

/// The rendering of the template `t` with the fields `fields`.
pub open spec fn rendered(t: Seq<char>, fields: Map<Seq<char>, Seq<char>>) -> Seq<char> {
    rendered_from(t, fields, 0)
}

/// The rendering of an optional template.
pub open spec fn rendered_option(t: Option<Seq<char>>, fields: Map<Seq<char>, Seq<char>>) -> Option<
    Seq<char>,
> {
    match t {
        Some(text) => Some(rendered(text, fields)),
        None => None,
    }
}

/// `name_end` stops at or after `i`, within the text, behind name characters only.
pub proof fn lemma_name_end(t: Seq<char>, i: int)
    requires
        0 <= i <= t.len(),
    ensures
        i <= name_end(t, i) <= t.len(),
        forall|k: int| i <= k < name_end(t, i) ==> is_ident_char(#[trigger] t[k]),
        name_end(t, i) < t.len() ==> !is_ident_char(t[name_end(t, i)]),
    decreases t.len() - i,
{
    if i < t.len() && is_ident_char(t[i]) {
        lemma_name_end(t, i + 1);
    }
}

fn ident_char(c: char) -> (r: bool)
    ensures
        r == is_ident_char(c),
{
    (c >= 'a' && c <= 'z') || (c >= 'A' && c <= 'Z') || (c >= '0' && c <= '9') || c == '_'
}

/// The end of the run of name characters that starts at `i`.
fn scan_name(t: &Vec<char>, i: usize) -> (end: usize)
    requires
        i <= t.len(),
    ensures
        end == name_end(t@, i as int),
        i <= end <= t.len(),
{
    let mut j: usize = i;
    while j < t.len() && ident_char(t[j])
        invariant
            i <= j <= t.len(),
            name_end(t@, j as int) == name_end(t@, i as int),
        decreases t.len() - j,
    {
        j += 1;
    }
    j
}

/// Renders `template` with `fields`.
pub fn render_template(template: &str, fields: &FieldMap) -> (out: String)
    ensures
        out@ == rendered(template@, fields@),
{
    let t = chars_of(template);
    let mut out = String::new();
    let mut i: usize = 0;
    while i < t.len()
        invariant
            i <= t.len(),
            t@ == template@,
            out@ + rendered_from(t@, fields@, i as int) == rendered(t@, fields@),
        decreases t.len() - i,
    {
        let ghost before = out@;
        let mut placeholder = false;
        if t[i] == '{' {
            let end = scan_name(&t, i + 1);
            if end > i + 1 && end < t.len() && t[end] == '}' {
                placeholder = true;
                let name = string_of_range(&t, i + 1, end);
                match fields.get(name.as_str()) {
                    Some(value) => {
                        out.append(value.as_str());
                    },
                    None => {
                        push_range(&mut out, &t, i, end + 1);
                    },
                }
                assert(out@ == before + replacement(t@, fields@, i as int));
                assert(out@ + rendered_from(t@, fields@, end + 1) == before + rendered_from(
                    t@,
                    fields@,
                    i as int,
                ));
                i = end + 1;
            }
        }
        if !placeholder {
            out.push(t[i]);
            assert(out@ + rendered_from(t@, fields@, i + 1) == before + rendered_from(
                t@,
                fields@,
                i as int,
            ));
            i += 1;
        }
    }
    assert(out@ + Seq::<char>::empty() == out@);
    out
}

/// Rendering leaves a template as it is where none of its placeholders
/// names a known field. This holds of every template when there are no
/// fields at all.
pub proof fn lemma_unknown_placeholders_stay(t: Seq<char>, fields: Map<Seq<char>, Seq<char>>)
    requires
        forall|i: int| #[trigger]
            placeholder_at(t, i) ==> !fields.contains_key(placeholder_name(t, i)),
    ensures
        rendered(t, fields) == t,
{
    lemma_unknown_from(t, fields, 0);
    assert(t.subrange(0, t.len() as int) == t);
}

proof fn lemma_unknown_from(t: Seq<char>, fields: Map<Seq<char>, Seq<char>>, i: int)
    requires
        0 <= i <= t.len(),
        forall|k: int| #[trigger]
            placeholder_at(t, k) ==> !fields.contains_key(placeholder_name(t, k)),
    ensures
        rendered_from(t, fields, i) == t.subrange(i, t.len() as int),
    decreases t.len() - i,
{
    if i < t.len() {
        if placeholder_at(t, i) {
            let end = placeholder_end(t, i);
            lemma_unknown_from(t, fields, end);
            assert(t.subrange(i, end) + t.subrange(end, t.len() as int) == t.subrange(
                i,
                t.len() as int,
            ));
        } else {
            lemma_unknown_from(t, fields, i + 1);
            assert(seq![t[i]] + t.subrange(i + 1, t.len() as int) == t.subrange(
                i,
                t.len() as int,
            ));
        }
    }
}

/// With no fields at all, rendering is the identity.
pub proof fn lemma_render_without_fields(t: Seq<char>)
    ensures
        rendered(t, Map::<Seq<char>, Seq<char>>::empty()) == t,
{
    lemma_unknown_placeholders_stay(t, Map::<Seq<char>, Seq<char>>::empty());
}

/// A template that holds no opening brace renders to itself, whatever the fields.
pub proof fn lemma_plain_text_renders_to_itself(t: Seq<char>, fields: Map<Seq<char>, Seq<char>>)
    requires
        !t.contains('{'),
    ensures
        rendered(t, fields) == t,
{
    assert forall|i: int| #[trigger] placeholder_at(t, i) implies !fields.contains_key(
        placeholder_name(t, i),
    ) by {
        assert(t.contains(t[i]));
    }
    lemma_unknown_placeholders_stay(t, fields);
}

/// Where a run of name characters ends depends on the text from its start
/// on alone.
proof fn lemma_name_end_of_suffix(t: Seq<char>, k: int, i: int)
    requires
        0 <= k <= i <= t.len(),
    ensures
        name_end(t.skip(k), i - k) == name_end(t, i) - k,
    decreases t.len() - i,
{
    if i < t.len() {
        assert(t.skip(k)[i - k] == t[i]);
        if is_ident_char(t[i]) {
            lemma_name_end_of_suffix(t, k, i + 1);
        }
    }
}

/// Whether a placeholder starts at an index, and which, depends on the
/// text from that index on alone.
proof fn lemma_placeholder_of_suffix(t: Seq<char>, k: int, i: int)
    requires
        0 <= k <= i < t.len(),
    ensures
        placeholder_at(t.skip(k), i - k) == placeholder_at(t, i),
        placeholder_at(t, i) ==> placeholder_name(t.skip(k), i - k) == placeholder_name(t, i)
            && placeholder_end(t.skip(k), i - k) == placeholder_end(t, i) - k && t.skip(
            k,
        ).subrange(i - k, placeholder_end(t, i) - k) == t.subrange(i, placeholder_end(t, i)),
{
    lemma_name_end_of_suffix(t, k, i + 1);
    lemma_name_end(t, i + 1);
    let end = name_end(t, i + 1);
    assert(t.skip(k)[i - k] == t[i]);
    if end < t.len() {
        assert(t.skip(k)[end - k] == t[end]);
    }
    if placeholder_at(t, i) {
        assert(t.skip(k).subrange(i + 1 - k, end - k) == t.subrange(i + 1, end));
        assert(t.skip(k).subrange(i - k, end + 1 - k) == t.subrange(i, end + 1));
    }
}

/// The rendering from an index on is the rendering of the text from that
/// index on: what stands before it has no part in it.
pub proof fn lemma_render_suffix(t: Seq<char>, fields: Map<Seq<char>, Seq<char>>, i: int)
    requires
        0 <= i <= t.len(),
    ensures
        rendered_from(t, fields, i) == rendered(t.skip(i), fields),
{
    lemma_render_of_suffix(t, fields, i, i);
}

proof fn lemma_render_of_suffix(t: Seq<char>, fields: Map<Seq<char>, Seq<char>>, k: int, i: int)
    requires
        0 <= k <= i <= t.len(),
    ensures
        rendered_from(t.skip(k), fields, i - k) == rendered_from(t, fields, i),
    decreases t.len() - i,
{
    if i < t.len() {
        lemma_placeholder_of_suffix(t, k, i);
        if placeholder_at(t, i) {
            lemma_name_end(t, i + 1);
            lemma_render_of_suffix(t, fields, k, placeholder_end(t, i));
        } else {
            assert(t.skip(k)[i - k] == t[i]);
            lemma_render_of_suffix(t, fields, k, i + 1);
        }
    }
}

/// A character that starts no placeholder is copied, and the rendering
/// goes on behind it.
pub proof fn lemma_render_plain_char(t: Seq<char>, fields: Map<Seq<char>, Seq<char>>)
    requires
        t.len() > 0,
        !placeholder_at(t, 0),
    ensures
        rendered(t, fields) == seq![t[0]] + rendered(t.skip(1), fields),
{
    lemma_render_suffix(t, fields, 1);
}

/// Whether `name` can be the name of a placeholder: one or more letters,
/// digits or underscores.
pub open spec fn is_name(name: Seq<char>) -> bool {
    &&& name.len() > 0
    &&& forall|k: int| 0 <= k < name.len() ==> is_ident_char(#[trigger] name[k])
}

/// The placeholder for the field `name`.
pub open spec fn placeholder(name: Seq<char>) -> Seq<char> {
    seq!['{'] + name + seq!['}']
}

/// A placeholder at the start of a text is replaced by the value of its
/// field if the field is known, and kept as it stands if not; the
/// rendering goes on behind it. The value is not rendered again.
pub proof fn lemma_render_placeholder(
    name: Seq<char>,
    rest: Seq<char>,
    fields: Map<Seq<char>, Seq<char>>,
)
    requires
        is_name(name),
    ensures
        rendered(placeholder(name) + rest, fields) == if fields.contains_key(name) {
            fields[name] + rendered(rest, fields)
        } else {
            placeholder(name) + rendered(rest, fields)
        },
{
    let t = placeholder(name) + rest;
    let end = 1 + name.len() as int;
    lemma_name_end(t, 1);
    assert forall|k: int| 1 <= k < end implies is_ident_char(#[trigger] t[k]) by {
        assert(t[k] == name[k - 1]);
    }
    assert(t[end] == '}');
    lemma_name_end_reaches(t, 1, end);
    assert(placeholder_at(t, 0));
    assert(placeholder_name(t, 0) == name);
    assert(t.subrange(0, end + 1) == placeholder(name));
    lemma_render_suffix(t, fields, end + 1);
    assert(t.skip(end + 1) == rest);
}

/// A run of name characters that starts at `i` and stops before a
/// character of another kind at `end` ends at `end`.
proof fn lemma_name_end_reaches(t: Seq<char>, i: int, end: int)
    requires
        0 <= i <= end < t.len(),
        forall|k: int| i <= k < end ==> is_ident_char(#[trigger] t[k]),
        !is_ident_char(t[end]),
    ensures
        name_end(t, i) == end,
    decreases end - i,
{
    if i < end {
        lemma_name_end_reaches(t, i + 1, end);
    }
}

/// Text that holds no opening brace is copied, and the rendering goes on
/// behind it.
pub proof fn lemma_render_plain_prefix(
    plain: Seq<char>,
    rest: Seq<char>,
    fields: Map<Seq<char>, Seq<char>>,
)
    requires
        !plain.contains('{'),
    ensures
        rendered(plain + rest, fields) == plain + rendered(rest, fields),
    decreases plain.len(),
{
    if plain.len() == 0 {
        assert(plain + rest == rest);
        assert(plain + rendered(rest, fields) == rendered(rest, fields));
    } else {
        let t = plain + rest;
        let tail = plain.skip(1);
        assert(plain.contains(plain[0]));
        assert(t[0] == plain[0]);
        lemma_render_plain_char(t, fields);
        assert(t.skip(1) == tail + rest);
        if tail.contains('{') {
            let k = choose|k: int| 0 <= k < tail.len() && tail[k] == '{';
            assert(plain[k + 1] == '{');
        }
        lemma_render_plain_prefix(tail, rest, fields);
        assert(seq![plain[0]] + (tail + rendered(rest, fields)) == plain + rendered(rest, fields));
    }
}

} // verus!
