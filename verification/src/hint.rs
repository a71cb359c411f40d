//! Hints: typed annotations of a notification, written as `type:key:value`.
//!
//! The text is split at its last two colons. With two colons the first
//! part names the type, which is `bool`, `int`, `double` or `string`; the
//! value has to read as that type, or the hint is untyped. With one colon
//! the hint is an untyped key and value, with none a key alone.

use crate::number::{int_of_text, is_float, is_float_text, parse_int};
use crate::template::{render_template, rendered, FieldMap};
use crate::text::{
    chars_of, last_index_of, lemma_last_index_of, lemma_last_index_of_joined, same_text,
    signed_decimal, signed_decimal_string, string_of_range,
};
use vstd::prelude::*;
use vstd::string::StringExecFns;

verus! {

/// The type of a hint's value.
#[derive(Clone, Copy, Debug, PartialEq, Eq, Structural)]
pub enum HintKind {
    /// `true` or `false`.
    Bool,
    /// A 32-bit signed integer, in decimal notation.
    Int,
    /// A floating-point number.
    Double,
    /// Any text.
    Text,
    /// No type was given, or the value does not read as the type given.
    Untyped,
}

/// The parts of a hint's text, as spec values.
pub struct HintParts {
    pub hint_type: Option<Seq<char>>,
    pub key: Seq<char>,
    pub value: Seq<char>,
}

/// The parts of a hint's text.
#[derive(Debug)]
pub struct HintComponents {
    pub hint_type: Option<String>,
    pub key: String,
    pub value: String,
}

impl View for HintComponents {
    type V = HintParts;

    open spec fn view(&self) -> HintParts {
        HintParts {
            hint_type: match self.hint_type {
                Some(t) => Some(t@),
                None => None,
            },
            key: self.key@,
            value: self.value@,
        }
    }
}

/// A decoded hint, as spec values.
pub struct HintView {
    pub key: Seq<char>,
    pub value: Seq<char>,
    pub kind: HintKind,
}

/// A decoded hint: a key, a value and the value's type.
#[derive(Debug)]
pub struct Hint {
    pub key: String,
    pub value: String,
    pub kind: HintKind,
}

impl PartialEq for Hint {
    fn eq(&self, other: &Self) -> (same: bool) {
        same_text(self.key.as_str(), other.key.as_str())
            && same_text(self.value.as_str(), other.value.as_str())
            && self.kind == other.kind
    }
}

impl Eq for Hint {

}

impl vstd::std_specs::cmp::PartialEqSpecImpl for Hint {
    open spec fn obeys_eq_spec() -> bool {
        true
    }

    open spec fn eq_spec(&self, other: &Self) -> bool {
        self@ == other@
    }
}

impl View for Hint {
    type V = HintView;

    open spec fn view(&self) -> HintView {
        HintView { key: self.key@, value: self.value@, kind: self.kind }
    }
}

/// The parts of the hint text `s`: split at the last colon into what
/// stands before it and the value, and the former at its own last colon
/// into the type and the key.
pub open spec fn split_hint(s: Seq<char>) -> HintParts {
    let last = last_index_of(s, ':');
    if last < 0 {
        HintParts { hint_type: None, key: s, value: Seq::empty() }
    } else {
        let head = s.take(last);
        let value = s.skip(last + 1);
        let first = last_index_of(head, ':');
        if first < 0 {
            HintParts { hint_type: None, key: head, value }
        } else {
            HintParts { hint_type: Some(head.take(first)), key: head.skip(first + 1), value }
        }
    }
}

/// Whether `value` reads as a boolean.
pub open spec fn is_bool_text(value: Seq<char>) -> bool {
    value == "true"@ || value == "false"@
}

/// The type of a hint whose text names the type `name` and holds `value`:
/// the type named, if it is known and `value` reads as it.
pub open spec fn kind_of(name: Seq<char>, value: Seq<char>) -> HintKind {
    if name == "bool"@ && is_bool_text(value) {
        HintKind::Bool
    } else if name == "int"@ && int_of_text(value) is Some {
        HintKind::Int
    } else if name == "double"@ && is_float_text(value) {
        HintKind::Double
    } else if name == "string"@ {
        HintKind::Text
    } else {
        HintKind::Untyped
    }
}

/// The hint that the parts stand for. A type that is not known, or a value
/// that does not read as its type, leaves the key and the value as an
/// untyped hint.
pub open spec fn typed(parts: HintParts) -> HintView {
    let kind = match parts.hint_type {
        Some(name) => kind_of(name, parts.value),
        None => HintKind::Untyped,
    };
    HintView { key: parts.key, value: parts.value, kind }
}

/// The hint that the text `s` decodes to.
pub open spec fn decoded(s: Seq<char>) -> HintView {
    typed(split_hint(s))
}

/// The value of a hint in its shortest notation: an integer without a
/// plus sign or leading zeros; any other value as it is.
pub open spec fn normal_value(hint: HintView) -> Seq<char> {
    if hint.kind == HintKind::Int && int_of_text(hint.value) is Some {
        signed_decimal(int_of_text(hint.value)->0)
    } else {
        hint.value
    }
}

/// The name of a hint type in a hint's text; an untyped hint has none.
pub open spec fn kind_name(kind: HintKind) -> Seq<char> {
    match kind {
        HintKind::Bool => "bool"@,
        HintKind::Int => "int"@,
        HintKind::Double => "double"@,
        HintKind::Text => "string"@,
        HintKind::Untyped => Seq::empty(),
    }
}

/// The text that a hint is written as: `type:key:value`, or `key:value`
/// for an untyped hint.
pub open spec fn encoded(hint: HintView) -> Seq<char> {
    let pair = hint.key + seq![':'] + hint.value;
    if hint.kind == HintKind::Untyped {
        pair
    } else {
        kind_name(hint.kind) + seq![':'] + pair
    }
}

/// Whether a hint can be written and read back: neither its key nor its
/// value holds a colon, and the value reads as the hint's type.
pub open spec fn representable(hint: HintView) -> bool {
    &&& !hint.key.contains(':')
    &&& !hint.value.contains(':')
    &&& match hint.kind {
        HintKind::Bool => is_bool_text(hint.value),
        HintKind::Int => int_of_text(hint.value) is Some,
        HintKind::Double => is_float_text(hint.value),
        HintKind::Text => true,
        HintKind::Untyped => true,
    }
}

/// The index of the last `c` in `s[..end]`.
fn find_last(s: &Vec<char>, end: usize, c: char) -> (at: Option<usize>)
    requires
        end <= s.len(),
    ensures
        at is Some <==> last_index_of(s@.take(end as int), c) >= 0,
        at matches Some(i) ==> i == last_index_of(s@.take(end as int), c) && i < end,
{
    let mut i: usize = end;
    while i > 0
        invariant
            i <= end <= s.len(),
            last_index_of(s@.take(end as int), c) == last_index_of(s@.take(i as int), c),
        decreases i,
    {
        assert(s@.take(i as int).last() == s@[i - 1]);
        assert(s@.take(i as int).drop_last() == s@.take(i - 1));
        if s[i - 1] == c {
            return Some(i - 1);
        }
        i -= 1;
    }
    None
}

/// A hint as a rule writes it: text of the form `type:key:value`, which may
/// hold placeholders.
#[derive(Debug, Hash)]
pub struct MyHint(String);

impl Clone for MyHint {
    fn clone(&self) -> (copy: Self)
        ensures
            copy@ == self@,
    {
        MyHint(self.0.clone())
    }
}

impl PartialEq for MyHint {
    fn eq(&self, other: &Self) -> (same: bool) {
        same_text(self.0.as_str(), other.0.as_str())
    }
}

impl Eq for MyHint {

}

impl vstd::std_specs::cmp::PartialEqSpecImpl for MyHint {
    open spec fn obeys_eq_spec() -> bool {
        true
    }

    open spec fn eq_spec(&self, other: &Self) -> bool {
        self@ == other@
    }
}

impl View for MyHint {
    type V = Seq<char>;

    closed spec fn view(&self) -> Seq<char> {
        self.0@
    }
}

impl MyHint {
    /// The hint with the text `hint`.
    pub fn new(hint: String) -> (made: Self)
        ensures
            made@ == hint@,
    {
        MyHint(hint)
    }

    /// The hint's text.
    pub fn as_str(&self) -> (text: &str)
        ensures
            text@ == self@,
    {
        self.0.as_str()
    }

    /// The hint with its placeholders replaced by the values of `fields`.
    pub fn render(&self, fields: &FieldMap) -> (made: Self)
        ensures
            made@ == rendered(self@, fields@),
    {
        MyHint(render_template(self.0.as_str(), fields))
    }

    /// The parts of the hint's text.
    pub fn parse_components(&self) -> (parts: HintComponents)
        ensures
            parts@ == split_hint(self@),
    {
        let s = chars_of(self.0.as_str());
        let n = s.len();
        assert(s@.take(n as int) == s@);
        match find_last(&s, n, ':') {
            None => HintComponents {
                hint_type: None,
                key: string_of_range(&s, 0, n),
                value: String::new(),
            },
            Some(last) => {
                let value = string_of_range(&s, last + 1, n);
                assert(s@.take(last as int).subrange(0, last as int) == s@.take(last as int));
                match find_last(&s, last, ':') {
                    None => HintComponents {
                        hint_type: None,
                        key: string_of_range(&s, 0, last),
                        value,
                    },
                    Some(first) => {
                        assert(s@.take(last as int).take(first as int) == s@.subrange(
                            0,
                            first as int,
                        ));
                        assert(s@.take(last as int).skip(first + 1) == s@.subrange(
                            first + 1,
                            last as int,
                        ));
                        HintComponents {
                            hint_type: Some(string_of_range(&s, 0, first)),
                            key: string_of_range(&s, first + 1, last),
                            value,
                        }
                    },
                }
            },
        }
    }

    /// Decodes the hint's text.
    pub fn decode(&self) -> (hint: Hint)
        ensures
            hint@ == decoded(self@),
    {
        self.parse_components().into_hint()
    }
}

/// The type of a hint whose text names the type `name` and holds `value`.
fn find_kind(name: &str, value: &str) -> (kind: HintKind)
    ensures
        kind == kind_of(name@, value@),
{
    proof {
        reveal_strlit("bool");
        reveal_strlit("int");
        reveal_strlit("double");
        reveal_strlit("string");
        assert("bool"@.len() == 4 && "int"@.len() == 3);
        assert("double"@[0] == 'd' && "string"@[0] == 's');
    }
    if same_text(name, "bool") {
        if same_text(value, "true") || same_text(value, "false") {
            HintKind::Bool
        } else {
            HintKind::Untyped
        }
    } else if same_text(name, "int") {
        if parse_int(&chars_of(value)).is_some() {
            HintKind::Int
        } else {
            HintKind::Untyped
        }
    } else if same_text(name, "double") {
        if is_float(&chars_of(value)) {
            HintKind::Double
        } else {
            HintKind::Untyped
        }
    } else if same_text(name, "string") {
        HintKind::Text
    } else {
        HintKind::Untyped
    }
}

impl HintComponents {
    /// The hint that the parts stand for.
    pub fn into_hint(self) -> (hint: Hint)
        ensures
            hint@ == typed(self@),
    {
        let kind = match &self.hint_type {
            Some(name) => find_kind(name.as_str(), self.value.as_str()),
            None => HintKind::Untyped,
        };
        Hint { key: self.key, value: self.value, kind }
    }
}

impl Hint {
    /// The hint's value in its shortest notation.
    pub fn normalized(&self) -> (value: String)
        ensures
            value@ == normal_value(self@),
    {
        match self.kind {
            HintKind::Int => match parse_int(&chars_of(self.value.as_str())) {
                Some(number) => signed_decimal_string(number as i64),
                None => self.value.clone(),
            },
            _ => self.value.clone(),
        }
    }

    /// Writes the hint as text that decodes to it.
    pub fn encode(&self) -> (text: String)
        ensures
            text@ == encoded(self@),
    {
        let mut text = String::new();
        match self.kind {
            HintKind::Bool => {
                text.append("bool");
                text.push(':');
            },
            HintKind::Int => {
                text.append("int");
                text.push(':');
            },
            HintKind::Double => {
                text.append("double");
                text.push(':');
            },
            HintKind::Text => {
                text.append("string");
                text.push(':');
            },
            HintKind::Untyped => {},
        }
        let ghost prefix = text@;
        text.append(self.key.as_str());
        text.push(':');
        text.append(self.value.as_str());
        assert(text@ == prefix + (self.key@ + seq![':'] + self.value@));
        assert(Seq::<char>::empty() + (self.key@ + seq![':'] + self.value@) == self.key@
            + seq![':'] + self.value@);
        text
    }
}

/// Writing a representable hint and decoding the text gives the hint back.
pub proof fn lemma_decode_encode(hint: HintView)
    requires
        representable(hint),
    ensures
        decoded(encoded(hint)) == hint,
{
    reveal_strlit("bool");
    reveal_strlit("int");
    reveal_strlit("double");
    reveal_strlit("string");
    assert("bool"@.len() == 4 && "int"@.len() == 3);
    assert("double"@[0] == 'd' && "string"@[0] == 's');
    if hint.kind == HintKind::Untyped {
        lemma_last_index_of_joined(hint.key, hint.value, ':');
        lemma_last_index_of(hint.key, ':');
    } else {
        let name = kind_name(hint.kind);
        let head = name + seq![':'] + hint.key;
        assert(encoded(hint) == head + seq![':'] + hint.value);
        lemma_last_index_of_joined(head, hint.value, ':');
        lemma_last_index_of_joined(name, hint.key, ':');
    }
}

/// What decoding gives is representable, whatever the text.
pub proof fn lemma_decoded_is_representable(s: Seq<char>)
    ensures
        representable(decoded(s)),
{
    let last = last_index_of(s, ':');
    lemma_last_index_of(s, ':');
    if last >= 0 {
        let head = s.take(last);
        let value = s.skip(last + 1);
        lemma_last_index_of(head, ':');
        let first = last_index_of(head, ':');
        if value.contains(':') {
            let k = choose|k: int| 0 <= k < value.len() && value[k] == ':';
            assert(s[last + 1 + k] == ':');
        }
        if first >= 0 {
            let key = head.skip(first + 1);
            if key.contains(':') {
                let k = choose|k: int| 0 <= k < key.len() && key[k] == ':';
                assert(head[first + 1 + k] == ':');
            }
        }
    }
}

} // verus!
