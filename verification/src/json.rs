//! JSON documents as plain values, and the two calls into `serde_json` that
//! read and write them.

use vstd::prelude::*;
use vstd::string::*;
use vstd::utf8::*;

use crate::text::same_text;

verus! {

/// A JSON document. A number is kept as the `i64` it denotes, or as `None`
/// where it denotes no `i64` (a fraction, an exponent, a larger magnitude).
#[derive(Debug, PartialEq, Eq)]
pub enum Json {
    Null,
    Bool(bool),
    Number(Option<i64>),
    Text(String),
    Array(Vec<Json>),
    Object(Vec<(String, Json)>),
}

/// The mathematical value of a [`Json`] document.
pub enum JsonView {
    Null,
    Bool(bool),
    Number(Option<i64>),
    Text(Seq<char>),
    Array(Seq<JsonView>),
    Object(Seq<(Seq<char>, JsonView)>),
}

impl Json {
    /// The document that `self` holds.
    pub open spec fn document(&self) -> JsonView
        decreases self,
    {
        match self {
            Json::Null => JsonView::Null,
            Json::Bool(b) => JsonView::Bool(*b),
            Json::Number(n) => JsonView::Number(*n),
            Json::Text(s) => JsonView::Text(s@),
            Json::Array(items) => JsonView::Array(
                Seq::new(
                    items@.len(),
                    |i: int|
                        if 0 <= i < items@.len() {
                            items@[i].document()
                        } else {
                            JsonView::Null
                        },
                ),
            ),
            Json::Object(members) => JsonView::Object(
                Seq::new(
                    members@.len(),
                    |i: int|
                        if 0 <= i < members@.len() {
                            (members@[i].0@, members@[i].1.document())
                        } else {
                            (Seq::empty(), JsonView::Null)
                        },
                ),
            ),
        }
    }
}

impl View for Json {
    type V = JsonView;

    open spec fn view(&self) -> JsonView {
        self.document()
    }
}

impl DeepView for Json {
    type V = JsonView;

    open spec fn deep_view(&self) -> JsonView {
        self@
    }
}

/// What `serde_json` reads from `bytes`: the document, or the message of its
/// error where the bytes are no JSON text.
pub uninterp spec fn json_document(bytes: Seq<u8>) -> Result<JsonView, Seq<char>>;

/// The lower-case hexadecimal digit of `n` (0 to 15), as a byte.
pub open spec fn hex_lower(n: int) -> u8 {
    if 0 <= n < 10 {
        (0x30 + n) as u8
    } else {
        (0x61 + n - 10) as u8
    }
}

/// One byte of a string as it stands in a JSON string literal: `"` and `\`
/// behind a backslash; backspace, tab, line feed, form feed and carriage
/// return as `\b`, `\t`, `\n`, `\f` and `\r`; any other byte below 0x20
/// as `\u00` and its two lower-case hexadecimal digits; every other byte as
/// itself.
pub open spec fn escape_byte(b: u8) -> Seq<u8> {
    if b == 0x22 {
        seq![0x5cu8, 0x22u8]
    } else if b == 0x5c {
        seq![0x5cu8, 0x5cu8]
    } else if b == 0x08 {
        seq![0x5cu8, 0x62u8]
    } else if b == 0x09 {
        seq![0x5cu8, 0x74u8]
    } else if b == 0x0a {
        seq![0x5cu8, 0x6eu8]
    } else if b == 0x0c {
        seq![0x5cu8, 0x66u8]
    } else if b == 0x0d {
        seq![0x5cu8, 0x72u8]
    } else if b < 0x20 {
        seq![0x5cu8, 0x75u8, 0x30u8, 0x30u8, hex_lower(b as int / 16), hex_lower(b as int % 16)]
    } else {
        seq![b]
    }
}

/// The bytes of a string as they stand in a JSON string literal.
pub open spec fn escape_bytes(bytes: Seq<u8>) -> Seq<u8>
    decreases bytes.len(),
{
    if bytes.len() == 0 {
        Seq::empty()
    } else {
        escape_byte(bytes[0]) + escape_bytes(bytes.drop_first())
    }
}

/// The JSON string literal of `text`: its UTF-8 bytes, escaped, between two
/// quotation marks.
pub open spec fn string_literal_of(text: Seq<char>) -> Seq<u8> {
    seq![0x22u8] + escape_bytes(encode_utf8(text)) + seq![0x22u8]
}

/// The number that a lower-case hexadecimal digit writes.
pub open spec fn hex_lower_value(b: u8) -> Option<int> {
    if 0x30 <= b <= 0x39 {
        Some(b as int - 0x30)
    } else if 0x61 <= b <= 0x66 {
        Some(b as int - 0x61 + 10)
    } else {
        None
    }
}

/// The byte that the escape letter after a backslash stands for.
pub open spec fn escape_letter(b: u8) -> Option<u8> {
    if b == 0x22 {
        Some(0x22u8)
    } else if b == 0x5c {
        Some(0x5cu8)
    } else if b == 0x62 {
        Some(0x08u8)
    } else if b == 0x74 {
        Some(0x09u8)
    } else if b == 0x6e {
        Some(0x0au8)
    } else if b == 0x66 {
        Some(0x0cu8)
    } else if b == 0x72 {
        Some(0x0du8)
    } else {
        None
    }
}

/// The bytes that the inside of a JSON string literal stands for, for the
/// escapes that [`escape_byte`] writes: `None` for a bare quotation mark or
/// control byte, and for any other escape.
pub open spec fn unescape_bytes(bytes: Seq<u8>) -> Option<Seq<u8>>
    decreases bytes.len(),
{
    if bytes.len() == 0 {
        Some(Seq::empty())
    } else if bytes[0] == 0x5c {
        if bytes.len() >= 2 && escape_letter(bytes[1]) is Some {
            match unescape_bytes(bytes.skip(2)) {
                Some(rest) => Some(seq![escape_letter(bytes[1])->0] + rest),
                None => None,
            }
        } else if bytes.len() >= 6 && bytes[1] == 0x75 && bytes[2] == 0x30 && bytes[3] == 0x30
            && hex_lower_value(bytes[4]) is Some && hex_lower_value(bytes[5]) is Some {
            match unescape_bytes(bytes.skip(6)) {
                Some(rest) => Some(
                    seq![(hex_lower_value(bytes[4])->0 * 16 + hex_lower_value(bytes[5])->0) as u8]
                        + rest,
                ),
                None => None,
            }
        } else {
            None
        }
    } else if bytes[0] == 0x22 || bytes[0] < 0x20 {
        None
    } else {
        match unescape_bytes(bytes.drop_first()) {
            Some(rest) => Some(seq![bytes[0]] + rest),
            None => None,
        }
    }
}

/// The text that a JSON string literal stands for, where it is one that
/// [`string_literal_of`] writes.
pub open spec fn literal_text(literal: Seq<u8>) -> Option<Seq<char>> {
    if literal.len() >= 2 && literal[0] == 0x22 && literal.last() == 0x22 {
        match unescape_bytes(literal.subrange(1, literal.len() - 1)) {
            Some(bytes) => if valid_utf8(bytes) {
                Some(decode_utf8(bytes))
            } else {
                None
            },
            None => None,
        }
    } else {
        None
    }
}

/// Unescaping undoes escaping, byte for byte.
pub proof fn escape_round_trip(bytes: Seq<u8>)
    ensures
        unescape_bytes(escape_bytes(bytes)) == Some(bytes),
    decreases bytes.len(),
{
    if bytes.len() > 0 {
        let b = bytes[0];
        let rest = bytes.drop_first();
        let head = escape_byte(b);
        let tail = escape_bytes(rest);
        let all = escape_bytes(bytes);
        escape_round_trip(rest);
        assert(all == head + tail);
        assert(seq![b] + rest =~= bytes);
        if b == 0x22 || b == 0x5c || b == 0x08 || b == 0x09 || b == 0x0a || b == 0x0c || b == 0x0d {
            assert(all[0] == 0x5c);
            assert(all[1] == head[1]);
            assert(escape_letter(all[1]) == Some(b));
            assert(all.skip(2) =~= tail);
        } else if b < 0x20 {
            let hi = b as int / 16;
            let lo = b as int % 16;
            assert(all[0] == 0x5c);
            assert(all[1] == 0x75);
            assert(all[2] == 0x30);
            assert(all[3] == 0x30);
            assert(all[4] == hex_lower(hi));
            assert(all[5] == hex_lower(lo));
            assert(escape_letter(all[1]) is None);
            assert(hex_lower_value(hex_lower(hi)) == Some(hi));
            assert(hex_lower_value(hex_lower(lo)) == Some(lo));
            assert((hi * 16 + lo) as u8 == b);
            assert(all.skip(6) =~= tail);
        } else {
            assert(all[0] == b);
            assert(all.drop_first() =~= tail);
        }
    }
}

/// The literal of a text stands for that text.
pub proof fn literal_round_trip(text: Seq<char>)
    ensures
        literal_text(string_literal_of(text)) == Some(text),
{
    let inner = escape_bytes(encode_utf8(text));
    let literal = string_literal_of(text);
    escape_round_trip(encode_utf8(text));
    encode_utf8_valid_utf8(text);
    encode_utf8_decode_utf8(text);
    assert(literal.subrange(1, literal.len() - 1) =~= inner);
}

/// The view of a parsed document or of the parser's message.
pub open spec fn parsed_view(r: Result<Json, String>) -> Result<JsonView, Seq<char>> {
    match r {
        Ok(json) => Ok(json@),
        Err(message) => Err(message@),
    }
}

/// `serde_json::Value`, the reader's own tree, of which nothing is known
/// here but that it can be moved.
#[verifier::external_type_specification]
#[verifier::external_body]
pub struct ExValue(serde_json::Value);

/// Moves a `serde_json::Value` into a [`Json`], variant by variant; a number
/// goes through `serde_json::Number::as_i64`.
#[verifier::external_body]
fn from_value(value: serde_json::Value) -> Json {
    match value {
        serde_json::Value::Null => Json::Null,
        serde_json::Value::Bool(b) => Json::Bool(b),
        serde_json::Value::Number(n) => Json::Number(n.as_i64()),
        serde_json::Value::String(s) => Json::Text(s),
        serde_json::Value::Array(items) => Json::Array(items.into_iter().map(from_value).collect()),
        serde_json::Value::Object(members) => Json::Object(
            members.into_iter().map(|(name, value)| (name, from_value(value))).collect(),
        ),
    }
}

/// Reads `bytes` with `serde_json::from_slice` as a `serde_json::Value`. The
/// outcome is a function of the bytes alone: the document, or the text of
/// `serde_json::Error`.
#[verifier::external_body]
pub(crate) fn parse(bytes: &[u8]) -> (r: Result<Json, String>)
    ensures
        parsed_view(r) == json_document(bytes@),
{
    match serde_json::from_slice::<serde_json::Value>(bytes) {
        Ok(value) => Ok(from_value(value)),
        Err(e) => Err(e.to_string()),
    }
}

/// Writes `text` with `serde_json::to_vec` as a JSON string literal: a
/// quotation mark, the text's UTF-8 bytes with `"`, `\` and the bytes below
/// 0x20 escaped as [`escape_byte`] says, and a quotation mark. Writing a
/// string into a vector does not fail: of the failures that `to_vec` has, a
/// string can cause none.
#[verifier::external_body]
pub(crate) fn string_literal(text: &str) -> (r: Result<Vec<u8>, String>)
    ensures
        r is Ok,
        r->Ok_0@ == string_literal_of(text@),
{
    match serde_json::to_vec(text) {
        Ok(bytes) => Ok(bytes),
        Err(e) => Err(e.to_string()),
    }
}

/// The value of the first member called `name`, if there is one.
pub open spec fn lookup(members: Seq<(Seq<char>, JsonView)>, name: Seq<char>) -> Option<JsonView>
    decreases members.len(),
{
    if members.len() == 0 {
        None
    } else if members[0].0 == name {
        Some(members[0].1)
    } else {
        lookup(members.drop_first(), name)
    }
}

impl JsonView {
    /// The member `name` of an object; `None` for a missing member and for
    /// any document that is no object.
    pub open spec fn member(self, name: Seq<char>) -> Option<JsonView> {
        match self {
            JsonView::Object(members) => lookup(members, name),
            _ => None,
        }
    }

    /// The text of a string.
    pub open spec fn text(self) -> Option<Seq<char>> {
        match self {
            JsonView::Text(s) => Some(s),
            _ => None,
        }
    }

    /// The integer of a number that denotes an `i64`.
    pub open spec fn integer(self) -> Option<i64> {
        match self {
            JsonView::Number(n) => n,
            _ => None,
        }
    }

    /// The texts of an array of strings.
    pub open spec fn text_list(self) -> Option<Seq<Seq<char>>> {
        match self {
            JsonView::Array(items) => if forall|i: int|
                0 <= i < items.len() ==> (#[trigger] items[i]) is Text {
                Some(Seq::new(items.len(), |i: int| items[i]->Text_0))
            } else {
                None
            },
            _ => None,
        }
    }

    /// The string member `name`, which must be there.
    pub open spec fn text_at(self, name: Seq<char>) -> Option<Seq<char>> {
        match self.member(name) {
            Some(v) => v.text(),
            None => None,
        }
    }

    /// The string member `name`, which may be missing or `null`: the outer
    /// `None` stands for a member of another kind.
    pub open spec fn optional_text_at(self, name: Seq<char>) -> Option<Option<Seq<char>>> {
        match self.member(name) {
            None => Some(None),
            Some(JsonView::Null) => Some(None),
            Some(JsonView::Text(s)) => Some(Some(s)),
            Some(_) => None,
        }
    }

    /// The integer member `name`, which must be there.
    pub open spec fn integer_at(self, name: Seq<char>) -> Option<i64> {
        match self.member(name) {
            Some(v) => v.integer(),
            None => None,
        }
    }

    /// The integer member `name`, which must be there and fit an `i32`.
    pub open spec fn i32_at(self, name: Seq<char>) -> Option<i32> {
        match self.integer_at(name) {
            Some(n) => if i32::MIN <= n <= i32::MAX {
                Some(n as i32)
            } else {
                None
            },
            None => None,
        }
    }

    /// The integer member `name`, which must be there and fit a `u16`.
    pub open spec fn u16_at(self, name: Seq<char>) -> Option<u16> {
        match self.integer_at(name) {
            Some(n) => if 0 <= n <= u16::MAX {
                Some(n as u16)
            } else {
                None
            },
            None => None,
        }
    }

    /// The member `name` as a list of strings, which must be there.
    pub open spec fn text_list_at(self, name: Seq<char>) -> Option<Seq<Seq<char>>> {
        match self.member(name) {
            Some(v) => v.text_list(),
            None => None,
        }
    }

    /// The member `name` as a list of strings; a missing member is the empty
    /// list.
    pub open spec fn text_list_or_empty_at(self, name: Seq<char>) -> Option<Seq<Seq<char>>> {
        match self.member(name) {
            Some(v) => v.text_list(),
            None => Some(Seq::empty()),
        }
    }
}

impl Json {
    /// An array's view holds the views of its items, in order.
    pub proof fn view_of_array(self)
        requires
            self is Array,
        ensures
            self@ is Array,
            self@->Array_0.len() == self->Array_0@.len(),
            forall|k: int|
                0 <= k < self->Array_0@.len() ==> (#[trigger] self@->Array_0[k])
                    == self->Array_0@[k]@,
    {
    }

    /// An object's view holds the names and the views of its members, in
    /// order.
    pub proof fn view_of_object(self)
        requires
            self is Object,
        ensures
            self@ is Object,
            self@->Object_0.len() == self->Object_0@.len(),
            forall|k: int|
                0 <= k < self->Object_0@.len() ==> (#[trigger] self@->Object_0[k]) == (
                    self->Object_0@[k].0@,
                    self->Object_0@[k].1@,
                ),
    {
    }

    /// The member `name` of an object.
    pub fn member(&self, name: &str) -> (r: Option<&Json>)
        ensures
            r.deep_view() == self@.member(name@),
    {
        match self {
            Json::Object(members) => {
                proof {
                    self.view_of_object();
                    assert(self@->Object_0.skip(0) =~= self@->Object_0);
                }
                let mut i: usize = 0;
                while i < members.len()
                    invariant
                        i <= members.len(),
                        self@ is Object,
                        self@->Object_0.len() == members.len(),
                        forall|k: int|
                            0 <= k < members.len() ==> (#[trigger] self@->Object_0[k]) == (
                                members@[k].0@,
                                members@[k].1@,
                            ),
                        lookup(self@->Object_0, name@) == lookup(
                            self@->Object_0.skip(i as int),
                            name@,
                        ),
                    decreases members.len() - i,
                {
                    let ghost rest = self@->Object_0.skip(i as int);
                    assert(rest[0] == self@->Object_0[i as int]);
                    assert(rest.drop_first() =~= self@->Object_0.skip(i + 1));
                    if same_text(members[i].0.as_str(), name) {
                        return Some(&members[i].1);
                    }
                    i = i + 1;
                }
                None
            },
            _ => None,
        }
    }

    /// The text of a string.
    pub fn text(&self) -> (r: Option<String>)
        ensures
            r.deep_view() == self@.text(),
    {
        match self {
            Json::Text(s) => Some(s.clone()),
            _ => None,
        }
    }

    /// The integer of a number that denotes an `i64`.
    pub fn integer(&self) -> (r: Option<i64>)
        ensures
            r == self@.integer(),
    {
        match self {
            Json::Number(n) => *n,
            _ => None,
        }
    }

    /// The texts of an array of strings.
    pub fn text_list(&self) -> (r: Option<Vec<String>>)
        ensures
            r.deep_view() == self@.text_list(),
    {
        match self {
            Json::Array(items) => {
                proof {
                    self.view_of_array();
                }
                let mut out: Vec<String> = Vec::new();
                let mut i: usize = 0;
                while i < items.len()
                    invariant
                        i <= items.len(),
                        self@ is Array,
                        self@->Array_0.len() == items.len(),
                        forall|k: int|
                            0 <= k < items.len() ==> (#[trigger] self@->Array_0[k])
                                == items@[k]@,
                        out.len() == i,
                        forall|k: int| 0 <= k < i ==> (#[trigger] self@->Array_0[k]) is Text,
                        forall|k: int|
                            0 <= k < i ==> (#[trigger] out@[k])@ == self@->Array_0[k]->Text_0,
                    decreases items.len() - i,
                {
                    match &items[i] {
                        Json::Text(s) => {
                            out.push(s.clone());
                        },
                        _ => {
                            assert(!(self@->Array_0[i as int] is Text));
                            return None;
                        },
                    }
                    i = i + 1;
                }
                assert(out.deep_view() =~= self@.text_list()->0);
                Some(out)
            },
            _ => None,
        }
    }

    /// The string member `name`, which must be there.
    pub fn text_at(&self, name: &str) -> (r: Option<String>)
        ensures
            r.deep_view() == self@.text_at(name@),
    {
        match self.member(name) {
            Some(v) => v.text(),
            None => None,
        }
    }

    /// The string member `name`, which may be missing or `null`.
    pub fn optional_text_at(&self, name: &str) -> (r: Option<Option<String>>)
        ensures
            r.deep_view() == self@.optional_text_at(name@),
    {
        match self.member(name) {
            None => Some(None),
            Some(Json::Null) => Some(None),
            Some(Json::Text(s)) => Some(Some(s.clone())),
            Some(_) => None,
        }
    }

    /// The integer member `name`, which must be there.
    pub fn integer_at(&self, name: &str) -> (r: Option<i64>)
        ensures
            r == self@.integer_at(name@),
    {
        match self.member(name) {
            Some(v) => v.integer(),
            None => None,
        }
    }

    /// The integer member `name`, which must be there and fit an `i32`.
    pub fn i32_at(&self, name: &str) -> (r: Option<i32>)
        ensures
            r == self@.i32_at(name@),
    {
        match self.integer_at(name) {
            Some(n) => if -2147483648 <= n && n <= 2147483647 {
                Some(n as i32)
            } else {
                None
            },
            None => None,
        }
    }

    /// The integer member `name`, which must be there and fit a `u16`.
    pub fn u16_at(&self, name: &str) -> (r: Option<u16>)
        ensures
            r == self@.u16_at(name@),
    {
        match self.integer_at(name) {
            Some(n) => if 0 <= n && n <= 65535 {
                Some(n as u16)
            } else {
                None
            },
            None => None,
        }
    }

    /// The member `name` as a list of strings, which must be there.
    pub fn text_list_at(&self, name: &str) -> (r: Option<Vec<String>>)
        ensures
            r.deep_view() == self@.text_list_at(name@),
    {
        match self.member(name) {
            Some(v) => v.text_list(),
            None => None,
        }
    }

    /// The member `name` as a list of strings; a missing member is the empty
    /// list.
    pub fn text_list_or_empty_at(&self, name: &str) -> (r: Option<Vec<String>>)
        ensures
            r.deep_view() == self@.text_list_or_empty_at(name@),
    {
        match self.member(name) {
            Some(v) => v.text_list(),
            None => {
                let out: Vec<String> = Vec::new();
                assert(out.deep_view() =~= Seq::<Seq<char>>::empty());
                Some(out)
            },
        }
    }
}

} // verus!
