//! A model of the decoded JSON/MessagePack values that packets are made of.

use vstd::prelude::*;

use crate::text::text_eq;

verus! {

/// A JSON number, kept exactly as it was decoded.
#[derive(Debug, Clone, Copy, PartialEq)]
pub enum JsonNumber {
    /// A non-negative integer.
    PosInt(u64),
    /// A negative integer.
    NegInt(i64),
    /// A number with a fraction or an exponent, held as the bit pattern of
    /// its IEEE-754 double.
    Float(u64),
}

/// A decoded JSON value.
#[derive(Debug, PartialEq)]
pub enum JsonValue {
    Null,
    Bool(bool),
    Number(JsonNumber),
    Str(String),
    Array(Vec<JsonValue>),
    /// The entries of an object, in order.
    Object(Vec<(String, JsonValue)>),
}

/// The mathematical value of a decoded JSON value: text as character
/// sequences, arrays and objects as sequences.
pub ghost enum Json {
    Null,
    Bool(bool),
    Number(JsonNumber),
    Str(Seq<char>),
    Array(Seq<Json>),
    Object(Seq<(Seq<char>, Json)>),
}

impl View for JsonValue {
    type V = Json;

    open spec fn view(&self) -> Json
        decreases self,
    {
        match self {
            JsonValue::Null => Json::Null,
            JsonValue::Bool(b) => Json::Bool(*b),
            JsonValue::Number(n) => Json::Number(*n),
            JsonValue::Str(s) => Json::Str(s@),
            JsonValue::Array(items) => {
                proof {
                    assert(decreases_to!(items => items@));
                }
                Json::Array(values_view(items@))
            },
            JsonValue::Object(entries) => {
                proof {
                    assert(decreases_to!(entries => entries@));
                }
                Json::Object(entries_view(entries@))
            },
        }
    }
}

/// The views of a sequence of values.
pub open spec fn values_view(items: Seq<JsonValue>) -> Seq<Json>
    decreases items,
{
    Seq::new(
        items.len(),
        |i: int|
            if 0 <= i < items.len() {
                items[i].view()
            } else {
                Json::Null
            },
    )
}

/// The views of the entries of an object.
pub open spec fn entries_view(entries: Seq<(String, JsonValue)>) -> Seq<(Seq<char>, Json)>
    decreases entries,
{
    Seq::new(
        entries.len(),
        |i: int|
            if 0 <= i < entries.len() {
                proof {
                    assert(decreases_to!(entries => entries[i]));
                }
                (entries[i].0@, entries[i].1.view())
            } else {
                (Seq::empty(), Json::Null)
            },
    )
}

impl JsonValue {
    /// A copy of this value, equal to it.
    pub fn deep_copy(&self) -> (r: JsonValue)
        ensures
            r@ == self@,
        decreases self,
    {
        match self {
            JsonValue::Null => JsonValue::Null,
            JsonValue::Bool(b) => JsonValue::Bool(*b),
            JsonValue::Number(n) => JsonValue::Number(*n),
            JsonValue::Str(s) => JsonValue::Str(s.clone()),
            JsonValue::Array(items) => JsonValue::Array(copy_values(items)),
            JsonValue::Object(entries) => JsonValue::Object(copy_entries(entries)),
        }
    }
}

/// A copy of a sequence of values, equal to it.
pub fn copy_values(items: &Vec<JsonValue>) -> (r: Vec<JsonValue>)
    ensures
        values_view(r@) == values_view(items@),
    decreases items,
{
    let mut r: Vec<JsonValue> = Vec::new();
    let mut i: usize = 0;
    while i < items.len()
        invariant
            i <= items.len(),
            r@.len() == i,
            forall|j: int| 0 <= j < i ==> (#[trigger] r@[j])@ == items@[j]@,
        decreases items.len() - i,
    {
        assert(decreases_to!(items => items@));
        assert(decreases_to!(items@ => items@[i as int]));
        let v = items[i].deep_copy();
        r.push(v);
        i = i + 1;
    }
    assert(values_view(r@) =~= values_view(items@));
    r
}

/// A copy of the entries of an object, equal to them.
pub fn copy_entries(entries: &Vec<(String, JsonValue)>) -> (r: Vec<(String, JsonValue)>)
    ensures
        entries_view(r@) == entries_view(entries@),
    decreases entries,
{
    let mut r: Vec<(String, JsonValue)> = Vec::new();
    let mut i: usize = 0;
    while i < entries.len()
        invariant
            i <= entries.len(),
            r@.len() == i,
            forall|j: int|
                0 <= j < i ==> (#[trigger] r@[j]).0@ == entries@[j].0@ && r@[j].1@
                    == entries@[j].1@,
        decreases entries.len() - i,
    {
        assert(decreases_to!(entries => entries@));
        assert(decreases_to!(entries@ => entries@[i as int]));
        assert(decreases_to!(entries@[i as int] => entries@[i as int].1));
        let key = entries[i].0.clone();
        let v = entries[i].1.deep_copy();
        r.push((key, v));
        i = i + 1;
    }
    assert(entries_view(r@) =~= entries_view(entries@));
    r
}

/// The value of `v` as a 64-bit signed integer, where it is one.
pub open spec fn json_i64(v: Json) -> Option<i64> {
    match v {
        Json::Number(JsonNumber::PosInt(u)) => if u <= i64::MAX {
            Some(u as i64)
        } else {
            None
        },
        Json::Number(JsonNumber::NegInt(i)) => Some(i),
        _ => None,
    }
}

/// An integer field read from `v`: its 64-bit value, or 0, cut to 32 bits.
pub open spec fn int_field(v: Json) -> i32 {
    (match json_i64(v) {
        Some(i) => i,
        None => 0i64,
    }) as i32
}

/// The number that stands for zero where a slot holds no number.
pub open spec fn zero_number() -> JsonNumber {
    JsonNumber::Float(0)
}

/// A real-valued field read from `v`: the number it holds, or zero.
pub open spec fn real_field(v: Json) -> JsonNumber {
    match v {
        Json::Number(n) => n,
        _ => zero_number(),
    }
}

/// A text field read from `v`: the text it holds, or the empty text.
pub open spec fn text_field(v: Json) -> Seq<char> {
    match v {
        Json::Str(s) => s,
        _ => Seq::empty(),
    }
}

/// A boolean field read from `v`: the boolean it holds, or false.
pub open spec fn bool_field(v: Json) -> bool {
    match v {
        Json::Bool(b) => b,
        _ => false,
    }
}

/// A flag read from `v`: whether it is the integer 1.
pub open spec fn flag_field(v: Json) -> bool {
    json_i64(v) == Some(1i64)
}

/// The element at `i`, or null where there is none.
pub open spec fn json_at(items: Seq<Json>, i: int) -> Json {
    if 0 <= i < items.len() {
        items[i]
    } else {
        Json::Null
    }
}

/// The value that an object's entries give to `key`: that of the last
/// entry with this key.
pub open spec fn object_get(entries: Seq<(Seq<char>, Json)>, key: Seq<char>) -> Option<Json>
    decreases entries.len(),
{
    if entries.len() == 0 {
        None
    } else if entries.last().0 == key {
        Some(entries.last().1)
    } else {
        object_get(entries.drop_last(), key)
    }
}

impl JsonValue {
    /// The value as a 64-bit signed integer, where it is one.
    pub fn as_i64(&self) -> (r: Option<i64>)
        ensures
            r == json_i64(self@),
    {
        match self {
            JsonValue::Number(JsonNumber::PosInt(u)) => {
                if *u <= 0x7fff_ffff_ffff_ffffu64 {
                    Some(*u as i64)
                } else {
                    None
                }
            },
            JsonValue::Number(JsonNumber::NegInt(i)) => Some(*i),
            _ => None,
        }
    }

    /// The integer field that this value gives.
    pub fn int_or_zero(&self) -> (r: i32)
        ensures
            r == int_field(self@),
    {
        let i: i64 = match self.as_i64() {
            Some(i) => i,
            None => 0,
        };
        #[verifier::truncate]
        (i as i32)
    }

    /// The real-valued field that this value gives.
    pub fn real_or_zero(&self) -> (r: JsonNumber)
        ensures
            r == real_field(self@),
    {
        match self {
            JsonValue::Number(n) => *n,
            _ => JsonNumber::Float(0),
        }
    }

    /// The text field that this value gives.
    pub fn text_or_empty(&self) -> (r: String)
        ensures
            r@ == text_field(self@),
    {
        match self {
            JsonValue::Str(s) => s.clone(),
            _ => String::new(),
        }
    }

    /// The boolean field that this value gives.
    pub fn bool_or_false(&self) -> (r: bool)
        ensures
            r == bool_field(self@),
    {
        match self {
            JsonValue::Bool(b) => *b,
            _ => false,
        }
    }

    /// Whether this value is the integer 1.
    pub fn is_one(&self) -> (r: bool)
        ensures
            r == flag_field(self@),
    {
        match self.as_i64() {
            Some(i) => i == 1,
            None => false,
        }
    }
}

/// The element at `i` copied, or null where there is none.
pub fn value_at_or_null(items: &Vec<JsonValue>, i: usize) -> (r: JsonValue)
    ensures
        r@ == json_at(values_view(items@), i as int),
{
    if i < items.len() {
        items[i].deep_copy()
    } else {
        JsonValue::Null
    }
}

/// The value that an object's entries give to `key`.
pub fn object_lookup<'a>(entries: &'a Vec<(String, JsonValue)>, key: &str) -> (r: Option<&'a JsonValue>)
    ensures
        match r {
            Some(v) => object_get(entries_view(entries@), key@) == Some(v@),
            None => object_get(entries_view(entries@), key@) is None,
        },
{
    let mut i = entries.len();
    assert(entries@.subrange(0, i as int) =~= entries@);
    while i > 0
        invariant
            i <= entries.len(),
            object_get(entries_view(entries@), key@) == object_get(
                entries_view(entries@.subrange(0, i as int)),
                key@,
            ),
        decreases i,
    {
        let ghost before = entries@.subrange(0, i as int);
        assert(entries_view(before).drop_last() =~= entries_view(before.drop_last()));
        assert(before.drop_last() =~= entries@.subrange(0, i - 1));
        i = i - 1;
        if text_eq(entries[i].0.as_str(), key) {
            return Some(&entries[i].1);
        }
    }
    None
}

} // verus!
