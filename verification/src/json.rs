//! A plain model of JSON values, as `serde_json::Value` holds them, so that
//! the verified code can read what workerd and the tools send back.
use vstd::prelude::*;

use crate::text::chars_of;

verus! {

/// A JSON number, kept as `serde_json` keeps it: a non-negative integer, a
/// negative integer, or any other number by its decimal text.
#[derive(Debug)]
pub enum JsonNumber {
    PosInt(u64),
    NegInt(i64),
    Float(String),
}

/// A JSON value. Object entries are kept in the order they were given.
#[derive(Debug)]
pub enum JsonValue {
    Null,
    Bool(bool),
    Number(JsonNumber),
    Str(String),
    Array(Vec<JsonValue>),
    Object(Vec<(String, JsonValue)>),
}

/// The mathematical view of a JSON number.
pub enum NumberView {
    PosInt(u64),
    NegInt(i64),
    Float(Seq<char>),
}

/// The mathematical view of a JSON value.
pub enum Json {
    Null,
    Bool(bool),
    Number(NumberView),
    Str(Seq<char>),
    Array(Seq<Json>),
    Object(Seq<(Seq<char>, Json)>),
}

impl View for JsonNumber {
    type V = NumberView;

    open spec fn view(&self) -> NumberView {
        match self {
            JsonNumber::PosInt(n) => NumberView::PosInt(*n),
            JsonNumber::NegInt(n) => NumberView::NegInt(*n),
            JsonNumber::Float(s) => NumberView::Float(s@),
        }
    }
}

/// The views of a sequence of values.
pub open spec fn views_of(s: Seq<JsonValue>) -> Seq<Json>
    decreases s,
{
    if s.len() == 0 {
        seq![]
    } else {
        seq![json_view(s[0])] + views_of(s.drop_first())
    }
}

/// The views of a sequence of object entries.
pub open spec fn entry_views_of(s: Seq<(String, JsonValue)>) -> Seq<(Seq<char>, Json)>
    decreases s,
{
    if s.len() == 0 {
        seq![]
    } else {
        seq![(s[0].0@, json_view(s[0].1))] + entry_views_of(s.drop_first())
    }
}

/// The view of a value.
pub open spec fn json_view(v: JsonValue) -> Json
    decreases v,
{
    match v {
        JsonValue::Null => Json::Null,
        JsonValue::Bool(b) => Json::Bool(b),
        JsonValue::Number(n) => Json::Number(n@),
        JsonValue::Str(s) => Json::Str(s@),
        JsonValue::Array(items) => Json::Array(views_of(items@)),
        JsonValue::Object(entries) => Json::Object(entry_views_of(entries@)),
    }
}

impl View for JsonValue {
    type V = Json;

    open spec fn view(&self) -> Json {
        json_view(*self)
    }
}


pub proof fn lemma_views_of(s: Seq<JsonValue>)
    ensures
        views_of(s).len() == s.len(),
        forall|i: int| 0 <= i < s.len() ==> #[trigger] views_of(s)[i] == json_view(s[i]),
    decreases s.len(),
{
    if s.len() > 0 {
        lemma_views_of(s.drop_first());
        assert forall|i: int| 0 <= i < s.len() implies #[trigger] views_of(s)[i] == json_view(s[i]) by {
            if i > 0 {
                assert(views_of(s)[i] == views_of(s.drop_first())[i - 1]);
            }
        }
    }
}

pub proof fn lemma_entry_views_of(s: Seq<(String, JsonValue)>)
    ensures
        entry_views_of(s).len() == s.len(),
        forall|i: int|
            0 <= i < s.len() ==> #[trigger] entry_views_of(s)[i] == (s[i].0@, json_view(s[i].1)),
    decreases s.len(),
{
    if s.len() > 0 {
        lemma_entry_views_of(s.drop_first());
        assert forall|i: int| 0 <= i < s.len() implies #[trigger] entry_views_of(s)[i] == (
        s[i].0@, json_view(s[i].1)) by {
            if i > 0 {
                assert(entry_views_of(s)[i] == entry_views_of(s.drop_first())[i - 1]);
            }
        }
    }
}

/// The value stored under `key` among object entries (the first such entry).
pub open spec fn entries_get(entries: Seq<(Seq<char>, Json)>, key: Seq<char>) -> Option<Json>
    decreases entries.len(),
{
    if entries.len() == 0 {
        None
    } else if entries[0].0 == key {
        Some(entries[0].1)
    } else {
        entries_get(entries.drop_first(), key)
    }
}

/// Reading a key finds the first entry with that key.
pub proof fn lemma_entries_get_at(entries: Seq<(Seq<char>, Json)>, key: Seq<char>, i: int)
    requires
        0 <= i < entries.len(),
        entries[i].0 == key,
        forall|j: int| 0 <= j < i ==> entries[j].0 != key,
    ensures
        entries_get(entries, key) == Some(entries[i].1),
    decreases i,
{
    if i > 0 {
        let rest = entries.drop_first();
        assert forall|j: int| 0 <= j < i - 1 implies rest[j].0 != key by {
            assert(rest[j] == entries[j + 1]);
        }
        lemma_entries_get_at(rest, key, i - 1);
    }
}

/// Reading a key that no entry has finds nothing.
pub proof fn lemma_entries_get_absent(entries: Seq<(Seq<char>, Json)>, key: Seq<char>)
    requires
        forall|j: int| 0 <= j < entries.len() ==> entries[j].0 != key,
    ensures
        entries_get(entries, key) is None,
    decreases entries.len(),
{
    if entries.len() > 0 {
        let rest = entries.drop_first();
        assert forall|j: int| 0 <= j < rest.len() implies rest[j].0 != key by {
            assert(rest[j] == entries[j + 1]);
        }
        lemma_entries_get_absent(rest, key);
    }
}

/// `Value::get` with a string key: the field of an object, `None` otherwise.
pub open spec fn field(v: Json, key: Seq<char>) -> Option<Json> {
    match v {
        Json::Object(entries) => entries_get(entries, key),
        _ => None,
    }
}

/// `Value::as_str`.
pub open spec fn text_of(v: Json) -> Option<Seq<char>> {
    match v {
        Json::Str(s) => Some(s),
        _ => None,
    }
}

/// `Value::as_u64`.
pub open spec fn u64_of(v: Json) -> Option<u64> {
    match v {
        Json::Number(NumberView::PosInt(n)) => Some(n),
        Json::Number(NumberView::NegInt(n)) => if n >= 0 {
            Some(n as u64)
        } else {
            None
        },
        _ => None,
    }
}

/// `Value::as_array`.
pub open spec fn items_of(v: Json) -> Option<Seq<Json>> {
    match v {
        Json::Array(items) => Some(items),
        _ => None,
    }
}

/// Whether two strings are equal.
pub fn str_eq(a: &str, b: &str) -> (r: bool)
    ensures
        r == (a@ == b@),
{
    let va = chars_of(a);
    let vb = chars_of(b);
    if va.len() != vb.len() {
        return false;
    }
    let mut i: usize = 0;
    while i < va.len()
        invariant
            va@ == a@,
            vb@ == b@,
            va.len() == vb.len(),
            i <= va.len(),
            forall|k: int| 0 <= k < i ==> va@[k] == vb@[k],
        decreases va.len() - i,
    {
        if va[i] != vb[i] {
            return false;
        }
        i = i + 1;
    }
    assert(va@ =~= vb@);
    true
}

impl JsonNumber {
    /// A copy of the number.
    pub fn copy(&self) -> (r: JsonNumber)
        ensures
            r@ == self@,
    {
        match self {
            JsonNumber::PosInt(n) => JsonNumber::PosInt(*n),
            JsonNumber::NegInt(n) => JsonNumber::NegInt(*n),
            JsonNumber::Float(s) => JsonNumber::Float(s.clone()),
        }
    }
}

/// A copy of a list of values.
pub fn copy_values(items: &Vec<JsonValue>) -> (r: Vec<JsonValue>)
    ensures
        views_of(r@) == views_of(items@),
    decreases items@, 1int,
{
    let mut out: Vec<JsonValue> = Vec::new();
    let mut i: usize = 0;
    while i < items.len()
        invariant
            i <= items.len(),
            out@.len() == i,
            forall|k: int| 0 <= k < i ==> json_view(#[trigger] out@[k]) == json_view(items@[k]),
        decreases items.len() - i,
    {
        let c = items[i].copy();
        out.push(c);
        i = i + 1;
    }
    proof {
        lemma_views_of(out@);
        lemma_views_of(items@);
        assert(views_of(out@) =~= views_of(items@));
    }
    out
}

/// A copy of a list of object entries.
pub fn copy_entries(entries: &Vec<(String, JsonValue)>) -> (r: Vec<(String, JsonValue)>)
    ensures
        entry_views_of(r@) == entry_views_of(entries@),
    decreases entries@, 1int,
{
    let mut out: Vec<(String, JsonValue)> = Vec::new();
    let mut i: usize = 0;
    while i < entries.len()
        invariant
            i <= entries.len(),
            out@.len() == i,
            forall|k: int|
                0 <= k < i ==> (#[trigger] out@[k]).0@ == entries@[k].0@ && json_view(out@[k].1)
                    == json_view(entries@[k].1),
        decreases entries.len() - i,
    {
        let k = entries[i].0.clone();
        assert(decreases_to!(entries@, 1int => entries@[i as int].1, 0int));
        let c = entries[i].1.copy();
        out.push((k, c));
        i = i + 1;
    }
    proof {
        lemma_entry_views_of(out@);
        lemma_entry_views_of(entries@);
        assert(entry_views_of(out@) =~= entry_views_of(entries@));
    }
    out
}

impl JsonValue {
    /// A copy of the value.
    pub fn copy(&self) -> (r: JsonValue)
        ensures
            r@ == self@,
        decreases *self, 0int,
    {
        match self {
            JsonValue::Null => JsonValue::Null,
            JsonValue::Bool(b) => JsonValue::Bool(*b),
            JsonValue::Number(n) => JsonValue::Number(n.copy()),
            JsonValue::Str(s) => JsonValue::Str(s.clone()),
            JsonValue::Array(items) => JsonValue::Array(copy_values(items)),
            JsonValue::Object(entries) => JsonValue::Object(copy_entries(entries)),
        }
    }

    /// The field stored under `key`, if this is an object that has it.
    pub fn get(&self, key: &str) -> (r: Option<&JsonValue>)
        ensures
            match r {
                Some(v) => field(self@, key@) == Some(v@),
                None => field(self@, key@) is None,
            },
    {
        match self {
            JsonValue::Object(entries) => {
                let ghost ev = entry_views_of(entries@);
                proof {
                    lemma_entry_views_of(entries@);
                    assert(ev.subrange(0, ev.len() as int) =~= ev);
                    assert(self@ == Json::Object(ev));
                }
                let mut i: usize = 0;
                while i < entries.len()
                    invariant
                        i <= entries.len(),
                        ev == entry_views_of(entries@),
                        self@ == Json::Object(ev),
                        ev.len() == entries@.len(),
                        forall|k: int|
                            0 <= k < entries@.len() ==> #[trigger] ev[k] == (
                                entries@[k].0@,
                                json_view(entries@[k].1),
                            ),
                        entries_get(ev, key@) == entries_get(
                            ev.subrange(i as int, ev.len() as int),
                            key@,
                        ),
                    decreases entries.len() - i,
                {
                    let ghost rest = ev.subrange(i as int, ev.len() as int);
                    assert(rest.drop_first() =~= ev.subrange(i + 1, ev.len() as int));
                    assert(rest[0] == ev[i as int]);
                    if str_eq(entries[i].0.as_str(), key) {
                        return Some(&entries[i].1);
                    }
                    i = i + 1;
                }
                assert(self@ == Json::Object(ev));
                None
            },
            _ => None,
        }
    }

    /// The text of a string value.
    pub fn as_str(&self) -> (r: Option<&str>)
        ensures
            match r {
                Some(s) => text_of(self@) == Some(s@),
                None => text_of(self@) is None,
            },
    {
        match self {
            JsonValue::Str(s) => Some(s.as_str()),
            _ => None,
        }
    }

    /// The items of an array value.
    pub fn as_array(&self) -> (r: Option<&Vec<JsonValue>>)
        ensures
            match r {
                Some(items) => items_of(self@) == Some(views_of(items@)),
                None => items_of(self@) is None,
            },
    {
        match self {
            JsonValue::Array(items) => Some(items),
            _ => None,
        }
    }

    /// The value of a number that is a non-negative integer fitting `u64`.
    pub fn as_u64(&self) -> (r: Option<u64>)
        ensures
            r == u64_of(self@),
    {
        match self {
            JsonValue::Number(JsonNumber::PosInt(n)) => Some(*n),
            JsonValue::Number(JsonNumber::NegInt(n)) => if *n >= 0 {
                Some(*n as u64)
            } else {
                None
            },
            _ => None,
        }
    }

    /// Whether the value is `null`.
    pub fn is_null(&self) -> (r: bool)
        ensures
            r == (self@ is Null),
    {
        match self {
            JsonValue::Null => true,
            _ => false,
        }
    }
}

/// `serde_json::Value`, the value `serde_json` parses JSON text into.
#[verifier::external_type_specification]
#[verifier::external_body]
pub struct ExSerdeJsonValue(serde_json::Value);

/// The JSON value `serde_json::from_str` reads from a text, as a `Json`
/// (object entries in the order of `serde_json`'s map), or `None` where
/// the text is not JSON.
pub uninterp spec fn json_of_text(s: Seq<char>) -> Option<Json>;

/// Turns a `serde_json::Value` into the library's JSON value, variant by
/// variant (a number into an unsigned integer where it is one, else a
/// signed integer where it is one, else its text).
#[verifier::external_body]
fn json_value_from(v: serde_json::Value) -> JsonValue {
    match v {
        serde_json::Value::Null => JsonValue::Null,
        serde_json::Value::Bool(b) => JsonValue::Bool(b),
        serde_json::Value::Number(n) => JsonValue::Number(match (n.as_u64(), n.as_i64()) {
            (Some(u), _) => JsonNumber::PosInt(u),
            (None, Some(i)) => JsonNumber::NegInt(i),
            (None, None) => JsonNumber::Float(n.to_string()),
        }),
        serde_json::Value::String(s) => JsonValue::Str(s),
        serde_json::Value::Array(a) => JsonValue::Array(a.into_iter().map(json_value_from).collect()),
        serde_json::Value::Object(o) => JsonValue::Object(o.into_iter().map(|(k, x)| (k, json_value_from(x))).collect()),
    }
}

/// `serde_json::Error`, the error of a JSON (de)serialisation.
#[verifier::external_type_specification]
#[verifier::external_body]
pub struct ExJsonError(serde_json::Error);

/// The message of a `serde_json::Error` (its `Display` text).
#[verifier::external_body]
pub(crate) fn json_error_text(e: &serde_json::Error) -> String {
    e.to_string()
}

/// Parses JSON text with `serde_json::from_str`: `Ok` exactly where
/// `json_of_text` of the text is some value, and then that value.
#[verifier::external_body]
pub(crate) fn parse_json(s: &str) -> (r: Result<JsonValue, serde_json::Error>)
    ensures
        match r {
            Ok(v) => json_of_text(s@) == Some(v@),
            Err(_) => json_of_text(s@) is None,
        },
{
    serde_json::from_str::<serde_json::Value>(s).map(json_value_from)
}

} // verus!
